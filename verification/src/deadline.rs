//! Reading under a deadline.
//!
//! The content of a selection is served by whichever application owns it, so an unresponsive
//! owner would otherwise stall a blocking read forever. The deadline is enforced on the
//! descriptor itself: every wait for data is bounded by the time that is left.
use crate::text::{decimal, decimal_text, join3};
use vstd::prelude::*;

verus! {

/// Nanoseconds in a millisecond.
pub const NANOS_PER_MILLI: u128 = 1_000_000;

/// A point in time by which a read must have ended. Times are in nanoseconds, on a clock that
/// never goes back.
#[derive(Clone, Copy, Debug, PartialEq, Eq, Structural)]
pub struct DeadlineReader {
    pub timeout: u128,
    pub deadline: u128,
}

/// Something that happened while a read was under way.
#[derive(Debug, PartialEq, Eq)]
pub enum ReadEvent {
    /// The clock was read.
    Clock(u128),
    /// A wait for data ended; this many descriptors are ready.
    Polled(i32),
    /// A wait for data failed.
    PollFailed { interrupted: bool, error: String },
    /// Some bytes were read, or the end of the data.
    Bytes(usize),
    /// There was nothing to read after all, or the attempt was interrupted.
    ReadAgain,
    /// An attempt to read failed.
    ReadFailed(String),
}

/// What to do next in a read.
#[derive(Debug, PartialEq, Eq)]
pub enum ReadAction {
    /// Look at the clock.
    CheckClock,
    /// Wait for data for at most this many milliseconds.
    Poll(i32),
    /// Read what is there.
    Read,
    /// End with this many bytes.
    Return(usize),
    /// End with the message that time is up.
    TimedOut(String),
    /// End with this error.
    Fail(String),
}

impl DeadlineReader {
    /// The time that is left.
    pub open spec fn remaining(self, now: u128) -> int {
        if now < self.deadline {
            self.deadline - now
        } else {
            0
        }
    }

    /// What is said about a read that did not end in time.
    pub open spec fn timeout_message(self) -> Seq<char> {
        "timed out after "@ + decimal((self.timeout / NANOS_PER_MILLI) as nat) + " ms"@
    }

    /// A read that starts `now` and may take `timeout`.
    pub fn new(timeout: u128, now: u128) -> (reader: Self)
        requires
            now + timeout <= u128::MAX,
        ensures
            reader.timeout == timeout,
            reader.deadline == now + timeout,
    {
        DeadlineReader { timeout, deadline: now + timeout }
    }

    /// Says that the read did not end in time.
    pub fn timed_out(&self) -> (message: String)
        ensures
            message@ == self.timeout_message(),
    {
        join3("timed out after ", decimal_text(self.timeout / NANOS_PER_MILLI).as_str(), " ms")
    }

    /// How long to wait for data, in whole milliseconds of the time that is left.
    pub open spec fn poll_time(self, now: u128) -> int {
        let milliseconds = self.remaining(now) / NANOS_PER_MILLI as int;
        if milliseconds > i32::MAX {
            i32::MAX as int
        } else {
            milliseconds
        }
    }

    fn wait(&self, now: u128) -> (action: ReadAction)
        ensures
            if self.remaining(now) == 0 {
                action matches ReadAction::TimedOut(message) && message@ == self.timeout_message()
            } else {
                action matches ReadAction::Poll(milliseconds) && milliseconds == self.poll_time(now)
            },
    {
        if now >= self.deadline {
            return ReadAction::TimedOut(self.timed_out());
        }
        let milliseconds: u128 = (self.deadline - now) / NANOS_PER_MILLI;
        if milliseconds > i32::MAX as u128 {
            ReadAction::Poll(i32::MAX)
        } else {
            ReadAction::Poll(milliseconds as i32)
        }
    }

    /// Decides how a read goes on after `event`. It starts with a look at the clock.
    pub fn read(&self, event: ReadEvent) -> (action: ReadAction)
        ensures
            match event {
                ReadEvent::Clock(now) => if self.remaining(now) == 0 {
                    action matches ReadAction::TimedOut(message) && message@
                        == self.timeout_message()
                } else {
                    action matches ReadAction::Poll(milliseconds) && milliseconds == self.poll_time(
                        now,
                    )
                },
                ReadEvent::Polled(count) => if count == 0 {
                    action matches ReadAction::TimedOut(message) && message@
                        == self.timeout_message()
                } else {
                    action == ReadAction::Read
                },
                ReadEvent::PollFailed { interrupted, error } => action == if interrupted {
                    ReadAction::CheckClock
                } else {
                    ReadAction::Fail(error)
                },
                ReadEvent::Bytes(count) => action == ReadAction::Return(count),
                ReadEvent::ReadAgain => action == ReadAction::CheckClock,
                ReadEvent::ReadFailed(error) => action == ReadAction::Fail(error),
            },
    {
        match event {
            ReadEvent::Clock(now) => self.wait(now),
            ReadEvent::Polled(count) => if count == 0 {
                ReadAction::TimedOut(self.timed_out())
            } else {
                ReadAction::Read
            },
            ReadEvent::PollFailed { interrupted, error } => if interrupted {
                ReadAction::CheckClock
            } else {
                ReadAction::Fail(error)
            },
            ReadEvent::Bytes(count) => ReadAction::Return(count),
            ReadEvent::ReadAgain => ReadAction::CheckClock,
            ReadEvent::ReadFailed(error) => ReadAction::Fail(error),
        }
    }
}

/// A wait for data never lasts beyond the deadline, and falls short of it by less than a
/// millisecond unless it is as long as a wait can be.
pub proof fn law_waits_end_by_the_deadline(reader: DeadlineReader, now: u128)
    ensures
        reader.remaining(now) > 0 ==> now + reader.poll_time(now) * NANOS_PER_MILLI
            <= reader.deadline,
        reader.remaining(now) > 0 && reader.poll_time(now) < i32::MAX ==> reader.deadline < now + (
        reader.poll_time(now) + 1) * NANOS_PER_MILLI,
{
    let left = reader.remaining(now);
    assert(left == (left / 1_000_000) * 1_000_000 + left % 1_000_000);
}

/// From the deadline on a read does not wait any more, and at its start it waits unless it was
/// given no time at all.
pub proof fn law_no_wait_after_the_deadline(reader: DeadlineReader, now: u128)
    ensures
        now >= reader.deadline <==> reader.remaining(now) == 0,
        now + reader.timeout == reader.deadline && reader.timeout > 0 ==> reader.remaining(now) > 0,
{
}

} // verus!
