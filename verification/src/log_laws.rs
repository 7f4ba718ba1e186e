//! What the debug log tells, line by line.
//!
//! A law that speaks of a call holds of every value that the call may return.
use crate::action::ActionState;
use crate::clipboard::{ClipboardAction, ClipboardRead, ClipboardType, CopyClipboardType};
use crate::debug_log::{
    copy_report, edit_completed_report, edit_started_report, push_report, read_report,
    switch_report, write_report,
};
use crate::exchange::{Reply, Request, Stage, Task};
use crate::notification::Notice;
use crate::stack::{StackAction, StackState};
use crate::text::decimal;
use crate::transfer::{BothReads, PairWrite};
use vstd::prelude::*;

verus! {

/// The length of a text, as the log tells it.
pub open spec fn counted(length: nat) -> Seq<char> {
    "length="@ + decimal(length) + " chars"@
}

/// A read, as the log tells it: its state and how long its text is.
pub open spec fn described(read: ClipboardRead) -> Seq<char> {
    match read {
        ClipboardRead::Text(text) => "state="@ + "Text"@ + ", "@ + counted(text@.len()),
        ClipboardRead::Empty => "state="@ + "Empty"@ + ", "@ + counted(0),
        ClipboardRead::NonText => "state="@ + "NonText"@ + ", "@ + counted(0),
        ClipboardRead::Unsupported => "state="@ + "Unsupported"@ + ", "@ + counted(0),
        ClipboardRead::Oversized { .. } => "state="@ + "Oversized"@ + ", "@ + counted(0),
        ClipboardRead::Error(_) => "state="@ + "Error"@ + ", "@ + counted(0),
    }
}

/// A selection that is read, as the log calls it.
pub open spec fn called(selection: ClipboardType) -> Seq<char> {
    if selection is Primary {
        "Primary"@
    } else {
        "Regular"@
    }
}

/// What is written, as the log calls it.
pub open spec fn written_to(selection: CopyClipboardType) -> Seq<char> {
    if selection is Primary {
        "Primary"@
    } else if selection is Regular {
        "Regular"@
    } else {
        "Both"@
    }
}

/// Each line on reads names what the reads are for, and describes each read under the name of its
/// selection.
pub proof fn law_reads_are_described(
    source: ClipboardType,
    read: ClipboardRead,
    other: ClipboardRead,
    note: String,
    copied: String,
    exchanged: String,
    pushed: String,
)
    requires
        call_ensures(read_report, (&read,), note),
        call_ensures(copy_report, (source, &read), copied),
        call_ensures(switch_report, (&read, &other), exchanged),
        call_ensures(push_report, (source, &read), pushed),
    ensures
        note@ == described(read),
        source is Primary ==> copied@ == "[debug] COPY_PRIMARY read: primary="@ + described(read),
        source is Regular ==> copied@ == "[debug] COPY_REGULAR read: regular="@ + described(read),
        exchanged@ == "[debug] SWITCH read: primary="@ + described(read) + ", regular="@
            + described(other),
        pushed@ == "[debug] stack push: source="@ + called(source) + ", "@ + described(read),
{
}

/// Each line on a text tells how many characters it has.
pub proof fn law_texts_are_counted(
    destination: CopyClipboardType,
    text: &str,
    written: String,
    started: String,
    completed: String,
)
    requires
        call_ensures(write_report, (destination, text), written),
        call_ensures(edit_started_report, (text,), started),
        call_ensures(edit_completed_report, (text,), completed),
    ensures
        written@ == "[debug] writing destination: "@ + written_to(destination) + ", "@ + counted(
            text@.len(),
        ),
        started@ == "[debug] editor started: original_length="@ + decimal(text@.len())
            + " chars"@,
        completed@ == "[debug] editor completed: edited_length="@ + decimal(text@.len())
            + " chars"@,
{
}

/// Whether there is exactly one line, and it is the one given.
pub open spec fn only_line(lines: Vec<String>, line: Seq<char>) -> bool {
    lines@.len() == 1 && lines@[0]@ == line
}

/// Whether there are exactly two lines, and they are those given.
pub open spec fn only_lines(lines: Vec<String>, first: Seq<char>, second: Seq<char>) -> bool {
    lines@.len() == 2 && lines@[0]@ == first && lines@[1]@ == second
}

proof fn lemma_lines(lines: Vec<String>)
    ensures
        lines.deep_view().len() == lines@.len(),
        lines@.len() > 0 ==> lines.deep_view()[0] == lines@[0]@,
        lines@.len() > 1 ==> lines.deep_view()[1] == lines@[1]@,
{
}

/// Before a task on the selections writes or clears, the log tells where to, and what for.
pub proof fn law_requests_are_logged(
    task: Task<ActionState>,
    request: Request,
    lines: Vec<String>,
)
    requires
        call_ensures(Task::<ActionState>::log_request, (&task, &request), lines),
    ensures
        request matches Request::Write(destination, text) ==> {
            let written = "[debug] writing destination: "@ + written_to(destination) + ", "@
                + counted(text@.len());
            if task.notice is StackCopy {
                only_lines(
                    lines,
                    "[debug] stack copy: destination="@ + written_to(destination) + ", "@
                        + counted(text@.len()),
                    written,
                )
            } else {
                only_line(lines, written)
            }
        },
        request matches Request::Clear(destination) ==> {
            &&& task.notice == Notice::Action(ClipboardAction::Reset) ==> only_line(
                lines,
                "[debug] RESET clearing primary and regular clipboards"@,
            )
            &&& task.notice is Action && task.notice != Notice::Action(ClipboardAction::Reset)
                ==> only_line(
                lines,
                "[debug] clearing switch destination: "@ + written_to(destination),
            )
            &&& task.notice is Clear ==> only_line(
                lines,
                "[debug] clearing clipboard from menu: "@ + written_to(destination),
            )
            &&& !(task.notice is Action) && !(task.notice is Clear) ==> lines@.len() == 0
        },
        !(request is Write) && !(request is Clear) ==> lines@.len() == 0,
{
    lemma_lines(lines);
}

/// Whether the lines are those on a step of a write to both selections: one if the step failed or
/// undid the first one, none otherwise.
pub open spec fn tells_of_step<T: DeepView>(
    writes: PairWrite<T>,
    result: Result<(), String>,
    lines: Vec<String>,
) -> bool {
    match result {
        Err(error) => only_line(
            lines,
            if writes is Primary {
                "[debug] multi-write failed: step=Primary, error="@ + error@
            } else if writes is Regular {
                "[debug] multi-write failed: step=Regular, error="@ + error@
            } else {
                "[debug] multi-write rollback failed: destination=Primary, error="@ + error@
            },
        ),
        Ok(_) => if writes is Restoring {
            only_line(lines, "[debug] multi-write rollback completed: destination=Primary"@)
        } else {
            lines@.len() == 0
        },
    }
}

/// Once a task on the selections has a reply, the log tells of a read that is copied, of two reads
/// that are exchanged once both are there, and of writes that failed or were undone.
pub proof fn law_replies_are_logged(task: Task<ActionState>, reply: Reply, lines: Vec<String>)
    requires
        call_ensures(Task::<ActionState>::log_reply, (&task, &reply), lines),
    ensures
        match (task.stage, reply) {
            (Stage::Working(ActionState::Copying { source, .. }), Reply::Read(read)) => only_line(
                lines,
                if source is Primary {
                    "[debug] COPY_PRIMARY read: primary="@ + described(read)
                } else {
                    "[debug] COPY_REGULAR read: regular="@ + described(read)
                },
            ),
            (
                Stage::Working(ActionState::Reading(BothReads::Regular(primary))),
                Reply::Read(regular),
            ) => only_line(
                lines,
                "[debug] SWITCH read: primary="@ + described(primary) + ", regular="@ + described(
                    regular,
                ),
            ),
            (
                Stage::Working(ActionState::Switching(writes)),
                Reply::Written(result),
            ) => tells_of_step(writes, result, lines),
            _ => lines@.len() == 0,
        },
{
    lemma_lines(lines);
}

/// Before a task on the stack writes, the log tells where to, and of an entry that goes to one
/// selection also that it is popped.
pub proof fn law_stack_requests_are_logged(
    task: Task<StackState>,
    request: Request,
    lines: Vec<String>,
)
    requires
        call_ensures(Task::<StackState>::log_request, (&task, &request), lines),
    ensures
        request matches Request::Write(destination, text) ==> {
            let written = "[debug] writing destination: "@ + written_to(destination) + ", "@
                + counted(text@.len());
            if task.stage matches Stage::Working(StackState::Popping) {
                only_lines(
                    lines,
                    "[debug] stack pop: destination="@ + written_to(destination) + ", "@
                        + counted(text@.len()),
                    written,
                )
            } else {
                only_line(lines, written)
            }
        },
        !(request is Write) ==> lines@.len() == 0,
{
    lemma_lines(lines);
}

/// Once a task on the stack has a reply, the log tells of a read that is pushed and where from, of
/// an entry that goes to both selections, if the primary one could be restored, and of writes that
/// failed or were undone.
pub proof fn law_stack_replies_are_logged(task: Task<StackState>, reply: Reply, lines: Vec<String>)
    requires
        call_ensures(Task::<StackState>::log_reply, (&task, &reply), lines),
    ensures
        match (task.stage, reply) {
            (Stage::Working(StackState::Pushing { .. }), Reply::Read(read)) => only_line(
                lines,
                "[debug] stack push: source="@ + (if task.notice == Notice::Stack(
                    StackAction::PushPrimary,
                ) {
                    "Primary"@
                } else {
                    "Regular"@
                }) + ", "@ + described(read),
            ),
            (Stage::Working(StackState::Preparing { value }), Reply::Read(read)) => match read {
                ClipboardRead::Text(original) => only_line(
                    lines,
                    "[debug] stack pop: destination=Primary+Regular, "@ + counted(value@.len())
                        + ", original_primary="@ + decimal(original@.len()) + " chars"@,
                ),
                ClipboardRead::Empty => only_line(
                    lines,
                    "[debug] stack pop: destination=Primary+Regular, "@ + counted(value@.len())
                        + ", original_primary="@ + decimal(0) + " chars"@,
                ),
                _ => lines@.len() == 0,
            },
            (
                Stage::Working(StackState::PoppingBoth(writes)),
                Reply::Written(result),
            ) => tells_of_step(writes, result, lines),
            _ => lines@.len() == 0,
        },
{
    lemma_lines(lines);
}

} // verus!
