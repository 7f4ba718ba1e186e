//! What reading the selections, watching them and noticing their changes is for.
//!
//! A law that speaks of a call holds of every value that the call may return.
use crate::clipboard::{
    bytes_to_receive, decoded, read, read_text, receive_limit, ClipboardRead, ClipboardType,
    PasteError, ReadModel, Reception, SwitchValue,
};
use crate::clipboard_monitor::{
    bind_request, run, seat_names, stopped_message, usable_seats, DeviceEvent, Global, ManagerKind,
    MonitorEvent, MonitorRun, MonitorState, RunProgress, RunReply, RunRequest,
};
use crate::deadline::{DeadlineReader, ReadAction, ReadEvent};
use crate::notification::{
    change_between, clipboard_change, differs, latest, observed_value_changed, ClipboardChange,
    ClipboardObservations, Observation,
};
use crate::text::decimal;
use crate::transfer::{read_both, BothProgress, BothReads};
use vstd::prelude::*;
use vstd::utf8::*;

verus! {

/// The model of a read is the read, with its text as characters.
pub proof fn law_reads_are_modelled_whole(read: ClipboardRead)
    ensures
        read matches ClipboardRead::Text(text) ==> read@ == ReadModel::Text(text@),
        read matches ClipboardRead::Error(error) ==> read@ == ReadModel::Error(error@),
        read matches ClipboardRead::Oversized { limit } ==> read@ == (ReadModel::Oversized {
            limit,
        }),
        read is Empty <==> read@ is Empty,
        read is NonText <==> read@ is NonText,
        read is Unsupported <==> read@ is Unsupported,
{
}

/// The name of a state tells the states apart and nothing else.
pub proof fn law_states_are_told_apart(left: ReadModel, right: ReadModel)
    ensures
        left.state_name() == right.state_name() <==> {
            ||| left is Text && right is Text
            ||| left is Empty && right is Empty
            ||| left is NonText && right is NonText
            ||| left is Unsupported && right is Unsupported
            ||| left is Oversized && right is Oversized
            ||| left is Error && right is Error
        },
{
    reveal_strlit("Text");
    reveal_strlit("Empty");
    reveal_strlit("NonText");
    reveal_strlit("Unsupported");
    reveal_strlit("Oversized");
    reveal_strlit("Error");
    assert("Text"@.len() == 4 && "Empty"@.len() == 5 && "NonText"@.len() == 7);
    assert("Unsupported"@.len() == 11 && "Oversized"@.len() == 9 && "Error"@.len() == 5);
    assert("Empty"@[1] == 'm' && "Error"@[1] == 'r');
}

/// A read is named after its state, is as long as its text, and counts as an observation exactly
/// if it found a text or an empty selection.
pub proof fn law_what_a_read_tells(
    read: ClipboardRead,
    name: &'static str,
    length: usize,
    observation: Option<Option<String>>,
)
    requires
        call_ensures(ClipboardRead::state, (&read,), name),
        call_ensures(ClipboardRead::text_length, (&read,), length),
        call_ensures(ClipboardRead::observation, (&read,), observation),
    ensures
        name@ == (match read {
            ClipboardRead::Text(_) => "Text"@,
            ClipboardRead::Empty => "Empty"@,
            ClipboardRead::NonText => "NonText"@,
            ClipboardRead::Unsupported => "Unsupported"@,
            ClipboardRead::Oversized { .. } => "Oversized"@,
            ClipboardRead::Error(_) => "Error"@,
        }),
        read matches ClipboardRead::Text(text) ==> length == text@.len(),
        !(read is Text) ==> length == 0,
        read matches ClipboardRead::Text(text) ==> (observation matches Some(Some(seen)) && seen@
            == text@),
        read is Empty ==> observation == Some(None::<String>),
        !(read is Text) && !(read is Empty) ==> observation is None,
{
    if let Some(Some(seen)) = observation {
        assert(observation.deep_view() == Some(Some(seen@)));
    } else if let Some(None) = observation {
        assert(observation.deep_view() == Some(None::<Seq<char>>));
    }
}

/// A read gives its text exactly if it found one, also for an editor, and for an exchange also if
/// the selection is empty. Everything else is refused, for a reason that names the selection.
pub proof fn law_which_reads_can_be_used(
    read: ClipboardRead,
    source: &str,
    text: Result<String, String>,
    editable: Result<String, String>,
    exchange: Result<SwitchValue, String>,
)
    requires
        call_ensures(ClipboardRead::into_text, (read, source), text),
        call_ensures(ClipboardRead::into_editable, (read, source), editable),
        call_ensures(ClipboardRead::into_switch_value, (read, source), exchange),
    ensures
        text is Ok <==> read is Text,
        editable is Ok <==> read is Text,
        exchange is Ok <==> read is Text || read is Empty,
        text matches Ok(value) ==> read == ClipboardRead::Text(value),
        editable matches Ok(value) ==> read == ClipboardRead::Text(value),
        exchange matches Ok(SwitchValue::Text(value)) ==> read == ClipboardRead::Text(value),
        exchange matches Ok(SwitchValue::Empty) ==> read is Empty,
        text matches Err(message) ==> refuses(read, source@, message@),
        editable matches Err(message) ==> refuses(read, source@, message@),
        exchange matches Err(message) ==> refuses(read, source@, message@),
{
}

/// Whether a message says why a read of the selection called `source` is of no use.
pub open spec fn refuses(read: ClipboardRead, source: Seq<char>, message: Seq<char>) -> bool {
    &&& read is Empty ==> message == source + " clipboard is empty"@
    &&& read is NonText ==> message == source + " clipboard does not contain text"@
    &&& read is Unsupported ==> message == source + " clipboard is unsupported"@
    &&& read matches ClipboardRead::Oversized { limit } ==> message == source
        + " clipboard exceeds the configured "@ + decimal(limit as nat) + "-byte limit"@
    &&& read matches ClipboardRead::Error(error) ==> message == "could not read "@ + source
        + " clipboard: "@ + error@
}

/// One byte more than the limit is received, if there are such numbers.
pub proof fn law_one_byte_more_is_received(max_bytes: u64, limit: u64)
    requires
        call_ensures(bytes_to_receive, (max_bytes,), limit),
    ensures
        limit == receive_limit(max_bytes),
        max_bytes < u64::MAX ==> limit == max_bytes + 1,
        max_bytes == u64::MAX ==> limit == u64::MAX,
{
}

/// Bytes are too many exactly above the limit, and otherwise a text exactly if they encode one.
pub proof fn law_what_bytes_are_read_as(bytes: Seq<u8>, max_bytes: u64)
    ensures
        bytes.len() > max_bytes ==> decoded(bytes, max_bytes) == (ReadModel::Oversized {
            limit: max_bytes,
        }),
        bytes.len() <= max_bytes && valid_utf8(bytes) ==> (decoded(
            bytes,
            max_bytes,
        ) matches ReadModel::Text(text) && encode_utf8(text) == bytes),
        bytes.len() <= max_bytes && !valid_utf8(bytes) ==> decoded(bytes, max_bytes)
            == ReadModel::NonText,
{
    if valid_utf8(bytes) {
        decode_utf8_encode_utf8(bytes);
    }
}

/// What was received is a text exactly if it is within the limit and encodes one; a failure to
/// receive is an error and never content.
pub proof fn law_what_is_received_is_read(
    received: Result<Vec<u8>, String>,
    max_bytes: u64,
    found: ClipboardRead,
)
    requires
        call_ensures(read_text, (received, max_bytes), found),
    ensures
        received matches Ok(bytes) ==> {
            &&& bytes@.len() > max_bytes <==> found == (ClipboardRead::Oversized {
                limit: max_bytes,
            })
            &&& found is Text <==> bytes@.len() <= max_bytes && valid_utf8(bytes@)
            &&& found matches ClipboardRead::Text(text) ==> encode_utf8(text@) == bytes@
            &&& found is NonText <==> bytes@.len() <= max_bytes && !valid_utf8(bytes@)
        },
        received matches Err(error) ==> (found matches ClipboardRead::Error(message) && message@
            == "could not receive contents: "@ + error@),
{
    if let Ok(bytes) = received {
        law_what_bytes_are_read_as(bytes@, max_bytes);
    }
}

/// Each way in which a selection can fail to be handed over is told apart.
pub proof fn law_receptions_are_told_apart(
    reception: Reception,
    max_bytes: u64,
    found: ClipboardRead,
)
    requires
        call_ensures(read, (reception, max_bytes), found),
    ensures
        reception == Reception::Refused(PasteError::ClipboardEmpty) ==> found is Empty,
        reception == Reception::Refused(PasteError::NoMimeType) ==> found is NonText,
        reception == Reception::Refused(PasteError::PrimarySelectionUnsupported)
            ==> found is Unsupported,
        reception matches Reception::Refused(PasteError::Other(error)) ==> (
        found matches ClipboardRead::Error(message) && message@ == error@),
        reception matches Reception::Unprepared(error) ==> (
        found matches ClipboardRead::Error(message) && message@
            == "could not prepare clipboard reader: "@ + error@),
        reception matches Reception::Contents(Err(error)) ==> (
        found matches ClipboardRead::Error(message) && message@ == "could not receive contents: "@
            + error@),
        reception matches Reception::Contents(Ok(bytes)) ==> {
            &&& bytes@.len() > max_bytes <==> found == (ClipboardRead::Oversized {
                limit: max_bytes,
            })
            &&& found is Text <==> bytes@.len() <= max_bytes && valid_utf8(bytes@)
            &&& found matches ClipboardRead::Text(text) ==> encode_utf8(text@) == bytes@
            &&& found is NonText <==> bytes@.len() <= max_bytes && !valid_utf8(bytes@)
        },
{
    if let Reception::Contents(Ok(bytes)) = reception {
        law_what_bytes_are_read_as(bytes@, max_bytes);
    }
}

/// Both selections are read, the primary one first, and each read is kept as it is.
pub proof fn law_both_selections_are_read(
    start: BothProgress,
    primary: ClipboardRead,
    regular: ClipboardRead,
    middle: BothProgress,
    end: BothProgress,
)
    requires
        call_ensures(read_both, (), start),
        call_ensures(BothReads::resume, (BothReads::Primary, primary), middle),
        call_ensures(BothReads::resume, (BothReads::Regular(primary), regular), end),
    ensures
        start == BothProgress::Read(BothReads::Primary, ClipboardType::Primary),
        middle == BothProgress::Read(BothReads::Regular(primary), ClipboardType::Regular),
        end == BothProgress::Finished(primary, regular),
{
}

/// A selection has changed exactly if it could be observed both times and its contents are not
/// equal.
pub proof fn law_a_change_is_a_difference(
    previous: Option<Option<String>>,
    current: Option<Option<String>>,
    changed: bool,
)
    requires
        call_ensures(observed_value_changed, (&previous, &current), changed),
    ensures
        previous is None || current is None ==> !changed,
        previous matches Some(Some(before)) ==> (current matches Some(Some(after)) ==> (changed
            <==> before@ != after@)),
        previous matches Some(Some(_)) ==> (current matches Some(None) ==> changed),
        previous matches Some(None) ==> (current matches Some(Some(_)) ==> changed),
        previous matches Some(None) ==> (current matches Some(None) ==> !changed),
{
    lemma_observations_are_modelled_whole(previous);
    lemma_observations_are_modelled_whole(current);
}

proof fn lemma_observations_are_modelled_whole(observation: Option<Option<String>>)
    ensures
        observation matches Some(Some(text)) ==> observation.deep_view() == Some(Some(text@)),
        observation matches Some(None) ==> observation.deep_view() == Some(None::<Seq<char>>),
        observation is None ==> observation.deep_view() is None,
{
}

/// Two observations differ exactly if both were made and they are not equal; what is remembered
/// is the last one that was made.
pub proof fn law_observations_are_compared_whole(
    previous: Observation,
    current: Observation,
    before: Seq<char>,
    after: Seq<char>,
)
    ensures
        differs(previous, current) <==> previous is Some && current is Some && previous->0
            != current->0,
        before != after ==> differs(Some(Some(before)), Some(Some(after))),
        differs(previous, current) == differs(current, previous),
        latest(previous, current) == current || current is None,
        current is None ==> latest(previous, current) == previous,
{
}

/// A change is reported for exactly the selections that have changed.
pub proof fn law_changes_name_their_selections(
    previous: (Observation, Observation),
    current: (Observation, Observation),
)
    ensures
        ({
            let primary = previous.0 is Some && current.0 is Some && previous.0 != current.0;
            let regular = previous.1 is Some && current.1 is Some && previous.1 != current.1;
            let change = change_between(previous, current);
            &&& change is None <==> !primary && !regular
            &&& change == Some(ClipboardChange::Primary) <==> primary && !regular
            &&& change == Some(ClipboardChange::Regular) <==> !primary && regular
            &&& change == Some(ClipboardChange::Both) <==> primary && regular
        }),
{
}

/// Looking for a change reports exactly the selections whose observed contents are not equal, and
/// remembers each selection that could be observed.
pub proof fn law_changes_are_reported_and_remembered(
    previous: &mut ClipboardObservations,
    current: ClipboardObservations,
    change: Option<ClipboardChange>,
)
    requires
        call_ensures(clipboard_change, (previous, &current), change),
    ensures
        ({
            let before = old(previous).deep_view();
            let now = current.deep_view();
            let after = final(previous).deep_view();
            let primary = before.0 is Some && now.0 is Some && before.0 != now.0;
            let regular = before.1 is Some && now.1 is Some && before.1 != now.1;
            &&& change is None <==> !primary && !regular
            &&& change == Some(ClipboardChange::Primary) <==> primary && !regular
            &&& change == Some(ClipboardChange::Regular) <==> !primary && regular
            &&& change == Some(ClipboardChange::Both) <==> primary && regular
            &&& after.0 == if now.0 is Some {
                now.0
            } else {
                before.0
            }
            &&& after.1 == if now.1 is Some {
                now.1
            } else {
                before.1
            }
        }),
{
}

/// A read under a deadline waits while there is time, reads what is there, and ends with what it
/// read, with the error that it met, or with the message that time is up.
pub proof fn law_reading_under_a_deadline(
    reader: DeadlineReader,
    event: ReadEvent,
    action: ReadAction,
)
    requires
        call_ensures(DeadlineReader::read, (&reader, event), action),
    ensures
        event matches ReadEvent::Clock(now) ==> {
            &&& action is TimedOut <==> now >= reader.deadline
            &&& action is Poll <==> now < reader.deadline
            &&& action matches ReadAction::Poll(wait) ==> {
                &&& 0 <= wait
                &&& now + wait * 1_000_000 <= reader.deadline
                &&& wait < 0x7fff_ffff ==> reader.deadline < now + (wait + 1) * 1_000_000
            }
        },
        event matches ReadEvent::Polled(count) ==> (count == 0 <==> action is TimedOut) && (count
            != 0 <==> action is Read),
        event matches ReadEvent::PollFailed { interrupted, error } ==> action == if interrupted {
            ReadAction::CheckClock
        } else {
            ReadAction::Fail(error)
        },
        event matches ReadEvent::Bytes(count) ==> action == ReadAction::Return(count),
        event is ReadAgain ==> action is CheckClock,
        event matches ReadEvent::ReadFailed(error) ==> action == ReadAction::Fail(error),
        action matches ReadAction::TimedOut(message) ==> message@ == "timed out after "@ + decimal(
            (reader.timeout / 1_000_000) as nat,
        ) + " ms"@,
{
    if let ReadEvent::Clock(now) = event {
        if now < reader.deadline {
            let left = reader.deadline - now;
            assert(left == (left / 1_000_000) * 1_000_000 + left % 1_000_000);
        }
    }
}

/// A read that starts now may take exactly the time it was given.
pub proof fn law_the_deadline_is_set(timeout: u128, now: u128, reader: DeadlineReader)
    requires
        now + timeout <= u128::MAX,
        call_ensures(DeadlineReader::new, (timeout, now), reader),
    ensures
        reader.deadline - now == timeout,
        reader.timeout == timeout,
{
}

/// Offering one object more adds its name if it is a seat of version 2 or later, and changes
/// nothing otherwise.
pub proof fn law_which_seats_are_watched(
    globals: Seq<Global>,
    global: Global,
    seat_interface: Seq<char>,
)
    ensures
        seat_names(Seq::empty(), seat_interface) == Seq::<u32>::empty(),
        seat_names(globals.push(global), seat_interface) == if global.interface@ == seat_interface
            && global.version >= 2 {
            seat_names(globals, seat_interface).push(global.name)
        } else {
            seat_names(globals, seat_interface)
        },
{
    reveal(Seq::filter);
    assert(globals.push(global).drop_last() =~= globals);
    assert(seat_names(globals.push(global), seat_interface) =~= if global.interface@
        == seat_interface && global.version >= 2 {
        seat_names(globals, seat_interface).push(global.name)
    } else {
        seat_names(globals, seat_interface)
    });
    assert(seat_names(Seq::empty(), seat_interface) =~= Seq::<u32>::empty());
}

/// Every seat that can be watched is watched, and there must be one.
pub proof fn law_seats_are_needed(
    globals: Vec<Global>,
    seat_interface: &str,
    result: Result<Vec<u32>, String>,
)
    requires
        call_ensures(usable_seats, (&globals, seat_interface), result),
    ensures
        result is Ok <==> seat_names(globals@, seat_interface@).len() > 0,
        result matches Ok(names) ==> names@ == seat_names(globals@, seat_interface@),
        result matches Err(message) ==> message@ == "Wayland compositor has no seats"@,
{
}

/// A change of either selection is reported at once; a stopped device is remembered for good.
pub proof fn law_what_the_monitor_reports(
    state: &mut MonitorState,
    event: DeviceEvent,
    report: Option<MonitorEvent>,
)
    requires
        call_ensures(MonitorState::event, (state, event), report),
    ensures
        report == Some(MonitorEvent::ClipboardChanged) <==> event is Selection
            || event is PrimarySelection,
        report is None <==> event is Finished || event is Other,
        final(state).failed <==> old(state).failed || event is Finished,
{
}

/// The monitor connects, reads what is offered, and tries the newer protocol before the older.
pub proof fn law_how_the_monitor_starts(
    start: RunProgress,
    connected: RunProgress,
    listed: RunProgress,
    fallen_back: RunProgress,
    ext: RunProgress,
    wlr: RunProgress,
    error: String,
    state: MonitorState,
    seat_interface: &str,
)
    requires
        call_ensures(run, (), start),
        call_ensures(
            MonitorRun::resume,
            (MonitorRun::Connecting, RunReply::Done, &state, seat_interface),
            connected,
        ),
        call_ensures(
            MonitorRun::resume,
            (MonitorRun::ReadingGlobals, RunReply::Done, &state, seat_interface),
            listed,
        ),
        call_ensures(
            MonitorRun::resume,
            (
                MonitorRun::Binding(ManagerKind::Ext),
                RunReply::Failed(error),
                &state,
                seat_interface,
            ),
            fallen_back,
        ),
        call_ensures(
            MonitorRun::resume,
            (MonitorRun::Binding(ManagerKind::Ext), RunReply::Done, &state, seat_interface),
            ext,
        ),
        call_ensures(
            MonitorRun::resume,
            (MonitorRun::Binding(ManagerKind::Wlr), RunReply::Done, &state, seat_interface),
            wlr,
        ),
    ensures
        start == RunProgress::Ask(MonitorRun::Connecting, RunRequest::Connect),
        connected == RunProgress::Ask(MonitorRun::ReadingGlobals, RunRequest::ReadGlobals),
        listed == RunProgress::Ask(
            MonitorRun::Binding(ManagerKind::Ext),
            RunRequest::Bind { kind: ManagerKind::Ext, lowest: 1, highest: 1 },
        ),
        fallen_back == RunProgress::Ask(
            MonitorRun::Binding(ManagerKind::Wlr),
            RunRequest::Bind { kind: ManagerKind::Wlr, lowest: 2, highest: 2 },
        ),
        ext == RunProgress::Ask(MonitorRun::ListingGlobals, RunRequest::ListGlobals),
        wlr == ext,
        listed->Ask_1 == bind_request(ManagerKind::Ext),
{
}

/// The monitor watches the seats it found for as long as nothing fails.
pub proof fn law_how_the_monitor_goes_on(
    globals: Vec<Global>,
    found: RunProgress,
    initialized: RunProgress,
    dispatched: RunProgress,
    state: MonitorState,
    seat_interface: &str,
)
    requires
        call_ensures(
            MonitorRun::resume,
            (MonitorRun::ListingGlobals, RunReply::Globals(globals), &state, seat_interface),
            found,
        ),
        call_ensures(
            MonitorRun::resume,
            (MonitorRun::Initializing, RunReply::Done, &state, seat_interface),
            initialized,
        ),
        call_ensures(
            MonitorRun::resume,
            (MonitorRun::Watching, RunReply::Done, &state, seat_interface),
            dispatched,
        ),
    ensures
        seat_names(globals@, seat_interface@).len() > 0 ==> (found matches RunProgress::Ask(
            MonitorRun::Initializing,
            RunRequest::Watch { seats },
        ) && seats@ == seat_names(globals@, seat_interface@)),
        seat_names(globals@, seat_interface@).len() == 0 ==> (found matches RunProgress::Stopped(
            reason,
        ) && reason@ == "Wayland compositor has no seats"@),
        initialized == RunProgress::Ask(MonitorRun::Watching, RunRequest::Dispatch),
        !state.failed ==> dispatched == RunProgress::Ask(
            MonitorRun::Watching,
            RunRequest::Dispatch,
        ),
        state.failed ==> (dispatched matches RunProgress::Stopped(reason) && reason@
            == "data-control device was stopped by the compositor"@),
{
}

/// A step that fails stops the monitor, for a reason that names the step; only the newer protocol
/// has a substitute.
pub proof fn law_how_the_monitor_stops(
    monitor: MonitorRun,
    error: String,
    progress: RunProgress,
    state: MonitorState,
    seat_interface: &str,
)
    requires
        !(monitor is ListingGlobals),
        call_ensures(
            MonitorRun::resume,
            (monitor, RunReply::Failed(error), &state, seat_interface),
            progress,
        ),
    ensures
        progress is Ask <==> monitor == MonitorRun::Binding(ManagerKind::Ext),
        progress matches RunProgress::Stopped(reason) ==> reason@ == (match monitor {
            MonitorRun::Connecting => "could not connect to Wayland: "@ + error@,
            MonitorRun::ReadingGlobals => "could not read Wayland globals: "@ + error@,
            MonitorRun::Initializing => "could not initialize clipboard event monitor: "@ + error@,
            MonitorRun::Watching => "Wayland communication failed: "@ + error@,
            _ => "compositor does not support ext-data-control or wlr-data-control version 2"@,
        }),
{
}

/// The monitor accepts a list of what is offered exactly when it asked for one, and starts without
/// a device that was stopped. Once one was stopped, it does not go on, and says so.
pub proof fn law_what_the_monitor_waits_for(
    monitor: MonitorRun,
    reply: RunReply,
    accepted: bool,
    fresh: MonitorState,
    state: MonitorState,
    result: Result<(), String>,
    error: &str,
    message: String,
)
    requires
        call_ensures(MonitorRun::accepts, (&monitor, &reply), accepted),
        call_ensures(MonitorState::new, (), fresh),
        call_ensures(MonitorState::after_dispatch, (&state,), result),
        call_ensures(stopped_message, (error,), message),
    ensures
        monitor is ListingGlobals ==> (accepted <==> reply is Globals),
        !(monitor is ListingGlobals) ==> (accepted <==> reply is Done || reply is Failed),
        !fresh.failed,
        result is Ok <==> !state.failed,
        result matches Err(reason) ==> reason@
            == "data-control device was stopped by the compositor"@,
        message@ == "clipboard event monitor stopped: "@ + error@ + "; falling back to polling"@,
{
}

/// A read that did not end in time says how long it was given, in milliseconds.
pub proof fn law_what_a_late_read_says(reader: DeadlineReader, message: String)
    requires
        call_ensures(DeadlineReader::timed_out, (&reader,), message),
    ensures
        message@ == "timed out after "@ + decimal((reader.timeout / 1_000_000) as nat) + " ms"@,
{
}

} // verus!
