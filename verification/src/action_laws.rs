//! What the actions on the selections are for, step by step and from start to end.
//!
//! A law that speaks of a call holds of every value that the call may return.
use crate::action::{
    action_task_awaits, apply_action, cleared_selection, copy_read_to, name_of_selection,
    perform_action, perform_clear, selection_name, switch_reads, ActionState,
};
use crate::clipboard::{
    action_name, ClearTarget, ClipboardAction, ClipboardRead, ClipboardType, CopyClipboardType,
    ReadModel, SwitchValue,
};
use crate::clipboard_laws::refuses;
use crate::exchange::{
    announce, announced, answers, outcome, Progress, ProgressModel, Reply, ReplyModel, Request,
    RequestModel, Stage, Task,
};
use crate::laws::{performed, play, Desktop};
use crate::notification::Notice;
use crate::text::decimal;
use crate::transfer::{
    placement, write_both_with_rollback, write_optional, write_switch_value, BothReads,
    PairProgress, PairWrite,
};
use vstd::prelude::*;

verus! {

/// The models of requests and replies leave nothing out.
pub proof fn law_exchanges_are_modelled_whole(
    request: Request,
    reply: Reply,
    result: Result<(), String>,
)
    ensures
        request matches Request::Read(selection) ==> request@ == RequestModel::Read(selection),
        request matches Request::Write(selection, text) ==> request@ == RequestModel::Write(
            selection,
            text@,
        ),
        request matches Request::Clear(selection) ==> request@ == RequestModel::Clear(selection),
        request matches Request::Notify(notice) ==> request@ == RequestModel::Notify(notice),
        reply matches Reply::Read(read) ==> reply@ == ReplyModel::Read(read@),
        reply is Notified ==> reply@ is Notified,
        reply matches Reply::Written(result) ==> reply@ == ReplyModel::Written(outcome(result)),
        result is Ok <==> outcome(result) is Ok,
        result matches Err(message) ==> outcome(result) == Err::<(), Seq<char>>(message@),
{
}

/// A read is answered by what it found, a write or a clearing by how it went, a notification by
/// its having been attempted.
pub proof fn law_which_replies_answer(request: RequestModel, reply: ReplyModel)
    ensures
        request is Read ==> (answers(reply, request) <==> reply is Read),
        request is Write || request is Clear ==> (answers(reply, request) <==> reply is Written),
        request is Notify ==> (answers(reply, request) <==> reply is Notified),
{
}

/// A copy writes the text that was read to the destination, and nothing if no text was read.
pub proof fn law_what_a_copy_writes(
    source_name: &str,
    source: ClipboardRead,
    destination: CopyClipboardType,
    result: Result<Request, String>,
)
    requires
        call_ensures(copy_read_to, (source_name, source, destination), result),
    ensures
        result is Ok <==> source is Text,
        source matches ClipboardRead::Text(text) ==> (result matches Ok(request) && (
        request matches Request::Write(written, value) && written == destination && value@
            == text@)),
        result matches Err(message) ==> refuses(source, source_name@, message@),
{
    if let Ok(request) = result {
        lemma_writes_are_writes(request);
    }
}

proof fn lemma_writes_are_writes(request: Request)
    ensures
        request@ matches RequestModel::Write(selection, text) ==> (request matches Request::Write(
            written,
            value,
        ) && written == selection && value@ == text),
        request@ matches RequestModel::Clear(selection) ==> request == Request::Clear(selection),
        request@ matches RequestModel::Read(selection) ==> request == Request::Read(selection),
{
}

/// A text is put in a selection by writing it, and no text by clearing the selection.
pub proof fn law_contents_are_placed(
    selection: CopyClipboardType,
    value: SwitchValue,
    text: Option<String>,
    exchanged: Request,
    restored: Request,
)
    requires
        call_ensures(write_switch_value, (selection, value), exchanged),
        call_ensures(write_optional, (selection, text), restored),
    ensures
        value matches SwitchValue::Text(value) ==> (exchanged matches Request::Write(
            written,
            content,
        ) && written == selection && content@ == value@),
        value is Empty ==> exchanged == Request::Clear(selection),
        text matches Some(text) ==> (restored matches Request::Write(written, content) && written
            == selection && content@ == text@),
        text is None ==> restored == Request::Clear(selection),
{
    if let Some(text) = text {
        assert(Some(text).deep_view() == Some(text@));
    }
    lemma_writes_are_writes(exchanged);
    lemma_writes_are_writes(restored);
}

/// What a request asks to be put in a selection is that content.
pub proof fn law_placements(selection: CopyClipboardType, text: Seq<char>)
    ensures
        placement(selection, Some(text)) == RequestModel::Write(selection, text),
        placement(selection, None) == RequestModel::Clear(selection),
{
}

/// The steps of writing both selections: the primary one, then the regular one, and if that fails
/// the primary one again with what it held. Only two writes that succeed are a success.
pub proof fn law_both_selections_are_written_or_restored<T: DeepView>(
    primary: T,
    regular: T,
    original: T,
    error: String,
    first_error: String,
    start: PairProgress<T>,
    second: PairProgress<T>,
    refused: PairProgress<T>,
    done: PairProgress<T>,
    undoing: PairProgress<T>,
    undone: PairProgress<T>,
    stuck: PairProgress<T>,
)
    requires
        call_ensures(write_both_with_rollback::<T>, (primary, regular, original), start),
        call_ensures(
            PairWrite::<T>::resume,
            (PairWrite::Primary { regular, original_primary: original }, Ok::<(), String>(())),
            second,
        ),
        call_ensures(
            PairWrite::<T>::resume,
            (PairWrite::Primary { regular, original_primary: original }, Err::<(), String>(error)),
            refused,
        ),
        call_ensures(
            PairWrite::<T>::resume,
            (PairWrite::Regular { original_primary: original }, Ok::<(), String>(())),
            done,
        ),
        call_ensures(
            PairWrite::<T>::resume,
            (PairWrite::Regular { original_primary: original }, Err::<(), String>(error)),
            undoing,
        ),
        call_ensures(
            PairWrite::<T>::resume,
            (PairWrite::Restoring { error: first_error }, Ok::<(), String>(())),
            undone,
        ),
        call_ensures(
            PairWrite::<T>::resume,
            (PairWrite::Restoring { error: first_error }, Err::<(), String>(error)),
            stuck,
        ),
    ensures
        start == PairProgress::Write(
            PairWrite::Primary { regular, original_primary: original },
            CopyClipboardType::Primary,
            primary,
        ),
        second matches PairProgress::Write(state, selection, value) && selection
            == CopyClipboardType::Regular && value.deep_view() == regular.deep_view() && (
        state matches PairWrite::Regular { original_primary } && original_primary.deep_view()
            == original.deep_view()),
        refused matches PairProgress::Finished(Err(message)) && message@
            == "could not write primary clipboard: "@ + error@,
        done matches PairProgress::Finished(Ok(_)),
        undoing matches PairProgress::Write(state, selection, value) && selection
            == CopyClipboardType::Primary && value.deep_view() == original.deep_view() && (
        state matches PairWrite::Restoring { error: kept } && kept@ == error@),
        undone matches PairProgress::Finished(Err(message)) && message@
            == "could not write regular clipboard: "@ + first_error@
            + "; primary clipboard restored"@,
        stuck matches PairProgress::Finished(Err(message)) && message@
            == "could not write regular clipboard: "@ + first_error@
            + "; could not restore primary clipboard: "@ + error@,
{
}

/// Two reads are exchanged exactly if each is a text or empty. Nothing is written if both are
/// empty; otherwise the primary selection is first given what the regular one holds.
pub proof fn law_what_a_switch_writes_first(
    primary: ClipboardRead,
    regular: ClipboardRead,
    result: Result<Option<PairProgress<SwitchValue>>, String>,
)
    requires
        call_ensures(switch_reads, (primary, regular), result),
    ensures
        result is Ok <==> (primary is Text || primary is Empty) && (regular is Text
            || regular is Empty),
        result matches Err(message) ==> if primary is Text || primary is Empty {
            refuses(regular, "regular"@, message@)
        } else {
            refuses(primary, "primary"@, message@)
        },
        result matches Ok(None) <==> primary is Empty && regular is Empty,
        result matches Ok(Some(progress)) ==> (progress matches PairProgress::Write(
            state,
            selection,
            value,
        ) && selection == CopyClipboardType::Primary && holds(value, regular) && (
        state matches PairWrite::Primary { regular: later, original_primary } && holds(
            later,
            primary,
        ) && holds(original_primary, primary))),
{
}

/// Whether a value of an exchange is what a read found.
pub open spec fn holds(value: SwitchValue, read: ClipboardRead) -> bool {
    match value {
        SwitchValue::Text(text) => read matches ClipboardRead::Text(found) && found@ == text@,
        SwitchValue::Empty => read is Empty,
    }
}

/// A copy starts with a read of its source, a switch with a read of the primary selection, and a
/// reset clears both selections.
pub proof fn law_how_actions_start(action: ClipboardAction, progress: Progress<ActionState>)
    requires
        call_ensures(apply_action, (action,), progress),
    ensures
        progress matches Progress::Ask(state, request) && (match action {
            ClipboardAction::CopyPrimary => request == Request::Read(ClipboardType::Primary)
                && state == (ActionState::Copying {
                source: ClipboardType::Primary,
                destination: CopyClipboardType::Regular,
            }),
            ClipboardAction::CopyRegular => request == Request::Read(ClipboardType::Regular)
                && state == (ActionState::Copying {
                source: ClipboardType::Regular,
                destination: CopyClipboardType::Primary,
            }),
            ClipboardAction::Switch => request == Request::Read(ClipboardType::Primary) && state
                == ActionState::Reading(BothReads::Primary),
            ClipboardAction::Reset => request == Request::Clear(CopyClipboardType::Both) && state
                == ActionState::Writing,
        }),
{
    if let Progress::Ask(state, request) = progress {
        lemma_writes_are_writes(request);
    }
}

/// A copy that has its read writes the text to its destination, or ends with the refusal.
pub proof fn law_how_copies_go_on(
    source: ClipboardType,
    destination: CopyClipboardType,
    read: ClipboardRead,
    progress: Progress<ActionState>,
)
    requires
        call_ensures(
            ActionState::resume,
            (ActionState::Copying { source, destination }, Reply::Read(read)),
            progress,
        ),
    ensures
        read matches ClipboardRead::Text(text) ==> (progress matches Progress::Ask(
            state,
            Request::Write(written, value),
        ) && state == ActionState::Writing && written == destination && value@ == text@),
        !(read is Text) ==> (progress matches Progress::Finished(Err(message)) && refuses(
            read,
            if source is Primary {
                "primary"@
            } else {
                "regular"@
            },
            message@,
        )),
{
    if let Progress::Ask(state, request) = progress {
        lemma_writes_are_writes(request);
    }
}

/// A switch reads the regular selection whatever the primary one gave, then decides on both reads.
pub proof fn law_how_switches_go_on(
    primary: ClipboardRead,
    regular: ClipboardRead,
    middle: Progress<ActionState>,
    progress: Progress<ActionState>,
)
    requires
        call_ensures(
            ActionState::resume,
            (ActionState::Reading(BothReads::Primary), Reply::Read(primary)),
            middle,
        ),
        call_ensures(
            ActionState::resume,
            (ActionState::Reading(BothReads::Regular(primary)), Reply::Read(regular)),
            progress,
        ),
    ensures
        middle matches Progress::Ask(state, request) && request == Request::Read(
            ClipboardType::Regular,
        ) && (state matches ActionState::Reading(BothReads::Regular(kept)) && kept@ == primary@),
        !(primary is Text || primary is Empty) ==> (progress matches Progress::Finished(
            Err(message),
        ) && refuses(primary, "primary"@, message@)),
        (primary is Text || primary is Empty) && !(regular is Text || regular is Empty) ==> (
        progress matches Progress::Finished(Err(message)) && refuses(
            regular,
            "regular"@,
            message@,
        )),
        primary is Empty && regular is Empty ==> progress matches Progress::Finished(Ok(_)),
        (primary is Text || primary is Empty) ==> (regular matches ClipboardRead::Text(text) ==> (
        progress matches Progress::Ask(_, Request::Write(CopyClipboardType::Primary, value))
            && value@ == text@)),
        primary is Text && regular is Empty ==> (progress matches Progress::Ask(_, request)
            && request == Request::Clear(CopyClipboardType::Primary)),
{
    if let Progress::Ask(state, request) = progress {
        lemma_writes_are_writes(request);
    }
    if let Progress::Ask(state, request) = middle {
        lemma_writes_are_writes(request);
    }
}

/// The last write decides how an action ends.
pub proof fn law_how_actions_end(result: Result<(), String>, progress: Progress<ActionState>)
    requires
        call_ensures(
            ActionState::resume,
            (ActionState::Writing, Reply::Written(result)),
            progress,
        ),
    ensures
        progress matches Progress::Finished(ended) && (ended is Ok <==> result is Ok) && (
        result matches Err(error) ==> (ended matches Err(message) && message@ == error@)),
{
}

/// A copy from start to end: with a text, the destination holds it and the result is that of the
/// write; without one, nothing changes and the refusal names the source.
pub proof fn law_copies_in_full(
    desktop: Desktop,
    results: spec_fn(nat) -> Result<(), Seq<char>>,
)
    ensures
        ({
            let ending = performed(ClipboardAction::CopyPrimary, desktop, results);
            let back = performed(ClipboardAction::CopyRegular, desktop, results);
            &&& ending.desktop.primary == desktop.primary
            &&& back.desktop.regular == desktop.regular
            &&& desktop.primary is Text && results(0) is Ok ==> ending.result is Ok
                && ending.desktop.regular == desktop.primary
            &&& desktop.regular is Text && results(0) is Ok ==> back.result is Ok
                && back.desktop.primary == desktop.regular
            &&& desktop.primary is Text && results(0) is Err ==> ending.result == results(0)
                && ending.desktop == desktop
            &&& desktop.regular is Text && results(0) is Err ==> back.result == results(0)
                && back.desktop == desktop
            &&& !(desktop.primary is Text) ==> ending.result == Err::<(), Seq<char>>(
                desktop.primary.refusal("primary"@),
            ) && ending.desktop == desktop
            &&& !(desktop.regular is Text) ==> back.result == Err::<(), Seq<char>>(
                desktop.regular.refusal("regular"@),
            ) && back.desktop == desktop
        }),
{
    reveal_with_fuel(play, 6);
}

/// A switch from start to end: which selections it ends with and what it says, for every way in
/// which the reads and writes may go.
pub proof fn law_switches_in_full(
    desktop: Desktop,
    results: spec_fn(nat) -> Result<(), Seq<char>>,
)
    ensures
        ({
            let ending = performed(ClipboardAction::Switch, desktop, results);
            if !(desktop.primary is Text || desktop.primary is Empty) {
                ending.desktop == desktop && ending.result == Err::<(), Seq<char>>(
                    desktop.primary.refusal("primary"@),
                )
            } else if !(desktop.regular is Text || desktop.regular is Empty) {
                ending.desktop == desktop && ending.result == Err::<(), Seq<char>>(
                    desktop.regular.refusal("regular"@),
                )
            } else if desktop.primary is Empty && desktop.regular is Empty {
                ending.desktop == desktop && ending.result is Ok
            } else {
                match (results(0), results(1), results(2)) {
                    (Err(error), _, _) => ending.desktop == desktop && ending.result == Err::<
                        (),
                        Seq<char>,
                    >("could not write primary clipboard: "@ + error),
                    (Ok(_), Ok(_), _) => ending.result is Ok && ending.desktop.primary
                        == desktop.regular && ending.desktop.regular == desktop.primary,
                    (Ok(_), Err(error), Ok(_)) => ending.desktop == desktop && ending.result
                        == Err::<(), Seq<char>>(
                        "could not write regular clipboard: "@ + error
                            + "; primary clipboard restored"@,
                    ),
                    (Ok(_), Err(error), Err(rollback)) => ending.desktop.primary
                        == desktop.regular && ending.desktop.regular == desktop.regular
                        && ending.result == Err::<(), Seq<char>>(
                        "could not write regular clipboard: "@ + error
                            + "; could not restore primary clipboard: "@ + rollback,
                    ),
                }
            }
        }),
{
    reveal_with_fuel(play, 6);
}

/// A message about a read depends on what was read, and is the one of its state.
pub proof fn law_refusals(read: ReadModel, source: Seq<char>)
    ensures
        read is Empty ==> read.refusal(source) == source + " clipboard is empty"@,
        read is NonText ==> read.refusal(source) == source + " clipboard does not contain text"@,
        read is Unsupported ==> read.refusal(source) == source + " clipboard is unsupported"@,
        read matches ReadModel::Oversized { limit } ==> read.refusal(source) == source
            + " clipboard exceeds the configured "@ + decimal(limit as nat)
            + "-byte limit"@,
        read matches ReadModel::Error(error) ==> read.refusal(source) == "could not read "@ + source
            + " clipboard: "@ + error,
        read.content() is Some <==> read is Text || read is Empty,
        read matches ReadModel::Text(text) ==> read.content() == Some(Some(text)) && read.length()
            == text.len(),
        read is Empty ==> read.content() == Some(None::<Seq<char>>),
{
}

/// A task does what its work does. Once the work has succeeded, its own notice is sent, exactly if
/// notifications are enabled; a failure is never announced.
pub proof fn law_only_success_is_announced<S>(
    notice: Notice,
    notifications: bool,
    progress: ProgressModel<S>,
)
    ensures
        ({
            let task = announced(notice, notifications, progress);
            match progress {
                ProgressModel::Ask(state, request) => task matches ProgressModel::Ask(kept, asked)
                    && asked == request && kept.stage == Stage::Working(state) && kept.notice
                    == notice && kept.notifications == notifications,
                ProgressModel::Finished(Ok(_)) => if notifications {
                    task matches ProgressModel::Ask(kept, asked) && asked == RequestModel::Notify(
                        notice,
                    ) && kept.stage is Announcing && kept.notice == notice && kept.notifications
                } else {
                    task matches ProgressModel::Finished(Ok(_))
                },
                ProgressModel::Finished(Err(message)) => task == ProgressModel::<
                    Task<S>,
                >::Finished(Err(message)),
            }
        }),
{
}

/// Performing an action is the action, announced under its own name; clearing a selection clears
/// that selection.
pub proof fn law_what_is_performed(
    action: ClipboardAction,
    target: ClearTarget,
    notifications: bool,
    work: Progress<ActionState>,
    performed: Progress<Task<ActionState>>,
    cleared: Progress<Task<ActionState>>,
)
    requires
        call_ensures(apply_action, (action,), work),
        call_ensures(perform_action, (action, notifications), performed),
        call_ensures(perform_clear, (target, notifications), cleared),
    ensures
        performed matches Progress::Ask(task, request) && task.notice == Notice::Action(action)
            && task.notifications == notifications && (work matches Progress::Ask(state, asked)
            && asked@ == request@ && (task.stage matches Stage::Working(kept) && kept@ == state@)),
        cleared matches Progress::Ask(task, request) && task.notice == Notice::Clear(target)
            && task.notifications == notifications && request == Request::Clear(
            if target is Primary {
                CopyClipboardType::Primary
            } else {
                CopyClipboardType::Regular
            },
        ) && task.stage == Stage::Working(ActionState::Writing),
        cleared_selection(target) is Primary <==> target is Primary,
        cleared_selection(target) is Regular <==> target is Regular,
{
    if let Progress::Ask(task, request) = cleared {
        lemma_writes_are_writes(request);
        if let Stage::Working(state) = task.stage {
            assert(task@.stage == Stage::Working(state@));
        }
    }
    if let Progress::Ask(task, request) = performed {
        if let Stage::Working(state) = task.stage {
            assert(task@.stage == Stage::Working(state@));
        }
    }
}

/// A task that has announced its success ends with it, and a task at work goes on as its work does.
pub proof fn law_how_tasks_go_on(
    notice: Notice,
    notifications: bool,
    state: ActionState,
    reply: Reply,
    announcing: Task<ActionState>,
    work: Progress<ActionState>,
    progress: Progress<Task<ActionState>>,
    end: Progress<Task<ActionState>>,
)
    requires
        announcing.stage is Announcing,
        call_ensures(ActionState::resume, (state, reply), work),
        call_ensures(
            Task::<ActionState>::resume,
            (Task { notice, notifications, stage: Stage::Working(state) }, reply),
            progress,
        ),
        call_ensures(Task::<ActionState>::resume, (announcing, Reply::Notified), end),
    ensures
        work matches Progress::Ask(next, asked) ==> (progress matches Progress::Ask(task, request)
            && request@ == asked@ && task.notice == notice && task.notifications == notifications
            && (task.stage matches Stage::Working(kept) && kept@ == next@)),
        work matches Progress::Finished(Ok(_)) ==> if notifications {
            progress matches Progress::Ask(task, request) && request@ == RequestModel::Notify(notice)
                && task.stage is Announcing
        } else {
            progress matches Progress::Finished(Ok(_))
        },
        work matches Progress::Finished(Err(error)) ==> (progress matches Progress::Finished(
            Err(message),
        ) && message@ == error@),
        end matches Progress::Finished(Ok(_)),
{
    if let Progress::Ask(task, request) = progress {
        if let Stage::Working(kept) = task.stage {
            assert(task@.stage == Stage::Working(kept@));
        }
    }
}

/// A task accepts exactly the replies of the kind that it waits for.
pub proof fn law_which_replies_are_accepted(
    state: ActionState,
    task: Task<ActionState>,
    reply: Reply,
    accepted: bool,
    taken: bool,
)
    requires
        call_ensures(ActionState::accepts, (&state, &reply), accepted),
        call_ensures(Task::<ActionState>::accepts, (&task, &reply), taken),
    ensures
        state is Copying || state is Reading ==> (accepted <==> reply is Read),
        state is Switching || state is Writing ==> (accepted <==> reply is Written),
        task.stage is Announcing ==> (taken <==> reply is Notified),
        task.stage == Stage::Working(state) ==> (taken <==> accepted),
        taken <==> action_task_awaits(task@, reply@),
{
}

/// What carries the work over to its task does so exactly.
pub proof fn law_work_is_carried_over<S: View>(
    notice: Notice,
    notifications: bool,
    progress: Progress<S>,
    result: Progress<Task<S>>,
)
    requires
        call_ensures(announce::<S>, (notice, notifications, progress), result),
    ensures
        progress@ matches ProgressModel::Ask(state, request) ==> result@ == ProgressModel::Ask(
            Task { notice, notifications, stage: Stage::Working(state) },
            request,
        ),
        progress@ matches ProgressModel::Finished(Ok(_)) ==> (notifications ==> result@
            == ProgressModel::Ask(
            Task { notice, notifications, stage: Stage::<S::V>::Announcing },
            RequestModel::Notify(notice),
        )),
        progress@ matches ProgressModel::Finished(Ok(_)) ==> (!notifications ==> result@
            == ProgressModel::<Task<S::V>>::Finished(Ok(()))),
        progress@ matches ProgressModel::Finished(Err(message)) ==> result@ == ProgressModel::<
            Task<S::V>,
        >::Finished(Err(message)),
{
}

/// Actions and selections go by their own names.
pub proof fn law_names(
    action: ClipboardAction,
    selection: ClipboardType,
    action_called: &'static str,
    selection_called: &'static str,
)
    requires
        call_ensures(ClipboardAction::name, (action,), action_called),
        call_ensures(name_of_selection, (selection,), selection_called),
    ensures
        action is CopyPrimary ==> action_called@ == "COPY_PRIMARY"@,
        action is CopyRegular ==> action_called@ == "COPY_REGULAR"@,
        action is Switch ==> action_called@ == "SWITCH"@,
        action is Reset ==> action_called@ == "RESET"@,
        action_name(action) == action_called@,
        selection is Primary ==> selection_called@ == "primary"@,
        selection is Regular ==> selection_called@ == "regular"@,
        selection_name(selection) == selection_called@,
{
}

/// An exchange that is being written goes on as the write to both selections does, and ends as it
/// ends.
pub proof fn law_how_exchanges_are_written(
    writes: PairWrite<SwitchValue>,
    result: Result<(), String>,
    pair: PairProgress<SwitchValue>,
    progress: Progress<ActionState>,
)
    requires
        call_ensures(PairWrite::<SwitchValue>::resume, (writes, result), pair),
        call_ensures(
            ActionState::resume,
            (ActionState::Switching(writes), Reply::Written(result)),
            progress,
        ),
    ensures
        pair matches PairProgress::Write(next, selection, SwitchValue::Text(text)) ==> (
        progress matches Progress::Ask(
            ActionState::Switching(kept),
            Request::Write(written, value),
        ) && kept@ == next@ && written == selection && value@ == text@),
        pair matches PairProgress::Write(next, selection, SwitchValue::Empty) ==> (
        progress matches Progress::Ask(ActionState::Switching(kept), Request::Clear(cleared))
            && kept@ == next@ && cleared == selection),
        pair matches PairProgress::Finished(Ok(_)) ==> progress matches Progress::Finished(Ok(_)),
        pair matches PairProgress::Finished(Err(error)) ==> (progress matches Progress::Finished(
            Err(message),
        ) && message@ == error@),
{
    if let Progress::Ask(state, request) = progress {
        lemma_writes_are_writes(request);
    }
}

} // verus!
