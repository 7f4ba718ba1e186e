//! The actions on the selections: copying one to the other, exchanging them, clearing them.
use crate::clipboard::{
    ClearTarget, ClipboardAction, ClipboardRead, ClipboardType, CopyClipboardType, ReadModel,
    SwitchValue,
};
use crate::exchange::{
    announce, announced, Progress, ProgressModel, Reply, ReplyModel, Request, RequestModel,
    Stage, Task,
};
use crate::notification::Notice;
use crate::transfer::{
    pair_started, pair_written, placement, read_both, write_both_with_rollback, write_switch_value,
    BothProgress, BothReads, BothReadsModel, PairModel, PairProgress, PairProgressModel, PairWrite,
};
use vstd::prelude::*;

verus! {

/// What a selection is called in messages.
pub open spec fn selection_name(selection: ClipboardType) -> Seq<char> {
    match selection {
        ClipboardType::Primary => "primary"@,
        ClipboardType::Regular => "regular"@,
    }
}

/// What `selection` is called in messages.
pub fn name_of_selection(selection: ClipboardType) -> (name: &'static str)
    ensures
        name@ == selection_name(selection),
{
    match selection {
        ClipboardType::Primary => "primary",
        ClipboardType::Regular => "regular",
    }
}

/// The write that copies what was read to another selection. Only a confirmed text is copied.
pub open spec fn copied(
    source_name: Seq<char>,
    source: ReadModel,
    destination: CopyClipboardType,
) -> Result<RequestModel, Seq<char>> {
    match source {
        ReadModel::Text(value) => Ok(RequestModel::Write(destination, value)),
        _ => Err(source.refusal(source_name)),
    }
}

/// Decides how to copy what was read from the selection called `source_name`.
pub fn copy_read_to(
    source_name: &str,
    source: ClipboardRead,
    destination: CopyClipboardType,
) -> (result: Result<Request, String>)
    ensures
        match copied(source_name@, source@, destination) {
            Ok(request) => result matches Ok(asked) && asked@ == request,
            Err(message) => result matches Err(error) && error@ == message,
        },
{
    match source.into_text(source_name) {
        Ok(value) => Ok(Request::Write(destination, value)),
        Err(message) => Err(message),
    }
}

/// How two reads are exchanged: each must be a text or empty, and if both are empty there is
/// nothing to write.
pub open spec fn exchanged(primary: ReadModel, regular: ReadModel) -> Result<
    Option<PairProgressModel<Option<Seq<char>>>>,
    Seq<char>,
> {
    match (primary.content(), regular.content()) {
        (None, _) => Err(primary.refusal("primary"@)),
        (_, None) => Err(regular.refusal("regular"@)),
        (Some(None), Some(None)) => Ok(None),
        (Some(primary), Some(regular)) => Ok(Some(pair_started(regular, primary, primary))),
    }
}

/// Decides how to exchange two reads.
pub fn switch_reads(primary: ClipboardRead, regular: ClipboardRead) -> (result: Result<
    Option<PairProgress<SwitchValue>>,
    String,
>)
    ensures
        match exchanged(primary@, regular@) {
            Ok(Some(progress)) => result matches Ok(Some(started)) && started@ == progress,
            Ok(None) => result matches Ok(None),
            Err(message) => result matches Err(error) && error@ == message,
        },
{
    let primary = match primary.into_switch_value("primary") {
        Ok(value) => value,
        Err(message) => return Err(message),
    };
    let regular = match regular.into_switch_value("regular") {
        Ok(value) => value,
        Err(message) => return Err(message),
    };
    match (&primary, &regular) {
        (SwitchValue::Empty, SwitchValue::Empty) => Ok(None),
        _ => Ok(Some(write_both_with_rollback(regular, primary.clone(), primary))),
    }
}

/// Where an action stands.
#[derive(Debug, PartialEq, Eq)]
pub enum ActionState {
    /// A selection is being read, to be copied.
    Copying { source: ClipboardType, destination: CopyClipboardType },
    /// Both selections are being read, to be exchanged.
    Reading(BothReads),
    /// Both selections are being written.
    Switching(PairWrite<SwitchValue>),
    /// The last write or clearing is under way.
    Writing,
}

/// An action under way, with texts as character sequences.
pub enum ActionModel {
    Copying { source: ClipboardType, destination: CopyClipboardType },
    Reading(BothReadsModel),
    Switching(PairModel<Option<Seq<char>>>),
    Writing,
}

impl View for ActionState {
    type V = ActionModel;

    open spec fn view(&self) -> ActionModel {
        match self {
            ActionState::Copying { source, destination } => ActionModel::Copying {
                source: *source,
                destination: *destination,
            },
            ActionState::Reading(reads) => ActionModel::Reading(reads@),
            ActionState::Switching(writes) => ActionModel::Switching(writes@),
            ActionState::Writing => ActionModel::Writing,
        }
    }
}

impl ActionModel {
    /// Whether a reply is of the kind that the action waits for.
    pub open spec fn awaits(self, reply: ReplyModel) -> bool {
        match self {
            ActionModel::Copying { .. } | ActionModel::Reading(_) => reply is Read,
            ActionModel::Switching(_) | ActionModel::Writing => reply is Written,
        }
    }
}

/// The first request of an action.
pub open spec fn action_started(action: ClipboardAction) -> ProgressModel<ActionModel> {
    match action {
        ClipboardAction::CopyRegular => ProgressModel::Ask(
            ActionModel::Copying {
                source: ClipboardType::Regular,
                destination: CopyClipboardType::Primary,
            },
            RequestModel::Read(ClipboardType::Regular),
        ),
        ClipboardAction::CopyPrimary => ProgressModel::Ask(
            ActionModel::Copying {
                source: ClipboardType::Primary,
                destination: CopyClipboardType::Regular,
            },
            RequestModel::Read(ClipboardType::Primary),
        ),
        ClipboardAction::Reset => ProgressModel::Ask(
            ActionModel::Writing,
            RequestModel::Clear(CopyClipboardType::Both),
        ),
        ClipboardAction::Switch => ProgressModel::Ask(
            ActionModel::Reading(BothReadsModel::Primary),
            RequestModel::Read(ClipboardType::Primary),
        ),
    }
}

/// The exchange under way as progress of the action.
pub open spec fn switching(progress: PairProgressModel<Option<Seq<char>>>) -> ProgressModel<
    ActionModel,
> {
    match progress {
        PairProgressModel::Write(state, selection, value) => ProgressModel::Ask(
            ActionModel::Switching(state),
            placement(selection, value),
        ),
        PairProgressModel::Finished(result) => ProgressModel::Finished(result),
    }
}

/// What follows in an action once the reply it waits for is there.
pub open spec fn action_resumed(state: ActionModel, reply: ReplyModel) -> ProgressModel<
    ActionModel,
> {
    match (state, reply) {
        (ActionModel::Copying { source, destination }, ReplyModel::Read(read)) => match copied(
            selection_name(source),
            read,
            destination,
        ) {
            Ok(request) => ProgressModel::Ask(ActionModel::Writing, request),
            Err(message) => ProgressModel::Finished(Err(message)),
        },
        (ActionModel::Reading(BothReadsModel::Primary), ReplyModel::Read(primary)) => {
            ProgressModel::Ask(
                ActionModel::Reading(BothReadsModel::Regular(primary)),
                RequestModel::Read(ClipboardType::Regular),
            )
        },
        (ActionModel::Reading(BothReadsModel::Regular(primary)), ReplyModel::Read(regular)) => {
            match exchanged(primary, regular) {
                Ok(Some(progress)) => switching(progress),
                Ok(None) => ProgressModel::Finished(Ok(())),
                Err(message) => ProgressModel::Finished(Err(message)),
            }
        },
        (ActionModel::Switching(writes), ReplyModel::Written(result)) => switching(
            pair_written(writes, result),
        ),
        (ActionModel::Writing, ReplyModel::Written(result)) => ProgressModel::Finished(result),
        _ => arbitrary(),
    }
}

fn ask_for_pair(progress: PairProgress<SwitchValue>) -> (result: Progress<ActionState>)
    ensures
        result@ == switching(progress@),
{
    match progress {
        PairProgress::Write(state, selection, value) => Progress::Ask(
            ActionState::Switching(state),
            write_switch_value(selection, value),
        ),
        PairProgress::Finished(result) => Progress::Finished(result),
    }
}

fn ask_for_reads(progress: BothProgress) -> (result: Progress<ActionState>)
    ensures
        match progress {
            BothProgress::Read(state, selection) => result@ == ProgressModel::Ask(
                ActionModel::Reading(state@),
                RequestModel::Read(selection),
            ),
            BothProgress::Finished(primary, regular) => result@ == (match exchanged(
                primary@,
                regular@,
            ) {
                Ok(Some(progress)) => switching(progress),
                Ok(None) => ProgressModel::Finished(Ok(())),
                Err(message) => ProgressModel::Finished(Err(message)),
            }),
        },
{
    match progress {
        BothProgress::Read(state, selection) => Progress::Ask(
            ActionState::Reading(state),
            Request::Read(selection),
        ),
        BothProgress::Finished(primary, regular) => match switch_reads(primary, regular) {
            Ok(Some(progress)) => ask_for_pair(progress),
            Ok(None) => Progress::Finished(Ok(())),
            Err(message) => Progress::Finished(Err(message)),
        },
    }
}

/// Starts an action.
pub fn apply_action(action: ClipboardAction) -> (progress: Progress<ActionState>)
    ensures
        progress@ == action_started(action),
{
    match action {
        ClipboardAction::CopyRegular => Progress::Ask(
            ActionState::Copying {
                source: ClipboardType::Regular,
                destination: CopyClipboardType::Primary,
            },
            Request::Read(ClipboardType::Regular),
        ),
        ClipboardAction::CopyPrimary => Progress::Ask(
            ActionState::Copying {
                source: ClipboardType::Primary,
                destination: CopyClipboardType::Regular,
            },
            Request::Read(ClipboardType::Primary),
        ),
        ClipboardAction::Reset => Progress::Ask(
            ActionState::Writing,
            Request::Clear(CopyClipboardType::Both),
        ),
        ClipboardAction::Switch => ask_for_reads(read_both()),
    }
}

impl ActionState {
    /// Whether `reply` is of the kind that the action waits for.
    pub fn accepts(&self, reply: &Reply) -> (accepted: bool)
        ensures
            accepted == self@.awaits(reply@),
    {
        match self {
            Self::Copying { .. } | Self::Reading(_) => matches!(reply, Reply::Read(_)),
            Self::Switching(_) | Self::Writing => matches!(reply, Reply::Written(_)),
        }
    }

    /// Takes the reply to the request that the action waits for.
    pub fn resume(self, reply: Reply) -> (progress: Progress<ActionState>)
        requires
            self@.awaits(reply@),
        ensures
            progress@ == action_resumed(self@, reply@),
    {
        match reply {
            Reply::Read(read) => match self {
                Self::Copying { source, destination } => match copy_read_to(
                    name_of_selection(source),
                    read,
                    destination,
                ) {
                    Ok(request) => Progress::Ask(Self::Writing, request),
                    Err(message) => Progress::Finished(Err(message)),
                },
                Self::Reading(reads) => ask_for_reads(reads.resume(read)),
                _ => Progress::Finished(Ok(())),
            },
            Reply::Written(result) => match self {
                Self::Switching(writes) => ask_for_pair(writes.resume(result)),
                _ => Progress::Finished(result),
            },
            Reply::Notified => Progress::Finished(Ok(())),
        }
    }
}

/// Starts an action whose success is to be reported.
pub fn perform_action(action: ClipboardAction, notifications: bool) -> (progress: Progress<
    Task<ActionState>,
>)
    ensures
        progress@ == announced(Notice::Action(action), notifications, action_started(action)),
{
    announce(Notice::Action(action), notifications, apply_action(action))
}

/// What follows in a task once the reply it waits for is there.
pub open spec fn action_task_resumed(
    task: Task<ActionModel>,
    reply: ReplyModel,
) -> ProgressModel<Task<ActionModel>> {
    match task.stage {
        Stage::Working(state) => announced(
            task.notice,
            task.notifications,
            action_resumed(state, reply),
        ),
        Stage::Announcing => ProgressModel::Finished(Ok(())),
    }
}

/// Whether a reply is of the kind that a task waits for.
pub open spec fn action_task_awaits(task: Task<ActionModel>, reply: ReplyModel) -> bool {
    match task.stage {
        Stage::Working(state) => state.awaits(reply),
        Stage::Announcing => reply is Notified,
    }
}

impl Task<ActionState> {
    /// Whether `reply` is of the kind that the task waits for.
    pub fn accepts(&self, reply: &Reply) -> (accepted: bool)
        ensures
            accepted == action_task_awaits(self@, reply@),
    {
        match &self.stage {
            Stage::Working(state) => state.accepts(reply),
            Stage::Announcing => matches!(reply, Reply::Notified),
        }
    }

    /// Takes the reply to the request that the task waits for.
    pub fn resume(self, reply: Reply) -> (progress: Progress<Task<ActionState>>)
        requires
            action_task_awaits(self@, reply@),
        ensures
            progress@ == action_task_resumed(self@, reply@),
    {
        match self.stage {
            Stage::Working(state) => announce(
                self.notice,
                self.notifications,
                state.resume(reply),
            ),
            Stage::Announcing => Progress::Finished(Ok(())),
        }
    }
}

/// The selection that a clear target names.
pub open spec fn cleared_selection(target: ClearTarget) -> CopyClipboardType {
    match target {
        ClearTarget::Primary => CopyClipboardType::Primary,
        ClearTarget::Regular => CopyClipboardType::Regular,
    }
}

/// Starts to clear one selection; success is to be reported.
pub fn perform_clear(target: ClearTarget, notifications: bool) -> (progress: Progress<
    Task<ActionState>,
>)
    ensures
        progress@ == announced(
            Notice::Clear(target),
            notifications,
            ProgressModel::Ask(
                ActionModel::Writing,
                RequestModel::Clear(cleared_selection(target)),
            ),
        ),
{
    let selection = match target {
        ClearTarget::Primary => CopyClipboardType::Primary,
        ClearTarget::Regular => CopyClipboardType::Regular,
    };
    announce(
        Notice::Clear(target),
        notifications,
        Progress::Ask(ActionState::Writing, Request::Clear(selection)),
    )
}

} // verus!
