//! Editing the content of a selection or of a stacked entry.
use crate::action::{name_of_selection, selection_name, ActionModel, ActionState};
use crate::clipboard::{ClipboardRead, ClipboardType, CopyClipboardType};
use crate::editor::{edit, file_contents, EditProgress, EditReply, EditRequest, EditRun, EditStage};
use crate::exchange::{announce, announced, Progress, ProgressModel, Request, RequestModel, Task};
use crate::notification::Notice;
use crate::stack::{find_entry, position, EntryModel, StackEntry};
use crate::text::{join2, same_text};
use crate::tray::EditTarget;
use vstd::prelude::*;
use vstd::string::*;

verus! {

/// A text before and after it was edited.
#[derive(Debug, PartialEq, Eq)]
pub struct EditedValue {
    pub target: EditTarget,
    pub original: String,
    pub edited: String,
}

/// What an editor run asks the system for.
#[derive(Debug, PartialEq, Eq)]
pub enum EditorRequest {
    /// Read the selection that is to be edited.
    Read(ClipboardType),
    /// Carry on the edit.
    Edit(EditRequest),
}

/// The reply to a request of an editor run.
#[derive(Debug, PartialEq, Eq)]
pub enum EditorReply {
    Read(ClipboardRead),
    /// The selection was not read because the reader itself came to grief.
    ReaderStopped(String),
    Edit(EditReply),
}

/// Where an editor run stands.
#[derive(Debug, PartialEq, Eq)]
pub enum EditorRun {
    /// The selection is being read.
    Reading { target: EditTarget, source: ClipboardType, command: Vec<String>, max_bytes: u64 },
    /// The text is being edited.
    Editing { target: EditTarget, original: String, run: EditRun },
}

/// How far an editor run has come.
#[derive(Debug, PartialEq, Eq)]
pub enum EditorProgress {
    Ask(EditorRun, EditorRequest),
    Finished(Result<EditedValue, String>),
}

/// Whether progress is that the run failed, and for this reason.
pub open spec fn run_failed(progress: EditorProgress, reason: Seq<char>) -> bool {
    progress matches EditorProgress::Finished(Err(message)) && message@ == reason
}

/// Whether progress is that the run begins to edit a text: the file is to be written.
pub open spec fn begins_edit(
    progress: EditorProgress,
    target: EditTarget,
    original: String,
    command: Vec<String>,
    max_bytes: u64,
) -> bool {
    if command@.len() == 0 {
        run_failed(progress, "no editor command is configured"@)
    } else {
        progress matches EditorProgress::Ask(
            EditorRun::Editing { target: kept, original: text, run },
            EditorRequest::Edit(EditRequest::WriteFile(bytes)),
        ) && kept == target && text == original && run == (EditRun {
            max_bytes,
            stage: EditStage::Writing { command },
        }) && bytes@ == file_contents(original@)
    }
}

/// Whether progress of a run is what progress of its edit comes to.
pub open spec fn carries(
    progress: EditorProgress,
    target: EditTarget,
    original: String,
    edit: EditProgress,
) -> bool {
    match edit {
        EditProgress::Ask(run, request) => progress == EditorProgress::Ask(
            EditorRun::Editing { target, original, run },
            EditorRequest::Edit(request),
        ),
        EditProgress::Finished(Ok(edited)) => progress == EditorProgress::Finished(
            Ok(EditedValue { target, original, edited }),
        ),
        EditProgress::Finished(Err(message)) => progress == EditorProgress::Finished(Err(message)),
    }
}

fn carry(target: EditTarget, original: String, edit: EditProgress) -> (progress: EditorProgress)
    ensures
        carries(progress, target, original, edit),
{
    match edit {
        EditProgress::Ask(run, request) => EditorProgress::Ask(
            EditorRun::Editing { target, original, run },
            EditorRequest::Edit(request),
        ),
        EditProgress::Finished(Ok(edited)) => EditorProgress::Finished(
            Ok(EditedValue { target, original, edited }),
        ),
        EditProgress::Finished(Err(message)) => EditorProgress::Finished(Err(message)),
    }
}

fn begin_edit(
    target: EditTarget,
    original: String,
    command: Vec<String>,
    max_bytes: u64,
) -> (progress: EditorProgress)
    ensures
        begins_edit(progress, target, original, command, max_bytes),
{
    let started = edit(command, original.as_str(), max_bytes);
    carry(target, original, started)
}

/// Starts an editor run. A selection is read first; a stacked entry's text is given, if the entry
/// still exists.
pub fn run_editor(
    target: EditTarget,
    stack_value: Option<String>,
    command: Vec<String>,
    max_clipboard_bytes: u64,
    max_stack_entry_bytes: u64,
) -> (progress: EditorProgress)
    ensures
        match target {
            EditTarget::Primary => progress == EditorProgress::Ask(
                EditorRun::Reading {
                    target,
                    source: ClipboardType::Primary,
                    command,
                    max_bytes: max_clipboard_bytes,
                },
                EditorRequest::Read(ClipboardType::Primary),
            ),
            EditTarget::Regular => progress == EditorProgress::Ask(
                EditorRun::Reading {
                    target,
                    source: ClipboardType::Regular,
                    command,
                    max_bytes: max_clipboard_bytes,
                },
                EditorRequest::Read(ClipboardType::Regular),
            ),
            EditTarget::Stack(_) => match stack_value {
                Some(original) => begins_edit(
                    progress,
                    target,
                    original,
                    command,
                    max_stack_entry_bytes,
                ),
                None => run_failed(progress, "stacked entry no longer exists"@),
            },
        },
{
    match target {
        EditTarget::Primary => EditorProgress::Ask(
            EditorRun::Reading {
                target,
                source: ClipboardType::Primary,
                command,
                max_bytes: max_clipboard_bytes,
            },
            EditorRequest::Read(ClipboardType::Primary),
        ),
        EditTarget::Regular => EditorProgress::Ask(
            EditorRun::Reading {
                target,
                source: ClipboardType::Regular,
                command,
                max_bytes: max_clipboard_bytes,
            },
            EditorRequest::Read(ClipboardType::Regular),
        ),
        EditTarget::Stack(_) => match stack_value {
            Some(original) => begin_edit(target, original, command, max_stack_entry_bytes),
            None => EditorProgress::Finished(Err("stacked entry no longer exists".to_owned())),
        },
    }
}

impl EditorRun {
    /// Whether a reply is of the kind that the run waits for.
    pub open spec fn awaits(self, reply: EditorReply) -> bool {
        match self {
            EditorRun::Reading { .. } => reply is Read || reply is ReaderStopped,
            EditorRun::Editing { run, .. } => reply matches EditorReply::Edit(reply) && run.awaits(
                reply,
            ),
        }
    }

    /// Whether `reply` is of the kind that the run waits for.
    pub fn accepts(&self, reply: &EditorReply) -> (accepted: bool)
        ensures
            accepted == self.awaits(*reply),
    {
        match self {
            Self::Reading { .. } => matches!(
                reply,
                EditorReply::Read(_) | EditorReply::ReaderStopped(_)
            ),
            Self::Editing { run, .. } => match reply {
                EditorReply::Edit(reply) => run.accepts(reply),
                _ => false,
            },
        }
    }

    /// Takes the reply to the request that the run waits for.
    pub fn resume(self, reply: EditorReply) -> (progress: EditorProgress)
        requires
            self.awaits(reply),
        ensures
            match (self, reply) {
                (
                    EditorRun::Reading { target, source, command, max_bytes },
                    EditorReply::Read(read),
                ) => match read {
                    ClipboardRead::Text(original) => begins_edit(
                        progress,
                        target,
                        original,
                        command,
                        max_bytes,
                    ),
                    _ => run_failed(progress, read@.refusal(selection_name(source))),
                },
                (EditorRun::Reading { .. }, EditorReply::ReaderStopped(error)) => run_failed(
                    progress,
                    "clipboard reader stopped unexpectedly: "@ + error@,
                ),
                (EditorRun::Editing { target, original, run }, EditorReply::Edit(reply)) => exists|
                    edit: EditProgress,
                |
                    #[trigger] run.leads_to(reply, edit) && carries(
                        progress,
                        target,
                        original,
                        edit,
                    ),
                _ => true,
            },
    {
        match reply {
            EditorReply::Read(read) => match self {
                Self::Reading { target, source, command, max_bytes } => match read.into_editable(
                    name_of_selection(source),
                ) {
                    Ok(original) => begin_edit(target, original, command, max_bytes),
                    Err(message) => EditorProgress::Finished(Err(message)),
                },
                state => EditorProgress::Ask(state, EditorRequest::Edit(EditRequest::Inspect)),
            },
            EditorReply::ReaderStopped(error) => EditorProgress::Finished(
                Err(join2("clipboard reader stopped unexpectedly: ", error.as_str())),
            ),
            EditorReply::Edit(reply) => match self {
                Self::Editing { target, original, run } => {
                    let edit = run.resume(reply);
                    carry(target, original, edit)
                },
                state => EditorProgress::Ask(state, EditorRequest::Edit(EditRequest::Inspect)),
            },
        }
    }
}

/// The stack once an edited text has replaced the text it was made from. The entry must still
/// exist and must still hold the original text.
pub open spec fn replaced(
    stack: Seq<EntryModel>,
    id: u64,
    original: Seq<char>,
    value: Seq<char>,
) -> Result<Seq<EntryModel>, Seq<char>> {
    match position(stack, id) {
        None => Err("stacked entry no longer exists"@),
        Some(index) => if stack[index].value != original {
            Err("stacked entry changed while it was being edited"@)
        } else {
            Ok(stack.update(index, EntryModel { id, value }))
        },
    }
}

/// Gives the entry with the identity `id` the text `value`, if it still holds `original`.
pub fn replace_stack_entry_if_unchanged(
    stack: &mut Vec<StackEntry>,
    id: u64,
    original: &str,
    value: String,
) -> (result: Result<(), String>)
    ensures
        match replaced(old(stack).deep_view(), id, original@, value@) {
            Ok(entries) => result is Ok && final(stack).deep_view() == entries,
            Err(message) => (result matches Err(error) && error@ == message) && *final(stack)
                == *old(stack),
        },
{
    let index = match find_entry(stack, id) {
        Some(index) => index,
        None => return Err("stacked entry no longer exists".to_owned()),
    };
    assert(stack.deep_view()[index as int] == stack@[index as int]@);
    if !same_text(stack[index].value.as_str(), original) {
        return Err("stacked entry changed while it was being edited".to_owned());
    }
    stack.set(index, StackEntry { id, value });
    assert(stack.deep_view() =~= old(stack).deep_view().update(
        index as int,
        EntryModel { id, value: value@ },
    ));
    Ok(())
}

/// The selection that an edited text goes back to.
pub open spec fn edited_selection(target: EditTarget) -> CopyClipboardType {
    match target {
        EditTarget::Primary => CopyClipboardType::Primary,
        _ => CopyClipboardType::Regular,
    }
}

/// Brings an edited text back to where it came from: a selection is written, a stacked entry is
/// replaced. Success is to be reported.
pub fn apply_edit(value: EditedValue, stack: &mut Vec<StackEntry>, notifications: bool) -> (progress:
    Progress<Task<ActionState>>)
    ensures
        match value.target {
            EditTarget::Stack(id) => match replaced(
                old(stack).deep_view(),
                id,
                value.original@,
                value.edited@,
            ) {
                Ok(entries) => progress@ == announced::<ActionModel>(
                    Notice::Edit,
                    notifications,
                    ProgressModel::Finished(Ok(())),
                ) && final(stack).deep_view() == entries,
                Err(message) => progress@ == ProgressModel::<Task<ActionModel>>::Finished(
                    Err(message),
                ) && *final(stack) == *old(stack),
            },
            _ => progress@ == announced(
                Notice::Edit,
                notifications,
                ProgressModel::Ask(
                    ActionModel::Writing,
                    RequestModel::Write(edited_selection(value.target), value.edited@),
                ),
            ) && *final(stack) == *old(stack),
        },
{
    let EditedValue { target, original, edited } = value;
    let work = match target {
        EditTarget::Primary => Progress::Ask(
            ActionState::Writing,
            Request::Write(CopyClipboardType::Primary, edited),
        ),
        EditTarget::Regular => Progress::Ask(
            ActionState::Writing,
            Request::Write(CopyClipboardType::Regular, edited),
        ),
        EditTarget::Stack(id) => Progress::Finished(
            replace_stack_entry_if_unchanged(stack, id, original.as_str(), edited),
        ),
    };
    announce(Notice::Edit, notifications, work)
}

/// Replacing an entry's text changes that entry alone and keeps every identity in its place.
pub proof fn law_replacing_touches_one_entry(
    stack: Seq<EntryModel>,
    id: u64,
    original: Seq<char>,
    value: Seq<char>,
    place: int,
)
    requires
        0 <= place < stack.len(),
    ensures
        replaced(stack, id, original, value) matches Ok(entries) ==> {
            &&& entries.len() == stack.len()
            &&& entries[place].id == stack[place].id
            &&& position(stack, id) != Some(place) ==> entries[place] == stack[place]
            &&& position(stack, id) == Some(place) ==> entries[place].value == value
        },
{
}

} // verus!
