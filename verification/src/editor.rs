//! Editing a text in an external editor.
//!
//! The editor works on a private file that holds the text and a line break. Its result is what
//! the file holds afterwards, less one line break at its end.
use crate::text::{byte_length, decimal, decimal_text, join2, join4};
use vstd::prelude::*;
use vstd::string::*;
use vstd::utf8::*;

verus! {

/// The byte of a line break.
pub const LINE_BREAK: u8 = 0x0a;

/// Accepts an editor command that names a program.
pub fn validate_command(command: &Vec<String>) -> (result: Result<(), String>)
    ensures
        result is Ok <==> command@.len() > 0,
        result matches Err(message) ==> message@ == "no editor command is configured"@,
{
    if command.is_empty() {
        Err("no editor command is configured".to_owned())
    } else {
        Ok(())
    }
}

/// What the file holds that the editor opens.
pub open spec fn file_contents(original: Seq<char>) -> Seq<u8> {
    encode_utf8(original).push(LINE_BREAK)
}

/// The bytes of the file that the editor opens.
pub fn prepare_file(original: &str) -> (bytes: Vec<u8>)
    ensures
        bytes@ == file_contents(original@),
{
    let mut bytes = original.as_bytes_vec();
    bytes.push(LINE_BREAK);
    bytes
}

/// Why an edited text is refused for its size.
pub open spec fn edit_too_large(length: nat, max_bytes: u64) -> Seq<char> {
    "edited value is too large ("@ + decimal(length) + " bytes; limit is "@ + decimal(
        max_bytes as nat,
    ) + ")"@
}

fn too_large_text(length: u64, max_bytes: u64) -> (message: String)
    ensures
        message@ == edit_too_large(length as nat, max_bytes),
{
    let mut message = join4(
        "edited value is too large (",
        decimal_text(length as u128).as_str(),
        " bytes; limit is ",
        decimal_text(max_bytes as u128).as_str(),
    );
    message.append(")");
    message
}

/// `value + more`, or the largest number there is.
pub open spec fn saturated(value: u64, more: u64) -> int {
    if value + more > u64::MAX {
        u64::MAX as int
    } else {
        value + more
    }
}

/// Accepts the length of an edited file that may hold a text within the limit: one byte more is
/// allowed, for the line break at its end.
pub fn validate_length(length: u64, max_bytes: u64) -> (result: Result<(), String>)
    ensures
        result is Ok <==> length <= saturated(max_bytes, 1),
        result matches Err(message) ==> message@ == edit_too_large(length as nat, max_bytes),
{
    if length > max_bytes.saturating_add(1) {
        return Err(too_large_text(length, max_bytes));
    }
    Ok(())
}

/// Bytes less one line break at their end.
pub open spec fn without_line_break(bytes: Seq<u8>) -> Seq<u8> {
    if bytes.len() > 0 && bytes.last() == LINE_BREAK {
        bytes.drop_last()
    } else {
        bytes
    }
}

/// The text that an edited file gives.
pub open spec fn edited_text(bytes: Seq<u8>, max_bytes: u64) -> Result<Seq<char>, Seq<char>> {
    let kept = without_line_break(bytes);
    if kept.len() > max_bytes {
        Err(edit_too_large(kept.len(), max_bytes))
    } else if !valid_utf8(kept) {
        Err("edited value is not valid UTF-8; original value preserved"@)
    } else {
        Ok(decode_utf8(kept))
    }
}

/// Whether a result is the one that a model gives.
pub open spec fn gives(result: Result<String, String>, model: Result<Seq<char>, Seq<char>>) -> bool {
    match model {
        Ok(text) => result matches Ok(value) && value@ == text,
        Err(message) => result matches Err(error) && error@ == message,
    }
}

/// Takes the text from what an edited file holds.
pub fn read_edited_value(bytes: Vec<u8>, max_bytes: u64) -> (result: Result<String, String>)
    ensures
        gives(result, edited_text(bytes@, max_bytes)),
{
    let mut kept = bytes;
    if kept.len() > 0 && kept[kept.len() - 1] == LINE_BREAK {
        let _ = kept.pop();
    }
    assert(kept@ =~= without_line_break(bytes@));
    if kept.len() as u64 > max_bytes {
        return Err(too_large_text(kept.len() as u64, max_bytes));
    }
    match String::from_utf8(kept) {
        Ok(value) => {
            proof {
                encode_utf8_decode_utf8(value@);
            }
            Ok(value)
        },
        Err(_) => Err("edited value is not valid UTF-8; original value preserved".to_owned()),
    }
}

/// One thing that an edit asks the system for.
#[derive(Debug, PartialEq, Eq)]
pub enum EditRequest {
    /// Create a private file that holds these bytes.
    WriteFile(Vec<u8>),
    /// Run this command with the path of the file as one more argument, and wait for its end.
    Run(Vec<String>),
    /// Open the file anew by its path, without following a link, and tell how long it is. Editors
    /// commonly save by renaming a new file over the old one.
    Inspect,
    /// Read at most this many bytes of the file that was opened.
    Read(u64),
}

/// The reply to a request of an edit.
#[derive(Debug, PartialEq, Eq)]
pub enum EditReply {
    Written,
    CreateFailed(String),
    PrepareFailed(String),
    Exited { success: bool },
    LaunchFailed(String),
    WaitFailed(String),
    Length(u64),
    ReopenFailed(String),
    InspectFailed(String),
    Contents(Vec<u8>),
    ReadFailed(String),
}

/// What an edit waits for.
#[derive(Debug, PartialEq, Eq)]
pub enum EditStage {
    Writing { command: Vec<String> },
    Running,
    Inspecting,
    Reading,
}

/// An edit under way.
#[derive(Debug, PartialEq, Eq)]
pub struct EditRun {
    pub max_bytes: u64,
    pub stage: EditStage,
}

/// How far an edit has come: it waits for the reply to a request, or it has its result.
#[derive(Debug, PartialEq, Eq)]
pub enum EditProgress {
    Ask(EditRun, EditRequest),
    Finished(Result<String, String>),
}

impl EditRun {
    /// Whether a reply is of the kind that the edit waits for.
    pub open spec fn awaits(self, reply: EditReply) -> bool {
        match self.stage {
            EditStage::Writing { .. } => reply is Written || reply is CreateFailed
                || reply is PrepareFailed,
            EditStage::Running => reply is Exited || reply is LaunchFailed || reply is WaitFailed,
            EditStage::Inspecting => reply is Length || reply is ReopenFailed
                || reply is InspectFailed,
            EditStage::Reading => reply is Contents || reply is ReadFailed,
        }
    }

    /// Whether `reply` is of the kind that the edit waits for.
    pub fn accepts(&self, reply: &EditReply) -> (accepted: bool)
        ensures
            accepted == self.awaits(*reply),
    {
        match &self.stage {
            EditStage::Writing { .. } => matches!(
                reply,
                EditReply::Written | EditReply::CreateFailed(_) | EditReply::PrepareFailed(_)
            ),
            EditStage::Running => matches!(
                reply,
                EditReply::Exited { .. } | EditReply::LaunchFailed(_) | EditReply::WaitFailed(_)
            ),
            EditStage::Inspecting => matches!(
                reply,
                EditReply::Length(_) | EditReply::ReopenFailed(_) | EditReply::InspectFailed(_)
            ),
            EditStage::Reading => matches!(
                reply,
                EditReply::Contents(_) | EditReply::ReadFailed(_)
            ),
        }
    }
}

/// Whether progress is that the edit failed, and for this reason.
pub open spec fn edit_failed(progress: EditProgress, reason: Seq<char>) -> bool {
    progress matches EditProgress::Finished(Err(message)) && message@ == reason
}

/// Starts to edit `original` with `command`.
pub fn edit(command: Vec<String>, original: &str, max_bytes: u64) -> (progress: EditProgress)
    ensures
        if command@.len() == 0 {
            edit_failed(progress, "no editor command is configured"@)
        } else {
            progress matches EditProgress::Ask(
                EditRun { max_bytes: limit, stage: EditStage::Writing { command: kept } },
                EditRequest::WriteFile(bytes),
            ) && limit == max_bytes && kept == command && bytes@ == file_contents(original@)
        },
{
    match validate_command(&command) {
        Ok(()) => EditProgress::Ask(
            EditRun { max_bytes, stage: EditStage::Writing { command } },
            EditRequest::WriteFile(prepare_file(original)),
        ),
        Err(message) => EditProgress::Finished(Err(message)),
    }
}

fn fail(reason: &str, error: &str) -> (progress: EditProgress)
    ensures
        edit_failed(progress, reason@ + error@),
{
    EditProgress::Finished(Err(join2(reason, error)))
}

impl EditRun {
    /// The same edit at another stage, with the request that the stage waits for.
    pub open spec fn asks(self, stage: EditStage, request: EditRequest) -> EditProgress {
        EditProgress::Ask(EditRun { max_bytes: self.max_bytes, stage }, request)
    }

    /// Whether progress is what follows in the edit once a reply is there.
    pub open spec fn leads_to(self, reply: EditReply, progress: EditProgress) -> bool {
        match reply {
            EditReply::Written => self.stage matches EditStage::Writing { command } ==> progress
                == self.asks(EditStage::Running, EditRequest::Run(command)),
            EditReply::CreateFailed(error) => edit_failed(
                progress,
                "could not create private edit file: "@ + error@,
            ),
            EditReply::PrepareFailed(error) => edit_failed(
                progress,
                "could not prepare edit file: "@ + error@,
            ),
            EditReply::Exited { success } => if success {
                progress == self.asks(EditStage::Inspecting, EditRequest::Inspect)
            } else {
                edit_failed(
                    progress,
                    "editor exited unsuccessfully; original value preserved"@,
                )
            },
            EditReply::LaunchFailed(error) => edit_failed(
                progress,
                "could not launch editor: "@ + error@,
            ),
            EditReply::WaitFailed(error) => edit_failed(
                progress,
                "could not wait for editor: "@ + error@,
            ),
            EditReply::Length(length) => if length <= saturated(self.max_bytes, 1) {
                progress == self.asks(
                    EditStage::Reading,
                    EditRequest::Read(saturated(self.max_bytes, 2) as u64),
                )
            } else {
                edit_failed(progress, edit_too_large(length as nat, self.max_bytes))
            },
            EditReply::ReopenFailed(error) => edit_failed(
                progress,
                "could not reopen edited value: "@ + error@ + "; original value preserved"@,
            ),
            EditReply::InspectFailed(error) => edit_failed(
                progress,
                "could not inspect edited value: "@ + error@,
            ),
            EditReply::Contents(bytes) => progress matches EditProgress::Finished(result)
                && gives(result, edited_text(bytes@, self.max_bytes)),
            EditReply::ReadFailed(error) => edit_failed(
                progress,
                "could not read edited value: "@ + error@,
            ),
        }
    }

    /// Takes the reply to the request that the edit waits for.
    pub fn resume(self, reply: EditReply) -> (progress: EditProgress)
        requires
            self.awaits(reply),
        ensures
            self.leads_to(reply, progress),
    {
        let max_bytes: u64 = self.max_bytes;
        match reply {
            EditReply::Written => match self.stage {
                EditStage::Writing { command } => EditProgress::Ask(
                    EditRun { max_bytes, stage: EditStage::Running },
                    EditRequest::Run(command),
                ),
                stage => EditProgress::Ask(EditRun { max_bytes, stage }, EditRequest::Inspect),
            },
            EditReply::CreateFailed(error) => fail(
                "could not create private edit file: ",
                error.as_str(),
            ),
            EditReply::PrepareFailed(error) => fail(
                "could not prepare edit file: ",
                error.as_str(),
            ),
            EditReply::Exited { success } => if success {
                EditProgress::Ask(
                    EditRun { max_bytes, stage: EditStage::Inspecting },
                    EditRequest::Inspect,
                )
            } else {
                EditProgress::Finished(
                    Err("editor exited unsuccessfully; original value preserved".to_owned()),
                )
            },
            EditReply::LaunchFailed(error) => fail("could not launch editor: ", error.as_str()),
            EditReply::WaitFailed(error) => fail("could not wait for editor: ", error.as_str()),
            EditReply::Length(length) => match validate_length(length, max_bytes) {
                Ok(()) => EditProgress::Ask(
                    EditRun { max_bytes, stage: EditStage::Reading },
                    EditRequest::Read(max_bytes.saturating_add(2)),
                ),
                Err(message) => EditProgress::Finished(Err(message)),
            },
            EditReply::ReopenFailed(error) => {
                let mut message = join2("could not reopen edited value: ", error.as_str());
                message.append("; original value preserved");
                EditProgress::Finished(Err(message))
            },
            EditReply::InspectFailed(error) => fail(
                "could not inspect edited value: ",
                error.as_str(),
            ),
            EditReply::Contents(bytes) => EditProgress::Finished(
                read_edited_value(bytes, max_bytes),
            ),
            EditReply::ReadFailed(error) => fail("could not read edited value: ", error.as_str()),
        }
    }
}

/// An editor that leaves the file as it is gives back the original text, line breaks at its end
/// included, if the text is within the limit.
pub proof fn law_unchanged_file_gives_back_the_text(original: Seq<char>, max_bytes: u64)
    requires
        byte_length(original) <= max_bytes,
    ensures
        file_contents(original).len() <= u64::MAX ==> file_contents(original).len() <= saturated(
            max_bytes,
            1,
        ),
        edited_text(file_contents(original), max_bytes) == Ok::<Seq<char>, Seq<char>>(original),
{
    encode_utf8_valid_utf8(original);
    encode_utf8_decode_utf8(original);
    assert(without_line_break(file_contents(original)) =~= encode_utf8(original));
}

/// A text that an edit results in is within the limit, whatever the file holds.
pub proof fn law_edited_text_is_within_the_limit(bytes: Seq<u8>, max_bytes: u64)
    ensures
        edited_text(bytes, max_bytes) matches Ok(text) ==> byte_length(text) <= max_bytes
            && encode_utf8(text) == without_line_break(bytes),
{
    let kept = without_line_break(bytes);
    if valid_utf8(kept) {
        decode_utf8_encode_utf8(kept);
    }
}

/// Reading two bytes more than the limit is enough: whether the file gives a text, and which one,
/// does not depend on how much more there is.
pub proof fn law_reading_no_more_than_needed_changes_nothing(bytes: Seq<u8>, max_bytes: u64)
    requires
        bytes.len() <= u64::MAX,
    ensures
        bytes.len() > saturated(max_bytes, 2) ==> {
            let part = bytes.take(saturated(max_bytes, 2));
            edited_text(part, max_bytes) is Err && edited_text(bytes, max_bytes) is Err
        },
{
}

} // verus!
