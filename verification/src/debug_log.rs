//! The lines of the debug log.
//!
//! A line may tell what state a selection was in and how long a text is, never what the text says.
use crate::action::{ActionModel, ActionState};
use crate::clipboard::{
    ClipboardAction, ClipboardRead, ClipboardType, CopyClipboardType, ReadModel,
};
use crate::exchange::{outcome, Reply, ReplyModel, Request, RequestModel, Stage, Task};
use crate::notification::Notice;
use crate::stack::{restorable, StackAction, StackModel, StackState};
use crate::text::{decimal, decimal_text, join2, join3, join4};
use crate::transfer::{BothReads, BothReadsModel, PairModel, PairWrite};
use vstd::prelude::*;
use vstd::string::*;

verus! {

/// What a selection that is read is called in the log.
pub open spec fn source_name(selection: ClipboardType) -> Seq<char> {
    match selection {
        ClipboardType::Primary => "Primary"@,
        ClipboardType::Regular => "Regular"@,
    }
}

/// What a selection that is written is called in the log.
pub open spec fn destination_name(selection: CopyClipboardType) -> Seq<char> {
    match selection {
        CopyClipboardType::Primary => "Primary"@,
        CopyClipboardType::Regular => "Regular"@,
        CopyClipboardType::Both => "Both"@,
    }
}

fn name_of_source(selection: ClipboardType) -> (name: &'static str)
    ensures
        name@ == source_name(selection),
{
    match selection {
        ClipboardType::Primary => "Primary",
        ClipboardType::Regular => "Regular",
    }
}

fn name_of_destination(selection: CopyClipboardType) -> (name: &'static str)
    ensures
        name@ == destination_name(selection),
{
    match selection {
        CopyClipboardType::Primary => "Primary",
        CopyClipboardType::Regular => "Regular",
        CopyClipboardType::Both => "Both",
    }
}

/// A number of characters in the log.
pub open spec fn length_note(length: nat) -> Seq<char> {
    "length="@ + decimal(length) + " chars"@
}

fn length_text(length: usize) -> (text: String)
    ensures
        text@ == length_note(length as nat),
{
    join3("length=", decimal_text(length as u128).as_str(), " chars")
}

/// What the log tells about a read: its state, and how long the text is.
pub open spec fn read_note(read: ReadModel) -> Seq<char> {
    "state="@ + read.state_name() + ", "@ + length_note(read.length())
}

/// Writes what the log tells about a read.
pub fn read_report(read: &ClipboardRead) -> (text: String)
    ensures
        text@ == read_note(read@),
{
    join4("state=", read.state(), ", ", length_text(read.text_length()).as_str())
}

/// The line on a read that is to be copied.
pub open spec fn copy_line(source: ClipboardType, read: ReadModel) -> Seq<char> {
    match source {
        ClipboardType::Primary => "[debug] COPY_PRIMARY read: primary="@ + read_note(read),
        ClipboardType::Regular => "[debug] COPY_REGULAR read: regular="@ + read_note(read),
    }
}

/// Writes the line on a read that is to be copied.
pub fn copy_report(source: ClipboardType, read: &ClipboardRead) -> (line: String)
    ensures
        line@ == copy_line(source, read@),
{
    join2(
        match source {
            ClipboardType::Primary => "[debug] COPY_PRIMARY read: primary=",
            ClipboardType::Regular => "[debug] COPY_REGULAR read: regular=",
        },
        read_report(read).as_str(),
    )
}

/// The line on two reads that are to be exchanged.
pub open spec fn switch_line(primary: ReadModel, regular: ReadModel) -> Seq<char> {
    "[debug] SWITCH read: primary="@ + read_note(primary) + ", regular="@ + read_note(regular)
}

/// Writes the line on two reads that are to be exchanged.
pub fn switch_report(primary: &ClipboardRead, regular: &ClipboardRead) -> (line: String)
    ensures
        line@ == switch_line(primary@, regular@),
{
    join4(
        "[debug] SWITCH read: primary=",
        read_report(primary).as_str(),
        ", regular=",
        read_report(regular).as_str(),
    )
}

/// The line on a read that is to be pushed.
pub open spec fn push_line(source: ClipboardType, read: ReadModel) -> Seq<char> {
    "[debug] stack push: source="@ + source_name(source) + ", "@ + read_note(read)
}

/// Writes the line on a read that is to be pushed.
pub fn push_report(source: ClipboardType, read: &ClipboardRead) -> (line: String)
    ensures
        line@ == push_line(source, read@),
{
    join4(
        "[debug] stack push: source=",
        name_of_source(source),
        ", ",
        read_report(read).as_str(),
    )
}

/// A line on a text of some length that goes to a selection.
pub open spec fn transfer_line(
    operation: Seq<char>,
    destination: CopyClipboardType,
    length: nat,
) -> Seq<char> {
    operation + destination_name(destination) + ", "@ + length_note(length)
}

fn transfer_report(operation: &str, destination: CopyClipboardType, value: &str) -> (line: String)
    ensures
        line@ == transfer_line(operation@, destination, value@.len()),
{
    join4(
        operation,
        name_of_destination(destination),
        ", ",
        length_text(value.unicode_len()).as_str(),
    )
}

/// The line on a write.
pub open spec fn write_line(destination: CopyClipboardType, length: nat) -> Seq<char> {
    transfer_line("[debug] writing destination: "@, destination, length)
}

/// Writes the line on a write.
pub fn write_report(destination: CopyClipboardType, value: &str) -> (line: String)
    ensures
        line@ == write_line(destination, value@.len()),
{
    transfer_report("[debug] writing destination: ", destination, value)
}

/// The line on the top of the stack that goes to one selection.
pub open spec fn pop_line(destination: CopyClipboardType, length: nat) -> Seq<char> {
    transfer_line("[debug] stack pop: destination="@, destination, length)
}

/// The line on a stacked entry that is copied to a selection.
pub open spec fn entry_line(destination: CopyClipboardType, length: nat) -> Seq<char> {
    transfer_line("[debug] stack copy: destination="@, destination, length)
}

/// The line on the top of the stack that goes to both selections. A primary selection that is
/// empty counts as a text of no length.
pub open spec fn pop_both_line(length: nat, original_primary: nat) -> Seq<char> {
    "[debug] stack pop: destination=Primary+Regular, "@ + length_note(length)
        + ", original_primary="@ + decimal(original_primary) + " chars"@
}

fn pop_both_report(value: &str, original_primary: usize) -> (line: String)
    ensures
        line@ == pop_both_line(value@.len(), original_primary as nat),
{
    let mut line = join4(
        "[debug] stack pop: destination=Primary+Regular, ",
        length_text(value.unicode_len()).as_str(),
        ", original_primary=",
        decimal_text(original_primary as u128).as_str(),
    );
    line.append(" chars");
    line
}

/// The line on a text that an editor is opened on.
pub open spec fn edit_started_line(length: nat) -> Seq<char> {
    "[debug] editor started: original_length="@ + decimal(length) + " chars"@
}

/// Writes the line on a text that an editor is opened on.
pub fn edit_started_report(original: &str) -> (line: String)
    ensures
        line@ == edit_started_line(original@.len()),
{
    join3(
        "[debug] editor started: original_length=",
        decimal_text(original.unicode_len() as u128).as_str(),
        " chars",
    )
}

/// The line on a text that an edit resulted in.
pub open spec fn edit_completed_line(length: nat) -> Seq<char> {
    "[debug] editor completed: edited_length="@ + decimal(length) + " chars"@
}

/// Writes the line on a text that an edit resulted in.
pub fn edit_completed_report(edited: &str) -> (line: String)
    ensures
        line@ == edit_completed_line(edited@.len()),
{
    join3(
        "[debug] editor completed: edited_length=",
        decimal_text(edited.unicode_len() as u128).as_str(),
        " chars",
    )
}

/// The lines on a step of a write to both selections that failed or undid another one.
pub open spec fn pair_lines<V>(state: PairModel<V>, result: Result<(), Seq<char>>) -> Seq<
    Seq<char>,
> {
    match (state, result) {
        (PairModel::Primary { .. }, Err(error)) => seq![
            "[debug] multi-write failed: step=Primary, error="@ + error,
        ],
        (PairModel::Regular { .. }, Err(error)) => seq![
            "[debug] multi-write failed: step=Regular, error="@ + error,
        ],
        (PairModel::Restoring { .. }, Ok(_)) => seq![
            "[debug] multi-write rollback completed: destination=Primary"@,
        ],
        (PairModel::Restoring { .. }, Err(error)) => seq![
            "[debug] multi-write rollback failed: destination=Primary, error="@ + error,
        ],
        _ => Seq::empty(),
    }
}

fn no_lines() -> (lines: Vec<String>)
    ensures
        lines.deep_view() == Seq::<Seq<char>>::empty(),
{
    let lines: Vec<String> = Vec::new();
    assert(lines.deep_view() =~= Seq::<Seq<char>>::empty());
    lines
}

fn one_line(line: String) -> (lines: Vec<String>)
    ensures
        lines.deep_view() == seq![line@],
{
    let mut lines: Vec<String> = Vec::new();
    lines.push(line);
    assert(lines.deep_view() =~= seq![line@]);
    lines
}

fn two_lines(first: String, second: String) -> (lines: Vec<String>)
    ensures
        lines.deep_view() == seq![first@, second@],
{
    let mut lines: Vec<String> = Vec::new();
    lines.push(first);
    lines.push(second);
    assert(lines.deep_view() =~= seq![first@, second@]);
    lines
}

fn pair_report<T: DeepView>(state: &PairWrite<T>, result: &Result<(), String>) -> (lines: Vec<
    String,
>)
    ensures
        lines.deep_view() == pair_lines(state@, outcome(*result)),
{
    match (state, result) {
        (PairWrite::Primary { .. }, Err(error)) => one_line(
            join2("[debug] multi-write failed: step=Primary, error=", error.as_str()),
        ),
        (PairWrite::Regular { .. }, Err(error)) => one_line(
            join2("[debug] multi-write failed: step=Regular, error=", error.as_str()),
        ),
        (PairWrite::Restoring { .. }, Ok(_)) => one_line(
            "[debug] multi-write rollback completed: destination=Primary".to_owned(),
        ),
        (PairWrite::Restoring { .. }, Err(error)) => one_line(
            join2("[debug] multi-write rollback failed: destination=Primary, error=", error.as_str()),
        ),
        _ => no_lines(),
    }
}

/// The lines before a request of a task on the selections is carried out.
pub open spec fn request_lines(notice: Notice, request: RequestModel) -> Seq<Seq<char>> {
    match request {
        RequestModel::Write(destination, value) => if notice is StackCopy {
            seq![entry_line(destination, value.len()), write_line(destination, value.len())]
        } else {
            seq![write_line(destination, value.len())]
        },
        RequestModel::Clear(destination) => match notice {
            Notice::Action(ClipboardAction::Reset) => seq![
                "[debug] RESET clearing primary and regular clipboards"@,
            ],
            Notice::Action(_) => seq![
                "[debug] clearing switch destination: "@ + destination_name(destination),
            ],
            Notice::Clear(_) => seq![
                "[debug] clearing clipboard from menu: "@ + destination_name(destination),
            ],
            _ => Seq::empty(),
        },
        _ => Seq::empty(),
    }
}

/// The lines once a task on the selections has the reply it waits for.
pub open spec fn reply_lines(task: Task<ActionModel>, reply: ReplyModel) -> Seq<Seq<char>> {
    match (task.stage, reply) {
        (Stage::Working(ActionModel::Copying { source, .. }), ReplyModel::Read(read)) => seq![
            copy_line(source, read),
        ],
        (
            Stage::Working(ActionModel::Reading(BothReadsModel::Regular(primary))),
            ReplyModel::Read(regular),
        ) => seq![switch_line(primary, regular)],
        (
            Stage::Working(ActionModel::Switching(writes)),
            ReplyModel::Written(result),
        ) => pair_lines(writes, result),
        _ => Seq::empty(),
    }
}

impl Task<ActionState> {
    /// What is logged before `request` is carried out.
    pub fn log_request(&self, request: &Request) -> (lines: Vec<String>)
        ensures
            lines.deep_view() == request_lines(self.notice, request@),
    {
        match request {
            Request::Write(destination, value) => {
                let written = write_report(*destination, value.as_str());
                match self.notice {
                    Notice::StackCopy(_) => two_lines(
                        transfer_report(
                            "[debug] stack copy: destination=",
                            *destination,
                            value.as_str(),
                        ),
                        written,
                    ),
                    _ => one_line(written),
                }
            },
            Request::Clear(destination) => match self.notice {
                Notice::Action(ClipboardAction::Reset) => one_line(
                    "[debug] RESET clearing primary and regular clipboards".to_owned(),
                ),
                Notice::Action(_) => one_line(
                    join2(
                        "[debug] clearing switch destination: ",
                        name_of_destination(*destination),
                    ),
                ),
                Notice::Clear(_) => one_line(
                    join2(
                        "[debug] clearing clipboard from menu: ",
                        name_of_destination(*destination),
                    ),
                ),
                _ => no_lines(),
            },
            _ => no_lines(),
        }
    }

    /// What is logged once `reply` is there.
    pub fn log_reply(&self, reply: &Reply) -> (lines: Vec<String>)
        ensures
            lines.deep_view() == reply_lines(self@, reply@),
    {
        match &self.stage {
            Stage::Working(ActionState::Copying { source, .. }) => match reply {
                Reply::Read(read) => one_line(copy_report(*source, read)),
                _ => no_lines(),
            },
            Stage::Working(ActionState::Reading(BothReads::Regular(primary))) => match reply {
                Reply::Read(regular) => one_line(switch_report(primary, regular)),
                _ => no_lines(),
            },
            Stage::Working(ActionState::Switching(writes)) => match reply {
                Reply::Written(result) => pair_report(writes, result),
                _ => no_lines(),
            },
            _ => no_lines(),
        }
    }
}

/// The lines before a request of a task on the stack is carried out.
pub open spec fn stack_request_lines(task: Task<StackModel>, request: RequestModel) -> Seq<
    Seq<char>,
> {
    match request {
        RequestModel::Write(destination, value) => if task.stage == Stage::Working(
            StackModel::Popping,
        ) {
            seq![pop_line(destination, value.len()), write_line(destination, value.len())]
        } else {
            seq![write_line(destination, value.len())]
        },
        _ => Seq::empty(),
    }
}

/// The selection that a task on the stack pushes from.
pub open spec fn pushed_selection(notice: Notice) -> ClipboardType {
    if notice == Notice::Stack(StackAction::PushPrimary) {
        ClipboardType::Primary
    } else {
        ClipboardType::Regular
    }
}

/// The lines once a task on the stack has the reply it waits for.
pub open spec fn stack_reply_lines(task: Task<StackModel>, reply: ReplyModel) -> Seq<Seq<char>> {
    match (task.stage, reply) {
        (Stage::Working(StackModel::Pushing { .. }), ReplyModel::Read(read)) => seq![
            push_line(pushed_selection(task.notice), read),
        ],
        (Stage::Working(StackModel::Preparing { value }), ReplyModel::Read(read)) => {
            if restorable(read) is Ok {
                seq![pop_both_line(value.len(), read.length())]
            } else {
                Seq::empty()
            }
        },
        (
            Stage::Working(StackModel::PoppingBoth(writes)),
            ReplyModel::Written(result),
        ) => pair_lines(writes, result),
        _ => Seq::empty(),
    }
}

impl Task<StackState> {
    /// What is logged before `request` is carried out.
    pub fn log_request(&self, request: &Request) -> (lines: Vec<String>)
        ensures
            lines.deep_view() == stack_request_lines(self@, request@),
    {
        match request {
            Request::Write(destination, value) => {
                let written = write_report(*destination, value.as_str());
                match &self.stage {
                    Stage::Working(StackState::Popping) => two_lines(
                        transfer_report(
                            "[debug] stack pop: destination=",
                            *destination,
                            value.as_str(),
                        ),
                        written,
                    ),
                    _ => one_line(written),
                }
            },
            _ => no_lines(),
        }
    }

    /// What is logged once `reply` is there.
    pub fn log_reply(&self, reply: &Reply) -> (lines: Vec<String>)
        ensures
            lines.deep_view() == stack_reply_lines(self@, reply@),
    {
        match &self.stage {
            Stage::Working(StackState::Pushing { .. }) => match reply {
                Reply::Read(read) => {
                    let source = match self.notice {
                        Notice::Stack(StackAction::PushPrimary) => ClipboardType::Primary,
                        _ => ClipboardType::Regular,
                    };
                    one_line(push_report(source, read))
                },
                _ => no_lines(),
            },
            Stage::Working(StackState::Preparing { value }) => match reply {
                Reply::Read(read) => match read {
                    ClipboardRead::Text(_) | ClipboardRead::Empty => one_line(
                        pop_both_report(value.as_str(), read.text_length()),
                    ),
                    _ => no_lines(),
                },
                _ => no_lines(),
            },
            Stage::Working(StackState::PoppingBoth(writes)) => match reply {
                Reply::Written(result) => pair_report(writes, result),
                _ => no_lines(),
            },
            _ => no_lines(),
        }
    }
}

/// Two reads of the same state and length are logged alike, whatever they are read for.
pub proof fn law_reads_of_equal_state_and_length_are_logged_alike(
    left: ReadModel,
    right: ReadModel,
    other: ReadModel,
    source: ClipboardType,
)
    requires
        left.state_name() == right.state_name(),
        left.length() == right.length(),
    ensures
        read_note(left) == read_note(right),
        copy_line(source, left) == copy_line(source, right),
        push_line(source, left) == push_line(source, right),
        switch_line(left, other) == switch_line(right, other),
        switch_line(other, left) == switch_line(other, right),
{
}

/// Two writes of texts of the same length are logged alike, whatever task makes them.
pub proof fn law_writes_of_equal_length_are_logged_alike(
    notice: Notice,
    task: Task<StackModel>,
    destination: CopyClipboardType,
    left: Seq<char>,
    right: Seq<char>,
)
    requires
        left.len() == right.len(),
    ensures
        request_lines(notice, RequestModel::Write(destination, left)) == request_lines(
            notice,
            RequestModel::Write(destination, right),
        ),
        stack_request_lines(task, RequestModel::Write(destination, left)) == stack_request_lines(
            task,
            RequestModel::Write(destination, right),
        ),
{
}

/// A text of the same length that says nothing.
pub open spec fn blanked(text: Seq<char>) -> Seq<char> {
    Seq::new(text.len(), |i: int| ' ')
}

/// A content of a selection whose text says nothing.
pub open spec fn blanked_content(content: Option<Seq<char>>) -> Option<Seq<char>> {
    match content {
        Some(text) => Some(blanked(text)),
        None => None,
    }
}

/// A read whose text says nothing.
pub open spec fn blanked_read(read: ReadModel) -> ReadModel {
    match read {
        ReadModel::Text(text) => ReadModel::Text(blanked(text)),
        _ => read,
    }
}

/// A request whose text says nothing.
pub open spec fn blanked_request(request: RequestModel) -> RequestModel {
    match request {
        RequestModel::Write(destination, text) => RequestModel::Write(destination, blanked(text)),
        _ => request,
    }
}

/// A reply whose text says nothing.
pub open spec fn blanked_reply(reply: ReplyModel) -> ReplyModel {
    match reply {
        ReplyModel::Read(read) => ReplyModel::Read(blanked_read(read)),
        _ => reply,
    }
}

/// A write to both selections whose texts say nothing.
pub open spec fn blanked_pair(state: PairModel<Option<Seq<char>>>) -> PairModel<Option<Seq<char>>> {
    match state {
        PairModel::Primary { regular, original_primary } => PairModel::Primary {
            regular: blanked_content(regular),
            original_primary: blanked_content(original_primary),
        },
        PairModel::Regular { original_primary } => PairModel::Regular {
            original_primary: blanked_content(original_primary),
        },
        PairModel::Restoring { error } => PairModel::Restoring { error },
    }
}

/// A task on the selections whose texts say nothing.
pub open spec fn blanked_task(task: Task<ActionModel>) -> Task<ActionModel> {
    Task {
        stage: match task.stage {
            Stage::Working(ActionModel::Reading(BothReadsModel::Regular(primary))) => {
                Stage::Working(
                    ActionModel::Reading(BothReadsModel::Regular(blanked_read(primary))),
                )
            },
            Stage::Working(ActionModel::Switching(writes)) => Stage::Working(
                ActionModel::Switching(blanked_pair(writes)),
            ),
            _ => task.stage,
        },
        ..task
    }
}

/// A task on the stack whose texts say nothing.
pub open spec fn blanked_stack_task(task: Task<StackModel>) -> Task<StackModel> {
    Task {
        stage: match task.stage {
            Stage::Working(StackModel::Preparing { value }) => Stage::Working(
                StackModel::Preparing { value: blanked(value) },
            ),
            Stage::Working(StackModel::PoppingBoth(writes)) => Stage::Working(
                StackModel::PoppingBoth(blanked_pair(writes)),
            ),
            _ => task.stage,
        },
        ..task
    }
}

/// The log never tells what a text says: every line stays the same if each text of a selection or
/// of the stack is replaced by blanks.
pub proof fn law_texts_are_not_logged(
    task: Task<ActionModel>,
    stack_task: Task<StackModel>,
    request: RequestModel,
    reply: ReplyModel,
    text: Seq<char>,
)
    ensures
        request_lines(task.notice, request) == request_lines(
            blanked_task(task).notice,
            blanked_request(request),
        ),
        reply_lines(task, reply) == reply_lines(blanked_task(task), blanked_reply(reply)),
        stack_request_lines(stack_task, request) == stack_request_lines(
            blanked_stack_task(stack_task),
            blanked_request(request),
        ),
        stack_reply_lines(stack_task, reply) == stack_reply_lines(
            blanked_stack_task(stack_task),
            blanked_reply(reply),
        ),
        edit_started_line(text.len()) == edit_started_line(blanked(text).len()),
        edit_completed_line(text.len()) == edit_completed_line(blanked(text).len()),
{
}

} // verus!
