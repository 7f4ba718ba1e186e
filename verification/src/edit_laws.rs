//! What editing a selection or a stacked entry is for.
//!
//! A law that speaks of a call holds of every value that the call may return.
use crate::action::ActionState;
use crate::clipboard::{ClipboardRead, ClipboardType, CopyClipboardType};
use crate::clipboard_laws::refuses;
use crate::editing::{
    apply_edit, replace_stack_entry_if_unchanged, replaced, run_editor, EditedValue, EditorProgress,
    EditorReply, EditorRequest, EditorRun,
};
use crate::editor::{
    edit, edited_text, file_contents, prepare_file, read_edited_value, validate_command,
    validate_length, EditProgress, EditReply, EditRequest, EditRun, EditStage,
};
use crate::exchange::{Progress, Request, RequestModel, Stage, Task};
use crate::notification::Notice;
use crate::stack::{position, EntryModel, StackEntry};
use crate::stack_laws::{
    is_absent, is_first, law_absent_identities_have_no_position, law_positions, same_entries,
};
use crate::text::decimal;
use crate::tray::EditTarget;
use vstd::prelude::*;
use vstd::utf8::*;

verus! {

proof fn lemma_present_identities_have_a_first_place(stack: Seq<StackEntry>, id: u64, known: int)
    requires
        0 <= known < stack.len(),
        stack[known].id == id,
    ensures
        exists|place: int| is_first(stack, id, place),
    decreases known,
{
    if exists|earlier: int| 0 <= earlier < known && (#[trigger] stack[earlier]).id == id {
        let earlier = choose|earlier: int|
            0 <= earlier < known && (#[trigger] stack[earlier]).id == id;
        lemma_present_identities_have_a_first_place(stack, id, earlier);
    } else {
        assert(is_first(stack, id, known));
    }
}

proof fn lemma_first_places_are_positions(stack: Vec<StackEntry>, id: u64)
    ensures
        is_absent(stack@, id) ==> position(stack.deep_view(), id) is None,
        forall|place: int|
            #[trigger]
            is_first(stack@, id, place) ==> position(stack.deep_view(), id) == Some(
                place,
            ) && stack.deep_view()[place] == stack@[place]@,
        !is_absent(stack@, id) ==> exists|place: int| is_first(stack@, id, place),
{
    let entries = stack.deep_view();
    assert(entries.len() == stack@.len());
    if is_absent(stack@, id) {
        assert forall|i: int| 0 <= i < entries.len() implies (#[trigger] entries[i]).id != id by {
            assert(entries[i] == stack@[i]@);
        }
        law_absent_identities_have_no_position(entries, id);
    } else {
        let known = choose|i: int| 0 <= i < stack@.len() && (#[trigger] stack@[i]).id == id;
        lemma_present_identities_have_a_first_place(stack@, id, known);
    }
    assert forall|place: int| #[trigger] is_first(stack@, id, place) implies position(
        entries,
        id,
    ) == Some(place) && entries[place] == stack@[place]@ by {
        assert(entries[place] == stack@[place]@);
        assert forall|i: int| 0 <= i < place implies (#[trigger] entries[i]).id != id by {
            assert(entries[i] == stack@[i]@);
        }
        law_positions(entries, id, place);
    }
}

/// An edited text replaces the text of an entry exactly if some entry has the identity and the
/// first one that has it still holds the original text. That entry then holds the edited text,
/// whatever it is, and every other entry stays as it was; a refusal changes nothing.
pub proof fn law_which_edits_are_put_back(
    stack: &mut Vec<StackEntry>,
    id: u64,
    original: &str,
    value: String,
    result: Result<(), String>,
)
    requires
        call_ensures(replace_stack_entry_if_unchanged, (stack, id, original, value), result),
    ensures
        result is Ok <==> exists|place: int|
            is_first(old(stack)@, id, place) && old(stack)@[place].value@ == original@,
        forall|place: int|
            is_first(old(stack)@, id, place) && old(stack)@[place].value@ == original@ ==> {
                &&& final(stack)@.len() == old(stack)@.len()
                &&& final(stack)@[place].id == id
                &&& final(stack)@[place].value@ == value@
                &&& forall|i: int|
                    0 <= i < old(stack)@.len() && i != place ==> (#[trigger] final(stack)@[i]).id
                        == old(stack)@[i].id && final(stack)@[i].value@ == old(stack)@[i].value@
            },
        result is Err ==> same_entries(final(stack)@, old(stack)@),
        result matches Err(message) ==> message@ == if is_absent(old(stack)@, id) {
            "stacked entry no longer exists"@
        } else {
            "stacked entry changed while it was being edited"@
        },
{
    lemma_first_places_are_positions(*old(stack), id);
    let before = old(stack).deep_view();
    let after = final(stack).deep_view();
    assert forall|place: int|
        is_first(old(stack)@, id, place) && old(stack)@[place].value@ == original@ implies {
        &&& result is Ok
        &&& final(stack)@.len() == old(stack)@.len()
        &&& final(stack)@[place].id == id
        &&& final(stack)@[place].value@ == value@
        &&& forall|i: int|
            0 <= i < old(stack)@.len() && i != place ==> (#[trigger] final(stack)@[i]).id == old(
                stack
            )@[i].id && final(stack)@[i].value@ == old(stack)@[i].value@
    } by {
        assert(before[place] == old(stack)@[place]@);
        assert(after == before.update(place, EntryModel { id, value: value@ }));
        assert(after.len() == final(stack)@.len() && before.len() == old(stack)@.len());
        assert(after[place] == final(stack)@[place]@);
        assert forall|i: int| 0 <= i < old(stack)@.len() && i != place implies (#[trigger] final(
            stack
        )@[i]).id == old(stack)@[i].id && final(stack)@[i].value@ == old(stack)@[i].value@ by {
            assert(after[i] == final(stack)@[i]@);
            assert(before[i] == old(stack)@[i]@);
        }
    }
    if result is Ok {
        assert(!is_absent(old(stack)@, id));
        let place = choose|place: int| is_first(old(stack)@, id, place);
        assert(is_first(old(stack)@, id, place) && old(stack)@[place].value@ == original@);
    }
}

/// What replacing a text does to the entries: one gets the new text, exactly if it holds the
/// original one.
pub proof fn law_replacements(
    stack: Seq<EntryModel>,
    id: u64,
    original: Seq<char>,
    value: Seq<char>,
    place: int,
)
    requires
        0 <= place < stack.len(),
        stack[place].id == id,
        forall|i: int| 0 <= i < place ==> (#[trigger] stack[i]).id != id,
    ensures
        replaced(stack, id, original, value) is Ok <==> stack[place].value == original,
        replaced(stack, id, original, value) matches Ok(entries) ==> entries == stack.update(
            place,
            EntryModel { id, value },
        ),
        replaced(stack, id, original, value) matches Err(message) ==> message
            == "stacked entry changed while it was being edited"@,
{
    law_positions(stack, id, place);
}

/// An edited text of a selection is written to that selection and leaves the stack alone; one of a
/// stacked entry replaces its text. Success is announced as an edit, exactly if notifications are
/// enabled.
pub proof fn law_where_edits_go(
    value: EditedValue,
    stack: &mut Vec<StackEntry>,
    notifications: bool,
    progress: Progress<Task<ActionState>>,
)
    requires
        call_ensures(apply_edit, (value, stack, notifications), progress),
    ensures
        value.target is Primary ==> (progress matches Progress::Ask(
            task,
            Request::Write(CopyClipboardType::Primary, text),
        ) && text@ == value.edited@ && task.notice == Notice::Edit && task.notifications
            == notifications && task.stage == Stage::Working(ActionState::Writing)),
        value.target is Regular ==> (progress matches Progress::Ask(
            task,
            Request::Write(CopyClipboardType::Regular, text),
        ) && text@ == value.edited@ && task.notice == Notice::Edit && task.notifications
            == notifications && task.stage == Stage::Working(ActionState::Writing)),
        value.target is Primary || value.target is Regular ==> *final(stack) == *old(stack),
        value.target matches EditTarget::Stack(id) ==> {
            &&& (progress matches Progress::Finished(Err(_))) == !(exists|place: int|
                is_first(old(stack)@, id, place) && old(stack)@[place].value@ == value.original@)
            &&& forall|place: int|
                is_first(old(stack)@, id, place) && old(stack)@[place].value@ == value.original@
                    ==> {
                    &&& final(stack)@.len() == old(stack)@.len()
                    &&& final(stack)@[place].id == id
                    &&& final(stack)@[place].value@ == value.edited@
                    &&& forall|i: int|
                        0 <= i < old(stack)@.len() && i != place ==> (#[trigger] final(
                            stack
                        )@[i]).id == old(stack)@[i].id && final(stack)@[i].value@ == old(
                            stack
                        )@[i].value@
                    &&& if notifications {
                        progress matches Progress::Ask(task, request) && request == Request::Notify(
                            Notice::Edit,
                        ) && task.notice == Notice::Edit && task.notifications && task.stage
                            is Announcing
                    } else {
                        progress matches Progress::Finished(Ok(_))
                    }
                }
            &&& progress matches Progress::Finished(Err(_)) ==> *final(stack) == *old(stack)
            &&& progress matches Progress::Finished(Err(message)) ==> message@ == if is_absent(
                old(stack)@,
                id,
            ) {
                "stacked entry no longer exists"@
            } else {
                "stacked entry changed while it was being edited"@
            }
        },
{
    if let Progress::Ask(task, request) = progress {
        lemma_written_requests(request);
        if let Stage::Working(state) = task.stage {
            assert(task@.stage == Stage::Working(state@));
            assert(state@ is Writing ==> state is Writing);
        }
    }
    if let EditTarget::Stack(id) = value.target {
        lemma_first_places_are_positions(*old(stack), id);
        let before = old(stack).deep_view();
        let after = final(stack).deep_view();
        assert forall|place: int|
            is_first(old(stack)@, id, place) && old(stack)@[place].value@
                == value.original@ implies {
            &&& !(progress matches Progress::Finished(Err(_)))
            &&& final(stack)@.len() == old(stack)@.len()
            &&& final(stack)@[place].id == id
            &&& final(stack)@[place].value@ == value.edited@
            &&& forall|i: int|
                0 <= i < old(stack)@.len() && i != place ==> (#[trigger] final(stack)@[i]).id
                    == old(stack)@[i].id && final(stack)@[i].value@ == old(stack)@[i].value@
            &&& if notifications {
                progress matches Progress::Ask(task, request) && request == Request::Notify(
                    Notice::Edit,
                ) && task.notice == Notice::Edit && task.notifications && task.stage is Announcing
            } else {
                progress matches Progress::Finished(Ok(_))
            }
        } by {
            assert(before[place] == old(stack)@[place]@);
            assert(after == before.update(place, EntryModel { id, value: value.edited@ }));
            assert(after.len() == final(stack)@.len() && before.len() == old(stack)@.len());
            assert(after[place] == final(stack)@[place]@);
            assert forall|i: int|
                0 <= i < old(stack)@.len() && i != place implies (#[trigger] final(stack)@[i]).id
                == old(stack)@[i].id && final(stack)@[i].value@ == old(stack)@[i].value@ by {
                assert(after[i] == final(stack)@[i]@);
                assert(before[i] == old(stack)@[i]@);
            }
        }
        if !(progress matches Progress::Finished(Err(_))) {
            assert(!is_absent(old(stack)@, id));
            let place = choose|place: int| is_first(old(stack)@, id, place);
            assert(is_first(old(stack)@, id, place) && old(stack)@[place].value@
                == value.original@);
        }
    }
}

proof fn lemma_written_requests(request: Request)
    ensures
        request@ matches RequestModel::Write(selection, text) ==> (request matches Request::Write(
            written,
            value,
        ) && written == selection && value@ == text),
        request@ matches RequestModel::Notify(notice) ==> request == Request::Notify(notice),
{
}

/// Bytes less one line break at their end, if they end with one.
pub open spec fn less_line_break(bytes: Seq<u8>) -> Seq<u8> {
    if bytes.len() > 0 && bytes.last() == 0x0a {
        bytes.drop_last()
    } else {
        bytes
    }
}

/// The file that an editor opens holds the text and one line break, whatever the text ends with.
pub proof fn law_what_the_editor_opens(original: &str, bytes: Vec<u8>)
    requires
        call_ensures(prepare_file, (original,), bytes),
    ensures
        bytes@ == encode_utf8(original@) + seq![0x0au8],
        file_contents(original@) == encode_utf8(original@) + seq![0x0au8],
{
}

/// An edited file gives a text exactly if it holds, less one line break at its end, valid UTF-8 of
/// at most the bytes that are allowed; the text is then exactly that.
pub proof fn law_which_files_give_a_text(
    bytes: Vec<u8>,
    max_bytes: u64,
    result: Result<String, String>,
)
    requires
        call_ensures(read_edited_value, (bytes, max_bytes), result),
    ensures
        ({
            let kept = less_line_break(bytes@);
            &&& result is Ok <==> kept.len() <= max_bytes && valid_utf8(kept)
            &&& result matches Ok(text) ==> encode_utf8(text@) == kept
            &&& result matches Err(message) ==> message@ == if kept.len() > max_bytes {
                "edited value is too large ("@ + decimal(kept.len()) + " bytes; limit is "@
                    + decimal(max_bytes as nat) + ")"@
            } else {
                "edited value is not valid UTF-8; original value preserved"@
            }
        }),
{
    let kept = less_line_break(bytes@);
    if valid_utf8(kept) {
        decode_utf8_encode_utf8(kept);
    }
}

/// The same of the model: which bytes give which text.
pub proof fn law_edited_texts(bytes: Seq<u8>, max_bytes: u64, text: Seq<char>)
    ensures
        edited_text(bytes, max_bytes) == Ok::<Seq<char>, Seq<char>>(text) <==> encode_utf8(text)
            == less_line_break(bytes) && less_line_break(bytes).len() <= max_bytes,
        edited_text(bytes, max_bytes) is Err <==> less_line_break(bytes).len() > max_bytes
            || !valid_utf8(less_line_break(bytes)),
{
    let kept = less_line_break(bytes);
    encode_utf8_valid_utf8(text);
    encode_utf8_decode_utf8(text);
    if valid_utf8(kept) {
        decode_utf8_encode_utf8(kept);
    }
}

/// A file is read exactly if it is at most one byte longer than the text may be; an editor command
/// must name a program.
pub proof fn law_what_is_checked_before_reading(
    length: u64,
    max_bytes: u64,
    checked: Result<(), String>,
    command: Vec<String>,
    named: Result<(), String>,
)
    requires
        call_ensures(validate_length, (length, max_bytes), checked),
        call_ensures(validate_command, (&command,), named),
    ensures
        checked is Ok <==> length <= max_bytes + 1,
        checked matches Err(message) ==> message@ == "edited value is too large ("@ + decimal(
            length as nat,
        ) + " bytes; limit is "@ + decimal(max_bytes as nat) + ")"@,
        named is Ok <==> command@.len() > 0,
        named matches Err(message) ==> message@ == "no editor command is configured"@,
{
}

/// An edit starts by writing the file, exactly if there is a command to run.
pub proof fn law_how_edits_start(
    command: Vec<String>,
    original: &str,
    max_bytes: u64,
    progress: EditProgress,
)
    requires
        call_ensures(edit, (command, original, max_bytes), progress),
    ensures
        command@.len() == 0 ==> (progress matches EditProgress::Finished(Err(message)) && message@
            == "no editor command is configured"@),
        command@.len() > 0 ==> (progress matches EditProgress::Ask(
            run,
            EditRequest::WriteFile(bytes),
        ) && bytes@ == encode_utf8(original@) + seq![0x0au8] && run == (EditRun {
            max_bytes,
            stage: EditStage::Writing { command },
        })),
{
}

/// The steps of an edit that goes well: the command is run, the file is looked at and read, and
/// what it holds is the result.
pub proof fn law_how_edits_go_on(
    max_bytes: u64,
    command: Vec<String>,
    length: u64,
    bytes: Vec<u8>,
    written: EditProgress,
    exited: EditProgress,
    inspected: EditProgress,
    read: EditProgress,
)
    requires
        call_ensures(
            EditRun::resume,
            (EditRun { max_bytes, stage: EditStage::Writing { command } }, EditReply::Written),
            written,
        ),
        call_ensures(
            EditRun::resume,
            (
                EditRun { max_bytes, stage: EditStage::Running },
                EditReply::Exited { success: true },
            ),
            exited,
        ),
        call_ensures(
            EditRun::resume,
            (EditRun { max_bytes, stage: EditStage::Inspecting }, EditReply::Length(length)),
            inspected,
        ),
        call_ensures(
            EditRun::resume,
            (EditRun { max_bytes, stage: EditStage::Reading }, EditReply::Contents(bytes)),
            read,
        ),
    ensures
        written == EditProgress::Ask(
            EditRun { max_bytes, stage: EditStage::Running },
            EditRequest::Run(command),
        ),
        exited == EditProgress::Ask(
            EditRun { max_bytes, stage: EditStage::Inspecting },
            EditRequest::Inspect,
        ),
        length > max_bytes + 1 ==> (inspected matches EditProgress::Finished(Err(message))
            && message@ == "edited value is too large ("@ + decimal(length as nat)
            + " bytes; limit is "@ + decimal(max_bytes as nat) + ")"@),
        length <= max_bytes + 1 ==> (inspected matches EditProgress::Ask(
            run,
            EditRequest::Read(limit),
        ) && run == (EditRun { max_bytes, stage: EditStage::Reading }) && (limit == max_bytes + 2
            || max_bytes + 2 > u64::MAX && limit == u64::MAX)),
        read matches EditProgress::Finished(result) && ({
            let kept = less_line_break(bytes@);
            &&& result is Ok <==> kept.len() <= max_bytes && valid_utf8(kept)
            &&& result matches Ok(text) ==> encode_utf8(text@) == kept
            &&& result matches Err(message) ==> message@ == if kept.len() > max_bytes {
                "edited value is too large ("@ + decimal(kept.len()) + " bytes; limit is "@
                    + decimal(max_bytes as nat) + ")"@
            } else {
                "edited value is not valid UTF-8; original value preserved"@
            }
        }),
{
    let kept = less_line_break(bytes@);
    if valid_utf8(kept) {
        decode_utf8_encode_utf8(kept);
    }
}

/// Every step of an edit that fails ends it, for a reason that names the step.
pub proof fn law_how_edits_fail(run: EditRun, reply: EditReply, progress: EditProgress)
    requires
        run.awaits(reply),
        call_ensures(EditRun::resume, (run, reply), progress),
    ensures
        reply == (EditReply::Exited { success: false }) ==> ends_with(
            progress,
            "editor exited unsuccessfully; original value preserved"@,
        ),
        reply matches EditReply::CreateFailed(error) ==> ends_with(
            progress,
            "could not create private edit file: "@ + error@,
        ),
        reply matches EditReply::PrepareFailed(error) ==> ends_with(
            progress,
            "could not prepare edit file: "@ + error@,
        ),
        reply matches EditReply::LaunchFailed(error) ==> ends_with(
            progress,
            "could not launch editor: "@ + error@,
        ),
        reply matches EditReply::WaitFailed(error) ==> ends_with(
            progress,
            "could not wait for editor: "@ + error@,
        ),
        reply matches EditReply::ReopenFailed(error) ==> ends_with(
            progress,
            "could not reopen edited value: "@ + error@ + "; original value preserved"@,
        ),
        reply matches EditReply::InspectFailed(error) ==> ends_with(
            progress,
            "could not inspect edited value: "@ + error@,
        ),
        reply matches EditReply::ReadFailed(error) ==> ends_with(
            progress,
            "could not read edited value: "@ + error@,
        ),
{
}

/// Whether an edit has ended with a message.
pub open spec fn ends_with(progress: EditProgress, message: Seq<char>) -> bool {
    progress matches EditProgress::Finished(Err(said)) && said@ == message
}

/// An edit accepts exactly the replies that its stage can have.
pub proof fn law_which_edit_replies_are_accepted(run: EditRun, reply: EditReply, accepted: bool)
    requires
        call_ensures(EditRun::accepts, (&run, &reply), accepted),
    ensures
        accepted <==> run.awaits(reply),
        run.stage is Writing ==> (accepted <==> reply is Written || reply is CreateFailed
            || reply is PrepareFailed),
        run.stage is Running ==> (accepted <==> reply is Exited || reply is LaunchFailed
            || reply is WaitFailed),
        run.stage is Inspecting ==> (accepted <==> reply is Length || reply is ReopenFailed
            || reply is InspectFailed),
        run.stage is Reading ==> (accepted <==> reply is Contents || reply is ReadFailed),
{
}

/// An editor run on a selection reads that selection; one on a stacked entry edits the text that
/// the entry holds, if it still exists. Each has its own limit.
pub proof fn law_how_editor_runs_start(
    target: EditTarget,
    stack_value: Option<String>,
    command: Vec<String>,
    max_clipboard_bytes: u64,
    max_stack_entry_bytes: u64,
    progress: EditorProgress,
)
    requires
        call_ensures(
            run_editor,
            (target, stack_value, command, max_clipboard_bytes, max_stack_entry_bytes),
            progress,
        ),
    ensures
        target is Primary ==> progress == EditorProgress::Ask(
            EditorRun::Reading {
                target,
                source: ClipboardType::Primary,
                command,
                max_bytes: max_clipboard_bytes,
            },
            EditorRequest::Read(ClipboardType::Primary),
        ),
        target is Regular ==> progress == EditorProgress::Ask(
            EditorRun::Reading {
                target,
                source: ClipboardType::Regular,
                command,
                max_bytes: max_clipboard_bytes,
            },
            EditorRequest::Read(ClipboardType::Regular),
        ),
        target is Stack && stack_value is None ==> (progress matches EditorProgress::Finished(
            Err(message),
        ) && message@ == "stacked entry no longer exists"@),
        target is Stack ==> (stack_value matches Some(text) ==> edits(
            progress,
            target,
            text,
            command,
            max_stack_entry_bytes,
        )),
{
}

/// Whether a run goes on to edit a text: its file is to be written, or there is no command.
pub open spec fn edits(
    progress: EditorProgress,
    target: EditTarget,
    text: String,
    command: Vec<String>,
    max_bytes: u64,
) -> bool {
    &&& command@.len() == 0 ==> (progress matches EditorProgress::Finished(Err(message))
        && message@ == "no editor command is configured"@)
    &&& command@.len() > 0 ==> (progress matches EditorProgress::Ask(
        run,
        EditorRequest::Edit(EditRequest::WriteFile(bytes)),
    ) && bytes@ == encode_utf8(text@).push(0x0a) && run == (EditorRun::Editing {
        target,
        original: text,
        run: EditRun { max_bytes, stage: EditStage::Writing { command } },
    }))
}

/// A run that has its read edits the text that was read, or ends with the refusal.
pub proof fn law_how_editor_runs_use_the_read(
    target: EditTarget,
    source: ClipboardType,
    command: Vec<String>,
    max_bytes: u64,
    read: ClipboardRead,
    error: String,
    progress: EditorProgress,
    stopped: EditorProgress,
)
    requires
        call_ensures(
            EditorRun::resume,
            (EditorRun::Reading { target, source, command, max_bytes }, EditorReply::Read(read)),
            progress,
        ),
        call_ensures(
            EditorRun::resume,
            (
                EditorRun::Reading { target, source, command, max_bytes },
                EditorReply::ReaderStopped(error),
            ),
            stopped,
        ),
    ensures
        read matches ClipboardRead::Text(text) ==> edits(progress, target, text, command, max_bytes),
        !(read is Text) ==> (progress matches EditorProgress::Finished(Err(message)) && refuses(
            read,
            if source is Primary {
                "primary"@
            } else {
                "regular"@
            },
            message@,
        )),
        stopped matches EditorProgress::Finished(Err(message)) && message@
            == "clipboard reader stopped unexpectedly: "@ + error@,
{
}

/// A run that is editing asks for what its edit asks for, and its result is the edited text beside
/// the original one and where both belong.
pub proof fn law_how_editor_runs_go_on(
    target: EditTarget,
    original: String,
    max_bytes: u64,
    command: Vec<String>,
    bytes: Vec<u8>,
    error: String,
    written: EditorProgress,
    exited: EditorProgress,
    failed: EditorProgress,
    read: EditorProgress,
)
    requires
        call_ensures(
            EditorRun::resume,
            (
                EditorRun::Editing {
                    target,
                    original,
                    run: EditRun { max_bytes, stage: EditStage::Writing { command } },
                },
                EditorReply::Edit(EditReply::Written),
            ),
            written,
        ),
        call_ensures(
            EditorRun::resume,
            (
                EditorRun::Editing {
                    target,
                    original,
                    run: EditRun { max_bytes, stage: EditStage::Running },
                },
                EditorReply::Edit(EditReply::Exited { success: true }),
            ),
            exited,
        ),
        call_ensures(
            EditorRun::resume,
            (
                EditorRun::Editing {
                    target,
                    original,
                    run: EditRun { max_bytes, stage: EditStage::Running },
                },
                EditorReply::Edit(EditReply::Exited { success: false }),
            ),
            failed,
        ),
        call_ensures(
            EditorRun::resume,
            (
                EditorRun::Editing {
                    target,
                    original,
                    run: EditRun { max_bytes, stage: EditStage::Reading },
                },
                EditorReply::Edit(EditReply::Contents(bytes)),
            ),
            read,
        ),
    ensures
        written == EditorProgress::Ask(
            EditorRun::Editing {
                target,
                original,
                run: EditRun { max_bytes, stage: EditStage::Running },
            },
            EditorRequest::Edit(EditRequest::Run(command)),
        ),
        exited == EditorProgress::Ask(
            EditorRun::Editing {
                target,
                original,
                run: EditRun { max_bytes, stage: EditStage::Inspecting },
            },
            EditorRequest::Edit(EditRequest::Inspect),
        ),
        failed matches EditorProgress::Finished(Err(message)) && message@
            == "editor exited unsuccessfully; original value preserved"@,
        read matches EditorProgress::Finished(result) && ({
            let kept = less_line_break(bytes@);
            &&& result is Ok <==> kept.len() <= max_bytes && valid_utf8(kept)
            &&& result matches Ok(value) ==> value.target == target && value.original == original
                && encode_utf8(value.edited@) == kept
            &&& result matches Err(message) ==> message@ == if kept.len() > max_bytes {
                "edited value is too large ("@ + decimal(kept.len()) + " bytes; limit is "@
                    + decimal(max_bytes as nat) + ")"@
            } else {
                "edited value is not valid UTF-8; original value preserved"@
            }
        }),
{
    let kept = less_line_break(bytes@);
    if valid_utf8(kept) {
        decode_utf8_encode_utf8(kept);
    }
}

/// An editor run accepts a read while it waits for one, and otherwise what its edit accepts.
pub proof fn law_which_editor_replies_are_accepted(
    run: EditorRun,
    reply: EditorReply,
    accepted: bool,
    part: EditReply,
    taken: bool,
)
    requires
        call_ensures(EditorRun::accepts, (&run, &reply), accepted),
    ensures
        run is Reading ==> (accepted <==> reply is Read || reply is ReaderStopped),
        run is Editing && !(reply is Edit) ==> !accepted,
        run matches EditorRun::Editing { run: edit, .. } ==> (reply == EditorReply::Edit(part)
            && call_ensures(EditRun::accepts, (&edit, &part), taken) ==> accepted == taken),
{
}

/// Whether an editor run has ended with a message.
pub open spec fn run_ends_with(progress: EditorProgress, message: Seq<char>) -> bool {
    progress matches EditorProgress::Finished(Err(said)) && said@ == message
}

/// Whatever reply its edit gets, a run keeps what it edits, the original text and the limit. It
/// ends with a text only once the file was read, and with the reason of each step that fails.
pub proof fn law_editor_runs_do_what_their_edits_do(
    target: EditTarget,
    original: String,
    run: EditRun,
    reply: EditReply,
    progress: EditorProgress,
)
    requires
        run.awaits(reply),
        call_ensures(
            EditorRun::resume,
            (EditorRun::Editing { target, original, run }, EditorReply::Edit(reply)),
            progress,
        ),
    ensures
        progress matches EditorProgress::Ask(next, request) ==> (next matches EditorRun::Editing {
            target: kept,
            original: text,
            run: edit,
        } && kept == target && text == original && edit.max_bytes == run.max_bytes && request
            is Edit),
        progress matches EditorProgress::Finished(Ok(value)) ==> reply is Contents && value.target
            == target && value.original == original,
        reply matches EditReply::Length(length) ==> (length > run.max_bytes + 1 ==> run_ends_with(
            progress,
            "edited value is too large ("@ + decimal(length as nat) + " bytes; limit is "@
                + decimal(run.max_bytes as nat) + ")"@,
        )),
        reply matches EditReply::Length(length) ==> (length <= run.max_bytes + 1 ==> (
        progress matches EditorProgress::Ask(
            EditorRun::Editing { run: edit, .. },
            EditorRequest::Edit(EditRequest::Read(limit)),
        ) && edit.stage is Reading && (limit == run.max_bytes + 2 || run.max_bytes + 2 > u64::MAX
            && limit == u64::MAX))),
        reply == (EditReply::Exited { success: false }) ==> run_ends_with(
            progress,
            "editor exited unsuccessfully; original value preserved"@,
        ),
        reply matches EditReply::CreateFailed(error) ==> run_ends_with(
            progress,
            "could not create private edit file: "@ + error@,
        ),
        reply matches EditReply::PrepareFailed(error) ==> run_ends_with(
            progress,
            "could not prepare edit file: "@ + error@,
        ),
        reply matches EditReply::LaunchFailed(error) ==> run_ends_with(
            progress,
            "could not launch editor: "@ + error@,
        ),
        reply matches EditReply::WaitFailed(error) ==> run_ends_with(
            progress,
            "could not wait for editor: "@ + error@,
        ),
        reply matches EditReply::ReopenFailed(error) ==> run_ends_with(
            progress,
            "could not reopen edited value: "@ + error@ + "; original value preserved"@,
        ),
        reply matches EditReply::InspectFailed(error) ==> run_ends_with(
            progress,
            "could not inspect edited value: "@ + error@,
        ),
        reply matches EditReply::ReadFailed(error) ==> run_ends_with(
            progress,
            "could not read edited value: "@ + error@,
        ),
{
}

} // verus!
