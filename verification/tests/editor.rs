use clipboard_applet::clipboard::{ClipboardRead, ClipboardType, CopyClipboardType};
use clipboard_applet::editing::{
    apply_edit, run_editor, EditedValue, EditorProgress, EditorReply, EditorRequest,
};
use clipboard_applet::editor::{
    edit, prepare_file, read_edited_value, validate_length, EditProgress, EditReply, EditRequest,
};
use clipboard_applet::exchange::{Progress, Reply, Request};
use clipboard_applet::notification::Notice;
use clipboard_applet::stack::{EntryIds, StackEntry};
use clipboard_applet::tray::EditTarget;

const LIMIT: u64 = 1024;

/// A file system with one file, which an editor may change or remove.
fn answer(
    request: EditRequest,
    file: &mut Option<Vec<u8>>,
    run: &mut impl FnMut(&[String], &mut Option<Vec<u8>>) -> Result<bool, String>,
) -> EditReply {
    match request {
        EditRequest::WriteFile(bytes) => {
            *file = Some(bytes);
            EditReply::Written
        }
        EditRequest::Run(command) => match run(&command, file) {
            Ok(success) => EditReply::Exited { success },
            Err(error) => EditReply::LaunchFailed(error),
        },
        EditRequest::Inspect => match file {
            Some(bytes) => EditReply::Length(bytes.len() as u64),
            None => EditReply::ReopenFailed("no such file".into()),
        },
        EditRequest::Read(limit) => {
            let bytes = file.clone().unwrap();
            let length = bytes.len().min(limit as usize);
            EditReply::Contents(bytes[..length].to_vec())
        }
    }
}

fn edit_with(
    command: &[String],
    original: &str,
    max_bytes: u64,
    mut run: impl FnMut(&[String], &mut Option<Vec<u8>>) -> Result<bool, String>,
) -> Result<String, String> {
    let mut file = None;
    let mut progress = edit(command.to_vec(), original, max_bytes);
    loop {
        match progress {
            EditProgress::Ask(state, request) => {
                let reply = answer(request, &mut file, &mut run);
                assert!(state.accepts(&reply));
                progress = state.resume(reply);
            }
            EditProgress::Finished(result) => return result,
        }
    }
}

fn saves(contents: &str) -> impl FnMut(&[String], &mut Option<Vec<u8>>) -> Result<bool, String> {
    let contents = contents.as_bytes().to_vec();
    move |_, file| {
        *file = Some(contents.clone());
        Ok(true)
    }
}

#[test]
fn successful_edit_returns_replacement() {
    let value = edit_with(&["editor".into()], "original", LIMIT, saves("edited")).unwrap();
    assert_eq!(value, "edited");
}

#[test]
fn removed_edit_file_preserves_the_original() {
    let result = edit_with(&["editor".into()], "original", LIMIT, |_, file| {
        *file = None;
        Ok(true)
    });
    assert!(result.unwrap_err().contains("original value preserved"));
}

#[test]
fn edit_file_exposes_and_preserves_trailing_newline_state() {
    for (original, expected_file) in [
        ("without newline", "without newline\n"),
        ("with newline\n", "with newline\n\n"),
    ] {
        let value = edit_with(&["editor".into()], original, LIMIT, |_, file| {
            let contents = String::from_utf8(file.clone().unwrap()).unwrap();
            assert_eq!(contents, expected_file);
            Ok(true)
        })
        .unwrap();
        assert_eq!(value, original);
    }
}

#[test]
fn edited_file_controls_result_trailing_newline() {
    for (edited_file, expected) in [
        ("edited\n", "edited"),
        ("edited\n\n", "edited\n"),
        ("edited", "edited"),
    ] {
        let value = edit_with(&["editor".into()], "original", LIMIT, saves(edited_file)).unwrap();
        assert_eq!(value, expected);
    }
}

#[test]
fn empty_output_is_valid() {
    let value = edit_with(&["editor".into()], "original", LIMIT, saves("")).unwrap();
    assert!(value.is_empty());
}

#[test]
fn failed_editor_preserves_original_by_returning_an_error() {
    assert!(edit_with(&["editor".into()], "original", LIMIT, |_, _| Ok(false)).is_err());
}

#[test]
fn oversized_output_is_rejected() {
    let result = edit_with(&["editor".into()], "original", LIMIT, |_, file| {
        *file = Some(vec![0; (LIMIT + 2) as usize]);
        Ok(true)
    });
    assert!(result.unwrap_err().contains("too large"));
}

#[test]
fn edited_output_limit_accepts_below_and_at_but_rejects_above() {
    for (edited, expected) in [("123\n", true), ("1234\n", true), ("12345\n", false)] {
        let result = edit_with(&["editor".into()], "original", 4, saves(edited));
        assert_eq!(result.is_ok(), expected);
    }
}

#[test]
fn the_command_is_passed_on_whole() {
    let command: Vec<String> = ["foot", "-e", "nvim"].map(String::from).to_vec();
    edit_with(&command, "original", LIMIT, |given, _| {
        assert_eq!(given, command);
        Ok(true)
    })
    .unwrap();
    assert_eq!(
        edit_with(&[], "original", LIMIT, |_, _| Ok(true)),
        Err("no editor command is configured".to_string())
    );
}

#[test]
fn each_failed_step_of_an_edit_says_why() {
    let start = || match edit(vec!["editor".into()], "original", 4) {
        EditProgress::Ask(state, EditRequest::WriteFile(bytes)) => {
            assert_eq!(bytes, b"original\n");
            state
        }
        other => panic!("an edit starts with a file, not {other:?}"),
    };
    let advance = |replies: Vec<EditReply>| {
        let mut state = start();
        let last = replies.len() - 1;
        for (index, reply) in replies.into_iter().enumerate() {
            assert!(state.accepts(&reply));
            match state.resume(reply) {
                EditProgress::Ask(next, _) => state = next,
                EditProgress::Finished(result) => {
                    assert_eq!(index, last);
                    return result.unwrap_err();
                }
            }
        }
        panic!("the edit goes on")
    };
    let exited = || EditReply::Exited { success: true };
    assert_eq!(
        advance(vec![EditReply::CreateFailed("e".into())]),
        "could not create private edit file: e"
    );
    assert_eq!(
        advance(vec![EditReply::PrepareFailed("e".into())]),
        "could not prepare edit file: e"
    );
    assert_eq!(
        advance(vec![EditReply::Written, EditReply::LaunchFailed("e".into())]),
        "could not launch editor: e"
    );
    assert_eq!(
        advance(vec![EditReply::Written, EditReply::WaitFailed("e".into())]),
        "could not wait for editor: e"
    );
    assert_eq!(
        advance(vec![EditReply::Written, EditReply::Exited { success: false }]),
        "editor exited unsuccessfully; original value preserved"
    );
    assert_eq!(
        advance(vec![EditReply::Written, exited(), EditReply::ReopenFailed("e".into())]),
        "could not reopen edited value: e; original value preserved"
    );
    assert_eq!(
        advance(vec![EditReply::Written, exited(), EditReply::InspectFailed("e".into())]),
        "could not inspect edited value: e"
    );
    assert_eq!(
        advance(vec![EditReply::Written, exited(), EditReply::Length(6)]),
        "edited value is too large (6 bytes; limit is 4)"
    );
    assert_eq!(
        advance(vec![
            EditReply::Written,
            exited(),
            EditReply::Length(5),
            EditReply::ReadFailed("e".into())
        ]),
        "could not read edited value: e"
    );
    assert_eq!(
        advance(vec![
            EditReply::Written,
            exited(),
            EditReply::Length(5),
            EditReply::Contents(b"12345".to_vec())
        ]),
        "edited value is too large (5 bytes; limit is 4)"
    );
    assert_eq!(
        advance(vec![
            EditReply::Written,
            exited(),
            EditReply::Length(5),
            EditReply::Contents(b"\xff\n".to_vec())
        ]),
        "edited value is not valid UTF-8; original value preserved"
    );
}

#[test]
fn an_unchanged_file_gives_back_the_text() {
    for original in ["", "\n", "é🙂\n\n", "one\ntwo"] {
        assert_eq!(
            read_edited_value(prepare_file(original), original.len() as u64),
            Ok(original.to_string())
        );
    }
}

#[test]
fn a_file_may_hold_one_byte_more_than_the_limit() {
    assert_eq!(validate_length(5, 4), Ok(()));
    assert_eq!(
        validate_length(6, 4),
        Err("edited value is too large (6 bytes; limit is 4)".to_string())
    );
    assert_eq!(validate_length(u64::MAX, u64::MAX), Ok(()));
}

#[test]
fn reading_no_more_than_needed_is_enough() {
    let file = b"123456789\n".to_vec();
    assert!(read_edited_value(file[..6].to_vec(), 4).is_err());
    assert!(read_edited_value(file, 4).is_err());
}

fn run(
    target: EditTarget,
    stack_value: Option<&str>,
    read: ClipboardRead,
    contents: &str,
) -> Result<EditedValue, String> {
    let mut file = None;
    let mut save = saves(contents);
    let mut progress = run_editor(
        target,
        stack_value.map(String::from),
        vec!["editor".into()],
        8,
        6,
    );
    loop {
        match progress {
            EditorProgress::Ask(state, request) => {
                let reply = match request {
                    EditorRequest::Read(_) => EditorReply::Read(read.clone()),
                    EditorRequest::Edit(request) => {
                        EditorReply::Edit(answer(request, &mut file, &mut save))
                    }
                };
                assert!(state.accepts(&reply));
                progress = state.resume(reply);
            }
            EditorProgress::Finished(result) => return result,
        }
    }
}

#[test]
fn a_selection_is_read_and_a_stacked_text_is_given() {
    for (target, source) in [
        (EditTarget::Primary, ClipboardType::Primary),
        (EditTarget::Regular, ClipboardType::Regular),
    ] {
        let EditorProgress::Ask(state, request) =
            run_editor(target, None, vec!["editor".into()], 8, 6)
        else {
            panic!("the selection must be read");
        };
        assert_eq!(request, EditorRequest::Read(source));
        assert_eq!(
            state.resume(EditorReply::ReaderStopped("panic".into())),
            EditorProgress::Finished(Err("clipboard reader stopped unexpectedly: panic".into()))
        );
        assert_eq!(
            run(target, None, ClipboardRead::Text("old".into()), "new\n"),
            Ok(EditedValue {
                target,
                original: "old".into(),
                edited: "new".into(),
            })
        );
    }
    assert_eq!(
        run(EditTarget::Stack(3), Some("old"), ClipboardRead::NonText, "new"),
        Ok(EditedValue {
            target: EditTarget::Stack(3),
            original: "old".into(),
            edited: "new".into(),
        })
    );
}

#[test]
fn an_edit_that_cannot_start_says_why() {
    assert_eq!(
        run(EditTarget::Primary, None, ClipboardRead::NonText, "new"),
        Err("primary clipboard does not contain text".to_string())
    );
    assert_eq!(
        run(EditTarget::Regular, None, ClipboardRead::Empty, "new"),
        Err("regular clipboard is empty".to_string())
    );
    assert_eq!(
        run(EditTarget::Stack(3), None, ClipboardRead::Empty, "new"),
        Err("stacked entry no longer exists".to_string())
    );
    assert_eq!(
        run_editor(EditTarget::Stack(3), Some("old".into()), vec![], 8, 6),
        EditorProgress::Finished(Err("no editor command is configured".into()))
    );
}

#[test]
fn selections_and_stacked_texts_have_their_own_limits() {
    assert!(run(EditTarget::Primary, None, ClipboardRead::Text("old".into()), "12345678").is_ok());
    assert_eq!(
        run(EditTarget::Stack(3), Some("old"), ClipboardRead::Empty, "12345678\n"),
        Err("edited value is too large (9 bytes; limit is 6)".to_string())
    );
}

#[test]
fn an_edited_text_goes_back_to_where_it_came_from() {
    let edited = |target: EditTarget| EditedValue {
        target,
        original: "old".into(),
        edited: "new".into(),
    };
    let mut stack = vec![StackEntry::new(&mut EntryIds::new(), "old".into())];
    for (target, selection) in [
        (EditTarget::Primary, CopyClipboardType::Primary),
        (EditTarget::Regular, CopyClipboardType::Regular),
    ] {
        let Progress::Ask(task, request) = apply_edit(edited(target), &mut stack, true) else {
            panic!("the selection must be written");
        };
        assert_eq!(request, Request::Write(selection, "new".into()));
        let Progress::Ask(_, request) = task.resume(Reply::Written(Ok(()))) else {
            panic!("the edit must be announced");
        };
        assert_eq!(request, Request::Notify(Notice::Edit));
        assert_eq!(stack[0].value, "old");
    }
    assert_eq!(
        apply_edit(edited(EditTarget::Stack(7)), &mut stack, true),
        Progress::Finished(Err("stacked entry no longer exists".into()))
    );
    assert_eq!(
        apply_edit(edited(EditTarget::Stack(1)), &mut stack, false),
        Progress::Finished(Ok(()))
    );
    assert_eq!(stack, [StackEntry { id: 1, value: "new".into() }]);
    assert_eq!(
        apply_edit(edited(EditTarget::Stack(1)), &mut stack, true),
        Progress::Finished(Err("stacked entry changed while it was being edited".into()))
    );
}
