use clipboard_applet::action::ActionState;
use clipboard_applet::clipboard::{ClipboardRead, ClipboardType, CopyClipboardType, ReadLimits};
use clipboard_applet::editing::replace_stack_entry_if_unchanged;
use clipboard_applet::exchange::{Progress, Reply, Request};
use clipboard_applet::notification::Notice;
use clipboard_applet::stack::{
    copy_entry, copy_entry_with, perform, pop_to_both, push, validate_clipboard_size,
    validate_entry_size, EntryIds, StackAction, StackCopyDestination, StackCopyRequest, StackEntry,
    StackLimits, StackState,
};

fn stack_of(ids: &mut EntryIds, values: &[&str]) -> Vec<StackEntry> {
    values
        .iter()
        .map(|value| StackEntry::new(ids, value.to_string()))
        .collect()
}

fn values(stack: &[StackEntry]) -> Vec<&str> {
    stack.iter().map(|entry| entry.value.as_str()).collect()
}

fn copy(
    request: StackCopyRequest,
    stack: &Vec<StackEntry>,
    limit: u64,
    mut write: impl FnMut(CopyClipboardType, String) -> Result<(), String>,
) -> Result<(), String> {
    let mut progress: Progress<ActionState> = copy_entry_with(request, stack, limit);
    loop {
        match progress {
            Progress::Ask(state, Request::Write(selection, value)) => {
                let reply = Reply::Written(write(selection, value));
                assert!(state.accepts(&reply));
                progress = state.resume(reply);
            }
            Progress::Ask(_, other) => panic!("a copy must write, not {other:?}"),
            Progress::Finished(result) => return result,
        }
    }
}

fn pop_both(
    stack: &mut Vec<StackEntry>,
    limit: u64,
    primary: ClipboardRead,
    mut write: impl FnMut(CopyClipboardType, Option<String>) -> Result<(), String>,
) -> Result<(), String> {
    let mut ids = EntryIds { next: 1000 };
    let mut progress: Progress<StackState> = pop_to_both(stack, limit);
    loop {
        match progress {
            Progress::Ask(state, request) => {
                let reply = match request {
                    Request::Read(ClipboardType::Primary) => Reply::Read(primary.clone()),
                    Request::Write(selection, value) => Reply::Written(write(selection, Some(value))),
                    Request::Clear(selection) => Reply::Written(write(selection, None)),
                    other => panic!("popping to both must not ask for {other:?}"),
                };
                assert!(state.accepts(&reply));
                progress = state.resume(stack, &mut ids, reply);
            }
            Progress::Finished(result) => return result,
        }
    }
}

const LIMITS: StackLimits = StackLimits {
    capacity: 2,
    clipboard: ReadLimits {
        max_bytes: 8,
        timeout: 1_000_000_000,
    },
    max_entry_bytes: 6,
};

/// An applet whose writes fail as told.
struct Applet {
    primary: ClipboardRead,
    regular: ClipboardRead,
    failures: Vec<Option<&'static str>>,
    notices: Vec<Notice>,
    stack: Vec<StackEntry>,
    ids: EntryIds,
}

impl Applet {
    fn new(primary: ClipboardRead, regular: ClipboardRead, stack: &[&str]) -> Self {
        let mut ids = EntryIds::new();
        let stack = stack_of(&mut ids, stack);
        Applet {
            primary,
            regular,
            failures: vec![],
            notices: vec![],
            stack,
            ids,
        }
    }

    fn put(&mut self, selection: CopyClipboardType, content: ClipboardRead) -> Reply {
        if !self.failures.is_empty() {
            if let Some(error) = self.failures.remove(0) {
                return Reply::Written(Err(error.into()));
            }
        }
        if selection != CopyClipboardType::Regular {
            self.primary = content.clone();
        }
        if selection != CopyClipboardType::Primary {
            self.regular = content;
        }
        Reply::Written(Ok(()))
    }

    fn perform(&mut self, action: StackAction, notifications: bool) -> Result<(), String> {
        let mut progress = perform(action, &self.stack, LIMITS, notifications);
        loop {
            match progress {
                Progress::Ask(task, request) => {
                    let reply = match request {
                        Request::Read(ClipboardType::Primary) => Reply::Read(self.primary.clone()),
                        Request::Read(ClipboardType::Regular) => Reply::Read(self.regular.clone()),
                        Request::Write(selection, value) => {
                            self.put(selection, ClipboardRead::Text(value))
                        }
                        Request::Clear(selection) => self.put(selection, ClipboardRead::Empty),
                        Request::Notify(notice) => {
                            self.notices.push(notice);
                            Reply::Notified
                        }
                    };
                    assert!(task.accepts(&reply));
                    progress = task.resume(&mut self.stack, &mut self.ids, reply);
                }
                Progress::Finished(result) => return result,
            }
        }
    }
}

fn text(value: &str) -> ClipboardRead {
    ClipboardRead::Text(value.into())
}

#[test]
fn push_evicts_oldest_entry_at_capacity() {
    let mut ids = EntryIds::new();
    let mut stack = stack_of(&mut ids, &["one", "two"]);
    push(&mut stack, &mut ids, "three".into(), 2);
    assert_eq!(values(&stack), ["two", "three"]);
    assert_ne!(stack[0].id, stack[1].id);
}

#[test]
fn identities_are_given_out_in_order() {
    let mut ids = EntryIds::new();
    let stack = stack_of(&mut ids, &["one", "two"]);
    assert_eq!((stack[0].id, stack[1].id, ids.next), (1, 2, 3));
    ids.next = u64::MAX;
    assert_eq!(StackEntry::new(&mut ids, "last".into()).id, u64::MAX);
    assert_eq!(ids.next, 0);
}

#[test]
fn stack_entry_limit_accepts_below_and_at_but_rejects_above() {
    assert!(validate_entry_size("123", 4).is_ok());
    assert!(validate_entry_size("1234", 4).is_ok());
    assert!(validate_entry_size("12345", 4).is_err());
}

#[test]
fn clipboard_write_limit_accepts_below_and_at_but_rejects_above() {
    assert!(validate_clipboard_size("123", 4).is_ok());
    assert!(validate_clipboard_size("1234", 4).is_ok());
    assert!(validate_clipboard_size("12345", 4).is_err());
}

#[test]
fn sizes_are_counted_in_bytes() {
    assert_eq!(
        validate_entry_size("é🙂", 5),
        Err("stack entry is too large (6 bytes; limit is 5)".to_string())
    );
    assert_eq!(
        validate_clipboard_size("é🙂", 5),
        Err("stacked value is too large for the clipboard (6 bytes; limit is 5)".to_string())
    );
    assert_eq!(validate_entry_size("é🙂", 6), Ok(()));
}

#[test]
fn copy_entry_writes_each_destination_without_changing_stack() {
    let mut ids = EntryIds::new();
    let stack = stack_of(&mut ids, &["oldest", "selected", "newest"]);
    let selected_id = stack[1].id;
    for (destination, expected_clipboard) in [
        (StackCopyDestination::Primary, CopyClipboardType::Primary),
        (StackCopyDestination::Regular, CopyClipboardType::Regular),
    ] {
        let mut writes = Vec::new();
        copy(
            StackCopyRequest {
                id: selected_id,
                destination,
            },
            &stack,
            1024,
            |clipboard, value| {
                writes.push((clipboard, value));
                Ok(())
            },
        )
        .unwrap();
        assert_eq!(writes, [(expected_clipboard, "selected".into())]);
        assert_eq!(values(&stack), ["oldest", "selected", "newest"]);
    }
}

#[test]
fn copy_entry_rejects_stale_and_oversized_targets() {
    let mut ids = EntryIds::new();
    let stack = stack_of(&mut ids, &["value"]);
    let mut writes = Vec::new();
    for (id, limit, expected) in [
        (u64::MAX, 1024, "no longer exists"),
        (stack[0].id, 4, "too large"),
    ] {
        let result = copy(
            StackCopyRequest {
                id,
                destination: StackCopyDestination::Primary,
            },
            &stack,
            limit,
            |clipboard, value| {
                writes.push((clipboard, value));
                Ok(())
            },
        );
        assert!(result.unwrap_err().contains(expected));
    }
    assert!(writes.is_empty());
    assert_eq!(values(&stack), ["value"]);
}

#[test]
fn copying_an_entry_is_announced() {
    let mut ids = EntryIds::new();
    let stack = stack_of(&mut ids, &["value"]);
    let request = StackCopyRequest {
        id: stack[0].id,
        destination: StackCopyDestination::Regular,
    };
    let Progress::Ask(task, asked) = copy_entry(request, &stack, 1024, true) else {
        panic!("a copy must write");
    };
    assert_eq!(asked, Request::Write(CopyClipboardType::Regular, "value".into()));
    let Progress::Ask(task, asked) = task.resume(Reply::Written(Ok(()))) else {
        panic!("a copy must be announced");
    };
    assert_eq!(asked, Request::Notify(Notice::StackCopy(StackCopyDestination::Regular)));
    assert_eq!(task.resume(Reply::Notified), Progress::Finished(Ok(())));
    assert_eq!(
        copy_entry(StackCopyRequest { id: 9, ..request }, &stack, 1024, true),
        Progress::Finished(Err("stacked entry no longer exists".into()))
    );
}

#[test]
fn failed_pop_to_both_keeps_entry() {
    let mut stack = stack_of(&mut EntryIds::new(), &["value"]);
    let result = pop_both(
        &mut stack,
        1024,
        ClipboardRead::Text("old".into()),
        |clipboard, _| {
            if clipboard == CopyClipboardType::Regular {
                Err("boom".into())
            } else {
                Ok(())
            }
        },
    );
    assert!(result.is_err());
    assert_eq!(values(&stack), ["value"]);
}

#[test]
fn pop_to_both_supports_an_empty_primary() {
    let mut stack = stack_of(&mut EntryIds::new(), &["value"]);
    let mut writes = Vec::new();
    pop_both(&mut stack, 1024, ClipboardRead::Empty, |clipboard, value| {
        writes.push((clipboard, value));
        Ok(())
    })
    .unwrap();
    assert_eq!(
        writes,
        [
            (CopyClipboardType::Primary, Some("value".into())),
            (CopyClipboardType::Regular, Some("value".into())),
        ]
    );
    assert!(stack.is_empty());
}

#[test]
fn failed_pop_to_both_restores_an_empty_primary() {
    let mut stack = stack_of(&mut EntryIds::new(), &["value"]);
    let mut writes = Vec::new();
    let result = pop_both(&mut stack, 1024, ClipboardRead::Empty, |clipboard, value| {
        writes.push((clipboard, value));
        if writes.len() == 2 {
            Err("boom".into())
        } else {
            Ok(())
        }
    });
    assert!(result.unwrap_err().contains("primary clipboard restored"));
    assert_eq!(writes[2], (CopyClipboardType::Primary, None));
    assert_eq!(values(&stack), ["value"]);
}

#[test]
fn pop_to_both_does_not_overwrite_non_text_primary_content() {
    let mut stack = stack_of(&mut EntryIds::new(), &["value"]);
    let mut writes = Vec::new();
    let result = pop_both(&mut stack, 1024, ClipboardRead::NonText, |clipboard, value| {
        writes.push((clipboard, value));
        Ok(())
    });
    assert!(result.unwrap_err().contains("non-text"));
    assert!(writes.is_empty());
    assert_eq!(values(&stack), ["value"]);
}

#[test]
fn each_refused_pop_to_both_says_why() {
    let pop = |primary: ClipboardRead| {
        let mut stack = stack_of(&mut EntryIds::new(), &["value"]);
        let error = pop_both(&mut stack, 1024, primary, |_, _| Ok(())).unwrap_err();
        assert_eq!(values(&stack), ["value"]);
        error
    };
    assert_eq!(
        pop(ClipboardRead::NonText),
        "cannot safely pop to both when the primary clipboard is non-text"
    );
    assert_eq!(
        pop(ClipboardRead::Unsupported),
        "cannot safely pop to both when the primary clipboard is unsupported"
    );
    assert_eq!(
        pop(ClipboardRead::Oversized { limit: 10 }),
        "cannot safely pop to both when the primary clipboard exceeds the configured 10-byte limit"
    );
    assert_eq!(
        pop(ClipboardRead::Error("gone".into())),
        "could not read primary clipboard: gone"
    );
    assert_eq!(
        pop_both(&mut Vec::new(), 1024, ClipboardRead::Empty, |_, _| Ok(())),
        Err("clipboard stack is empty".to_string())
    );
    let mut stack = stack_of(&mut EntryIds::new(), &["value"]);
    assert_eq!(
        pop_both(&mut stack, 4, ClipboardRead::Empty, |_, _| Ok(())),
        Err("stacked value is too large for the clipboard (5 bytes; limit is 4)".to_string())
    );
}

#[test]
fn each_refused_push_says_why_and_keeps_the_stack() {
    for (source, message) in [
        (ClipboardRead::Empty, "source clipboard is empty"),
        (text(""), "source clipboard is empty"),
        (ClipboardRead::NonText, "source clipboard does not contain text"),
        (ClipboardRead::Unsupported, "source clipboard is unsupported"),
        (
            ClipboardRead::Oversized { limit: 10 },
            "source clipboard exceeds the configured 10-byte limit",
        ),
        (
            ClipboardRead::Error("gone".into()),
            "could not read source clipboard: gone",
        ),
        (text("1234567"), "stack entry is too large (7 bytes; limit is 6)"),
    ] {
        let mut applet = Applet::new(source.clone(), text("r"), &["one"]);
        assert_eq!(
            applet.perform(StackAction::PushPrimary, true),
            Err(message.to_string())
        );
        assert_eq!(values(&applet.stack), ["one"]);
        assert_eq!(applet.primary, source);
        assert!(applet.notices.is_empty());
    }
}

#[test]
fn the_last_text_pushed_is_the_first_popped() {
    let mut applet = Applet::new(text("first"), text("second"), &[]);
    applet.perform(StackAction::PushPrimary, false).unwrap();
    applet.perform(StackAction::PushRegular, false).unwrap();
    assert_eq!(values(&applet.stack), ["first", "second"]);
    applet.perform(StackAction::PopPrimary, false).unwrap();
    assert_eq!((&applet.primary, &applet.regular), (&text("second"), &text("second")));
    assert_eq!(values(&applet.stack), ["first"]);
    applet.perform(StackAction::PopBoth, false).unwrap();
    assert_eq!((&applet.primary, &applet.regular), (&text("first"), &text("first")));
    assert!(applet.stack.is_empty());
    assert_eq!(
        applet.perform(StackAction::PopRegular, false),
        Err("clipboard stack is empty".to_string())
    );
}

#[test]
fn the_stack_never_outgrows_its_capacity() {
    let mut applet = Applet::new(text("p"), text("r"), &[]);
    for _ in 0..5 {
        applet.perform(StackAction::PushPrimary, false).unwrap();
        applet.perform(StackAction::PushRegular, false).unwrap();
        assert!(applet.stack.len() <= 2);
    }
    assert_eq!(values(&applet.stack), ["p", "r"]);
    assert_eq!((applet.stack[0].id, applet.stack[1].id), (9, 10));
}

#[test]
fn an_entry_leaves_only_after_its_write_succeeded() {
    for action in [StackAction::PopPrimary, StackAction::PopRegular] {
        let mut applet = Applet::new(text("p"), text("r"), &["one"]);
        applet.failures = vec![Some("boom")];
        assert_eq!(applet.perform(action, true), Err("boom".to_string()));
        assert_eq!(values(&applet.stack), ["one"]);
        assert_eq!((&applet.primary, &applet.regular), (&text("p"), &text("r")));
        assert!(applet.notices.is_empty());
        applet.perform(action, true).unwrap();
        assert!(applet.stack.is_empty());
        assert_eq!(applet.notices, [Notice::Stack(action)]);
    }
}

#[test]
fn a_text_too_large_for_a_selection_stays_stacked() {
    let mut applet = Applet::new(text("p"), text("r"), &["123456789"]);
    assert_eq!(
        applet.perform(StackAction::PopPrimary, true),
        Err("stacked value is too large for the clipboard (9 bytes; limit is 8)".to_string())
    );
    assert_eq!(values(&applet.stack), ["123456789"]);
}

#[test]
fn stack_success_is_announced_once_if_notifications_are_enabled() {
    for action in [
        StackAction::PushPrimary,
        StackAction::PushRegular,
        StackAction::PopPrimary,
        StackAction::PopRegular,
        StackAction::PopBoth,
    ] {
        let mut applet = Applet::new(text("p"), text("r"), &["one"]);
        applet.perform(action, true).unwrap();
        assert_eq!(applet.notices, [Notice::Stack(action)]);
        let mut applet = Applet::new(text("p"), text("r"), &["one"]);
        applet.perform(action, false).unwrap();
        assert!(applet.notices.is_empty());
    }
}

#[test]
fn stack_edit_uses_stable_identity_with_duplicate_values() {
    let mut ids = EntryIds::new();
    let first = StackEntry::new(&mut ids, "duplicate".into());
    let target = StackEntry::new(&mut ids, "duplicate".into());
    let last = StackEntry::new(&mut ids, "duplicate".into());
    let target_id = target.id;
    let mut stack = vec![first, target, last];

    stack.insert(0, StackEntry::new(&mut ids, "pushed".into()));
    replace_stack_entry_if_unchanged(&mut stack, target_id, "duplicate", "edited".into()).unwrap();
    assert_eq!(
        stack
            .iter()
            .filter(|entry| entry.value == "edited")
            .map(|entry| entry.id)
            .collect::<Vec<_>>(),
        [target_id]
    );

    let removed = stack.remove(
        stack
            .iter()
            .position(|entry| entry.id == target_id)
            .unwrap(),
    );
    assert!(
        replace_stack_entry_if_unchanged(&mut stack, removed.id, "edited", "stale".into()).is_err()
    );
    assert!(stack.iter().all(|entry| entry.value != "stale"));
}

#[test]
fn stack_edit_rejects_targets_removed_by_pop_or_eviction() {
    for remove_target in [true, false] {
        let mut ids = EntryIds::new();
        let target = StackEntry::new(&mut ids, "target".into());
        let target_id = target.id;
        let mut stack = if remove_target {
            vec![StackEntry::new(&mut ids, "kept".into()), target]
        } else {
            vec![target, StackEntry::new(&mut ids, "kept".into())]
        };
        if remove_target {
            stack.pop();
        } else {
            stack.remove(0);
        }
        assert!(
            replace_stack_entry_if_unchanged(&mut stack, target_id, "target", "edited".into())
                .is_err()
        );
        assert_eq!(stack[0].value, "kept");
    }
}

#[test]
fn each_refused_replacement_says_why() {
    let mut stack = stack_of(&mut EntryIds::new(), &["value"]);
    assert_eq!(
        replace_stack_entry_if_unchanged(&mut stack, 7, "value", "edited".into()),
        Err("stacked entry no longer exists".to_string())
    );
    assert_eq!(
        replace_stack_entry_if_unchanged(&mut stack, 1, "other", "edited".into()),
        Err("stacked entry changed while it was being edited".to_string())
    );
    assert_eq!(values(&stack), ["value"]);
}

#[test]
fn unreadable_selections_are_never_stacked() {
    for unreadable in [ClipboardRead::NonText, ClipboardRead::Oversized { limit: 8 }] {
        let mut applet = Applet::new(text("p"), unreadable.clone(), &["one"]);
        assert!(applet.perform(StackAction::PushRegular, true).is_err());
        assert_eq!(values(&applet.stack), ["one"]);
        assert_eq!((&applet.primary, &applet.regular), (&text("p"), &unreadable));
    }
}
