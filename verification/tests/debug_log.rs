use clipboard_applet::action::{perform_action, perform_clear, ActionState};
use clipboard_applet::clipboard::{
    ClearTarget, ClipboardAction, ClipboardRead, ClipboardType, CopyClipboardType, ReadLimits,
};
use clipboard_applet::debug_log::{
    copy_report, edit_completed_report, edit_started_report, push_report, read_report,
    switch_report, write_report,
};
use clipboard_applet::exchange::{Progress, Reply, Request, Task};
use clipboard_applet::stack::{
    copy_entry, perform, EntryIds, StackAction, StackCopyDestination, StackCopyRequest, StackEntry,
    StackLimits,
};

const LIMITS: StackLimits = StackLimits {
    capacity: 4,
    clipboard: ReadLimits {
        max_bytes: 100,
        timeout: 1,
    },
    max_entry_bytes: 100,
};

fn text(value: &str) -> ClipboardRead {
    ClipboardRead::Text(value.into())
}

fn answer(
    request: Request,
    primary: &ClipboardRead,
    regular: &ClipboardRead,
    failures: &mut Vec<Option<&str>>,
) -> Reply {
    match request {
        Request::Read(ClipboardType::Primary) => Reply::Read(primary.clone()),
        Request::Read(ClipboardType::Regular) => Reply::Read(regular.clone()),
        Request::Notify(_) => Reply::Notified,
        _ if failures.is_empty() => Reply::Written(Ok(())),
        _ => Reply::Written(match failures.remove(0) {
            Some(error) => Err(error.into()),
            None => Ok(()),
        }),
    }
}

fn log_of_task(
    mut progress: Progress<Task<ActionState>>,
    primary: &ClipboardRead,
    regular: &ClipboardRead,
    failures: &[Option<&str>],
) -> Vec<String> {
    let mut failures = failures.to_vec();
    let mut lines = Vec::new();
    while let Progress::Ask(task, request) = progress {
        lines.extend(task.log_request(&request));
        let reply = answer(request, primary, regular, &mut failures);
        lines.extend(task.log_reply(&reply));
        progress = task.resume(reply);
    }
    lines
}

fn log_of_stack_action(
    action: StackAction,
    stacked: &str,
    primary: &ClipboardRead,
    regular: &ClipboardRead,
    failures: &[Option<&str>],
) -> Vec<String> {
    let mut failures = failures.to_vec();
    let mut ids = EntryIds::new();
    let mut stack = vec![StackEntry::new(&mut ids, stacked.into())];
    let mut lines = Vec::new();
    let mut progress = perform(action, &stack, LIMITS, true);
    while let Progress::Ask(task, request) = progress {
        lines.extend(task.log_request(&request));
        let reply = answer(request, primary, regular, &mut failures);
        lines.extend(task.log_reply(&reply));
        progress = task.resume(&mut stack, &mut ids, reply);
    }
    lines
}

#[test]
fn a_read_is_logged_by_its_state_and_length() {
    assert_eq!(read_report(&text("é🙂")), "state=Text, length=2 chars");
    assert_eq!(read_report(&ClipboardRead::Empty), "state=Empty, length=0 chars");
    assert_eq!(read_report(&text("one")), read_report(&text("two")));
    assert_eq!(
        read_report(&ClipboardRead::Error("secret".into())),
        "state=Error, length=0 chars"
    );
    assert_eq!(
        copy_report(ClipboardType::Primary, &text("abc")),
        "[debug] COPY_PRIMARY read: primary=state=Text, length=3 chars"
    );
    assert_eq!(
        copy_report(ClipboardType::Regular, &ClipboardRead::NonText),
        "[debug] COPY_REGULAR read: regular=state=NonText, length=0 chars"
    );
    assert_eq!(
        push_report(ClipboardType::Regular, &text("abc")),
        "[debug] stack push: source=Regular, state=Text, length=3 chars"
    );
    assert_eq!(
        switch_report(&text("abc"), &ClipboardRead::Empty),
        "[debug] SWITCH read: primary=state=Text, length=3 chars, regular=state=Empty, length=0 chars"
    );
}

#[test]
fn a_write_is_logged_by_its_length() {
    assert_eq!(
        write_report(CopyClipboardType::Both, "é🙂"),
        "[debug] writing destination: Both, length=2 chars"
    );
    assert_eq!(
        write_report(CopyClipboardType::Primary, "one"),
        write_report(CopyClipboardType::Primary, "two")
    );
}

#[test]
fn an_edit_is_logged_by_its_lengths() {
    assert_eq!(
        edit_started_report("é🙂"),
        "[debug] editor started: original_length=2 chars"
    );
    assert_eq!(
        edit_completed_report("abc"),
        "[debug] editor completed: edited_length=3 chars"
    );
}

#[test]
fn actions_are_logged_step_by_step() {
    let (primary, regular) = (text("abc"), text("wxyz"));
    let log = |action: ClipboardAction, failures: &[Option<&str>]| {
        log_of_task(perform_action(action, true), &primary, &regular, failures)
    };
    assert_eq!(
        log(ClipboardAction::CopyPrimary, &[]),
        [
            "[debug] COPY_PRIMARY read: primary=state=Text, length=3 chars",
            "[debug] writing destination: Regular, length=3 chars",
        ]
    );
    assert_eq!(
        log(ClipboardAction::Reset, &[]),
        ["[debug] RESET clearing primary and regular clipboards"]
    );
    assert_eq!(
        log(ClipboardAction::Switch, &[Some("boom")])[2..],
        ["[debug] multi-write failed: step=Primary, error=boom"]
    );
    assert_eq!(
        log(ClipboardAction::Switch, &[None, Some("boom"), None]),
        [
            "[debug] SWITCH read: primary=state=Text, length=3 chars, regular=state=Text, length=4 chars",
            "[debug] writing destination: Primary, length=4 chars",
            "[debug] writing destination: Regular, length=3 chars",
            "[debug] multi-write failed: step=Regular, error=boom",
            "[debug] writing destination: Primary, length=3 chars",
            "[debug] multi-write rollback completed: destination=Primary",
        ]
    );
    assert_eq!(
        log(ClipboardAction::Switch, &[None, Some("one"), Some("two")])[5..],
        ["[debug] multi-write rollback failed: destination=Primary, error=two"]
    );
    assert_eq!(
        log_of_task(
            perform_action(ClipboardAction::Switch, false),
            &ClipboardRead::Empty,
            &regular,
            &[]
        )[2..],
        ["[debug] clearing switch destination: Regular"]
    );
    assert_eq!(
        log_of_task(perform_clear(ClearTarget::Primary, false), &primary, &regular, &[]),
        ["[debug] clearing clipboard from menu: Primary"]
    );
}

#[test]
fn stack_actions_are_logged_step_by_step() {
    let (primary, regular) = (text("abc"), text("wxyz"));
    let log = |action: StackAction| log_of_stack_action(action, "stacked", &primary, &regular, &[]);
    assert_eq!(
        log(StackAction::PushPrimary),
        ["[debug] stack push: source=Primary, state=Text, length=3 chars"]
    );
    assert_eq!(
        log(StackAction::PushRegular),
        ["[debug] stack push: source=Regular, state=Text, length=4 chars"]
    );
    assert_eq!(
        log(StackAction::PopRegular),
        [
            "[debug] stack pop: destination=Regular, length=7 chars",
            "[debug] writing destination: Regular, length=7 chars",
        ]
    );
    assert_eq!(
        log(StackAction::PopBoth),
        [
            "[debug] stack pop: destination=Primary+Regular, length=7 chars, original_primary=3 chars",
            "[debug] writing destination: Primary, length=7 chars",
            "[debug] writing destination: Regular, length=7 chars",
        ]
    );
    assert!(log_of_stack_action(
        StackAction::PopBoth,
        "stacked",
        &ClipboardRead::NonText,
        &regular,
        &[]
    )
    .is_empty());
    assert_eq!(
        log_of_stack_action(
            StackAction::PopBoth,
            "stacked",
            &ClipboardRead::Empty,
            &regular,
            &[None, Some("boom")]
        ),
        [
            "[debug] stack pop: destination=Primary+Regular, length=7 chars, original_primary=0 chars",
            "[debug] writing destination: Primary, length=7 chars",
            "[debug] writing destination: Regular, length=7 chars",
            "[debug] multi-write failed: step=Regular, error=boom",
            "[debug] multi-write rollback completed: destination=Primary",
        ]
    );
}

#[test]
fn copying_a_stacked_entry_is_logged() {
    let stack = vec![StackEntry::new(&mut EntryIds::new(), "stacked".into())];
    let request = StackCopyRequest {
        id: 1,
        destination: StackCopyDestination::Primary,
    };
    assert_eq!(
        log_of_task(
            copy_entry(request, &stack, 100, false),
            &ClipboardRead::Empty,
            &ClipboardRead::Empty,
            &[]
        ),
        [
            "[debug] stack copy: destination=Primary, length=7 chars",
            "[debug] writing destination: Primary, length=7 chars",
        ]
    );
}

#[test]
fn texts_are_not_logged() {
    let blank = |value: &str| " ".repeat(value.chars().count());
    let (primary, regular, stacked) = ("secret one", "secret two!", "secret three");
    for action in [
        ClipboardAction::CopyPrimary,
        ClipboardAction::CopyRegular,
        ClipboardAction::Switch,
        ClipboardAction::Reset,
    ] {
        for failures in [vec![], vec![None, Some("boom"), None]] {
            let log = |primary: &str, regular: &str| {
                log_of_task(
                    perform_action(action, true),
                    &text(primary),
                    &text(regular),
                    &failures,
                )
            };
            let lines = log(primary, regular);
            assert_eq!(lines, log(&blank(primary), &blank(regular)));
            assert!(lines.iter().all(|line| !line.contains("secret")));
        }
    }
    for action in [
        StackAction::PushPrimary,
        StackAction::PushRegular,
        StackAction::PopPrimary,
        StackAction::PopRegular,
        StackAction::PopBoth,
    ] {
        let log = |primary: &str, regular: &str, stacked: &str| {
            log_of_stack_action(action, stacked, &text(primary), &text(regular), &[])
        };
        let lines = log(primary, regular, stacked);
        assert_eq!(lines, log(&blank(primary), &blank(regular), &blank(stacked)));
        assert!(lines.iter().all(|line| !line.contains("secret")));
    }
}
