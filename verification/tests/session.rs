use clipboard_applet::clipboard::{ActionRequest, ActionSource, ClearTarget, ClipboardAction, ClipboardRead};
use clipboard_applet::clipboard_monitor::{
    run, stopped_message, usable_seats, DeviceEvent, Global, ManagerKind, MonitorEvent, MonitorRun,
    MonitorState, RunProgress, RunReply, RunRequest,
};
use clipboard_applet::config::{Config, UpdateMethod};
use clipboard_applet::notification::{ClipboardChange, Notice, NotificationMode};
use clipboard_applet::session::{report_read_issue, Command, Session};
use clipboard_applet::stack::{StackAction, StackEntry};
use clipboard_applet::tray::{AppEvent, ClipboardTray, EditTarget};

fn text(value: &str) -> ClipboardRead {
    ClipboardRead::Text(value.into())
}

#[test]
fn a_session_starts_as_configured() {
    let config = Config {
        notifications: true,
        update_method: UpdateMethod::Polling,
        ..Config::default()
    };
    let session = Session::new(&config, None);
    assert!(session.notifications_enabled && !session.notify_on_change && session.polling);
    assert!(session.stack.is_empty() && session.editor_target.is_none());
    let session = Session::new(&Config::default(), Some(NotificationMode::All));
    assert!(session.notifications_enabled && session.notify_on_change && !session.polling);
}

#[test]
fn each_event_has_its_command() {
    let mut session = Session::new(&Config::default(), None);
    let request = ActionRequest {
        action: ClipboardAction::Reset,
        source: ActionSource::Menu,
    };
    for (event, command) in [
        (AppEvent::Exit, Command::Exit),
        (AppEvent::Action(request), Command::Perform(request)),
        (
            AppEvent::Stack(StackAction::PopBoth),
            Command::PerformStack(StackAction::PopBoth),
        ),
        (
            AppEvent::Clear(ClearTarget::Regular),
            Command::PerformClear(ClearTarget::Regular),
        ),
        (AppEvent::CancelEdit, Command::Nothing),
    ] {
        assert_eq!(session.handle_event(event), command);
    }
    assert_eq!(session, Session::new(&Config::default(), None));
}

#[test]
fn toggling_notifications_twice_changes_nothing() {
    let mut session = Session::new(&Config::default(), None);
    assert_eq!(session.handle_event(AppEvent::ToggleNotifications), Command::Nothing);
    assert!(session.notifications_enabled);
    session.handle_event(AppEvent::ToggleNotifications);
    assert_eq!(session, Session::new(&Config::default(), None));
}

#[test]
fn one_editor_is_open_at_a_time() {
    let mut session = Session::new(&Config::default(), None);
    session.stack = vec![
        StackEntry {
            id: 4,
            value: "four".into(),
        },
        StackEntry {
            id: 5,
            value: "five".into(),
        },
    ];
    assert_eq!(
        session.handle_event(AppEvent::Edit(EditTarget::Stack(5))),
        Command::StartEditor {
            target: EditTarget::Stack(5),
            stack_value: Some("five".into()),
        }
    );
    assert_eq!(
        session.handle_event(AppEvent::Edit(EditTarget::Primary)),
        Command::RefuseEdit
    );
    assert_eq!(session.editor_target, Some(EditTarget::Stack(5)));
    session.editor_ended();
    assert_eq!(
        session.handle_event(AppEvent::Edit(EditTarget::Stack(6))),
        Command::StartEditor {
            target: EditTarget::Stack(6),
            stack_value: None,
        }
    );
    assert_eq!(session.handle_event(AppEvent::CancelEdit), Command::StopEditor);
    assert_eq!(
        session.handle_event(AppEvent::Edit(EditTarget::Primary)),
        Command::StartEditor {
            target: EditTarget::Primary,
            stack_value: None,
        }
    );
}

#[test]
fn a_failed_monitor_is_replaced_by_polling() {
    let mut session = Session::new(&Config::default(), None);
    assert!(session.monitor_event(MonitorEvent::ClipboardChanged));
    assert!(!session.polling);
    assert!(!session.monitor_event(MonitorEvent::Failed));
    assert!(session.polling);
    assert!(session.monitor_event(MonitorEvent::ClipboardChanged));
    assert!(session.polling);
}

#[test]
fn changes_are_reported_if_they_are_looked_for() {
    let mut session = Session::new(&Config::default(), Some(NotificationMode::All));
    assert_eq!(session.observe(&text("p"), &text("r"), true), None);
    assert_eq!(
        session.observe(&text("q"), &text("r"), true),
        Some(Notice::Change(ClipboardChange::Primary))
    );
    assert_eq!(session.observe(&text("q"), &text("s"), false), None);
    assert_eq!(session.observe(&text("q"), &text("s"), true), None);
    assert_eq!(session.observe(&ClipboardRead::NonText, &text("s"), true), None);
    assert_eq!(session.observe(&text("q"), &text("s"), true), None);
    session.handle_event(AppEvent::ToggleNotifications);
    assert_eq!(session.observe(&text("x"), &text("y"), true), None);
    assert_eq!(
        session.previous,
        (Some(Some("x".into())), Some(Some("y".into())))
    );
}

#[test]
fn the_tray_follows_the_session() {
    let config = Config::default();
    let mut session = Session::new(&config, None);
    session.stack = vec![StackEntry {
        id: 4,
        value: "four".into(),
    }];
    session.editor_target = Some(EditTarget::Regular);
    session.notifications_enabled = true;
    let mut tray = ClipboardTray::new(&config, false, true, 99);
    session.refresh(&mut tray, text("p"), ClipboardRead::NonText);
    assert_eq!(tray.tooltip, "primary: p\nregular: (non-text)");
    assert_eq!((&tray.primary, &tray.regular), (&text("p"), &ClipboardRead::NonText));
    assert_eq!(tray.stack, session.stack);
    assert_eq!(tray.editor_target, Some(EditTarget::Regular));
    assert!(tray.notifications_enabled && tray.stack_enabled);
    assert_eq!(tray.max_clipboard_bytes, 99);
}

#[test]
fn only_failed_and_oversized_reads_are_reported() {
    assert_eq!(
        report_read_issue("primary", &ClipboardRead::Oversized { limit: 10 }),
        Some("could not read primary clipboard: content exceeds 10 bytes".to_string())
    );
    assert_eq!(
        report_read_issue("regular", &ClipboardRead::Error("gone".into())),
        Some("could not read regular clipboard: gone".to_string())
    );
    for read in [
        text("t"),
        ClipboardRead::Empty,
        ClipboardRead::NonText,
        ClipboardRead::Unsupported,
    ] {
        assert_eq!(report_read_issue("primary", &read), None);
    }
}

fn global(name: u32, interface: &str, version: u32) -> Global {
    Global {
        name,
        interface: interface.into(),
        version,
    }
}

#[test]
fn seats_of_version_two_are_watched() {
    let globals = vec![
        global(1, "wl_seat", 1),
        global(2, "wl_seat", 2),
        global(3, "wl_output", 4),
        global(4, "wl_seat", 7),
    ];
    assert_eq!(usable_seats(&globals, "wl_seat"), Ok(vec![2, 4]));
    assert_eq!(
        usable_seats(&vec![global(1, "wl_seat", 1)], "wl_seat"),
        Err("Wayland compositor has no seats".to_string())
    );
}

#[test]
fn selections_are_reported_until_a_device_is_stopped() {
    let mut state = MonitorState::new();
    assert_eq!(state.event(DeviceEvent::Other), None);
    assert_eq!(
        state.event(DeviceEvent::Selection),
        Some(MonitorEvent::ClipboardChanged)
    );
    assert_eq!(
        state.event(DeviceEvent::PrimarySelection),
        Some(MonitorEvent::ClipboardChanged)
    );
    assert_eq!(state.after_dispatch(), Ok(()));
    assert_eq!(state.event(DeviceEvent::Finished), None);
    assert_eq!(state.event(DeviceEvent::Other), None);
    assert_eq!(
        state.after_dispatch(),
        Err("data-control device was stopped by the compositor".to_string())
    );
}

fn ask(progress: RunProgress) -> (MonitorRun, RunRequest) {
    match progress {
        RunProgress::Ask(run, request) => (run, request),
        RunProgress::Stopped(error) => panic!("stopped: {error}"),
    }
}

#[test]
fn the_monitor_connects_binds_and_watches() {
    let state = MonitorState::new();
    let (connecting, request) = ask(run());
    assert_eq!(request, RunRequest::Connect);
    let (reading, request) = ask(connecting.resume(RunReply::Done, &state, "wl_seat"));
    assert_eq!(request, RunRequest::ReadGlobals);
    let (binding, request) = ask(reading.resume(RunReply::Done, &state, "wl_seat"));
    assert_eq!(
        request,
        RunRequest::Bind {
            kind: ManagerKind::Ext,
            lowest: 1,
            highest: 1
        }
    );
    let (binding, request) = ask(binding.resume(RunReply::Failed("e".into()), &state, "wl_seat"));
    assert_eq!(
        request,
        RunRequest::Bind {
            kind: ManagerKind::Wlr,
            lowest: 2,
            highest: 2
        }
    );
    let (listing, request) = ask(binding.resume(RunReply::Done, &state, "wl_seat"));
    assert_eq!(request, RunRequest::ListGlobals);
    assert!(!listing.accepts(&RunReply::Done));
    let globals = RunReply::Globals(vec![global(3, "wl_seat", 5)]);
    assert!(listing.accepts(&globals));
    let (starting, request) = ask(listing.resume(globals, &state, "wl_seat"));
    assert_eq!(request, RunRequest::Watch { seats: vec![3] });
    let (watching, request) = ask(starting.resume(RunReply::Done, &state, "wl_seat"));
    assert_eq!(request, RunRequest::Dispatch);
    let (watching, request) = ask(watching.resume(RunReply::Done, &state, "wl_seat"));
    assert_eq!(request, RunRequest::Dispatch);
    assert_eq!(
        watching.resume(RunReply::Done, &MonitorState { failed: true }, "wl_seat"),
        RunProgress::Stopped("data-control device was stopped by the compositor".into())
    );
}

#[test]
fn each_failed_step_of_the_monitor_says_why() {
    let state = MonitorState::new();
    let failed = || RunReply::Failed("e".into());
    for (run, reason) in [
        (MonitorRun::Connecting, "could not connect to Wayland: e"),
        (MonitorRun::ReadingGlobals, "could not read Wayland globals: e"),
        (
            MonitorRun::Binding(ManagerKind::Wlr),
            "compositor does not support ext-data-control or wlr-data-control version 2",
        ),
        (
            MonitorRun::Initializing,
            "could not initialize clipboard event monitor: e",
        ),
        (MonitorRun::Watching, "Wayland communication failed: e"),
    ] {
        assert_eq!(
            run.resume(failed(), &state, "wl_seat"),
            RunProgress::Stopped(reason.into())
        );
    }
    assert_eq!(
        MonitorRun::ListingGlobals.resume(RunReply::Globals(vec![]), &state, "wl_seat"),
        RunProgress::Stopped("Wayland compositor has no seats".into())
    );
    assert_eq!(
        stopped_message("e"),
        "clipboard event monitor stopped: e; falling back to polling"
    );
}
