use clipboard_applet::clipboard::{ClearTarget, ClipboardAction};
use clipboard_applet::config::Config;
use clipboard_applet::notification::{
    clipboard_change, send_if_enabled, settings, ClipboardChange, Notice, NotificationMode,
};
use clipboard_applet::stack::{StackAction, StackCopyDestination};

#[test]
fn detects_each_clipboard_change() {
    let mut previous = (Some(None), Some(None));
    assert_eq!(
        clipboard_change(&mut previous, &(Some(Some("p".into())), Some(None))),
        Some(ClipboardChange::Primary)
    );
    previous = (Some(None), Some(None));
    assert_eq!(
        clipboard_change(&mut previous, &(Some(None), Some(Some("r".into())))),
        Some(ClipboardChange::Regular)
    );
    previous = (Some(None), Some(None));
    assert_eq!(
        clipboard_change(
            &mut previous,
            &(Some(Some("p".into())), Some(Some("r".into())))
        ),
        Some(ClipboardChange::Both)
    );
    assert_eq!(
        clipboard_change(
            &mut previous,
            &(Some(Some("p".into())), Some(Some("r".into())))
        ),
        None
    );
}

#[test]
fn unavailable_selection_does_not_hide_healthy_changes_or_advance_history() {
    let mut previous = (
        Some(Some("old primary".into())),
        Some(Some("old regular".into())),
    );
    assert_eq!(
        clipboard_change(&mut previous, &(None, Some(Some("new regular".into())))),
        Some(ClipboardChange::Regular)
    );
    assert_eq!(previous.0, Some(Some("old primary".into())));
    assert_eq!(
        clipboard_change(&mut previous, &(Some(Some("old primary".into())), None)),
        None
    );
}

#[test]
fn command_line_mode_overrides_configuration() {
    let config = Config {
        notifications: true,
        notify_on_change: true,
        ..Config::default()
    };
    assert_eq!(settings(&config, None), (true, true));
    assert_eq!(
        settings(&config, Some(NotificationMode::Disabled)),
        (false, false)
    );
    assert_eq!(
        settings(&config, Some(NotificationMode::Enabled)),
        (true, false)
    );
    assert_eq!(settings(&config, Some(NotificationMode::All)), (true, true));
}

#[test]
fn the_first_observation_is_no_change() {
    let mut previous = (None, None);
    assert_eq!(
        clipboard_change(&mut previous, &(Some(Some("p".into())), Some(None))),
        None
    );
    assert_eq!(previous, (Some(Some("p".into())), Some(None)));
    assert_eq!(
        clipboard_change(&mut previous, &(Some(None), Some(None))),
        Some(ClipboardChange::Primary)
    );
}

#[test]
fn notices_are_due_only_if_enabled() {
    assert_eq!(send_if_enabled(Notice::Edit, true), Some(Notice::Edit));
    assert_eq!(send_if_enabled(Notice::Edit, false), None);
}

#[test]
fn every_notice_has_its_own_words() {
    let notices = [
        (Notice::Action(ClipboardAction::CopyRegular), "Regular clipboard copied to primary", "clipboard"),
        (Notice::Action(ClipboardAction::CopyPrimary), "Primary clipboard copied to regular", "clipboard"),
        (Notice::Action(ClipboardAction::Reset), "Primary and regular clipboards cleared", "clipboard"),
        (Notice::Action(ClipboardAction::Switch), "Primary and regular clipboards switched", "clipboard"),
        (Notice::Clear(ClearTarget::Primary), "Primary clipboard cleared", "clipboard clear"),
        (Notice::Clear(ClearTarget::Regular), "Regular clipboard cleared", "clipboard clear"),
        (Notice::Stack(StackAction::PushPrimary), "Primary clipboard stacked", "clipboard stack"),
        (Notice::Stack(StackAction::PushRegular), "Regular clipboard stacked", "clipboard stack"),
        (Notice::Stack(StackAction::PopPrimary), "Stacked entry popped to primary", "clipboard stack"),
        (Notice::Stack(StackAction::PopRegular), "Stacked entry popped to regular", "clipboard stack"),
        (Notice::Stack(StackAction::PopBoth), "Stacked entry popped to primary and regular", "clipboard stack"),
        (Notice::StackCopy(StackCopyDestination::Primary), "Stacked entry copied to primary", "clipboard stack"),
        (Notice::StackCopy(StackCopyDestination::Regular), "Stacked entry copied to regular", "clipboard stack"),
        (Notice::Edit, "Clipboard value edited", "clipboard edit"),
        (Notice::Change(ClipboardChange::Primary), "Primary clipboard changed", "clipboard change"),
        (Notice::Change(ClipboardChange::Regular), "Regular clipboard changed", "clipboard change"),
        (Notice::Change(ClipboardChange::Both), "Primary and regular clipboards changed", "clipboard change"),
    ];
    for (notice, body, context) in notices {
        assert_eq!(notice.body(), body);
        assert_eq!(notice.context(), context);
    }
}
