use clipboard_applet::clipboard::{
    ActionRequest, ActionSource, ClearTarget, ClipboardAction, ClipboardRead,
};
use clipboard_applet::config::Config;
use clipboard_applet::stack::{EntryIds, StackAction, StackEntry};
use clipboard_applet::text::{escape_underscores, is_white_space};
use clipboard_applet::tray::{
    menu_label, preview, preview_text, tooltip_text, AppEvent, ClipboardTray, EditTarget, MenuEntry,
    ToolTip, PREVIEW_CHARS,
};

fn editable_tray() -> ClipboardTray {
    let mut ids = EntryIds::new();
    ClipboardTray {
        tooltip: String::new(),
        icon_name: "edit-paste".into(),
        left_click: ClipboardAction::CopyPrimary,
        middle_click: ClipboardAction::Switch,
        primary: ClipboardRead::Text("primary".into()),
        regular: ClipboardRead::Text("regular".into()),
        stack: vec![
            StackEntry::new(&mut ids, "oldest".into()),
            StackEntry::new(&mut ids, "newest".into()),
        ],
        hide_content: false,
        notifications_enabled: false,
        editor_enabled: true,
        editor_target: None,
        stack_enabled: true,
        max_clipboard_bytes: 1024,
    }
}

fn labels(tray: &ClipboardTray) -> Vec<String> {
    tray.menu().into_iter().map(|item| item.label).collect()
}

#[test]
fn preview_hides_content_and_counts_characters() {
    assert_eq!(preview(&ClipboardRead::Text("é🙂".into()), true), "2 chars");
    assert_eq!(preview(&ClipboardRead::Empty, true), "0 chars");
}

#[test]
fn preview_flattens_control_whitespace() {
    assert_eq!(preview_text("one\ntwo\tthree", false), "one two three");
}

#[test]
fn preview_truncates_by_characters() {
    let value = "🙂".repeat(PREVIEW_CHARS + 3);
    assert_eq!(
        preview_text(&value, false),
        format!("{}... (and 3 more chars)", "🙂".repeat(PREVIEW_CHARS))
    );
}

#[test]
fn menu_labels_escape_underscores() {
    assert_eq!(
        menu_label("Primary", &ClipboardRead::Text("one_two".into()), false),
        "Primary: one__two"
    );
}

#[test]
fn preview_reports_each_unavailable_state_independently() {
    assert_eq!(preview(&ClipboardRead::NonText, false), "(non-text)");
    assert_eq!(preview(&ClipboardRead::Unsupported, false), "(unsupported)");
    assert_eq!(
        preview(&ClipboardRead::Oversized { limit: 1024 }, false),
        "(over 1024 bytes)"
    );
    assert_eq!(
        preview(&ClipboardRead::Error("failed".into()), false),
        "(unavailable)"
    );
    assert_eq!(
        tooltip_text(
            &ClipboardRead::Error("failed".into()),
            &ClipboardRead::Text("healthy".into()),
            false
        ),
        "primary: (unavailable)\nregular: healthy"
    );
}

#[test]
fn previews_at_the_edge_are_exact() {
    assert_eq!(PREVIEW_CHARS, 40);
    assert_eq!(preview_text("x", true), "1 char");
    assert_eq!(preview_text("", true), "0 chars");
    assert_eq!(preview_text("", false), "");
    assert_eq!(preview_text("a\r\nb", false), "a  b");
    assert_eq!(preview(&ClipboardRead::Empty, false), "(empty)");
    assert_eq!(preview_text(&"x".repeat(40), false), "x".repeat(40));
    assert_eq!(
        preview_text(&"x".repeat(41), false),
        format!("{}... (and 1 more chars)", "x".repeat(40))
    );
    assert_eq!(preview_text(&"x".repeat(1234), true), "1234 chars");
}

#[test]
fn healthy_selection_actions_remain_enabled_when_the_other_read_fails() {
    let mut tray = editable_tray();
    tray.primary = ClipboardRead::Error("failed".into());
    let items = tray.menu();
    let enabled = |label: &str| {
        items
            .iter()
            .find_map(|item| (item.label == label).then_some(item.enabled))
    };
    assert_eq!(enabled("Copy primary to regular"), Some(false));
    assert_eq!(enabled("Copy regular to primary"), Some(true));
    assert_eq!(enabled("Switch clipboards"), Some(false));
    assert_eq!(enabled("Reset clipboards"), Some(true));
}

#[test]
fn edit_menu_items_send_selection_and_stack_targets() {
    let tray = editable_tray();
    let newest_id = tray.stack[1].id;
    let oldest_id = tray.stack[0].id;
    for (label, expected) in [
        ("Edit primary", EditTarget::Primary),
        ("Edit regular", EditTarget::Regular),
        ("Edit 1: newest", EditTarget::Stack(newest_id)),
        ("Edit 2: oldest", EditTarget::Stack(oldest_id)),
    ] {
        let item = tray
            .menu()
            .into_iter()
            .find(|item| item.label == label)
            .unwrap_or_else(|| panic!("missing menu item {label}"));
        assert!(item.enabled);
        assert_eq!(item.event, Some(AppEvent::Edit(expected)));
    }
}

#[test]
fn editor_busy_state_identifies_target_and_can_be_cancelled() {
    let mut tray = editable_tray();
    tray.editor_target = Some(EditTarget::Primary);
    let items = tray.menu();
    assert!(items
        .iter()
        .any(|item| item.label == "Editing primary" && !item.enabled));
    assert!(items
        .iter()
        .all(|item| !(item.label.starts_with("Edit ") && item.enabled)));
    let cancel = items
        .into_iter()
        .find(|item| item.label == "Cancel edit")
        .unwrap();
    assert_eq!(cancel.event, Some(AppEvent::CancelEdit));
}

#[test]
fn editor_busy_state_identifies_stack_target_without_content() {
    let mut tray = editable_tray();
    let oldest_id = tray.stack[0].id;
    tray.editor_target = Some(EditTarget::Stack(oldest_id));
    assert!(labels(&tray)
        .iter()
        .any(|label| label == "Editing stacked entry 2"));
    tray.stack.clear();
    assert!(labels(&tray)
        .iter()
        .any(|label| label == "Editing removed stacked entry"));
}

#[test]
fn edit_menu_items_are_hidden_without_an_editor() {
    let mut tray = editable_tray();
    tray.editor_enabled = false;
    let labels = labels(&tray);
    assert!(labels.iter().all(|label| !label.starts_with("Edit")));
    assert!(labels.iter().any(|label| label == "1: newest"));
    assert!(labels.iter().any(|label| label == "2: oldest"));
}

#[test]
fn stack_menu_items_are_hidden_when_stack_is_disabled() {
    let mut tray = editable_tray();
    tray.stack_enabled = false;
    let labels = labels(&tray);
    assert!(labels.iter().all(|label| !label.starts_with("Stack ")));
    assert!(labels.iter().all(|label| !label.starts_with("Pop to ")));
    assert!(labels.iter().all(|label| !label.starts_with("Edit 1:")));
    assert!(!labels.iter().any(|label| label == "No stacked entries yet"));
}

#[test]
fn the_whole_menu_reads_as_expected() {
    let mut tray = editable_tray();
    tray.editor_target = Some(EditTarget::Regular);
    tray.stack[1].value = "snake_case".into();
    let separator = "────────────────────";
    assert_eq!(
        labels(&tray),
        [
            "Editing regular",
            "Cancel edit",
            separator,
            "Primary: primary",
            "Edit primary",
            "Copy primary to regular",
            "Stack primary",
            "Clear primary",
            separator,
            "Regular: regular",
            "Edit regular",
            "Copy regular to primary",
            "Stack regular",
            "Clear regular",
            separator,
            "Switch clipboards",
            "Reset clipboards",
            separator,
            "Edit 1: snake__case",
            "Edit 2: oldest",
            "Pop to primary",
            "Pop to regular",
            "Pop to primary and regular",
            separator,
            "Enable notifications",
            "Exit",
        ]
    );
    tray.stack.clear();
    tray.notifications_enabled = true;
    let labels = labels(&tray);
    assert_eq!(
        labels[17..],
        [separator, "No stacked entries yet", separator, "Disable notifications", "Exit"]
    );
}

#[test]
fn each_line_asks_for_its_own_event() {
    let tray = editable_tray();
    let action = |action: ClipboardAction| {
        Some(AppEvent::Action(ActionRequest {
            action,
            source: ActionSource::Menu,
        }))
    };
    for (label, event) in [
        ("Copy primary to regular", action(ClipboardAction::CopyPrimary)),
        ("Copy regular to primary", action(ClipboardAction::CopyRegular)),
        ("Switch clipboards", action(ClipboardAction::Switch)),
        ("Reset clipboards", action(ClipboardAction::Reset)),
        ("Stack primary", Some(AppEvent::Stack(StackAction::PushPrimary))),
        ("Stack regular", Some(AppEvent::Stack(StackAction::PushRegular))),
        ("Pop to primary", Some(AppEvent::Stack(StackAction::PopPrimary))),
        ("Pop to regular", Some(AppEvent::Stack(StackAction::PopRegular))),
        (
            "Pop to primary and regular",
            Some(AppEvent::Stack(StackAction::PopBoth)),
        ),
        ("Clear primary", Some(AppEvent::Clear(ClearTarget::Primary))),
        ("Clear regular", Some(AppEvent::Clear(ClearTarget::Regular))),
        ("Enable notifications", Some(AppEvent::ToggleNotifications)),
        ("Primary: primary", None),
    ] {
        let item = tray.menu().into_iter().find(|item| item.label == label).unwrap();
        assert_eq!(item.event, event);
        assert_eq!(item.enabled, event.is_some());
        assert_eq!(item.icon_name, "");
    }
    assert_eq!(
        tray.menu().last(),
        Some(&MenuEntry {
            label: "Exit".into(),
            enabled: true,
            icon_name: "application-exit".into(),
            event: Some(AppEvent::Exit),
        })
    );
}

#[test]
fn lines_without_content_are_disabled() {
    let mut tray = editable_tray();
    for (primary, regular, possible) in [
        (ClipboardRead::Empty, ClipboardRead::Empty, vec![]),
        (ClipboardRead::Text("".into()), ClipboardRead::Empty, vec![]),
        (
            ClipboardRead::Text("p".into()),
            ClipboardRead::Empty,
            vec![
                "Edit primary",
                "Copy primary to regular",
                "Stack primary",
                "Clear primary",
                "Switch clipboards",
                "Reset clipboards",
            ],
        ),
        (
            ClipboardRead::NonText,
            ClipboardRead::Text("r".into()),
            vec![
                "Edit regular",
                "Copy regular to primary",
                "Stack regular",
                "Clear regular",
                "Reset clipboards",
            ],
        ),
    ] {
        tray.primary = primary;
        tray.regular = regular;
        let enabled: Vec<String> = tray
            .menu()
            .into_iter()
            .take(14)
            .filter(|item| item.enabled)
            .map(|item| item.label)
            .collect();
        assert_eq!(enabled, possible);
    }
}

#[test]
fn hidden_content_shows_only_lengths() {
    let mut tray = editable_tray();
    tray.hide_content = true;
    let mut other = editable_tray();
    other.hide_content = true;
    other.primary = ClipboardRead::Text("seven c".into());
    other.regular = ClipboardRead::Text("seven d".into());
    other.stack[0].value = "something else entirely".into();
    assert_eq!(tray.menu(), other.menu());
    assert_eq!(
        tooltip_text(&tray.primary, &tray.regular, true),
        tooltip_text(&other.primary, &other.regular, true)
    );
    let hidden = labels(&tray);
    assert!(hidden.contains(&"Primary: 7 chars".to_string()));
    assert!(hidden.contains(&"Edit stacked entry 1".to_string()));
    assert!(hidden.contains(&"Edit stacked entry 2".to_string()));
    tray.editor_enabled = false;
    assert!(labels(&tray).iter().all(|label| !label.contains("est")));
}

#[test]
fn a_new_tray_shows_empty_selections() {
    let config = Config {
        editor: vec!["vi".into()],
        ..Config::default()
    };
    let tray = ClipboardTray::new(&config, true, false, 99);
    assert_eq!(
        tray,
        ClipboardTray {
            tooltip: "primary: (empty)\nregular: (empty)".into(),
            icon_name: "edit-paste".into(),
            left_click: ClipboardAction::CopyPrimary,
            middle_click: ClipboardAction::Switch,
            primary: ClipboardRead::Empty,
            regular: ClipboardRead::Empty,
            stack: vec![],
            hide_content: false,
            notifications_enabled: true,
            editor_enabled: true,
            editor_target: None,
            stack_enabled: false,
            max_clipboard_bytes: 99,
        }
    );
    assert_eq!(tray.id(), "clipboard-applet");
    assert_eq!(tray.title(), "Clipboard");
    assert_eq!(tray.icon_name(), "edit-paste");
    assert_eq!(
        tray.tool_tip(),
        ToolTip {
            title: "Clipboard".into(),
            description: "primary: (empty)\nregular: (empty)".into(),
        }
    );
}

#[test]
fn clicks_ask_for_the_configured_actions() {
    let tray = editable_tray();
    assert_eq!(
        tray.activate(),
        AppEvent::Action(ActionRequest {
            action: ClipboardAction::CopyPrimary,
            source: ActionSource::LeftClick,
        })
    );
    assert_eq!(
        tray.secondary_activate(),
        AppEvent::Action(ActionRequest {
            action: ClipboardAction::Switch,
            source: ActionSource::MiddleClick,
        })
    );
}

#[test]
fn escaping_doubles_underscores_alone() {
    assert_eq!(escape_underscores("a_b__c"), "a__b____c");
    assert_eq!(escape_underscores("plain é🙂"), "plain é🙂");
    assert_eq!(escape_underscores("_").replace("__", "_"), "_");
}

#[test]
fn white_space_is_what_trimming_removes() {
    for code in 0..=0x10ffff_u32 {
        if let Some(character) = char::from_u32(code) {
            assert_eq!(is_white_space(character), character.is_whitespace());
        }
    }
}
