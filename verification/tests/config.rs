use clipboard_applet::clipboard::ClipboardAction;
use clipboard_applet::config::{
    load, load_from, parse, path, Config, ConfigSource, FileRead, LoadStep, UpdateMethod,
};
use clipboard_applet::instance::{instance_lock_path, lock_contents, lock_failure, LockFailure};

fn bytes(text: &str) -> Vec<u8> {
    text.as_bytes().to_vec()
}

fn values(contents: &str) -> Result<Config, String> {
    let table: toml::Table = contents.parse().map_err(|error: toml::de::Error| error.to_string())?;
    let mut config = Config::default();
    for (key, value) in table {
        match (key.as_str(), value) {
            ("polling_period_ms", toml::Value::Integer(period)) => {
                config.polling_period_ms = period as u64;
            }
            ("icon_name", toml::Value::String(name)) => config.icon_name = name,
            ("stack_size", toml::Value::Integer(size)) => config.stack_size = size as usize,
            ("editor", toml::Value::Array(arguments)) => {
                config.editor = arguments
                    .iter()
                    .map(|argument| argument.as_str().unwrap().to_string())
                    .collect();
            }
            (key, _) => return Err(format!("unexpected {key}")),
        }
    }
    Ok(config)
}

#[test]
fn uses_xdg_path_and_falls_back_to_home() {
    assert_eq!(
        path(Some(bytes("/xdg")), Some(bytes("/home/user"))),
        Some(bytes("/xdg/clipboard-applet/config.toml"))
    );
    assert_eq!(
        path(None, Some(bytes("/home/user"))),
        Some(bytes("/home/user/.config/clipboard-applet/config.toml"))
    );
}

#[test]
fn paths_are_joined_by_one_separator() {
    assert_eq!(
        path(Some(bytes("/xdg/")), None),
        Some(bytes("/xdg/clipboard-applet/config.toml"))
    );
    assert_eq!(
        path(Some(Vec::new()), None),
        Some(bytes("clipboard-applet/config.toml"))
    );
    assert_eq!(
        path(None, Some(b"/home/\xff".to_vec())),
        Some(b"/home/\xff/.config/clipboard-applet/config.toml".to_vec())
    );
    assert_eq!(path(None, None), None);
}

#[test]
fn parses_values_and_applies_defaults() {
    let config = parse(values("polling_period_ms = 250"), "config.toml").unwrap();
    assert_eq!(config.polling_period_ms, 250);
    assert_eq!(config.update_method, UpdateMethod::Events);
    assert_eq!(config.left_click, ClipboardAction::CopyPrimary);
    assert_eq!(config.stack_size, 16);
    assert!(config.editor.is_empty());
}

#[test]
fn validates_poll_period_icon_and_stack_size() {
    assert!(parse(values("polling_period_ms = 0"), "config.toml").is_err());
    assert!(parse(values("icon_name = '  '"), "config.toml").is_err());
    assert!(parse(values("stack_size = 0"), "config.toml").is_err());
    assert!(parse(values("stack_size = 17"), "config.toml").is_err());
}

#[test]
fn parses_and_validates_editor_argv() {
    let config = parse(values("editor = ['foot', '-e', 'nvim']"), "config.toml").unwrap();
    assert_eq!(config.editor, ["foot", "-e", "nvim"]);
    assert!(parse(values("editor = ['  ']"), "config.toml").is_err());
}

#[test]
fn each_objection_is_spelled_out() {
    for (contents, reason) in [
        ("polling_period_ms = 0", "polling_period_ms must be greater than zero"),
        ("icon_name = '  '", "icon_name must not be empty"),
        ("stack_size = 0", "stack_size must be between 1 and 16"),
        ("stack_size = 17", "stack_size must be between 1 and 16"),
        ("editor = ['  ']", "editor program must not be empty"),
    ] {
        assert_eq!(
            parse(values(contents), "config.toml"),
            Err(format!("config.toml: {reason}"))
        );
    }
}

#[test]
fn the_first_objection_is_reported() {
    assert_eq!(
        parse(
            Ok(Config {
                stack_size: 0,
                icon_name: "\u{3000}\t".into(),
                ..Config::default()
            }),
            "c"
        ),
        Err("c: icon_name must not be empty".to_string())
    );
    assert_eq!(
        parse(Err("expected a value".into()), "c"),
        Err("c: expected a value".to_string())
    );
}

#[test]
fn every_stack_size_between_the_bounds_is_accepted() {
    for stack_size in 1..=16 {
        assert!(parse(
            Ok(Config {
                stack_size,
                ..Config::default()
            }),
            "c"
        )
        .is_ok());
    }
}

#[test]
fn defaults_are_the_documented_ones() {
    assert_eq!(
        Config::default(),
        Config {
            update_method: UpdateMethod::Events,
            polling_period_ms: 1000,
            hide_content: false,
            notifications: false,
            notify_on_change: false,
            icon_name: "edit-paste".into(),
            editor: vec![],
            stack_size: 16,
            left_click: ClipboardAction::CopyPrimary,
            middle_click: ClipboardAction::Switch,
        }
    );
    assert_eq!(UpdateMethod::Events.name(), "EVENTS");
    assert_eq!(UpdateMethod::Polling.name(), "POLLING");
}

#[test]
fn actions_have_the_documented_names() {
    assert_eq!(ClipboardAction::CopyPrimary.name(), "COPY_PRIMARY");
    assert_eq!(ClipboardAction::CopyRegular.name(), "COPY_REGULAR");
    assert_eq!(ClipboardAction::Switch.name(), "SWITCH");
    assert_eq!(ClipboardAction::Reset.name(), "RESET");
}

#[test]
fn a_file_that_was_asked_for_must_exist() {
    assert_eq!(
        load(Some(bytes("custom.toml")), Some(bytes("/xdg")), None),
        ConfigSource::File {
            path: bytes("custom.toml"),
            use_default_if_missing: false,
        }
    );
    assert_eq!(
        load(None, None, Some(bytes("/home/user"))),
        ConfigSource::File {
            path: bytes("/home/user/.config/clipboard-applet/config.toml"),
            use_default_if_missing: true,
        }
    );
    assert_eq!(load(None, None, None), ConfigSource::Defaults);
}

#[test]
fn only_a_missing_default_file_is_forgiven() {
    let failed = |not_found: bool| FileRead::Failed {
        not_found,
        error: "no luck".into(),
    };
    assert_eq!(load_from(failed(true), true, "c"), LoadStep::Defaults);
    for (not_found, use_default) in [(true, false), (false, true), (false, false)] {
        assert_eq!(
            load_from(failed(not_found), use_default, "c"),
            LoadStep::Fail("c: no luck".into())
        );
    }
    assert_eq!(
        load_from(FileRead::Contents("text".into()), true, "c"),
        LoadStep::Parse("text".into())
    );
}

#[test]
fn instance_lock_path_uses_xdg_runtime_directory() {
    assert_eq!(
        instance_lock_path(Some(bytes("/run/user/1000"))),
        Ok(bytes("/run/user/1000/clipboard-applet.lock"))
    );
    assert!(instance_lock_path(None).is_err());
}

#[test]
fn an_empty_runtime_directory_counts_as_none() {
    assert_eq!(
        instance_lock_path(Some(Vec::new())),
        Err("XDG_RUNTIME_DIR is not set".to_string())
    );
    assert_eq!(
        instance_lock_path(None),
        Err("XDG_RUNTIME_DIR is not set".to_string())
    );
}

#[test]
fn each_lock_failure_says_what_happened() {
    let say = |failure: LockFailure| lock_failure(failure, "clipboard-applet", "/l");
    assert_eq!(
        say(LockFailure::Open("e".into())),
        "failed to open instance lock /l: e"
    );
    assert_eq!(
        say(LockFailure::Held),
        "clipboard-applet is already running for this session (lock: /l)"
    );
    assert_eq!(say(LockFailure::Lock("e".into())), "failed to lock /l: e");
    assert_eq!(
        say(LockFailure::Write("e".into())),
        "failed to write instance lock /l: e"
    );
    assert_eq!(lock_contents(4_294_967_295), "4294967295\n");
}
