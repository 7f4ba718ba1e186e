use clipboard_applet::cli::{help_text, parse_args, CliAction};
use clipboard_applet::notification::NotificationMode;

fn run(args: &[&str]) -> Result<CliAction, String> {
    parse_args(args.iter().map(|argument| argument.as_bytes().to_vec()).collect())
}

#[test]
fn parses_config_file_forms() {
    for args in [vec!["-c", "custom.toml"], vec!["--config-file=custom.toml"]] {
        assert_eq!(
            run(&args),
            Ok(CliAction::Run {
                config_file: Some("custom.toml".as_bytes().to_vec()),
                debug: false,
                with_notifications: None,
            })
        );
    }
}

#[test]
fn parses_help_and_debug() {
    assert_eq!(run(&["-h"]), Ok(CliAction::Help));
    assert_eq!(run(&["--help"]), Ok(CliAction::Help));
    assert!(matches!(
        run(&["-d"]),
        Ok(CliAction::Run { debug: true, .. })
    ));
}

#[test]
fn parses_notification_modes() {
    for (value, expected) in [
        ("true", NotificationMode::Enabled),
        ("false", NotificationMode::Disabled),
        ("all", NotificationMode::All),
    ] {
        assert!(matches!(
            run(&[&format!("--with-notifications={value}")]),
            Ok(CliAction::Run { with_notifications: Some(mode), .. }) if mode == expected
        ));
    }
}

#[test]
fn rejects_missing_invalid_and_duplicate_values() {
    assert!(run(&["--with-notifications"]).is_err());
    assert!(run(&["--with-notifications=maybe"]).is_err());
    assert!(run(&["--with-notifications=true", "--with-notifications=all"]).is_err());
    assert!(run(&["-c"]).is_err());
    assert!(run(&["-c", "one", "-c", "two"]).is_err());
}

#[test]
fn each_refusal_says_why() {
    for (args, message) in [
        (
            vec!["--with-notifications"],
            "--with-notifications requires true, false, or all",
        ),
        (
            vec!["--with-notifications", "may\"be\n"],
            "invalid --with-notifications value \"may\\\"be\\n\"; expected true, false, or all",
        ),
        (
            vec!["--with-notifications=maybe"],
            "invalid --with-notifications value \"maybe\"; expected true, false, or all",
        ),
        (
            vec!["--with-notifications", "true", "--with-notifications=all"],
            "--with-notifications specified more than once",
        ),
        (vec!["-c"], "-c requires a path"),
        (vec!["--config-file"], "--config-file requires a path"),
        (vec!["--config-file="], "--config-file requires a path"),
        (
            vec!["-c", "one", "--config-file=two"],
            "configuration file specified more than once",
        ),
        (vec!["--surprise"], "unknown argument: --surprise"),
        (vec!["--helpful"], "unknown argument: --helpful"),
    ] {
        assert_eq!(run(&args), Err(message.to_string()));
    }
}

#[test]
fn arguments_need_not_be_text() {
    assert_eq!(
        parse_args(vec![b"-x\xff".to_vec()]),
        Err("unknown argument: -x\u{fffd}".to_string())
    );
    assert_eq!(
        parse_args(vec![b"--with-notifications".to_vec(), b"tru\xe9".to_vec()]),
        Err("--with-notifications requires true, false, or all".to_string())
    );
    assert_eq!(
        parse_args(vec![b"-c".to_vec(), b"dir/\xff.toml".to_vec()]),
        Ok(CliAction::Run {
            config_file: Some(b"dir/\xff.toml".to_vec()),
            debug: false,
            with_notifications: None,
        })
    );
}

#[test]
fn options_are_kept_in_any_order() {
    let expected = Ok(CliAction::Run {
        config_file: Some(b"-d".to_vec()),
        debug: true,
        with_notifications: Some(NotificationMode::All),
    });
    assert_eq!(run(&["-d", "-c", "-d", "--with-notifications", "all"]), expected);
    assert_eq!(run(&["--with-notifications=all", "--debug", "--config-file=-d", "-d"]), expected);
    assert_eq!(
        run(&[]),
        Ok(CliAction::Run {
            config_file: None,
            debug: false,
            with_notifications: None,
        })
    );
}

#[test]
fn help_ends_the_command_line() {
    assert_eq!(run(&["-d", "--help", "--surprise"]), Ok(CliAction::Help));
    assert!(run(&["--surprise", "--help"]).is_err());
}

#[test]
fn help_names_every_option() {
    let help = help_text("clipboard-applet", "0.1.0");
    assert!(help.starts_with("clipboard-applet 0.1.0\n\nWayland clipboard tray applet\n\n"));
    assert!(help.contains("Usage: clipboard-applet [OPTIONS]\n"));
    for option in ["-c, --config-file <PATH>", "-d, --debug", "--with-notifications <MODE>"] {
        assert!(help.contains(option));
    }
    assert!(help.ends_with("-h, --help                          Show this help"));
}
