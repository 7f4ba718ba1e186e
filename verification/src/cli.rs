//! The command line.
use crate::notification::NotificationMode;
use crate::text::{
    after_prefix, debug_quoted, debug_text, join2, join3, join4, lossy_text, lossy_utf8, same_text,
};
use vstd::prelude::*;
use vstd::string::*;
use vstd::utf8::*;

verus! {

/// What the command line asks for. A path is kept as the bytes that the system passed.
#[derive(Debug, PartialEq, Eq)]
pub enum CliAction {
    Run {
        config_file: Option<Vec<u8>>,
        debug: bool,
        with_notifications: Option<NotificationMode>,
    },
    Help,
}

/// What the command line asks for, with the path as a byte sequence.
pub enum CliModel {
    Run {
        config_file: Option<Seq<u8>>,
        debug: bool,
        with_notifications: Option<NotificationMode>,
    },
    Help,
}

impl View for CliAction {
    type V = CliModel;

    open spec fn view(&self) -> CliModel {
        match self {
            CliAction::Run { config_file, debug, with_notifications } => CliModel::Run {
                config_file: config_file.deep_view(),
                debug: *debug,
                with_notifications: *with_notifications,
            },
            CliAction::Help => CliModel::Help,
        }
    }
}

/// The text that explains the command line.
pub fn help_text(name: &str, version: &str) -> (text: String)
    ensures
        text@ == name@ + " "@ + version@ + "\n\nWayland clipboard tray applet\n\nUsage: "@ + name@
            + " [OPTIONS]\n\nOptions:\n  -c, --config-file <PATH>            Use this configuration file\n  -d, --debug                         Log clipboard actions to stderr\n      --with-notifications <MODE>     Notification mode: true, false, or all\n  -h, --help                          Show this help"@,
{
    let mut text = join4(
        name,
        " ",
        version,
        "\n\nWayland clipboard tray applet\n\nUsage: ",
    );
    text.append(name);
    text.append(
        " [OPTIONS]\n\nOptions:\n  -c, --config-file <PATH>            Use this configuration file\n  -d, --debug                         Log clipboard actions to stderr\n      --with-notifications <MODE>     Notification mode: true, false, or all\n  -h, --help                          Show this help",
    );
    text
}

/// The notification mode that a text names.
pub open spec fn notification_mode(value: Seq<char>) -> Result<NotificationMode, Seq<char>> {
    if value == "true"@ {
        Ok(NotificationMode::Enabled)
    } else if value == "false"@ {
        Ok(NotificationMode::Disabled)
    } else if value == "all"@ {
        Ok(NotificationMode::All)
    } else {
        Err(
            "invalid --with-notifications value "@ + debug_quoted(value)
                + "; expected true, false, or all"@,
        )
    }
}

/// Reads a notification mode.
pub fn parse_notification_mode(value: &str) -> (result: Result<NotificationMode, String>)
    ensures
        match notification_mode(value@) {
            Ok(mode) => result == Ok::<NotificationMode, String>(mode),
            Err(message) => result matches Err(error) && error@ == message,
        },
{
    if same_text(value, "true") {
        Ok(NotificationMode::Enabled)
    } else if same_text(value, "false") {
        Ok(NotificationMode::Disabled)
    } else if same_text(value, "all") {
        Ok(NotificationMode::All)
    } else {
        Err(
            join3(
                "invalid --with-notifications value ",
                debug_text(value).as_str(),
                "; expected true, false, or all",
            ),
        )
    }
}

/// The options that have been read so far.
pub struct Options {
    pub config_file: Option<Seq<u8>>,
    pub debug: bool,
    pub with_notifications: Option<NotificationMode>,
}

/// One argument as text: arguments that are not UTF-8 have none.
pub open spec fn argument_text(argument: Seq<u8>) -> Option<Seq<char>> {
    if valid_utf8(argument) {
        Some(decode_utf8(argument))
    } else {
        None
    }
}

/// The options with a notification mode added, unless the mode is unknown or there already is
/// one.
pub open spec fn with_mode(options: Options, value: Seq<char>) -> Result<Options, Seq<char>> {
    match notification_mode(value) {
        Err(message) => Err(message),
        Ok(mode) => if options.with_notifications is Some {
            Err("--with-notifications specified more than once"@)
        } else {
            Ok(Options { with_notifications: Some(mode), ..options })
        },
    }
}

/// The options with a configuration file added, unless there already is one.
pub open spec fn with_config_file(options: Options, path: Seq<u8>) -> Result<Options, Seq<char>> {
    if options.config_file is Some {
        Err("configuration file specified more than once"@)
    } else {
        Ok(Options { config_file: Some(path), ..options })
    }
}

/// What the first of some arguments does.
pub enum Meaning {
    /// It asks for help; later arguments are not looked at.
    Help,
    /// It adds to the options, and takes this many arguments, itself included.
    Continue { options: Options, taken: int },
    /// It is refused.
    Refuse(Seq<char>),
}

/// An option taken from some arguments, or a refusal.
pub open spec fn continued(result: Result<Options, Seq<char>>, taken: int) -> Meaning {
    match result {
        Ok(options) => Meaning::Continue { options, taken },
        Err(message) => Meaning::Refuse(message),
    }
}

/// What the first of some arguments means after the options that have been read so far.
pub open spec fn meaning(arguments: Seq<Seq<u8>>, options: Options) -> Meaning {
    let mode_prefix = "--with-notifications="@;
    let path_prefix = "--config-file="@;
    match argument_text(arguments[0]) {
        None => Meaning::Refuse("unknown argument: "@ + lossy_utf8(arguments[0])),
        Some(text) => if text == "-h"@ || text == "--help"@ {
            Meaning::Help
        } else if text == "-d"@ || text == "--debug"@ {
            Meaning::Continue { options: Options { debug: true, ..options }, taken: 1 }
        } else if text == "--with-notifications"@ {
            if arguments.len() < 2 || argument_text(arguments[1]) is None {
                Meaning::Refuse("--with-notifications requires true, false, or all"@)
            } else {
                continued(with_mode(options, argument_text(arguments[1])->0), 2)
            }
        } else if mode_prefix.is_prefix_of(text) {
            continued(with_mode(options, text.skip(mode_prefix.len() as int)), 1)
        } else if text == "-c"@ || text == "--config-file"@ {
            if arguments.len() < 2 {
                Meaning::Refuse(text + " requires a path"@)
            } else {
                continued(with_config_file(options, arguments[1]), 2)
            }
        } else if path_prefix.is_prefix_of(text) {
            if text.len() == path_prefix.len() {
                Meaning::Refuse("--config-file requires a path"@)
            } else {
                continued(
                    with_config_file(options, encode_utf8(text.skip(path_prefix.len() as int))),
                    1,
                )
            }
        } else {
            Meaning::Refuse("unknown argument: "@ + text)
        },
    }
}

/// What some arguments ask for after the options that have been read so far.
pub open spec fn command(arguments: Seq<Seq<u8>>, options: Options) -> Result<CliModel, Seq<char>>
    decreases arguments.len(),
{
    if arguments.len() == 0 {
        Ok(
            CliModel::Run {
                config_file: options.config_file,
                debug: options.debug,
                with_notifications: options.with_notifications,
            },
        )
    } else {
        match meaning(arguments, options) {
            Meaning::Help => Ok(CliModel::Help),
            Meaning::Refuse(message) => Err(message),
            Meaning::Continue { options, taken } => if 0 < taken <= arguments.len() {
                command(arguments.skip(taken), options)
            } else {
                Err(Seq::empty())
            },
        }
    }
}

/// The options before any argument is read.
pub open spec fn no_options() -> Options {
    Options { config_file: None, debug: false, with_notifications: None }
}

fn text_of_argument(argument: &Vec<u8>) -> (text: Option<String>)
    ensures
        text.deep_view() == argument_text(argument@),
{
    match String::from_utf8(argument.clone()) {
        Ok(text) => {
            proof {
                encode_utf8_decode_utf8(text@);
            }
            Some(text)
        },
        Err(_) => None,
    }
}

/// Reads the command line, given as the bytes of the arguments that follow the program's name.
pub fn parse_args(arguments: Vec<Vec<u8>>) -> (result: Result<CliAction, String>)
    ensures
        match command(arguments.deep_view(), no_options()) {
            Ok(action) => result matches Ok(parsed) && parsed@ == action,
            Err(message) => result matches Err(error) && error@ == message,
        },
{
    let ghost given = arguments.deep_view();
    let mut config_file: Option<Vec<u8>> = None;
    let mut debug = false;
    let mut with_notifications: Option<NotificationMode> = None;
    let mut index: usize = 0;
    assert(given.skip(0) == given);
    while index < arguments.len()
        invariant
            given == arguments.deep_view(),
            index <= arguments.len(),
            command(given, no_options()) == command(
                given.skip(index as int),
                Options { config_file: config_file.deep_view(), debug, with_notifications },
            ),
        decreases arguments.len() - index,
    {
        let ghost rest = given.skip(index as int);
        let ghost options = Options {
            config_file: config_file.deep_view(),
            debug,
            with_notifications,
        };
        assert(rest[0] == arguments[index as int]@);
        assert(rest.len() >= 2 ==> rest[1] == arguments[index + 1]@);
        proof {
            assert(rest.skip(1) =~= given.skip(index + 1));
            if rest.len() >= 2 {
                assert(rest.skip(2) =~= given.skip(index + 2));
            }
        }
        let text = match text_of_argument(&arguments[index]) {
            Some(text) => text,
            None => {
                let shown = lossy_text(arguments[index].as_slice());
                return Err(join2("unknown argument: ", shown.as_str()));
            },
        };
        let text = text.as_str();
        if same_text(text, "-h") || same_text(text, "--help") {
            return Ok(CliAction::Help);
        }
        if same_text(text, "-d") || same_text(text, "--debug") {
            debug = true;
            index += 1;
            continue;
        }
        if same_text(text, "--with-notifications") {
            let value = if arguments.len() - index < 2 {
                None
            } else {
                text_of_argument(&arguments[index + 1])
            };
            let value = match value {
                Some(value) => value,
                None => {
                    return Err("--with-notifications requires true, false, or all".to_owned());
                },
            };
            let mode = match parse_notification_mode(value.as_str()) {
                Ok(mode) => mode,
                Err(message) => return Err(message),
            };
            if with_notifications.is_some() {
                return Err("--with-notifications specified more than once".to_owned());
            }
            with_notifications = Some(mode);
            index += 2;
            continue;
        }
        if let Some(value) = after_prefix(text, "--with-notifications=") {
            assert(value@ =~= text@.skip("--with-notifications="@.len() as int));
            let mode = match parse_notification_mode(value.as_str()) {
                Ok(mode) => mode,
                Err(message) => return Err(message),
            };
            if with_notifications.is_some() {
                return Err("--with-notifications specified more than once".to_owned());
            }
            with_notifications = Some(mode);
            index += 1;
            continue;
        }
        let mut taken: usize = 1;
        let path = if same_text(text, "-c") || same_text(text, "--config-file") {
            if arguments.len() - index < 2 {
                return Err(join2(text, " requires a path"));
            }
            taken = 2;
            let path = arguments[index + 1].clone();
            assert(path@ =~= arguments[index + 1]@);
            path
        } else if let Some(path) = after_prefix(text, "--config-file=") {
            assert(path@ =~= text@.skip("--config-file="@.len() as int));
            if path.as_str().is_empty() {
                return Err("--config-file requires a path".to_owned());
            }
            path.as_str().as_bytes_vec()
        } else {
            return Err(join2("unknown argument: ", text));
        };
        if config_file.is_some() {
            return Err("configuration file specified more than once".to_owned());
        }
        assert(path.deep_view() =~= path@);
        config_file = Some(path);
        index += taken;
    }
    Ok(CliAction::Run { config_file, debug, with_notifications })
}

/// What an option says is final: later arguments may add to it or be refused, but a command line
/// that is accepted keeps it.
pub proof fn law_options_are_kept(arguments: Seq<Seq<u8>>, options: Options)
    ensures
        command(arguments, options) matches Ok(
            CliModel::Run { config_file, debug, with_notifications },
        ) ==> {
            &&& options.config_file is Some ==> config_file == options.config_file
            &&& options.debug ==> debug
            &&& options.with_notifications is Some ==> with_notifications
                == options.with_notifications
        },
    decreases arguments.len(),
{
    if arguments.len() > 0 {
        if let Meaning::Continue { options: more, taken } = meaning(arguments, options) {
            if 0 < taken <= arguments.len() {
                law_options_are_kept(arguments.skip(taken), more);
            }
        }
    }
}

} // verus!
