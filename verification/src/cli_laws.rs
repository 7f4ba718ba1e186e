//! What the command line means, argument by argument.
//!
//! A law that speaks of a call holds of every value that the call may return.
use crate::cli::{
    argument_text, command, help_text, notification_mode, parse_args, parse_notification_mode,
    CliAction, CliModel, Options,
};
use crate::notification::NotificationMode;
use crate::text::{debug_quoted, lossy_utf8};
use vstd::prelude::*;
use vstd::utf8::*;

verus! {

/// Whether a text is the name of a notification mode.
pub open spec fn names_mode(value: Seq<char>, mode: NotificationMode) -> bool {
    match mode {
        NotificationMode::Enabled => value == "true"@,
        NotificationMode::Disabled => value == "false"@,
        NotificationMode::All => value == "all"@,
    }
}

/// Whether a text names any notification mode.
pub open spec fn names_some_mode(value: Seq<char>) -> bool {
    value == "true"@ || value == "false"@ || value == "all"@
}

/// A text is read as the mode that it names; one that names none is refused, and quoted.
pub proof fn law_which_modes_there_are(
    value: &str,
    result: Result<NotificationMode, String>,
)
    requires
        call_ensures(parse_notification_mode, (value,), result),
    ensures
        result is Ok <==> names_some_mode(value@),
        result matches Ok(mode) ==> names_mode(value@, mode),
        result matches Err(message) ==> message@ == "invalid --with-notifications value "@
            + debug_quoted(value@) + "; expected true, false, or all"@,
{
    lemma_modes_are_told_apart();
}

/// The same of the model.
pub proof fn law_modes_are_named(value: Seq<char>)
    ensures
        notification_mode(value) is Ok <==> names_some_mode(value),
        notification_mode(value) matches Ok(mode) ==> names_mode(value, mode),
        notification_mode(value) matches Err(message) ==> message
            == "invalid --with-notifications value "@ + debug_quoted(value)
            + "; expected true, false, or all"@,
{
    lemma_modes_are_told_apart();
}

proof fn lemma_modes_are_told_apart()
    ensures
        "true"@ != "false"@,
        "true"@ != "all"@,
        "false"@ != "all"@,
{
    reveal_strlit("true");
    reveal_strlit("false");
    reveal_strlit("all");
    assert("true"@.len() == 4 && "false"@.len() == 5 && "all"@.len() == 3);
}

/// Whether an argument is a text, as the system passes it.
pub open spec fn is_argument(argument: Seq<u8>, text: Seq<char>) -> bool {
    argument == encode_utf8(text)
}

proof fn lemma_argument_text(argument: Seq<u8>, text: Seq<char>)
    requires
        is_argument(argument, text),
    ensures
        argument_text(argument) == Some(text),
{
    encode_utf8_valid_utf8(text);
    encode_utf8_decode_utf8(text);
}

proof fn lemma_option_names()
    ensures
        "-h"@.len() == 2,
        "-h"@[1] == 'h',
        "--help"@.len() == 6,
        "--help"@[2] == 'h',
        "-d"@.len() == 2,
        "-d"@[1] == 'd',
        "--debug"@.len() == 7,
        "--debug"@[2] == 'd',
        "--with-notifications"@.len() == 20,
        "--with-notifications"@[2] == 'w',
        "--with-notifications="@.len() == 21,
        "--with-notifications="@[2] == 'w',
        "-c"@.len() == 2,
        "-c"@[1] == 'c',
        "--config-file"@.len() == 13,
        "--config-file"@[2] == 'c',
        "--config-file="@.len() == 14,
        "--config-file="@[2] == 'c',
{
    reveal_strlit("-h");
    reveal_strlit("--help");
    reveal_strlit("-d");
    reveal_strlit("--debug");
    reveal_strlit("--with-notifications");
    reveal_strlit("--with-notifications=");
    reveal_strlit("-c");
    reveal_strlit("--config-file");
    reveal_strlit("--config-file=");
}

/// Once all arguments are read, the applet runs with the options that were read.
pub proof fn law_the_applet_runs_with_its_options(options: Options)
    ensures
        command(Seq::empty(), options) == Ok::<CliModel, Seq<char>>(
            CliModel::Run {
                config_file: options.config_file,
                debug: options.debug,
                with_notifications: options.with_notifications,
            },
        ),
{
}

/// A request for help is granted whatever comes after it.
pub proof fn law_help_ends_the_command_line(arguments: Seq<Seq<u8>>, options: Options)
    requires
        arguments.len() > 0,
        is_argument(arguments[0], "-h"@) || is_argument(arguments[0], "--help"@),
    ensures
        command(arguments, options) == Ok::<CliModel, Seq<char>>(CliModel::Help),
{
    if is_argument(arguments[0], "-h"@) {
        lemma_argument_text(arguments[0], "-h"@);
    } else {
        lemma_argument_text(arguments[0], "--help"@);
    }
}

/// The option for the debug log turns it on and changes nothing else, wherever it stands.
pub proof fn law_debug_option(arguments: Seq<Seq<u8>>, options: Options)
    requires
        arguments.len() > 0,
        is_argument(arguments[0], "-d"@) || is_argument(arguments[0], "--debug"@),
    ensures
        command(arguments, options) == command(
            arguments.skip(1),
            Options {
                config_file: options.config_file,
                debug: true,
                with_notifications: options.with_notifications,
            },
        ),
{
    lemma_option_names();
    if is_argument(arguments[0], "-d"@) {
        lemma_argument_text(arguments[0], "-d"@);
    } else {
        lemma_argument_text(arguments[0], "--debug"@);
    }
}

/// What a command line amounts to whose next option sets the notification mode that a text names,
/// and whose remaining arguments are `rest`: the mode must exist and may be set once.
pub open spec fn after_mode(
    rest: Seq<Seq<u8>>,
    options: Options,
    value: Seq<char>,
    result: Result<CliModel, Seq<char>>,
) -> bool {
    &&& !names_some_mode(value) ==> result == Err::<CliModel, Seq<char>>(
        "invalid --with-notifications value "@ + debug_quoted(value)
            + "; expected true, false, or all"@,
    )
    &&& names_some_mode(value) && options.with_notifications is Some ==> result == Err::<
        CliModel,
        Seq<char>,
    >("--with-notifications specified more than once"@)
    &&& forall|mode: NotificationMode| #[trigger]
        names_mode(value, mode) && options.with_notifications is None ==> result == command(
            rest,
            Options {
                config_file: options.config_file,
                debug: options.debug,
                with_notifications: Some(mode),
            },
        )
}

/// The notification mode may be an argument of its own.
pub proof fn law_notification_mode_in_its_own_argument(
    arguments: Seq<Seq<u8>>,
    options: Options,
    value: Seq<char>,
)
    requires
        arguments.len() > 0,
        is_argument(arguments[0], "--with-notifications"@),
    ensures
        arguments.len() == 1 ==> command(arguments, options) == Err::<CliModel, Seq<char>>(
            "--with-notifications requires true, false, or all"@,
        ),
        arguments.len() > 1 && !valid_utf8(arguments[1]) ==> command(arguments, options) == Err::<
            CliModel,
            Seq<char>,
        >("--with-notifications requires true, false, or all"@),
        arguments.len() > 1 && is_argument(arguments[1], value) ==> after_mode(
            arguments.skip(2),
            options,
            value,
            command(arguments, options),
        ),
{
    lemma_option_names();
    lemma_modes_are_told_apart();
    lemma_argument_text(arguments[0], "--with-notifications"@);
    if arguments.len() > 1 && is_argument(arguments[1], value) {
        lemma_argument_text(arguments[1], value);
    }
}

/// The notification mode may follow an equals sign.
pub proof fn law_notification_mode_after_an_equals_sign(
    arguments: Seq<Seq<u8>>,
    options: Options,
    value: Seq<char>,
)
    requires
        arguments.len() > 0,
        is_argument(arguments[0], "--with-notifications="@ + value),
    ensures
        after_mode(arguments.skip(1), options, value, command(arguments, options)),
{
    let prefix = "--with-notifications="@;
    lemma_option_names();
    lemma_modes_are_told_apart();
    lemma_argument_text(arguments[0], prefix + value);
    let text = prefix + value;
    assert(text[2] == 'w');
    assert(prefix.is_prefix_of(text));
    assert(text.skip(21) =~= value);
}

/// What a command line amounts to whose next option names a configuration file, and whose
/// remaining arguments are `rest`: a file may be named once.
pub open spec fn after_path(
    rest: Seq<Seq<u8>>,
    options: Options,
    path: Seq<u8>,
    result: Result<CliModel, Seq<char>>,
) -> bool {
    &&& options.config_file is Some ==> result == Err::<CliModel, Seq<char>>(
        "configuration file specified more than once"@,
    )
    &&& options.config_file is None ==> result == command(
        rest,
        Options {
            config_file: Some(path),
            debug: options.debug,
            with_notifications: options.with_notifications,
        },
    )
}

/// The configuration file may be an argument of its own, of any bytes.
pub proof fn law_configuration_file_in_its_own_argument(
    arguments: Seq<Seq<u8>>,
    options: Options,
    option: Seq<char>,
)
    requires
        arguments.len() > 0,
        option == "-c"@ || option == "--config-file"@,
        is_argument(arguments[0], option),
    ensures
        arguments.len() == 1 ==> command(arguments, options) == Err::<CliModel, Seq<char>>(
            option + " requires a path"@,
        ),
        arguments.len() > 1 ==> after_path(
            arguments.skip(2),
            options,
            arguments[1],
            command(arguments, options),
        ),
{
    lemma_option_names();
    lemma_argument_text(arguments[0], option);
}

/// The configuration file may follow an equals sign, and must then not be empty.
pub proof fn law_configuration_file_after_an_equals_sign(
    arguments: Seq<Seq<u8>>,
    options: Options,
    path: Seq<char>,
)
    requires
        arguments.len() > 0,
        is_argument(arguments[0], "--config-file="@ + path),
    ensures
        path.len() == 0 ==> command(arguments, options) == Err::<CliModel, Seq<char>>(
            "--config-file requires a path"@,
        ),
        path.len() > 0 ==> after_path(
            arguments.skip(1),
            options,
            encode_utf8(path),
            command(arguments, options),
        ),
{
    let prefix = "--config-file="@;
    lemma_option_names();
    lemma_argument_text(arguments[0], prefix + path);
    let text = prefix + path;
    assert(text[2] == 'c');
    assert(prefix.is_prefix_of(text));
    assert(text.skip(14) =~= path);
}

/// Whether a text is an option, or begins as one that carries its value.
pub open spec fn is_option(text: Seq<char>) -> bool {
    ||| text == "-h"@ || text == "--help"@
    ||| text == "-d"@ || text == "--debug"@
    ||| text == "--with-notifications"@ || "--with-notifications="@.is_prefix_of(text)
    ||| text == "-c"@ || text == "--config-file"@ || "--config-file="@.is_prefix_of(text)
}

/// Any other argument is refused and shown, also one that is no text.
pub proof fn law_unknown_arguments_are_refused(
    arguments: Seq<Seq<u8>>,
    options: Options,
    text: Seq<char>,
)
    requires
        arguments.len() > 0,
    ensures
        is_argument(arguments[0], text) && !is_option(text) ==> command(arguments, options)
            == Err::<CliModel, Seq<char>>("unknown argument: "@ + text),
        !valid_utf8(arguments[0]) ==> command(arguments, options) == Err::<CliModel, Seq<char>>(
            "unknown argument: "@ + lossy_utf8(arguments[0]),
        ),
{
    if is_argument(arguments[0], text) {
        lemma_argument_text(arguments[0], text);
    }
}

/// The command line is read from its first argument on, before any option is set. What is run, or
/// what the refusal says, is as the arguments ask.
pub proof fn law_the_command_line_is_read_whole(
    arguments: Vec<Vec<u8>>,
    result: Result<CliAction, String>,
)
    requires
        call_ensures(parse_args, (arguments,), result),
    ensures
        ({
            let asked = command(
                arguments.deep_view(),
                Options { config_file: None, debug: false, with_notifications: None },
            );
            &&& result is Ok <==> asked is Ok
            &&& result matches Err(message) ==> asked == Err::<CliModel, Seq<char>>(message@)
            &&& result matches Ok(CliAction::Help) ==> asked == Ok::<CliModel, Seq<char>>(
                CliModel::Help,
            )
            &&& result matches Ok(CliAction::Run { config_file, debug, with_notifications }) ==> (
            asked matches Ok(
                CliModel::Run {
                    config_file: file,
                    debug: logs,
                    with_notifications: mode,
                },
            ) && debug == logs && with_notifications == mode && (config_file is Some <==> file
                is Some) && (config_file matches Some(path) ==> file == Some(path@)))
        }),
        arguments@.len() == 0 ==> result == Ok::<CliAction, String>(
            CliAction::Run { config_file: None, debug: false, with_notifications: None },
        ),
{
    if let Ok(CliAction::Run { config_file, debug, with_notifications }) = result {
        if let Some(path) = config_file {
            assert(path.deep_view() =~= path@);
            assert(config_file.deep_view() == Some(path.deep_view()));
        }
    }
    assert(arguments.deep_view().len() == arguments@.len());
}

/// The help text names the program and its version, and begins with both.
pub proof fn law_the_help_text(name: &str, version: &str, text: String)
    requires
        call_ensures(help_text, (name, version), text),
    ensures
        text@ == name@ + " "@ + version@ + "\n\nWayland clipboard tray applet\n\nUsage: "@ + name@
            + " [OPTIONS]\n\nOptions:\n  -c, --config-file <PATH>            Use this configuration file\n  -d, --debug                         Log clipboard actions to stderr\n      --with-notifications <MODE>     Notification mode: true, false, or all\n  -h, --help                          Show this help"@,
{
}

} // verus!
