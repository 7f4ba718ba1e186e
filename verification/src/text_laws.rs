//! What the operations on text, numbers, sizes and paths are for.
//!
//! A law that speaks of a call holds of every value that the call may return.
use crate::clipboard::ClipboardAction;
use crate::config::{load, load_from, parse, path, Config, ConfigSource, FileRead, LoadStep};
use crate::instance::{instance_lock_path, lock_contents, lock_failure, LockFailure};
use crate::path::below;
use crate::text::{
    after_prefix, blank, byte_count, byte_length, characters, decimal, decimal_text,
    escape_underscores, escaped, is_blank, is_white_space, join2, join3, join4,
    same_text, white_space,
};
use vstd::prelude::*;
use vstd::utf8::*;

verus! {

/// The number that a row of decimal digits stands for.
pub open spec fn numeral(digits: Seq<char>) -> int
    decreases digits.len(),
{
    if digits.len() == 0 {
        0
    } else {
        numeral(digits.drop_last()) * 10 + (digits.last() as int - 48)
    }
}

/// Whether a text is a number in decimal notation: digits only, and no zero in front of others.
pub open spec fn is_numeral(digits: Seq<char>) -> bool {
    &&& digits.len() > 0
    &&& forall|i: int| 0 <= i < digits.len() ==> 48 <= (#[trigger] digits[i]) as int <= 57
    &&& digits.len() > 1 ==> digits[0] != '0'
}

/// Decimal notation denotes the number that was written.
pub proof fn law_decimal_notation_denotes_the_number(value: nat)
    ensures
        is_numeral(decimal(value)),
        numeral(decimal(value)) == value,
        value > 0 ==> decimal(value)[0] != '0',
    decreases value,
{
    if value >= 10 {
        law_decimal_notation_denotes_the_number(value / 10);
        assert(decimal(value).drop_last() =~= decimal(value / 10));
        assert(decimal(value)[0] == decimal(value / 10)[0]);
    } else {
        assert(decimal(value).drop_last() =~= Seq::empty());
        assert(numeral(Seq::empty()) == 0);
    }
}

/// Writing a number in decimal notation gives a row of digits that denotes it.
pub proof fn law_numbers_are_written_in_decimal(value: u128, text: String)
    requires
        call_ensures(decimal_text, (value,), text),
    ensures
        is_numeral(text@),
        numeral(text@) == value,
{
    law_decimal_notation_denotes_the_number(value as nat);
}

/// Escaping works character by character: an underscore becomes two, anything else stays.
pub proof fn law_escaping_is_local(left: Seq<char>, right: Seq<char>, character: char)
    ensures
        escaped(left + right) == escaped(left) + escaped(right),
        escaped(seq![character]) == if character == '_' {
            seq!['_', '_']
        } else {
            seq![character]
        },
        escaped(Seq::empty()) == Seq::<char>::empty(),
    decreases right.len(),
{
    reveal_with_fuel(escaped, 2);
    assert(seq![character].drop_last() =~= Seq::empty());
    assert(escaped(seq![character]) =~= if character == '_' {
        seq!['_', '_']
    } else {
        seq![character]
    });
    if right.len() == 0 {
        assert(left + right =~= left);
    } else {
        law_escaping_is_local(left, right.drop_last(), character);
        assert((left + right).drop_last() =~= left + right.drop_last());
        assert(escaped(left + right) =~= escaped(left) + escaped(right));
    }
}

/// Escaping a text escapes it and nothing else.
pub proof fn law_escaping_is_done_by_the_call(text: &str, result: String)
    requires
        call_ensures(escape_underscores, (text,), result),
    ensures
        result@ == escaped(text@),
        result@.len() >= text@.len(),
        (forall|i: int| 0 <= i < text@.len() ==> text@[i] != '_') ==> result@ == text@,
{
    lemma_escaping_keeps_the_rest(text@);
}

proof fn lemma_escaping_keeps_the_rest(text: Seq<char>)
    ensures
        escaped(text).len() >= text.len(),
        (forall|i: int| 0 <= i < text.len() ==> text[i] != '_') ==> escaped(text) == text,
    decreases text.len(),
{
    if text.len() > 0 {
        let shorter = text.drop_last();
        lemma_escaping_keeps_the_rest(shorter);
        if forall|i: int| 0 <= i < text.len() ==> text[i] != '_' {
            assert forall|i: int| 0 <= i < shorter.len() implies shorter[i] != '_' by {
                assert(shorter[i] == text[i]);
            }
            assert(text[text.len() - 1] != '_');
            assert(shorter.push(text.last()) =~= text);
        }
    }
}

/// A text is blank exactly if each of its characters is white space, wherever it stands.
pub proof fn law_blank_texts_are_white_space(text: &str, result: bool)
    requires
        call_ensures(is_blank, (text,), result),
    ensures
        result <==> forall|i: int| 0 <= i < text@.len() ==> white_space(#[trigger] text@[i]),
{
}

/// Joining two texts gives a blank one exactly if both are.
pub proof fn law_blankness_is_local(left: Seq<char>, right: Seq<char>)
    ensures
        blank(left + right) <==> blank(left) && blank(right),
{
    if blank(left + right) {
        assert forall|i: int| 0 <= i < left.len() implies white_space(#[trigger] left[i]) by {
            assert((left + right)[i] == left[i]);
        }
        assert forall|i: int| 0 <= i < right.len() implies white_space(#[trigger] right[i]) by {
            assert((left + right)[left.len() + i] == right[i]);
        }
    }
}

/// Sizes are counted in bytes of UTF-8.
pub proof fn law_sizes_are_counted_in_bytes(text: &str, length: usize)
    requires
        call_ensures(byte_count, (text,), length),
    ensures
        length == encode_utf8(text@).len(),
        byte_length(text@) == encode_utf8(text@).len(),
{
}

/// Comparing, splitting and joining texts looks at every character.
pub proof fn law_texts_are_handled_whole(
    first: &str,
    second: &str,
    third: &str,
    fourth: &str,
    same: bool,
    all: Vec<char>,
    rest: Option<String>,
    two: String,
    three: String,
    four: String,
)
    requires
        call_ensures(same_text, (first, second), same),
        call_ensures(characters, (first,), all),
        call_ensures(after_prefix, (first, second), rest),
        call_ensures(join2, (first, second), two),
        call_ensures(join3, (first, second, third), three),
        call_ensures(join4, (first, second, third, fourth), four),
    ensures
        same <==> first@ == second@,
        all@ == first@,
        rest is Some <==> first@.len() >= second@.len() && first@.take(second@.len() as int)
            == second@,
        rest matches Some(rest) ==> first@ == second@ + rest@,
        two@ == first@ + second@,
        three@ == first@ + second@ + third@,
        four@ == first@ + second@ + third@ + fourth@,
{
}

/// A directory with one separator at its end, unless it is empty.
pub open spec fn with_separator(directory: Seq<u8>) -> Seq<u8> {
    if directory.len() > 0 && directory.last() != 0x2f {
        directory.push(0x2f)
    } else {
        directory
    }
}

/// A path below a directory is the directory and the rest, with one separator between them.
pub proof fn law_paths_are_joined_by_one_separator(directory: Seq<u8>, relative: Seq<char>)
    ensures
        below(directory, relative) == with_separator(directory) + encode_utf8(relative),
{
}

/// The configuration file is below the configuration directory, or else below the home directory.
pub proof fn law_where_the_configuration_is(
    xdg_config_home: Option<Vec<u8>>,
    home: Option<Vec<u8>>,
    found: Option<Vec<u8>>,
)
    requires
        call_ensures(path, (xdg_config_home, home), found),
    ensures
        xdg_config_home matches Some(directory) ==> (found matches Some(file) && file@
            == with_separator(directory@) + encode_utf8("clipboard-applet/config.toml"@)),
        xdg_config_home is None ==> (home matches Some(directory) ==> (found matches Some(file)
            && file@ == with_separator(with_separator(directory@) + encode_utf8(".config"@))
            + encode_utf8("clipboard-applet/config.toml"@))),
        xdg_config_home is None && home is None ==> found is None,
{
}

/// The file that was asked for is used as it is and must exist; the default one may be missing.
pub proof fn law_which_configuration_is_loaded(
    config_file: Option<Vec<u8>>,
    xdg_config_home: Option<Vec<u8>>,
    home: Option<Vec<u8>>,
    source: ConfigSource,
)
    requires
        call_ensures(load, (config_file, xdg_config_home, home), source),
    ensures
        config_file matches Some(asked) ==> (source matches ConfigSource::File {
            path,
            use_default_if_missing,
        } && path == asked && !use_default_if_missing),
        config_file is None ==> (xdg_config_home matches Some(directory) ==> (
        source matches ConfigSource::File { path, use_default_if_missing } && path@
            == with_separator(directory@) + encode_utf8("clipboard-applet/config.toml"@)
            && use_default_if_missing)),
        config_file is None && xdg_config_home is None ==> (home matches Some(directory) ==> (
        source matches ConfigSource::File { path, use_default_if_missing } && path@
            == with_separator(with_separator(directory@) + encode_utf8(".config"@)) + encode_utf8(
            "clipboard-applet/config.toml"@,
        ) && use_default_if_missing)),
        config_file is None && xdg_config_home is None && home is None ==> source
            == ConfigSource::Defaults,
{
}

/// A file that was read is parsed as it is; only a missing file that may be missing is forgiven.
pub proof fn law_only_missing_default_files_are_forgiven(
    read: FileRead,
    use_default_if_missing: bool,
    path: &str,
    step: LoadStep,
)
    requires
        call_ensures(load_from, (read, use_default_if_missing, path), step),
    ensures
        read matches FileRead::Contents(contents) ==> step == LoadStep::Parse(contents),
        step is Defaults <==> use_default_if_missing && (read matches FileRead::Failed {
            not_found,
            ..
        } && not_found),
        step matches LoadStep::Fail(message) ==> (read matches FileRead::Failed { error, .. }
            && message@ == path@ + ": "@ + error@),
{
}

/// Whether some character of a text is not white space.
pub open spec fn says_something(text: Seq<char>) -> bool {
    exists|i: int| 0 <= i < text.len() && !white_space(#[trigger] text[i])
}

/// A configuration is accepted, as it is, exactly if it polls at some interval, names an icon,
/// names an editor if it has one, and lets the stack hold between 1 and 16 entries. Otherwise the
/// first of these that fails is reported.
pub proof fn law_which_configurations_are_accepted(
    config: Config,
    path: &str,
    result: Result<Config, String>,
)
    requires
        call_ensures(parse, (Ok::<Config, String>(config), path), result),
    ensures
        result is Ok <==> {
            &&& config.polling_period_ms > 0
            &&& says_something(config.icon_name@)
            &&& config.editor@.len() == 0 || says_something(config.editor@[0]@)
            &&& 1 <= config.stack_size
            &&& config.stack_size <= 16
        },
        result matches Ok(accepted) ==> accepted == config,
        result matches Err(message) ==> message@ == path@ + ": "@ + if config.polling_period_ms
            == 0 {
            "polling_period_ms must be greater than zero"@
        } else if !says_something(config.icon_name@) {
            "icon_name must not be empty"@
        } else if config.editor@.len() > 0 && !says_something(config.editor@[0]@) {
            "editor program must not be empty"@
        } else {
            "stack_size must be between 1 and 16"@
        },
        config.valid() <==> result is Ok,
{
}

/// A configuration that cannot be parsed is refused for the parser's reason.
pub proof fn law_unparsed_configurations_are_refused(
    error: String,
    path: &str,
    result: Result<Config, String>,
)
    requires
        call_ensures(parse, (Err::<Config, String>(error), path), result),
    ensures
        result matches Err(message) && message@ == path@ + ": "@ + error@,
{
}

/// The lock file is in the session's runtime directory, which must be set and not empty.
pub proof fn law_where_the_lock_is(
    runtime_dir: Option<Vec<u8>>,
    result: Result<Vec<u8>, String>,
)
    requires
        call_ensures(instance_lock_path, (runtime_dir,), result),
    ensures
        result is Ok <==> (runtime_dir matches Some(directory) && directory@.len() > 0),
        result matches Ok(path) ==> (runtime_dir matches Some(directory) && path@
            == with_separator(directory@) + encode_utf8("clipboard-applet.lock"@)),
        result matches Err(message) ==> message@ == "XDG_RUNTIME_DIR is not set"@,
{
}

/// The lock file holds the number of the process, and a lock that is held names the program.
pub proof fn law_what_the_lock_says(
    process: u32,
    contents: String,
    failure: LockFailure,
    program: &str,
    path: &str,
    message: String,
)
    requires
        call_ensures(lock_contents, (process,), contents),
        call_ensures(lock_failure, (failure, program, path), message),
    ensures
        contents@.len() > 0 && contents@.last() == '\n',
        is_numeral(contents@.drop_last()) && numeral(contents@.drop_last()) == process,
        failure is Held ==> message@ == program@
            + " is already running for this session (lock: "@ + path@ + ")"@,
        failure matches LockFailure::Open(error) ==> message@ == "failed to open instance lock "@
            + path@ + ": "@ + error@,
        failure matches LockFailure::Lock(error) ==> message@ == "failed to lock "@ + path@ + ": "@
            + error@,
        failure matches LockFailure::Write(error) ==> message@ == "failed to write instance lock "@
            + path@ + ": "@ + error@,
{
    law_decimal_notation_denotes_the_number(process as nat);
    reveal_strlit("\n");
    assert(contents@.drop_last() =~= decimal(process as nat));
}

/// White space is the tab, the line breaks, the space, the no-break spaces and the spaces of
/// other widths; no other character is.
pub proof fn law_which_characters_are_white_space(character: char, result: bool)
    requires
        call_ensures(is_white_space, (character,), result),
    ensures
        result <==> {
            ||| character == '\t' || character == '\n' || character == '\u{b}'
            ||| character == '\u{c}' || character == '\r' || character == ' '
            ||| character == '\u{85}' || character == '\u{a0}' || character == '\u{1680}'
            ||| '\u{2000}' <= character && character <= '\u{200a}'
            ||| character == '\u{2028}' || character == '\u{2029}'
            ||| character == '\u{202f}' || character == '\u{205f}' || character == '\u{3000}'
        },
        result <==> white_space(character),
{
}

/// Unless told otherwise, the applet awaits events, shows contents, sends nothing, has no editor,
/// and stacks up to sixteen entries. That configuration is accepted.
pub proof fn law_the_default_configuration(
    config: Config,
    path: &str,
    result: Result<Config, String>,
)
    requires
        call_ensures(Config::default, (), config),
        call_ensures(parse, (Ok::<Config, String>(config), path), result),
    ensures
        config.update_method is Events,
        config.polling_period_ms == 1000,
        !config.hide_content,
        !config.notifications,
        !config.notify_on_change,
        config.icon_name@ == "edit-paste"@,
        config.editor@.len() == 0,
        config.stack_size == 16,
        config.left_click == ClipboardAction::CopyPrimary,
        config.middle_click == ClipboardAction::Switch,
        result == Ok::<Config, String>(config),
{
}

} // verus!
