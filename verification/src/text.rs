//! Operations on text that the rest of the library is built from.
use vstd::prelude::*;
use vstd::string::*;
use vstd::utf8::*;

verus! {

/// Appends one character at the end (`String::push`).
pub assume_specification[ std::string::String::push ](text: &mut String, character: char)
    ensures
        final(text)@ == old(text)@.push(character),
;

/// The error of `String::from_utf8`; nothing inside it is read.
#[verifier::external_type_specification]
#[verifier::external_body]
pub struct ExFromUtf8Error(std::string::FromUtf8Error);

/// Bytes become text exactly when they are valid UTF-8, and then the text's own encoding is
/// those bytes (`String::from_utf8`).
pub assume_specification[ std::string::String::from_utf8 ](bytes: Vec<u8>) -> (result: Result<
    String,
    std::string::FromUtf8Error,
>)
    ensures
        result is Ok <==> valid_utf8(bytes@),
        result matches Ok(text) ==> encode_utf8(text@) == bytes@,
;

/// What `String::from_utf8_lossy` makes of a byte string.
pub uninterp spec fn lossy_utf8(bytes: Seq<u8>) -> Seq<char>;

/// Decodes bytes for display (`String::from_utf8_lossy`). Valid UTF-8 is decoded as it is; the
/// text shown for anything else is left to the standard library.
#[verifier::external_body]
pub(crate) fn lossy_text(bytes: &[u8]) -> (text: String)
    ensures
        text@ == lossy_utf8(bytes@),
        valid_utf8(bytes@) ==> text@ == decode_utf8(bytes@),
{
    String::from_utf8_lossy(bytes).into_owned()
}

/// What the `Debug` formatting of a string writes.
pub uninterp spec fn debug_quoted(text: Seq<char>) -> Seq<char>;

/// Quotes and escapes text as its `Debug` formatting does (`format!` with `{:?}`).
#[verifier::external_body]
pub(crate) fn debug_text(text: &str) -> (quoted: String)
    ensures
        quoted@ == debug_quoted(text@),
{
    format!("{:?}", text)
}

/// The number of bytes that text takes in UTF-8.
pub open spec fn byte_length(text: Seq<char>) -> nat {
    encode_utf8(text).len()
}

/// The number of bytes that `text` takes in UTF-8.
pub fn byte_count(text: &str) -> (length: usize)
    ensures
        length == byte_length(text@),
{
    text.as_bytes().len()
}

/// One decimal digit as a character.
pub open spec fn digit(value: nat) -> char {
    if value == 0 {
        '0'
    } else if value == 1 {
        '1'
    } else if value == 2 {
        '2'
    } else if value == 3 {
        '3'
    } else if value == 4 {
        '4'
    } else if value == 5 {
        '5'
    } else if value == 6 {
        '6'
    } else if value == 7 {
        '7'
    } else if value == 8 {
        '8'
    } else {
        '9'
    }
}

/// A number in decimal notation, without leading zeros.
pub open spec fn decimal(value: nat) -> Seq<char>
    decreases value,
{
    if value < 10 {
        seq![digit(value)]
    } else {
        decimal(value / 10).push(digit(value % 10))
    }
}

fn digit_char(value: u128) -> (character: char)
    requires
        value < 10,
    ensures
        character == digit(value as nat),
{
    if value == 0 {
        '0'
    } else if value == 1 {
        '1'
    } else if value == 2 {
        '2'
    } else if value == 3 {
        '3'
    } else if value == 4 {
        '4'
    } else if value == 5 {
        '5'
    } else if value == 6 {
        '6'
    } else if value == 7 {
        '7'
    } else if value == 8 {
        '8'
    } else {
        '9'
    }
}

/// Writes a number in decimal notation.
pub fn decimal_text(value: u128) -> (text: String)
    ensures
        text@ == decimal(value as nat),
    decreases value,
{
    if value < 10 {
        let mut text = String::new();
        text.push(digit_char(value));
        text
    } else {
        let mut text = decimal_text(value / 10);
        text.push(digit_char(value % 10));
        text
    }
}

/// The characters of `text`, in order.
pub fn characters(text: &str) -> (characters: Vec<char>)
    ensures
        characters@ == text@,
{
    let mut characters: Vec<char> = Vec::new();
    for character in iter: text.chars()
        invariant
            characters@ == text@.take(iter.index() as int),
            iter.seq() == text@,
    {
        characters.push(character);
    }
    characters
}

/// Whether two texts are the same.
pub fn same_text(left: &str, right: &str) -> (same: bool)
    ensures
        same == (left@ == right@),
{
    left.to_owned() == right.to_owned()
}

/// Two texts, one after the other.
pub fn join2(first: &str, second: &str) -> (text: String)
    ensures
        text@ == first@ + second@,
{
    let mut text = first.to_owned();
    text.append(second);
    text
}

/// Three texts, one after the other.
pub fn join3(first: &str, second: &str, third: &str) -> (text: String)
    ensures
        text@ == first@ + second@ + third@,
{
    let mut text = join2(first, second);
    text.append(third);
    text
}

/// Four texts, one after the other.
pub fn join4(first: &str, second: &str, third: &str, fourth: &str) -> (text: String)
    ensures
        text@ == first@ + second@ + third@ + fourth@,
{
    let mut text = join3(first, second, third);
    text.append(fourth);
    text
}

/// What follows `prefix` in `text`, if `text` starts with it.
pub fn after_prefix(text: &str, prefix: &str) -> (rest: Option<String>)
    ensures
        rest is Some <==> prefix@.is_prefix_of(text@),
        rest matches Some(rest) ==> text@ == prefix@ + rest@,
{
    let length: usize = text.unicode_len();
    let prefix_length: usize = prefix.unicode_len();
    if length < prefix_length {
        return None;
    }
    let head = text.substring_char(0, prefix_length);
    if !same_text(head, prefix) {
        assert(!(prefix@ =~= text@.subrange(0, prefix@.len() as int)));
        return None;
    }
    let rest = text.substring_char(prefix_length, length);
    assert(text@ == prefix@ + rest@);
    Some(rest.to_owned())
}

/// Whether a character has the Unicode `White_Space` property.
pub open spec fn white_space(character: char) -> bool {
    let code = character as u32;
    ||| 0x9 <= code <= 0xd
    ||| code == 0x20
    ||| code == 0x85
    ||| code == 0xa0
    ||| code == 0x1680
    ||| 0x2000 <= code <= 0x200a
    ||| code == 0x2028
    ||| code == 0x2029
    ||| code == 0x202f
    ||| code == 0x205f
    ||| code == 0x3000
}

/// Whether `character` has the Unicode `White_Space` property.
pub fn is_white_space(character: char) -> (result: bool)
    ensures
        result == white_space(character),
{
    let code: u32 = character as u32;
    (0x9 <= code && code <= 0xd) || code == 0x20 || code == 0x85 || code == 0xa0 || code == 0x1680
        || (0x2000 <= code && code <= 0x200a) || code == 0x2028 || code == 0x2029 || code == 0x202f
        || code == 0x205f || code == 0x3000
}

/// Whether nothing of a text is left once white space is trimmed from its ends.
pub open spec fn blank(text: Seq<char>) -> bool {
    forall|i: int| 0 <= i < text.len() ==> white_space(#[trigger] text[i])
}

/// Whether `text` is empty or holds nothing but white space.
pub fn is_blank(text: &str) -> (result: bool)
    ensures
        result == blank(text@),
{
    let characters = characters(text);
    let mut index: usize = 0;
    while index < characters.len()
        invariant
            characters@ == text@,
            index <= characters.len(),
            forall|i: int| 0 <= i < index ==> white_space(#[trigger] text@[i]),
        decreases characters.len() - index,
    {
        if !is_white_space(characters[index]) {
            assert(!white_space(text@[index as int]));
            return false;
        }
        index += 1;
    }
    true
}

/// A text with every underscore doubled, so that a menu shows it instead of reading it as an
/// access key.
pub open spec fn escaped(text: Seq<char>) -> Seq<char>
    decreases text.len(),
{
    if text.len() == 0 {
        Seq::empty()
    } else if text.last() == '_' {
        escaped(text.drop_last()).push('_').push('_')
    } else {
        escaped(text.drop_last()).push(text.last())
    }
}

/// Doubles every underscore of `text`.
pub fn escape_underscores(text: &str) -> (result: String)
    ensures
        result@ == escaped(text@),
{
    let text = characters(text);
    let mut result = String::new();
    let mut index: usize = 0;
    while index < text.len()
        invariant
            index <= text.len(),
            result@ == escaped(text@.take(index as int)),
        decreases text.len() - index,
    {
        let character = text[index];
        proof {
            let longer = text@.take(index + 1);
            assert(longer.drop_last() == text@.take(index as int));
            assert(longer.last() == character);
        }
        result.push(character);
        if character == '_' {
            result.push('_');
        }
        index += 1;
    }
    assert(text@.take(text@.len() as int) == text@);
    result
}

} // verus!
