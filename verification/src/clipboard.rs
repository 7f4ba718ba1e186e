//! The two Wayland selections: what can be read from them and what is done with it.
use crate::text::{decimal, decimal_text, join2, join4};
use vstd::prelude::*;
use vstd::string::*;
use vstd::utf8::*;

verus! {

/// What a mouse click or a menu item does to the selections.
#[derive(Clone, Copy, Debug, PartialEq, Eq, Structural)]
pub enum ClipboardAction {
    /// Copy the regular selection to the primary one.
    CopyRegular,
    /// Copy the primary selection to the regular one.
    CopyPrimary,
    /// Clear both selections.
    Reset,
    /// Exchange the two selections.
    Switch,
}

impl ClipboardAction {
    /// The name of the action in configuration files and logs.
    pub fn name(self) -> (name: &'static str)
        ensures
            name@ == action_name(self),
    {
        match self {
            Self::CopyRegular => "COPY_REGULAR",
            Self::CopyPrimary => "COPY_PRIMARY",
            Self::Reset => "RESET",
            Self::Switch => "SWITCH",
        }
    }
}

/// The name of an action in configuration files and logs.
pub open spec fn action_name(action: ClipboardAction) -> Seq<char> {
    match action {
        ClipboardAction::CopyRegular => "COPY_REGULAR"@,
        ClipboardAction::CopyPrimary => "COPY_PRIMARY"@,
        ClipboardAction::Reset => "RESET"@,
        ClipboardAction::Switch => "SWITCH"@,
    }
}

/// Where an action was asked for.
#[derive(Clone, Copy, Debug, PartialEq, Eq, Structural)]
pub enum ActionSource {
    LeftClick,
    MiddleClick,
    Menu,
}

/// An action and where it was asked for.
#[derive(Clone, Copy, Debug, PartialEq, Eq, Structural)]
pub struct ActionRequest {
    pub action: ClipboardAction,
    pub source: ActionSource,
}

/// The selection that a menu item clears.
#[derive(Clone, Copy, Debug, PartialEq, Eq, Structural)]
pub enum ClearTarget {
    Primary,
    Regular,
}

/// A selection to read from.
#[derive(Clone, Copy, Debug, PartialEq, Eq, Structural)]
pub enum ClipboardType {
    Primary,
    Regular,
}

/// A selection, or both, to write to.
#[derive(Clone, Copy, Debug, PartialEq, Eq, Structural)]
pub enum CopyClipboardType {
    Primary,
    Regular,
    Both,
}

/// Bounds on one read of a selection.
#[derive(Clone, Copy, Debug, PartialEq, Eq, Structural)]
pub struct ReadLimits {
    /// The most bytes that a selection may hold.
    pub max_bytes: u64,
    /// How long the owner of the selection may take to deliver it, in nanoseconds.
    pub timeout: u128,
}

/// What one read of a selection found.
#[derive(Debug, PartialEq, Eq)]
pub enum ClipboardRead {
    Text(String),
    Empty,
    NonText,
    Unsupported,
    Oversized { limit: u64 },
    Error(String),
}

/// A read of a selection, with texts as character sequences.
pub enum ReadModel {
    Text(Seq<char>),
    Empty,
    NonText,
    Unsupported,
    Oversized { limit: u64 },
    Error(Seq<char>),
}

impl View for ClipboardRead {
    type V = ReadModel;

    open spec fn view(&self) -> ReadModel {
        match self {
            ClipboardRead::Text(value) => ReadModel::Text(value@),
            ClipboardRead::Empty => ReadModel::Empty,
            ClipboardRead::NonText => ReadModel::NonText,
            ClipboardRead::Unsupported => ReadModel::Unsupported,
            ClipboardRead::Oversized { limit } => ReadModel::Oversized { limit: *limit },
            ClipboardRead::Error(error) => ReadModel::Error(error@),
        }
    }
}

impl Clone for ClipboardRead {
    fn clone(&self) -> (copy: Self)
        ensures
            copy == *self,
    {
        match self {
            Self::Text(value) => Self::Text(value.clone()),
            Self::Empty => Self::Empty,
            Self::NonText => Self::NonText,
            Self::Unsupported => Self::Unsupported,
            Self::Oversized { limit } => Self::Oversized { limit: *limit },
            Self::Error(error) => Self::Error(error.clone()),
        }
    }
}

/// What a selection holds while the two are exchanged.
#[derive(Debug, PartialEq, Eq)]
pub enum SwitchValue {
    Text(String),
    Empty,
}

impl View for SwitchValue {
    type V = Option<Seq<char>>;

    open spec fn view(&self) -> Option<Seq<char>> {
        match self {
            SwitchValue::Text(value) => Some(value@),
            SwitchValue::Empty => None,
        }
    }
}

impl DeepView for SwitchValue {
    type V = Option<Seq<char>>;

    open spec fn deep_view(&self) -> Option<Seq<char>> {
        self@
    }
}

impl Clone for SwitchValue {
    fn clone(&self) -> (copy: Self)
        ensures
            copy == *self,
    {
        match self {
            Self::Text(value) => Self::Text(value.clone()),
            Self::Empty => Self::Empty,
        }
    }
}

impl ReadModel {
    /// The name of the state that a read found.
    pub open spec fn state_name(self) -> Seq<char> {
        match self {
            ReadModel::Text(_) => "Text"@,
            ReadModel::Empty => "Empty"@,
            ReadModel::NonText => "NonText"@,
            ReadModel::Unsupported => "Unsupported"@,
            ReadModel::Oversized { .. } => "Oversized"@,
            ReadModel::Error(_) => "Error"@,
        }
    }

    /// The number of characters of the text that was read, 0 without a text.
    pub open spec fn length(self) -> nat {
        match self {
            ReadModel::Text(value) => value.len(),
            _ => 0,
        }
    }

    /// The text that a read confirmed, where an empty selection counts as no text.
    pub open spec fn content(self) -> Option<Option<Seq<char>>> {
        match self {
            ReadModel::Text(value) => Some(Some(value)),
            ReadModel::Empty => Some(None),
            _ => None,
        }
    }

    /// Why a read of the selection called `source` gave no text.
    pub open spec fn refusal(self, source: Seq<char>) -> Seq<char> {
        match self {
            ReadModel::Text(_) => Seq::empty(),
            ReadModel::Empty => source + " clipboard is empty"@,
            ReadModel::NonText => source + " clipboard does not contain text"@,
            ReadModel::Unsupported => source + " clipboard is unsupported"@,
            ReadModel::Oversized { limit } => source + " clipboard exceeds the configured "@
                + decimal(limit as nat) + "-byte limit"@,
            ReadModel::Error(error) => "could not read "@ + source + " clipboard: "@ + error,
        }
    }
}

impl ClipboardRead {
    /// The name of the state that a read found.
    pub fn state(&self) -> (name: &'static str)
        ensures
            name@ == self@.state_name(),
    {
        match self {
            Self::Text(_) => "Text",
            Self::Empty => "Empty",
            Self::NonText => "NonText",
            Self::Unsupported => "Unsupported",
            Self::Oversized { .. } => "Oversized",
            Self::Error(_) => "Error",
        }
    }

    /// The number of characters of the text that was read, 0 without a text.
    pub fn text_length(&self) -> (length: usize)
        ensures
            length == self@.length(),
    {
        match self {
            Self::Text(value) => value.as_str().unicode_len(),
            _ => 0,
        }
    }

    /// What the read tells about the selection's content: nothing, unless it found a text or
    /// an empty selection.
    pub fn observation(&self) -> (observation: Option<Option<String>>)
        ensures
            observation.deep_view() == self@.content(),
    {
        match self {
            Self::Text(value) => Some(Some(value.clone())),
            Self::Empty => Some(None),
            Self::NonText | Self::Unsupported | Self::Oversized { .. } | Self::Error(_) => None,
        }
    }

    fn refusal_text(&self, source: &str) -> (message: String)
        requires
            !(self is Text),
        ensures
            message@ == self@.refusal(source@),
    {
        match self {
            Self::Text(_) | Self::Empty => join2(source, " clipboard is empty"),
            Self::NonText => join2(source, " clipboard does not contain text"),
            Self::Unsupported => join2(source, " clipboard is unsupported"),
            Self::Oversized { limit } => join4(
                source,
                " clipboard exceeds the configured ",
                decimal_text(*limit as u128).as_str(),
                "-byte limit",
            ),
            Self::Error(error) => join4("could not read ", source, " clipboard: ", error.as_str()),
        }
    }

    /// The text that was read from the selection called `source`, or why there is none.
    pub fn into_text(self, source: &str) -> (result: Result<String, String>)
        ensures
            match self {
                ClipboardRead::Text(value) => result == Ok::<String, String>(value),
                _ => result matches Err(message) && message@ == self@.refusal(source@),
            },
    {
        match self {
            Self::Text(value) => Ok(value),
            other => Err(other.refusal_text(source)),
        }
    }

    /// What the selection called `source` holds for an exchange, or why it cannot take part in
    /// one.
    pub fn into_switch_value(self, source: &str) -> (result: Result<SwitchValue, String>)
        ensures
            match self {
                ClipboardRead::Text(value) => result == Ok::<SwitchValue, String>(
                    SwitchValue::Text(value),
                ),
                ClipboardRead::Empty => result == Ok::<SwitchValue, String>(SwitchValue::Empty),
                _ => result matches Err(message) && message@ == self@.refusal(source@),
            },
    {
        match self {
            Self::Text(value) => Ok(SwitchValue::Text(value)),
            Self::Empty => Ok(SwitchValue::Empty),
            other => Err(other.refusal_text(source)),
        }
    }

    /// The text that an editor starts from, or why there is none.
    pub fn into_editable(self, source: &str) -> (result: Result<String, String>)
        ensures
            match self {
                ClipboardRead::Text(value) => result == Ok::<String, String>(value),
                _ => result matches Err(message) && message@ == self@.refusal(source@),
            },
    {
        self.into_text(source)
    }
}

/// Why the compositor did not hand over a selection.
#[derive(Debug, PartialEq, Eq)]
pub enum PasteError {
    ClipboardEmpty,
    NoMimeType,
    PrimarySelectionUnsupported,
    Other(String),
}

/// How far one attempt to receive a selection came.
#[derive(Debug, PartialEq, Eq)]
pub enum Reception {
    /// The selection was not handed over.
    Refused(PasteError),
    /// It was handed over, but could not be read under a deadline.
    Unprepared(String),
    /// It was read to the end, or the reading failed.
    Contents(Result<Vec<u8>, String>),
}

/// The most bytes that are received of a selection: one more than it may hold, so that a longer
/// one is noticed.
pub open spec fn receive_limit(max_bytes: u64) -> int {
    if max_bytes == u64::MAX {
        u64::MAX as int
    } else {
        max_bytes + 1
    }
}

/// The number of bytes to receive of a selection that may hold `max_bytes`.
pub fn bytes_to_receive(max_bytes: u64) -> (limit: u64)
    ensures
        limit == receive_limit(max_bytes),
{
    max_bytes.saturating_add(1)
}

/// What received bytes are as a read: a text only within the limit and in valid UTF-8.
pub open spec fn decoded(bytes: Seq<u8>, max_bytes: u64) -> ReadModel {
    if bytes.len() > max_bytes {
        ReadModel::Oversized { limit: max_bytes }
    } else if valid_utf8(bytes) {
        ReadModel::Text(decode_utf8(bytes))
    } else {
        ReadModel::NonText
    }
}

/// Turns what was received of a selection into a read.
///
/// A text MIME type does not promise UTF-8. Bytes that are not valid UTF-8 are refused rather
/// than repaired, so that no mangled text is ever written back over the original.
pub fn read_text(received: Result<Vec<u8>, String>, max_bytes: u64) -> (read: ClipboardRead)
    ensures
        match received {
            Ok(bytes) => read@ == decoded(bytes@, max_bytes),
            Err(error) => read@ == ReadModel::Error("could not receive contents: "@ + error@),
        },
{
    match received {
        Ok(bytes) => {
            if bytes.len() as u64 > max_bytes {
                return ClipboardRead::Oversized { limit: max_bytes };
            }
            match String::from_utf8(bytes) {
                Ok(value) => {
                    proof {
                        encode_utf8_decode_utf8(value@);
                    }
                    ClipboardRead::Text(value)
                },
                Err(_) => ClipboardRead::NonText,
            }
        },
        Err(error) => ClipboardRead::Error(join2("could not receive contents: ", error.as_str())),
    }
}

/// Turns one attempt to receive a selection into a read.
pub fn read(reception: Reception, max_bytes: u64) -> (read: ClipboardRead)
    ensures
        read@ == (match reception {
            Reception::Refused(PasteError::ClipboardEmpty) => ReadModel::Empty,
            Reception::Refused(PasteError::NoMimeType) => ReadModel::NonText,
            Reception::Refused(PasteError::PrimarySelectionUnsupported) => ReadModel::Unsupported,
            Reception::Refused(PasteError::Other(error)) => ReadModel::Error(error@),
            Reception::Unprepared(error) => ReadModel::Error(
                "could not prepare clipboard reader: "@ + error@,
            ),
            Reception::Contents(Ok(bytes)) => decoded(bytes@, max_bytes),
            Reception::Contents(Err(error)) => ReadModel::Error(
                "could not receive contents: "@ + error@,
            ),
        }),
{
    match reception {
        Reception::Refused(PasteError::ClipboardEmpty) => ClipboardRead::Empty,
        Reception::Refused(PasteError::NoMimeType) => ClipboardRead::NonText,
        Reception::Refused(PasteError::PrimarySelectionUnsupported) => ClipboardRead::Unsupported,
        Reception::Refused(PasteError::Other(error)) => ClipboardRead::Error(error),
        Reception::Unprepared(error) => ClipboardRead::Error(
            join2("could not prepare clipboard reader: ", error.as_str()),
        ),
        Reception::Contents(received) => read_text(received, max_bytes),
    }
}

} // verus!
