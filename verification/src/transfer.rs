//! Reading both selections, and writing both so that a failure undoes what was written.
use crate::clipboard::{
    ClipboardRead, ClipboardType, CopyClipboardType, ReadModel, SwitchValue,
};
use crate::exchange::{outcome, Request, RequestModel};
use crate::text::{join2, join3, join4};
use vstd::prelude::*;

verus! {

/// Where a read of both selections stands.
#[derive(Debug, PartialEq, Eq)]
pub enum BothReads {
    /// The primary selection is being read.
    Primary,
    /// The regular selection is being read; the primary one gave this.
    Regular(ClipboardRead),
}

/// A read of both selections, with texts as character sequences.
pub enum BothReadsModel {
    Primary,
    Regular(ReadModel),
}

impl View for BothReads {
    type V = BothReadsModel;

    open spec fn view(&self) -> BothReadsModel {
        match self {
            BothReads::Primary => BothReadsModel::Primary,
            BothReads::Regular(primary) => BothReadsModel::Regular(primary@),
        }
    }
}

/// How far a read of both selections has come.
#[derive(Debug, PartialEq, Eq)]
pub enum BothProgress {
    Read(BothReads, ClipboardType),
    Finished(ClipboardRead, ClipboardRead),
}

/// Starts to read both selections, the primary one first.
pub fn read_both() -> (progress: BothProgress)
    ensures
        progress == BothProgress::Read(BothReads::Primary, ClipboardType::Primary),
{
    BothProgress::Read(BothReads::Primary, ClipboardType::Primary)
}

impl BothReads {
    /// Takes the read that was asked for. The regular selection is read whatever the primary one
    /// gave, and each read is kept as it is.
    pub fn resume(self, read: ClipboardRead) -> (progress: BothProgress)
        ensures
            match self {
                BothReads::Primary => progress == BothProgress::Read(
                    BothReads::Regular(read),
                    ClipboardType::Regular,
                ),
                BothReads::Regular(primary) => progress == BothProgress::Finished(primary, read),
            },
    {
        match self {
            Self::Primary => BothProgress::Read(Self::Regular(read), ClipboardType::Regular),
            Self::Regular(primary) => BothProgress::Finished(primary, read),
        }
    }
}

/// Where a write to both selections stands.
#[derive(Debug, PartialEq, Eq)]
pub enum PairWrite<T> {
    /// The primary selection is being written.
    Primary { regular: T, original_primary: T },
    /// The regular selection is being written.
    Regular { original_primary: T },
    /// The regular selection could not be written, and the primary one is being restored.
    Restoring { error: String },
}

/// A write to both selections, with texts as character sequences.
pub enum PairModel<V> {
    Primary { regular: V, original_primary: V },
    Regular { original_primary: V },
    Restoring { error: Seq<char> },
}

impl<T: DeepView> View for PairWrite<T> {
    type V = PairModel<T::V>;

    open spec fn view(&self) -> PairModel<T::V> {
        match self {
            PairWrite::Primary { regular, original_primary } => PairModel::Primary {
                regular: regular.deep_view(),
                original_primary: original_primary.deep_view(),
            },
            PairWrite::Regular { original_primary } => PairModel::Regular {
                original_primary: original_primary.deep_view(),
            },
            PairWrite::Restoring { error } => PairModel::Restoring { error: error@ },
        }
    }
}

/// How far a write to both selections has come.
#[derive(Debug, PartialEq, Eq)]
pub enum PairProgress<T> {
    Write(PairWrite<T>, CopyClipboardType, T),
    Finished(Result<(), String>),
}

/// Progress of a write to both selections, with texts as character sequences.
pub enum PairProgressModel<V> {
    Write(PairModel<V>, CopyClipboardType, V),
    Finished(Result<(), Seq<char>>),
}

impl<T: DeepView> View for PairProgress<T> {
    type V = PairProgressModel<T::V>;

    open spec fn view(&self) -> PairProgressModel<T::V> {
        match self {
            PairProgress::Write(state, selection, value) => PairProgressModel::Write(
                state@,
                *selection,
                value.deep_view(),
            ),
            PairProgress::Finished(result) => PairProgressModel::Finished(outcome(*result)),
        }
    }
}

/// The first step of writing both selections.
pub open spec fn pair_started<V>(primary: V, regular: V, original_primary: V) -> PairProgressModel<
    V,
> {
    PairProgressModel::Write(
        PairModel::Primary { regular, original_primary },
        CopyClipboardType::Primary,
        primary,
    )
}

/// What follows once a write succeeded or failed: after the primary selection comes the regular
/// one, and if that fails the primary one is given back its original value. The result is an
/// error unless both writes succeeded.
pub open spec fn pair_written<V>(
    state: PairModel<V>,
    result: Result<(), Seq<char>>,
) -> PairProgressModel<V> {
    match (state, result) {
        (PairModel::Primary { regular, original_primary }, Ok(())) => PairProgressModel::Write(
            PairModel::Regular { original_primary },
            CopyClipboardType::Regular,
            regular,
        ),
        (PairModel::Primary { .. }, Err(error)) => PairProgressModel::Finished(
            Err("could not write primary clipboard: "@ + error),
        ),
        (PairModel::Regular { .. }, Ok(())) => PairProgressModel::Finished(Ok(())),
        (PairModel::Regular { original_primary }, Err(error)) => PairProgressModel::Write(
            PairModel::Restoring { error },
            CopyClipboardType::Primary,
            original_primary,
        ),
        (PairModel::Restoring { error }, Ok(())) => PairProgressModel::Finished(
            Err("could not write regular clipboard: "@ + error + "; primary clipboard restored"@),
        ),
        (PairModel::Restoring { error }, Err(rollback_error)) => PairProgressModel::Finished(
            Err(
                "could not write regular clipboard: "@ + error
                    + "; could not restore primary clipboard: "@ + rollback_error,
            ),
        ),
    }
}

/// Starts to write `primary` and `regular` to the two selections, where `original_primary` is
/// what the primary selection is given back if the regular one cannot be written.
pub fn write_both_with_rollback<T: DeepView>(primary: T, regular: T, original_primary: T) -> (progress:
    PairProgress<T>)
    ensures
        progress == PairProgress::Write(
            PairWrite::Primary { regular, original_primary },
            CopyClipboardType::Primary,
            primary,
        ),
        progress@ == pair_started(
            primary.deep_view(),
            regular.deep_view(),
            original_primary.deep_view(),
        ),
{
    PairProgress::Write(
        PairWrite::Primary { regular, original_primary },
        CopyClipboardType::Primary,
        primary,
    )
}

impl<T: DeepView> PairWrite<T> {
    /// Takes the result of the write that was asked for.
    pub fn resume(self, result: Result<(), String>) -> (progress: PairProgress<T>)
        ensures
            progress@ == pair_written(self@, outcome(result)),
    {
        match self {
            Self::Primary { regular, original_primary } => match result {
                Ok(()) => PairProgress::Write(
                    Self::Regular { original_primary },
                    CopyClipboardType::Regular,
                    regular,
                ),
                Err(error) => PairProgress::Finished(
                    Err(join2("could not write primary clipboard: ", error.as_str())),
                ),
            },
            Self::Regular { original_primary } => match result {
                Ok(()) => PairProgress::Finished(Ok(())),
                Err(error) => PairProgress::Write(
                    Self::Restoring { error },
                    CopyClipboardType::Primary,
                    original_primary,
                ),
            },
            Self::Restoring { error } => match result {
                Ok(()) => PairProgress::Finished(
                    Err(
                        join3(
                            "could not write regular clipboard: ",
                            error.as_str(),
                            "; primary clipboard restored",
                        ),
                    ),
                ),
                Err(rollback_error) => PairProgress::Finished(
                    Err(
                        join4(
                            "could not write regular clipboard: ",
                            error.as_str(),
                            "; could not restore primary clipboard: ",
                            rollback_error.as_str(),
                        ),
                    ),
                ),
            },
        }
    }
}

/// The request that gives a selection a content: a write for a text, a clearing for no text.
pub open spec fn placement(selection: CopyClipboardType, value: Option<Seq<char>>) -> RequestModel {
    match value {
        Some(value) => RequestModel::Write(selection, value),
        None => RequestModel::Clear(selection),
    }
}

/// The request that gives a selection what it holds after an exchange.
pub fn write_switch_value(selection: CopyClipboardType, value: SwitchValue) -> (request: Request)
    ensures
        request@ == placement(selection, value@),
{
    match value {
        SwitchValue::Text(value) => Request::Write(selection, value),
        SwitchValue::Empty => Request::Clear(selection),
    }
}

/// The request that gives a selection a text, or clears it.
pub fn write_optional(selection: CopyClipboardType, value: Option<String>) -> (request: Request)
    ensures
        request@ == placement(selection, value.deep_view()),
{
    match value {
        Some(value) => Request::Write(selection, value),
        None => Request::Clear(selection),
    }
}

} // verus!
