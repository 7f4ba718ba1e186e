//! The conversation between a decision procedure and the desktop that carries out its requests.
//!
//! A procedure never touches a selection itself. It asks for one thing at a time and is resumed
//! with the reply, until it finishes.
use crate::clipboard::{ClipboardRead, ClipboardType, CopyClipboardType, ReadModel};
use crate::notification::{send_if_enabled, Notice};
use vstd::prelude::*;

verus! {

/// One thing that a procedure asks the desktop for.
#[derive(Debug, PartialEq, Eq)]
pub enum Request {
    /// Read a selection.
    Read(ClipboardType),
    /// Make a text the content of a selection.
    Write(CopyClipboardType, String),
    /// Clear a selection, or both.
    Clear(CopyClipboardType),
    /// Send a notification.
    Notify(Notice),
}

/// A request, with its text as a character sequence.
pub enum RequestModel {
    Read(ClipboardType),
    Write(CopyClipboardType, Seq<char>),
    Clear(CopyClipboardType),
    Notify(Notice),
}

impl View for Request {
    type V = RequestModel;

    open spec fn view(&self) -> RequestModel {
        match self {
            Request::Read(selection) => RequestModel::Read(*selection),
            Request::Write(selection, value) => RequestModel::Write(*selection, value@),
            Request::Clear(selection) => RequestModel::Clear(*selection),
            Request::Notify(notice) => RequestModel::Notify(*notice),
        }
    }
}

/// The desktop's reply to a request.
#[derive(Debug, PartialEq, Eq)]
pub enum Reply {
    /// What a read found.
    Read(ClipboardRead),
    /// Whether a write or a clearing succeeded.
    Written(Result<(), String>),
    /// A notification was attempted; nothing depends on how that went.
    Notified,
}

/// A reply, with its texts as character sequences.
pub enum ReplyModel {
    Read(ReadModel),
    Written(Result<(), Seq<char>>),
    Notified,
}

/// A result whose error is a message, with the message as a character sequence.
pub open spec fn outcome(result: Result<(), String>) -> Result<(), Seq<char>> {
    match result {
        Ok(()) => Ok(()),
        Err(message) => Err(message@),
    }
}

impl View for Reply {
    type V = ReplyModel;

    open spec fn view(&self) -> ReplyModel {
        match self {
            Reply::Read(read) => ReplyModel::Read(read@),
            Reply::Written(result) => ReplyModel::Written(outcome(*result)),
            Reply::Notified => ReplyModel::Notified,
        }
    }
}

/// Whether a reply is of the kind that a request asks for.
pub open spec fn answers(reply: ReplyModel, request: RequestModel) -> bool {
    match request {
        RequestModel::Read(_) => reply is Read,
        RequestModel::Write(..) | RequestModel::Clear(_) => reply is Written,
        RequestModel::Notify(_) => reply is Notified,
    }
}

/// How far a procedure has come: it waits for the reply to a request, or it is done.
#[derive(Debug, PartialEq, Eq)]
pub enum Progress<S> {
    Ask(S, Request),
    Finished(Result<(), String>),
}

/// Progress, with its texts as character sequences.
pub enum ProgressModel<S> {
    Ask(S, RequestModel),
    Finished(Result<(), Seq<char>>),
}

impl<S: View> View for Progress<S> {
    type V = ProgressModel<S::V>;

    open spec fn view(&self) -> ProgressModel<S::V> {
        match self {
            Progress::Ask(state, request) => ProgressModel::Ask(state@, request@),
            Progress::Finished(result) => ProgressModel::Finished(outcome(*result)),
        }
    }
}

/// What a task is doing: the work itself, or reporting that it succeeded.
#[derive(Debug, PartialEq, Eq)]
pub enum Stage<S> {
    Working(S),
    Announcing,
}

impl<S: View> View for Stage<S> {
    type V = Stage<S::V>;

    open spec fn view(&self) -> Stage<S::V> {
        match self {
            Stage::Working(state) => Stage::Working(state@),
            Stage::Announcing => Stage::Announcing,
        }
    }
}

/// Work whose success is reported by a notification, if notifications are enabled.
#[derive(Debug, PartialEq, Eq)]
pub struct Task<S> {
    pub notice: Notice,
    pub notifications: bool,
    pub stage: Stage<S>,
}

impl<S: View> View for Task<S> {
    type V = Task<S::V>;

    open spec fn view(&self) -> Task<S::V> {
        Task { notice: self.notice, notifications: self.notifications, stage: self.stage@ }
    }
}

/// How far a task has come once its work has come as far as `progress`: a notification follows
/// the work exactly when the work succeeded and notifications are enabled.
pub open spec fn announced<S>(
    notice: Notice,
    notifications: bool,
    progress: ProgressModel<S>,
) -> ProgressModel<Task<S>> {
    match progress {
        ProgressModel::Ask(state, request) => ProgressModel::Ask(
            Task { notice, notifications, stage: Stage::Working(state) },
            request,
        ),
        ProgressModel::Finished(Ok(())) => if notifications {
            ProgressModel::Ask(
                Task { notice, notifications, stage: Stage::Announcing },
                RequestModel::Notify(notice),
            )
        } else {
            ProgressModel::Finished(Ok(()))
        },
        ProgressModel::Finished(Err(message)) => ProgressModel::Finished(Err(message)),
    }
}

/// Carries the progress of the work over to the task around it.
pub fn announce<S: View>(notice: Notice, notifications: bool, progress: Progress<S>) -> (result:
    Progress<Task<S>>)
    ensures
        result@ == announced(notice, notifications, progress@),
{
    match progress {
        Progress::Ask(state, request) => Progress::Ask(
            Task { notice, notifications, stage: Stage::Working(state) },
            request,
        ),
        Progress::Finished(Ok(())) => match send_if_enabled(notice, notifications) {
            Some(notice) => Progress::Ask(
                Task { notice, notifications, stage: Stage::Announcing },
                Request::Notify(notice),
            ),
            None => Progress::Finished(Ok(())),
        },
        Progress::Finished(Err(message)) => Progress::Finished(Err(message)),
    }
}

} // verus!
