//! Desktop notifications: when one is due and what it says.
use crate::clipboard::{ClearTarget, ClipboardAction};
use crate::config::Config;
use crate::stack::{StackAction, StackCopyDestination};
use vstd::prelude::*;
use vstd::string::*;

verus! {

/// How the command line overrides the configured notifications.
#[derive(Clone, Copy, Debug, PartialEq, Eq, Structural)]
pub enum NotificationMode {
    Disabled,
    Enabled,
    All,
}

/// Whether notifications are enabled, and whether they also report changes of the selections.
pub fn settings(config: &Config, override_mode: Option<NotificationMode>) -> (settings: (bool, bool))
    ensures
        settings == (match override_mode {
            None => (config.notifications, config.notify_on_change),
            Some(NotificationMode::Disabled) => (false, false),
            Some(NotificationMode::Enabled) => (true, false),
            Some(NotificationMode::All) => (true, true),
        }),
{
    match override_mode {
        None => (config.notifications, config.notify_on_change),
        Some(NotificationMode::Disabled) => (false, false),
        Some(NotificationMode::Enabled) => (true, false),
        Some(NotificationMode::All) => (true, true),
    }
}

/// The selections whose content changed between two observations.
#[derive(Clone, Copy, Debug, PartialEq, Eq, Structural)]
pub enum ClipboardChange {
    Primary,
    Regular,
    Both,
}

/// What was last observed of the primary and of the regular selection: nothing yet, or the
/// content, where an empty selection has no text.
pub type ClipboardObservations = (Option<Option<String>>, Option<Option<String>>);

/// What was observed of one selection, with its text as a character sequence.
pub type Observation = Option<Option<Seq<char>>>;

/// Whether two observations show that a selection changed. Nothing follows from a selection that
/// could not be observed.
pub open spec fn differs(previous: Observation, current: Observation) -> bool {
    previous is Some && current is Some && previous != current
}

/// The last observation of a selection that could be made.
pub open spec fn latest(previous: Observation, current: Observation) -> Observation {
    if current is Some {
        current
    } else {
        previous
    }
}

/// The change that two pairs of observations show.
pub open spec fn change_between(
    previous: (Observation, Observation),
    current: (Observation, Observation),
) -> Option<ClipboardChange> {
    match (differs(previous.0, current.0), differs(previous.1, current.1)) {
        (true, true) => Some(ClipboardChange::Both),
        (true, false) => Some(ClipboardChange::Primary),
        (false, true) => Some(ClipboardChange::Regular),
        (false, false) => None,
    }
}

/// Whether two observations show that a selection changed.
pub fn observed_value_changed(
    previous: &Option<Option<String>>,
    current: &Option<Option<String>>,
) -> (changed: bool)
    ensures
        changed == differs(previous.deep_view(), current.deep_view()),
{
    match (previous, current) {
        (Some(previous), Some(current)) => match (previous, current) {
            (Some(previous), Some(current)) => *previous != *current,
            (None, None) => false,
            _ => true,
        },
        _ => false,
    }
}

/// Finds out what changed since the previous observations, and remembers the current ones. A
/// selection that could not be observed keeps its previous observation.
pub fn clipboard_change(
    previous: &mut ClipboardObservations,
    current: &ClipboardObservations,
) -> (change: Option<ClipboardChange>)
    ensures
        change == change_between(old(previous).deep_view(), current.deep_view()),
        final(previous).deep_view() == (
            latest(old(previous).deep_view().0, current.deep_view().0),
            latest(old(previous).deep_view().1, current.deep_view().1),
        ),
{
    let primary_changed = observed_value_changed(&previous.0, &current.0);
    let regular_changed = observed_value_changed(&previous.1, &current.1);
    if current.0.is_some() {
        previous.0 = current.0.clone();
    }
    if current.1.is_some() {
        previous.1 = current.1.clone();
    }
    match (primary_changed, regular_changed) {
        (true, true) => Some(ClipboardChange::Both),
        (true, false) => Some(ClipboardChange::Primary),
        (false, true) => Some(ClipboardChange::Regular),
        (false, false) => None,
    }
}

/// Something that a notification reports.
#[derive(Clone, Copy, Debug, PartialEq, Eq, Structural)]
pub enum Notice {
    Action(ClipboardAction),
    Clear(ClearTarget),
    Stack(StackAction),
    StackCopy(StackCopyDestination),
    Edit,
    Change(ClipboardChange),
}

/// The notification to send about `notice`, if notifications are enabled.
pub fn send_if_enabled(notice: Notice, enabled: bool) -> (due: Option<Notice>)
    ensures
        due == if enabled {
            Some(notice)
        } else {
            None
        },
{
    if enabled {
        Some(notice)
    } else {
        None
    }
}

/// What a notification says about an action on the selections.
pub fn action_notification(action: ClipboardAction) -> (body: &'static str)
    ensures
        body@ == (match action {
            ClipboardAction::CopyRegular => "Regular clipboard copied to primary"@,
            ClipboardAction::CopyPrimary => "Primary clipboard copied to regular"@,
            ClipboardAction::Reset => "Primary and regular clipboards cleared"@,
            ClipboardAction::Switch => "Primary and regular clipboards switched"@,
        }),
{
    match action {
        ClipboardAction::CopyRegular => "Regular clipboard copied to primary",
        ClipboardAction::CopyPrimary => "Primary clipboard copied to regular",
        ClipboardAction::Reset => "Primary and regular clipboards cleared",
        ClipboardAction::Switch => "Primary and regular clipboards switched",
    }
}

/// What a notification says about a stack action.
pub fn notification_body(action: StackAction) -> (body: &'static str)
    ensures
        body@ == (match action {
            StackAction::PushPrimary => "Primary clipboard stacked"@,
            StackAction::PushRegular => "Regular clipboard stacked"@,
            StackAction::PopPrimary => "Stacked entry popped to primary"@,
            StackAction::PopRegular => "Stacked entry popped to regular"@,
            StackAction::PopBoth => "Stacked entry popped to primary and regular"@,
        }),
{
    match action {
        StackAction::PushPrimary => "Primary clipboard stacked",
        StackAction::PushRegular => "Regular clipboard stacked",
        StackAction::PopPrimary => "Stacked entry popped to primary",
        StackAction::PopRegular => "Stacked entry popped to regular",
        StackAction::PopBoth => "Stacked entry popped to primary and regular",
    }
}

/// What a notification says about a change of the selections.
pub fn change_notification(change: ClipboardChange) -> (body: &'static str)
    ensures
        body@ == (match change {
            ClipboardChange::Primary => "Primary clipboard changed"@,
            ClipboardChange::Regular => "Regular clipboard changed"@,
            ClipboardChange::Both => "Primary and regular clipboards changed"@,
        }),
{
    match change {
        ClipboardChange::Primary => "Primary clipboard changed",
        ClipboardChange::Regular => "Regular clipboard changed",
        ClipboardChange::Both => "Primary and regular clipboards changed",
    }
}

impl Notice {
    /// What the notification says.
    pub fn body(self) -> (body: &'static str)
        ensures
            body@ == (match self {
                Notice::Action(ClipboardAction::CopyRegular) => {
                    "Regular clipboard copied to primary"@
                },
                Notice::Action(ClipboardAction::CopyPrimary) => {
                    "Primary clipboard copied to regular"@
                },
                Notice::Action(ClipboardAction::Reset) => "Primary and regular clipboards cleared"@,
                Notice::Action(
                    ClipboardAction::Switch,
                ) => "Primary and regular clipboards switched"@,
                Notice::Clear(ClearTarget::Primary) => "Primary clipboard cleared"@,
                Notice::Clear(ClearTarget::Regular) => "Regular clipboard cleared"@,
                Notice::Stack(StackAction::PushPrimary) => "Primary clipboard stacked"@,
                Notice::Stack(StackAction::PushRegular) => "Regular clipboard stacked"@,
                Notice::Stack(StackAction::PopPrimary) => "Stacked entry popped to primary"@,
                Notice::Stack(StackAction::PopRegular) => "Stacked entry popped to regular"@,
                Notice::Stack(
                    StackAction::PopBoth,
                ) => "Stacked entry popped to primary and regular"@,
                Notice::StackCopy(StackCopyDestination::Primary) => {
                    "Stacked entry copied to primary"@
                },
                Notice::StackCopy(StackCopyDestination::Regular) => {
                    "Stacked entry copied to regular"@
                },
                Notice::Edit => "Clipboard value edited"@,
                Notice::Change(ClipboardChange::Primary) => "Primary clipboard changed"@,
                Notice::Change(ClipboardChange::Regular) => "Regular clipboard changed"@,
                Notice::Change(
                    ClipboardChange::Both,
                ) => "Primary and regular clipboards changed"@,
            }),
    {
        match self {
            Self::Action(action) => action_notification(action),
            Self::Clear(ClearTarget::Primary) => "Primary clipboard cleared",
            Self::Clear(ClearTarget::Regular) => "Regular clipboard cleared",
            Self::Stack(action) => notification_body(action),
            Self::StackCopy(StackCopyDestination::Primary) => "Stacked entry copied to primary",
            Self::StackCopy(StackCopyDestination::Regular) => "Stacked entry copied to regular",
            Self::Edit => "Clipboard value edited",
            Self::Change(change) => change_notification(change),
        }
    }

    /// What the notification is about, for the log.
    pub fn context(self) -> (context: &'static str)
        ensures
            context@ == (match self {
                Notice::Action(_) => "clipboard"@,
                Notice::Clear(_) => "clipboard clear"@,
                Notice::Stack(_) | Notice::StackCopy(_) => "clipboard stack"@,
                Notice::Edit => "clipboard edit"@,
                Notice::Change(_) => "clipboard change"@,
            }),
    {
        match self {
            Self::Action(_) => "clipboard",
            Self::Clear(_) => "clipboard clear",
            Self::Stack(_) | Self::StackCopy(_) => "clipboard stack",
            Self::Edit => "clipboard edit",
            Self::Change(_) => "clipboard change",
        }
    }
}

/// Observing the same twice shows no change, and neither does the first observation there is.
pub proof fn law_only_differences_are_changes(
    previous: (Observation, Observation),
    current: (Observation, Observation),
)
    ensures
        change_between((latest(previous.0, current.0), latest(previous.1, current.1)), current)
            is None,
        change_between((None, None), current) is None,
{
}

/// A selection that cannot be observed neither counts as changed, nor hides a change of the other
/// one, nor makes its own next change go unnoticed.
pub proof fn law_unobserved_selections_keep_their_history(
    previous: Observation,
    other: (Observation, Observation),
    next: Observation,
)
    ensures
        change_between((previous, other.0), (None, other.1)) == if differs(other.0, other.1) {
            Some(ClipboardChange::Regular)
        } else {
            None
        },
        change_between((other.0, previous), (other.1, None)) == if differs(other.0, other.1) {
            Some(ClipboardChange::Primary)
        } else {
            None
        },
        differs(latest(previous, None), next) == differs(previous, next),
{
}

} // verus!
