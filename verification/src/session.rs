//! The state of a running applet, and what each event means in it.
use crate::clipboard::{ActionRequest, ClearTarget, ClipboardRead, ReadModel};
use crate::clipboard_monitor::MonitorEvent;
use crate::config::{Config, UpdateMethod};
use crate::notification::{
    change_between, clipboard_change, latest, send_if_enabled, settings, ClipboardObservations,
    Notice, NotificationMode,
};
use crate::stack::{find_entry, position, EntryIds, StackAction, StackEntry};
use crate::text::{decimal, decimal_text, join4};
use crate::tray::{tooltip, tooltip_text, AppEvent, ClipboardTray, EditTarget};
use vstd::prelude::*;
use vstd::string::*;

verus! {

/// The state of a running applet.
#[derive(Debug, PartialEq, Eq)]
pub struct Session {
    pub notifications_enabled: bool,
    /// Whether changes of the selections are reported too.
    pub notify_on_change: bool,
    /// What the editor that is open edits.
    pub editor_target: Option<EditTarget>,
    /// Whether the selections are polled; otherwise events of the compositor are awaited.
    pub polling: bool,
    pub stack: Vec<StackEntry>,
    pub ids: EntryIds,
    /// What was last observed of the selections.
    pub previous: ClipboardObservations,
}

/// What the applet does about an event.
#[derive(Debug, PartialEq, Eq)]
pub enum Command {
    /// End the applet.
    Exit,
    Perform(ActionRequest),
    PerformStack(StackAction),
    PerformClear(ClearTarget),
    /// Open an editor. For a stacked entry, the text that the entry holds now.
    StartEditor { target: EditTarget, stack_value: Option<String> },
    /// Abandon the editor that is open.
    StopEditor,
    /// Log that an editor is already open.
    RefuseEdit,
    Nothing,
}

impl Session {
    /// A session that starts with `config`, where the command line may override notifications.
    pub fn new(config: &Config, override_mode: Option<NotificationMode>) -> (session: Self)
        ensures
            (session.notifications_enabled, session.notify_on_change) == (match override_mode {
                None => (config.notifications, config.notify_on_change),
                Some(NotificationMode::Disabled) => (false, false),
                Some(NotificationMode::Enabled) => (true, false),
                Some(NotificationMode::All) => (true, true),
            }),
            session.editor_target is None,
            session.polling == (config.update_method is Polling),
            session.stack@.len() == 0,
            session.ids.next == 1,
            session.previous == (None::<Option<String>>, None::<Option<String>>),
    {
        let (notifications_enabled, notify_on_change) = settings(config, override_mode);
        Session {
            notifications_enabled,
            notify_on_change,
            editor_target: None,
            polling: matches!(config.update_method, UpdateMethod::Polling),
            stack: Vec::new(),
            ids: EntryIds::new(),
            previous: (None, None),
        }
    }

    /// The text that the stacked entry to be edited holds.
    pub open spec fn stacked_value(self, target: EditTarget) -> Option<Seq<char>> {
        match target {
            EditTarget::Stack(id) => match position(self.stack.deep_view(), id) {
                Some(index) => Some(self.stack.deep_view()[index].value),
                None => None,
            },
            _ => None,
        }
    }

    fn value_to_edit(&self, target: EditTarget) -> (value: Option<String>)
        ensures
            value.deep_view() == self.stacked_value(target),
    {
        match target {
            EditTarget::Stack(id) => match find_entry(&self.stack, id) {
                Some(index) => {
                    let value = self.stack[index].value.clone();
                    assert(self.stack.deep_view()[index as int].value == value@);
                    Some(value)
                },
                None => None,
            },
            _ => None,
        }
    }

    /// Takes an event of the tray icon. At most one editor is open at a time.
    pub fn handle_event(&mut self, event: AppEvent) -> (command: Command)
        ensures
            match event {
                AppEvent::Exit => command == Command::Exit,
                AppEvent::Action(request) => command == Command::Perform(request),
                AppEvent::Stack(action) => command == Command::PerformStack(action),
                AppEvent::Clear(target) => command == Command::PerformClear(target),
                AppEvent::Edit(target) => if old(self).editor_target is Some {
                    command == Command::RefuseEdit
                } else {
                    command matches Command::StartEditor { target: opened, stack_value } && opened
                        == target && stack_value.deep_view() == old(self).stacked_value(target)
                },
                AppEvent::CancelEdit => command == if old(self).editor_target is Some {
                    Command::StopEditor
                } else {
                    Command::Nothing
                },
                AppEvent::ToggleNotifications => command == Command::Nothing,
            },
            *final(self) == (Session {
                notifications_enabled: if event is ToggleNotifications {
                    !old(self).notifications_enabled
                } else {
                    old(self).notifications_enabled
                },
                editor_target: match event {
                    AppEvent::Edit(target) => if old(self).editor_target is Some {
                        old(self).editor_target
                    } else {
                        Some(target)
                    },
                    AppEvent::CancelEdit => None,
                    _ => old(self).editor_target,
                },
                ..*old(self)
            }),
    {
        match event {
            AppEvent::Exit => Command::Exit,
            AppEvent::Action(request) => Command::Perform(request),
            AppEvent::Stack(action) => Command::PerformStack(action),
            AppEvent::Clear(target) => Command::PerformClear(target),
            AppEvent::Edit(target) => {
                if self.editor_target.is_some() {
                    return Command::RefuseEdit;
                }
                let stack_value = self.value_to_edit(target);
                self.editor_target = Some(target);
                Command::StartEditor { target, stack_value }
            },
            AppEvent::CancelEdit => {
                if self.editor_target.is_none() {
                    return Command::Nothing;
                }
                self.editor_target = None;
                Command::StopEditor
            },
            AppEvent::ToggleNotifications => {
                self.notifications_enabled = !self.notifications_enabled;
                Command::Nothing
            },
        }
    }

    /// Takes note that the editor that was open has ended.
    pub fn editor_ended(&mut self)
        ensures
            *final(self) == (Session { editor_target: None, ..*old(self) }),
    {
        self.editor_target = None;
    }

    /// Takes an event of the monitor, and says whether a change of the selections is to be looked
    /// for. Once the monitor has failed, the selections are polled.
    pub fn monitor_event(&mut self, event: MonitorEvent) -> (check_for_change: bool)
        ensures
            check_for_change == (event is ClipboardChanged),
            *final(self) == (Session {
                polling: old(self).polling || event is Failed,
                ..*old(self)
            }),
    {
        match event {
            MonitorEvent::ClipboardChanged => true,
            MonitorEvent::Failed => {
                self.polling = true;
                false
            },
        }
    }

    /// Takes two reads of the selections, and says which notification is due. A change is only
    /// reported if the reads were made to look for one.
    pub fn observe(
        &mut self,
        primary: &ClipboardRead,
        regular: &ClipboardRead,
        check_for_change: bool,
    ) -> (notice: Option<Notice>)
        ensures
            notice == (match change_between(
                old(self).previous.deep_view(),
                (primary@.content(), regular@.content()),
            ) {
                Some(change) => if check_for_change && old(self).notify_on_change && old(
                    self,
                ).notifications_enabled {
                    Some(Notice::Change(change))
                } else {
                    None
                },
                None => None,
            }),
            final(self).previous.deep_view() == (
                latest(old(self).previous.deep_view().0, primary@.content()),
                latest(old(self).previous.deep_view().1, regular@.content()),
            ),
            *final(self) == (Session { previous: final(self).previous, ..*old(self) }),
    {
        let current = (primary.observation(), regular.observation());
        let change = clipboard_change(&mut self.previous, &current);
        match change {
            Some(change) => send_if_enabled(
                Notice::Change(change),
                check_for_change && self.notify_on_change && self.notifications_enabled,
            ),
            None => None,
        }
    }

    /// Brings the tray icon up to date with two reads of the selections.
    pub fn refresh(&self, tray: &mut ClipboardTray, primary: ClipboardRead, regular: ClipboardRead)
        ensures
            final(tray).tooltip@ == tooltip(primary@, regular@, old(tray).hide_content),
            final(tray).stack.deep_view() == self.stack.deep_view(),
            *final(tray) == (ClipboardTray {
                tooltip: final(tray).tooltip,
                primary,
                regular,
                stack: final(tray).stack,
                notifications_enabled: self.notifications_enabled,
                editor_target: self.editor_target,
                ..*old(tray)
            }),
    {
        tray.tooltip = tooltip_text(&primary, &regular, tray.hide_content);
        tray.primary = primary;
        tray.regular = regular;
        tray.stack = self.stack.clone();
        assert(tray.stack@ =~= self.stack@);
        tray.notifications_enabled = self.notifications_enabled;
        tray.editor_target = self.editor_target;
    }
}

/// What is logged about a read of the selection called `selection`: only reads that failed or
/// were cut off are.
pub fn report_read_issue(selection: &str, value: &ClipboardRead) -> (message: Option<String>)
    ensures
        message.deep_view() == (match value@ {
            ReadModel::Oversized { limit } => Some(
                "could not read "@ + selection@ + " clipboard: content exceeds "@ + decimal(
                    limit as nat,
                ) + " bytes"@,
            ),
            ReadModel::Error(error) => Some(
                "could not read "@ + selection@ + " clipboard: "@ + error,
            ),
            _ => None,
        }),
{
    match value {
        ClipboardRead::Oversized { limit } => {
            let mut message = join4(
                "could not read ",
                selection,
                " clipboard: content exceeds ",
                decimal_text(*limit as u128).as_str(),
            );
            message.append(" bytes");
            Some(message)
        },
        ClipboardRead::Error(error) => Some(
            join4("could not read ", selection, " clipboard: ", error.as_str()),
        ),
        _ => None,
    }
}

} // verus!
