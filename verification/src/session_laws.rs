//! What a running applet does about events, changes of the selections and failed reads.
//!
//! A law that speaks of a call holds of every value that the call may return.
use crate::clipboard::{
    ActionSource, ClearTarget, ClipboardAction, ClipboardRead, ReadModel,
};
use crate::clipboard_monitor::MonitorEvent;
use crate::config::{Config, UpdateMethod};
use crate::notification::{
    action_notification, change_notification, notification_body, send_if_enabled, settings,
    ClipboardChange, Notice, NotificationMode, Observation,
};
use crate::session::{report_read_issue, Command, Session};
use crate::stack::{StackAction, StackCopyDestination};
use crate::stack_laws::{
    is_absent, is_first, law_absent_identities_have_no_position, law_positions,
};
use crate::text::decimal;
use crate::tray::{AppEvent, ClipboardTray, EditTarget, ToolTip};
use crate::tray_laws::{law_reads_are_previewed, previews};
use vstd::prelude::*;

verus! {

/// Without an override the configuration says whether notifications are sent and whether they
/// report changes; an override says both, and changes are never reported where notifications are
/// off.
pub proof fn law_overrides_replace_the_configuration(
    config: Config,
    override_mode: Option<NotificationMode>,
    enabled: bool,
    on_change: bool,
)
    requires
        call_ensures(settings, (&config, override_mode), (enabled, on_change)),
    ensures
        override_mode is None ==> enabled == config.notifications && on_change
            == config.notify_on_change,
        override_mode == Some(NotificationMode::Disabled) ==> !enabled && !on_change,
        override_mode == Some(NotificationMode::Enabled) ==> enabled && !on_change,
        override_mode == Some(NotificationMode::All) ==> enabled && on_change,
{
}

/// A notification is due exactly if notifications are enabled, and is then about what happened.
pub proof fn law_disabled_notifications_are_not_due(
    notice: Notice,
    enabled: bool,
    due: Option<Notice>,
)
    requires
        call_ensures(send_if_enabled, (notice, enabled), due),
    ensures
        due is Some <==> enabled,
        due matches Some(sent) ==> sent == notice,
{
}

/// A session starts with an empty stack, no editor and nothing observed. It sends what the
/// configuration or its override asks for, and polls exactly if the configuration asks for it.
pub proof fn law_how_sessions_start(
    config: Config,
    override_mode: Option<NotificationMode>,
    session: Session,
)
    requires
        call_ensures(Session::new, (&config, override_mode), session),
    ensures
        session.stack@.len() == 0,
        session.editor_target is None,
        session.previous.0 is None,
        session.previous.1 is None,
        session.ids.next == 1,
        session.polling <==> config.update_method is Polling,
        override_mode is None ==> session.notifications_enabled == config.notifications
            && session.notify_on_change == config.notify_on_change,
        override_mode == Some(NotificationMode::Disabled) ==> !session.notifications_enabled
            && !session.notify_on_change,
        override_mode == Some(NotificationMode::Enabled) ==> session.notifications_enabled
            && !session.notify_on_change,
        override_mode == Some(NotificationMode::All) ==> session.notifications_enabled
            && session.notify_on_change,
{
}

/// Whether two sessions differ at most in what they edit and in whether they notify.
pub open spec fn same_content(left: Session, right: Session) -> bool {
    &&& left.stack == right.stack
    &&& left.ids == right.ids
    &&& left.previous == right.previous
    &&& left.polling == right.polling
    &&& left.notify_on_change == right.notify_on_change
}

/// Every event is answered by the command of its kind and no other. Only the switch for
/// notifications changes whether they are sent, and only the editor's events change what is
/// edited.
pub proof fn law_events_are_answered(session: &mut Session, event: AppEvent, command: Command)
    requires
        call_ensures(Session::handle_event, (session, event), command),
    ensures
        same_content(*old(session), *final(session)),
        command is Exit <==> event is Exit,
        event matches AppEvent::Action(request) ==> command == Command::Perform(request),
        command matches Command::Perform(request) ==> event == AppEvent::Action(request),
        event matches AppEvent::Stack(action) ==> command == Command::PerformStack(action),
        command matches Command::PerformStack(action) ==> event == AppEvent::Stack(action),
        event matches AppEvent::Clear(target) ==> command == Command::PerformClear(target),
        command matches Command::PerformClear(target) ==> event == AppEvent::Clear(target),
        command is StartEditor <==> event is Edit && old(session).editor_target is None,
        command is RefuseEdit <==> event is Edit && old(session).editor_target is Some,
        command is StopEditor <==> event is CancelEdit && old(session).editor_target is Some,
        event is ToggleNotifications <==> final(session).notifications_enabled != old(
            session,
        ).notifications_enabled,
        !(event is Edit) && !(event is CancelEdit) ==> final(session).editor_target == old(
            session,
        ).editor_target,
        event is CancelEdit ==> final(session).editor_target is None,
        event matches AppEvent::Edit(target) ==> final(session).editor_target is Some && (old(
            session,
        ).editor_target is None ==> final(session).editor_target == Some(target)) && (old(
            session,
        ).editor_target is Some ==> final(session).editor_target == old(session).editor_target),
{
}

/// An editor opens on the target that was asked for. For a stacked entry it gets the text of the
/// first entry of that identity, if there is one; for a selection it gets none.
pub proof fn law_what_an_editor_opens_on(
    session: &mut Session,
    target: EditTarget,
    command: Command,
    place: int,
)
    requires
        call_ensures(Session::handle_event, (session, AppEvent::Edit(target)), command),
        old(session).editor_target is None,
    ensures
        command matches Command::StartEditor { target: opened, stack_value } && {
            &&& opened == target
            &&& target is Primary || target is Regular ==> stack_value is None
            &&& target matches EditTarget::Stack(id) ==> (is_absent(old(session).stack@, id)
                ==> stack_value is None)
            &&& target matches EditTarget::Stack(id) ==> (is_first(old(session).stack@, id, place)
                ==> (stack_value matches Some(value) && value@ == old(
                session,
            ).stack@[place].value@))
        },
{
    if let EditTarget::Stack(id) = target {
        let stack = old(session).stack;
        let entries = stack.deep_view();
        assert(entries.len() == stack@.len());
        if is_absent(stack@, id) {
            assert forall|i: int| 0 <= i < entries.len() implies (#[trigger] entries[i]).id
                != id by {
                assert(entries[i] == stack@[i]@);
            }
            law_absent_identities_have_no_position(entries, id);
        }
        if is_first(stack@, id, place) {
            assert(entries[place] == stack@[place]@);
            assert forall|i: int| 0 <= i < place implies (#[trigger] entries[i]).id != id by {
                assert(entries[i] == stack@[i]@);
            }
            law_positions(entries, id, place);
        }
    }
}

/// The end of an editor leaves everything else as it is.
pub proof fn law_ended_editors_are_forgotten(session: &mut Session)
    requires
        call_ensures(Session::editor_ended, (session,), ()),
    ensures
        final(session).editor_target is None,
        same_content(*old(session), *final(session)),
        final(session).notifications_enabled == old(session).notifications_enabled,
{
}

/// A change that the monitor saw is looked into; a monitor that failed is replaced by polling, for
/// good.
pub proof fn law_what_the_monitor_tells(session: &mut Session, event: MonitorEvent, check: bool)
    requires
        call_ensures(Session::monitor_event, (session, event), check),
    ensures
        check <==> event is ClipboardChanged,
        event is Failed ==> final(session).polling,
        event is ClipboardChanged ==> final(session).polling == old(session).polling,
        old(session).polling ==> final(session).polling,
        final(session).stack == old(session).stack,
        final(session).ids == old(session).ids,
        final(session).previous == old(session).previous,
        final(session).editor_target == old(session).editor_target,
        final(session).notifications_enabled == old(session).notifications_enabled,
        final(session).notify_on_change == old(session).notify_on_change,
{
}

/// Whether a read shows another content than was last observed. A read that found neither a text
/// nor an empty selection shows nothing.
pub open spec fn shows_change(observed: Observation, read: ClipboardRead) -> bool {
    match (observed, read) {
        (Some(Some(before)), ClipboardRead::Text(after)) => before != after@,
        (Some(Some(_)), ClipboardRead::Empty) => true,
        (Some(None), ClipboardRead::Text(_)) => true,
        _ => false,
    }
}

/// What is remembered of a selection after a read.
pub open spec fn remembered(observed: Observation, read: ClipboardRead) -> Observation {
    match read {
        ClipboardRead::Text(text) => Some(Some(text@)),
        ClipboardRead::Empty => Some(None),
        _ => observed,
    }
}

/// A change is reported exactly if it was looked for, changes are to be reported and notifications
/// are on; the report names the selections that hold something else than before. Whether or not it
/// is reported, what was read is remembered.
pub proof fn law_which_changes_are_reported(
    session: &mut Session,
    primary: ClipboardRead,
    regular: ClipboardRead,
    check: bool,
    notice: Option<Notice>,
)
    requires
        call_ensures(Session::observe, (session, &primary, &regular, check), notice),
    ensures
        ({
            let before = old(session).previous.deep_view();
            let after = final(session).previous.deep_view();
            let first = shows_change(before.0, primary);
            let second = shows_change(before.1, regular);
            let wanted = check && old(session).notify_on_change && old(
                session,
            ).notifications_enabled;
            &&& notice is Some <==> wanted && (first || second)
            &&& notice == Some(Notice::Change(ClipboardChange::Primary)) <==> wanted && first
                && !second
            &&& notice == Some(Notice::Change(ClipboardChange::Regular)) <==> wanted && !first
                && second
            &&& notice == Some(Notice::Change(ClipboardChange::Both)) <==> wanted && first
                && second
            &&& after.0 == remembered(before.0, primary)
            &&& after.1 == remembered(before.1, regular)
        }),
        final(session).stack == old(session).stack,
        final(session).ids == old(session).ids,
        final(session).polling == old(session).polling,
        final(session).editor_target == old(session).editor_target,
        final(session).notifications_enabled == old(session).notifications_enabled,
        final(session).notify_on_change == old(session).notify_on_change,
{
}

/// A tray icon that is brought up to date shows both reads, the stack, the editor and whether
/// notifications are sent, and keeps what the configuration set.
pub proof fn law_what_a_refresh_shows(
    session: Session,
    tray: &mut ClipboardTray,
    primary: ClipboardRead,
    regular: ClipboardRead,
)
    requires
        call_ensures(Session::refresh, (&session, tray, primary, regular), ()),
    ensures
        final(tray).primary == primary,
        final(tray).regular == regular,
        final(tray).stack.deep_view() == session.stack.deep_view(),
        final(tray).notifications_enabled == session.notifications_enabled,
        final(tray).editor_target == session.editor_target,
        exists|above: Seq<char>, below: Seq<char>|
            {
                &&& final(tray).tooltip@ == "primary: "@ + above + "\nregular: "@ + below
                &&& #[trigger] previews(above, primary@, old(tray).hide_content)
                &&& #[trigger] previews(below, regular@, old(tray).hide_content)
            },
        final(tray).icon_name == old(tray).icon_name,
        final(tray).left_click == old(tray).left_click,
        final(tray).middle_click == old(tray).middle_click,
        final(tray).hide_content == old(tray).hide_content,
        final(tray).editor_enabled == old(tray).editor_enabled,
        final(tray).stack_enabled == old(tray).stack_enabled,
        final(tray).max_clipboard_bytes == old(tray).max_clipboard_bytes,
{
    let hide = old(tray).hide_content;
    law_reads_are_previewed(primary@, hide);
    law_reads_are_previewed(regular@, hide);
}

/// A tray icon starts with two selections that count as empty, an empty stack and no editor open;
/// an editor can be used exactly if one is configured.
pub proof fn law_how_tray_icons_start(
    config: Config,
    notifications_enabled: bool,
    stack_enabled: bool,
    max_clipboard_bytes: u64,
    tray: ClipboardTray,
)
    requires
        call_ensures(
            ClipboardTray::new,
            (&config, notifications_enabled, stack_enabled, max_clipboard_bytes),
            tray,
        ),
    ensures
        tray.primary is Empty,
        tray.regular is Empty,
        tray.stack@.len() == 0,
        tray.editor_target is None,
        tray.editor_enabled <==> config.editor@.len() > 0,
        tray.hide_content == config.hide_content,
        tray.notifications_enabled == notifications_enabled,
        tray.stack_enabled == stack_enabled,
        tray.max_clipboard_bytes == max_clipboard_bytes,
        tray.icon_name@ == config.icon_name@,
        tray.left_click == config.left_click,
        tray.middle_click == config.middle_click,
        config.hide_content ==> tray.tooltip@ == "primary: "@ + "0 chars"@ + "\nregular: "@
            + "0 chars"@,
        !config.hide_content ==> tray.tooltip@ == "primary: "@ + "(empty)"@ + "\nregular: "@
            + "(empty)"@,
{
    law_reads_are_previewed(ReadModel::Empty, config.hide_content);
    assert(tray@.stack.len() == tray.stack@.len());
}

/// A tray icon shows the configured icon and its tooltip, and a click asks for the action that is
/// configured for its button.
pub proof fn law_what_tray_icons_do(
    tray: ClipboardTray,
    icon: String,
    tip: ToolTip,
    left: AppEvent,
    middle: AppEvent,
)
    requires
        call_ensures(ClipboardTray::icon_name, (&tray,), icon),
        call_ensures(ClipboardTray::tool_tip, (&tray,), tip),
        call_ensures(ClipboardTray::activate, (&tray,), left),
        call_ensures(ClipboardTray::secondary_activate, (&tray,), middle),
    ensures
        icon@ == tray.icon_name@,
        tip.title@ == "Clipboard"@,
        tip.description@ == tray.tooltip@,
        left matches AppEvent::Action(request) && request.action == tray.left_click
            && request.source == ActionSource::LeftClick,
        middle matches AppEvent::Action(request) && request.action == tray.middle_click
            && request.source == ActionSource::MiddleClick,
{
}

/// A read is complained about exactly if it failed or was cut off; the complaint names the
/// selection, and the limit or the error.
pub proof fn law_which_reads_are_complained_about(
    selection: &str,
    read: ClipboardRead,
    message: Option<String>,
)
    requires
        call_ensures(report_read_issue, (selection, &read), message),
    ensures
        message is Some <==> read is Oversized || read is Error,
        read matches ClipboardRead::Oversized { limit } ==> (message matches Some(text) && text@
            == "could not read "@ + selection@ + " clipboard: content exceeds "@ + decimal(
            limit as nat,
        ) + " bytes"@),
        read matches ClipboardRead::Error(error) ==> (message matches Some(text) && text@
            == "could not read "@ + selection@ + " clipboard: "@ + error@),
{
    if let Some(text) = message {
        assert(message.deep_view() == Some(text@));
    }
}

/// What a notification says names what was done, and to which selection.
pub proof fn law_what_notifications_say(
    notice: Notice,
    body: &'static str,
    action: &'static str,
    stack: &'static str,
    change: &'static str,
)
    requires
        call_ensures(Notice::body, (notice,), body),
    ensures
        notice matches Notice::Action(done) ==> (call_ensures(
            action_notification,
            (done,),
            action,
        ) ==> body@ == action@),
        notice matches Notice::Stack(done) ==> (call_ensures(notification_body, (done,), stack)
            ==> body@ == stack@),
        notice matches Notice::Change(seen) ==> (call_ensures(change_notification, (seen,), change)
            ==> body@ == change@),
        body@ == (match notice {
            Notice::Action(done) => match done {
                ClipboardAction::CopyPrimary => "Primary clipboard copied to regular"@,
                ClipboardAction::CopyRegular => "Regular clipboard copied to primary"@,
                ClipboardAction::Switch => "Primary and regular clipboards switched"@,
                ClipboardAction::Reset => "Primary and regular clipboards cleared"@,
            },
            Notice::Clear(ClearTarget::Primary) => "Primary clipboard cleared"@,
            Notice::Clear(ClearTarget::Regular) => "Regular clipboard cleared"@,
            Notice::Stack(done) => match done {
                StackAction::PushPrimary => "Primary clipboard stacked"@,
                StackAction::PushRegular => "Regular clipboard stacked"@,
                StackAction::PopPrimary => "Stacked entry popped to primary"@,
                StackAction::PopRegular => "Stacked entry popped to regular"@,
                StackAction::PopBoth => "Stacked entry popped to primary and regular"@,
            },
            Notice::StackCopy(StackCopyDestination::Primary) => "Stacked entry copied to primary"@,
            Notice::StackCopy(StackCopyDestination::Regular) => "Stacked entry copied to regular"@,
            Notice::Edit => "Clipboard value edited"@,
            Notice::Change(ClipboardChange::Primary) => "Primary clipboard changed"@,
            Notice::Change(ClipboardChange::Regular) => "Regular clipboard changed"@,
            Notice::Change(ClipboardChange::Both) => "Primary and regular clipboards changed"@,
        }),
{
}

/// The log says what kind of thing a notification was about, and how changes are learnt of.
pub proof fn law_what_things_are_called(
    notice: Notice,
    method: UpdateMethod,
    tray: ClipboardTray,
    context: &'static str,
    name: &'static str,
    id: &'static str,
    title: &'static str,
)
    requires
        call_ensures(Notice::context, (notice,), context),
        call_ensures(UpdateMethod::name, (method,), name),
        call_ensures(ClipboardTray::id, (&tray,), id),
        call_ensures(ClipboardTray::title, (&tray,), title),
    ensures
        notice is Action ==> context@ == "clipboard"@,
        notice is Clear ==> context@ == "clipboard clear"@,
        notice is Stack || notice is StackCopy ==> context@ == "clipboard stack"@,
        notice is Edit ==> context@ == "clipboard edit"@,
        notice is Change ==> context@ == "clipboard change"@,
        method is Events ==> name@ == "EVENTS"@,
        method is Polling ==> name@ == "POLLING"@,
        id@ == "clipboard-applet"@,
        title@ == "Clipboard"@,
{
}

} // verus!
