//! What the tray icon shows: previews of the selections, the tooltip and the menu.
use crate::clipboard::{
    ActionRequest, ActionSource, ClearTarget, ClipboardAction, ClipboardRead, ReadModel,
};
use crate::config::Config;
use crate::stack::{find_entry, position, EntryModel, StackAction, StackEntry};
use crate::text::{
    characters, decimal, decimal_text, escape_underscores, escaped, join2, join3, join4,
};
use vstd::prelude::*;
use vstd::string::*;

verus! {

/// The most characters of a text that a preview shows.
pub const PREVIEW_CHARS: usize = 40;

/// What an editor is opened on.
#[derive(Clone, Copy, Debug, PartialEq, Eq, Structural)]
pub enum EditTarget {
    Primary,
    Regular,
    /// The stacked entry with this identity.
    Stack(u64),
}

/// Something that the user asks for through the tray icon.
#[derive(Clone, Copy, Debug, PartialEq, Eq, Structural)]
pub enum AppEvent {
    Action(ActionRequest),
    Stack(StackAction),
    Clear(ClearTarget),
    Edit(EditTarget),
    CancelEdit,
    ToggleNotifications,
    Exit,
}

/// A character as a preview shows it: line breaks and tabs become spaces.
pub open spec fn flattened(character: char) -> char {
    if character == '\n' || character == '\r' || character == '\t' {
        ' '
    } else {
        character
    }
}

/// The part of a text that a preview shows.
pub open spec fn visible_part(text: Seq<char>) -> Seq<char> {
    if text.len() <= PREVIEW_CHARS {
        text.map_values(|character: char| flattened(character))
    } else {
        text.take(PREVIEW_CHARS as int).map_values(|character: char| flattened(character))
    }
}

/// A count of characters.
pub open spec fn character_count(length: nat) -> Seq<char> {
    decimal(length) + " "@ + if length == 1 {
        "char"@
    } else {
        "chars"@
    }
}

/// The preview of a text: only how long it is if content is hidden, otherwise its beginning and
/// how much more there is.
pub open spec fn text_preview(text: Seq<char>, hide: bool) -> Seq<char> {
    if hide {
        character_count(text.len())
    } else if text.len() <= PREVIEW_CHARS {
        visible_part(text)
    } else {
        visible_part(text) + "... (and "@ + decimal((text.len() - PREVIEW_CHARS) as nat)
            + " more chars)"@
    }
}

/// The preview of a read.
pub open spec fn read_preview(read: ReadModel, hide: bool) -> Seq<char> {
    match read {
        ReadModel::Text(value) => text_preview(value, hide),
        ReadModel::Empty => if hide {
            "0 chars"@
        } else {
            "(empty)"@
        },
        ReadModel::NonText => "(non-text)"@,
        ReadModel::Unsupported => "(unsupported)"@,
        ReadModel::Oversized { limit } => "(over "@ + decimal(limit as nat) + " bytes)"@,
        ReadModel::Error(_) => "(unavailable)"@,
    }
}

/// Writes the preview of a text.
pub fn preview_text(value: &str, hide: bool) -> (preview: String)
    ensures
        preview@ == text_preview(value@, hide),
{
    let text = characters(value);
    let total: usize = text.len();
    if hide {
        return join3(
            decimal_text(total as u128).as_str(),
            " ",
            if total == 1 {
                "char"
            } else {
                "chars"
            },
        );
    }
    let shown: usize = if total <= PREVIEW_CHARS {
        total
    } else {
        PREVIEW_CHARS
    };
    let mut visible = String::new();
    let mut index: usize = 0;
    while index < shown
        invariant
            index <= shown <= text.len(),
            visible@ == text@.take(index as int).map_values(|character: char| flattened(character)),
        decreases shown - index,
    {
        let character = text[index];
        visible.push(
            if character == '\n' || character == '\r' || character == '\t' {
                ' '
            } else {
                character
            },
        );
        index += 1;
        assert(visible@ =~= text@.take(index as int).map_values(
            |character: char| flattened(character),
        ));
    }
    assert(text@.take(total as int) == text@);
    if total <= PREVIEW_CHARS {
        return visible;
    }
    join4(
        visible.as_str(),
        "... (and ",
        decimal_text((total - PREVIEW_CHARS) as u128).as_str(),
        " more chars)",
    )
}

/// Writes the preview of a read.
pub fn preview(value: &ClipboardRead, hide: bool) -> (preview: String)
    ensures
        preview@ == read_preview(value@, hide),
{
    match value {
        ClipboardRead::Text(value) => preview_text(value.as_str(), hide),
        ClipboardRead::Empty => if hide {
            "0 chars".to_owned()
        } else {
            "(empty)".to_owned()
        },
        ClipboardRead::NonText => "(non-text)".to_owned(),
        ClipboardRead::Unsupported => "(unsupported)".to_owned(),
        ClipboardRead::Oversized { limit } => join3(
            "(over ",
            decimal_text(*limit as u128).as_str(),
            " bytes)",
        ),
        ClipboardRead::Error(_) => "(unavailable)".to_owned(),
    }
}

/// The tooltip over two reads.
pub open spec fn tooltip(primary: ReadModel, regular: ReadModel, hide: bool) -> Seq<char> {
    "primary: "@ + read_preview(primary, hide) + "\nregular: "@ + read_preview(regular, hide)
}

/// Writes the tooltip.
pub fn tooltip_text(primary: &ClipboardRead, regular: &ClipboardRead, hide: bool) -> (text: String)
    ensures
        text@ == tooltip(primary@, regular@, hide),
{
    join4(
        "primary: ",
        preview(primary, hide).as_str(),
        "\nregular: ",
        preview(regular, hide).as_str(),
    )
}

/// The menu's label for a selection.
pub open spec fn selection_label(name: Seq<char>, read: ReadModel, hide: bool) -> Seq<char> {
    escaped(name + ": "@ + read_preview(read, hide))
}

/// Writes the menu's label for the selection called `name`.
pub fn menu_label(name: &str, value: &ClipboardRead, hide: bool) -> (label: String)
    ensures
        label@ == selection_label(name@, value@, hide),
{
    escape_underscores(join3(name, ": ", preview(value, hide).as_str()).as_str())
}

/// Whether a read found a text that is not empty.
pub open spec fn filled(read: ReadModel) -> bool {
    read matches ReadModel::Text(value) && value.len() > 0
}

/// Whether `value` is a text that is not empty.
pub fn has_content(value: &ClipboardRead) -> (result: bool)
    ensures
        result == filled(value@),
{
    match value {
        ClipboardRead::Text(value) => !value.as_str().is_empty(),
        _ => false,
    }
}

/// Whether a selection can take part in an exchange: a text or empty.
pub fn is_switchable(value: &ClipboardRead) -> (result: bool)
    ensures
        result == (value@.content() is Some),
{
    matches!(value, ClipboardRead::Text(_) | ClipboardRead::Empty)
}

/// What the menu says about the editor that is open. Stacked entries are numbered from the top.
pub open spec fn editing_notice(target: EditTarget, stack: Seq<EntryModel>) -> Seq<char> {
    match target {
        EditTarget::Primary => "Editing primary"@,
        EditTarget::Regular => "Editing regular"@,
        EditTarget::Stack(id) => match position(stack, id) {
            Some(index) => "Editing stacked entry "@ + decimal((stack.len() - index) as nat),
            None => "Editing removed stacked entry"@,
        },
    }
}

/// Writes what the menu says about the editor that is open.
pub fn editing_label(target: EditTarget, stack: &Vec<StackEntry>) -> (label: String)
    ensures
        label@ == editing_notice(target, stack.deep_view()),
{
    match target {
        EditTarget::Primary => "Editing primary".to_owned(),
        EditTarget::Regular => "Editing regular".to_owned(),
        EditTarget::Stack(id) => match find_entry(stack, id) {
            Some(index) => join2(
                "Editing stacked entry ",
                decimal_text((stack.len() - index) as u128).as_str(),
            ),
            None => "Editing removed stacked entry".to_owned(),
        },
    }
}

/// One line of the menu.
#[derive(Debug, PartialEq, Eq)]
pub struct MenuEntry {
    pub label: String,
    pub enabled: bool,
    pub icon_name: String,
    /// What the line asks for when it is activated.
    pub event: Option<AppEvent>,
}

/// A line of the menu, with texts as character sequences.
pub struct MenuModel {
    pub label: Seq<char>,
    pub enabled: bool,
    pub icon_name: Seq<char>,
    pub event: Option<AppEvent>,
}

impl DeepView for MenuEntry {
    type V = MenuModel;

    open spec fn deep_view(&self) -> MenuModel {
        MenuModel {
            label: self.label@,
            enabled: self.enabled,
            icon_name: self.icon_name@,
            event: self.event,
        }
    }
}

/// The tray icon: what it shows and how it is set up.
#[derive(Debug, PartialEq, Eq)]
pub struct ClipboardTray {
    pub tooltip: String,
    pub icon_name: String,
    pub left_click: ClipboardAction,
    pub middle_click: ClipboardAction,
    pub primary: ClipboardRead,
    pub regular: ClipboardRead,
    pub stack: Vec<StackEntry>,
    pub hide_content: bool,
    pub notifications_enabled: bool,
    pub editor_enabled: bool,
    pub editor_target: Option<EditTarget>,
    pub stack_enabled: bool,
    pub max_clipboard_bytes: u64,
}

/// What the menu depends on, with texts as character sequences.
pub struct TrayModel {
    pub primary: ReadModel,
    pub regular: ReadModel,
    pub stack: Seq<EntryModel>,
    pub hide_content: bool,
    pub notifications_enabled: bool,
    pub editor_enabled: bool,
    pub editor_target: Option<EditTarget>,
    pub stack_enabled: bool,
}

impl View for ClipboardTray {
    type V = TrayModel;

    open spec fn view(&self) -> TrayModel {
        TrayModel {
            primary: self.primary@,
            regular: self.regular@,
            stack: self.stack.deep_view(),
            hide_content: self.hide_content,
            notifications_enabled: self.notifications_enabled,
            editor_enabled: self.editor_enabled,
            editor_target: self.editor_target,
            stack_enabled: self.stack_enabled,
        }
    }
}

/// A line that asks for something.
pub open spec fn item(label: Seq<char>, event: AppEvent, enabled: bool) -> MenuModel {
    MenuModel { label, enabled, icon_name: Seq::empty(), event: Some(event) }
}

/// A line that only says something.
pub open spec fn remark(label: Seq<char>) -> MenuModel {
    MenuModel { label, enabled: false, icon_name: Seq::empty(), event: None }
}

/// The line between two parts of the menu.
pub open spec fn separator() -> MenuModel {
    remark("────────────────────"@)
}

/// The line that ends the applet.
pub open spec fn exit_item() -> MenuModel {
    MenuModel {
        label: "Exit"@,
        enabled: true,
        icon_name: "application-exit"@,
        event: Some(AppEvent::Exit),
    }
}

/// A line that asks for an action on the selections.
pub open spec fn action_item(label: Seq<char>, action: ClipboardAction, enabled: bool) -> MenuModel {
    item(label, AppEvent::Action(ActionRequest { action, source: ActionSource::Menu }), enabled)
}

/// `part` if it is wanted, otherwise nothing.
pub open spec fn wanted(part: Seq<MenuModel>, condition: bool) -> Seq<MenuModel> {
    if condition {
        part
    } else {
        Seq::empty()
    }
}

impl TrayModel {
    /// The part on the editor that is open.
    pub open spec fn editor_part(self) -> Seq<MenuModel> {
        match self.editor_target {
            Some(target) => seq![
                remark(editing_notice(target, self.stack)),
                item("Cancel edit"@, AppEvent::CancelEdit, true),
                separator(),
            ],
            None => Seq::empty(),
        }
    }

    /// The part on the primary selection.
    pub open spec fn primary_part(self) -> Seq<MenuModel> {
        let full = filled(self.primary);
        seq![remark(selection_label("Primary"@, self.primary, self.hide_content))] + wanted(
            seq![
                item(
                    "Edit primary"@,
                    AppEvent::Edit(EditTarget::Primary),
                    self.editor_target is None && full,
                ),
            ],
            self.editor_enabled,
        ) + seq![action_item("Copy primary to regular"@, ClipboardAction::CopyPrimary, full)]
            + wanted(
            seq![item("Stack primary"@, AppEvent::Stack(StackAction::PushPrimary), full)],
            self.stack_enabled,
        ) + seq![item("Clear primary"@, AppEvent::Clear(ClearTarget::Primary), full)]
    }

    /// The part on the regular selection.
    pub open spec fn regular_part(self) -> Seq<MenuModel> {
        let full = filled(self.regular);
        seq![remark(selection_label("Regular"@, self.regular, self.hide_content))] + wanted(
            seq![
                item(
                    "Edit regular"@,
                    AppEvent::Edit(EditTarget::Regular),
                    self.editor_target is None && full,
                ),
            ],
            self.editor_enabled,
        ) + seq![action_item("Copy regular to primary"@, ClipboardAction::CopyRegular, full)]
            + wanted(
            seq![item("Stack regular"@, AppEvent::Stack(StackAction::PushRegular), full)],
            self.stack_enabled,
        ) + seq![item("Clear regular"@, AppEvent::Clear(ClearTarget::Regular), full)]
    }

    /// Whether either selection holds a text that is not empty.
    pub open spec fn any_content(self) -> bool {
        filled(self.primary) || filled(self.regular)
    }

    /// Whether the selections can be exchanged to some effect.
    pub open spec fn switchable(self) -> bool {
        &&& self.any_content()
        &&& self.primary.content() is Some
        &&& self.regular.content() is Some
    }

    /// The part on both selections.
    pub open spec fn both_part(self) -> Seq<MenuModel> {
        seq![
            action_item("Switch clipboards"@, ClipboardAction::Switch, self.switchable()),
            action_item("Reset clipboards"@, ClipboardAction::Reset, self.any_content()),
        ]
    }

    /// The line on the stacked entry that is `number` places below the top of the stack.
    pub open spec fn entry_line(self, number: int) -> MenuModel {
        let entry = self.stack[self.stack.len() - 1 - number];
        let place = decimal((number + 1) as nat);
        if self.editor_enabled {
            item(
                if self.hide_content {
                    "Edit stacked entry "@ + place
                } else {
                    escaped("Edit "@ + place + ": "@ + text_preview(entry.value, false))
                },
                AppEvent::Edit(EditTarget::Stack(entry.id)),
                self.editor_target is None,
            )
        } else {
            remark(escaped(place + ": "@ + text_preview(entry.value, false)))
        }
    }

    /// The lines on the stacked entries, newest first. Without an editor they only show the
    /// texts, so there are none if content is hidden.
    pub open spec fn entry_lines(self) -> Seq<MenuModel> {
        if self.editor_enabled || !self.hide_content {
            Seq::new(self.stack.len(), |number: int| self.entry_line(number))
        } else {
            Seq::empty()
        }
    }

    /// The part on the stack.
    pub open spec fn stack_part(self) -> Seq<MenuModel> {
        if self.stack.len() == 0 {
            seq![separator(), remark("No stacked entries yet"@)]
        } else {
            seq![separator()] + self.entry_lines() + seq![
                item("Pop to primary"@, AppEvent::Stack(StackAction::PopPrimary), true),
                item("Pop to regular"@, AppEvent::Stack(StackAction::PopRegular), true),
                item("Pop to primary and regular"@, AppEvent::Stack(StackAction::PopBoth), true),
            ]
        }
    }

    /// The part on the applet itself.
    pub open spec fn applet_part(self) -> Seq<MenuModel> {
        seq![
            separator(),
            item(
                if self.notifications_enabled {
                    "Disable notifications"@
                } else {
                    "Enable notifications"@
                },
                AppEvent::ToggleNotifications,
                true,
            ),
            exit_item(),
        ]
    }

    /// The whole menu.
    pub open spec fn menu(self) -> Seq<MenuModel> {
        ((self.editor_part() + self.primary_part()).push(separator()) + self.regular_part()).push(
            separator(),
        ) + self.both_part() + wanted(self.stack_part(), self.stack_enabled) + self.applet_part()
    }
}

fn add_line(menu: &mut Vec<MenuEntry>, label: String, event: Option<AppEvent>, enabled: bool)
    ensures
        final(menu).deep_view() == old(menu).deep_view().push(
            MenuModel { label: label@, enabled, icon_name: Seq::empty(), event },
        ),
{
    menu.push(MenuEntry { label, enabled, icon_name: String::new(), event });
    assert(menu.deep_view() =~= old(menu).deep_view().push(
        MenuModel { label: label@, enabled, icon_name: Seq::empty(), event },
    ));
}

fn add_item(menu: &mut Vec<MenuEntry>, label: &str, event: AppEvent, enabled: bool)
    ensures
        final(menu).deep_view() == old(menu).deep_view().push(item(label@, event, enabled)),
{
    add_line(menu, label.to_owned(), Some(event), enabled);
}

fn add_action(menu: &mut Vec<MenuEntry>, label: &str, action: ClipboardAction, enabled: bool)
    ensures
        final(menu).deep_view() == old(menu).deep_view().push(action_item(label@, action, enabled)),
{
    add_item(
        menu,
        label,
        AppEvent::Action(ActionRequest { action, source: ActionSource::Menu }),
        enabled,
    );
}

fn add_remark(menu: &mut Vec<MenuEntry>, label: String)
    ensures
        final(menu).deep_view() == old(menu).deep_view().push(remark(label@)),
{
    add_line(menu, label, None, false);
}

fn add_separator(menu: &mut Vec<MenuEntry>)
    ensures
        final(menu).deep_view() == old(menu).deep_view().push(separator()),
{
    add_remark(menu, "────────────────────".to_owned());
}

fn add_exit(menu: &mut Vec<MenuEntry>)
    ensures
        final(menu).deep_view() == old(menu).deep_view().push(exit_item()),
{
    menu.push(
        MenuEntry {
            label: "Exit".to_owned(),
            enabled: true,
            icon_name: "application-exit".to_owned(),
            event: Some(AppEvent::Exit),
        },
    );
    assert(menu.deep_view() =~= old(menu).deep_view().push(exit_item()));
}

impl ClipboardTray {
    fn add_editor_part(&self, menu: &mut Vec<MenuEntry>)
        ensures
            final(menu).deep_view() == old(menu).deep_view() + self@.editor_part(),
    {
        if let Some(target) = self.editor_target {
            add_remark(menu, editing_label(target, &self.stack));
            add_item(menu, "Cancel edit", AppEvent::CancelEdit, true);
            add_separator(menu);
        }
        assert(menu.deep_view() =~= old(menu).deep_view() + self@.editor_part());
    }

    fn add_primary_part(&self, menu: &mut Vec<MenuEntry>)
        ensures
            final(menu).deep_view() == old(menu).deep_view() + self@.primary_part(),
    {
        let full = has_content(&self.primary);
        add_remark(menu, menu_label("Primary", &self.primary, self.hide_content));
        if self.editor_enabled {
            add_item(
                menu,
                "Edit primary",
                AppEvent::Edit(EditTarget::Primary),
                self.editor_target.is_none() && full,
            );
        }
        add_action(menu, "Copy primary to regular", ClipboardAction::CopyPrimary, full);
        if self.stack_enabled {
            add_item(menu, "Stack primary", AppEvent::Stack(StackAction::PushPrimary), full);
        }
        add_item(menu, "Clear primary", AppEvent::Clear(ClearTarget::Primary), full);
        assert(menu.deep_view() =~= old(menu).deep_view() + self@.primary_part());
    }

    fn add_regular_part(&self, menu: &mut Vec<MenuEntry>)
        ensures
            final(menu).deep_view() == old(menu).deep_view() + self@.regular_part(),
    {
        let full = has_content(&self.regular);
        add_remark(menu, menu_label("Regular", &self.regular, self.hide_content));
        if self.editor_enabled {
            add_item(
                menu,
                "Edit regular",
                AppEvent::Edit(EditTarget::Regular),
                self.editor_target.is_none() && full,
            );
        }
        add_action(menu, "Copy regular to primary", ClipboardAction::CopyRegular, full);
        if self.stack_enabled {
            add_item(menu, "Stack regular", AppEvent::Stack(StackAction::PushRegular), full);
        }
        add_item(menu, "Clear regular", AppEvent::Clear(ClearTarget::Regular), full);
        assert(menu.deep_view() =~= old(menu).deep_view() + self@.regular_part());
    }

    fn add_entry_line(&self, menu: &mut Vec<MenuEntry>, number: usize)
        requires
            number < self.stack@.len(),
        ensures
            final(menu).deep_view() == old(menu).deep_view().push(self@.entry_line(number as int)),
    {
        let entry = &self.stack[self.stack.len() - 1 - number];
        assert(self.stack.deep_view()[self.stack@.len() - 1 - number] == entry@);
        let place = decimal_text(number as u128 + 1);
        if self.editor_enabled {
            let label = if self.hide_content {
                join2("Edit stacked entry ", place.as_str())
            } else {
                escape_underscores(
                    join4(
                        "Edit ",
                        place.as_str(),
                        ": ",
                        preview_text(entry.value.as_str(), false).as_str(),
                    ).as_str(),
                )
            };
            add_item(
                menu,
                label.as_str(),
                AppEvent::Edit(EditTarget::Stack(entry.id)),
                self.editor_target.is_none(),
            );
        } else {
            add_remark(
                menu,
                escape_underscores(
                    join3(
                        place.as_str(),
                        ": ",
                        preview_text(entry.value.as_str(), false).as_str(),
                    ).as_str(),
                ),
            );
        }
    }

    fn add_stack_part(&self, menu: &mut Vec<MenuEntry>)
        ensures
            final(menu).deep_view() == old(menu).deep_view() + self@.stack_part(),
    {
        let ghost before = menu.deep_view();
        add_separator(menu);
        if self.stack.is_empty() {
            add_remark(menu, "No stacked entries yet".to_owned());
        } else {
            let ghost listed = menu.deep_view();
            if self.editor_enabled || !self.hide_content {
                let mut number: usize = 0;
                while number < self.stack.len()
                    invariant
                        number <= self.stack@.len(),
                        self.editor_enabled || !self.hide_content,
                        menu.deep_view() == listed + self@.entry_lines().take(number as int),
                    decreases self.stack@.len() - number,
                {
                    self.add_entry_line(menu, number);
                    assert(self@.entry_lines().take(number + 1) =~= self@.entry_lines().take(
                        number as int,
                    ).push(self@.entry_line(number as int)));
                    number += 1;
                }
            }
            assert(menu.deep_view() =~= listed + self@.entry_lines());
            add_item(menu, "Pop to primary", AppEvent::Stack(StackAction::PopPrimary), true);
            add_item(menu, "Pop to regular", AppEvent::Stack(StackAction::PopRegular), true);
            add_item(menu, "Pop to primary and regular", AppEvent::Stack(StackAction::PopBoth), true);
        }
        assert(menu.deep_view() =~= before + self@.stack_part());
    }

    fn add_both_part(&self, menu: &mut Vec<MenuEntry>)
        ensures
            final(menu).deep_view() == old(menu).deep_view() + self@.both_part(),
    {
        let any_content = has_content(&self.primary) || has_content(&self.regular);
        let switch_enabled = any_content && is_switchable(&self.primary) && is_switchable(
            &self.regular,
        );
        add_action(menu, "Switch clipboards", ClipboardAction::Switch, switch_enabled);
        add_action(menu, "Reset clipboards", ClipboardAction::Reset, any_content);
        assert(menu.deep_view() =~= old(menu).deep_view() + self@.both_part());
    }

    fn add_applet_part(&self, menu: &mut Vec<MenuEntry>)
        ensures
            final(menu).deep_view() == old(menu).deep_view() + self@.applet_part(),
    {
        add_separator(menu);
        add_item(
            menu,
            if self.notifications_enabled {
                "Disable notifications"
            } else {
                "Enable notifications"
            },
            AppEvent::ToggleNotifications,
            true,
        );
        add_exit(menu);
        assert(menu.deep_view() =~= old(menu).deep_view() + self@.applet_part());
    }

    /// The lines of the menu, from the top.
    pub fn menu(&self) -> (menu: Vec<MenuEntry>)
        ensures
            menu.deep_view() == self@.menu(),
    {
        let mut menu: Vec<MenuEntry> = Vec::new();
        let ghost tray = self@;
        let ghost empty = menu.deep_view();
        self.add_editor_part(&mut menu);
        assert(empty + tray.editor_part() =~= tray.editor_part());
        self.add_primary_part(&mut menu);
        add_separator(&mut menu);
        self.add_regular_part(&mut menu);
        add_separator(&mut menu);
        self.add_both_part(&mut menu);
        let ghost above = menu.deep_view();
        if self.stack_enabled {
            self.add_stack_part(&mut menu);
        } else {
            assert(above + wanted(tray.stack_part(), false) =~= above);
        }
        self.add_applet_part(&mut menu);
        menu
    }
}

/// What the desktop shows when the pointer rests on the tray icon.
#[derive(Debug, PartialEq, Eq)]
pub struct ToolTip {
    pub title: String,
    pub description: String,
}

impl ClipboardTray {
    /// The tray icon before the selections have been read.
    pub fn new(
        config: &Config,
        notifications_enabled: bool,
        stack_enabled: bool,
        max_clipboard_bytes: u64,
    ) -> (tray: Self)
        ensures
            tray.tooltip@ == tooltip(ReadModel::Empty, ReadModel::Empty, config.hide_content),
            tray.icon_name == config.icon_name,
            tray.left_click == config.left_click,
            tray.middle_click == config.middle_click,
            tray.max_clipboard_bytes == max_clipboard_bytes,
            tray@ == (TrayModel {
                primary: ReadModel::Empty,
                regular: ReadModel::Empty,
                stack: Seq::empty(),
                hide_content: config.hide_content,
                notifications_enabled,
                editor_enabled: config.editor@.len() > 0,
                editor_target: None,
                stack_enabled,
            }),
    {
        let tray = ClipboardTray {
            tooltip: tooltip_text(
                &ClipboardRead::Empty,
                &ClipboardRead::Empty,
                config.hide_content,
            ),
            icon_name: config.icon_name.clone(),
            left_click: config.left_click,
            middle_click: config.middle_click,
            primary: ClipboardRead::Empty,
            regular: ClipboardRead::Empty,
            stack: Vec::new(),
            hide_content: config.hide_content,
            notifications_enabled,
            editor_enabled: !config.editor.is_empty(),
            editor_target: None,
            stack_enabled,
            max_clipboard_bytes,
        };
        assert(tray.stack.deep_view() =~= Seq::<EntryModel>::empty());
        tray
    }

    /// The name under which the tray icon registers.
    pub fn id(&self) -> (id: &'static str)
        ensures
            id@ == "clipboard-applet"@,
    {
        "clipboard-applet"
    }

    /// The title of the tray icon.
    pub fn title(&self) -> (title: &'static str)
        ensures
            title@ == "Clipboard"@,
    {
        "Clipboard"
    }

    /// The name of the icon.
    pub fn icon_name(&self) -> (name: String)
        ensures
            name == self.icon_name,
    {
        self.icon_name.clone()
    }

    /// What the desktop shows when the pointer rests on the tray icon.
    pub fn tool_tip(&self) -> (tip: ToolTip)
        ensures
            tip.title@ == "Clipboard"@,
            tip.description == self.tooltip,
    {
        ToolTip { title: "Clipboard".to_owned(), description: self.tooltip.clone() }
    }

    /// What a left click asks for.
    pub fn activate(&self) -> (event: AppEvent)
        ensures
            event == AppEvent::Action(
                ActionRequest { action: self.left_click, source: ActionSource::LeftClick },
            ),
    {
        AppEvent::Action(ActionRequest { action: self.left_click, source: ActionSource::LeftClick })
    }

    /// What a middle click asks for.
    pub fn secondary_activate(&self) -> (event: AppEvent)
        ensures
            event == AppEvent::Action(
                ActionRequest { action: self.middle_click, source: ActionSource::MiddleClick },
            ),
    {
        AppEvent::Action(
            ActionRequest { action: self.middle_click, source: ActionSource::MiddleClick },
        )
    }
}

} // verus!
