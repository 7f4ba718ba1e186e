//! What holds of every menu, tooltip and preview.
use crate::clipboard::{
    ActionRequest, ActionSource, ClearTarget, ClipboardAction, ClipboardRead, ReadModel,
};
use crate::stack::{position, stands_at, EntryModel, StackAction, StackEntry};
use crate::stack_laws::{
    is_absent, is_first, law_absent_identities_have_no_position, law_positions,
};
use crate::text::{decimal, escaped};
use crate::tray::{
    editing_label, editing_notice, exit_item, filled, flattened, has_content, is_switchable,
    item, menu_label, preview, preview_text, read_preview, separator, text_preview, tooltip,
    tooltip_text, wanted, AppEvent, ClipboardTray, EditTarget, MenuEntry, MenuModel, TrayModel,
    PREVIEW_CHARS,
};
use vstd::prelude::*;

verus! {

/// Whether two reads look the same once their content is hidden: of a text, only its length shows.
pub open spec fn look_alike(left: ReadModel, right: ReadModel) -> bool {
    match (left, right) {
        (ReadModel::Text(left), ReadModel::Text(right)) => left.len() == right.len(),
        (ReadModel::Error(_), ReadModel::Error(_)) => true,
        _ => left == right,
    }
}

/// Whether two stacks hold entries with the same identities, whatever the texts are.
pub open spec fn same_identities(left: Seq<EntryModel>, right: Seq<EntryModel>) -> bool {
    &&& left.len() == right.len()
    &&& forall|i: int|
        #![trigger left[i]]
        #![trigger right[i]]
        0 <= i < left.len() ==> left[i].id == right[i].id
}

/// If content is hidden, the tooltip and the menu give away no more of it than how long the texts
/// of the selections are.
pub proof fn law_hidden_content_does_not_show(left: TrayModel, right: TrayModel)
    requires
        left.hide_content,
        look_alike(left.primary, right.primary),
        look_alike(left.regular, right.regular),
        same_identities(left.stack, right.stack),
        right == (TrayModel {
            primary: right.primary,
            regular: right.regular,
            stack: right.stack,
            ..left
        }),
    ensures
        left.menu() == right.menu(),
        tooltip(left.primary, left.regular, true) == tooltip(right.primary, right.regular, true),
{
    lemma_same_identities_same_positions(left, right);
    assert(left.primary_part() == right.primary_part());
    assert(left.regular_part() == right.regular_part());
    assert(left.both_part() == right.both_part());
    assert(left.entry_lines() =~= right.entry_lines());
    assert(left.stack_part() == right.stack_part());
}

proof fn lemma_same_identities_same_positions(left: TrayModel, right: TrayModel)
    requires
        same_identities(left.stack, right.stack),
        left.editor_target == right.editor_target,
    ensures
        left.editor_part() == right.editor_part(),
{
    if let Some(EditTarget::Stack(id)) = left.editor_target {
        assert forall|index: int| stands_at(left.stack, id, index) == stands_at(
            right.stack,
            id,
            index,
        ) by {}
        if exists|index: int| stands_at(left.stack, id, index) {
            let one = choose|index: int| stands_at(left.stack, id, index);
            assert(stands_at(right.stack, id, one));
            let other = choose|index: int| stands_at(right.stack, id, index);
            assert(stands_at(left.stack, id, other));
            assert(one == other);
        }
        assert(position(left.stack, id) == position(right.stack, id));
    }
}

/// Whether the menu of a tray icon offers an event at all.
pub open spec fn offered(tray: TrayModel, event: AppEvent) -> bool {
    match event {
        AppEvent::Action(request) => request.source is Menu,
        AppEvent::Stack(StackAction::PushPrimary) | AppEvent::Stack(StackAction::PushRegular) => {
            tray.stack_enabled
        },
        AppEvent::Stack(_) => tray.stack_enabled && tray.stack.len() > 0,
        AppEvent::Clear(_) => true,
        AppEvent::Edit(EditTarget::Stack(id)) => tray.editor_enabled && tray.stack_enabled
            && exists|i: int| 0 <= i < tray.stack.len() && (#[trigger] tray.stack[i]).id == id,
        AppEvent::Edit(_) => tray.editor_enabled,
        AppEvent::CancelEdit => tray.editor_target is Some,
        AppEvent::ToggleNotifications | AppEvent::Exit => true,
    }
}

/// Whether an event of the menu has what it needs: a selection to copy, stack, clear or edit must
/// hold a text that is not empty, both must be readable to be exchanged, and no editor may be
/// open when another one is to be.
pub open spec fn possible(tray: TrayModel, event: AppEvent) -> bool {
    match event {
        AppEvent::Action(request) => match request.action {
            ClipboardAction::CopyPrimary => filled(tray.primary),
            ClipboardAction::CopyRegular => filled(tray.regular),
            ClipboardAction::Switch => tray.switchable(),
            ClipboardAction::Reset => filled(tray.primary) || filled(tray.regular),
        },
        AppEvent::Stack(StackAction::PushPrimary) => filled(tray.primary),
        AppEvent::Stack(StackAction::PushRegular) => filled(tray.regular),
        AppEvent::Clear(ClearTarget::Primary) => filled(tray.primary),
        AppEvent::Clear(ClearTarget::Regular) => filled(tray.regular),
        AppEvent::Edit(EditTarget::Primary) => tray.editor_target is None && filled(tray.primary),
        AppEvent::Edit(EditTarget::Regular) => tray.editor_target is None && filled(tray.regular),
        AppEvent::Edit(EditTarget::Stack(_)) => tray.editor_target is None,
        _ => true,
    }
}

/// Whether a line fits a menu: a line that asks for nothing is disabled, and one that asks for an
/// event is enabled exactly if the event is possible.
pub open spec fn fits(tray: TrayModel, line: MenuModel) -> bool {
    match line.event {
        None => !line.enabled,
        Some(event) => offered(tray, event) && line.enabled == possible(tray, event),
    }
}

/// Whether all lines fit a menu.
pub open spec fn all_fit(tray: TrayModel, lines: Seq<MenuModel>) -> bool {
    forall|i: int| 0 <= i < lines.len() ==> fits(tray, #[trigger] lines[i])
}

/// Every line of a menu is enabled exactly if what it asks for is possible; lines on the editor or
/// on the stack are only there if the editor or the stack is, and an edit of a stacked entry is
/// only offered for an entry that exists.
#[verifier::rlimit(30)]
pub proof fn law_lines_are_enabled_if_possible(tray: TrayModel)
    ensures
        all_fit(tray, tray.menu()),
{
    assert(all_fit(tray, tray.editor_part()));
    assert(all_fit(tray, tray.primary_part()));
    assert(all_fit(tray, tray.regular_part()));
    assert(all_fit(tray, tray.both_part()));
    assert(all_fit(tray, tray.applet_part()));
    if tray.stack_enabled {
        lemma_stack_part_fits(tray);
    }
    assert(all_fit(tray, wanted(tray.stack_part(), tray.stack_enabled)));
}

proof fn lemma_stack_part_fits(tray: TrayModel)
    requires
        tray.stack_enabled,
    ensures
        all_fit(tray, tray.stack_part()),
{
    assert forall|i: int| 0 <= i < tray.entry_lines().len() implies fits(
        tray,
        #[trigger] tray.entry_lines()[i],
    ) by {
        let entry = tray.stack[tray.stack.len() - 1 - i];
        assert(tray.entry_lines()[i] == tray.entry_line(i));
        assert(entry.id == entry.id);
    }
}

/// The last line of every menu ends the applet, and is enabled.
pub proof fn law_exit_is_always_there(tray: TrayModel)
    ensures
        tray.menu().len() > 0,
        tray.menu().last() == exit_item(),
{
}

/// Whether a text is one line of a menu or a tooltip.
pub open spec fn one_line(text: Seq<char>) -> bool {
    forall|i: int|
        0 <= i < text.len() ==> (#[trigger] text[i]) != '\n' && text[i] != '\r' && text[i] != '\t'
}

/// A preview is one line, whatever it is a preview of.
pub proof fn law_previews_are_one_line(read: ReadModel, hide: bool)
    ensures
        one_line(read_preview(read, hide)),
{
    reveal_strlit(" ");
    reveal_strlit("char");
    reveal_strlit("chars");
    reveal_strlit("... (and ");
    reveal_strlit(" more chars)");
    reveal_strlit("0 chars");
    reveal_strlit("(empty)");
    reveal_strlit("(non-text)");
    reveal_strlit("(unsupported)");
    reveal_strlit("(over ");
    reveal_strlit(" bytes)");
    reveal_strlit("(unavailable)");
    match read {
        ReadModel::Text(text) => {
            lemma_decimals_are_one_line(text.len());
            if text.len() > PREVIEW_CHARS {
                lemma_decimals_are_one_line((text.len() - PREVIEW_CHARS) as nat);
            }
        },
        ReadModel::Oversized { limit } => lemma_decimals_are_one_line(limit as nat),
        _ => {},
    }
}

proof fn lemma_decimals_are_one_line(value: nat)
    ensures
        one_line(decimal(value)),
    decreases value,
{
    if value >= 10 {
        lemma_decimals_are_one_line(value / 10);
    }
}

/// A preview of a text that is not hidden begins with the text itself, except that line breaks
/// and tabs are shown as spaces, and shows all of it if the text is short.
pub proof fn law_previews_show_the_beginning(text: Seq<char>, place: int)
    requires
        0 <= place < text.len(),
        place < PREVIEW_CHARS,
    ensures
        text_preview(text, false)[place] == flattened(text[place]),
        text.len() <= PREVIEW_CHARS ==> text_preview(text, false).len() == text.len(),
{
}

/// What a menu shows of a label: two underscores in a row are shown as one, and any other
/// underscore is not shown but marks an access key.
pub open spec fn shown(label: Seq<char>) -> Seq<char>
    decreases label.len(),
{
    if label.len() == 0 {
        Seq::empty()
    } else if label[0] != '_' {
        seq![label[0]] + shown(label.skip(1))
    } else if label.len() >= 2 && label[1] == '_' {
        seq!['_'] + shown(label.skip(2))
    } else {
        shown(label.skip(1))
    }
}

/// A menu shows an escaped label as the text it was made from.
pub proof fn law_escaped_labels_are_shown_as_written(text: Seq<char>)
    ensures
        shown(escaped(text)) == text,
    decreases text.len(),
{
    if text.len() > 0 {
        let rest = text.skip(1);
        lemma_escaping_goes_character_by_character(text);
        law_escaped_labels_are_shown_as_written(rest);
        let label = escaped(text);
        if text[0] == '_' {
            assert(label.skip(2) =~= escaped(rest));
        } else {
            assert(label.skip(1) =~= escaped(rest));
        }
        assert(seq![text[0]] + rest =~= text);
    }
}

proof fn lemma_escaping_goes_character_by_character(text: Seq<char>)
    requires
        text.len() > 0,
    ensures
        escaped(text) == if text[0] == '_' {
            seq!['_', '_'] + escaped(text.skip(1))
        } else {
            seq![text[0]] + escaped(text.skip(1))
        },
    decreases text.len(),
{
    if text.len() == 1 {
        assert(text.drop_last() =~= Seq::empty());
        assert(text.skip(1) =~= Seq::empty());
    } else {
        lemma_escaping_goes_character_by_character(text.drop_last());
        assert(text.drop_last().skip(1) =~= text.skip(1).drop_last());
    }
}

/// Whether a character of a preview shows a character of a text: line breaks and tabs as spaces,
/// anything else as it is.
pub open spec fn shows_character(seen: char, character: char) -> bool {
    if character == '\n' || character == '\r' || character == '\t' {
        seen == ' '
    } else {
        seen == character
    }
}

/// Whether a preview shows a text: all of it if it has at most 40 characters, otherwise the first
/// 40 and how many more there are.
pub open spec fn shows_text(preview: Seq<char>, text: Seq<char>) -> bool {
    &&& preview.len() >= text.len() || preview.len() >= 40
    &&& forall|i: int|
        0 <= i < text.len() && i < 40 ==> shows_character(#[trigger] preview[i], text[i])
    &&& text.len() <= 40 ==> preview.len() == text.len()
    &&& text.len() > 40 ==> preview.skip(40) == "... (and "@ + decimal((text.len() - 40) as nat)
        + " more chars)"@
}

/// Whether a preview tells how long a text is, and nothing else.
pub open spec fn counts_text(preview: Seq<char>, text: Seq<char>) -> bool {
    preview == decimal(text.len()) + " "@ + if text.len() == 1 {
        "char"@
    } else {
        "chars"@
    }
}

/// A preview of a text shows it, or counts its characters if content is hidden.
pub proof fn law_texts_are_previewed(text: Seq<char>)
    ensures
        shows_text(text_preview(text, false), text),
        counts_text(text_preview(text, true), text),
{
    let preview = text_preview(text, false);
    if text.len() > 40 {
        let rest = "... (and "@ + decimal((text.len() - 40) as nat) + " more chars)"@;
        assert(preview.skip(40) =~= rest);
    }
}

/// Whether a preview is that of a read.
pub open spec fn previews(preview: Seq<char>, read: ReadModel, hide: bool) -> bool {
    match read {
        ReadModel::Text(text) => if hide {
            counts_text(preview, text)
        } else {
            shows_text(preview, text)
        },
        ReadModel::Empty => if hide {
            preview == "0 chars"@
        } else {
            preview == "(empty)"@
        },
        ReadModel::NonText => preview == "(non-text)"@,
        ReadModel::Unsupported => preview == "(unsupported)"@,
        ReadModel::Oversized { limit } => preview == "(over "@ + decimal(limit as nat) + " bytes)"@,
        ReadModel::Error(_) => preview == "(unavailable)"@,
    }
}

/// A preview of a read is that of its text, or names its state.
pub proof fn law_reads_are_previewed(read: ReadModel, hide: bool)
    ensures
        previews(read_preview(read, hide), read, hide),
{
    if let ReadModel::Text(text) = read {
        law_texts_are_previewed(text);
    }
}

/// The calls that write previews do so.
pub proof fn law_previews_are_written(
    text: &str,
    read: ClipboardRead,
    hide: bool,
    of_text: String,
    of_read: String,
)
    requires
        call_ensures(preview_text, (text, hide), of_text),
        call_ensures(preview, (&read, hide), of_read),
    ensures
        hide ==> counts_text(of_text@, text@),
        !hide ==> shows_text(of_text@, text@),
        previews(of_read@, read@, hide),
{
    law_texts_are_previewed(text@);
    law_reads_are_previewed(read@, hide);
}

/// A tooltip is two lines: the preview of the primary selection under its name, and below it the
/// preview of the regular one under its name.
pub proof fn law_tooltips_show_each_selection_under_its_name(
    primary: ClipboardRead,
    regular: ClipboardRead,
    hide: bool,
    text: String,
    above: String,
    below: String,
)
    requires
        call_ensures(tooltip_text, (&primary, &regular, hide), text),
        call_ensures(preview, (&primary, hide), above),
        call_ensures(preview, (&regular, hide), below),
    ensures
        text@ == "primary: "@ + above@ + "\nregular: "@ + below@,
        previews(above@, primary@, hide),
        previews(below@, regular@, hide),
        one_line("primary: "@ + above@),
        text@.subrange(9, 9 + above@.len() as int) == above@,
        text@.skip(19 + above@.len() as int) == below@,
        text@[9 + above@.len() as int] == '\n',
{
    reveal_strlit("primary: ");
    reveal_strlit("\nregular: ");
    law_reads_are_previewed(primary@, hide);
    law_reads_are_previewed(regular@, hide);
    law_previews_are_one_line(primary@, hide);
    assert(text@.subrange(9, 9 + above@.len() as int) =~= above@);
    assert(text@.skip(19 + above@.len() as int) =~= below@);
}

/// The first line of a tooltip depends on the primary selection alone, and the second on the
/// regular one alone.
pub proof fn law_tooltip_lines_are_independent(
    primary: ReadModel,
    regular: ReadModel,
    other: ReadModel,
    hide: bool,
)
    ensures
        ({
            let text = tooltip(primary, regular, hide);
            let first = "primary: "@ + read_preview(primary, hide);
            let second = "\nregular: "@ + read_preview(regular, hide);
            &&& text == first + second
            &&& tooltip(primary, other, hide).take(first.len() as int) == text.take(
                first.len() as int,
            )
            &&& tooltip(other, regular, hide).skip(
                tooltip(other, regular, hide).len() - second.len(),
            ) == second
        }),
        primary matches ReadModel::Text(shown) ==> (!hide ==> forall|i: int|
            0 <= i < shown.len() && i < 40 ==> shows_character(
                #[trigger] tooltip(primary, regular, hide)[9 + i],
                shown[i],
            )),
{
    reveal_strlit("primary: ");
    let first = "primary: "@ + read_preview(primary, hide);
    let second = "\nregular: "@ + read_preview(regular, hide);
    let text = tooltip(primary, regular, hide);
    assert(text =~= first + second);
    assert(tooltip(primary, other, hide).take(first.len() as int) =~= first);
    assert(text.take(first.len() as int) =~= first);
    let beside = tooltip(other, regular, hide);
    assert(beside.skip(beside.len() - second.len()) =~= second);
    law_reads_are_previewed(primary, hide);
    if let ReadModel::Text(shown) = primary {
        if !hide {
            assert forall|i: int| 0 <= i < shown.len() && i < 40 implies shows_character(
                #[trigger] text[9 + i],
                shown[i],
            ) by {
                assert(text[9 + i] == read_preview(primary, hide)[i]);
            }
        }
    }
}

/// A label shows the name of a selection and its preview.
pub proof fn law_labels_show_name_and_preview(
    name: &str,
    read: ClipboardRead,
    hide: bool,
    label: String,
    seen: String,
)
    requires
        call_ensures(menu_label, (name, &read, hide), label),
        call_ensures(preview, (&read, hide), seen),
    ensures
        shown(label@) == name@ + ": "@ + seen@,
        label@ == escaped(name@ + ": "@ + seen@),
        previews(seen@, read@, hide),
{
    law_escaped_labels_are_shown_as_written(name@ + ": "@ + seen@);
    law_reads_are_previewed(read@, hide);
}

/// A selection has content exactly if it holds a text that is not empty, and can be exchanged
/// exactly if it holds a text or is empty.
pub proof fn law_what_selections_hold(read: ClipboardRead, content: bool, exchangeable: bool)
    requires
        call_ensures(has_content, (&read,), content),
        call_ensures(is_switchable, (&read,), exchangeable),
    ensures
        content <==> (read matches ClipboardRead::Text(text) && text@.len() > 0),
        exchangeable <==> read is Text || read is Empty,
        content <==> filled(read@),
{
}

/// The menu says what is being edited; a stacked entry by its place from the top.
pub proof fn law_what_is_being_edited(
    target: EditTarget,
    stack: Vec<StackEntry>,
    label: String,
    place: int,
)
    requires
        call_ensures(editing_label, (target, &stack), label),
    ensures
        target is Primary ==> label@ == "Editing primary"@,
        target is Regular ==> label@ == "Editing regular"@,
        target matches EditTarget::Stack(id) ==> (is_absent(stack@, id) ==> label@
            == "Editing removed stacked entry"@),
        target matches EditTarget::Stack(id) ==> (is_first(stack@, id, place) ==> label@
            == "Editing stacked entry "@ + decimal((stack@.len() - place) as nat)),
{
    if let EditTarget::Stack(id) = target {
        let entries = stack.deep_view();
        assert(entries.len() == stack@.len());
        if is_absent(stack@, id) {
            assert forall|i: int| 0 <= i < entries.len() implies (#[trigger] entries[i]).id
                != id by {
                assert(entries[i] == stack@[i]@);
            }
            law_absent_identities_have_no_position(entries, id);
        }
        if is_first(stack@, id, place) {
            assert(entries[place] == stack@[place]@);
            assert forall|i: int| 0 <= i < place implies (#[trigger] entries[i]).id != id by {
                assert(entries[i] == stack@[i]@);
            }
            law_positions(entries, id, place);
        }
    }
}

/// The same of the model, over the entries themselves.
pub proof fn law_editing_notices(target: EditTarget, stack: Seq<EntryModel>, place: int)
    ensures
        target is Primary ==> editing_notice(target, stack) == "Editing primary"@,
        target is Regular ==> editing_notice(target, stack) == "Editing regular"@,
        target matches EditTarget::Stack(id) ==> (0 <= place < stack.len() && stack[place].id == id
            && (forall|i: int| 0 <= i < place ==> (#[trigger] stack[i]).id != id)
            ==> editing_notice(target, stack) == "Editing stacked entry "@ + decimal(
            (stack.len() - place) as nat,
        )),
        target matches EditTarget::Stack(id) ==> ((forall|i: int|
            0 <= i < stack.len() ==> (#[trigger] stack[i]).id != id) ==> editing_notice(
            target,
            stack,
        ) == "Editing removed stacked entry"@),
{
    if let EditTarget::Stack(id) = target {
        if 0 <= place < stack.len() && stack[place].id == id && (forall|i: int|
            0 <= i < place ==> (#[trigger] stack[i]).id != id) {
            law_positions(stack, id, place);
        }
    }
}

/// The model of a tray icon is what it holds.
pub proof fn law_trays_are_modelled_whole(tray: ClipboardTray)
    ensures
        tray@ == (TrayModel {
            primary: tray.primary@,
            regular: tray.regular@,
            stack: tray.stack.deep_view(),
            hide_content: tray.hide_content,
            notifications_enabled: tray.notifications_enabled,
            editor_enabled: tray.editor_enabled,
            editor_target: tray.editor_target,
            stack_enabled: tray.stack_enabled,
        }),
{
}

/// The lines of the menu that is shown are those of the model, one by one.
pub proof fn law_menus_are_modelled_whole(tray: ClipboardTray, menu: Vec<MenuEntry>, place: int)
    requires
        call_ensures(ClipboardTray::menu, (&tray,), menu),
    ensures
        menu@.len() == tray@.menu().len(),
        0 <= place < menu@.len() ==> {
            let line = tray@.menu()[place];
            &&& menu@[place].label@ == line.label
            &&& menu@[place].enabled == line.enabled
            &&& menu@[place].icon_name@ == line.icon_name
            &&& menu@[place].event == line.event
        },
{
    assert(menu.deep_view().len() == menu@.len());
    if 0 <= place < menu@.len() {
        assert(menu.deep_view()[place] == menu@[place].deep_view());
    }
}

/// The label of the line that asks for an event, where one label is for one event.
pub open spec fn label_of(event: AppEvent, notifications_enabled: bool) -> Seq<char> {
    match event {
        AppEvent::Action(request) => match request.action {
            ClipboardAction::CopyPrimary => "Copy primary to regular"@,
            ClipboardAction::CopyRegular => "Copy regular to primary"@,
            ClipboardAction::Switch => "Switch clipboards"@,
            ClipboardAction::Reset => "Reset clipboards"@,
        },
        AppEvent::Stack(StackAction::PushPrimary) => "Stack primary"@,
        AppEvent::Stack(StackAction::PushRegular) => "Stack regular"@,
        AppEvent::Stack(StackAction::PopPrimary) => "Pop to primary"@,
        AppEvent::Stack(StackAction::PopRegular) => "Pop to regular"@,
        AppEvent::Stack(StackAction::PopBoth) => "Pop to primary and regular"@,
        AppEvent::Clear(ClearTarget::Primary) => "Clear primary"@,
        AppEvent::Clear(ClearTarget::Regular) => "Clear regular"@,
        AppEvent::Edit(EditTarget::Primary) => "Edit primary"@,
        AppEvent::Edit(_) => "Edit regular"@,
        AppEvent::CancelEdit => "Cancel edit"@,
        AppEvent::ToggleNotifications => if notifications_enabled {
            "Disable notifications"@
        } else {
            "Enable notifications"@
        },
        AppEvent::Exit => "Exit"@,
    }
}

/// Whether a line is labelled after what it asks for. A stacked entry is labelled by its place and
/// its text.
pub open spec fn named(tray: TrayModel, line: MenuModel) -> bool {
    match line.event {
        None => true,
        Some(AppEvent::Edit(EditTarget::Stack(id))) => exists|i: int|
            0 <= i < tray.stack.len() && (#[trigger] tray.stack[i]).id == id && line.label == if
                tray.hide_content {
                "Edit stacked entry "@ + decimal((tray.stack.len() - i) as nat)
            } else {
                escaped(
                    "Edit "@ + decimal((tray.stack.len() - i) as nat) + ": "@ + text_preview(
                        tray.stack[i].value,
                        false,
                    ),
                )
            },
        Some(event) => line.label == label_of(event, tray.notifications_enabled),
    }
}

/// Whether all lines are labelled after what they ask for.
pub open spec fn all_named(tray: TrayModel, lines: Seq<MenuModel>) -> bool {
    forall|i: int| 0 <= i < lines.len() ==> named(tray, #[trigger] lines[i])
}

/// Every line of a menu is labelled after the event that it asks for.
pub proof fn law_lines_ask_for_what_they_say(tray: TrayModel)
    ensures
        all_named(tray, tray.menu()),
{
    assert(all_named(tray, tray.editor_part()));
    assert(all_named(tray, tray.primary_part()));
    assert(all_named(tray, tray.regular_part()));
    assert(all_named(tray, tray.both_part()));
    assert(all_named(tray, tray.applet_part()));
    assert forall|i: int| 0 <= i < tray.entry_lines().len() implies named(
        tray,
        #[trigger] tray.entry_lines()[i],
    ) by {
        let place = tray.stack.len() - 1 - i;
        assert(tray.entry_lines()[i] == tray.entry_line(i));
        assert(tray.stack[place].id == tray.stack[place].id);
        assert(tray.stack.len() - place == i + 1);
    }
    assert(all_named(tray, tray.stack_part()));
}

/// Whether the line at a place of a menu is the one described. No line but the last has an icon.
pub open spec fn stands(
    menu: Seq<MenuModel>,
    place: int,
    label: Seq<char>,
    event: Option<AppEvent>,
    enabled: bool,
) -> bool {
    &&& 0 <= place < menu.len()
    &&& menu[place].label == label
    &&& menu[place].event == event
    &&& menu[place].enabled == enabled
    &&& menu[place].icon_name == Seq::<char>::empty()
}

/// Whether a read is a text that is not empty.
pub open spec fn is_full(read: ReadModel) -> bool {
    read matches ReadModel::Text(text) && text.len() > 0
}

/// Whether the lines from a place on are those on one selection.
pub open spec fn selection_lines(
    tray: TrayModel,
    menu: Seq<MenuModel>,
    start: int,
    primary: bool,
) -> bool {
    let read = if primary {
        tray.primary
    } else {
        tray.regular
    };
    let editor: int = if tray.editor_enabled {
        1
    } else {
        0
    };
    let stack: int = if tray.stack_enabled {
        1
    } else {
        0
    };
    let full = is_full(read);
    &&& stands(
        menu,
        start,
        escaped(
            (if primary {
                "Primary"@
            } else {
                "Regular"@
            }) + ": "@ + read_preview(read, tray.hide_content),
        ),
        None,
        false,
    )
    &&& tray.editor_enabled ==> stands(
        menu,
        start + 1,
        if primary {
            "Edit primary"@
        } else {
            "Edit regular"@
        },
        Some(
            AppEvent::Edit(
                if primary {
                    EditTarget::Primary
                } else {
                    EditTarget::Regular
                },
            ),
        ),
        full && tray.editor_target is None,
    )
    &&& stands(
        menu,
        start + 1 + editor,
        if primary {
            "Copy primary to regular"@
        } else {
            "Copy regular to primary"@
        },
        Some(
            AppEvent::Action(
                ActionRequest {
                    action: if primary {
                        ClipboardAction::CopyPrimary
                    } else {
                        ClipboardAction::CopyRegular
                    },
                    source: ActionSource::Menu,
                },
            ),
        ),
        full,
    )
    &&& tray.stack_enabled ==> stands(
        menu,
        start + 2 + editor,
        if primary {
            "Stack primary"@
        } else {
            "Stack regular"@
        },
        Some(
            AppEvent::Stack(
                if primary {
                    StackAction::PushPrimary
                } else {
                    StackAction::PushRegular
                },
            ),
        ),
        full,
    )
    &&& stands(
        menu,
        start + 2 + editor + stack,
        if primary {
            "Clear primary"@
        } else {
            "Clear regular"@
        },
        Some(
            AppEvent::Clear(
                if primary {
                    ClearTarget::Primary
                } else {
                    ClearTarget::Regular
                },
            ),
        ),
        full,
    )
    &&& stands(menu, start + 3 + editor + stack, "────────────────────"@, None, false)
}

/// How many lines stand above those on the primary selection.
pub open spec fn lines_above(tray: TrayModel) -> int {
    if tray.editor_target is Some {
        3
    } else {
        0
    }
}

/// How many lines are on one selection, with the separator below them.
pub open spec fn lines_of_selection(tray: TrayModel) -> int {
    4 + (if tray.editor_enabled {
        1int
    } else {
        0int
    }) + (if tray.stack_enabled {
        1int
    } else {
        0int
    })
}

/// The upper lines of a menu, from the top: the editor that is open, the primary selection, the
/// regular selection, both selections.
pub proof fn law_how_a_menu_begins(tray: TrayModel)
    ensures
        ({
            let menu = tray.menu();
            let above = lines_above(tray);
            let part = lines_of_selection(tray);
            let full = is_full(tray.primary) || is_full(tray.regular);
            let readable = (tray.primary is Text || tray.primary is Empty) && (tray.regular is Text
                || tray.regular is Empty);
            &&& tray.editor_target matches Some(target) ==> {
                &&& stands(menu, 0, editing_notice(target, tray.stack), None, false)
                &&& stands(menu, 1, "Cancel edit"@, Some(AppEvent::CancelEdit), true)
                &&& stands(menu, 2, "────────────────────"@, None, false)
            }
            &&& selection_lines(tray, menu, above, true)
            &&& selection_lines(tray, menu, above + part, false)
            &&& stands(
                menu,
                above + 2 * part,
                "Switch clipboards"@,
                Some(
                    AppEvent::Action(
                        ActionRequest {
                            action: ClipboardAction::Switch,
                            source: ActionSource::Menu,
                        },
                    ),
                ),
                full && readable,
            )
            &&& stands(
                menu,
                above + 2 * part + 1,
                "Reset clipboards"@,
                Some(
                    AppEvent::Action(
                        ActionRequest { action: ClipboardAction::Reset, source: ActionSource::Menu },
                    ),
                ),
                full,
            )
        }),
{
    let menu = tray.menu();
    let above = lines_above(tray);
    let part = lines_of_selection(tray);
    let head = tray.editor_part();
    let primary = tray.primary_part();
    let regular = tray.regular_part();
    let both = tray.both_part();
    assert(head.len() == above);
    assert(primary.len() == part - 1);
    assert(regular.len() == part - 1);
    let one = (head + primary).push(separator());
    let two = (one + regular).push(separator());
    assert(one.len() == above + part);
    assert(two.len() == above + 2 * part);
    assert forall|i: int| 0 <= i < head.len() implies menu[i] == #[trigger] head[i] by {}
    assert forall|i: int| 0 <= i < primary.len() implies menu[above + i] == #[trigger] primary[i] by {}
    assert(menu[above + part - 1] == separator());
    assert forall|i: int| 0 <= i < regular.len() implies menu[above + part + i]
        == #[trigger] regular[i] by {}
    assert(menu[above + 2 * part - 1] == separator());
    assert(menu[above + 2 * part] == both[0]);
    assert(menu[above + 2 * part + 1] == both[1]);
    lemma_selection_part(tray, primary, true);
    lemma_selection_part(tray, regular, false);
    assert(selection_lines(tray, menu, above, true)) by {
        lemma_selection_lines(tray, menu, above, primary, true);
    }
    assert(selection_lines(tray, menu, above + part, false)) by {
        lemma_selection_lines(tray, menu, above + part, regular, false);
    }
}

proof fn lemma_selection_part(tray: TrayModel, part: Seq<MenuModel>, primary: bool)
    requires
        part == if primary {
            tray.primary_part()
        } else {
            tray.regular_part()
        },
    ensures
        selection_lines(tray, part.push(separator()), 0, primary),
{
}

proof fn lemma_selection_lines(
    tray: TrayModel,
    menu: Seq<MenuModel>,
    start: int,
    part: Seq<MenuModel>,
    primary: bool,
)
    requires
        0 <= start,
        part.len() == lines_of_selection(tray) - 1,
        start + part.len() < menu.len(),
        forall|i: int| 0 <= i < part.len() ==> menu[start + i] == #[trigger] part[i],
        menu[start + part.len()] == separator(),
        selection_lines(tray, part.push(separator()), 0, primary),
    ensures
        selection_lines(tray, menu, start, primary),
{
    let local = part.push(separator());
    assert forall|i: int| 0 <= i < local.len() implies menu[start + i] == #[trigger] local[i] by {
        if i < part.len() {
            assert(local[i] == part[i]);
        }
    }
    assert(local[0] == menu[start + 0]);
    assert(local[1] == menu[start + 1]);
    assert(local[2] == menu[start + 2]);
    assert(local[3] == menu[start + 3]);
    if local.len() > 4 {
        assert(local[4] == menu[start + 4]);
    }
    if local.len() > 5 {
        assert(local[5] == menu[start + 5]);
    }
}

/// The lower lines of a menu: the stack, newest entry first, if there is one, then notifications
/// and the way out. A stack that holds nothing says so; one that holds something can be popped to
/// either selection or to both.
pub proof fn law_how_a_menu_ends(tray: TrayModel, number: int)
    ensures
        ({
            let menu = tray.menu();
            let start = lines_above(tray) + 2 * lines_of_selection(tray) + 2;
            let listed: int = if tray.editor_enabled || !tray.hide_content {
                tray.stack.len() as int
            } else {
                0
            };
            let end = if !tray.stack_enabled {
                start
            } else if tray.stack.len() == 0 {
                start + 2
            } else {
                start + 4 + listed
            };
            &&& tray.stack_enabled ==> stands(menu, start, "────────────────────"@, None, false)
            &&& tray.stack_enabled && tray.stack.len() == 0 ==> stands(
                menu,
                start + 1,
                "No stacked entries yet"@,
                None,
                false,
            )
            &&& tray.stack_enabled && tray.stack.len() > 0 ==> {
                &&& stands(
                    menu,
                    start + 1 + listed,
                    "Pop to primary"@,
                    Some(AppEvent::Stack(StackAction::PopPrimary)),
                    true,
                )
                &&& stands(
                    menu,
                    start + 2 + listed,
                    "Pop to regular"@,
                    Some(AppEvent::Stack(StackAction::PopRegular)),
                    true,
                )
                &&& stands(
                    menu,
                    start + 3 + listed,
                    "Pop to primary and regular"@,
                    Some(AppEvent::Stack(StackAction::PopBoth)),
                    true,
                )
                &&& 0 <= number < listed ==> ({
                    let entry = tray.stack[tray.stack.len() - 1 - number];
                    if tray.editor_enabled {
                        stands(
                            menu,
                            start + 1 + number,
                            if tray.hide_content {
                                "Edit stacked entry "@ + decimal((number + 1) as nat)
                            } else {
                                escaped(
                                    "Edit "@ + decimal((number + 1) as nat) + ": "@ + text_preview(
                                        entry.value,
                                        false,
                                    ),
                                )
                            },
                            Some(AppEvent::Edit(EditTarget::Stack(entry.id))),
                            tray.editor_target is None,
                        )
                    } else {
                        stands(
                            menu,
                            start + 1 + number,
                            escaped(
                                decimal((number + 1) as nat) + ": "@ + text_preview(
                                    entry.value,
                                    false,
                                ),
                            ),
                            None,
                            false,
                        )
                    }
                })
            }
            &&& stands(menu, end, "────────────────────"@, None, false)
            &&& stands(
                menu,
                end + 1,
                if tray.notifications_enabled {
                    "Disable notifications"@
                } else {
                    "Enable notifications"@
                },
                Some(AppEvent::ToggleNotifications),
                true,
            )
            &&& menu.len() == end + 3
            &&& menu[end + 2] == (MenuModel {
                label: "Exit"@,
                enabled: true,
                icon_name: "application-exit"@,
                event: Some(AppEvent::Exit),
            })
        }),
{
    let menu = tray.menu();
    let start = lines_above(tray) + 2 * lines_of_selection(tray) + 2;
    let middle = wanted(tray.stack_part(), tray.stack_enabled);
    lemma_lower_lines(tray);
    if tray.stack_enabled {
        assert(menu[start + 0] == middle[0]);
        if tray.stack.len() == 0 {
            assert(menu[start + 1] == middle[1]);
        } else {
            let listed = tray.entry_lines().len() as int;
            lemma_stack_lines(tray, number);
            assert(menu[start + (1 + listed)] == middle[1 + listed]);
            assert(menu[start + (2 + listed)] == middle[2 + listed]);
            assert(menu[start + (3 + listed)] == middle[3 + listed]);
            if 0 <= number < listed {
                assert(menu[start + (1 + number)] == middle[1 + number]);
            }
        }
    }
}

proof fn lemma_stack_lines(tray: TrayModel, number: int)
    requires
        tray.stack.len() > 0,
    ensures
        ({
            let part = tray.stack_part();
            let lines = tray.entry_lines();
            let listed = lines.len() as int;
            &&& part.len() == listed + 4
            &&& part[0] == separator()
            &&& part[1 + listed] == item(
                "Pop to primary"@,
                AppEvent::Stack(StackAction::PopPrimary),
                true,
            )
            &&& part[2 + listed] == item(
                "Pop to regular"@,
                AppEvent::Stack(StackAction::PopRegular),
                true,
            )
            &&& part[3 + listed] == item(
                "Pop to primary and regular"@,
                AppEvent::Stack(StackAction::PopBoth),
                true,
            )
            &&& 0 <= number < listed ==> part[1 + number] == tray.entry_line(number)
        }),
{
    let lines = tray.entry_lines();
    if 0 <= number < lines.len() {
        assert(tray.stack_part()[1 + number] == lines[number]);
    }
}

proof fn lemma_lower_lines(tray: TrayModel)
    ensures
        ({
            let menu = tray.menu();
            let start = lines_above(tray) + 2 * lines_of_selection(tray) + 2;
            let middle = wanted(tray.stack_part(), tray.stack_enabled);
            let applet = tray.applet_part();
            &&& menu.len() == start + middle.len() + 3
            &&& forall|i: int|
                #![trigger middle[i]]
                0 <= i < middle.len() ==> menu[start + i] == middle[i]
            &&& menu[start + middle.len()] == applet[0]
            &&& menu[start + middle.len() + 1] == applet[1]
            &&& menu[start + middle.len() + 2] == applet[2]
        }),
{
    let start = lines_above(tray) + 2 * lines_of_selection(tray) + 2;
    let head = tray.editor_part();
    let primary = tray.primary_part();
    let regular = tray.regular_part();
    assert(head.len() == lines_above(tray));
    assert(primary.len() == lines_of_selection(tray) - 1);
    assert(regular.len() == lines_of_selection(tray) - 1);
    let upper = ((head + primary).push(separator()) + regular).push(separator())
        + tray.both_part();
    assert(upper.len() == start);
    let middle = wanted(tray.stack_part(), tray.stack_enabled);
    let applet = tray.applet_part();
    assert(applet.len() == 3);
    assert(tray.menu() =~= upper + middle + applet);
}

/// Whether an event has one line of its own in a menu that offers it: any but the edit of a
/// stacked entry.
pub open spec fn has_own_line(event: AppEvent) -> bool {
    !(event matches AppEvent::Edit(EditTarget::Stack(_)))
}

/// Where the line that asks for an event stands, in a menu that has it.
pub open spec fn place_of(tray: TrayModel, event: AppEvent) -> int {
    let above = lines_above(tray);
    let part = lines_of_selection(tray);
    let editor: int = if tray.editor_enabled {
        1
    } else {
        0
    };
    let stack: int = if tray.stack_enabled {
        1
    } else {
        0
    };
    let start = above + 2 * part + 2;
    let listed: int = if tray.editor_enabled || !tray.hide_content {
        tray.stack.len() as int
    } else {
        0
    };
    let end = if !tray.stack_enabled {
        start
    } else if tray.stack.len() == 0 {
        start + 2
    } else {
        start + 4 + listed
    };
    match event {
        AppEvent::CancelEdit => 1,
        AppEvent::Edit(EditTarget::Primary) => above + 1,
        AppEvent::Edit(_) => above + part + 1,
        AppEvent::Action(request) => match request.action {
            ClipboardAction::CopyPrimary => above + 1 + editor,
            ClipboardAction::CopyRegular => above + part + 1 + editor,
            ClipboardAction::Switch => above + 2 * part,
            ClipboardAction::Reset => above + 2 * part + 1,
        },
        AppEvent::Clear(ClearTarget::Primary) => above + 2 + editor + stack,
        AppEvent::Clear(ClearTarget::Regular) => above + part + 2 + editor + stack,
        AppEvent::Stack(StackAction::PushPrimary) => above + 2 + editor,
        AppEvent::Stack(StackAction::PushRegular) => above + part + 2 + editor,
        AppEvent::Stack(StackAction::PopPrimary) => start + 1 + listed,
        AppEvent::Stack(StackAction::PopRegular) => start + 2 + listed,
        AppEvent::Stack(StackAction::PopBoth) => start + 3 + listed,
        AppEvent::ToggleNotifications => end + 1,
        AppEvent::Exit => end + 2,
    }
}

/// Whether the lines of a part that begins at a place stand where their events are to be found.
pub open spec fn all_placed(tray: TrayModel, lines: Seq<MenuModel>, start: int) -> bool {
    forall|i: int|
        0 <= i < lines.len() ==> ((#[trigger] lines[i]).event matches Some(event) ==> (has_own_line(
            event,
        ) ==> start + i == place_of(tray, event)))
}

/// Each request has one line: no two lines of a menu ask for the same, other than edits of entries
/// that share an identity.
pub proof fn law_each_request_has_one_line(tray: TrayModel, one: int, other: int)
    requires
        0 <= one < tray.menu().len(),
        0 <= other < tray.menu().len(),
        tray.menu()[one].event == tray.menu()[other].event,
        tray.menu()[one].event matches Some(event) && has_own_line(event),
    ensures
        one == other,
{
    lemma_lines_are_placed(tray);
    assert(tray.menu()[one].event is Some);
    assert(tray.menu()[other].event is Some);
}

proof fn lemma_lines_are_placed(tray: TrayModel)
    ensures
        all_placed(tray, tray.menu(), 0),
{
    let menu = tray.menu();
    let above = lines_above(tray);
    let part = lines_of_selection(tray);
    let head = tray.editor_part();
    let primary = tray.primary_part();
    let regular = tray.regular_part();
    let both = tray.both_part();
    let start = above + 2 * part + 2;
    assert(head.len() == above);
    assert(primary.len() == part - 1);
    assert(regular.len() == part - 1);
    assert(all_placed(tray, head, 0));
    assert(all_placed(tray, primary, above));
    assert(all_placed(tray, regular, above + part));
    assert(all_placed(tray, both, above + 2 * part));
    let middle = wanted(tray.stack_part(), tray.stack_enabled);
    let applet = tray.applet_part();
    assert(all_placed(tray, middle, start)) by {
        let lines = tray.entry_lines();
        assert forall|i: int| 0 <= i < lines.len() implies ((#[trigger] lines[i]).event matches Some(
            event,
        ) ==> !has_own_line(event)) by {
            assert(lines[i] == tray.entry_line(i));
        }
    }
    assert(all_placed(tray, applet, start + middle.len()));
    let upper = ((head + primary).push(separator()) + regular).push(
        separator(),
    ) + both;
    assert(upper.len() == start);
    assert(menu =~= upper + middle + applet);
    assert forall|i: int| 0 <= i < menu.len() implies ((#[trigger] menu[i]).event matches Some(
        event,
    ) ==> (has_own_line(event) ==> i == place_of(tray, event))) by {
        if i < above {
            assert(menu[i] == head[i]);
        } else if i < above + part - 1 {
            assert(menu[i] == primary[i - above]);
        } else if i == above + part - 1 {
            assert(menu[i] == separator());
        } else if i < above + 2 * part - 1 {
            assert(menu[i] == regular[i - above - part]);
        } else if i == above + 2 * part - 1 {
            assert(menu[i] == separator());
        } else if i < start {
            assert(menu[i] == both[i - above - 2 * part]);
        } else if i < start + middle.len() {
            assert(menu[i] == middle[i - start]);
        } else {
            assert(menu[i] == applet[i - start - middle.len()]);
        }
    }
}

/// A stack that is enabled and holds something is offered to be popped in three ways, each under
/// its own label and by one line.
pub proof fn law_stacks_can_be_popped(tray: ClipboardTray, menu: Vec<MenuEntry>, place: int)
    requires
        call_ensures(ClipboardTray::menu, (&tray,), menu),
        tray.stack_enabled,
        tray.stack@.len() > 0,
        0 <= place < menu@.len(),
    ensures
        exists|first: int|
            {
                &&& 0 <= first
                &&& first + 2 < menu@.len()
                &&& (#[trigger] menu@[first]).label@ == "Pop to primary"@
                &&& menu@[first].event == Some(AppEvent::Stack(StackAction::PopPrimary))
                &&& menu@[first + 1].label@ == "Pop to regular"@
                &&& menu@[first + 1].event == Some(AppEvent::Stack(StackAction::PopRegular))
                &&& menu@[first + 2].label@ == "Pop to primary and regular"@
                &&& menu@[first + 2].event == Some(AppEvent::Stack(StackAction::PopBoth))
                &&& menu@[first].enabled && menu@[first + 1].enabled && menu@[first + 2].enabled
                &&& menu@[place].event == Some(AppEvent::Stack(StackAction::PopPrimary)) ==> place
                    == first
                &&& menu@[place].event == Some(AppEvent::Stack(StackAction::PopRegular)) ==> place
                    == first + 1
                &&& menu@[place].event == Some(AppEvent::Stack(StackAction::PopBoth)) ==> place
                    == first + 2
            },
        menu@[place].event matches Some(event) ==> (has_own_line(event) ==> menu@[place].label@
            == label_of(event, tray.notifications_enabled)),
{
    let model = tray@;
    let first = place_of(model, AppEvent::Stack(StackAction::PopPrimary));
    law_how_a_menu_ends(model, 0);
    law_lines_ask_for_what_they_say(model);
    lemma_lines_are_placed(model);
    assert(model.stack.len() == tray.stack@.len());
    law_menus_are_modelled_whole(tray, menu, first);
    law_menus_are_modelled_whole(tray, menu, first + 1);
    law_menus_are_modelled_whole(tray, menu, first + 2);
    law_menus_are_modelled_whole(tray, menu, place);
    assert(model.menu()[place].event == menu@[place].event);
    assert(menu@[first].label@ == "Pop to primary"@);
}

/// Every line of the menu that is shown is labelled after the event that it asks for.
pub proof fn law_shown_lines_ask_for_what_they_say(
    tray: ClipboardTray,
    menu: Vec<MenuEntry>,
    place: int,
)
    requires
        call_ensures(ClipboardTray::menu, (&tray,), menu),
        0 <= place < menu@.len(),
    ensures
        menu@[place].event matches Some(event) ==> (has_own_line(event) ==> menu@[place].label@
            == label_of(event, tray.notifications_enabled)),
        menu@[place].event is None ==> !menu@[place].enabled,
{
    law_menus_are_modelled_whole(tray, menu, place);
    law_lines_ask_for_what_they_say(tray@);
    law_lines_are_enabled_if_possible(tray@);
    assert(named(tray@, tray@.menu()[place]));
}

} // verus!
