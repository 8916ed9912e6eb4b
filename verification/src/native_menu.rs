//! The menu bar as macOS wants it.
//!
//! macOS puts About, Preferences, Services, hiding and Quit in an application
//! menu of their own, and wires the clipboard and history items of the Edit
//! menu to the system's editing actions. This module moves the shared
//! layout's items there without replacing the actions they dispatch, so a
//! native menu item runs exactly what the same item runs elsewhere.

use vstd::prelude::*;
use crate::commands::{dispatch_name, dispatched_name, CommandKind};
use crate::menubar::{
    copy_items, item_view, items_view, lemma_items_view_index, menus_built_view, ItemView, Menu,
    MenuItem,
};
use crate::routing::{edit_command, input_edit_action, EditCommand};
use crate::shell_commands::ShellCommand;
use crate::text::{owned, str_eq};

verus! {

/// An action of the application itself rather than of the editor.
#[derive(Clone, Copy, Debug, PartialEq, Eq, Structural)]
pub enum ApplicationAction {
    /// Hide the application.
    Hide,
    /// Hide every other application.
    HideOthers,
    /// Show every application again.
    ShowAll,
    /// Close the editor window, through the shell's save-before-close flow.
    CloseWindow,
}

/// An item of a native menu.
#[derive(Debug)]
pub enum NativeItem {
    /// A horizontal rule.
    Separator,
    /// A nested menu, as the layout built it.
    Submenu {
        /// Its title.
        name: String,
        /// Its items.
        items: Vec<MenuItem>,
    },
    /// A command, and the system editing action it stands for, if any.
    Action {
        /// The label shown.
        name: String,
        /// What it dispatches.
        kind: CommandKind,
        /// The system editing action the item is wired to.
        os_action: Option<EditCommand>,
    },
    /// The system's Services submenu.
    Services,
    /// An action of the application itself.
    Application {
        /// The label shown.
        name: String,
        /// What it does.
        action: ApplicationAction,
    },
}

/// A native top-level menu.
#[derive(Debug)]
pub struct NativeMenu {
    /// The title on the menu bar.
    pub name: String,
    /// Its items.
    pub items: Vec<NativeItem>,
}

/// The content of a [`NativeItem`].
pub enum NativeView {
    /// A horizontal rule.
    Separator,
    /// A nested menu: its title and items.
    Submenu(Seq<char>, Seq<ItemView>),
    /// A command: its label, what it dispatches, its system editing action.
    Action(Seq<char>, CommandKind, Option<EditCommand>),
    /// The Services submenu.
    Services,
    /// An application action with its label.
    Application(Seq<char>, ApplicationAction),
}

/// The content of one native item.
pub open spec fn native_view(item: NativeItem) -> NativeView {
    match item {
        NativeItem::Separator => NativeView::Separator,
        NativeItem::Submenu { name, items } => NativeView::Submenu(name@, items_view(items@)),
        NativeItem::Action { name, kind, os_action } => NativeView::Action(name@, kind, os_action),
        NativeItem::Services => NativeView::Services,
        NativeItem::Application { name, action } => NativeView::Application(name@, action),
    }
}

/// The content of native items.
pub open spec fn native_items_view(items: Seq<NativeItem>) -> Seq<NativeView> {
    items.map_values(|item: NativeItem| native_view(item))
}

/// The content of native menus.
pub open spec fn native_menus_view(menus: Seq<NativeMenu>) -> Seq<(Seq<char>, Seq<NativeView>)> {
    menus.map_values(|menu: NativeMenu| (menu.name@, native_items_view(menu.items@)))
}

/// Whether a command of `kind` is dispatched as the named action `id`.
pub open spec fn dispatched_as(kind: CommandKind, id: Seq<char>) -> bool {
    match dispatch_name(kind) {
        Some(name) => name@ == id,
        None => false,
    }
}

/// Whether a command of `kind` quits the editor.
pub open spec fn is_quit(kind: CommandKind) -> bool {
    match kind {
        CommandKind::Shell(ShellCommand::Quit) => true,
        _ => false,
    }
}

/// The action name of the About item.
pub open spec fn about_id() -> Seq<char> {
    "common.SuiteControl.about"@
}

/// The action name of the Preferences item.
pub open spec fn preferences_id() -> Seq<char> {
    "common.SuiteControl.openPreferences"@
}

/// The system editing action an item dispatching `kind` is wired to.
pub open spec fn os_action_of(kind: CommandKind) -> Option<EditCommand> {
    match dispatch_name(kind) {
        Some(name) => edit_command(name@),
        None => None,
    }
}

/// Whether a layout item stays where it is: everything but Quit, About and
/// Preferences, which the application menu holds instead.
pub open spec fn stays(item: ItemView) -> bool {
    match item {
        ItemView::Action(_, kind) => !is_quit(kind) && !dispatched_as(kind, about_id())
            && !dispatched_as(kind, preferences_id()),
        _ => true,
    }
}

/// A layout item that stays, as the native menu shows it.
pub open spec fn native_item(item: ItemView) -> NativeView {
    match item {
        ItemView::Separator => NativeView::Separator,
        ItemView::Submenu(name, items) => NativeView::Submenu(name, items),
        ItemView::Action(name, kind) => NativeView::Action(name, kind, os_action_of(kind)),
    }
}

/// The items of one menu that stay, in order.
pub open spec fn kept_items(items: Seq<ItemView>) -> Seq<NativeView>
    decreases items.len(),
{
    if items.len() == 0 {
        Seq::empty()
    } else {
        let before = kept_items(items.drop_last());
        if stays(items.last()) {
            before.push(native_item(items.last()))
        } else {
            before
        }
    }
}

/// `items` without the rules at its end.
pub open spec fn without_trailing_rules(items: Seq<NativeView>) -> Seq<NativeView>
    decreases items.len(),
{
    if items.len() > 0 && items.last() is Separator {
        without_trailing_rules(items.drop_last())
    } else {
        items
    }
}

/// The last item among `items` dispatched as `id`: its label and command.
pub open spec fn last_dispatched_as(items: Seq<ItemView>, id: Seq<char>) -> Option<
    (Seq<char>, CommandKind),
>
    decreases items.len(),
{
    if items.len() == 0 {
        None
    } else {
        match items.last() {
            ItemView::Action(name, kind) => if dispatched_as(kind, id) {
                Some((name, kind))
            } else {
                last_dispatched_as(items.drop_last(), id)
            },
            _ => last_dispatched_as(items.drop_last(), id),
        }
    }
}

/// The last top-level item of any menu dispatched as `id`.
pub open spec fn last_in_menus(menus: Seq<(Seq<char>, Seq<ItemView>)>, id: Seq<char>) -> Option<
    (Seq<char>, CommandKind),
>
    decreases menus.len(),
{
    if menus.len() == 0 {
        None
    } else {
        match last_dispatched_as(menus.last().1, id) {
            Some(found) => Some(found),
            None => last_in_menus(menus.drop_last(), id),
        }
    }
}

/// A moved item and the rule under it, or nothing when there is none.
pub open spec fn leading(found: Option<(Seq<char>, CommandKind)>) -> Seq<NativeView> {
    match found {
        Some((name, kind)) => seq![NativeView::Action(name, kind, None), NativeView::Separator],
        None => Seq::empty(),
    }
}

/// The fixed tail of the application menu.
pub open spec fn application_tail() -> Seq<NativeView> {
    seq![
        NativeView::Services,
        NativeView::Separator,
        NativeView::Application("Hide KiCad"@, ApplicationAction::Hide),
        NativeView::Application("Hide Others"@, ApplicationAction::HideOthers),
        NativeView::Application("Show All"@, ApplicationAction::ShowAll),
        NativeView::Separator,
        NativeView::Action("Quit KiCad"@, CommandKind::Shell(ShellCommand::Quit), None),
    ]
}

/// The application menu: About and Preferences moved from the layout, each
/// with a rule under it, then Services, hiding, and Quit.
pub open spec fn application_items(menus: Seq<(Seq<char>, Seq<ItemView>)>) -> Seq<NativeView> {
    leading(last_in_menus(menus, about_id())) + leading(last_in_menus(menus, preferences_id()))
        + application_tail()
}

/// Every layout menu with what stays, trailing rules removed.
pub open spec fn trimmed_menus(menus: Seq<(Seq<char>, Seq<ItemView>)>) -> Seq<(Seq<char>, Seq<NativeView>)> {
    menus.map_values(
        |menu: (Seq<char>, Seq<ItemView>)| (menu.0, without_trailing_rules(kept_items(menu.1))),
    )
}

/// The items appended to the File menu.
pub open spec fn close_window_items() -> Seq<NativeView> {
    seq![NativeView::Separator, NativeView::Application("Close Window"@, ApplicationAction::CloseWindow)]
}

/// Whether menu `k` is the first called File.
pub open spec fn is_first_file(menus: Seq<(Seq<char>, Seq<NativeView>)>, k: int) -> bool {
    &&& menus[k].0 == "File"@
    &&& forall|m: int| 0 <= m < k ==> menus[m].0 != "File"@
}

/// The menus with Close Window added to the end of the first File menu.
pub open spec fn with_close_window(menus: Seq<(Seq<char>, Seq<NativeView>)>) -> Seq<(Seq<char>, Seq<NativeView>)> {
    Seq::new(
        menus.len(),
        |k: int|
            if is_first_file(menus, k) {
                (menus[k].0, menus[k].1 + close_window_items())
            } else {
                menus[k]
            },
    )
}

/// The menus that have items, in order.
pub open spec fn non_empty(menus: Seq<(Seq<char>, Seq<NativeView>)>) -> Seq<(Seq<char>, Seq<NativeView>)>
    decreases menus.len(),
{
    if menus.len() == 0 {
        menus
    } else {
        let before = non_empty(menus.drop_last());
        if menus.last().1.len() > 0 {
            before.push(menus.last())
        } else {
            before
        }
    }
}

/// The native menu bar for `menus`: the application menu first, then every
/// layout menu that still has items.
pub open spec fn native_menus(menus: Seq<(Seq<char>, Seq<ItemView>)>) -> Seq<(Seq<char>, Seq<NativeView>)> {
    seq![("KiCad"@, application_items(menus))] + non_empty(with_close_window(trimmed_menus(menus)))
}

/// A moved item, owned.
pub open spec fn found_view(found: Option<(String, CommandKind)>) -> Option<(Seq<char>, CommandKind)> {
    match found {
        Some((name, kind)) => Some((name@, kind)),
        None => None,
    }
}

/// What a search of `items` gives, falling back on `earlier` for what the
/// items do not hold.
pub open spec fn or_earlier(
    items: Seq<ItemView>,
    id: Seq<char>,
    earlier: Option<(Seq<char>, CommandKind)>,
) -> Option<(Seq<char>, CommandKind)> {
    match last_dispatched_as(items, id) {
        Some(found) => Some(found),
        None => earlier,
    }
}

/// Push `item` onto native `items`.
fn push_native(items: &mut Vec<NativeItem>, item: NativeItem)
    ensures
        native_items_view(final(items)@) == native_items_view(old(items)@).push(native_view(item)),
{
    items.push(item);
    assert(native_items_view(final(items)@) =~= native_items_view(old(items)@).push(native_view(item)));
}

/// The native items of one layout menu, and the About and Preferences items
/// found in it, given those found in earlier menus.
fn native_menu_items(
    items: &Vec<MenuItem>,
    about: Option<(String, CommandKind)>,
    preferences: Option<(String, CommandKind)>,
) -> (result: (Vec<NativeItem>, Option<(String, CommandKind)>, Option<(String, CommandKind)>))
    ensures
        native_items_view(result.0@) == without_trailing_rules(kept_items(items_view(items@))),
        found_view(result.1) == or_earlier(items_view(items@), about_id(), found_view(about)),
        found_view(result.2) == or_earlier(items_view(items@), preferences_id(), found_view(preferences)),
{
    let ghost view = items_view(items@);
    proof {
        lemma_items_view_index(items@);
    }
    let mut about = about;
    let mut preferences = preferences;
    let ghost about0 = found_view(about);
    let ghost preferences0 = found_view(preferences);
    let mut out: Vec<NativeItem> = Vec::new();
    let mut j: usize = 0;
    assert(view.take(0) =~= Seq::<ItemView>::empty());
    assert(native_items_view(out@) =~= Seq::<NativeView>::empty());
    while j < items.len()
        invariant
            j <= items@.len(),
            view == items_view(items@),
            view.len() == items@.len(),
            forall|k: int| 0 <= k < items@.len() ==> #[trigger] view[k] == item_view(items@[k]),
            native_items_view(out@) == kept_items(view.take(j as int)),
            found_view(about) == or_earlier(view.take(j as int), about_id(), about0),
            found_view(preferences) == or_earlier(view.take(j as int), preferences_id(), preferences0),
        decreases items@.len() - j,
    {
        let ghost before = native_items_view(out@);
        let ghost prefix = view.take(j + 1);
        assert(prefix.drop_last() =~= view.take(j as int));
        assert(prefix.last() == view[j as int]);
        assert(view[j as int] == item_view(items@[j as int]));
        match &items[j] {
            MenuItem::Separator => {
                push_native(&mut out, NativeItem::Separator);
            },
            MenuItem::Submenu { name, items: children } => {
                let copy = copy_items(children);
                push_native(&mut out, NativeItem::Submenu { name: name.clone(), items: copy });
            },
            MenuItem::Action { name, kind } => {
                let kind = *kind;
                let quit = match kind {
                    CommandKind::Shell(ShellCommand::Quit) => true,
                    _ => false,
                };
                if !quit {
                    let dispatched = dispatched_name(kind);
                    let (is_about, is_preferences, os_action) = match dispatched {
                        Some(id) => (
                            str_eq(id, "common.SuiteControl.about"),
                            str_eq(id, "common.SuiteControl.openPreferences"),
                            input_edit_action(id),
                        ),
                        None => (false, false, None),
                    };
                    if is_about {
                        proof {
                            reveal_strlit("common.SuiteControl.about");
                            reveal_strlit("common.SuiteControl.openPreferences");
                            assert(about_id().len() != preferences_id().len());
                        }
                        about = Some((name.clone(), kind));
                    } else if is_preferences {
                        preferences = Some((name.clone(), kind));
                    } else {
                        push_native(&mut out, NativeItem::Action { name: name.clone(), kind, os_action });
                    }
                }
            },
        }
        j = j + 1;
    }
    assert(view.take(items@.len() as int) =~= view);
    // Rules left at the end of the menu go.
    let ghost kept = native_items_view(out@);
    loop
        invariant
            without_trailing_rules(native_items_view(out@)) == without_trailing_rules(kept),
        ensures
            native_items_view(out@) == without_trailing_rules(kept),
        decreases out@.len(),
    {
        let trailing = match out.last() {
            Some(NativeItem::Separator) => true,
            _ => false,
        };
        if !trailing {
            break;
        }
        let ghost whole = native_items_view(out@);
        assert(whole.last() == native_view(out@.last()));
        out.pop();
        assert(native_items_view(out@) =~= whole.drop_last());
    }
    (out, about, preferences)
}

/// Build the native items of the application menu.
fn application_menu_items(
    about: Option<(String, CommandKind)>,
    preferences: Option<(String, CommandKind)>,
) -> (items: Vec<NativeItem>)
    ensures
        native_items_view(items@) == leading(found_view(about)) + leading(found_view(preferences))
            + application_tail(),
{
    let mut items: Vec<NativeItem> = Vec::new();
    match about {
        Some((name, kind)) => {
            push_native(&mut items, NativeItem::Action { name, kind, os_action: None });
            push_native(&mut items, NativeItem::Separator);
        },
        None => {},
    }
    match preferences {
        Some((name, kind)) => {
            push_native(&mut items, NativeItem::Action { name, kind, os_action: None });
            push_native(&mut items, NativeItem::Separator);
        },
        None => {},
    }
    push_native(&mut items, NativeItem::Services);
    push_native(&mut items, NativeItem::Separator);
    push_native(&mut items, NativeItem::Application { name: owned("Hide KiCad"), action: ApplicationAction::Hide });
    push_native(
        &mut items,
        NativeItem::Application { name: owned("Hide Others"), action: ApplicationAction::HideOthers },
    );
    push_native(&mut items, NativeItem::Application { name: owned("Show All"), action: ApplicationAction::ShowAll });
    push_native(&mut items, NativeItem::Separator);
    push_native(
        &mut items,
        NativeItem::Action { name: owned("Quit KiCad"), kind: CommandKind::Shell(ShellCommand::Quit), os_action: None },
    );
    assert(native_items_view(items@) =~= leading(found_view(about)) + leading(found_view(preferences))
        + application_tail());
    items
}

/// Adapt the menu bar to macOS: About and Preferences move to an application
/// menu with Services, hiding and Quit; Quit leaves the layout's menus; the
/// clipboard and history items are wired to the system's editing actions;
/// menus lose their trailing rules; the first File menu ends with Close
/// Window; menus left empty go. Every moved or kept item dispatches what it
/// dispatched before.
pub fn macos_menus(menus: &Vec<Menu>) -> (native: Vec<NativeMenu>)
    ensures
        native_menus_view(native@) == native_menus(menus_built_view(menus@)),
{
    let ghost view = menus_built_view(menus@);
    let ghost trimmed = trimmed_menus(view);
    let ghost closed = with_close_window(trimmed);
    let mut about: Option<(String, CommandKind)> = None;
    let mut preferences: Option<(String, CommandKind)> = None;
    let mut kept: Vec<NativeMenu> = Vec::new();
    let mut file_seen = false;
    let mut i: usize = 0;
    assert(view.take(0) =~= Seq::<(Seq<char>, Seq<ItemView>)>::empty());
    assert(closed.take(0) =~= Seq::<(Seq<char>, Seq<NativeView>)>::empty());
    assert(native_menus_view(kept@) =~= Seq::<(Seq<char>, Seq<NativeView>)>::empty());
    while i < menus.len()
        invariant
            i <= menus@.len(),
            view == menus_built_view(menus@),
            trimmed == trimmed_menus(view),
            closed == with_close_window(trimmed),
            found_view(about) == last_in_menus(view.take(i as int), about_id()),
            found_view(preferences) == last_in_menus(view.take(i as int), preferences_id()),
            file_seen == exists|m: int| 0 <= m < i && #[trigger] trimmed[m].0 == "File"@,
            native_menus_view(kept@) == non_empty(closed.take(i as int)),
        decreases menus@.len() - i,
    {
        let menu = &menus[i];
        let ghost entry = view[i as int];
        assert(entry == (menu.name@, items_view(menu.items@)));
        assert(view.take(i + 1).drop_last() =~= view.take(i as int));
        assert(view.take(i + 1).last() == entry);
        let (mut items, found_about, found_preferences) = native_menu_items(&menu.items, about, preferences);
        about = found_about;
        preferences = found_preferences;
        let is_file = str_eq(menu.name.as_str(), "File");
        assert(trimmed[i as int] == (entry.0, without_trailing_rules(kept_items(entry.1))));
        if is_file && !file_seen {
            push_native(&mut items, NativeItem::Separator);
            push_native(
                &mut items,
                NativeItem::Application { name: owned("Close Window"), action: ApplicationAction::CloseWindow },
            );
            assert(is_first_file(trimmed, i as int));
            assert(native_items_view(items@) =~= trimmed[i as int].1 + close_window_items());
        } else {
            assert(!is_first_file(trimmed, i as int));
        }
        assert(closed[i as int] == (menu.name@, native_items_view(items@)));
        assert(closed.take(i + 1).drop_last() =~= closed.take(i as int));
        assert(closed.take(i + 1).last() == closed[i as int]);
        if is_file {
            file_seen = true;
        }
        if items.len() > 0 {
            let ghost before = native_menus_view(kept@);
            kept.push(NativeMenu { name: menu.name.clone(), items });
            assert(native_menus_view(kept@) =~= before.push(closed[i as int]));
        } else {
            assert(native_items_view(items@).len() == 0);
        }
        i = i + 1;
    }
    assert(view.take(menus@.len() as int) =~= view);
    assert(closed.take(menus@.len() as int) =~= closed);
    let application = application_menu_items(about, preferences);
    let mut native: Vec<NativeMenu> = Vec::new();
    native.push(NativeMenu { name: owned("KiCad"), items: application });
    let ghost head = native_menus_view(native@);
    let ghost rest = native_menus_view(kept@);
    native.append(&mut kept);
    assert(native_menus_view(native@) =~= head + rest);
    native
}

/// A list without trailing rules that still has items ends in something
/// other than a rule.
proof fn lemma_no_trailing_rule(items: Seq<NativeView>)
    ensures
        without_trailing_rules(items).len() > 0 ==> !(without_trailing_rules(items).last() is Separator),
    decreases items.len(),
{
    if items.len() > 0 && items.last() is Separator {
        lemma_no_trailing_rule(items.drop_last());
    }
}

/// Every menu `non_empty` keeps is one of its input's, with items.
proof fn lemma_non_empty_from(menus: Seq<(Seq<char>, Seq<NativeView>)>)
    ensures
        forall|k: int|
            0 <= k < non_empty(menus).len() ==> exists|m: int|
                0 <= m < menus.len() && #[trigger] non_empty(menus)[k] == menus[m] && menus[m].1.len()
                    > 0,
    decreases menus.len(),
{
    if menus.len() > 0 {
        let before = non_empty(menus.drop_last());
        lemma_non_empty_from(menus.drop_last());
        let all = non_empty(menus);
        assert forall|k: int| 0 <= k < all.len() implies exists|m: int|
            0 <= m < menus.len() && #[trigger] all[k] == menus[m] && menus[m].1.len() > 0 by {
            if k < before.len() {
                let m = choose|m: int|
                    0 <= m < menus.drop_last().len() && #[trigger] before[k] == menus.drop_last()[m]
                        && menus.drop_last()[m].1.len() > 0;
                assert(all[k] == before[k]);
                assert(menus[m] == menus.drop_last()[m]);
            } else {
                assert(all[k] == menus[menus.len() - 1]);
            }
        }
    }
}

/// On the native menu bar the application menu comes first, and every other
/// menu has items and does not end in a rule.
pub proof fn lemma_native_menus_tidy(menus: Seq<(Seq<char>, Seq<ItemView>)>)
    ensures
        native_menus(menus)[0].0 == "KiCad"@,
        forall|k: int|
            1 <= k < native_menus(menus).len() ==> (#[trigger] native_menus(menus)[k]).1.len() > 0
                && !(native_menus(menus)[k].1.last() is Separator),
{
    let trimmed = trimmed_menus(menus);
    let closed = with_close_window(trimmed);
    let rest = non_empty(closed);
    let all = native_menus(menus);
    lemma_non_empty_from(closed);
    assert forall|k: int| 1 <= k < all.len() implies (#[trigger] all[k]).1.len() > 0 && !(
    all[k].1.last() is Separator) by {
        assert(all[k] == rest[k - 1]);
        let m = choose|m: int| 0 <= m < closed.len() && #[trigger] rest[k - 1] == closed[m] && closed[m].1.len() > 0;
        lemma_no_trailing_rule(kept_items(menus[m].1));
        if !is_first_file(trimmed, m) {
            assert(closed[m] == trimmed[m]);
        } else {
            let items = trimmed[m].1 + close_window_items();
            assert(closed[m].1 == items);
            assert(items.last() == close_window_items()[1]);
        }
    }
}

/// Quit is never left in a layout menu's top level; the application menu
/// holds it.
pub proof fn lemma_quit_moves_to_application_menu(menus: Seq<(Seq<char>, Seq<ItemView>)>)
    ensures
        application_items(menus).last() == NativeView::Action(
            "Quit KiCad"@,
            CommandKind::Shell(ShellCommand::Quit),
            None,
        ),
        forall|k: int, j: int|
            1 <= k < native_menus(menus).len() && 0 <= j < native_menus(menus)[k].1.len() ==> !(
            #[trigger] native_menus(menus)[k].1[j] matches NativeView::Action(_, kind, _) && is_quit(kind)),
{
    let trimmed = trimmed_menus(menus);
    let closed = with_close_window(trimmed);
    let rest = non_empty(closed);
    let all = native_menus(menus);
    lemma_non_empty_from(closed);
    assert forall|k: int, j: int|
        1 <= k < all.len() && 0 <= j < all[k].1.len() implies !(
        #[trigger] all[k].1[j] matches NativeView::Action(_, kind, _) && is_quit(kind)) by {
        assert(all[k] == rest[k - 1]);
        let m = choose|m: int| 0 <= m < closed.len() && #[trigger] rest[k - 1] == closed[m] && closed[m].1.len() > 0;
        lemma_kept_without_quit(menus[m].1);
        lemma_trailing_keeps_prefix(kept_items(menus[m].1));
        if is_first_file(trimmed, m) {
            let items = trimmed[m].1 + close_window_items();
            assert(closed[m].1 == items);
            if j >= trimmed[m].1.len() {
                assert(items[j] == close_window_items()[j - trimmed[m].1.len()]);
            } else {
                assert(items[j] == trimmed[m].1[j]);
            }
        } else {
            assert(closed[m] == trimmed[m]);
        }
    }
}

/// What stays of a menu holds no Quit.
proof fn lemma_kept_without_quit(items: Seq<ItemView>)
    ensures
        forall|j: int|
            0 <= j < kept_items(items).len() ==> !(#[trigger] kept_items(items)[j] matches NativeView::Action(
                _,
                kind,
                _,
            ) && is_quit(kind)),
    decreases items.len(),
{
    if items.len() > 0 {
        lemma_kept_without_quit(items.drop_last());
        let before = kept_items(items.drop_last());
        let all = kept_items(items);
        assert forall|j: int| 0 <= j < all.len() implies !(#[trigger] all[j] matches NativeView::Action(
            _,
            kind,
            _,
        ) && is_quit(kind)) by {
            if j < before.len() {
                assert(all[j] == before[j]);
            }
        }
    }
}

/// Removing trailing rules leaves a prefix.
proof fn lemma_trailing_keeps_prefix(items: Seq<NativeView>)
    ensures
        without_trailing_rules(items).len() <= items.len(),
        forall|j: int|
            0 <= j < without_trailing_rules(items).len() ==> #[trigger] without_trailing_rules(items)[j]
                == items[j],
    decreases items.len(),
{
    if items.len() > 0 && items.last() is Separator {
        lemma_trailing_keeps_prefix(items.drop_last());
        let inner = without_trailing_rules(items.drop_last());
        assert forall|j: int| 0 <= j < inner.len() implies #[trigger] inner[j] == items[j] by {
            assert(items.drop_last()[j] == items[j]);
        }
    }
}

} // verus!
