//! The menu bar a live host gets: the layout's menus with every command the
//! host does not offer left out, and the separators and submenus that leaves
//! empty or doubled tidied away.

use vstd::prelude::*;
use crate::commands::{command_label, label_of, resolved, ActionInfoView, ActionRegistry, CommandKind};
use crate::menus::{
    entries_view, entry_view, menu_layout, menus, menus_view, EntryView, MenuEntry, MenuView,
};
use crate::text::owned;

verus! {

/// An item of a built menu.
#[derive(Debug)]
pub enum MenuItem {
    /// A horizontal rule.
    Separator,
    /// A nested menu.
    Submenu {
        /// Its title.
        name: String,
        /// Its items.
        items: Vec<MenuItem>,
    },
    /// A command, with the label it shows.
    Action {
        /// The label shown.
        name: String,
        /// What it dispatches.
        kind: CommandKind,
    },
}

/// A built top-level menu.
#[derive(Debug)]
pub struct Menu {
    /// The title on the menu bar.
    pub name: String,
    /// Its items.
    pub items: Vec<MenuItem>,
}

/// The content of a [`MenuItem`].
pub enum ItemView {
    /// A horizontal rule.
    Separator,
    /// A nested menu: its title and items.
    Submenu(Seq<char>, Seq<ItemView>),
    /// A command: its label and what it dispatches.
    Action(Seq<char>, CommandKind),
}

/// The content of one built item.
pub open spec fn item_view(item: MenuItem) -> ItemView
    decreases item, 1int,
{
    match item {
        MenuItem::Separator => ItemView::Separator,
        MenuItem::Submenu { name, items } => ItemView::Submenu(name@, items_view(items@)),
        MenuItem::Action { name, kind } => ItemView::Action(name@, kind),
    }
}

/// The content of a list of built items.
pub open spec fn items_view(items: Seq<MenuItem>) -> Seq<ItemView>
    decreases items, 0int,
{
    if items.len() == 0 {
        Seq::empty()
    } else {
        items_view(items.drop_last()).push(item_view(items.last()))
    }
}

/// The items a list of layout entries gives, before a trailing rule is
/// dropped: each entry in turn added to what came before.
pub open spec fn gathered(
    registry: Map<Seq<char>, ActionInfoView>,
    entries: Seq<EntryView>,
    on_macos: bool,
) -> Seq<ItemView>
    decreases entries, 0int,
{
    if entries.len() == 0 {
        Seq::empty()
    } else {
        let before = gathered(registry, entries.drop_last(), on_macos);
        let entry = entries.last();
        match entry {
            EntryView::Separator => if before.len() == 0 || before.last() is Separator {
                before
            } else {
                before.push(ItemView::Separator)
            },
            EntryView::Submenu(label, children) => {
                let built = built_items(registry, children, on_macos);
                if built.len() == 0 {
                    before
                } else {
                    before.push(ItemView::Submenu(label, built))
                }
            },
            EntryView::Command(spec) => match resolved(registry, spec, on_macos) {
                Some(command) => before.push(ItemView::Action(command.label, command.kind)),
                None => before,
            },
        }
    }
}

/// The items a list of layout entries gives: commands the host does not
/// offer left out, submenus left empty left out, no rule first, none doubled,
/// none last.
pub open spec fn built_items(
    registry: Map<Seq<char>, ActionInfoView>,
    entries: Seq<EntryView>,
    on_macos: bool,
) -> Seq<ItemView>
    decreases entries, 1int,
{
    let items = gathered(registry, entries, on_macos);
    if items.len() > 0 && items.last() is Separator {
        items.drop_last()
    } else {
        items
    }
}

/// Build the items of one menu from its layout entries.
pub fn build_items(entries: &Vec<MenuEntry>, registry: &ActionRegistry, on_macos: bool) -> (items:
    Vec<MenuItem>)
    ensures
        items_view(items@) == built_items(registry.view(), entries_view(entries@), on_macos),
    decreases entries,
{
    let ghost reg = registry.view();
    let ghost layout = entries_view(entries@);
    let mut result: Vec<MenuItem> = Vec::new();
    let mut i: usize = 0;
    assert(entries@.take(0) =~= Seq::<MenuEntry>::empty());
    assert(items_view(result@) =~= Seq::<ItemView>::empty());
    while i < entries.len()
        invariant
            i <= entries@.len(),
            reg == registry.view(),
            items_view(result@) == gathered(reg, entries_view(entries@.take(i as int)), on_macos),
        decreases entries@.len() - i,
    {
        let ghost before = items_view(result@);
        let ghost ev = entries_view(entries@.take(i as int));
        let ghost e = entry_view(entries@[i as int]);
        assert(entries@.take(i + 1).drop_last() =~= entries@.take(i as int));
        assert(entries@.take(i + 1).last() == entries@[i as int]);
        assert(entries_view(entries@.take(i + 1)) == ev.push(e));
        assert(ev.push(e).drop_last() =~= ev);
        match &entries[i] {
            MenuEntry::Separator => {
                let skip = match result.last() {
                    None => true,
                    Some(MenuItem::Separator) => true,
                    Some(_) => false,
                };
                proof {
                    if result@.len() > 0 {
                        assert(result@.drop_last().push(result@.last()) =~= result@);
                        assert(before.last() == item_view(result@.last()));
                    }
                }
                if !skip {
                    push_item(&mut result, MenuItem::Separator);
                }
            },
            MenuEntry::Submenu { label, items: children } => {
                let built = build_items(children, registry, on_macos);
                if built.len() > 0 {
                    let ghost bv = items_view(built@);
                    proof {
                        if bv.len() == 0 {
                            assert(built@.len() == 0);
                        }
                    }
                    push_item(&mut result, MenuItem::Submenu { name: owned(label), items: built });
                } else {
                    assert(items_view(built@) =~= Seq::<ItemView>::empty());
                }
            },
            MenuEntry::Command(spec) => {
                let resolved_command = registry.resolve(spec, on_macos);
                match resolved_command {
                    Some(command) => {
                        let kind = command.kind;
                        push_item(&mut result, MenuItem::Action { name: command.label, kind });
                    },
                    None => {},
                }
            },
        }
        i = i + 1;
    }
    assert(entries@.take(entries@.len() as int) =~= entries@);
    let ghost all = items_view(result@);
    let trailing = match result.last() {
        Some(MenuItem::Separator) => true,
        _ => false,
    };
    proof {
        if result@.len() > 0 {
            assert(result@.drop_last().push(result@.last()) =~= result@);
            assert(all.last() == item_view(result@.last()));
        }
    }
    if trailing {
        result.pop();
        assert(items_view(result@) == all.drop_last());
    }
    result
}

/// Append `item` to `items`.
fn push_item(items: &mut Vec<MenuItem>, item: MenuItem)
    ensures
        items_view(final(items)@) == items_view(old(items)@).push(item_view(item)),
{
    let ghost view = item_view(item);
    items.push(item);
    assert(final(items)@.drop_last() =~= old(items)@);
}

/// The menus a live host gets from `layout`: each menu's items built, and
/// menus left empty left out.
pub open spec fn built_menus(
    registry: Map<Seq<char>, ActionInfoView>,
    layout: Seq<MenuView>,
    on_macos: bool,
) -> Seq<(Seq<char>, Seq<ItemView>)>
    decreases layout.len(),
{
    if layout.len() == 0 {
        Seq::empty()
    } else {
        let before = built_menus(registry, layout.drop_last(), on_macos);
        let items = built_items(registry, layout.last().items, on_macos);
        if items.len() > 0 {
            before.push((layout.last().name, items))
        } else {
            before
        }
    }
}

/// The content of built menus.
pub open spec fn menus_built_view(menus: Seq<Menu>) -> Seq<(Seq<char>, Seq<ItemView>)> {
    menus.map_values(|menu: Menu| (menu.name@, items_view(menu.items@)))
}

/// Build the menu bar from the layout's menus, keeping only what the live
/// registry offers.
pub fn app_menus_with_registry(registry: &ActionRegistry, on_macos: bool) -> (bar: Vec<Menu>)
    ensures
        menus_built_view(bar@) == built_menus(registry.view(), menu_layout(), on_macos),
{
    let layout_menus = menus();
    let ghost layout = menus_view(layout_menus@);
    let mut bar: Vec<Menu> = Vec::new();
    let mut i: usize = 0;
    assert(layout.take(0) =~= Seq::<MenuView>::empty());
    assert(menus_built_view(bar@) =~= Seq::<(Seq<char>, Seq<ItemView>)>::empty());
    while i < layout_menus.len()
        invariant
            i <= layout_menus@.len(),
            layout == menus_view(layout_menus@),
            layout == menu_layout(),
            menus_built_view(bar@) == built_menus(registry.view(), layout.take(i as int), on_macos),
        decreases layout_menus@.len() - i,
    {
        let ghost before = menus_built_view(bar@);
        assert(layout.take(i + 1).drop_last() =~= layout.take(i as int));
        assert(layout.take(i + 1).last() == layout[i as int]);
        let menu = &layout_menus[i];
        let items = build_items(&menu.items, registry, on_macos);
        if items.len() > 0 {
            let name = owned(menu.name);
            bar.push(Menu { name, items });
            assert(menus_built_view(bar@) =~= before.push(menus_built_view(bar@).last()));
        } else {
            assert(items_view(items@) =~= Seq::<ItemView>::empty());
        }
        i = i + 1;
    }
    assert(layout.take(layout_menus@.len() as int) =~= layout);
    bar
}

/// A built item's content, item by item.
pub proof fn lemma_items_view_index(items: Seq<MenuItem>)
    ensures
        items_view(items).len() == items.len(),
        forall|k: int| 0 <= k < items.len() ==> #[trigger] items_view(items)[k] == item_view(items[k]),
    decreases items.len(),
{
    if items.len() > 0 {
        lemma_items_view_index(items.drop_last());
        assert forall|k: int| 0 <= k < items.len() implies #[trigger] items_view(items)[k] == item_view(items[k]) by {
            if k < items.len() - 1 {
                assert(items.drop_last()[k] == items[k]);
            }
        }
    }
}

/// A copy of one built item, submenus and all.
pub fn copy_item(item: &MenuItem) -> (copy: MenuItem)
    ensures
        item_view(copy) == item_view(*item),
    decreases item, 1int,
{
    match item {
        MenuItem::Separator => MenuItem::Separator,
        MenuItem::Submenu { name, items } => MenuItem::Submenu { name: name.clone(), items: copy_items(items) },
        MenuItem::Action { name, kind } => MenuItem::Action { name: name.clone(), kind: *kind },
    }
}

/// A copy of a list of built items.
pub fn copy_items(items: &Vec<MenuItem>) -> (copy: Vec<MenuItem>)
    ensures
        items_view(copy@) == items_view(items@),
    decreases items, 0int,
{
    let mut copy: Vec<MenuItem> = Vec::new();
    let mut i: usize = 0;
    assert(items@.take(0) =~= Seq::<MenuItem>::empty());
    assert(items_view(copy@) =~= Seq::<ItemView>::empty());
    while i < items.len()
        invariant
            i <= items@.len(),
            items_view(copy@) == items_view(items@.take(i as int)),
        decreases items@.len() - i,
    {
        assert(items@.take(i + 1).drop_last() =~= items@.take(i as int));
        assert(items@.take(i + 1).last() == items@[i as int]);
        let item = copy_item(&items[i]);
        push_item(&mut copy, item);
        i = i + 1;
    }
    assert(items@.take(items@.len() as int) =~= items@);
    copy
}

// ---------------------------------------------------------------------------
// The menu bar as laid out, with no host to consult

/// One layout entry as a menu item, with nothing left out: a command under
/// the label it presents.
pub open spec fn plain_item(entry: EntryView) -> ItemView
    decreases entry, 1int,
{
    match entry {
        EntryView::Separator => ItemView::Separator,
        EntryView::Submenu(label, children) => ItemView::Submenu(label, plain_items(children)),
        EntryView::Command(spec) => ItemView::Action(command_label(spec)@, spec.kind),
    }
}

/// Layout entries as menu items, one for one.
pub open spec fn plain_items(entries: Seq<EntryView>) -> Seq<ItemView>
    decreases entries, 0int,
{
    if entries.len() == 0 {
        Seq::empty()
    } else {
        plain_items(entries.drop_last()).push(plain_item(entries.last()))
    }
}

/// Every layout entry as a menu item.
pub fn plain_menu_items(entries: &Vec<MenuEntry>) -> (items: Vec<MenuItem>)
    ensures
        items_view(items@) == plain_items(entries_view(entries@)),
    decreases entries,
{
    let mut result: Vec<MenuItem> = Vec::new();
    let mut i: usize = 0;
    assert(entries@.take(0) =~= Seq::<MenuEntry>::empty());
    assert(items_view(result@) =~= Seq::<ItemView>::empty());
    while i < entries.len()
        invariant
            i <= entries@.len(),
            items_view(result@) == plain_items(entries_view(entries@.take(i as int))),
        decreases entries@.len() - i,
    {
        let ghost ev = entries_view(entries@.take(i as int));
        let ghost e = entry_view(entries@[i as int]);
        assert(entries@.take(i + 1).drop_last() =~= entries@.take(i as int));
        assert(entries@.take(i + 1).last() == entries@[i as int]);
        assert(entries_view(entries@.take(i + 1)) == ev.push(e));
        assert(ev.push(e).drop_last() =~= ev);
        let item = match &entries[i] {
            MenuEntry::Separator => MenuItem::Separator,
            MenuEntry::Submenu { label, items: children } => {
                let built = plain_menu_items(children);
                let item = MenuItem::Submenu { name: owned(label), items: built };
                assert(item_view(item) == plain_item(e));
                item
            },
            MenuEntry::Command(spec) => {
                let item = MenuItem::Action { name: owned(label_of(spec)), kind: spec.kind };
                assert(item_view(item) == plain_item(e));
                item
            },
        };
        let ghost before = items_view(result@);
        push_item(&mut result, item);
        assert(plain_items(ev.push(e)) == plain_items(ev).push(plain_item(e)));
        i = i + 1;
    }
    assert(entries@.take(entries@.len() as int) =~= entries@);
    result
}

/// The menu bar as laid out: every menu, every entry, no host consulted.
pub open spec fn plain_menus(layout: Seq<MenuView>) -> Seq<(Seq<char>, Seq<ItemView>)> {
    layout.map_values(|menu: MenuView| (menu.name, plain_items(menu.items)))
}

/// Build the menu bar from the layout alone, for a shell with no host.
pub fn app_menus() -> (bar: Vec<Menu>)
    ensures
        menus_built_view(bar@) == plain_menus(menu_layout()),
{
    let layout_menus = menus();
    let ghost layout = menus_view(layout_menus@);
    let mut bar: Vec<Menu> = Vec::new();
    let mut i: usize = 0;
    while i < layout_menus.len()
        invariant
            i <= layout_menus@.len(),
            layout == menus_view(layout_menus@),
            layout == menu_layout(),
            bar@.len() == i,
            forall|j: int| 0 <= j < i ==> #[trigger] menus_built_view(bar@)[j] == plain_menus(layout)[j],
        decreases layout_menus@.len() - i,
    {
        let menu = &layout_menus[i];
        let items = plain_menu_items(&menu.items);
        let name = owned(menu.name);
        let ghost before = bar@;
        let ghost entry = layout[i as int];
        assert(entry.name == menu.name@ && entry.items == entries_view(menu.items@));
        bar.push(Menu { name, items });
        proof {
            assert(menus_built_view(bar@)[i as int] == plain_menus(layout)[i as int]);
            assert forall|j: int| 0 <= j < i + 1 implies #[trigger] menus_built_view(bar@)[j] == plain_menus(layout)[j] by {
                if j < i {
                    assert(bar@[j] == before[j]);
                    assert(menus_built_view(before)[j] == plain_menus(layout)[j]);
                }
            }
        }
        i = i + 1;
    }
    assert(menus_built_view(bar@) =~= plain_menus(layout));
    bar
}

// ---------------------------------------------------------------------------
// What every built menu looks like

/// Whether a list of items reads cleanly: no rule first or last, no two rules
/// in a row, and every submenu non-empty and itself clean.
pub open spec fn tidy(items: Seq<ItemView>) -> bool
    decreases items, 1int,
{
    &&& items.len() > 0 ==> !(items[0] is Separator)
    &&& items.len() > 0 ==> !(items.last() is Separator)
    &&& tidy_inside(items)
}

/// No two rules in a row, and every submenu non-empty and clean.
pub open spec fn tidy_inside(items: Seq<ItemView>) -> bool
    decreases items, 0int,
{
    if items.len() == 0 {
        true
    } else {
        &&& tidy_inside(items.drop_last())
        &&& (items.len() >= 2 && items.last() is Separator) ==> !(items[items.len() - 2] is Separator)
        &&& match items.last() {
            ItemView::Submenu(_, children) => children.len() > 0 && tidy(children),
            _ => true,
        }
    }
}

/// What `gathered` builds never starts with a rule, never doubles one, and
/// holds only non-empty, clean submenus; so the built items are clean.
pub proof fn lemma_built_items_tidy(
    registry: Map<Seq<char>, ActionInfoView>,
    entries: Seq<EntryView>,
    on_macos: bool,
)
    ensures
        gathered(registry, entries, on_macos).len() > 0 ==> !(gathered(registry, entries, on_macos)[0] is Separator),
        tidy_inside(gathered(registry, entries, on_macos)),
        tidy(built_items(registry, entries, on_macos)),
    decreases entries, 1int,
{
    let items = gathered(registry, entries, on_macos);
    if entries.len() > 0 {
        lemma_built_items_tidy(registry, entries.drop_last(), on_macos);
        let before = gathered(registry, entries.drop_last(), on_macos);
        match entries.last() {
            EntryView::Separator => {
                if !(before.len() == 0 || before.last() is Separator) {
                    assert(items.drop_last() =~= before);
                }
            },
            EntryView::Submenu(label, children) => {
                lemma_built_items_tidy(registry, children, on_macos);
                if built_items(registry, children, on_macos).len() > 0 {
                    assert(items.drop_last() =~= before);
                    if before.len() > 0 {
                        assert(items[0] == before[0]);
                    }
                }
            },
            EntryView::Command(spec) => {
                if resolved(registry, spec, on_macos) is Some {
                    assert(items.drop_last() =~= before);
                    if before.len() > 0 {
                        assert(items[0] == before[0]);
                    }
                }
            },
        }
    }
    let built = built_items(registry, entries, on_macos);
    if items.len() > 0 && items.last() is Separator {
        lemma_tidy_inside_prefix(items);
        if built.len() > 0 {
            assert(built[0] == items[0]);
            assert(built.last() == items[items.len() - 2]);
        }
    }
}

/// Dropping the last item keeps a list's inside clean.
proof fn lemma_tidy_inside_prefix(items: Seq<ItemView>)
    requires
        items.len() > 0,
        tidy_inside(items),
    ensures
        tidy_inside(items.drop_last()),
{
}

/// Every menu of the live menu bar is non-empty and reads cleanly.
pub proof fn lemma_menu_bar_tidy(registry: Map<Seq<char>, ActionInfoView>, layout: Seq<MenuView>, on_macos: bool)
    ensures
        forall|i: int|
            0 <= i < built_menus(registry, layout, on_macos).len() ==> (#[trigger] built_menus(
                registry,
                layout,
                on_macos,
            )[i]).1.len() > 0 && tidy(built_menus(registry, layout, on_macos)[i].1),
    decreases layout.len(),
{
    if layout.len() > 0 {
        lemma_menu_bar_tidy(registry, layout.drop_last(), on_macos);
        lemma_built_items_tidy(registry, layout.last().items, on_macos);
        let before = built_menus(registry, layout.drop_last(), on_macos);
        let all = built_menus(registry, layout, on_macos);
        assert forall|i: int| 0 <= i < all.len() implies (#[trigger] all[i]).1.len() > 0 && tidy(all[i].1) by {
            if i < before.len() {
                assert(all[i] == before[i]);
            }
        }
    }
}

} // verus!
