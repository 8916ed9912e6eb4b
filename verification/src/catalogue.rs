//! The command catalogue: every command the menus hold, flattened with the
//! menu path it sits under, plus every tool no menu lists. The command
//! palette and the key map are both built from it.

use vstd::prelude::*;
use crate::commands::{
    command_key, command_label, key_of, label_of, registry_of, ActionInfo, kind_name, resolved, ActionInfoView, ActionRegistry, CommandKind, CommandSpec,
    ResolvedCommand, ResolvedView,
};
use crate::menus::{
    entries_view, entry_view, menu_layout, menus, menus_view, EntryView, MenuEntry, MenuView,
};
use crate::hotkeys::{default_key_for, platform_default_key};
use crate::text::{owned, str_eq};
use crate::tools::{
    lemma_every_tool_has_a_row, palette_index, palette_tool, tool_spec, tools, Tool, TOOL_COUNT,
};

verus! {

/// One catalogue row: the menu path a command sits under, and the command.
pub type RowView = (Seq<char>, CommandSpec);

/// The text of catalogue rows.
pub open spec fn rows_view(rows: Seq<(String, CommandSpec)>) -> Seq<RowView> {
    rows.map_values(|row: (String, CommandSpec)| (row.0@, row.1))
}

/// The path of a submenu titled `label` under `path`.
pub open spec fn subpath(path: Seq<char>, label: Seq<char>) -> Seq<char> {
    path + " \u{203a} "@ + label
}

/// The commands among `items`, in order, each with the path it sits under;
/// a submenu's commands sit under the submenu's own path.
pub open spec fn flatten(path: Seq<char>, items: Seq<EntryView>) -> Seq<RowView>
    decreases items, 0int,
{
    if items.len() == 0 {
        Seq::empty()
    } else {
        flatten(path, items.drop_last()) + entry_rows(path, items.last())
    }
}

/// The commands one entry contributes.
pub open spec fn entry_rows(path: Seq<char>, entry: EntryView) -> Seq<RowView>
    decreases entry, 1int,
{
    match entry {
        EntryView::Separator => Seq::empty(),
        EntryView::Submenu(label, items) => flatten(subpath(path, label), items),
        EntryView::Command(spec) => seq![(path, spec)],
    }
}

/// The commands of every menu, menu after menu.
pub open spec fn menu_rows(menus: Seq<MenuView>) -> Seq<RowView>
    decreases menus.len(),
{
    if menus.len() == 0 {
        Seq::empty()
    } else {
        menu_rows(menus.drop_last()) + flatten(menus.last().name, menus.last().items)
    }
}

/// Whether some row reports the name `id`.
pub open spec fn reports(rows: Seq<RowView>, id: Seq<char>) -> bool {
    exists|i: int| 0 <= i < rows.len() && kind_name(rows[i].1.kind)@ == id
}

/// The palette row a tool gets when no menu lists it.
pub open spec fn tool_row(tool: Tool) -> RowView {
    (
        "Tools"@,
        CommandSpec {
            label: tool_spec(tool).label,
            kind: CommandKind::Tool(tool),
            key: tool_spec(tool).shortcut,
            icon: Some(tool_spec(tool).icon),
        },
    )
}

/// `rows` with a row appended, in palette order from position `from` on,
/// for every tool whose action no row reports yet.
pub open spec fn with_missing_tools(rows: Seq<RowView>, from: int) -> Seq<RowView>
    decreases TOOL_COUNT - from,
{
    if from < 0 || from >= TOOL_COUNT {
        rows
    } else {
        let tool = palette_tool(from);
        let next = if reports(rows, tool_spec(tool).id.0@) {
            rows
        } else {
            rows.push(tool_row(tool))
        };
        with_missing_tools(next, from + 1)
    }
}

/// The whole catalogue: the menus' commands, then the tools no menu lists.
pub open spec fn catalogue() -> Seq<RowView> {
    with_missing_tools(menu_rows(menu_layout()), 0)
}

/// Append the commands among `items`, under `path`, to `out`.
pub fn collect(path: &str, items: &Vec<MenuEntry>, out: &mut Vec<(String, CommandSpec)>)
    ensures
        rows_view(final(out)@) == rows_view(old(out)@) + flatten(path@, entries_view(items@)),
    decreases items,
{
    let mut i: usize = 0;
    assert(items@.take(0) =~= Seq::<MenuEntry>::empty());
    assert(rows_view(out@) + flatten(path@, entries_view(items@.take(0))) =~= rows_view(out@));
    while i < items.len()
        invariant
            i <= items@.len(),
            rows_view(out@) == rows_view(old(out)@) + flatten(path@, entries_view(items@.take(i as int))),
        decreases items@.len() - i,
    {
        let ghost before = rows_view(out@);
        assert(items@.take(i + 1).drop_last() =~= items@.take(i as int));
        assert(items@.take(i + 1).last() == items@[i as int]);
        let ghost ev = entries_view(items@.take(i as int));
        let ghost e = entry_view(items@[i as int]);
        assert(entries_view(items@.take(i + 1)) == ev.push(e));
        assert(ev.push(e).drop_last() =~= ev);
        assert(flatten(path@, ev.push(e)) == flatten(path@, ev) + entry_rows(path@, e));
        match &items[i] {
            MenuEntry::Separator => {
                assert(entry_rows(path@, entry_view(items@[i as int])) =~= Seq::<RowView>::empty());
            },
            MenuEntry::Submenu { label, items: children } => {
                let mut nested = owned(path);
                nested.append(" \u{203a} ");
                nested.append(label);
                collect(nested.as_str(), children, out);
                assert(rows_view(out@) =~= before + entry_rows(path@, e));
            },
            MenuEntry::Command(spec) => {
                out.push((owned(path), *spec));
                assert(rows_view(out@) =~= before.push((path@, *spec)));
            },
        }
        assert(rows_view(out@) =~= rows_view(old(out)@) + flatten(path@, entries_view(items@.take(i + 1))));
        i = i + 1;
    }
    assert(items@.take(items@.len() as int) =~= items@);
}

/// Whether some row of `rows` reports the name `id`.
fn any_reports(rows: &Vec<(String, CommandSpec)>, id: &str) -> (found: bool)
    ensures
        found == reports(rows_view(rows@), id@),
{
    let mut i: usize = 0;
    while i < rows.len()
        invariant
            i <= rows@.len(),
            forall|j: int| 0 <= j < i ==> kind_name(#[trigger] rows@[j].1.kind)@ != id@,
        decreases rows@.len() - i,
    {
        if str_eq(rows[i].1.reported_id(), id) {
            assert(rows_view(rows@)[i as int].1 == rows@[i as int].1);
            return true;
        }
        i = i + 1;
    }
    assert forall|j: int| 0 <= j < rows_view(rows@).len() implies kind_name(rows_view(rows@)[j].1.kind)@ != id@ by {
        assert(rows_view(rows@)[j].1 == rows@[j].1);
    }
    false
}

/// Every command in the catalogue, flattened, with the menu path it sits
/// under, then a `Tools` row for every tool no menu lists. The command palette
/// and the key map are both built from this.
pub fn all_commands() -> (rows: Vec<(String, CommandSpec)>)
    ensures
        rows_view(rows@) == catalogue(),
{
    let all_menus = menus();
    let ghost layout = menus_view(all_menus@);
    let mut out: Vec<(String, CommandSpec)> = Vec::new();
    let mut i: usize = 0;
    assert(layout.take(0) =~= Seq::<MenuView>::empty());
    assert(rows_view(out@) =~= Seq::<RowView>::empty());
    while i < all_menus.len()
        invariant
            i <= all_menus@.len(),
            layout == menus_view(all_menus@),
            layout == menu_layout(),
            rows_view(out@) == menu_rows(layout.take(i as int)),
        decreases all_menus@.len() - i,
    {
        let menu = &all_menus[i];
        collect(menu.name, &menu.items, &mut out);
        assert(layout.take(i + 1).drop_last() =~= layout.take(i as int));
        assert(layout.take(i + 1).last() == layout[i as int]);
        i = i + 1;
    }
    assert(layout.take(all_menus@.len() as int) =~= layout);
    // Tools that no menu lists still deserve a palette row and a binding.
    let specs = tools();
    let mut k: usize = 0;
    while k < TOOL_COUNT
        invariant
            k <= TOOL_COUNT,
            specs@.len() == TOOL_COUNT,
            forall|j: int| 0 <= j < TOOL_COUNT ==> #[trigger] specs@[j] == tool_spec(palette_tool(j)),
            with_missing_tools(rows_view(out@), k as int) == catalogue(),
        decreases TOOL_COUNT - k,
    {
        let spec = specs[k];
        let ghost before = rows_view(out@);
        if !any_reports(&out, spec.id.as_str()) {
            out.push(
                (
                    owned("Tools"),
                    CommandSpec {
                        label: spec.label,
                        kind: CommandKind::Tool(spec.tool),
                        key: spec.shortcut,
                        icon: Some(spec.icon),
                    },
                ),
            );
            proof {
                crate::tools::lemma_palette_order(k as int);
            }
            assert(rows_view(out@) =~= before.push(tool_row(palette_tool(k as int))));
        }
        k = k + 1;
    }
    out
}

/// Every tool can be reached from the command palette: some catalogue row
/// reports its action.
pub proof fn lemma_every_tool_in_catalogue(tool: Tool)
    ensures
        reports(catalogue(), tool_spec(tool).id.0@),
{
    lemma_missing_tools_reported(menu_rows(menu_layout()), 0);
    lemma_every_tool_has_a_row(tool);
    assert(palette_tool(palette_index(tool)) == tool);
}

/// Appending the missing tools keeps every name already reported, and leaves
/// every tool from position `from` on reported.
pub proof fn lemma_missing_tools_reported(rows: Seq<RowView>, from: int)
    requires
        0 <= from <= TOOL_COUNT,
    ensures
        forall|id: Seq<char>| reports(rows, id) ==> reports(with_missing_tools(rows, from), id),
        forall|j: int|
            from <= j < TOOL_COUNT ==> reports(
                with_missing_tools(rows, from),
                tool_spec(#[trigger] palette_tool(j)).id.0@,
            ),
    decreases TOOL_COUNT - from,
{
    if from < TOOL_COUNT {
        let tool = palette_tool(from);
        let id = tool_spec(tool).id.0@;
        let next = if reports(rows, id) {
            rows
        } else {
            rows.push(tool_row(tool))
        };
        assert forall|other: Seq<char>| reports(rows, other) implies reports(next, other) by {
            if !reports(rows, id) {
                let i = choose|i: int| 0 <= i < rows.len() && kind_name(rows[i].1.kind)@ == other;
                assert(next[i] == rows[i]);
            }
        }
        if !reports(rows, id) {
            assert(kind_name(next[rows.len() as int].1.kind)@ == id);
        }
        assert(reports(next, id));
        lemma_missing_tools_reported(next, from + 1);
    }
}

// ---------------------------------------------------------------------------
// The catalogue as a live host offers it

/// Catalogue rows resolved against `registry`, dropping the ones the host
/// does not offer.
pub open spec fn resolved_rows(
    registry: Map<Seq<char>, ActionInfoView>,
    rows: Seq<RowView>,
    on_macos: bool,
) -> Seq<(Seq<char>, ResolvedView)>
    decreases rows.len(),
{
    if rows.len() == 0 {
        Seq::empty()
    } else {
        let before = resolved_rows(registry, rows.drop_last(), on_macos);
        match resolved(registry, rows.last().1, on_macos) {
            Some(command) => before.push((rows.last().0, command)),
            None => before,
        }
    }
}

/// The text of resolved rows.
pub open spec fn resolved_rows_view(rows: Seq<(String, ResolvedCommand)>) -> Seq<
    (Seq<char>, ResolvedView),
> {
    rows.map_values(|row: (String, ResolvedCommand)| (row.0@, row.1@))
}

/// Palette commands for the live editor, using registry labels and shortcuts:
/// every catalogue row the host offers, resolved, in catalogue order.
pub fn all_commands_with_registry(registry: &ActionRegistry, on_macos: bool) -> (rows: Vec<
    (String, ResolvedCommand),
>)
    ensures
        resolved_rows_view(rows@) == resolved_rows(registry.view(), catalogue(), on_macos),
{
    let all = all_commands();
    let ghost source = rows_view(all@);
    let mut out: Vec<(String, ResolvedCommand)> = Vec::new();
    let mut i: usize = 0;
    assert(source.take(0) =~= Seq::<RowView>::empty());
    assert(resolved_rows_view(out@) =~= Seq::<(Seq<char>, ResolvedView)>::empty());
    while i < all.len()
        invariant
            i <= all@.len(),
            source == rows_view(all@),
            resolved_rows_view(out@) == resolved_rows(registry.view(), source.take(i as int), on_macos),
        decreases all@.len() - i,
    {
        let ghost before = resolved_rows_view(out@);
        assert(source.take(i + 1).drop_last() =~= source.take(i as int));
        assert(source.take(i + 1).last() == source[i as int]);
        let resolved_command = registry.resolve(&all[i].1, on_macos);
        match resolved_command {
            Some(command) => {
                let path = all[i].0.clone();
                out.push((path, command));
                assert(resolved_rows_view(out@) =~= before.push(
                    (source[i as int].0, out@.last().1@),
                ));
            },
            None => {},
        }
        i = i + 1;
    }
    assert(source.take(all@.len() as int) =~= source);
    out
}

/// The registry entry a catalogue row stands for when no host supplies one:
/// its own name and label, and its default key on this platform.
pub open spec fn standalone_info(row: RowView, on_macos: bool) -> ActionInfoView {
    ActionInfoView {
        name: kind_name(row.1.kind)@,
        label: command_label(row.1)@,
        description: Seq::empty(),
        hotkey: match command_key(row.1) {
            Some(key) => default_key_for(key@, on_macos),
            None => Seq::empty(),
        },
        hotkey_alt: Seq::empty(),
    }
}

/// The registry a standalone replay uses, so that it registers and orders
/// shortcuts exactly as a live session does: one entry per catalogue row.
pub fn standalone_registry(on_macos: bool) -> (registry: ActionRegistry)
    ensures
        registry.view() == registry_of(
            catalogue().map_values(|row: RowView| standalone_info(row, on_macos)),
        ),
{
    let rows = all_commands();
    let ghost source = rows_view(rows@);
    let mut infos: Vec<ActionInfo> = Vec::new();
    let mut i: usize = 0;
    while i < rows.len()
        invariant
            i <= rows@.len(),
            source == rows_view(rows@),
            source == catalogue(),
            infos@.len() == i,
            forall|k: int|
                0 <= k < i ==> (#[trigger] infos@[k])@ == standalone_info(source[k], on_macos),
        decreases rows@.len() - i,
    {
        let spec = &rows[i].1;
        let hotkey = match key_of(spec) {
            Some(key) => platform_default_key(key, on_macos),
            None => String::new(),
        };
        infos.push(
            ActionInfo {
                name: owned(spec.reported_id()),
                label: owned(label_of(spec)),
                description: String::new(),
                hotkey,
                hotkey_alt: String::new(),
            },
        );
        i = i + 1;
    }
    assert(infos@.map_values(|info: ActionInfo| info@) =~= source.map_values(
        |row: RowView| standalone_info(row, on_macos),
    ));
    ActionRegistry::new(infos)
}

} // verus!
