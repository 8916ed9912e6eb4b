//! The canvas's right-click menu: KiCad's edit actions in three groups, each
//! offered only where the host registers it, a separator after each group
//! that has anything in it, and zooming to fit at the end.

use vstd::prelude::*;
use crate::commands::{ActionInfoView, ActionRegistry};
use crate::text::owned;

verus! {

/// An entry of the context menu.
#[derive(Debug)]
pub enum ContextEntry {
    /// Run the KiCad action `id`, shown as `label`.
    Action { label: String, id: &'static str },
    /// A separator.
    Separator,
    /// Zoom the view to fit the document.
    ZoomToFit,
}

/// An entry as the contracts see it.
pub enum ContextEntryView {
    Action(Seq<char>, Seq<char>),
    Separator,
    ZoomToFit,
}

/// The view of an entry.
pub open spec fn entry_view(entry: ContextEntry) -> ContextEntryView {
    match entry {
        ContextEntry::Action { label, id } => ContextEntryView::Action(label@, id@),
        ContextEntry::Separator => ContextEntryView::Separator,
        ContextEntry::ZoomToFit => ContextEntryView::ZoomToFit,
    }
}

/// The views of a list of entries.
pub open spec fn entries_view(entries: Seq<ContextEntry>) -> Seq<ContextEntryView> {
    entries.map_values(|entry: ContextEntry| entry_view(entry))
}

/// The three groups of the menu, each a list of (label shown without a host,
/// KiCad action) pairs: clipboard, item, selection.
pub open spec fn context_groups() -> Seq<Seq<(&'static str, &'static str)>> {
    seq![
        seq![
            ("Cut", "common.Interactive.cut"),
            ("Copy", "common.Interactive.copy"),
            ("Paste", "common.Interactive.paste"),
        ],
        seq![
            ("Properties...", "eeschema.InteractiveEdit.properties"),
            ("Delete", "common.Interactive.delete"),
        ],
        seq![("Select All", "common.Interactive.selectAll")],
    ]
}

/// The groups of the menu.
pub fn context_menu_groups() -> (groups: Vec<Vec<(&'static str, &'static str)>>)
    ensures
        groups@.len() == context_groups().len(),
        forall|i: int| 0 <= i < groups@.len() ==> #[trigger] groups@[i]@ == context_groups()[i],
{
    let groups = vec![
        vec![
            ("Cut", "common.Interactive.cut"),
            ("Copy", "common.Interactive.copy"),
            ("Paste", "common.Interactive.paste"),
        ],
        vec![
            ("Properties...", "eeschema.InteractiveEdit.properties"),
            ("Delete", "common.Interactive.delete"),
        ],
        vec![("Select All", "common.Interactive.selectAll")],
    ];
    assert(groups@[0]@ =~= context_groups()[0]);
    assert(groups@[1]@ =~= context_groups()[1]);
    assert(groups@[2]@ =~= context_groups()[2]);
    groups
}

/// Whether the host offers the action `id`: every action does in a shell
/// without a host, and a registered one does in a shell with one.
pub open spec fn offered(registry: Option<Map<Seq<char>, ActionInfoView>>, id: Seq<char>) -> bool {
    match registry {
        Some(r) => r.contains_key(id),
        None => true,
    }
}

/// The label of an offered action: the host's, or the fallback without one.
pub open spec fn shown_label(registry: Option<Map<Seq<char>, ActionInfoView>>, id: Seq<char>, fallback: Seq<char>) -> Seq<char> {
    match registry {
        Some(r) => r[id].label,
        None => fallback,
    }
}

/// The entries a group contributes before its separator: its offered
/// actions, in order.
pub open spec fn group_entries(
    registry: Option<Map<Seq<char>, ActionInfoView>>,
    items: Seq<(&'static str, &'static str)>,
) -> Seq<ContextEntryView>
    decreases items.len(),
{
    if items.len() == 0 {
        Seq::empty()
    } else {
        let (fallback, id) = items.last();
        group_entries(registry, items.drop_last()) + if offered(registry, id@) {
            seq![ContextEntryView::Action(shown_label(registry, id@, fallback@), id@)]
        } else {
            Seq::empty()
        }
    }
}

/// The entries of several groups: each group's offered actions, followed by
/// a separator when there are any.
pub open spec fn groups_entries(
    registry: Option<Map<Seq<char>, ActionInfoView>>,
    groups: Seq<Seq<(&'static str, &'static str)>>,
) -> Seq<ContextEntryView>
    decreases groups.len(),
{
    if groups.len() == 0 {
        Seq::empty()
    } else {
        let group = group_entries(registry, groups.last());
        groups_entries(registry, groups.drop_last()) + if group.len() > 0 {
            group.push(ContextEntryView::Separator)
        } else {
            group
        }
    }
}

/// The whole menu.
pub open spec fn context_menu_of(registry: Option<Map<Seq<char>, ActionInfoView>>) -> Seq<ContextEntryView> {
    groups_entries(registry, context_groups()).push(ContextEntryView::ZoomToFit)
}

/// Append a group's offered actions to `entries`; answers whether it added any.
fn push_group(
    entries: &mut Vec<ContextEntry>,
    registry: Option<&ActionRegistry>,
    items: &Vec<(&'static str, &'static str)>,
) -> (added: bool)
    ensures
        entries_view(final(entries)@) == entries_view(old(entries)@) + group_entries(
            match registry {
                Some(r) => Some(r.view()),
                None => None,
            },
            items@,
        ),
        added == (group_entries(
            match registry {
                Some(r) => Some(r.view()),
                None => None,
            },
            items@,
        ).len() > 0),
{
    let ghost reg = match registry {
        Some(r) => Some(r.view()),
        None => None,
    };
    let ghost start = entries_view(entries@);
    let mut added = false;
    let mut i: usize = 0;
    while i < items.len()
        invariant
            i <= items@.len(),
            reg == match registry {
                Some(r) => Some(r.view()),
                None => None,
            },
            entries_view(entries@) == start + group_entries(reg, items@.take(i as int)),
            added == (group_entries(reg, items@.take(i as int)).len() > 0),
        decreases items@.len() - i,
    {
        let (fallback, id) = items[i];
        assert(items@.take(i + 1).drop_last() =~= items@.take(i as int));
        assert(items@.take(i + 1).last() == items@[i as int]);
        let label = match registry {
            Some(r) => match r.get(id) {
                Some(info) => Some(info.label.clone()),
                None => None,
            },
            None => Some(owned(fallback)),
        };
        match label {
            Some(label) => {
                let ghost before = entries@;
                entries.push(ContextEntry::Action { label, id });
                assert(entries_view(entries@) =~= entries_view(before).push(
                    ContextEntryView::Action(shown_label(reg, id@, fallback@), id@),
                ));
                added = true;
            },
            None => {},
        }
        i = i + 1;
    }
    assert(items@.take(items@.len() as int) =~= items@);
    added
}

/// The canvas's context menu, given the host's registry if there is one.
pub fn context_menu(registry: Option<&ActionRegistry>) -> (entries: Vec<ContextEntry>)
    ensures
        entries_view(entries@) == context_menu_of(
            match registry {
                Some(r) => Some(r.view()),
                None => None,
            },
        ),
{
    let ghost reg = match registry {
        Some(r) => Some(r.view()),
        None => None,
    };
    let groups = context_menu_groups();
    let mut entries: Vec<ContextEntry> = Vec::new();
    let mut g: usize = 0;
    assert(entries_view(entries@) =~= Seq::<ContextEntryView>::empty());
    while g < groups.len()
        invariant
            g <= groups@.len(),
            groups@.len() == context_groups().len(),
            forall|i: int| 0 <= i < groups@.len() ==> #[trigger] groups@[i]@ == context_groups()[i],
            reg == match registry {
                Some(r) => Some(r.view()),
                None => None,
            },
            entries_view(entries@) == groups_entries(reg, context_groups().take(g as int)),
        decreases groups@.len() - g,
    {
        assert(context_groups().take(g + 1).drop_last() =~= context_groups().take(g as int));
        assert(context_groups().take(g + 1).last() == groups@[g as int]@);
        let added = push_group(&mut entries, registry, &groups[g]);
        if added {
            let ghost before = entries@;
            entries.push(ContextEntry::Separator);
            assert(entries_view(entries@) =~= entries_view(before).push(ContextEntryView::Separator));
        }
        g = g + 1;
    }
    assert(context_groups().take(groups@.len() as int) =~= context_groups());
    let ghost before = entries@;
    entries.push(ContextEntry::ZoomToFit);
    assert(entries_view(entries@) =~= entries_view(before).push(ContextEntryView::ZoomToFit));
    entries
}

/// A list of entries is tidy: it does not open with a separator and has no
/// two separators in a row.
pub open spec fn tidy(entries: Seq<ContextEntryView>) -> bool {
    &&& (entries.len() > 0 ==> !(entries[0] is Separator))
    &&& forall|i: int| 0 <= i < entries.len() - 1 ==> !(#[trigger] entries[i] is Separator && entries[i + 1] is Separator)
}

/// A group contributes actions only.
proof fn lemma_group_entries_are_actions(
    registry: Option<Map<Seq<char>, ActionInfoView>>,
    items: Seq<(&'static str, &'static str)>,
)
    ensures
        forall|i: int| 0 <= i < group_entries(registry, items).len() ==> #[trigger] group_entries(registry, items)[i] is Action,
    decreases items.len(),
{
    if items.len() > 0 {
        lemma_group_entries_are_actions(registry, items.drop_last());
    }
}

/// The entries of several groups are tidy and, unless empty, end with a
/// separator.
proof fn lemma_groups_entries_tidy(
    registry: Option<Map<Seq<char>, ActionInfoView>>,
    groups: Seq<Seq<(&'static str, &'static str)>>,
)
    ensures
        tidy(groups_entries(registry, groups)),
        groups_entries(registry, groups).len() > 0 ==> groups_entries(registry, groups).last() is Separator,
    decreases groups.len(),
{
    if groups.len() > 0 {
        let before = groups_entries(registry, groups.drop_last());
        let group = group_entries(registry, groups.last());
        lemma_groups_entries_tidy(registry, groups.drop_last());
        lemma_group_entries_are_actions(registry, groups.last());
        if group.len() > 0 {
            let added = group.push(ContextEntryView::Separator);
            let all = before + added;
            assert(all == groups_entries(registry, groups));
            assert forall|i: int| 0 <= i < all.len() - 1 implies !(#[trigger] all[i] is Separator && all[i + 1] is Separator) by {
                if i + 1 < before.len() {
                    assert(all[i] == before[i]);
                    assert(all[i + 1] == before[i + 1]);
                } else if i + 1 < all.len() - 1 {
                    assert(all[i + 1] == group[i + 1 - before.len()]);
                }
            }
            if before.len() == 0 {
                assert(all[0] == group[0]);
            } else {
                assert(all[0] == before[0]);
            }
        } else {
            assert(groups_entries(registry, groups) =~= before);
        }
    }
}

/// The context menu, whatever the host offers, never opens with a separator,
/// never shows two separators in a row, and always ends with zooming to fit.
pub proof fn lemma_context_menu_tidy(registry: Option<Map<Seq<char>, ActionInfoView>>)
    ensures
        tidy(context_menu_of(registry)),
        context_menu_of(registry).last() is ZoomToFit,
{
    let body = groups_entries(registry, context_groups());
    lemma_groups_entries_tidy(registry, context_groups());
    let all = body.push(ContextEntryView::ZoomToFit);
    assert forall|i: int| 0 <= i < all.len() - 1 implies !(#[trigger] all[i] is Separator && all[i + 1] is Separator) by {
        assert(all[i] == body[i]);
        if i + 1 < body.len() {
            assert(all[i + 1] == body[i + 1]);
        }
    }
    if body.len() > 0 {
        assert(all[0] == body[0]);
    }
}

} // verus!
