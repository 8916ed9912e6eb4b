//! The fields of the document dialogs: which control each field of each
//! dialog gets, and what the dialog hands back when it is applied.
//!
//! A document dialog is a list of named fields the host supplies, in an order
//! fixed per dialog. Most are edited as text or numbers; some are options, a
//! check box, shown but not editable, or not shown at all because they carry
//! the identity of what is being edited.

use vstd::prelude::*;

verus! {

/// A set of options a choice field offers.
#[derive(Clone, Copy, Debug, PartialEq, Eq, Structural)]
pub enum ChoiceSet {
    /// How an imported schematic joins this one.
    ImportMode,
    /// What to do with a data source package.
    PackageAction,
    /// How to resolve two fields whose names differ only in case.
    FieldConflict,
    /// Whether an update from the board is previewed or applied.
    PcbUpdate,
    /// What to do with a net class.
    NetclassEdit,
    /// Keep or remove an entry.
    SaveOrDelete,
    /// Which part of the schematic a bulk edit touches.
    EditScope,
    /// Which items a bulk edit touches.
    EditTarget,
    /// Leave a flag, set it, or clear it.
    Tristate,
    /// Which symbols annotation touches.
    AnnotateScope,
    /// The direction annotation numbers symbols in.
    AnnotateOrder,
    /// Where annotation numbers start on each sheet.
    AnnotateNumbering,
    /// Paper sizes.
    PageSize,
    /// Bill of materials column presets.
    BomPreset,
    /// Netlist formats.
    NetlistFormat,
    /// Plot formats.
    PlotFormat,
}

/// The control a document-dialog field gets.
#[derive(Clone, Copy, Debug, PartialEq, Eq, Structural)]
pub enum FieldKind {
    /// Free text.
    Text,
    /// A number, edited as text.
    Number,
    /// A check box.
    Boolean,
    /// One of a set of options.
    Choice(ChoiceSet),
    /// Not shown: the field identifies what is being edited.
    Hidden,
    /// Shown, not editable.
    ReadOnly,
}

/// The options of `set`: the value handed back, then the label shown.
pub open spec fn choice_list(set: ChoiceSet) -> Seq<(&'static str, &'static str)> {
    match set {
        ChoiceSet::ImportMode => seq![("sheet", "Hierarchical sheet"), ("append", "Append flat content")],
        ChoiceSet::PackageAction => seq![("refresh", "Refresh"), ("install", "Install archive"), ("uninstall", "Uninstall")],
        ChoiceSet::FieldConflict => seq![("first", "Keep first field"), ("last", "Keep last field"), ("join", "Join values")],
        ChoiceSet::PcbUpdate => seq![("preview", "Preview changes"), ("apply", "Apply changes")],
        ChoiceSet::NetclassEdit => seq![("save", "Save"), ("delete", "Delete class"), ("remove-pattern", "Remove pattern")],
        ChoiceSet::SaveOrDelete => seq![("save", "Save"), ("delete", "Delete")],
        ChoiceSet::EditScope => seq![("all", "All sheets"), ("sheet", "Current sheet"), ("selection", "Selection")],
        ChoiceSet::EditTarget => seq![("text", "Text and symbol fields"), ("graphics", "Lines and shapes"), ("both", "Both")],
        ChoiceSet::Tristate => seq![("keep", "Unchanged"), ("yes", "On"), ("no", "Off")],
        ChoiceSet::AnnotateScope => seq![("all", "All sheets"), ("sheet", "Current sheet"), ("selection", "Selected symbols")],
        ChoiceSet::AnnotateOrder => seq![("x", "Left to right"), ("y", "Top to bottom")],
        ChoiceSet::AnnotateNumbering => seq![("incremental", "First available"), ("100", "Sheet \u{d7} 100"), ("1000", "Sheet \u{d7} 1000")],
        ChoiceSet::PageSize => seq![("A4", "A4"), ("A3", "A3"), ("A2", "A2"), ("A1", "A1"), ("A0", "A0"), ("A5", "A5"), ("A", "ANSI A"), ("B", "ANSI B"), ("C", "ANSI C"), ("D", "ANSI D"), ("E", "ANSI E"), ("Letter", "Letter"), ("Legal", "Legal")],
        ChoiceSet::BomPreset => seq![("standard", "Standard"), ("manufacturing", "Manufacturing"), ("custom", "Custom columns"), ("saved", "Saved preset")],
        ChoiceSet::NetlistFormat => seq![("kicad", "KiCad"), ("xml", "XML"), ("spice", "SPICE"), ("cadstar", "CADSTAR"), ("orcad", "OrCAD"), ("pads", "PADS"), ("allegro", "Allegro")],
        ChoiceSet::PlotFormat => seq![("pdf", "PDF"), ("svg", "SVG"), ("dxf", "DXF"), ("ps", "PostScript"), ("hpgl", "HPGL"), ("png", "PNG")],
    }
}

/// The options a choice field of `set` offers, value then label, in the
/// order they are shown.
pub fn choices(set: ChoiceSet) -> (options: Vec<(&'static str, &'static str)>)
    ensures
        options@ == choice_list(set),
{
    let mut options: Vec<(&'static str, &'static str)> = Vec::new();
    match set {
        ChoiceSet::ImportMode => {
            options.push(("sheet", "Hierarchical sheet"));
            options.push(("append", "Append flat content"));
        },
        ChoiceSet::PackageAction => {
            options.push(("refresh", "Refresh"));
            options.push(("install", "Install archive"));
            options.push(("uninstall", "Uninstall"));
        },
        ChoiceSet::FieldConflict => {
            options.push(("first", "Keep first field"));
            options.push(("last", "Keep last field"));
            options.push(("join", "Join values"));
        },
        ChoiceSet::PcbUpdate => {
            options.push(("preview", "Preview changes"));
            options.push(("apply", "Apply changes"));
        },
        ChoiceSet::NetclassEdit => {
            options.push(("save", "Save"));
            options.push(("delete", "Delete class"));
            options.push(("remove-pattern", "Remove pattern"));
        },
        ChoiceSet::SaveOrDelete => {
            options.push(("save", "Save"));
            options.push(("delete", "Delete"));
        },
        ChoiceSet::EditScope => {
            options.push(("all", "All sheets"));
            options.push(("sheet", "Current sheet"));
            options.push(("selection", "Selection"));
        },
        ChoiceSet::EditTarget => {
            options.push(("text", "Text and symbol fields"));
            options.push(("graphics", "Lines and shapes"));
            options.push(("both", "Both"));
        },
        ChoiceSet::Tristate => {
            options.push(("keep", "Unchanged"));
            options.push(("yes", "On"));
            options.push(("no", "Off"));
        },
        ChoiceSet::AnnotateScope => {
            options.push(("all", "All sheets"));
            options.push(("sheet", "Current sheet"));
            options.push(("selection", "Selected symbols"));
        },
        ChoiceSet::AnnotateOrder => {
            options.push(("x", "Left to right"));
            options.push(("y", "Top to bottom"));
        },
        ChoiceSet::AnnotateNumbering => {
            options.push(("incremental", "First available"));
            options.push(("100", "Sheet \u{d7} 100"));
            options.push(("1000", "Sheet \u{d7} 1000"));
        },
        ChoiceSet::PageSize => {
            options.push(("A4", "A4"));
            options.push(("A3", "A3"));
            options.push(("A2", "A2"));
            options.push(("A1", "A1"));
            options.push(("A0", "A0"));
            options.push(("A5", "A5"));
            options.push(("A", "ANSI A"));
            options.push(("B", "ANSI B"));
            options.push(("C", "ANSI C"));
            options.push(("D", "ANSI D"));
            options.push(("E", "ANSI E"));
            options.push(("Letter", "Letter"));
            options.push(("Legal", "Legal"));
        },
        ChoiceSet::BomPreset => {
            options.push(("standard", "Standard"));
            options.push(("manufacturing", "Manufacturing"));
            options.push(("custom", "Custom columns"));
            options.push(("saved", "Saved preset"));
        },
        ChoiceSet::NetlistFormat => {
            options.push(("kicad", "KiCad"));
            options.push(("xml", "XML"));
            options.push(("spice", "SPICE"));
            options.push(("cadstar", "CADSTAR"));
            options.push(("orcad", "OrCAD"));
            options.push(("pads", "PADS"));
            options.push(("allegro", "Allegro"));
        },
        ChoiceSet::PlotFormat => {
            options.push(("pdf", "PDF"));
            options.push(("svg", "SVG"));
            options.push(("dxf", "DXF"));
            options.push(("ps", "PostScript"));
            options.push(("hpgl", "HPGL"));
            options.push(("png", "PNG"));
        },
    }
    assert(options@ =~= choice_list(set));
    options
}

/// The control field `i` of document dialog `k` gets. The rules are tried
/// in order and the first that applies decides; a field no rule names is
/// free text.
pub open spec fn kind_of_field(k: u32, i: usize) -> FieldKind {
    if k == 23 && i == 0 {
        FieldKind::Choice(ChoiceSet::ImportMode)
    } else if k == 23 && (i == 3 || i == 4) {
        FieldKind::Number
    } else if k == 23 && (i == 5 || i == 6) {
        FieldKind::Boolean
    } else if k == 22 && i == 0 {
        FieldKind::Choice(ChoiceSet::PackageAction)
    } else if k == 22 && i == 3 {
        FieldKind::Boolean
    } else if k == 22 && i >= 4 {
        FieldKind::ReadOnly
    } else if k == 21 && i == 0 {
        FieldKind::ReadOnly
    } else if k == 21 && i >= 2 && (i - 2) % 3 == 0 {
        FieldKind::Hidden
    } else if k == 21 && i >= 2 && (i - 2) % 3 == 1 {
        FieldKind::ReadOnly
    } else if k == 21 && i >= 2 {
        FieldKind::Choice(ChoiceSet::FieldConflict)
    } else if k == 20 && i == 0 {
        FieldKind::Choice(ChoiceSet::PcbUpdate)
    } else if k == 20 && 2 <= i && i <= 10 {
        FieldKind::Boolean
    } else if (k == 20 && i == 11) || (k == 19 && i == 0) {
        FieldKind::ReadOnly
    } else if k == 19 && i % 2 == 1 {
        FieldKind::Hidden
    } else if (k == 0 && i == 0) || (k == 1 && i == 0) || (k == 14 && 2 <= i && i <= 7) || (k == 17 && 2 <= i && i <= 3) {
        FieldKind::Number
    } else if k == 14 && i == 0 {
        FieldKind::Choice(ChoiceSet::NetclassEdit)
    } else if (k == 13 || k == 15) && i == 0 {
        FieldKind::Choice(ChoiceSet::SaveOrDelete)
    } else if k == 17 && i == 0 {
        FieldKind::Choice(ChoiceSet::EditScope)
    } else if k == 17 && i == 1 {
        FieldKind::Choice(ChoiceSet::EditTarget)
    } else if k == 17 && 4 <= i && i <= 5 {
        FieldKind::Choice(ChoiceSet::Tristate)
    } else if k == 18 && 1 <= i && i <= 3 {
        FieldKind::Boolean
    } else if (k == 13 && i >= 3) || (k == 14 && i >= 9) || (k == 15 && i >= 6) || (k == 16 && i >= 8) {
        FieldKind::ReadOnly
    } else if (k == 0 && i == 4) || (k == 1 && i == 1) {
        FieldKind::Choice(ChoiceSet::AnnotateScope)
    } else if k == 0 && i == 1 {
        FieldKind::Choice(ChoiceSet::AnnotateOrder)
    } else if k == 0 && i == 2 {
        FieldKind::Choice(ChoiceSet::AnnotateNumbering)
    } else if (k == 0 && i == 3) || (k == 2 && (i == 1 || i == 15)) || ((k == 4 || k == 5) && 2 <= i && i <= 4) || (k == 6 && (i == 1 || i == 4 || i == 5)) {
        FieldKind::Boolean
    } else if k == 2 && i == 0 {
        FieldKind::Choice(ChoiceSet::PageSize)
    } else if k == 6 && i == 2 {
        FieldKind::Choice(ChoiceSet::BomPreset)
    } else if k == 3 && i == 1 {
        FieldKind::Choice(ChoiceSet::NetlistFormat)
    } else if k == 4 && i == 1 {
        FieldKind::Choice(ChoiceSet::PlotFormat)
    } else if (k == 2 && i == 16) || (k == 5 && i == 1) || ((k == 7 || k == 12) && i == 0) {
        FieldKind::Hidden
    } else if (k == 6 && i == 8) || (k == 11 && i >= 2) {
        FieldKind::ReadOnly
    } else {
        FieldKind::Text
    }
}

/// The control field `index` of document dialog `kind` gets.
#[verifier::rlimit(50)]
pub fn field_kind(kind: u32, index: usize) -> (field: FieldKind)
    ensures
        field == kind_of_field(kind, index),
{
    let k = kind;
    let i = index;
    if k == 23 && i == 0 {
        FieldKind::Choice(ChoiceSet::ImportMode)
    } else if k == 23 && (i == 3 || i == 4) {
        FieldKind::Number
    } else if k == 23 && (i == 5 || i == 6) {
        FieldKind::Boolean
    } else if k == 22 && i == 0 {
        FieldKind::Choice(ChoiceSet::PackageAction)
    } else if k == 22 && i == 3 {
        FieldKind::Boolean
    } else if k == 22 && i >= 4 {
        FieldKind::ReadOnly
    } else if k == 21 && i == 0 {
        FieldKind::ReadOnly
    } else if k == 21 && i >= 2 && (i - 2) % 3 == 0 {
        FieldKind::Hidden
    } else if k == 21 && i >= 2 && (i - 2) % 3 == 1 {
        FieldKind::ReadOnly
    } else if k == 21 && i >= 2 {
        FieldKind::Choice(ChoiceSet::FieldConflict)
    } else if k == 20 && i == 0 {
        FieldKind::Choice(ChoiceSet::PcbUpdate)
    } else if k == 20 && 2 <= i && i <= 10 {
        FieldKind::Boolean
    } else if (k == 20 && i == 11) || (k == 19 && i == 0) {
        FieldKind::ReadOnly
    } else if k == 19 && i % 2 == 1 {
        FieldKind::Hidden
    } else if (k == 0 && i == 0) || (k == 1 && i == 0) || (k == 14 && 2 <= i && i <= 7) || (k == 17 && 2 <= i && i <= 3) {
        FieldKind::Number
    } else if k == 14 && i == 0 {
        FieldKind::Choice(ChoiceSet::NetclassEdit)
    } else if (k == 13 || k == 15) && i == 0 {
        FieldKind::Choice(ChoiceSet::SaveOrDelete)
    } else if k == 17 && i == 0 {
        FieldKind::Choice(ChoiceSet::EditScope)
    } else if k == 17 && i == 1 {
        FieldKind::Choice(ChoiceSet::EditTarget)
    } else if k == 17 && 4 <= i && i <= 5 {
        FieldKind::Choice(ChoiceSet::Tristate)
    } else if k == 18 && 1 <= i && i <= 3 {
        FieldKind::Boolean
    } else if (k == 13 && i >= 3) || (k == 14 && i >= 9) || (k == 15 && i >= 6) || (k == 16 && i >= 8) {
        FieldKind::ReadOnly
    } else if (k == 0 && i == 4) || (k == 1 && i == 1) {
        FieldKind::Choice(ChoiceSet::AnnotateScope)
    } else if k == 0 && i == 1 {
        FieldKind::Choice(ChoiceSet::AnnotateOrder)
    } else if k == 0 && i == 2 {
        FieldKind::Choice(ChoiceSet::AnnotateNumbering)
    } else if (k == 0 && i == 3) || (k == 2 && (i == 1 || i == 15)) || ((k == 4 || k == 5) && 2 <= i && i <= 4) || (k == 6 && (i == 1 || i == 4 || i == 5)) {
        FieldKind::Boolean
    } else if k == 2 && i == 0 {
        FieldKind::Choice(ChoiceSet::PageSize)
    } else if k == 6 && i == 2 {
        FieldKind::Choice(ChoiceSet::BomPreset)
    } else if k == 3 && i == 1 {
        FieldKind::Choice(ChoiceSet::NetlistFormat)
    } else if k == 4 && i == 1 {
        FieldKind::Choice(ChoiceSet::PlotFormat)
    } else if (k == 2 && i == 16) || (k == 5 && i == 1) || ((k == 7 || k == 12) && i == 0) {
        FieldKind::Hidden
    } else if (k == 6 && i == 8) || (k == 11 && i >= 2) {
        FieldKind::ReadOnly
    } else {
        FieldKind::Text
    }
}

/// Whether a field of kind `field` is typed into.
pub open spec fn is_typed(field: FieldKind) -> bool {
    field is Text || field is Number
}

/// Whether some field before `n` of dialog `kind` is typed into.
pub open spec fn has_typed_before(kind: u32, n: int) -> bool {
    exists|i: int| 0 <= i < n && is_typed(#[trigger] kind_of_field(kind, i as usize))
}

/// The first field, among the first `count`, that takes the keyboard focus
/// when document dialog `kind` opens: the first one typed into.
pub fn first_typed_field(kind: u32, count: usize) -> (first: Option<usize>)
    ensures
        match first {
            Some(i) => i < count && is_typed(kind_of_field(kind, i)) && !has_typed_before(kind, i as int),
            None => !has_typed_before(kind, count as int),
        },
{
    let mut i: usize = 0;
    while i < count
        invariant
            i <= count,
            !has_typed_before(kind, i as int),
        decreases count - i,
    {
        let field = field_kind(kind, i);
        match field {
            FieldKind::Text | FieldKind::Number => {
                return Some(i);
            },
            _ => {},
        }
        assert forall|j: int| 0 <= j < i + 1 implies !is_typed(#[trigger] kind_of_field(kind, j as usize)) by {
            if j < i {
                assert(!has_typed_before(kind, i as int));
            }
        }
        i = i + 1;
    }
    None
}

/// What document dialog `kind` hands back when applied: for a typed field,
/// what was typed; for any other, the value the host supplied.
pub open spec fn applied_values(kind: u32, supplied: Seq<Seq<char>>, typed: Seq<Seq<char>>) -> Seq<
    Seq<char>,
> {
    Seq::new(
        supplied.len(),
        |i: int|
            if is_typed(kind_of_field(kind, i as usize)) {
                typed[i]
            } else {
                supplied[i]
            },
    )
}

/// The values document dialog `kind` hands back when applied, given what
/// the host supplied for each field and what each field's input holds.
pub fn apply_values(kind: u32, supplied: &Vec<String>, typed: &Vec<String>) -> (values: Vec<String>)
    requires
        typed@.len() == supplied@.len(),
    ensures
        values@.map_values(|v: String| v@) == applied_values(
            kind,
            supplied@.map_values(|v: String| v@),
            typed@.map_values(|v: String| v@),
        ),
{
    let ghost s = supplied@.map_values(|v: String| v@);
    let ghost t = typed@.map_values(|v: String| v@);
    let mut values: Vec<String> = Vec::new();
    let mut i: usize = 0;
    while i < supplied.len()
        invariant
            i <= supplied@.len(),
            typed@.len() == supplied@.len(),
            s == supplied@.map_values(|v: String| v@),
            t == typed@.map_values(|v: String| v@),
            values@.len() == i,
            forall|j: int| 0 <= j < i ==> #[trigger] values@[j]@ == applied_values(kind, s, t)[j],
        decreases supplied@.len() - i,
    {
        let field = field_kind(kind, i);
        let value = match field {
            FieldKind::Text | FieldKind::Number => typed[i].clone(),
            _ => supplied[i].clone(),
        };
        assert(value@ == applied_values(kind, s, t)[i as int]);
        values.push(value);
        i = i + 1;
    }
    assert(values@.map_values(|v: String| v@) =~= applied_values(kind, s, t));
    values
}

/// The fields of document dialog `kind` that are shown, in order, among the
/// first `upto`.
pub open spec fn shown_fields(kind: u32, upto: int) -> Seq<int>
    decreases upto,
{
    if upto <= 0 {
        Seq::empty()
    } else {
        let before = shown_fields(kind, upto - 1);
        if kind_of_field(kind, (upto - 1) as usize) is Hidden {
            before
        } else {
            before.push(upto - 1)
        }
    }
}

/// The positions of the fields document dialog `kind` shows, among its
/// first `count`.
pub fn visible_fields(kind: u32, count: usize) -> (shown: Vec<usize>)
    ensures
        shown@.map_values(|i: usize| i as int) == shown_fields(kind, count as int),
{
    let mut shown: Vec<usize> = Vec::new();
    let mut i: usize = 0;
    assert(shown@.map_values(|k: usize| k as int) =~= Seq::<int>::empty());
    while i < count
        invariant
            i <= count,
            shown@.map_values(|k: usize| k as int) == shown_fields(kind, i as int),
        decreases count - i,
    {
        let ghost before = shown@.map_values(|k: usize| k as int);
        match field_kind(kind, i) {
            FieldKind::Hidden => {},
            _ => {
                shown.push(i);
                assert(shown@.map_values(|k: usize| k as int) =~= before.push(i as int));
            },
        }
        i = i + 1;
    }
    shown
}

} // verus!
