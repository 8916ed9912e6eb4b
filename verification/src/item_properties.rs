//! The item properties editor: which editor each property gets, what its
//! label says about units, which properties a filter shows, what the editor
//! can do besides, and the properties it hands back when applied.

use vstd::prelude::*;
use crate::keymap::contains_str;
use crate::simulation_form::ends_with;
use crate::symbol_browser::name_matches;
use crate::text::{owned, to_lowercase, trim_end, trim_end_spec};

verus! {

/// A named property with the editor kind the host asks for and the choices
/// a choice editor offers.
#[derive(Debug)]
pub struct PropertyEntry {
    /// Display name.
    pub name: String,
    /// Editable value.
    pub value: String,
    /// The host's editor kind: text, boolean, integer, number, millimetres,
    /// degrees, colour, choice, multiline.
    pub kind: u32,
    /// Allowed values for a choice editor.
    pub choices: Vec<String>,
}

/// The editable properties of a selected item or settings scope.
#[derive(Debug)]
pub struct ItemProperties {
    /// What the item allows: bit 0 custom fields, bit 1 relinking a
    /// hierarchical sheet, bit 2 that the sheet has no file yet.
    pub capabilities: u32,
    /// Stable identity, checked again on apply.
    pub item_id: String,
    /// Fields in host order.
    pub entries: Vec<PropertyEntry>,
}

/// The editor kind for a check box.
pub const KIND_BOOLEAN: u32 = 1;
/// The editor kind for a length in millimetres.
pub const KIND_MILLIMETRES: u32 = 4;
/// The editor kind for an angle in degrees.
pub const KIND_DEGREES: u32 = 5;
/// The editor kind for a choice.
pub const KIND_CHOICE: u32 = 7;
/// The editor kind for multiline text.
pub const KIND_MULTILINE: u32 = 8;

/// The control a property is edited with.
#[derive(Clone, Copy, Debug, PartialEq, Eq, Structural)]
pub enum Editor {
    /// A check box.
    CheckBox,
    /// A list of choices.
    Choice,
    /// A multiline text area.
    Multiline,
    /// A one-line text input.
    Text,
}

/// The editor for a property of `kind`.
pub open spec fn editor_of(kind: u32) -> Editor {
    if kind == KIND_BOOLEAN {
        Editor::CheckBox
    } else if kind == KIND_CHOICE {
        Editor::Choice
    } else if kind == KIND_MULTILINE {
        Editor::Multiline
    } else {
        Editor::Text
    }
}

/// The editor for a property of `kind`.
pub fn editor_for(kind: u32) -> (editor: Editor)
    ensures
        editor == editor_of(kind),
{
    if kind == KIND_BOOLEAN {
        Editor::CheckBox
    } else if kind == KIND_CHOICE {
        Editor::Choice
    } else if kind == KIND_MULTILINE {
        Editor::Multiline
    } else {
        Editor::Text
    }
}

/// What follows a property's name in its label: the unit of a length or an
/// angle, unless the name already ends with it.
pub open spec fn unit_suffix_of(kind: u32, name: Seq<char>) -> Seq<char> {
    if kind == KIND_MILLIMETRES && !ends_with(trim_end_spec(name), "(mm)"@) {
        " (mm)"@
    } else if kind == KIND_DEGREES && !ends_with(trim_end_spec(name), "(\u{b0})"@) {
        " (\u{b0})"@
    } else {
        Seq::empty()
    }
}

/// Whether `s` ends with `suffix`.
fn ends_with_text(s: &str, suffix: &str) -> (found: bool)
    ensures
        found == ends_with(s@, suffix@),
{
    let n = s.unicode_len();
    let m = suffix.unicode_len();
    if m > n {
        return false;
    }
    let mut i: usize = 0;
    while i < m
        invariant
            i <= m,
            m <= n,
            n == s@.len(),
            m == suffix@.len(),
            forall|j: int| 0 <= j < i ==> s@[n - m + j] == suffix@[j],
        decreases m - i,
    {
        if s.get_char(n - m + i) != suffix.get_char(i) {
            assert(s@.skip(n - m)[i as int] != suffix@[i as int]);
            return false;
        }
        i = i + 1;
    }
    assert(s@.skip(n - m) =~= suffix@);
    true
}

/// What follows a property's name in its label.
pub fn unit_suffix(kind: u32, name: &str) -> (suffix: &'static str)
    ensures
        suffix@ == unit_suffix_of(kind, name@),
{
    proof {
        reveal_strlit("");
        assert(""@ =~= Seq::<char>::empty());
    }
    if kind == KIND_MILLIMETRES && !ends_with_text(trim_end(name), "(mm)") {
        " (mm)"
    } else if kind == KIND_DEGREES && !ends_with_text(trim_end(name), "(\u{b0})") {
        " (\u{b0})"
    } else {
        ""
    }
}

/// The value a property holds once the editor is applied: the choice
/// picked, if one is; what a multiline or one-line editor holds; and for a
/// check box, or a choice with nothing picked, the value it had.
pub open spec fn applied_value(kind: u32, current: Seq<char>, picked: Option<Seq<char>>, typed: Seq<char>) -> Seq<char> {
    match editor_of(kind) {
        Editor::Choice => match picked {
            Some(p) => p,
            None => current,
        },
        Editor::CheckBox => current,
        _ => typed,
    }
}

/// The value a property holds once the editor is applied, given the choice
/// picked, if any, and what its text editor holds.
pub fn apply_value(kind: u32, current: &str, picked: Option<&str>, typed: &str) -> (value: String)
    ensures
        value@ == applied_value(
            kind,
            current@,
            match picked {
                Some(p) => Some(p@),
                None => None,
            },
            typed@,
        ),
{
    match editor_for(kind) {
        Editor::Choice => match picked {
            Some(p) => owned(p),
            None => owned(current),
        },
        Editor::CheckBox => owned(current),
        _ => owned(typed),
    }
}

/// The value a check box writes.
pub fn boolean_value(checked: bool) -> (value: &'static str)
    ensures
        value@ == if checked {
            "true"@
        } else {
            "false"@
        },
{
    if checked {
        "true"
    } else {
        "false"
    }
}

/// Whether a property named `name` is shown under `filter`: its name holds
/// the filter, case aside.
pub fn shows_property(name: &str, filter: &str) -> (shown: bool)
    ensures
        shown == name_matches(name@, filter@),
{
    let lower_name = to_lowercase(name);
    let lower_filter = to_lowercase(filter);
    contains_str(lower_name.as_str(), lower_filter.as_str())
}

impl ItemProperties {
    /// Whether custom fields can be added.
    pub fn allows_custom_fields(&self) -> (allowed: bool)
        ensures
            allowed == (self.capabilities & 1 != 0),
    {
        self.capabilities & 1 != 0
    }

    /// Whether a hierarchical sheet can be relinked to another file.
    pub fn allows_sheet_relink(&self) -> (allowed: bool)
        ensures
            allowed == (self.capabilities & 2 != 0),
    {
        self.capabilities & 2 != 0
    }

    /// The relinking button's label: setting the file of a sheet that has
    /// none, otherwise relinking, which clears the undo history.
    pub fn relink_label(&self) -> (label: &'static str)
        ensures
            label@ == if self.capabilities & 4 != 0 {
                "Set Sheet File"@
            } else {
                "Relink Sheet (clears undo history)"@
            },
    {
        if self.capabilities & 4 != 0 {
            "Set Sheet File"
        } else {
            "Relink Sheet (clears undo history)"
        }
    }
}

} // verus!
