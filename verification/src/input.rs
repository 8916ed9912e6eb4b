//! The vocabulary the shell and the host share: modifier keys, pointer
//! buttons, and the names of tools and actions.
//!
//! Commands are names, not numbers. [`ActionId`] and [`ToolId`] are strings
//! matching KiCad's `TOOL_ACTION` names (`eeschema.EditorControl.save` and
//! friends), because `ACTION_REGISTRY` can enumerate those headlessly. A name
//! survives both sides being rebuilt independently; an ordinal does not.

use vstd::prelude::*;
use crate::text::owned;

verus! {

/// Modifier keys held when an event was produced.
///
/// `meta` is Command on macOS and Super elsewhere.
#[derive(Clone, Copy, Debug, Default, PartialEq, Eq, Hash, Structural)]
pub struct Modifiers {
    /// Control.
    pub ctrl: bool,
    /// Shift.
    pub shift: bool,
    /// Alt / Option.
    pub alt: bool,
    /// Command on macOS, Super elsewhere.
    pub meta: bool,
}

impl Modifiers {
    /// No modifiers held.
    pub fn none() -> (m: Modifiers)
        ensures
            !m.ctrl && !m.shift && !m.alt && !m.meta,
    {
        Modifiers { ctrl: false, shift: false, alt: false, meta: false }
    }

    /// Whether no modifier at all is held.
    pub fn is_empty(&self) -> (empty: bool)
        ensures
            empty == (!self.ctrl && !self.shift && !self.alt && !self.meta),
    {
        !self.ctrl && !self.shift && !self.alt && !self.meta
    }
}

/// A pointer button, in the order KiCad's tools care about them.
#[derive(Clone, Copy, Debug, PartialEq, Eq, Hash, Structural)]
pub enum PointerButton {
    /// Primary button: select, place, confirm.
    Left,
    /// Middle button: pan.
    Middle,
    /// Secondary button: context menu.
    Right,
    /// Extra button 1, if the device has one.
    Back,
    /// Extra button 2, if the device has one.
    Forward,
}

/// The identity of a tool the user can activate, as a KiCad `TOOL_ACTION` name.
///
/// Example: `"eeschema.InteractiveDrawingLineWireBus.drawWires"`.
#[derive(Clone, Copy, Debug, PartialEq, Eq, Hash, PartialOrd, Ord)]
pub struct ToolId(pub &'static str);

impl ToolId {
    /// The underlying action name.
    pub fn as_str(&self) -> (name: &'static str)
        ensures
            name == self.0,
    {
        self.0
    }
}

/// The identity of an invocable action, as a KiCad `TOOL_ACTION` name.
///
/// Shell-local actions that will never reach C++ — toggling a dock, say — use
/// a `kicad.ui.` prefix so the two populations stay distinguishable at the
/// seam.
#[derive(Clone, Debug, PartialEq, Eq, Hash, PartialOrd, Ord)]
pub struct ActionId(pub String);

impl ActionId {
    /// The action named `name`.
    pub fn new(name: &str) -> (id: ActionId)
        ensures
            id.0@ == name@,
    {
        ActionId(owned(name))
    }

    /// Borrow the action name.
    pub fn as_str(&self) -> (name: &str)
        ensures
            name@ == self.0@,
    {
        self.0.as_str()
    }
}

/// A sink that throws away everything the shell reports.
///
/// The shell always holds a sink, so this is what it holds before a host is
/// attached, and what a screenshot run uses.
#[derive(Clone, Copy, Debug, Default)]
pub struct NullSink;

} // verus!
