//! The canvas's active tool, and what the host is told when it changes.
//!
//! Picking a tool from the palette or a menu activates it; a tool's hotkey
//! activates it too and then hands the keystroke itself to the host, so that
//! KiCad's own dispatcher can place immediately or treat a repeated hotkey as
//! a click; Escape abandons the tool and falls back to selection. Each change is decided here, with
//! the events the host has to hear, in the order it has to hear them.

use vstd::prelude::*;
use crate::hotkeys::{lemma_split_nonempty, split_chars, split_on};
use crate::input::{Modifiers, ToolId};
use crate::text::{chars_eq_str, chars_of, string_from_chars};
use crate::tools::{tool_spec, Tool};

verus! {

/// What the host hears about the active tool.
#[derive(Debug)]
pub enum ToolEvent {
    /// A tool's hotkey, as the key that went down.
    KeyDown {
        /// The key, named the way gpui names it.
        key: String,
        /// Modifiers held at the time.
        modifiers: Modifiers,
        /// Whether this is an auto-repeat rather than a fresh press.
        repeat: bool,
    },
    /// A tool became active.
    ToolActivated(ToolId),
    /// The active tool was abandoned.
    ToolCancelled,
}

/// The content of a [`ToolEvent`].
pub enum ToolEventView {
    /// A key went down: its name, modifiers, and whether it repeats.
    KeyDown(Seq<char>, Modifiers, bool),
    /// A tool became active.
    ToolActivated(ToolId),
    /// The active tool was abandoned.
    ToolCancelled,
}

/// The content of one event.
pub open spec fn event_view(event: ToolEvent) -> ToolEventView {
    match event {
        ToolEvent::KeyDown { key, modifiers, repeat } => ToolEventView::KeyDown(key@, modifiers, repeat),
        ToolEvent::ToolActivated(id) => ToolEventView::ToolActivated(id),
        ToolEvent::ToolCancelled => ToolEventView::ToolCancelled,
    }
}

/// The content of a list of events.
pub open spec fn events_view(events: Seq<ToolEvent>) -> Seq<ToolEventView> {
    events.map_values(|event: ToolEvent| event_view(event))
}

/// Whether one of `parts` is exactly `name`.
pub open spec fn has_part(parts: Seq<Seq<char>>, name: Seq<char>) -> bool {
    exists|i: int| 0 <= i < parts.len() && parts[i] == name
}

/// The key a gpui hotkey such as `"shift-w"` presses: the part after the
/// last dash.
pub open spec fn hotkey_key(hotkey: Seq<char>) -> Seq<char> {
    split_on(hotkey, '-').last()
}

/// The modifiers a gpui hotkey holds: each one named by a dash-separated part.
pub open spec fn hotkey_modifiers(hotkey: Seq<char>) -> Modifiers {
    let parts = split_on(hotkey, '-');
    Modifiers {
        ctrl: has_part(parts, "ctrl"@),
        shift: has_part(parts, "shift"@),
        alt: has_part(parts, "alt"@),
        meta: has_part(parts, "cmd"@),
    }
}

/// Whether `name` is one of `parts`.
fn contains_part(parts: &Vec<Vec<char>>, name: &str) -> (found: bool)
    ensures
        found == has_part(parts@.map_values(|part: Vec<char>| part@), name@),
{
    let ghost pieces = parts@.map_values(|part: Vec<char>| part@);
    let mut i: usize = 0;
    while i < parts.len()
        invariant
            i <= parts@.len(),
            pieces == parts@.map_values(|part: Vec<char>| part@),
            forall|k: int| 0 <= k < i ==> pieces[k] != name@,
        decreases parts@.len() - i,
    {
        assert(pieces[i as int] == parts@[i as int]@);
        if chars_eq_str(&parts[i], name) {
            return true;
        }
        i = i + 1;
    }
    false
}

/// The key and modifiers a gpui hotkey such as `"ctrl-shift-w"` stands for.
pub fn parse_hotkey(hotkey: &str) -> (pressed: (String, Modifiers))
    ensures
        pressed.0@ == hotkey_key(hotkey@),
        pressed.1 == hotkey_modifiers(hotkey@),
{
    let chars = chars_of(hotkey);
    let parts = split_chars(&chars, '-');
    proof {
        lemma_split_nonempty(chars@, '-');
    }
    let ghost pieces = parts@.map_values(|part: Vec<char>| part@);
    let last = parts.len() - 1;
    assert(pieces.last() == parts@[last as int]@);
    let key = string_from_chars(&parts[last]);
    let modifiers = Modifiers {
        ctrl: contains_part(&parts, "ctrl"),
        shift: contains_part(&parts, "shift"),
        alt: contains_part(&parts, "alt"),
        meta: contains_part(&parts, "cmd"),
    };
    (key, modifiers)
}

/// The tool the canvas has active.
#[derive(Clone, Copy, Debug, PartialEq, Eq)]
pub struct ActiveTool {
    tool: Tool,
}

impl ActiveTool {
    /// The active tool.
    pub closed spec fn spec_tool(self) -> Tool {
        self.tool
    }

    /// A canvas starts with the select tool.
    pub fn new() -> (active: ActiveTool)
        ensures
            active.spec_tool() == Tool::Select,
    {
        ActiveTool { tool: Tool::Select }
    }

    /// The active tool.
    pub fn tool(&self) -> (tool: Tool)
        ensures
            tool == self.spec_tool(),
    {
        self.tool
    }

    /// Make `tool` active. The host hears of it only when it is a change.
    pub fn set_tool(&mut self, tool: Tool) -> (events: Vec<ToolEvent>)
        ensures
            final(self).spec_tool() == tool,
            events_view(events@) == if old(self).spec_tool() == tool {
                Seq::empty()
            } else {
                seq![ToolEventView::ToolActivated(tool_spec(tool).id)]
            },
    {
        let mut events: Vec<ToolEvent> = Vec::new();
        if self.tool != tool {
            self.tool = tool;
            events.push(ToolEvent::ToolActivated(tool.id()));
        }
        assert(events_view(events@) =~= if old(self).spec_tool() == tool {
            Seq::empty()
        } else {
            seq![ToolEventView::ToolActivated(tool_spec(tool).id)]
        });
        events
    }

    /// Invoke `tool` through its hotkey: the tool becomes active, and the host
    /// hears of it when that is a change; then the host is handed the hotkey
    /// as a fresh key press, so that an immediate placement or a repeated
    /// hotkey behaves as it does in KiCad.
    pub fn tool_hotkey(&mut self, tool: Tool, hotkey: &str) -> (events: Vec<ToolEvent>)
        ensures
            final(self).spec_tool() == tool,
            events_view(events@) == (if old(self).spec_tool() == tool {
                Seq::empty()
            } else {
                seq![ToolEventView::ToolActivated(tool_spec(tool).id)]
            }).push(ToolEventView::KeyDown(hotkey_key(hotkey@), hotkey_modifiers(hotkey@), false)),
    {
        let mut events = self.set_tool(tool);
        let (key, modifiers) = parse_hotkey(hotkey);
        let ghost before = events@;
        events.push(ToolEvent::KeyDown { key, modifiers, repeat: false });
        assert(events_view(events@) =~= events_view(before).push(
            ToolEventView::KeyDown(hotkey_key(hotkey@), hotkey_modifiers(hotkey@), false),
        ));
        events
    }

    /// Abandon the active tool: the host hears the cancellation, and then,
    /// unless selection was already active, that selection is.
    pub fn cancel_tool(&mut self) -> (events: Vec<ToolEvent>)
        ensures
            final(self).spec_tool() == Tool::Select,
            events_view(events@) == if old(self).spec_tool() == Tool::Select {
                seq![ToolEventView::ToolCancelled]
            } else {
                seq![
                    ToolEventView::ToolCancelled,
                    ToolEventView::ToolActivated(tool_spec(Tool::Select).id),
                ]
            },
    {
        let mut events: Vec<ToolEvent> = Vec::new();
        events.push(ToolEvent::ToolCancelled);
        if self.tool != Tool::Select {
            self.tool = Tool::Select;
            events.push(ToolEvent::ToolActivated(Tool::Select.id()));
        }
        assert(events_view(events@) =~= if old(self).spec_tool() == Tool::Select {
            seq![ToolEventView::ToolCancelled]
        } else {
            seq![
                ToolEventView::ToolCancelled,
                ToolEventView::ToolActivated(tool_spec(Tool::Select).id),
            ]
        });
        events
    }
}

} // verus!
