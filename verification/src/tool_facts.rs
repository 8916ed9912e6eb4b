//! Facts about the tool table that the shell relies on: every lookup by
//! button id or by action name finds the tool it started from, because those
//! names, and the default hotkeys, are distinct; and every action name is a
//! namespaced KiCad `TOOL_ACTION` name.

use vstd::prelude::*;
use crate::tools::{Tool, tool_spec};

verus! {

/// Whether `name` reads like a KiCad `TOOL_ACTION` name: it starts with
/// `eeschema.` or `common.` and has at least two dots, so that it names a
/// tool class as well as an action.
pub open spec fn is_namespaced_action_name(name: Seq<char>) -> bool {
    &&& (name.len() >= 9 && name.subrange(0, 9) == "eeschema."@)
        || (name.len() >= 7 && name.subrange(0, 7) == "common."@)
    &&& exists|i: int, j: int| 0 <= i < j < name.len() && name[i] == '.' && name[j] == '.'
}

/// No two tools share palette button ids.
#[verifier::rlimit(100)]
pub proof fn lemma_button_ids_distinct(a: Tool, b: Tool)
    requires
        a != b,
    ensures
        tool_spec(a).button_id@ != tool_spec(b).button_id@,
{
    assert(tool_spec(a).button_id@ != tool_spec(b).button_id@) by {
        reveal_strlit("tool-select");
        assert("tool-select"@.len() == 11);
        reveal_strlit("tool-highlight");
        assert("tool-highlight"@.len() == 14);
        reveal_strlit("tool-symbol");
        assert("tool-symbol"@.len() == 11);
        reveal_strlit("tool-power");
        assert("tool-power"@.len() == 10);
        reveal_strlit("tool-wire");
        assert("tool-wire"@.len() == 9);
        reveal_strlit("tool-bus");
        assert("tool-bus"@.len() == 8);
        reveal_strlit("tool-bus-entry");
        assert("tool-bus-entry"@.len() == 14);
        reveal_strlit("tool-junction");
        assert("tool-junction"@.len() == 13);
        reveal_strlit("tool-no-connect");
        assert("tool-no-connect"@.len() == 15);
        reveal_strlit("tool-label");
        assert("tool-label"@.len() == 10);
        reveal_strlit("tool-global-label");
        assert("tool-global-label"@.len() == 17);
        reveal_strlit("tool-hier-label");
        assert("tool-hier-label"@.len() == 15);
        reveal_strlit("tool-sheet");
        assert("tool-sheet"@.len() == 10);
        reveal_strlit("tool-text");
        assert("tool-text"@.len() == 9);
        reveal_strlit("tool-rectangle");
        assert("tool-rectangle"@.len() == 14);
        reveal_strlit("tool-circle");
        assert("tool-circle"@.len() == 11);
        reveal_strlit("tool-arc");
        assert("tool-arc"@.len() == 8);
        reveal_strlit("tool-line");
        assert("tool-line"@.len() == 9);
        reveal_strlit("tool-image");
        assert("tool-image"@.len() == 10);
        reveal_strlit("tool-delete");
        assert("tool-delete"@.len() == 11);
        reveal_strlit("tool-measure");
        assert("tool-measure"@.len() == 12);
        assert("tool-select"@ != "tool-highlight"@);
        assert("tool-select"@[6] != "tool-symbol"@[6]);
        assert("tool-select"@ != "tool-symbol"@);
        assert("tool-select"@ != "tool-power"@);
        assert("tool-select"@ != "tool-wire"@);
        assert("tool-select"@ != "tool-bus"@);
        assert("tool-select"@ != "tool-bus-entry"@);
        assert("tool-select"@ != "tool-junction"@);
        assert("tool-select"@ != "tool-no-connect"@);
        assert("tool-select"@ != "tool-label"@);
        assert("tool-select"@ != "tool-global-label"@);
        assert("tool-select"@ != "tool-hier-label"@);
        assert("tool-select"@ != "tool-sheet"@);
        assert("tool-select"@ != "tool-text"@);
        assert("tool-select"@ != "tool-rectangle"@);
        assert("tool-select"@[5] != "tool-circle"@[5]);
        assert("tool-select"@ != "tool-circle"@);
        assert("tool-select"@ != "tool-arc"@);
        assert("tool-select"@ != "tool-line"@);
        assert("tool-select"@ != "tool-image"@);
        assert("tool-select"@[5] != "tool-delete"@[5]);
        assert("tool-select"@ != "tool-delete"@);
        assert("tool-select"@ != "tool-measure"@);
        assert("tool-highlight"@ != "tool-symbol"@);
        assert("tool-highlight"@ != "tool-power"@);
        assert("tool-highlight"@ != "tool-wire"@);
        assert("tool-highlight"@ != "tool-bus"@);
        assert("tool-highlight"@[5] != "tool-bus-entry"@[5]);
        assert("tool-highlight"@ != "tool-bus-entry"@);
        assert("tool-highlight"@ != "tool-junction"@);
        assert("tool-highlight"@ != "tool-no-connect"@);
        assert("tool-highlight"@ != "tool-label"@);
        assert("tool-highlight"@ != "tool-global-label"@);
        assert("tool-highlight"@ != "tool-hier-label"@);
        assert("tool-highlight"@ != "tool-sheet"@);
        assert("tool-highlight"@ != "tool-text"@);
        assert("tool-highlight"@[5] != "tool-rectangle"@[5]);
        assert("tool-highlight"@ != "tool-rectangle"@);
        assert("tool-highlight"@ != "tool-circle"@);
        assert("tool-highlight"@ != "tool-arc"@);
        assert("tool-highlight"@ != "tool-line"@);
        assert("tool-highlight"@ != "tool-image"@);
        assert("tool-highlight"@ != "tool-delete"@);
        assert("tool-highlight"@ != "tool-measure"@);
        assert("tool-symbol"@ != "tool-power"@);
        assert("tool-symbol"@ != "tool-wire"@);
        assert("tool-symbol"@ != "tool-bus"@);
        assert("tool-symbol"@ != "tool-bus-entry"@);
        assert("tool-symbol"@ != "tool-junction"@);
        assert("tool-symbol"@ != "tool-no-connect"@);
        assert("tool-symbol"@ != "tool-label"@);
        assert("tool-symbol"@ != "tool-global-label"@);
        assert("tool-symbol"@ != "tool-hier-label"@);
        assert("tool-symbol"@ != "tool-sheet"@);
        assert("tool-symbol"@ != "tool-text"@);
        assert("tool-symbol"@ != "tool-rectangle"@);
        assert("tool-symbol"@[5] != "tool-circle"@[5]);
        assert("tool-symbol"@ != "tool-circle"@);
        assert("tool-symbol"@ != "tool-arc"@);
        assert("tool-symbol"@ != "tool-line"@);
        assert("tool-symbol"@ != "tool-image"@);
        assert("tool-symbol"@[5] != "tool-delete"@[5]);
        assert("tool-symbol"@ != "tool-delete"@);
        assert("tool-symbol"@ != "tool-measure"@);
        assert("tool-power"@ != "tool-wire"@);
        assert("tool-power"@ != "tool-bus"@);
        assert("tool-power"@ != "tool-bus-entry"@);
        assert("tool-power"@ != "tool-junction"@);
        assert("tool-power"@ != "tool-no-connect"@);
        assert("tool-power"@[5] != "tool-label"@[5]);
        assert("tool-power"@ != "tool-label"@);
        assert("tool-power"@ != "tool-global-label"@);
        assert("tool-power"@ != "tool-hier-label"@);
        assert("tool-power"@[5] != "tool-sheet"@[5]);
        assert("tool-power"@ != "tool-sheet"@);
        assert("tool-power"@ != "tool-text"@);
        assert("tool-power"@ != "tool-rectangle"@);
        assert("tool-power"@ != "tool-circle"@);
        assert("tool-power"@ != "tool-arc"@);
        assert("tool-power"@ != "tool-line"@);
        assert("tool-power"@[5] != "tool-image"@[5]);
        assert("tool-power"@ != "tool-image"@);
        assert("tool-power"@ != "tool-delete"@);
        assert("tool-power"@ != "tool-measure"@);
        assert("tool-wire"@ != "tool-bus"@);
        assert("tool-wire"@ != "tool-bus-entry"@);
        assert("tool-wire"@ != "tool-junction"@);
        assert("tool-wire"@ != "tool-no-connect"@);
        assert("tool-wire"@ != "tool-label"@);
        assert("tool-wire"@ != "tool-global-label"@);
        assert("tool-wire"@ != "tool-hier-label"@);
        assert("tool-wire"@ != "tool-sheet"@);
        assert("tool-wire"@[5] != "tool-text"@[5]);
        assert("tool-wire"@ != "tool-text"@);
        assert("tool-wire"@ != "tool-rectangle"@);
        assert("tool-wire"@ != "tool-circle"@);
        assert("tool-wire"@ != "tool-arc"@);
        assert("tool-wire"@[5] != "tool-line"@[5]);
        assert("tool-wire"@ != "tool-line"@);
        assert("tool-wire"@ != "tool-image"@);
        assert("tool-wire"@ != "tool-delete"@);
        assert("tool-wire"@ != "tool-measure"@);
        assert("tool-bus"@ != "tool-bus-entry"@);
        assert("tool-bus"@ != "tool-junction"@);
        assert("tool-bus"@ != "tool-no-connect"@);
        assert("tool-bus"@ != "tool-label"@);
        assert("tool-bus"@ != "tool-global-label"@);
        assert("tool-bus"@ != "tool-hier-label"@);
        assert("tool-bus"@ != "tool-sheet"@);
        assert("tool-bus"@ != "tool-text"@);
        assert("tool-bus"@ != "tool-rectangle"@);
        assert("tool-bus"@ != "tool-circle"@);
        assert("tool-bus"@[5] != "tool-arc"@[5]);
        assert("tool-bus"@ != "tool-arc"@);
        assert("tool-bus"@ != "tool-line"@);
        assert("tool-bus"@ != "tool-image"@);
        assert("tool-bus"@ != "tool-delete"@);
        assert("tool-bus"@ != "tool-measure"@);
        assert("tool-bus-entry"@ != "tool-junction"@);
        assert("tool-bus-entry"@ != "tool-no-connect"@);
        assert("tool-bus-entry"@ != "tool-label"@);
        assert("tool-bus-entry"@ != "tool-global-label"@);
        assert("tool-bus-entry"@ != "tool-hier-label"@);
        assert("tool-bus-entry"@ != "tool-sheet"@);
        assert("tool-bus-entry"@ != "tool-text"@);
        assert("tool-bus-entry"@[5] != "tool-rectangle"@[5]);
        assert("tool-bus-entry"@ != "tool-rectangle"@);
        assert("tool-bus-entry"@ != "tool-circle"@);
        assert("tool-bus-entry"@ != "tool-arc"@);
        assert("tool-bus-entry"@ != "tool-line"@);
        assert("tool-bus-entry"@ != "tool-image"@);
        assert("tool-bus-entry"@ != "tool-delete"@);
        assert("tool-bus-entry"@ != "tool-measure"@);
        assert("tool-junction"@ != "tool-no-connect"@);
        assert("tool-junction"@ != "tool-label"@);
        assert("tool-junction"@ != "tool-global-label"@);
        assert("tool-junction"@ != "tool-hier-label"@);
        assert("tool-junction"@ != "tool-sheet"@);
        assert("tool-junction"@ != "tool-text"@);
        assert("tool-junction"@ != "tool-rectangle"@);
        assert("tool-junction"@ != "tool-circle"@);
        assert("tool-junction"@ != "tool-arc"@);
        assert("tool-junction"@ != "tool-line"@);
        assert("tool-junction"@ != "tool-image"@);
        assert("tool-junction"@ != "tool-delete"@);
        assert("tool-junction"@ != "tool-measure"@);
        assert("tool-no-connect"@ != "tool-label"@);
        assert("tool-no-connect"@ != "tool-global-label"@);
        assert("tool-no-connect"@[5] != "tool-hier-label"@[5]);
        assert("tool-no-connect"@ != "tool-hier-label"@);
        assert("tool-no-connect"@ != "tool-sheet"@);
        assert("tool-no-connect"@ != "tool-text"@);
        assert("tool-no-connect"@ != "tool-rectangle"@);
        assert("tool-no-connect"@ != "tool-circle"@);
        assert("tool-no-connect"@ != "tool-arc"@);
        assert("tool-no-connect"@ != "tool-line"@);
        assert("tool-no-connect"@ != "tool-image"@);
        assert("tool-no-connect"@ != "tool-delete"@);
        assert("tool-no-connect"@ != "tool-measure"@);
        assert("tool-label"@ != "tool-global-label"@);
        assert("tool-label"@ != "tool-hier-label"@);
        assert("tool-label"@[5] != "tool-sheet"@[5]);
        assert("tool-label"@ != "tool-sheet"@);
        assert("tool-label"@ != "tool-text"@);
        assert("tool-label"@ != "tool-rectangle"@);
        assert("tool-label"@ != "tool-circle"@);
        assert("tool-label"@ != "tool-arc"@);
        assert("tool-label"@ != "tool-line"@);
        assert("tool-label"@[5] != "tool-image"@[5]);
        assert("tool-label"@ != "tool-image"@);
        assert("tool-label"@ != "tool-delete"@);
        assert("tool-label"@ != "tool-measure"@);
        assert("tool-global-label"@ != "tool-hier-label"@);
        assert("tool-global-label"@ != "tool-sheet"@);
        assert("tool-global-label"@ != "tool-text"@);
        assert("tool-global-label"@ != "tool-rectangle"@);
        assert("tool-global-label"@ != "tool-circle"@);
        assert("tool-global-label"@ != "tool-arc"@);
        assert("tool-global-label"@ != "tool-line"@);
        assert("tool-global-label"@ != "tool-image"@);
        assert("tool-global-label"@ != "tool-delete"@);
        assert("tool-global-label"@ != "tool-measure"@);
        assert("tool-hier-label"@ != "tool-sheet"@);
        assert("tool-hier-label"@ != "tool-text"@);
        assert("tool-hier-label"@ != "tool-rectangle"@);
        assert("tool-hier-label"@ != "tool-circle"@);
        assert("tool-hier-label"@ != "tool-arc"@);
        assert("tool-hier-label"@ != "tool-line"@);
        assert("tool-hier-label"@ != "tool-image"@);
        assert("tool-hier-label"@ != "tool-delete"@);
        assert("tool-hier-label"@ != "tool-measure"@);
        assert("tool-sheet"@ != "tool-text"@);
        assert("tool-sheet"@ != "tool-rectangle"@);
        assert("tool-sheet"@ != "tool-circle"@);
        assert("tool-sheet"@ != "tool-arc"@);
        assert("tool-sheet"@ != "tool-line"@);
        assert("tool-sheet"@[5] != "tool-image"@[5]);
        assert("tool-sheet"@ != "tool-image"@);
        assert("tool-sheet"@ != "tool-delete"@);
        assert("tool-sheet"@ != "tool-measure"@);
        assert("tool-text"@ != "tool-rectangle"@);
        assert("tool-text"@ != "tool-circle"@);
        assert("tool-text"@ != "tool-arc"@);
        assert("tool-text"@[5] != "tool-line"@[5]);
        assert("tool-text"@ != "tool-line"@);
        assert("tool-text"@ != "tool-image"@);
        assert("tool-text"@ != "tool-delete"@);
        assert("tool-text"@ != "tool-measure"@);
        assert("tool-rectangle"@ != "tool-circle"@);
        assert("tool-rectangle"@ != "tool-arc"@);
        assert("tool-rectangle"@ != "tool-line"@);
        assert("tool-rectangle"@ != "tool-image"@);
        assert("tool-rectangle"@ != "tool-delete"@);
        assert("tool-rectangle"@ != "tool-measure"@);
        assert("tool-circle"@ != "tool-arc"@);
        assert("tool-circle"@ != "tool-line"@);
        assert("tool-circle"@ != "tool-image"@);
        assert("tool-circle"@[5] != "tool-delete"@[5]);
        assert("tool-circle"@ != "tool-delete"@);
        assert("tool-circle"@ != "tool-measure"@);
        assert("tool-arc"@ != "tool-line"@);
        assert("tool-arc"@ != "tool-image"@);
        assert("tool-arc"@ != "tool-delete"@);
        assert("tool-arc"@ != "tool-measure"@);
        assert("tool-line"@ != "tool-image"@);
        assert("tool-line"@ != "tool-delete"@);
        assert("tool-line"@ != "tool-measure"@);
        assert("tool-image"@ != "tool-delete"@);
        assert("tool-image"@ != "tool-measure"@);
        assert("tool-delete"@ != "tool-measure"@);
        assert(tool_spec(Tool::Select).button_id == "tool-select");
        assert(tool_spec(Tool::HighlightNet).button_id == "tool-highlight");
        assert(tool_spec(Tool::PlaceSymbol).button_id == "tool-symbol");
        assert(tool_spec(Tool::PlacePower).button_id == "tool-power");
        assert(tool_spec(Tool::DrawWire).button_id == "tool-wire");
        assert(tool_spec(Tool::DrawBus).button_id == "tool-bus");
        assert(tool_spec(Tool::PlaceBusEntry).button_id == "tool-bus-entry");
        assert(tool_spec(Tool::PlaceJunction).button_id == "tool-junction");
        assert(tool_spec(Tool::PlaceNoConnect).button_id == "tool-no-connect");
        assert(tool_spec(Tool::PlaceLabel).button_id == "tool-label");
        assert(tool_spec(Tool::PlaceGlobalLabel).button_id == "tool-global-label");
        assert(tool_spec(Tool::PlaceHierLabel).button_id == "tool-hier-label");
        assert(tool_spec(Tool::DrawSheet).button_id == "tool-sheet");
        assert(tool_spec(Tool::PlaceText).button_id == "tool-text");
        assert(tool_spec(Tool::DrawRectangle).button_id == "tool-rectangle");
        assert(tool_spec(Tool::DrawCircle).button_id == "tool-circle");
        assert(tool_spec(Tool::DrawArc).button_id == "tool-arc");
        assert(tool_spec(Tool::DrawLine).button_id == "tool-line");
        assert(tool_spec(Tool::PlaceImage).button_id == "tool-image");
        assert(tool_spec(Tool::DeleteItems).button_id == "tool-delete");
        assert(tool_spec(Tool::Measure).button_id == "tool-measure");
    }
}

/// No two tools share tool labels.
#[verifier::rlimit(100)]
pub proof fn lemma_labels_distinct(a: Tool, b: Tool)
    requires
        a != b,
    ensures
        tool_spec(a).label@ != tool_spec(b).label@,
{
    assert(tool_spec(a).label@ != tool_spec(b).label@) by {
        reveal_strlit("Select");
        assert("Select"@.len() == 6);
        reveal_strlit("Highlight Net");
        assert("Highlight Net"@.len() == 13);
        reveal_strlit("Place Symbol");
        assert("Place Symbol"@.len() == 12);
        reveal_strlit("Place Power Port");
        assert("Place Power Port"@.len() == 16);
        reveal_strlit("Draw Wire");
        assert("Draw Wire"@.len() == 9);
        reveal_strlit("Draw Bus");
        assert("Draw Bus"@.len() == 8);
        reveal_strlit("Place Bus Entry");
        assert("Place Bus Entry"@.len() == 15);
        reveal_strlit("Place Junction");
        assert("Place Junction"@.len() == 14);
        reveal_strlit("Place No-Connect Flag");
        assert("Place No-Connect Flag"@.len() == 21);
        reveal_strlit("Place Net Label");
        assert("Place Net Label"@.len() == 15);
        reveal_strlit("Place Global Label");
        assert("Place Global Label"@.len() == 18);
        reveal_strlit("Place Hierarchical Label");
        assert("Place Hierarchical Label"@.len() == 24);
        reveal_strlit("Draw Sheet");
        assert("Draw Sheet"@.len() == 10);
        reveal_strlit("Place Text");
        assert("Place Text"@.len() == 10);
        reveal_strlit("Draw Rectangle");
        assert("Draw Rectangle"@.len() == 14);
        reveal_strlit("Draw Circle");
        assert("Draw Circle"@.len() == 11);
        reveal_strlit("Draw Arc");
        assert("Draw Arc"@.len() == 8);
        reveal_strlit("Draw Lines");
        assert("Draw Lines"@.len() == 10);
        reveal_strlit("Place Image");
        assert("Place Image"@.len() == 11);
        reveal_strlit("Delete Items");
        assert("Delete Items"@.len() == 12);
        reveal_strlit("Measure");
        assert("Measure"@.len() == 7);
        assert("Select"@ != "Highlight Net"@);
        assert("Select"@ != "Place Symbol"@);
        assert("Select"@ != "Place Power Port"@);
        assert("Select"@ != "Draw Wire"@);
        assert("Select"@ != "Draw Bus"@);
        assert("Select"@ != "Place Bus Entry"@);
        assert("Select"@ != "Place Junction"@);
        assert("Select"@ != "Place No-Connect Flag"@);
        assert("Select"@ != "Place Net Label"@);
        assert("Select"@ != "Place Global Label"@);
        assert("Select"@ != "Place Hierarchical Label"@);
        assert("Select"@ != "Draw Sheet"@);
        assert("Select"@ != "Place Text"@);
        assert("Select"@ != "Draw Rectangle"@);
        assert("Select"@ != "Draw Circle"@);
        assert("Select"@ != "Draw Arc"@);
        assert("Select"@ != "Draw Lines"@);
        assert("Select"@ != "Place Image"@);
        assert("Select"@ != "Delete Items"@);
        assert("Select"@ != "Measure"@);
        assert("Highlight Net"@ != "Place Symbol"@);
        assert("Highlight Net"@ != "Place Power Port"@);
        assert("Highlight Net"@ != "Draw Wire"@);
        assert("Highlight Net"@ != "Draw Bus"@);
        assert("Highlight Net"@ != "Place Bus Entry"@);
        assert("Highlight Net"@ != "Place Junction"@);
        assert("Highlight Net"@ != "Place No-Connect Flag"@);
        assert("Highlight Net"@ != "Place Net Label"@);
        assert("Highlight Net"@ != "Place Global Label"@);
        assert("Highlight Net"@ != "Place Hierarchical Label"@);
        assert("Highlight Net"@ != "Draw Sheet"@);
        assert("Highlight Net"@ != "Place Text"@);
        assert("Highlight Net"@ != "Draw Rectangle"@);
        assert("Highlight Net"@ != "Draw Circle"@);
        assert("Highlight Net"@ != "Draw Arc"@);
        assert("Highlight Net"@ != "Draw Lines"@);
        assert("Highlight Net"@ != "Place Image"@);
        assert("Highlight Net"@ != "Delete Items"@);
        assert("Highlight Net"@ != "Measure"@);
        assert("Place Symbol"@ != "Place Power Port"@);
        assert("Place Symbol"@ != "Draw Wire"@);
        assert("Place Symbol"@ != "Draw Bus"@);
        assert("Place Symbol"@ != "Place Bus Entry"@);
        assert("Place Symbol"@ != "Place Junction"@);
        assert("Place Symbol"@ != "Place No-Connect Flag"@);
        assert("Place Symbol"@ != "Place Net Label"@);
        assert("Place Symbol"@ != "Place Global Label"@);
        assert("Place Symbol"@ != "Place Hierarchical Label"@);
        assert("Place Symbol"@ != "Draw Sheet"@);
        assert("Place Symbol"@ != "Place Text"@);
        assert("Place Symbol"@ != "Draw Rectangle"@);
        assert("Place Symbol"@ != "Draw Circle"@);
        assert("Place Symbol"@ != "Draw Arc"@);
        assert("Place Symbol"@ != "Draw Lines"@);
        assert("Place Symbol"@ != "Place Image"@);
        assert("Place Symbol"@[0] != "Delete Items"@[0]);
        assert("Place Symbol"@ != "Delete Items"@);
        assert("Place Symbol"@ != "Measure"@);
        assert("Place Power Port"@ != "Draw Wire"@);
        assert("Place Power Port"@ != "Draw Bus"@);
        assert("Place Power Port"@ != "Place Bus Entry"@);
        assert("Place Power Port"@ != "Place Junction"@);
        assert("Place Power Port"@ != "Place No-Connect Flag"@);
        assert("Place Power Port"@ != "Place Net Label"@);
        assert("Place Power Port"@ != "Place Global Label"@);
        assert("Place Power Port"@ != "Place Hierarchical Label"@);
        assert("Place Power Port"@ != "Draw Sheet"@);
        assert("Place Power Port"@ != "Place Text"@);
        assert("Place Power Port"@ != "Draw Rectangle"@);
        assert("Place Power Port"@ != "Draw Circle"@);
        assert("Place Power Port"@ != "Draw Arc"@);
        assert("Place Power Port"@ != "Draw Lines"@);
        assert("Place Power Port"@ != "Place Image"@);
        assert("Place Power Port"@ != "Delete Items"@);
        assert("Place Power Port"@ != "Measure"@);
        assert("Draw Wire"@ != "Draw Bus"@);
        assert("Draw Wire"@ != "Place Bus Entry"@);
        assert("Draw Wire"@ != "Place Junction"@);
        assert("Draw Wire"@ != "Place No-Connect Flag"@);
        assert("Draw Wire"@ != "Place Net Label"@);
        assert("Draw Wire"@ != "Place Global Label"@);
        assert("Draw Wire"@ != "Place Hierarchical Label"@);
        assert("Draw Wire"@ != "Draw Sheet"@);
        assert("Draw Wire"@ != "Place Text"@);
        assert("Draw Wire"@ != "Draw Rectangle"@);
        assert("Draw Wire"@ != "Draw Circle"@);
        assert("Draw Wire"@ != "Draw Arc"@);
        assert("Draw Wire"@ != "Draw Lines"@);
        assert("Draw Wire"@ != "Place Image"@);
        assert("Draw Wire"@ != "Delete Items"@);
        assert("Draw Wire"@ != "Measure"@);
        assert("Draw Bus"@ != "Place Bus Entry"@);
        assert("Draw Bus"@ != "Place Junction"@);
        assert("Draw Bus"@ != "Place No-Connect Flag"@);
        assert("Draw Bus"@ != "Place Net Label"@);
        assert("Draw Bus"@ != "Place Global Label"@);
        assert("Draw Bus"@ != "Place Hierarchical Label"@);
        assert("Draw Bus"@ != "Draw Sheet"@);
        assert("Draw Bus"@ != "Place Text"@);
        assert("Draw Bus"@ != "Draw Rectangle"@);
        assert("Draw Bus"@ != "Draw Circle"@);
        assert("Draw Bus"@[5] != "Draw Arc"@[5]);
        assert("Draw Bus"@ != "Draw Arc"@);
        assert("Draw Bus"@ != "Draw Lines"@);
        assert("Draw Bus"@ != "Place Image"@);
        assert("Draw Bus"@ != "Delete Items"@);
        assert("Draw Bus"@ != "Measure"@);
        assert("Place Bus Entry"@ != "Place Junction"@);
        assert("Place Bus Entry"@ != "Place No-Connect Flag"@);
        assert("Place Bus Entry"@[6] != "Place Net Label"@[6]);
        assert("Place Bus Entry"@ != "Place Net Label"@);
        assert("Place Bus Entry"@ != "Place Global Label"@);
        assert("Place Bus Entry"@ != "Place Hierarchical Label"@);
        assert("Place Bus Entry"@ != "Draw Sheet"@);
        assert("Place Bus Entry"@ != "Place Text"@);
        assert("Place Bus Entry"@ != "Draw Rectangle"@);
        assert("Place Bus Entry"@ != "Draw Circle"@);
        assert("Place Bus Entry"@ != "Draw Arc"@);
        assert("Place Bus Entry"@ != "Draw Lines"@);
        assert("Place Bus Entry"@ != "Place Image"@);
        assert("Place Bus Entry"@ != "Delete Items"@);
        assert("Place Bus Entry"@ != "Measure"@);
        assert("Place Junction"@ != "Place No-Connect Flag"@);
        assert("Place Junction"@ != "Place Net Label"@);
        assert("Place Junction"@ != "Place Global Label"@);
        assert("Place Junction"@ != "Place Hierarchical Label"@);
        assert("Place Junction"@ != "Draw Sheet"@);
        assert("Place Junction"@ != "Place Text"@);
        assert("Place Junction"@[0] != "Draw Rectangle"@[0]);
        assert("Place Junction"@ != "Draw Rectangle"@);
        assert("Place Junction"@ != "Draw Circle"@);
        assert("Place Junction"@ != "Draw Arc"@);
        assert("Place Junction"@ != "Draw Lines"@);
        assert("Place Junction"@ != "Place Image"@);
        assert("Place Junction"@ != "Delete Items"@);
        assert("Place Junction"@ != "Measure"@);
        assert("Place No-Connect Flag"@ != "Place Net Label"@);
        assert("Place No-Connect Flag"@ != "Place Global Label"@);
        assert("Place No-Connect Flag"@ != "Place Hierarchical Label"@);
        assert("Place No-Connect Flag"@ != "Draw Sheet"@);
        assert("Place No-Connect Flag"@ != "Place Text"@);
        assert("Place No-Connect Flag"@ != "Draw Rectangle"@);
        assert("Place No-Connect Flag"@ != "Draw Circle"@);
        assert("Place No-Connect Flag"@ != "Draw Arc"@);
        assert("Place No-Connect Flag"@ != "Draw Lines"@);
        assert("Place No-Connect Flag"@ != "Place Image"@);
        assert("Place No-Connect Flag"@ != "Delete Items"@);
        assert("Place No-Connect Flag"@ != "Measure"@);
        assert("Place Net Label"@ != "Place Global Label"@);
        assert("Place Net Label"@ != "Place Hierarchical Label"@);
        assert("Place Net Label"@ != "Draw Sheet"@);
        assert("Place Net Label"@ != "Place Text"@);
        assert("Place Net Label"@ != "Draw Rectangle"@);
        assert("Place Net Label"@ != "Draw Circle"@);
        assert("Place Net Label"@ != "Draw Arc"@);
        assert("Place Net Label"@ != "Draw Lines"@);
        assert("Place Net Label"@ != "Place Image"@);
        assert("Place Net Label"@ != "Delete Items"@);
        assert("Place Net Label"@ != "Measure"@);
        assert("Place Global Label"@ != "Place Hierarchical Label"@);
        assert("Place Global Label"@ != "Draw Sheet"@);
        assert("Place Global Label"@ != "Place Text"@);
        assert("Place Global Label"@ != "Draw Rectangle"@);
        assert("Place Global Label"@ != "Draw Circle"@);
        assert("Place Global Label"@ != "Draw Arc"@);
        assert("Place Global Label"@ != "Draw Lines"@);
        assert("Place Global Label"@ != "Place Image"@);
        assert("Place Global Label"@ != "Delete Items"@);
        assert("Place Global Label"@ != "Measure"@);
        assert("Place Hierarchical Label"@ != "Draw Sheet"@);
        assert("Place Hierarchical Label"@ != "Place Text"@);
        assert("Place Hierarchical Label"@ != "Draw Rectangle"@);
        assert("Place Hierarchical Label"@ != "Draw Circle"@);
        assert("Place Hierarchical Label"@ != "Draw Arc"@);
        assert("Place Hierarchical Label"@ != "Draw Lines"@);
        assert("Place Hierarchical Label"@ != "Place Image"@);
        assert("Place Hierarchical Label"@ != "Delete Items"@);
        assert("Place Hierarchical Label"@ != "Measure"@);
        assert("Draw Sheet"@[0] != "Place Text"@[0]);
        assert("Draw Sheet"@ != "Place Text"@);
        assert("Draw Sheet"@ != "Draw Rectangle"@);
        assert("Draw Sheet"@ != "Draw Circle"@);
        assert("Draw Sheet"@ != "Draw Arc"@);
        assert("Draw Sheet"@[5] != "Draw Lines"@[5]);
        assert("Draw Sheet"@ != "Draw Lines"@);
        assert("Draw Sheet"@ != "Place Image"@);
        assert("Draw Sheet"@ != "Delete Items"@);
        assert("Draw Sheet"@ != "Measure"@);
        assert("Place Text"@ != "Draw Rectangle"@);
        assert("Place Text"@ != "Draw Circle"@);
        assert("Place Text"@ != "Draw Arc"@);
        assert("Place Text"@[0] != "Draw Lines"@[0]);
        assert("Place Text"@ != "Draw Lines"@);
        assert("Place Text"@ != "Place Image"@);
        assert("Place Text"@ != "Delete Items"@);
        assert("Place Text"@ != "Measure"@);
        assert("Draw Rectangle"@ != "Draw Circle"@);
        assert("Draw Rectangle"@ != "Draw Arc"@);
        assert("Draw Rectangle"@ != "Draw Lines"@);
        assert("Draw Rectangle"@ != "Place Image"@);
        assert("Draw Rectangle"@ != "Delete Items"@);
        assert("Draw Rectangle"@ != "Measure"@);
        assert("Draw Circle"@ != "Draw Arc"@);
        assert("Draw Circle"@ != "Draw Lines"@);
        assert("Draw Circle"@[0] != "Place Image"@[0]);
        assert("Draw Circle"@ != "Place Image"@);
        assert("Draw Circle"@ != "Delete Items"@);
        assert("Draw Circle"@ != "Measure"@);
        assert("Draw Arc"@ != "Draw Lines"@);
        assert("Draw Arc"@ != "Place Image"@);
        assert("Draw Arc"@ != "Delete Items"@);
        assert("Draw Arc"@ != "Measure"@);
        assert("Draw Lines"@ != "Place Image"@);
        assert("Draw Lines"@ != "Delete Items"@);
        assert("Draw Lines"@ != "Measure"@);
        assert("Place Image"@ != "Delete Items"@);
        assert("Place Image"@ != "Measure"@);
        assert("Delete Items"@ != "Measure"@);
        assert(tool_spec(Tool::Select).label == "Select");
        assert(tool_spec(Tool::HighlightNet).label == "Highlight Net");
        assert(tool_spec(Tool::PlaceSymbol).label == "Place Symbol");
        assert(tool_spec(Tool::PlacePower).label == "Place Power Port");
        assert(tool_spec(Tool::DrawWire).label == "Draw Wire");
        assert(tool_spec(Tool::DrawBus).label == "Draw Bus");
        assert(tool_spec(Tool::PlaceBusEntry).label == "Place Bus Entry");
        assert(tool_spec(Tool::PlaceJunction).label == "Place Junction");
        assert(tool_spec(Tool::PlaceNoConnect).label == "Place No-Connect Flag");
        assert(tool_spec(Tool::PlaceLabel).label == "Place Net Label");
        assert(tool_spec(Tool::PlaceGlobalLabel).label == "Place Global Label");
        assert(tool_spec(Tool::PlaceHierLabel).label == "Place Hierarchical Label");
        assert(tool_spec(Tool::DrawSheet).label == "Draw Sheet");
        assert(tool_spec(Tool::PlaceText).label == "Place Text");
        assert(tool_spec(Tool::DrawRectangle).label == "Draw Rectangle");
        assert(tool_spec(Tool::DrawCircle).label == "Draw Circle");
        assert(tool_spec(Tool::DrawArc).label == "Draw Arc");
        assert(tool_spec(Tool::DrawLine).label == "Draw Lines");
        assert(tool_spec(Tool::PlaceImage).label == "Place Image");
        assert(tool_spec(Tool::DeleteItems).label == "Delete Items");
        assert(tool_spec(Tool::Measure).label == "Measure");
    }
}

/// No two tools activate the same KiCad action.
#[verifier::rlimit(100)]
pub proof fn lemma_ids_distinct(a: Tool, b: Tool)
    requires
        a != b,
    ensures
        tool_spec(a).id.0@ != tool_spec(b).id.0@,
{
    assert(tool_spec(a).id.0@ != tool_spec(b).id.0@) by {
        reveal_strlit("common.InteractiveSelection.selectionTool");
        assert("common.InteractiveSelection.selectionTool"@.len() == 41);
        reveal_strlit("eeschema.EditorControl.highlightNetTool");
        assert("eeschema.EditorControl.highlightNetTool"@.len() == 39);
        reveal_strlit("eeschema.InteractiveDrawing.placeSymbol");
        assert("eeschema.InteractiveDrawing.placeSymbol"@.len() == 39);
        reveal_strlit("eeschema.InteractiveDrawing.placePowerSymbol");
        assert("eeschema.InteractiveDrawing.placePowerSymbol"@.len() == 44);
        reveal_strlit("eeschema.InteractiveDrawingLineWireBus.drawWires");
        assert("eeschema.InteractiveDrawingLineWireBus.drawWires"@.len() == 48);
        reveal_strlit("eeschema.InteractiveDrawingLineWireBus.drawBuses");
        assert("eeschema.InteractiveDrawingLineWireBus.drawBuses"@.len() == 48);
        reveal_strlit("eeschema.InteractiveDrawing.placeBusWireEntry");
        assert("eeschema.InteractiveDrawing.placeBusWireEntry"@.len() == 45);
        reveal_strlit("eeschema.InteractiveDrawing.placeJunction");
        assert("eeschema.InteractiveDrawing.placeJunction"@.len() == 41);
        reveal_strlit("eeschema.InteractiveDrawing.placeNoConnect");
        assert("eeschema.InteractiveDrawing.placeNoConnect"@.len() == 42);
        reveal_strlit("eeschema.InteractiveDrawing.placeLabel");
        assert("eeschema.InteractiveDrawing.placeLabel"@.len() == 38);
        reveal_strlit("eeschema.InteractiveDrawing.placeGlobalLabel");
        assert("eeschema.InteractiveDrawing.placeGlobalLabel"@.len() == 44);
        reveal_strlit("eeschema.InteractiveDrawing.placeHierarchicalLabel");
        assert("eeschema.InteractiveDrawing.placeHierarchicalLabel"@.len() == 50);
        reveal_strlit("eeschema.InteractiveDrawing.drawSheet");
        assert("eeschema.InteractiveDrawing.drawSheet"@.len() == 37);
        reveal_strlit("eeschema.InteractiveDrawing.placeSchematicText");
        assert("eeschema.InteractiveDrawing.placeSchematicText"@.len() == 46);
        reveal_strlit("eeschema.InteractiveDrawing.drawRectangle");
        assert("eeschema.InteractiveDrawing.drawRectangle"@.len() == 41);
        reveal_strlit("eeschema.InteractiveDrawing.drawCircle");
        assert("eeschema.InteractiveDrawing.drawCircle"@.len() == 38);
        reveal_strlit("eeschema.InteractiveDrawing.drawArc");
        assert("eeschema.InteractiveDrawing.drawArc"@.len() == 35);
        reveal_strlit("eeschema.InteractiveDrawingLineWireBus.drawLines");
        assert("eeschema.InteractiveDrawingLineWireBus.drawLines"@.len() == 48);
        reveal_strlit("eeschema.InteractiveDrawing.placeImage");
        assert("eeschema.InteractiveDrawing.placeImage"@.len() == 38);
        reveal_strlit("common.Interactive.deleteTool");
        assert("common.Interactive.deleteTool"@.len() == 29);
        reveal_strlit("common.Interactive.measureTool");
        assert("common.Interactive.measureTool"@.len() == 30);
        assert("common.InteractiveSelection.selectionTool"@ != "eeschema.EditorControl.highlightNetTool"@);
        assert("common.InteractiveSelection.selectionTool"@ != "eeschema.InteractiveDrawing.placeSymbol"@);
        assert("common.InteractiveSelection.selectionTool"@ != "eeschema.InteractiveDrawing.placePowerSymbol"@);
        assert("common.InteractiveSelection.selectionTool"@ != "eeschema.InteractiveDrawingLineWireBus.drawWires"@);
        assert("common.InteractiveSelection.selectionTool"@ != "eeschema.InteractiveDrawingLineWireBus.drawBuses"@);
        assert("common.InteractiveSelection.selectionTool"@ != "eeschema.InteractiveDrawing.placeBusWireEntry"@);
        assert("common.InteractiveSelection.selectionTool"@[0] != "eeschema.InteractiveDrawing.placeJunction"@[0]);
        assert("common.InteractiveSelection.selectionTool"@ != "eeschema.InteractiveDrawing.placeJunction"@);
        assert("common.InteractiveSelection.selectionTool"@ != "eeschema.InteractiveDrawing.placeNoConnect"@);
        assert("common.InteractiveSelection.selectionTool"@ != "eeschema.InteractiveDrawing.placeLabel"@);
        assert("common.InteractiveSelection.selectionTool"@ != "eeschema.InteractiveDrawing.placeGlobalLabel"@);
        assert("common.InteractiveSelection.selectionTool"@ != "eeschema.InteractiveDrawing.placeHierarchicalLabel"@);
        assert("common.InteractiveSelection.selectionTool"@ != "eeschema.InteractiveDrawing.drawSheet"@);
        assert("common.InteractiveSelection.selectionTool"@ != "eeschema.InteractiveDrawing.placeSchematicText"@);
        assert("common.InteractiveSelection.selectionTool"@[0] != "eeschema.InteractiveDrawing.drawRectangle"@[0]);
        assert("common.InteractiveSelection.selectionTool"@ != "eeschema.InteractiveDrawing.drawRectangle"@);
        assert("common.InteractiveSelection.selectionTool"@ != "eeschema.InteractiveDrawing.drawCircle"@);
        assert("common.InteractiveSelection.selectionTool"@ != "eeschema.InteractiveDrawing.drawArc"@);
        assert("common.InteractiveSelection.selectionTool"@ != "eeschema.InteractiveDrawingLineWireBus.drawLines"@);
        assert("common.InteractiveSelection.selectionTool"@ != "eeschema.InteractiveDrawing.placeImage"@);
        assert("common.InteractiveSelection.selectionTool"@ != "common.Interactive.deleteTool"@);
        assert("common.InteractiveSelection.selectionTool"@ != "common.Interactive.measureTool"@);
        assert("eeschema.EditorControl.highlightNetTool"@[9] != "eeschema.InteractiveDrawing.placeSymbol"@[9]);
        assert("eeschema.EditorControl.highlightNetTool"@ != "eeschema.InteractiveDrawing.placeSymbol"@);
        assert("eeschema.EditorControl.highlightNetTool"@ != "eeschema.InteractiveDrawing.placePowerSymbol"@);
        assert("eeschema.EditorControl.highlightNetTool"@ != "eeschema.InteractiveDrawingLineWireBus.drawWires"@);
        assert("eeschema.EditorControl.highlightNetTool"@ != "eeschema.InteractiveDrawingLineWireBus.drawBuses"@);
        assert("eeschema.EditorControl.highlightNetTool"@ != "eeschema.InteractiveDrawing.placeBusWireEntry"@);
        assert("eeschema.EditorControl.highlightNetTool"@ != "eeschema.InteractiveDrawing.placeJunction"@);
        assert("eeschema.EditorControl.highlightNetTool"@ != "eeschema.InteractiveDrawing.placeNoConnect"@);
        assert("eeschema.EditorControl.highlightNetTool"@ != "eeschema.InteractiveDrawing.placeLabel"@);
        assert("eeschema.EditorControl.highlightNetTool"@ != "eeschema.InteractiveDrawing.placeGlobalLabel"@);
        assert("eeschema.EditorControl.highlightNetTool"@ != "eeschema.InteractiveDrawing.placeHierarchicalLabel"@);
        assert("eeschema.EditorControl.highlightNetTool"@ != "eeschema.InteractiveDrawing.drawSheet"@);
        assert("eeschema.EditorControl.highlightNetTool"@ != "eeschema.InteractiveDrawing.placeSchematicText"@);
        assert("eeschema.EditorControl.highlightNetTool"@ != "eeschema.InteractiveDrawing.drawRectangle"@);
        assert("eeschema.EditorControl.highlightNetTool"@ != "eeschema.InteractiveDrawing.drawCircle"@);
        assert("eeschema.EditorControl.highlightNetTool"@ != "eeschema.InteractiveDrawing.drawArc"@);
        assert("eeschema.EditorControl.highlightNetTool"@ != "eeschema.InteractiveDrawingLineWireBus.drawLines"@);
        assert("eeschema.EditorControl.highlightNetTool"@ != "eeschema.InteractiveDrawing.placeImage"@);
        assert("eeschema.EditorControl.highlightNetTool"@ != "common.Interactive.deleteTool"@);
        assert("eeschema.EditorControl.highlightNetTool"@ != "common.Interactive.measureTool"@);
        assert("eeschema.InteractiveDrawing.placeSymbol"@ != "eeschema.InteractiveDrawing.placePowerSymbol"@);
        assert("eeschema.InteractiveDrawing.placeSymbol"@ != "eeschema.InteractiveDrawingLineWireBus.drawWires"@);
        assert("eeschema.InteractiveDrawing.placeSymbol"@ != "eeschema.InteractiveDrawingLineWireBus.drawBuses"@);
        assert("eeschema.InteractiveDrawing.placeSymbol"@ != "eeschema.InteractiveDrawing.placeBusWireEntry"@);
        assert("eeschema.InteractiveDrawing.placeSymbol"@ != "eeschema.InteractiveDrawing.placeJunction"@);
        assert("eeschema.InteractiveDrawing.placeSymbol"@ != "eeschema.InteractiveDrawing.placeNoConnect"@);
        assert("eeschema.InteractiveDrawing.placeSymbol"@ != "eeschema.InteractiveDrawing.placeLabel"@);
        assert("eeschema.InteractiveDrawing.placeSymbol"@ != "eeschema.InteractiveDrawing.placeGlobalLabel"@);
        assert("eeschema.InteractiveDrawing.placeSymbol"@ != "eeschema.InteractiveDrawing.placeHierarchicalLabel"@);
        assert("eeschema.InteractiveDrawing.placeSymbol"@ != "eeschema.InteractiveDrawing.drawSheet"@);
        assert("eeschema.InteractiveDrawing.placeSymbol"@ != "eeschema.InteractiveDrawing.placeSchematicText"@);
        assert("eeschema.InteractiveDrawing.placeSymbol"@ != "eeschema.InteractiveDrawing.drawRectangle"@);
        assert("eeschema.InteractiveDrawing.placeSymbol"@ != "eeschema.InteractiveDrawing.drawCircle"@);
        assert("eeschema.InteractiveDrawing.placeSymbol"@ != "eeschema.InteractiveDrawing.drawArc"@);
        assert("eeschema.InteractiveDrawing.placeSymbol"@ != "eeschema.InteractiveDrawingLineWireBus.drawLines"@);
        assert("eeschema.InteractiveDrawing.placeSymbol"@ != "eeschema.InteractiveDrawing.placeImage"@);
        assert("eeschema.InteractiveDrawing.placeSymbol"@ != "common.Interactive.deleteTool"@);
        assert("eeschema.InteractiveDrawing.placeSymbol"@ != "common.Interactive.measureTool"@);
        assert("eeschema.InteractiveDrawing.placePowerSymbol"@ != "eeschema.InteractiveDrawingLineWireBus.drawWires"@);
        assert("eeschema.InteractiveDrawing.placePowerSymbol"@ != "eeschema.InteractiveDrawingLineWireBus.drawBuses"@);
        assert("eeschema.InteractiveDrawing.placePowerSymbol"@ != "eeschema.InteractiveDrawing.placeBusWireEntry"@);
        assert("eeschema.InteractiveDrawing.placePowerSymbol"@ != "eeschema.InteractiveDrawing.placeJunction"@);
        assert("eeschema.InteractiveDrawing.placePowerSymbol"@ != "eeschema.InteractiveDrawing.placeNoConnect"@);
        assert("eeschema.InteractiveDrawing.placePowerSymbol"@ != "eeschema.InteractiveDrawing.placeLabel"@);
        assert("eeschema.InteractiveDrawing.placePowerSymbol"@[33] != "eeschema.InteractiveDrawing.placeGlobalLabel"@[33]);
        assert("eeschema.InteractiveDrawing.placePowerSymbol"@ != "eeschema.InteractiveDrawing.placeGlobalLabel"@);
        assert("eeschema.InteractiveDrawing.placePowerSymbol"@ != "eeschema.InteractiveDrawing.placeHierarchicalLabel"@);
        assert("eeschema.InteractiveDrawing.placePowerSymbol"@ != "eeschema.InteractiveDrawing.drawSheet"@);
        assert("eeschema.InteractiveDrawing.placePowerSymbol"@ != "eeschema.InteractiveDrawing.placeSchematicText"@);
        assert("eeschema.InteractiveDrawing.placePowerSymbol"@ != "eeschema.InteractiveDrawing.drawRectangle"@);
        assert("eeschema.InteractiveDrawing.placePowerSymbol"@ != "eeschema.InteractiveDrawing.drawCircle"@);
        assert("eeschema.InteractiveDrawing.placePowerSymbol"@ != "eeschema.InteractiveDrawing.drawArc"@);
        assert("eeschema.InteractiveDrawing.placePowerSymbol"@ != "eeschema.InteractiveDrawingLineWireBus.drawLines"@);
        assert("eeschema.InteractiveDrawing.placePowerSymbol"@ != "eeschema.InteractiveDrawing.placeImage"@);
        assert("eeschema.InteractiveDrawing.placePowerSymbol"@ != "common.Interactive.deleteTool"@);
        assert("eeschema.InteractiveDrawing.placePowerSymbol"@ != "common.Interactive.measureTool"@);
        assert("eeschema.InteractiveDrawingLineWireBus.drawWires"@[43] != "eeschema.InteractiveDrawingLineWireBus.drawBuses"@[43]);
        assert("eeschema.InteractiveDrawingLineWireBus.drawWires"@ != "eeschema.InteractiveDrawingLineWireBus.drawBuses"@);
        assert("eeschema.InteractiveDrawingLineWireBus.drawWires"@ != "eeschema.InteractiveDrawing.placeBusWireEntry"@);
        assert("eeschema.InteractiveDrawingLineWireBus.drawWires"@ != "eeschema.InteractiveDrawing.placeJunction"@);
        assert("eeschema.InteractiveDrawingLineWireBus.drawWires"@ != "eeschema.InteractiveDrawing.placeNoConnect"@);
        assert("eeschema.InteractiveDrawingLineWireBus.drawWires"@ != "eeschema.InteractiveDrawing.placeLabel"@);
        assert("eeschema.InteractiveDrawingLineWireBus.drawWires"@ != "eeschema.InteractiveDrawing.placeGlobalLabel"@);
        assert("eeschema.InteractiveDrawingLineWireBus.drawWires"@ != "eeschema.InteractiveDrawing.placeHierarchicalLabel"@);
        assert("eeschema.InteractiveDrawingLineWireBus.drawWires"@ != "eeschema.InteractiveDrawing.drawSheet"@);
        assert("eeschema.InteractiveDrawingLineWireBus.drawWires"@ != "eeschema.InteractiveDrawing.placeSchematicText"@);
        assert("eeschema.InteractiveDrawingLineWireBus.drawWires"@ != "eeschema.InteractiveDrawing.drawRectangle"@);
        assert("eeschema.InteractiveDrawingLineWireBus.drawWires"@ != "eeschema.InteractiveDrawing.drawCircle"@);
        assert("eeschema.InteractiveDrawingLineWireBus.drawWires"@ != "eeschema.InteractiveDrawing.drawArc"@);
        assert("eeschema.InteractiveDrawingLineWireBus.drawWires"@[43] != "eeschema.InteractiveDrawingLineWireBus.drawLines"@[43]);
        assert("eeschema.InteractiveDrawingLineWireBus.drawWires"@ != "eeschema.InteractiveDrawingLineWireBus.drawLines"@);
        assert("eeschema.InteractiveDrawingLineWireBus.drawWires"@ != "eeschema.InteractiveDrawing.placeImage"@);
        assert("eeschema.InteractiveDrawingLineWireBus.drawWires"@ != "common.Interactive.deleteTool"@);
        assert("eeschema.InteractiveDrawingLineWireBus.drawWires"@ != "common.Interactive.measureTool"@);
        assert("eeschema.InteractiveDrawingLineWireBus.drawBuses"@ != "eeschema.InteractiveDrawing.placeBusWireEntry"@);
        assert("eeschema.InteractiveDrawingLineWireBus.drawBuses"@ != "eeschema.InteractiveDrawing.placeJunction"@);
        assert("eeschema.InteractiveDrawingLineWireBus.drawBuses"@ != "eeschema.InteractiveDrawing.placeNoConnect"@);
        assert("eeschema.InteractiveDrawingLineWireBus.drawBuses"@ != "eeschema.InteractiveDrawing.placeLabel"@);
        assert("eeschema.InteractiveDrawingLineWireBus.drawBuses"@ != "eeschema.InteractiveDrawing.placeGlobalLabel"@);
        assert("eeschema.InteractiveDrawingLineWireBus.drawBuses"@ != "eeschema.InteractiveDrawing.placeHierarchicalLabel"@);
        assert("eeschema.InteractiveDrawingLineWireBus.drawBuses"@ != "eeschema.InteractiveDrawing.drawSheet"@);
        assert("eeschema.InteractiveDrawingLineWireBus.drawBuses"@ != "eeschema.InteractiveDrawing.placeSchematicText"@);
        assert("eeschema.InteractiveDrawingLineWireBus.drawBuses"@ != "eeschema.InteractiveDrawing.drawRectangle"@);
        assert("eeschema.InteractiveDrawingLineWireBus.drawBuses"@ != "eeschema.InteractiveDrawing.drawCircle"@);
        assert("eeschema.InteractiveDrawingLineWireBus.drawBuses"@ != "eeschema.InteractiveDrawing.drawArc"@);
        assert("eeschema.InteractiveDrawingLineWireBus.drawBuses"@[43] != "eeschema.InteractiveDrawingLineWireBus.drawLines"@[43]);
        assert("eeschema.InteractiveDrawingLineWireBus.drawBuses"@ != "eeschema.InteractiveDrawingLineWireBus.drawLines"@);
        assert("eeschema.InteractiveDrawingLineWireBus.drawBuses"@ != "eeschema.InteractiveDrawing.placeImage"@);
        assert("eeschema.InteractiveDrawingLineWireBus.drawBuses"@ != "common.Interactive.deleteTool"@);
        assert("eeschema.InteractiveDrawingLineWireBus.drawBuses"@ != "common.Interactive.measureTool"@);
        assert("eeschema.InteractiveDrawing.placeBusWireEntry"@ != "eeschema.InteractiveDrawing.placeJunction"@);
        assert("eeschema.InteractiveDrawing.placeBusWireEntry"@ != "eeschema.InteractiveDrawing.placeNoConnect"@);
        assert("eeschema.InteractiveDrawing.placeBusWireEntry"@ != "eeschema.InteractiveDrawing.placeLabel"@);
        assert("eeschema.InteractiveDrawing.placeBusWireEntry"@ != "eeschema.InteractiveDrawing.placeGlobalLabel"@);
        assert("eeschema.InteractiveDrawing.placeBusWireEntry"@ != "eeschema.InteractiveDrawing.placeHierarchicalLabel"@);
        assert("eeschema.InteractiveDrawing.placeBusWireEntry"@ != "eeschema.InteractiveDrawing.drawSheet"@);
        assert("eeschema.InteractiveDrawing.placeBusWireEntry"@ != "eeschema.InteractiveDrawing.placeSchematicText"@);
        assert("eeschema.InteractiveDrawing.placeBusWireEntry"@ != "eeschema.InteractiveDrawing.drawRectangle"@);
        assert("eeschema.InteractiveDrawing.placeBusWireEntry"@ != "eeschema.InteractiveDrawing.drawCircle"@);
        assert("eeschema.InteractiveDrawing.placeBusWireEntry"@ != "eeschema.InteractiveDrawing.drawArc"@);
        assert("eeschema.InteractiveDrawing.placeBusWireEntry"@ != "eeschema.InteractiveDrawingLineWireBus.drawLines"@);
        assert("eeschema.InteractiveDrawing.placeBusWireEntry"@ != "eeschema.InteractiveDrawing.placeImage"@);
        assert("eeschema.InteractiveDrawing.placeBusWireEntry"@ != "common.Interactive.deleteTool"@);
        assert("eeschema.InteractiveDrawing.placeBusWireEntry"@ != "common.Interactive.measureTool"@);
        assert("eeschema.InteractiveDrawing.placeJunction"@ != "eeschema.InteractiveDrawing.placeNoConnect"@);
        assert("eeschema.InteractiveDrawing.placeJunction"@ != "eeschema.InteractiveDrawing.placeLabel"@);
        assert("eeschema.InteractiveDrawing.placeJunction"@ != "eeschema.InteractiveDrawing.placeGlobalLabel"@);
        assert("eeschema.InteractiveDrawing.placeJunction"@ != "eeschema.InteractiveDrawing.placeHierarchicalLabel"@);
        assert("eeschema.InteractiveDrawing.placeJunction"@ != "eeschema.InteractiveDrawing.drawSheet"@);
        assert("eeschema.InteractiveDrawing.placeJunction"@ != "eeschema.InteractiveDrawing.placeSchematicText"@);
        assert("eeschema.InteractiveDrawing.placeJunction"@[28] != "eeschema.InteractiveDrawing.drawRectangle"@[28]);
        assert("eeschema.InteractiveDrawing.placeJunction"@ != "eeschema.InteractiveDrawing.drawRectangle"@);
        assert("eeschema.InteractiveDrawing.placeJunction"@ != "eeschema.InteractiveDrawing.drawCircle"@);
        assert("eeschema.InteractiveDrawing.placeJunction"@ != "eeschema.InteractiveDrawing.drawArc"@);
        assert("eeschema.InteractiveDrawing.placeJunction"@ != "eeschema.InteractiveDrawingLineWireBus.drawLines"@);
        assert("eeschema.InteractiveDrawing.placeJunction"@ != "eeschema.InteractiveDrawing.placeImage"@);
        assert("eeschema.InteractiveDrawing.placeJunction"@ != "common.Interactive.deleteTool"@);
        assert("eeschema.InteractiveDrawing.placeJunction"@ != "common.Interactive.measureTool"@);
        assert("eeschema.InteractiveDrawing.placeNoConnect"@ != "eeschema.InteractiveDrawing.placeLabel"@);
        assert("eeschema.InteractiveDrawing.placeNoConnect"@ != "eeschema.InteractiveDrawing.placeGlobalLabel"@);
        assert("eeschema.InteractiveDrawing.placeNoConnect"@ != "eeschema.InteractiveDrawing.placeHierarchicalLabel"@);
        assert("eeschema.InteractiveDrawing.placeNoConnect"@ != "eeschema.InteractiveDrawing.drawSheet"@);
        assert("eeschema.InteractiveDrawing.placeNoConnect"@ != "eeschema.InteractiveDrawing.placeSchematicText"@);
        assert("eeschema.InteractiveDrawing.placeNoConnect"@ != "eeschema.InteractiveDrawing.drawRectangle"@);
        assert("eeschema.InteractiveDrawing.placeNoConnect"@ != "eeschema.InteractiveDrawing.drawCircle"@);
        assert("eeschema.InteractiveDrawing.placeNoConnect"@ != "eeschema.InteractiveDrawing.drawArc"@);
        assert("eeschema.InteractiveDrawing.placeNoConnect"@ != "eeschema.InteractiveDrawingLineWireBus.drawLines"@);
        assert("eeschema.InteractiveDrawing.placeNoConnect"@ != "eeschema.InteractiveDrawing.placeImage"@);
        assert("eeschema.InteractiveDrawing.placeNoConnect"@ != "common.Interactive.deleteTool"@);
        assert("eeschema.InteractiveDrawing.placeNoConnect"@ != "common.Interactive.measureTool"@);
        assert("eeschema.InteractiveDrawing.placeLabel"@ != "eeschema.InteractiveDrawing.placeGlobalLabel"@);
        assert("eeschema.InteractiveDrawing.placeLabel"@ != "eeschema.InteractiveDrawing.placeHierarchicalLabel"@);
        assert("eeschema.InteractiveDrawing.placeLabel"@ != "eeschema.InteractiveDrawing.drawSheet"@);
        assert("eeschema.InteractiveDrawing.placeLabel"@ != "eeschema.InteractiveDrawing.placeSchematicText"@);
        assert("eeschema.InteractiveDrawing.placeLabel"@ != "eeschema.InteractiveDrawing.drawRectangle"@);
        assert("eeschema.InteractiveDrawing.placeLabel"@[28] != "eeschema.InteractiveDrawing.drawCircle"@[28]);
        assert("eeschema.InteractiveDrawing.placeLabel"@ != "eeschema.InteractiveDrawing.drawCircle"@);
        assert("eeschema.InteractiveDrawing.placeLabel"@ != "eeschema.InteractiveDrawing.drawArc"@);
        assert("eeschema.InteractiveDrawing.placeLabel"@ != "eeschema.InteractiveDrawingLineWireBus.drawLines"@);
        assert("eeschema.InteractiveDrawing.placeLabel"@[33] != "eeschema.InteractiveDrawing.placeImage"@[33]);
        assert("eeschema.InteractiveDrawing.placeLabel"@ != "eeschema.InteractiveDrawing.placeImage"@);
        assert("eeschema.InteractiveDrawing.placeLabel"@ != "common.Interactive.deleteTool"@);
        assert("eeschema.InteractiveDrawing.placeLabel"@ != "common.Interactive.measureTool"@);
        assert("eeschema.InteractiveDrawing.placeGlobalLabel"@ != "eeschema.InteractiveDrawing.placeHierarchicalLabel"@);
        assert("eeschema.InteractiveDrawing.placeGlobalLabel"@ != "eeschema.InteractiveDrawing.drawSheet"@);
        assert("eeschema.InteractiveDrawing.placeGlobalLabel"@ != "eeschema.InteractiveDrawing.placeSchematicText"@);
        assert("eeschema.InteractiveDrawing.placeGlobalLabel"@ != "eeschema.InteractiveDrawing.drawRectangle"@);
        assert("eeschema.InteractiveDrawing.placeGlobalLabel"@ != "eeschema.InteractiveDrawing.drawCircle"@);
        assert("eeschema.InteractiveDrawing.placeGlobalLabel"@ != "eeschema.InteractiveDrawing.drawArc"@);
        assert("eeschema.InteractiveDrawing.placeGlobalLabel"@ != "eeschema.InteractiveDrawingLineWireBus.drawLines"@);
        assert("eeschema.InteractiveDrawing.placeGlobalLabel"@ != "eeschema.InteractiveDrawing.placeImage"@);
        assert("eeschema.InteractiveDrawing.placeGlobalLabel"@ != "common.Interactive.deleteTool"@);
        assert("eeschema.InteractiveDrawing.placeGlobalLabel"@ != "common.Interactive.measureTool"@);
        assert("eeschema.InteractiveDrawing.placeHierarchicalLabel"@ != "eeschema.InteractiveDrawing.drawSheet"@);
        assert("eeschema.InteractiveDrawing.placeHierarchicalLabel"@ != "eeschema.InteractiveDrawing.placeSchematicText"@);
        assert("eeschema.InteractiveDrawing.placeHierarchicalLabel"@ != "eeschema.InteractiveDrawing.drawRectangle"@);
        assert("eeschema.InteractiveDrawing.placeHierarchicalLabel"@ != "eeschema.InteractiveDrawing.drawCircle"@);
        assert("eeschema.InteractiveDrawing.placeHierarchicalLabel"@ != "eeschema.InteractiveDrawing.drawArc"@);
        assert("eeschema.InteractiveDrawing.placeHierarchicalLabel"@ != "eeschema.InteractiveDrawingLineWireBus.drawLines"@);
        assert("eeschema.InteractiveDrawing.placeHierarchicalLabel"@ != "eeschema.InteractiveDrawing.placeImage"@);
        assert("eeschema.InteractiveDrawing.placeHierarchicalLabel"@ != "common.Interactive.deleteTool"@);
        assert("eeschema.InteractiveDrawing.placeHierarchicalLabel"@ != "common.Interactive.measureTool"@);
        assert("eeschema.InteractiveDrawing.drawSheet"@ != "eeschema.InteractiveDrawing.placeSchematicText"@);
        assert("eeschema.InteractiveDrawing.drawSheet"@ != "eeschema.InteractiveDrawing.drawRectangle"@);
        assert("eeschema.InteractiveDrawing.drawSheet"@ != "eeschema.InteractiveDrawing.drawCircle"@);
        assert("eeschema.InteractiveDrawing.drawSheet"@ != "eeschema.InteractiveDrawing.drawArc"@);
        assert("eeschema.InteractiveDrawing.drawSheet"@ != "eeschema.InteractiveDrawingLineWireBus.drawLines"@);
        assert("eeschema.InteractiveDrawing.drawSheet"@ != "eeschema.InteractiveDrawing.placeImage"@);
        assert("eeschema.InteractiveDrawing.drawSheet"@ != "common.Interactive.deleteTool"@);
        assert("eeschema.InteractiveDrawing.drawSheet"@ != "common.Interactive.measureTool"@);
        assert("eeschema.InteractiveDrawing.placeSchematicText"@ != "eeschema.InteractiveDrawing.drawRectangle"@);
        assert("eeschema.InteractiveDrawing.placeSchematicText"@ != "eeschema.InteractiveDrawing.drawCircle"@);
        assert("eeschema.InteractiveDrawing.placeSchematicText"@ != "eeschema.InteractiveDrawing.drawArc"@);
        assert("eeschema.InteractiveDrawing.placeSchematicText"@ != "eeschema.InteractiveDrawingLineWireBus.drawLines"@);
        assert("eeschema.InteractiveDrawing.placeSchematicText"@ != "eeschema.InteractiveDrawing.placeImage"@);
        assert("eeschema.InteractiveDrawing.placeSchematicText"@ != "common.Interactive.deleteTool"@);
        assert("eeschema.InteractiveDrawing.placeSchematicText"@ != "common.Interactive.measureTool"@);
        assert("eeschema.InteractiveDrawing.drawRectangle"@ != "eeschema.InteractiveDrawing.drawCircle"@);
        assert("eeschema.InteractiveDrawing.drawRectangle"@ != "eeschema.InteractiveDrawing.drawArc"@);
        assert("eeschema.InteractiveDrawing.drawRectangle"@ != "eeschema.InteractiveDrawingLineWireBus.drawLines"@);
        assert("eeschema.InteractiveDrawing.drawRectangle"@ != "eeschema.InteractiveDrawing.placeImage"@);
        assert("eeschema.InteractiveDrawing.drawRectangle"@ != "common.Interactive.deleteTool"@);
        assert("eeschema.InteractiveDrawing.drawRectangle"@ != "common.Interactive.measureTool"@);
        assert("eeschema.InteractiveDrawing.drawCircle"@ != "eeschema.InteractiveDrawing.drawArc"@);
        assert("eeschema.InteractiveDrawing.drawCircle"@ != "eeschema.InteractiveDrawingLineWireBus.drawLines"@);
        assert("eeschema.InteractiveDrawing.drawCircle"@[28] != "eeschema.InteractiveDrawing.placeImage"@[28]);
        assert("eeschema.InteractiveDrawing.drawCircle"@ != "eeschema.InteractiveDrawing.placeImage"@);
        assert("eeschema.InteractiveDrawing.drawCircle"@ != "common.Interactive.deleteTool"@);
        assert("eeschema.InteractiveDrawing.drawCircle"@ != "common.Interactive.measureTool"@);
        assert("eeschema.InteractiveDrawing.drawArc"@ != "eeschema.InteractiveDrawingLineWireBus.drawLines"@);
        assert("eeschema.InteractiveDrawing.drawArc"@ != "eeschema.InteractiveDrawing.placeImage"@);
        assert("eeschema.InteractiveDrawing.drawArc"@ != "common.Interactive.deleteTool"@);
        assert("eeschema.InteractiveDrawing.drawArc"@ != "common.Interactive.measureTool"@);
        assert("eeschema.InteractiveDrawingLineWireBus.drawLines"@ != "eeschema.InteractiveDrawing.placeImage"@);
        assert("eeschema.InteractiveDrawingLineWireBus.drawLines"@ != "common.Interactive.deleteTool"@);
        assert("eeschema.InteractiveDrawingLineWireBus.drawLines"@ != "common.Interactive.measureTool"@);
        assert("eeschema.InteractiveDrawing.placeImage"@ != "common.Interactive.deleteTool"@);
        assert("eeschema.InteractiveDrawing.placeImage"@ != "common.Interactive.measureTool"@);
        assert("common.Interactive.deleteTool"@ != "common.Interactive.measureTool"@);
        assert(tool_spec(Tool::Select).id.0 == "common.InteractiveSelection.selectionTool");
        assert(tool_spec(Tool::HighlightNet).id.0 == "eeschema.EditorControl.highlightNetTool");
        assert(tool_spec(Tool::PlaceSymbol).id.0 == "eeschema.InteractiveDrawing.placeSymbol");
        assert(tool_spec(Tool::PlacePower).id.0 == "eeschema.InteractiveDrawing.placePowerSymbol");
        assert(tool_spec(Tool::DrawWire).id.0 == "eeschema.InteractiveDrawingLineWireBus.drawWires");
        assert(tool_spec(Tool::DrawBus).id.0 == "eeschema.InteractiveDrawingLineWireBus.drawBuses");
        assert(tool_spec(Tool::PlaceBusEntry).id.0 == "eeschema.InteractiveDrawing.placeBusWireEntry");
        assert(tool_spec(Tool::PlaceJunction).id.0 == "eeschema.InteractiveDrawing.placeJunction");
        assert(tool_spec(Tool::PlaceNoConnect).id.0 == "eeschema.InteractiveDrawing.placeNoConnect");
        assert(tool_spec(Tool::PlaceLabel).id.0 == "eeschema.InteractiveDrawing.placeLabel");
        assert(tool_spec(Tool::PlaceGlobalLabel).id.0 == "eeschema.InteractiveDrawing.placeGlobalLabel");
        assert(tool_spec(Tool::PlaceHierLabel).id.0 == "eeschema.InteractiveDrawing.placeHierarchicalLabel");
        assert(tool_spec(Tool::DrawSheet).id.0 == "eeschema.InteractiveDrawing.drawSheet");
        assert(tool_spec(Tool::PlaceText).id.0 == "eeschema.InteractiveDrawing.placeSchematicText");
        assert(tool_spec(Tool::DrawRectangle).id.0 == "eeschema.InteractiveDrawing.drawRectangle");
        assert(tool_spec(Tool::DrawCircle).id.0 == "eeschema.InteractiveDrawing.drawCircle");
        assert(tool_spec(Tool::DrawArc).id.0 == "eeschema.InteractiveDrawing.drawArc");
        assert(tool_spec(Tool::DrawLine).id.0 == "eeschema.InteractiveDrawingLineWireBus.drawLines");
        assert(tool_spec(Tool::PlaceImage).id.0 == "eeschema.InteractiveDrawing.placeImage");
        assert(tool_spec(Tool::DeleteItems).id.0 == "common.Interactive.deleteTool");
        assert(tool_spec(Tool::Measure).id.0 == "common.Interactive.measureTool");
    }
}

/// No two tools carry the same default hotkey.
#[verifier::rlimit(100)]
pub proof fn lemma_shortcuts_distinct(a: Tool, b: Tool)
    requires
        a != b,
        tool_spec(a).shortcut is Some,
        tool_spec(b).shortcut is Some,
    ensures
        tool_spec(a).shortcut->0@ != tool_spec(b).shortcut->0@,
{
    assert(tool_spec(a).shortcut->0@ != tool_spec(b).shortcut->0@) by {
        reveal_strlit("`");
        assert("`"@.len() == 1);
        reveal_strlit("a");
        assert("a"@.len() == 1);
        reveal_strlit("p");
        assert("p"@.len() == 1);
        reveal_strlit("w");
        assert("w"@.len() == 1);
        reveal_strlit("b");
        assert("b"@.len() == 1);
        reveal_strlit("j");
        assert("j"@.len() == 1);
        reveal_strlit("q");
        assert("q"@.len() == 1);
        reveal_strlit("l");
        assert("l"@.len() == 1);
        reveal_strlit("ctrl-l");
        assert("ctrl-l"@.len() == 6);
        reveal_strlit("h");
        assert("h"@.len() == 1);
        reveal_strlit("s");
        assert("s"@.len() == 1);
        reveal_strlit("t");
        assert("t"@.len() == 1);
        reveal_strlit("ctrl-shift-m");
        assert("ctrl-shift-m"@.len() == 12);
        assert("`"@[0] != "a"@[0]);
        assert("`"@ != "a"@);
        assert("`"@[0] != "p"@[0]);
        assert("`"@ != "p"@);
        assert("`"@[0] != "w"@[0]);
        assert("`"@ != "w"@);
        assert("`"@[0] != "b"@[0]);
        assert("`"@ != "b"@);
        assert("`"@[0] != "j"@[0]);
        assert("`"@ != "j"@);
        assert("`"@[0] != "q"@[0]);
        assert("`"@ != "q"@);
        assert("`"@[0] != "l"@[0]);
        assert("`"@ != "l"@);
        assert("`"@ != "ctrl-l"@);
        assert("`"@[0] != "h"@[0]);
        assert("`"@ != "h"@);
        assert("`"@[0] != "s"@[0]);
        assert("`"@ != "s"@);
        assert("`"@[0] != "t"@[0]);
        assert("`"@ != "t"@);
        assert("`"@ != "ctrl-shift-m"@);
        assert("a"@[0] != "p"@[0]);
        assert("a"@ != "p"@);
        assert("a"@[0] != "w"@[0]);
        assert("a"@ != "w"@);
        assert("a"@[0] != "b"@[0]);
        assert("a"@ != "b"@);
        assert("a"@[0] != "j"@[0]);
        assert("a"@ != "j"@);
        assert("a"@[0] != "q"@[0]);
        assert("a"@ != "q"@);
        assert("a"@[0] != "l"@[0]);
        assert("a"@ != "l"@);
        assert("a"@ != "ctrl-l"@);
        assert("a"@[0] != "h"@[0]);
        assert("a"@ != "h"@);
        assert("a"@[0] != "s"@[0]);
        assert("a"@ != "s"@);
        assert("a"@[0] != "t"@[0]);
        assert("a"@ != "t"@);
        assert("a"@ != "ctrl-shift-m"@);
        assert("p"@[0] != "w"@[0]);
        assert("p"@ != "w"@);
        assert("p"@[0] != "b"@[0]);
        assert("p"@ != "b"@);
        assert("p"@[0] != "j"@[0]);
        assert("p"@ != "j"@);
        assert("p"@[0] != "q"@[0]);
        assert("p"@ != "q"@);
        assert("p"@[0] != "l"@[0]);
        assert("p"@ != "l"@);
        assert("p"@ != "ctrl-l"@);
        assert("p"@[0] != "h"@[0]);
        assert("p"@ != "h"@);
        assert("p"@[0] != "s"@[0]);
        assert("p"@ != "s"@);
        assert("p"@[0] != "t"@[0]);
        assert("p"@ != "t"@);
        assert("p"@ != "ctrl-shift-m"@);
        assert("w"@[0] != "b"@[0]);
        assert("w"@ != "b"@);
        assert("w"@[0] != "j"@[0]);
        assert("w"@ != "j"@);
        assert("w"@[0] != "q"@[0]);
        assert("w"@ != "q"@);
        assert("w"@[0] != "l"@[0]);
        assert("w"@ != "l"@);
        assert("w"@ != "ctrl-l"@);
        assert("w"@[0] != "h"@[0]);
        assert("w"@ != "h"@);
        assert("w"@[0] != "s"@[0]);
        assert("w"@ != "s"@);
        assert("w"@[0] != "t"@[0]);
        assert("w"@ != "t"@);
        assert("w"@ != "ctrl-shift-m"@);
        assert("b"@[0] != "j"@[0]);
        assert("b"@ != "j"@);
        assert("b"@[0] != "q"@[0]);
        assert("b"@ != "q"@);
        assert("b"@[0] != "l"@[0]);
        assert("b"@ != "l"@);
        assert("b"@ != "ctrl-l"@);
        assert("b"@[0] != "h"@[0]);
        assert("b"@ != "h"@);
        assert("b"@[0] != "s"@[0]);
        assert("b"@ != "s"@);
        assert("b"@[0] != "t"@[0]);
        assert("b"@ != "t"@);
        assert("b"@ != "ctrl-shift-m"@);
        assert("j"@[0] != "q"@[0]);
        assert("j"@ != "q"@);
        assert("j"@[0] != "l"@[0]);
        assert("j"@ != "l"@);
        assert("j"@ != "ctrl-l"@);
        assert("j"@[0] != "h"@[0]);
        assert("j"@ != "h"@);
        assert("j"@[0] != "s"@[0]);
        assert("j"@ != "s"@);
        assert("j"@[0] != "t"@[0]);
        assert("j"@ != "t"@);
        assert("j"@ != "ctrl-shift-m"@);
        assert("q"@[0] != "l"@[0]);
        assert("q"@ != "l"@);
        assert("q"@ != "ctrl-l"@);
        assert("q"@[0] != "h"@[0]);
        assert("q"@ != "h"@);
        assert("q"@[0] != "s"@[0]);
        assert("q"@ != "s"@);
        assert("q"@[0] != "t"@[0]);
        assert("q"@ != "t"@);
        assert("q"@ != "ctrl-shift-m"@);
        assert("l"@ != "ctrl-l"@);
        assert("l"@[0] != "h"@[0]);
        assert("l"@ != "h"@);
        assert("l"@[0] != "s"@[0]);
        assert("l"@ != "s"@);
        assert("l"@[0] != "t"@[0]);
        assert("l"@ != "t"@);
        assert("l"@ != "ctrl-shift-m"@);
        assert("ctrl-l"@ != "h"@);
        assert("ctrl-l"@ != "s"@);
        assert("ctrl-l"@ != "t"@);
        assert("ctrl-l"@ != "ctrl-shift-m"@);
        assert("h"@[0] != "s"@[0]);
        assert("h"@ != "s"@);
        assert("h"@[0] != "t"@[0]);
        assert("h"@ != "t"@);
        assert("h"@ != "ctrl-shift-m"@);
        assert("s"@[0] != "t"@[0]);
        assert("s"@ != "t"@);
        assert("s"@ != "ctrl-shift-m"@);
        assert("t"@ != "ctrl-shift-m"@);
        assert(tool_spec(Tool::HighlightNet).shortcut == Some("`"));
        assert(tool_spec(Tool::PlaceSymbol).shortcut == Some("a"));
        assert(tool_spec(Tool::PlacePower).shortcut == Some("p"));
        assert(tool_spec(Tool::DrawWire).shortcut == Some("w"));
        assert(tool_spec(Tool::DrawBus).shortcut == Some("b"));
        assert(tool_spec(Tool::PlaceJunction).shortcut == Some("j"));
        assert(tool_spec(Tool::PlaceNoConnect).shortcut == Some("q"));
        assert(tool_spec(Tool::PlaceLabel).shortcut == Some("l"));
        assert(tool_spec(Tool::PlaceGlobalLabel).shortcut == Some("ctrl-l"));
        assert(tool_spec(Tool::PlaceHierLabel).shortcut == Some("h"));
        assert(tool_spec(Tool::DrawSheet).shortcut == Some("s"));
        assert(tool_spec(Tool::PlaceText).shortcut == Some("t"));
        assert(tool_spec(Tool::Measure).shortcut == Some("ctrl-shift-m"));
    }
}

/// Every tool activates a namespaced KiCad action name.
#[verifier::rlimit(100)]
pub proof fn lemma_ids_namespaced(tool: Tool)
    ensures
        is_namespaced_action_name(tool_spec(tool).id.0@),
{
    match tool {
        Tool::Select => {
            reveal_strlit("common.InteractiveSelection.selectionTool");
            reveal_strlit("common.");
            assert("common.InteractiveSelection.selectionTool"@.subrange(0, 7) =~= "common."@);
            assert("common.InteractiveSelection.selectionTool"@[6] == '.' && "common.InteractiveSelection.selectionTool"@[27] == '.');
        },
        Tool::HighlightNet => {
            reveal_strlit("eeschema.EditorControl.highlightNetTool");
            reveal_strlit("eeschema.");
            assert("eeschema.EditorControl.highlightNetTool"@.subrange(0, 9) =~= "eeschema."@);
            assert("eeschema.EditorControl.highlightNetTool"@[8] == '.' && "eeschema.EditorControl.highlightNetTool"@[22] == '.');
        },
        Tool::PlaceSymbol => {
            reveal_strlit("eeschema.InteractiveDrawing.placeSymbol");
            reveal_strlit("eeschema.");
            assert("eeschema.InteractiveDrawing.placeSymbol"@.subrange(0, 9) =~= "eeschema."@);
            assert("eeschema.InteractiveDrawing.placeSymbol"@[8] == '.' && "eeschema.InteractiveDrawing.placeSymbol"@[27] == '.');
        },
        Tool::PlacePower => {
            reveal_strlit("eeschema.InteractiveDrawing.placePowerSymbol");
            reveal_strlit("eeschema.");
            assert("eeschema.InteractiveDrawing.placePowerSymbol"@.subrange(0, 9) =~= "eeschema."@);
            assert("eeschema.InteractiveDrawing.placePowerSymbol"@[8] == '.' && "eeschema.InteractiveDrawing.placePowerSymbol"@[27] == '.');
        },
        Tool::DrawWire => {
            reveal_strlit("eeschema.InteractiveDrawingLineWireBus.drawWires");
            reveal_strlit("eeschema.");
            assert("eeschema.InteractiveDrawingLineWireBus.drawWires"@.subrange(0, 9) =~= "eeschema."@);
            assert("eeschema.InteractiveDrawingLineWireBus.drawWires"@[8] == '.' && "eeschema.InteractiveDrawingLineWireBus.drawWires"@[38] == '.');
        },
        Tool::DrawBus => {
            reveal_strlit("eeschema.InteractiveDrawingLineWireBus.drawBuses");
            reveal_strlit("eeschema.");
            assert("eeschema.InteractiveDrawingLineWireBus.drawBuses"@.subrange(0, 9) =~= "eeschema."@);
            assert("eeschema.InteractiveDrawingLineWireBus.drawBuses"@[8] == '.' && "eeschema.InteractiveDrawingLineWireBus.drawBuses"@[38] == '.');
        },
        Tool::PlaceBusEntry => {
            reveal_strlit("eeschema.InteractiveDrawing.placeBusWireEntry");
            reveal_strlit("eeschema.");
            assert("eeschema.InteractiveDrawing.placeBusWireEntry"@.subrange(0, 9) =~= "eeschema."@);
            assert("eeschema.InteractiveDrawing.placeBusWireEntry"@[8] == '.' && "eeschema.InteractiveDrawing.placeBusWireEntry"@[27] == '.');
        },
        Tool::PlaceJunction => {
            reveal_strlit("eeschema.InteractiveDrawing.placeJunction");
            reveal_strlit("eeschema.");
            assert("eeschema.InteractiveDrawing.placeJunction"@.subrange(0, 9) =~= "eeschema."@);
            assert("eeschema.InteractiveDrawing.placeJunction"@[8] == '.' && "eeschema.InteractiveDrawing.placeJunction"@[27] == '.');
        },
        Tool::PlaceNoConnect => {
            reveal_strlit("eeschema.InteractiveDrawing.placeNoConnect");
            reveal_strlit("eeschema.");
            assert("eeschema.InteractiveDrawing.placeNoConnect"@.subrange(0, 9) =~= "eeschema."@);
            assert("eeschema.InteractiveDrawing.placeNoConnect"@[8] == '.' && "eeschema.InteractiveDrawing.placeNoConnect"@[27] == '.');
        },
        Tool::PlaceLabel => {
            reveal_strlit("eeschema.InteractiveDrawing.placeLabel");
            reveal_strlit("eeschema.");
            assert("eeschema.InteractiveDrawing.placeLabel"@.subrange(0, 9) =~= "eeschema."@);
            assert("eeschema.InteractiveDrawing.placeLabel"@[8] == '.' && "eeschema.InteractiveDrawing.placeLabel"@[27] == '.');
        },
        Tool::PlaceGlobalLabel => {
            reveal_strlit("eeschema.InteractiveDrawing.placeGlobalLabel");
            reveal_strlit("eeschema.");
            assert("eeschema.InteractiveDrawing.placeGlobalLabel"@.subrange(0, 9) =~= "eeschema."@);
            assert("eeschema.InteractiveDrawing.placeGlobalLabel"@[8] == '.' && "eeschema.InteractiveDrawing.placeGlobalLabel"@[27] == '.');
        },
        Tool::PlaceHierLabel => {
            reveal_strlit("eeschema.InteractiveDrawing.placeHierarchicalLabel");
            reveal_strlit("eeschema.");
            assert("eeschema.InteractiveDrawing.placeHierarchicalLabel"@.subrange(0, 9) =~= "eeschema."@);
            assert("eeschema.InteractiveDrawing.placeHierarchicalLabel"@[8] == '.' && "eeschema.InteractiveDrawing.placeHierarchicalLabel"@[27] == '.');
        },
        Tool::DrawSheet => {
            reveal_strlit("eeschema.InteractiveDrawing.drawSheet");
            reveal_strlit("eeschema.");
            assert("eeschema.InteractiveDrawing.drawSheet"@.subrange(0, 9) =~= "eeschema."@);
            assert("eeschema.InteractiveDrawing.drawSheet"@[8] == '.' && "eeschema.InteractiveDrawing.drawSheet"@[27] == '.');
        },
        Tool::PlaceText => {
            reveal_strlit("eeschema.InteractiveDrawing.placeSchematicText");
            reveal_strlit("eeschema.");
            assert("eeschema.InteractiveDrawing.placeSchematicText"@.subrange(0, 9) =~= "eeschema."@);
            assert("eeschema.InteractiveDrawing.placeSchematicText"@[8] == '.' && "eeschema.InteractiveDrawing.placeSchematicText"@[27] == '.');
        },
        Tool::DrawRectangle => {
            reveal_strlit("eeschema.InteractiveDrawing.drawRectangle");
            reveal_strlit("eeschema.");
            assert("eeschema.InteractiveDrawing.drawRectangle"@.subrange(0, 9) =~= "eeschema."@);
            assert("eeschema.InteractiveDrawing.drawRectangle"@[8] == '.' && "eeschema.InteractiveDrawing.drawRectangle"@[27] == '.');
        },
        Tool::DrawCircle => {
            reveal_strlit("eeschema.InteractiveDrawing.drawCircle");
            reveal_strlit("eeschema.");
            assert("eeschema.InteractiveDrawing.drawCircle"@.subrange(0, 9) =~= "eeschema."@);
            assert("eeschema.InteractiveDrawing.drawCircle"@[8] == '.' && "eeschema.InteractiveDrawing.drawCircle"@[27] == '.');
        },
        Tool::DrawArc => {
            reveal_strlit("eeschema.InteractiveDrawing.drawArc");
            reveal_strlit("eeschema.");
            assert("eeschema.InteractiveDrawing.drawArc"@.subrange(0, 9) =~= "eeschema."@);
            assert("eeschema.InteractiveDrawing.drawArc"@[8] == '.' && "eeschema.InteractiveDrawing.drawArc"@[27] == '.');
        },
        Tool::DrawLine => {
            reveal_strlit("eeschema.InteractiveDrawingLineWireBus.drawLines");
            reveal_strlit("eeschema.");
            assert("eeschema.InteractiveDrawingLineWireBus.drawLines"@.subrange(0, 9) =~= "eeschema."@);
            assert("eeschema.InteractiveDrawingLineWireBus.drawLines"@[8] == '.' && "eeschema.InteractiveDrawingLineWireBus.drawLines"@[38] == '.');
        },
        Tool::PlaceImage => {
            reveal_strlit("eeschema.InteractiveDrawing.placeImage");
            reveal_strlit("eeschema.");
            assert("eeschema.InteractiveDrawing.placeImage"@.subrange(0, 9) =~= "eeschema."@);
            assert("eeschema.InteractiveDrawing.placeImage"@[8] == '.' && "eeschema.InteractiveDrawing.placeImage"@[27] == '.');
        },
        Tool::DeleteItems => {
            reveal_strlit("common.Interactive.deleteTool");
            reveal_strlit("common.");
            assert("common.Interactive.deleteTool"@.subrange(0, 7) =~= "common."@);
            assert("common.Interactive.deleteTool"@[6] == '.' && "common.Interactive.deleteTool"@[18] == '.');
        },
        Tool::Measure => {
            reveal_strlit("common.Interactive.measureTool");
            reveal_strlit("common.");
            assert("common.Interactive.measureTool"@.subrange(0, 7) =~= "common."@);
            assert("common.Interactive.measureTool"@[6] == '.' && "common.Interactive.measureTool"@[18] == '.');
        },
    }
}

/// Looking a tool up by its own button id finds that tool: whatever a lookup
/// that meets `tool_for_button`'s contract returns for the id of `tool`'s
/// button is `tool` itself.
pub proof fn lemma_button_round_trip(tool: Tool, found: Option<Tool>)
    requires
        match found {
            Some(t) => tool_spec(t).button_id@ == tool_spec(tool).button_id@,
            None => forall|t: Tool| tool_spec(t).button_id@ != tool_spec(tool).button_id@,
        },
    ensures
        found == Some(tool),
{
    if let Some(t) = found {
        if t != tool {
            lemma_button_ids_distinct(t, tool);
        }
    }
}

} // verus!
