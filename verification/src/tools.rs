//! The tool palette: which drawing tools exist and how they present.
//!
//! Every entry names a real KiCad `TOOL_ACTION` (the strings come from
//! `eeschema/tools/sch_actions.cpp` and `common/tool/actions.cpp`). The table
//! is written once, as [`tool_spec`], and the executable lookups are proved to
//! agree with it; the facts the rest of the shell leans on — every tool has one
//! row, button ids, action names and hotkeys are distinct, every action name is
//! a namespaced KiCad name — are proved about it in [`crate::tool_facts`].

use vstd::prelude::*;
use crate::input::ToolId;
use crate::text::str_eq;

verus! {

/// A drawing tool the user can have active.
///
/// Ordered as the left palette presents them: pointer tools, then the things
/// that carry a net, then the things that carry a name, then sheets, then
/// graphics, then the utilities.
#[derive(Clone, Copy, Debug, PartialEq, Eq, Hash, PartialOrd, Ord, Structural)]
pub enum Tool {
    /// Pick and edit existing items. The tool a session starts in.
    Select,
    /// Click a net to highlight everything it reaches.
    HighlightNet,
    /// Place a symbol from a library.
    PlaceSymbol,
    /// Place a power port.
    PlacePower,
    /// Draw wires.
    DrawWire,
    /// Draw buses.
    DrawBus,
    /// Place a wire-to-bus entry.
    PlaceBusEntry,
    /// Place a junction dot.
    PlaceJunction,
    /// Place a no-connect flag.
    PlaceNoConnect,
    /// Place a local net label.
    PlaceLabel,
    /// Place a global label.
    PlaceGlobalLabel,
    /// Place a hierarchical label.
    PlaceHierLabel,
    /// Draw a hierarchical sheet.
    DrawSheet,
    /// Place free text.
    PlaceText,
    /// Draw a graphic rectangle.
    DrawRectangle,
    /// Draw a graphic circle.
    DrawCircle,
    /// Draw a graphic arc.
    DrawArc,
    /// Draw graphic lines.
    DrawLine,
    /// Place a bitmap image.
    PlaceImage,
    /// Click items to delete them.
    DeleteItems,
    /// Measure a distance.
    Measure,
}

/// The palette icon a tool or a command row shows.
#[derive(Clone, Copy, Debug, PartialEq, Eq, Hash, Structural)]
pub enum Icon {
    /// The `MousePointer2` glyph.
    MousePointer2,
    /// The `Highlighter` glyph.
    Highlighter,
    /// The `Component` glyph.
    Component,
    /// The `PlugZap` glyph.
    PlugZap,
    /// The `Spline` glyph.
    Spline,
    /// The `Route` glyph.
    Route,
    /// The `CornerDownRight` glyph.
    CornerDownRight,
    /// The `CircleDot` glyph.
    CircleDot,
    /// The `X` glyph.
    X,
    /// The `Tag` glyph.
    Tag,
    /// The `Globe` glyph.
    Globe,
    /// The `Network` glyph.
    Network,
    /// The `SquareDashed` glyph.
    SquareDashed,
    /// The `Type` glyph.
    Type,
    /// The `Square` glyph.
    Square,
    /// The `Circle` glyph.
    Circle,
    /// The `PenLine` glyph.
    PenLine,
    /// The `Image` glyph.
    Image,
    /// The `Eraser` glyph.
    Eraser,
    /// The `Ruler` glyph.
    Ruler,
}

/// The pointer shape while a tool is active over the canvas.
#[derive(Clone, Copy, Debug, PartialEq, Eq, Hash, Structural)]
pub enum Cursor {
    /// The `Arrow` pointer.
    Arrow,
    /// The `PointingHand` pointer.
    PointingHand,
    /// The `Crosshair` pointer.
    Crosshair,
    /// The `IBeam` pointer.
    IBeam,
}

/// How a tool presents in the palette and what it means to the host.
#[derive(Clone, Copy, Debug)]
pub struct ToolSpec {
    /// The tool itself.
    pub tool: Tool,
    /// The KiCad `TOOL_ACTION` name this tool activates.
    pub id: ToolId,
    /// Element id for the palette button, and the handle tests reach it by.
    pub button_id: &'static str,
    /// Human-readable name, shown in the tooltip and the command palette.
    pub label: &'static str,
    /// One line of help, shown under the label in the tooltip.
    pub description: &'static str,
    /// The palette icon.
    pub icon: Icon,
    /// Default hotkey, as a gpui keystroke string, or `None` for tools KiCad
    /// does not bind by default.
    pub shortcut: Option<&'static str>,
    /// The pointer shape while the tool is active over the canvas.
    pub cursor: Cursor,
    /// Whether the palette draws a separator *before* this tool, which is how
    /// the groups above are made visible without labelling them.
    pub group_break: bool,
}

/// Number of tools in the palette.
pub const TOOL_COUNT: usize = 21;

/// The tool at position `index` of the palette, for `index` in
/// `0..TOOL_COUNT`.
pub open spec fn palette_tool(index: int) -> Tool {
    if index == 0 {
        Tool::Select
    } else if index == 1 {
        Tool::HighlightNet
    } else if index == 2 {
        Tool::PlaceSymbol
    } else if index == 3 {
        Tool::PlacePower
    } else if index == 4 {
        Tool::DrawWire
    } else if index == 5 {
        Tool::DrawBus
    } else if index == 6 {
        Tool::PlaceBusEntry
    } else if index == 7 {
        Tool::PlaceJunction
    } else if index == 8 {
        Tool::PlaceNoConnect
    } else if index == 9 {
        Tool::PlaceLabel
    } else if index == 10 {
        Tool::PlaceGlobalLabel
    } else if index == 11 {
        Tool::PlaceHierLabel
    } else if index == 12 {
        Tool::DrawSheet
    } else if index == 13 {
        Tool::PlaceText
    } else if index == 14 {
        Tool::DrawRectangle
    } else if index == 15 {
        Tool::DrawCircle
    } else if index == 16 {
        Tool::DrawArc
    } else if index == 17 {
        Tool::DrawLine
    } else if index == 18 {
        Tool::PlaceImage
    } else if index == 19 {
        Tool::DeleteItems
    } else {
        Tool::Measure
    }
}

/// The position of `tool` in the palette.
pub open spec fn palette_index(tool: Tool) -> int {
    match tool {
        Tool::Select => 0,
        Tool::HighlightNet => 1,
        Tool::PlaceSymbol => 2,
        Tool::PlacePower => 3,
        Tool::DrawWire => 4,
        Tool::DrawBus => 5,
        Tool::PlaceBusEntry => 6,
        Tool::PlaceJunction => 7,
        Tool::PlaceNoConnect => 8,
        Tool::PlaceLabel => 9,
        Tool::PlaceGlobalLabel => 10,
        Tool::PlaceHierLabel => 11,
        Tool::DrawSheet => 12,
        Tool::PlaceText => 13,
        Tool::DrawRectangle => 14,
        Tool::DrawCircle => 15,
        Tool::DrawArc => 16,
        Tool::DrawLine => 17,
        Tool::PlaceImage => 18,
        Tool::DeleteItems => 19,
        Tool::Measure => 20,
    }
}

/// The row of the tool table that describes `tool`.
pub open spec fn tool_spec(tool: Tool) -> ToolSpec {
    match tool {
        Tool::Select => ToolSpec {
                tool: Tool::Select,
                id: ToolId("common.InteractiveSelection.selectionTool"),
                button_id: "tool-select",
                label: "Select",
                description: "Select and edit items (Esc)",
                icon: Icon::MousePointer2,
                shortcut: None,
                cursor: Cursor::Arrow,
                group_break: false,
            },
        Tool::HighlightNet => ToolSpec {
                tool: Tool::HighlightNet,
                id: ToolId("eeschema.EditorControl.highlightNetTool"),
                button_id: "tool-highlight",
                label: "Highlight Net",
                description: "Highlight every wire on the net under the cursor",
                icon: Icon::Highlighter,
                shortcut: Some("`"),
                cursor: Cursor::PointingHand,
                group_break: false,
            },
        Tool::PlaceSymbol => ToolSpec {
                tool: Tool::PlaceSymbol,
                id: ToolId("eeschema.InteractiveDrawing.placeSymbol"),
                button_id: "tool-symbol",
                label: "Place Symbol",
                description: "Choose a symbol from a library and place it",
                icon: Icon::Component,
                shortcut: Some("a"),
                cursor: Cursor::Crosshair,
                group_break: true,
            },
        Tool::PlacePower => ToolSpec {
                tool: Tool::PlacePower,
                id: ToolId("eeschema.InteractiveDrawing.placePowerSymbol"),
                button_id: "tool-power",
                label: "Place Power Port",
                description: "Place a power or ground symbol",
                icon: Icon::PlugZap,
                shortcut: Some("p"),
                cursor: Cursor::Crosshair,
                group_break: false,
            },
        Tool::DrawWire => ToolSpec {
                tool: Tool::DrawWire,
                id: ToolId("eeschema.InteractiveDrawingLineWireBus.drawWires"),
                button_id: "tool-wire",
                label: "Draw Wire",
                description: "Draw a wire between two points",
                icon: Icon::Spline,
                shortcut: Some("w"),
                cursor: Cursor::Crosshair,
                group_break: true,
            },
        Tool::DrawBus => ToolSpec {
                tool: Tool::DrawBus,
                id: ToolId("eeschema.InteractiveDrawingLineWireBus.drawBuses"),
                button_id: "tool-bus",
                label: "Draw Bus",
                description: "Draw a bus between two points",
                icon: Icon::Route,
                shortcut: Some("b"),
                cursor: Cursor::Crosshair,
                group_break: false,
            },
        Tool::PlaceBusEntry => ToolSpec {
                tool: Tool::PlaceBusEntry,
                id: ToolId("eeschema.InteractiveDrawing.placeBusWireEntry"),
                button_id: "tool-bus-entry",
                label: "Place Bus Entry",
                description: "Place a wire-to-bus entry",
                icon: Icon::CornerDownRight,
                shortcut: None,
                cursor: Cursor::Crosshair,
                group_break: false,
            },
        Tool::PlaceJunction => ToolSpec {
                tool: Tool::PlaceJunction,
                id: ToolId("eeschema.InteractiveDrawing.placeJunction"),
                button_id: "tool-junction",
                label: "Place Junction",
                description: "Place a junction dot where wires cross",
                icon: Icon::CircleDot,
                shortcut: Some("j"),
                cursor: Cursor::Crosshair,
                group_break: false,
            },
        Tool::PlaceNoConnect => ToolSpec {
                tool: Tool::PlaceNoConnect,
                id: ToolId("eeschema.InteractiveDrawing.placeNoConnect"),
                button_id: "tool-no-connect",
                label: "Place No-Connect Flag",
                description: "Mark a pin as intentionally unconnected",
                icon: Icon::X,
                shortcut: Some("q"),
                cursor: Cursor::Crosshair,
                group_break: false,
            },
        Tool::PlaceLabel => ToolSpec {
                tool: Tool::PlaceLabel,
                id: ToolId("eeschema.InteractiveDrawing.placeLabel"),
                button_id: "tool-label",
                label: "Place Net Label",
                description: "Name a net inside this sheet",
                icon: Icon::Tag,
                shortcut: Some("l"),
                cursor: Cursor::Crosshair,
                group_break: true,
            },
        Tool::PlaceGlobalLabel => ToolSpec {
                tool: Tool::PlaceGlobalLabel,
                id: ToolId("eeschema.InteractiveDrawing.placeGlobalLabel"),
                button_id: "tool-global-label",
                label: "Place Global Label",
                description: "Name a net across the whole design",
                icon: Icon::Globe,
                shortcut: Some("ctrl-l"),
                cursor: Cursor::Crosshair,
                group_break: false,
            },
        Tool::PlaceHierLabel => ToolSpec {
                tool: Tool::PlaceHierLabel,
                id: ToolId("eeschema.InteractiveDrawing.placeHierarchicalLabel"),
                button_id: "tool-hier-label",
                label: "Place Hierarchical Label",
                description: "Name a net at this sheet's boundary",
                icon: Icon::Network,
                shortcut: Some("h"),
                cursor: Cursor::Crosshair,
                group_break: false,
            },
        Tool::DrawSheet => ToolSpec {
                tool: Tool::DrawSheet,
                id: ToolId("eeschema.InteractiveDrawing.drawSheet"),
                button_id: "tool-sheet",
                label: "Draw Sheet",
                description: "Add a hierarchical sub-sheet",
                icon: Icon::SquareDashed,
                shortcut: Some("s"),
                cursor: Cursor::Crosshair,
                group_break: true,
            },
        Tool::PlaceText => ToolSpec {
                tool: Tool::PlaceText,
                id: ToolId("eeschema.InteractiveDrawing.placeSchematicText"),
                button_id: "tool-text",
                label: "Place Text",
                description: "Add a free-standing text note",
                icon: Icon::Type,
                shortcut: Some("t"),
                cursor: Cursor::IBeam,
                group_break: false,
            },
        Tool::DrawRectangle => ToolSpec {
                tool: Tool::DrawRectangle,
                id: ToolId("eeschema.InteractiveDrawing.drawRectangle"),
                button_id: "tool-rectangle",
                label: "Draw Rectangle",
                description: "Draw a graphic rectangle",
                icon: Icon::Square,
                shortcut: None,
                cursor: Cursor::Crosshair,
                group_break: true,
            },
        Tool::DrawCircle => ToolSpec {
                tool: Tool::DrawCircle,
                id: ToolId("eeschema.InteractiveDrawing.drawCircle"),
                button_id: "tool-circle",
                label: "Draw Circle",
                description: "Draw a graphic circle",
                icon: Icon::Circle,
                shortcut: None,
                cursor: Cursor::Crosshair,
                group_break: false,
            },
        Tool::DrawArc => ToolSpec {
                tool: Tool::DrawArc,
                id: ToolId("eeschema.InteractiveDrawing.drawArc"),
                button_id: "tool-arc",
                label: "Draw Arc",
                description: "Draw a graphic arc",
                icon: Icon::Spline,
                shortcut: None,
                cursor: Cursor::Crosshair,
                group_break: false,
            },
        Tool::DrawLine => ToolSpec {
                tool: Tool::DrawLine,
                id: ToolId("eeschema.InteractiveDrawingLineWireBus.drawLines"),
                button_id: "tool-line",
                label: "Draw Lines",
                description: "Draw graphic lines that carry no net",
                icon: Icon::PenLine,
                shortcut: None,
                cursor: Cursor::Crosshair,
                group_break: false,
            },
        Tool::PlaceImage => ToolSpec {
                tool: Tool::PlaceImage,
                id: ToolId("eeschema.InteractiveDrawing.placeImage"),
                button_id: "tool-image",
                label: "Place Image",
                description: "Place a bitmap image on the sheet",
                icon: Icon::Image,
                shortcut: None,
                cursor: Cursor::Crosshair,
                group_break: false,
            },
        Tool::DeleteItems => ToolSpec {
                tool: Tool::DeleteItems,
                id: ToolId("common.Interactive.deleteTool"),
                button_id: "tool-delete",
                label: "Delete Items",
                description: "Click items to delete them",
                icon: Icon::Eraser,
                shortcut: None,
                cursor: Cursor::Crosshair,
                group_break: true,
            },
        Tool::Measure => ToolSpec {
                tool: Tool::Measure,
                id: ToolId("common.Interactive.measureTool"),
                button_id: "tool-measure",
                label: "Measure",
                description: "Measure the distance between two points",
                icon: Icon::Ruler,
                shortcut: Some("ctrl-shift-m"),
                cursor: Cursor::Crosshair,
                group_break: false,
            },
    }
}

impl Tool {
    /// The presentation and identity of this tool.
    pub fn spec(self) -> (spec: ToolSpec)
        ensures
            spec == tool_spec(self),
    {
        match self {
            Tool::Select => ToolSpec {
                    tool: Tool::Select,
                    id: ToolId("common.InteractiveSelection.selectionTool"),
                    button_id: "tool-select",
                    label: "Select",
                    description: "Select and edit items (Esc)",
                    icon: Icon::MousePointer2,
                    shortcut: None,
                    cursor: Cursor::Arrow,
                    group_break: false,
                },
            Tool::HighlightNet => ToolSpec {
                    tool: Tool::HighlightNet,
                    id: ToolId("eeschema.EditorControl.highlightNetTool"),
                    button_id: "tool-highlight",
                    label: "Highlight Net",
                    description: "Highlight every wire on the net under the cursor",
                    icon: Icon::Highlighter,
                    shortcut: Some("`"),
                    cursor: Cursor::PointingHand,
                    group_break: false,
                },
            Tool::PlaceSymbol => ToolSpec {
                    tool: Tool::PlaceSymbol,
                    id: ToolId("eeschema.InteractiveDrawing.placeSymbol"),
                    button_id: "tool-symbol",
                    label: "Place Symbol",
                    description: "Choose a symbol from a library and place it",
                    icon: Icon::Component,
                    shortcut: Some("a"),
                    cursor: Cursor::Crosshair,
                    group_break: true,
                },
            Tool::PlacePower => ToolSpec {
                    tool: Tool::PlacePower,
                    id: ToolId("eeschema.InteractiveDrawing.placePowerSymbol"),
                    button_id: "tool-power",
                    label: "Place Power Port",
                    description: "Place a power or ground symbol",
                    icon: Icon::PlugZap,
                    shortcut: Some("p"),
                    cursor: Cursor::Crosshair,
                    group_break: false,
                },
            Tool::DrawWire => ToolSpec {
                    tool: Tool::DrawWire,
                    id: ToolId("eeschema.InteractiveDrawingLineWireBus.drawWires"),
                    button_id: "tool-wire",
                    label: "Draw Wire",
                    description: "Draw a wire between two points",
                    icon: Icon::Spline,
                    shortcut: Some("w"),
                    cursor: Cursor::Crosshair,
                    group_break: true,
                },
            Tool::DrawBus => ToolSpec {
                    tool: Tool::DrawBus,
                    id: ToolId("eeschema.InteractiveDrawingLineWireBus.drawBuses"),
                    button_id: "tool-bus",
                    label: "Draw Bus",
                    description: "Draw a bus between two points",
                    icon: Icon::Route,
                    shortcut: Some("b"),
                    cursor: Cursor::Crosshair,
                    group_break: false,
                },
            Tool::PlaceBusEntry => ToolSpec {
                    tool: Tool::PlaceBusEntry,
                    id: ToolId("eeschema.InteractiveDrawing.placeBusWireEntry"),
                    button_id: "tool-bus-entry",
                    label: "Place Bus Entry",
                    description: "Place a wire-to-bus entry",
                    icon: Icon::CornerDownRight,
                    shortcut: None,
                    cursor: Cursor::Crosshair,
                    group_break: false,
                },
            Tool::PlaceJunction => ToolSpec {
                    tool: Tool::PlaceJunction,
                    id: ToolId("eeschema.InteractiveDrawing.placeJunction"),
                    button_id: "tool-junction",
                    label: "Place Junction",
                    description: "Place a junction dot where wires cross",
                    icon: Icon::CircleDot,
                    shortcut: Some("j"),
                    cursor: Cursor::Crosshair,
                    group_break: false,
                },
            Tool::PlaceNoConnect => ToolSpec {
                    tool: Tool::PlaceNoConnect,
                    id: ToolId("eeschema.InteractiveDrawing.placeNoConnect"),
                    button_id: "tool-no-connect",
                    label: "Place No-Connect Flag",
                    description: "Mark a pin as intentionally unconnected",
                    icon: Icon::X,
                    shortcut: Some("q"),
                    cursor: Cursor::Crosshair,
                    group_break: false,
                },
            Tool::PlaceLabel => ToolSpec {
                    tool: Tool::PlaceLabel,
                    id: ToolId("eeschema.InteractiveDrawing.placeLabel"),
                    button_id: "tool-label",
                    label: "Place Net Label",
                    description: "Name a net inside this sheet",
                    icon: Icon::Tag,
                    shortcut: Some("l"),
                    cursor: Cursor::Crosshair,
                    group_break: true,
                },
            Tool::PlaceGlobalLabel => ToolSpec {
                    tool: Tool::PlaceGlobalLabel,
                    id: ToolId("eeschema.InteractiveDrawing.placeGlobalLabel"),
                    button_id: "tool-global-label",
                    label: "Place Global Label",
                    description: "Name a net across the whole design",
                    icon: Icon::Globe,
                    shortcut: Some("ctrl-l"),
                    cursor: Cursor::Crosshair,
                    group_break: false,
                },
            Tool::PlaceHierLabel => ToolSpec {
                    tool: Tool::PlaceHierLabel,
                    id: ToolId("eeschema.InteractiveDrawing.placeHierarchicalLabel"),
                    button_id: "tool-hier-label",
                    label: "Place Hierarchical Label",
                    description: "Name a net at this sheet's boundary",
                    icon: Icon::Network,
                    shortcut: Some("h"),
                    cursor: Cursor::Crosshair,
                    group_break: false,
                },
            Tool::DrawSheet => ToolSpec {
                    tool: Tool::DrawSheet,
                    id: ToolId("eeschema.InteractiveDrawing.drawSheet"),
                    button_id: "tool-sheet",
                    label: "Draw Sheet",
                    description: "Add a hierarchical sub-sheet",
                    icon: Icon::SquareDashed,
                    shortcut: Some("s"),
                    cursor: Cursor::Crosshair,
                    group_break: true,
                },
            Tool::PlaceText => ToolSpec {
                    tool: Tool::PlaceText,
                    id: ToolId("eeschema.InteractiveDrawing.placeSchematicText"),
                    button_id: "tool-text",
                    label: "Place Text",
                    description: "Add a free-standing text note",
                    icon: Icon::Type,
                    shortcut: Some("t"),
                    cursor: Cursor::IBeam,
                    group_break: false,
                },
            Tool::DrawRectangle => ToolSpec {
                    tool: Tool::DrawRectangle,
                    id: ToolId("eeschema.InteractiveDrawing.drawRectangle"),
                    button_id: "tool-rectangle",
                    label: "Draw Rectangle",
                    description: "Draw a graphic rectangle",
                    icon: Icon::Square,
                    shortcut: None,
                    cursor: Cursor::Crosshair,
                    group_break: true,
                },
            Tool::DrawCircle => ToolSpec {
                    tool: Tool::DrawCircle,
                    id: ToolId("eeschema.InteractiveDrawing.drawCircle"),
                    button_id: "tool-circle",
                    label: "Draw Circle",
                    description: "Draw a graphic circle",
                    icon: Icon::Circle,
                    shortcut: None,
                    cursor: Cursor::Crosshair,
                    group_break: false,
                },
            Tool::DrawArc => ToolSpec {
                    tool: Tool::DrawArc,
                    id: ToolId("eeschema.InteractiveDrawing.drawArc"),
                    button_id: "tool-arc",
                    label: "Draw Arc",
                    description: "Draw a graphic arc",
                    icon: Icon::Spline,
                    shortcut: None,
                    cursor: Cursor::Crosshair,
                    group_break: false,
                },
            Tool::DrawLine => ToolSpec {
                    tool: Tool::DrawLine,
                    id: ToolId("eeschema.InteractiveDrawingLineWireBus.drawLines"),
                    button_id: "tool-line",
                    label: "Draw Lines",
                    description: "Draw graphic lines that carry no net",
                    icon: Icon::PenLine,
                    shortcut: None,
                    cursor: Cursor::Crosshair,
                    group_break: false,
                },
            Tool::PlaceImage => ToolSpec {
                    tool: Tool::PlaceImage,
                    id: ToolId("eeschema.InteractiveDrawing.placeImage"),
                    button_id: "tool-image",
                    label: "Place Image",
                    description: "Place a bitmap image on the sheet",
                    icon: Icon::Image,
                    shortcut: None,
                    cursor: Cursor::Crosshair,
                    group_break: false,
                },
            Tool::DeleteItems => ToolSpec {
                    tool: Tool::DeleteItems,
                    id: ToolId("common.Interactive.deleteTool"),
                    button_id: "tool-delete",
                    label: "Delete Items",
                    description: "Click items to delete them",
                    icon: Icon::Eraser,
                    shortcut: None,
                    cursor: Cursor::Crosshair,
                    group_break: true,
                },
            Tool::Measure => ToolSpec {
                    tool: Tool::Measure,
                    id: ToolId("common.Interactive.measureTool"),
                    button_id: "tool-measure",
                    label: "Measure",
                    description: "Measure the distance between two points",
                    icon: Icon::Ruler,
                    shortcut: Some("ctrl-shift-m"),
                    cursor: Cursor::Crosshair,
                    group_break: false,
                },
        }
    }

    /// The KiCad action name this tool activates.
    pub fn id(self) -> (id: ToolId)
        ensures
            id == tool_spec(self).id,
    {
        self.spec().id
    }

    /// The tool's display name.
    pub fn label(self) -> (label: &'static str)
        ensures
            label == tool_spec(self).label,
    {
        self.spec().label
    }
}

/// The tool at position `index` of the palette.
pub fn palette_tool_at(index: usize) -> (tool: Tool)
    requires
        index < TOOL_COUNT,
    ensures
        tool == palette_tool(index as int),
{
    match index {
        0 => Tool::Select,
        1 => Tool::HighlightNet,
        2 => Tool::PlaceSymbol,
        3 => Tool::PlacePower,
        4 => Tool::DrawWire,
        5 => Tool::DrawBus,
        6 => Tool::PlaceBusEntry,
        7 => Tool::PlaceJunction,
        8 => Tool::PlaceNoConnect,
        9 => Tool::PlaceLabel,
        10 => Tool::PlaceGlobalLabel,
        11 => Tool::PlaceHierLabel,
        12 => Tool::DrawSheet,
        13 => Tool::PlaceText,
        14 => Tool::DrawRectangle,
        15 => Tool::DrawCircle,
        16 => Tool::DrawArc,
        17 => Tool::DrawLine,
        18 => Tool::PlaceImage,
        19 => Tool::DeleteItems,
        _ => Tool::Measure,
    }
}

/// Every tool, in palette order.
pub fn tools() -> (specs: Vec<ToolSpec>)
    ensures
        specs@.len() == TOOL_COUNT,
        forall|i: int| 0 <= i < TOOL_COUNT ==> #[trigger] specs@[i] == tool_spec(palette_tool(i)),
{
    let mut specs: Vec<ToolSpec> = Vec::new();
    let mut i: usize = 0;
    while i < TOOL_COUNT
        invariant
            i <= TOOL_COUNT,
            specs@.len() == i,
            forall|j: int| 0 <= j < i ==> #[trigger] specs@[j] == tool_spec(palette_tool(j)),
        decreases TOOL_COUNT - i,
    {
        specs.push(palette_tool_at(i).spec());
        i = i + 1;
    }
    specs
}

/// Look a tool up by the element id of its palette button: the tool whose
/// button carries `button_id`, or `None` when no button does. (Button ids are
/// distinct, `lemma_button_ids_distinct`, so at most one tool matches.)
pub fn tool_for_button(button_id: &str) -> (found: Option<Tool>)
    ensures
        match found {
            Some(tool) => tool_spec(tool).button_id@ == button_id@,
            None => forall|tool: Tool| tool_spec(tool).button_id@ != button_id@,
        },
{
    let specs = tools();
    let mut i: usize = 0;
    while i < TOOL_COUNT
        invariant
            i <= TOOL_COUNT,
            specs@.len() == TOOL_COUNT,
            forall|j: int| 0 <= j < TOOL_COUNT ==> #[trigger] specs@[j] == tool_spec(palette_tool(j)),
            forall|j: int|
                0 <= j < i ==> tool_spec(#[trigger] palette_tool(j)).button_id@ != button_id@,
        decreases TOOL_COUNT - i,
    {
        if str_eq(specs[i].button_id, button_id) {
            proof {
                lemma_palette_order(i as int);
            }
            return Some(specs[i].tool);
        }
        i = i + 1;
    }
    proof {
        assert forall|tool: Tool| tool_spec(tool).button_id@ != button_id@ by {
            lemma_every_tool_has_a_row(tool);
            assert(palette_tool(palette_index(tool)) == tool);
        }
    }
    None
}

/// The palette order and the tool table agree: the tool at a position is the
/// one its row names, and its index is that position.
pub proof fn lemma_palette_order(index: int)
    requires
        0 <= index < TOOL_COUNT,
    ensures
        palette_index(palette_tool(index)) == index,
        tool_spec(palette_tool(index)).tool == palette_tool(index),
{
}

/// Every tool has exactly one place in the palette, and its row describes it.
pub proof fn lemma_every_tool_has_a_row(tool: Tool)
    ensures
        0 <= palette_index(tool) < TOOL_COUNT,
        palette_tool(palette_index(tool)) == tool,
        tool_spec(tool).tool == tool,
{
}

} // verus!
