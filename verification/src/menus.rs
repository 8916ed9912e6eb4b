//! The menu bar's layout: which menus exist, what they hold, in what order.
//!
//! This is layout only. What a command is called and which key it answers to
//! at run time comes from the host's registry (see `crate::catalogue`); the
//! labels and keys here are the standalone defaults.

use vstd::prelude::*;
use crate::commands::{CommandKind, CommandSpec};
use crate::shell_commands::ShellCommand;
use crate::tools::Tool;

verus! {

/// An entry in a menu.
#[derive(Debug)]
pub enum MenuEntry {
    /// A horizontal rule.
    Separator,
    /// A nested menu.
    Submenu {
        /// The submenu's title.
        label: &'static str,
        /// Its entries.
        items: Vec<MenuEntry>,
    },
    /// An invocable command.
    Command(CommandSpec),
}

/// A top-level menu.
#[derive(Debug)]
pub struct MenuDef {
    /// The title on the menu bar.
    pub name: &'static str,
    /// Its entries.
    pub items: Vec<MenuEntry>,
}

/// The content of a [`MenuEntry`].
pub enum EntryView {
    /// A horizontal rule.
    Separator,
    /// A nested menu: its title and entries.
    Submenu(Seq<char>, Seq<EntryView>),
    /// An invocable command.
    Command(CommandSpec),
}

/// The content of a [`MenuDef`]: its title and entries.
pub struct MenuView {
    /// The title on the menu bar.
    pub name: Seq<char>,
    /// Its entries.
    pub items: Seq<EntryView>,
}

/// The content of one entry.
pub open spec fn entry_view(entry: MenuEntry) -> EntryView
    decreases entry, 1int,
{
    match entry {
        MenuEntry::Separator => EntryView::Separator,
        MenuEntry::Submenu { label, items } => EntryView::Submenu(label@, entries_view(items@)),
        MenuEntry::Command(spec) => EntryView::Command(spec),
    }
}

/// The content of a list of entries.
pub open spec fn entries_view(items: Seq<MenuEntry>) -> Seq<EntryView>
    decreases items, 0int,
{
    if items.len() == 0 {
        Seq::empty()
    } else {
        entries_view(items.drop_last()).push(entry_view(items.last()))
    }
}



/// A command entry that forwards a KiCad action name.
pub open spec fn kicad_view(label: &'static str, id: &'static str, key: Option<&'static str>) -> EntryView {
    EntryView::Command(CommandSpec { label, kind: CommandKind::Kicad(id), key, icon: None })
}

/// A command entry the shell answers itself.
pub open spec fn shell_view(label: &'static str, command: ShellCommand, key: Option<&'static str>) -> EntryView {
    EntryView::Command(CommandSpec { label, kind: CommandKind::Shell(command), key, icon: None })
}

/// A command entry that activates a tool. Its label, key and icon come from
/// the tool table, so the two can never drift.
pub open spec fn tool_view(tool: Tool) -> EntryView {
    EntryView::Command(CommandSpec { label: "", kind: CommandKind::Tool(tool), key: None, icon: None })
}

/// A command entry that forwards a KiCad action name.
pub fn kicad(label: &'static str, id: &'static str, key: Option<&'static str>) -> (entry: MenuEntry)
    ensures
        entry_view(entry) == kicad_view(label, id, key),
{
    MenuEntry::Command(CommandSpec { label, kind: CommandKind::Kicad(id), key, icon: None })
}

/// A command entry the shell answers itself.
pub fn shell(label: &'static str, command: ShellCommand, key: Option<&'static str>) -> (entry: MenuEntry)
    ensures
        entry_view(entry) == shell_view(label, command, key),
{
    MenuEntry::Command(CommandSpec { label, kind: CommandKind::Shell(command), key, icon: None })
}

/// A command entry that activates a tool.
pub fn tool(which: Tool) -> (entry: MenuEntry)
    ensures
        entry_view(entry) == tool_view(which),
{
    MenuEntry::Command(CommandSpec { label: "", kind: CommandKind::Tool(which), key: None, icon: None })
}

/// A submenu holding `items`.
pub fn submenu(label: &'static str, items: Vec<MenuEntry>) -> (entry: MenuEntry)
    ensures
        entry_view(entry) == EntryView::Submenu(label@, entries_view(items@)),
{
    MenuEntry::Submenu { label, items }
}

/// Append `entry` to `items`.
pub fn push_entry(items: &mut Vec<MenuEntry>, entry: MenuEntry)
    ensures
        entries_view(final(items)@) == entries_view(old(items)@).push(entry_view(entry)),
{
    let ghost view = entry_view(entry);
    items.push(entry);
    assert(final(items)@.drop_last() =~= old(items)@);
}

/// The layout of `file_export`.
pub open spec fn file_export_layout() -> Seq<EntryView> {
    seq![
        kicad_view("Netlist...", "eeschema.EditorControl.exportNetlist", None),
        kicad_view("Bill of Materials...", "eeschema.EditorControl.generateBOM", None),
        kicad_view("Symbols to Library...", "eeschema.EditorControl.exportSymbolsToLibrary", None)
    ]
}

/// The entries of `file_export`.
fn file_export_items() -> (items: Vec<MenuEntry>)
    ensures
        entries_view(items@) == file_export_layout(),
{
    let mut items: Vec<MenuEntry> = Vec::new();
    push_entry(&mut items, kicad("Netlist...", "eeschema.EditorControl.exportNetlist", None));
    push_entry(&mut items, kicad("Bill of Materials...", "eeschema.EditorControl.generateBOM", None));
    push_entry(&mut items, kicad("Symbols to Library...", "eeschema.EditorControl.exportSymbolsToLibrary", None));
    items
}

/// The layout of `file`.
pub open spec fn file_layout() -> Seq<EntryView> {
    seq![
        kicad_view("New Schematic", "common.Control.new", Some("ctrl-n")),
        kicad_view("Open...", "common.Control.open", Some("ctrl-o")),
        EntryView::Separator,
        kicad_view("Save", "common.Control.save", Some("ctrl-s")),
        kicad_view("Save As...", "common.Control.saveAs", Some("ctrl-shift-s")),
        kicad_view("Save All", "common.Control.saveAll", None),
        kicad_view("Revert", "common.Control.revert", None),
        EntryView::Separator,
        kicad_view("Page Settings...", "common.Control.pageSettings", None),
        kicad_view("Print...", "common.Control.print", Some("ctrl-p")),
        kicad_view("Plot...", "common.Control.plot", None),
        EntryView::Separator,
        EntryView::Submenu("Export"@, file_export_layout()),
        EntryView::Separator,
        shell_view("Quit", ShellCommand::Quit, Some("ctrl-q"))
    ]
}

/// The entries of `file`.
fn file_items() -> (items: Vec<MenuEntry>)
    ensures
        entries_view(items@) == file_layout(),
{
    let mut items: Vec<MenuEntry> = Vec::new();
    push_entry(&mut items, kicad("New Schematic", "common.Control.new", Some("ctrl-n")));
    push_entry(&mut items, kicad("Open...", "common.Control.open", Some("ctrl-o")));
    push_entry(&mut items, MenuEntry::Separator);
    push_entry(&mut items, kicad("Save", "common.Control.save", Some("ctrl-s")));
    push_entry(&mut items, kicad("Save As...", "common.Control.saveAs", Some("ctrl-shift-s")));
    push_entry(&mut items, kicad("Save All", "common.Control.saveAll", None));
    push_entry(&mut items, kicad("Revert", "common.Control.revert", None));
    push_entry(&mut items, MenuEntry::Separator);
    push_entry(&mut items, kicad("Page Settings...", "common.Control.pageSettings", None));
    push_entry(&mut items, kicad("Print...", "common.Control.print", Some("ctrl-p")));
    push_entry(&mut items, kicad("Plot...", "common.Control.plot", None));
    push_entry(&mut items, MenuEntry::Separator);
    push_entry(&mut items, submenu("Export", file_export_items()));
    push_entry(&mut items, MenuEntry::Separator);
    push_entry(&mut items, shell("Quit", ShellCommand::Quit, Some("ctrl-q")));
    items
}

/// The layout of `edit`.
pub open spec fn edit_layout() -> Seq<EntryView> {
    seq![
        kicad_view("Undo", "common.Interactive.undo", Some("ctrl-z")),
        kicad_view("Redo", "common.Interactive.redo", Some("ctrl-y")),
        EntryView::Separator,
        kicad_view("Cut", "common.Interactive.cut", Some("ctrl-x")),
        kicad_view("Copy", "common.Interactive.copy", Some("ctrl-c")),
        kicad_view("Paste", "common.Interactive.paste", Some("ctrl-v")),
        kicad_view("Duplicate", "common.Interactive.duplicate", Some("ctrl-d")),
        kicad_view("Delete", "common.Interactive.delete", Some("delete")),
        kicad_view("Properties...", "eeschema.InteractiveEdit.properties", Some("e")),
        EntryView::Separator,
        kicad_view("Select All", "common.Interactive.selectAll", Some("ctrl-a")),
        kicad_view("Unselect All", "common.Interactive.unselectAll", Some("ctrl-shift-a")),
        EntryView::Separator,
        kicad_view("Find...", "common.Interactive.find", Some("ctrl-f")),
        kicad_view("Find and Replace...", "common.Interactive.findAndReplace", Some("ctrl-alt-f")),
        kicad_view("Find Next", "common.Interactive.findNext", Some("f3"))
    ]
}

/// The entries of `edit`.
fn edit_items() -> (items: Vec<MenuEntry>)
    ensures
        entries_view(items@) == edit_layout(),
{
    let mut items: Vec<MenuEntry> = Vec::new();
    push_entry(&mut items, kicad("Undo", "common.Interactive.undo", Some("ctrl-z")));
    push_entry(&mut items, kicad("Redo", "common.Interactive.redo", Some("ctrl-y")));
    push_entry(&mut items, MenuEntry::Separator);
    push_entry(&mut items, kicad("Cut", "common.Interactive.cut", Some("ctrl-x")));
    push_entry(&mut items, kicad("Copy", "common.Interactive.copy", Some("ctrl-c")));
    push_entry(&mut items, kicad("Paste", "common.Interactive.paste", Some("ctrl-v")));
    push_entry(&mut items, kicad("Duplicate", "common.Interactive.duplicate", Some("ctrl-d")));
    push_entry(&mut items, kicad("Delete", "common.Interactive.delete", Some("delete")));
    push_entry(&mut items, kicad("Properties...", "eeschema.InteractiveEdit.properties", Some("e")));
    push_entry(&mut items, MenuEntry::Separator);
    push_entry(&mut items, kicad("Select All", "common.Interactive.selectAll", Some("ctrl-a")));
    push_entry(&mut items, kicad("Unselect All", "common.Interactive.unselectAll", Some("ctrl-shift-a")));
    push_entry(&mut items, MenuEntry::Separator);
    push_entry(&mut items, kicad("Find...", "common.Interactive.find", Some("ctrl-f")));
    push_entry(&mut items, kicad("Find and Replace...", "common.Interactive.findAndReplace", Some("ctrl-alt-f")));
    push_entry(&mut items, kicad("Find Next", "common.Interactive.findNext", Some("f3")));
    items
}

/// The layout of `view_grid`.
pub open spec fn view_grid_layout() -> Seq<EntryView> {
    seq![
        shell_view("Show Grid", ShellCommand::ToggleGrid, None),
        shell_view("Next Grid Size", ShellCommand::CycleGrid, Some("alt-g")),
        EntryView::Separator,
        kicad_view("Grid Settings...", "common.Control.editGrids", None)
    ]
}

/// The entries of `view_grid`.
fn view_grid_items() -> (items: Vec<MenuEntry>)
    ensures
        entries_view(items@) == view_grid_layout(),
{
    let mut items: Vec<MenuEntry> = Vec::new();
    push_entry(&mut items, shell("Show Grid", ShellCommand::ToggleGrid, None));
    push_entry(&mut items, shell("Next Grid Size", ShellCommand::CycleGrid, Some("alt-g")));
    push_entry(&mut items, MenuEntry::Separator);
    push_entry(&mut items, kicad("Grid Settings...", "common.Control.editGrids", None));
    items
}

/// The layout of `view`.
pub open spec fn view_layout() -> Seq<EntryView> {
    seq![
        shell_view("Zoom In", ShellCommand::ZoomIn, Some("ctrl-=")),
        shell_view("Zoom Out", ShellCommand::ZoomOut, Some("ctrl--")),
        shell_view("Zoom to Fit Sheet", ShellCommand::ZoomToFit, Some("home")),
        shell_view("Zoom to Objects", ShellCommand::ZoomToObjects, Some("ctrl-home")),
        shell_view("Actual Size", ShellCommand::ZoomActualSize, Some("ctrl-0")),
        EntryView::Separator,
        EntryView::Submenu("Grid"@, view_grid_layout()),
        shell_view("Switch Units", ShellCommand::ToggleUnits, Some("ctrl-u")),
        EntryView::Separator,
        kicad_view("Show Hidden Pins", "eeschema.EditorControl.showHiddenPins", None),
        kicad_view("Show ERC Warnings", "eeschema.EditorControl.showERCWarnings", None),
        kicad_view("Show Directive Labels", "eeschema.EditorControl.showDirectiveLabels", None),
        EntryView::Separator,
        shell_view("Hierarchy Panel", ShellCommand::ToggleLeftPanel, Some("ctrl-b")),
        shell_view("Properties Panel", ShellCommand::ToggleRightPanel, Some("ctrl-alt-b")),
        shell_view("Frame Time Readout", ShellCommand::ToggleFrameStats, Some("ctrl-shift-f")),
        EntryView::Separator,
        shell_view("Dark / Light Theme", ShellCommand::ToggleTheme, None),
        shell_view("Command Palette...", ShellCommand::OpenCommandPalette, Some("ctrl-shift-p"))
    ]
}

/// The entries of `view`.
fn view_items() -> (items: Vec<MenuEntry>)
    ensures
        entries_view(items@) == view_layout(),
{
    let mut items: Vec<MenuEntry> = Vec::new();
    push_entry(&mut items, shell("Zoom In", ShellCommand::ZoomIn, Some("ctrl-=")));
    push_entry(&mut items, shell("Zoom Out", ShellCommand::ZoomOut, Some("ctrl--")));
    push_entry(&mut items, shell("Zoom to Fit Sheet", ShellCommand::ZoomToFit, Some("home")));
    push_entry(&mut items, shell("Zoom to Objects", ShellCommand::ZoomToObjects, Some("ctrl-home")));
    push_entry(&mut items, shell("Actual Size", ShellCommand::ZoomActualSize, Some("ctrl-0")));
    push_entry(&mut items, MenuEntry::Separator);
    push_entry(&mut items, submenu("Grid", view_grid_items()));
    push_entry(&mut items, shell("Switch Units", ShellCommand::ToggleUnits, Some("ctrl-u")));
    push_entry(&mut items, MenuEntry::Separator);
    push_entry(&mut items, kicad("Show Hidden Pins", "eeschema.EditorControl.showHiddenPins", None));
    push_entry(&mut items, kicad("Show ERC Warnings", "eeschema.EditorControl.showERCWarnings", None));
    push_entry(&mut items, kicad("Show Directive Labels", "eeschema.EditorControl.showDirectiveLabels", None));
    push_entry(&mut items, MenuEntry::Separator);
    push_entry(&mut items, shell("Hierarchy Panel", ShellCommand::ToggleLeftPanel, Some("ctrl-b")));
    push_entry(&mut items, shell("Properties Panel", ShellCommand::ToggleRightPanel, Some("ctrl-alt-b")));
    push_entry(&mut items, shell("Frame Time Readout", ShellCommand::ToggleFrameStats, Some("ctrl-shift-f")));
    push_entry(&mut items, MenuEntry::Separator);
    push_entry(&mut items, shell("Dark / Light Theme", ShellCommand::ToggleTheme, None));
    push_entry(&mut items, shell("Command Palette...", ShellCommand::OpenCommandPalette, Some("ctrl-shift-p")));
    items
}

/// The layout of `place_graphics`.
pub open spec fn place_graphics_layout() -> Seq<EntryView> {
    seq![
        tool_view(Tool::DrawRectangle),
        tool_view(Tool::DrawCircle),
        tool_view(Tool::DrawArc),
        tool_view(Tool::DrawLine),
        EntryView::Separator,
        tool_view(Tool::PlaceImage)
    ]
}

/// The entries of `place_graphics`.
fn place_graphics_items() -> (items: Vec<MenuEntry>)
    ensures
        entries_view(items@) == place_graphics_layout(),
{
    let mut items: Vec<MenuEntry> = Vec::new();
    push_entry(&mut items, tool(Tool::DrawRectangle));
    push_entry(&mut items, tool(Tool::DrawCircle));
    push_entry(&mut items, tool(Tool::DrawArc));
    push_entry(&mut items, tool(Tool::DrawLine));
    push_entry(&mut items, MenuEntry::Separator);
    push_entry(&mut items, tool(Tool::PlaceImage));
    items
}

/// The layout of `place`.
pub open spec fn place_layout() -> Seq<EntryView> {
    seq![
        tool_view(Tool::PlaceSymbol),
        tool_view(Tool::PlacePower),
        EntryView::Separator,
        tool_view(Tool::DrawWire),
        tool_view(Tool::DrawBus),
        tool_view(Tool::PlaceBusEntry),
        tool_view(Tool::PlaceJunction),
        tool_view(Tool::PlaceNoConnect),
        EntryView::Separator,
        tool_view(Tool::PlaceLabel),
        tool_view(Tool::PlaceGlobalLabel),
        tool_view(Tool::PlaceHierLabel),
        EntryView::Separator,
        tool_view(Tool::DrawSheet),
        kicad_view("Sync All Sheet Pins...", "eeschema.InteractiveDrawing.syncAllSheetsPins", None),
        EntryView::Separator,
        tool_view(Tool::PlaceText),
        EntryView::Submenu("Graphics"@, place_graphics_layout())
    ]
}

/// The entries of `place`.
fn place_items() -> (items: Vec<MenuEntry>)
    ensures
        entries_view(items@) == place_layout(),
{
    let mut items: Vec<MenuEntry> = Vec::new();
    push_entry(&mut items, tool(Tool::PlaceSymbol));
    push_entry(&mut items, tool(Tool::PlacePower));
    push_entry(&mut items, MenuEntry::Separator);
    push_entry(&mut items, tool(Tool::DrawWire));
    push_entry(&mut items, tool(Tool::DrawBus));
    push_entry(&mut items, tool(Tool::PlaceBusEntry));
    push_entry(&mut items, tool(Tool::PlaceJunction));
    push_entry(&mut items, tool(Tool::PlaceNoConnect));
    push_entry(&mut items, MenuEntry::Separator);
    push_entry(&mut items, tool(Tool::PlaceLabel));
    push_entry(&mut items, tool(Tool::PlaceGlobalLabel));
    push_entry(&mut items, tool(Tool::PlaceHierLabel));
    push_entry(&mut items, MenuEntry::Separator);
    push_entry(&mut items, tool(Tool::DrawSheet));
    push_entry(&mut items, kicad("Sync All Sheet Pins...", "eeschema.InteractiveDrawing.syncAllSheetsPins", None));
    push_entry(&mut items, MenuEntry::Separator);
    push_entry(&mut items, tool(Tool::PlaceText));
    push_entry(&mut items, submenu("Graphics", place_graphics_items()));
    items
}

/// The layout of `inspect`.
pub open spec fn inspect_layout() -> Seq<EntryView> {
    seq![
        kicad_view("Electrical Rules Checker", "eeschema.InspectionTool.runERC", None),
        kicad_view("Bus Syntax Help", "eeschema.InspectionTool.showBusSyntaxHelp", None),
        EntryView::Separator,
        kicad_view("Net Navigator", "eeschema.EditorControl.showNetNavigator", None),
        tool_view(Tool::HighlightNet),
        kicad_view("Highlight Net Under Cursor", "eeschema.EditorControl.highlightNet", Some("`")),
        kicad_view("Clear Net Highlighting", "eeschema.EditorControl.clearHighlight", Some("escape")),
        EntryView::Separator,
        kicad_view("Simulator", "eeschema.EditorControl.showSimulator", None),
        tool_view(Tool::Measure)
    ]
}

/// The entries of `inspect`.
fn inspect_items() -> (items: Vec<MenuEntry>)
    ensures
        entries_view(items@) == inspect_layout(),
{
    let mut items: Vec<MenuEntry> = Vec::new();
    push_entry(&mut items, kicad("Electrical Rules Checker", "eeschema.InspectionTool.runERC", None));
    push_entry(&mut items, kicad("Bus Syntax Help", "eeschema.InspectionTool.showBusSyntaxHelp", None));
    push_entry(&mut items, MenuEntry::Separator);
    push_entry(&mut items, kicad("Net Navigator", "eeschema.EditorControl.showNetNavigator", None));
    push_entry(&mut items, tool(Tool::HighlightNet));
    push_entry(&mut items, kicad("Highlight Net Under Cursor", "eeschema.EditorControl.highlightNet", Some("`")));
    push_entry(&mut items, kicad("Clear Net Highlighting", "eeschema.EditorControl.clearHighlight", Some("escape")));
    push_entry(&mut items, MenuEntry::Separator);
    push_entry(&mut items, kicad("Simulator", "eeschema.EditorControl.showSimulator", None));
    push_entry(&mut items, tool(Tool::Measure));
    items
}

/// The layout of `tools_symbol_libraries`.
pub open spec fn tools_symbol_libraries_layout() -> Seq<EntryView> {
    seq![
        kicad_view("Symbol Pin Maps...", "eeschema.InteractiveEdit.editSymbolPinMaps", None),
        kicad_view("Symbol Editor", "common.Control.showSymbolEditor", None),
        kicad_view("Symbol Browser", "common.Control.showSymbolBrowser", None),
        kicad_view("Library Fields Table...", "eeschema.SymbolLibraryControl.showLibraryFieldsTable", None),
        kicad_view("Related Library Fields...", "eeschema.SymbolLibraryControl.showRelatedLibraryFieldsTable", None),
        kicad_view("New Library Symbol...", "eeschema.SymbolLibraryControl.newSymbol", None),
        kicad_view("Library Symbol Properties...", "eeschema.InteractiveEdit.symbolProperties", None),
        kicad_view("Library Pin Table...", "eeschema.InteractiveEdit.pinTable", None),
        kicad_view("Import Library Symbol...", "eeschema.SymbolLibraryControl.importSymbol", None)
    ]
}

/// The entries of `tools_symbol_libraries`.
fn tools_symbol_libraries_items() -> (items: Vec<MenuEntry>)
    ensures
        entries_view(items@) == tools_symbol_libraries_layout(),
{
    let mut items: Vec<MenuEntry> = Vec::new();
    push_entry(&mut items, kicad("Symbol Pin Maps...", "eeschema.InteractiveEdit.editSymbolPinMaps", None));
    push_entry(&mut items, kicad("Symbol Editor", "common.Control.showSymbolEditor", None));
    push_entry(&mut items, kicad("Symbol Browser", "common.Control.showSymbolBrowser", None));
    push_entry(&mut items, kicad("Library Fields Table...", "eeschema.SymbolLibraryControl.showLibraryFieldsTable", None));
    push_entry(&mut items, kicad("Related Library Fields...", "eeschema.SymbolLibraryControl.showRelatedLibraryFieldsTable", None));
    push_entry(&mut items, kicad("New Library Symbol...", "eeschema.SymbolLibraryControl.newSymbol", None));
    push_entry(&mut items, kicad("Library Symbol Properties...", "eeschema.InteractiveEdit.symbolProperties", None));
    push_entry(&mut items, kicad("Library Pin Table...", "eeschema.InteractiveEdit.pinTable", None));
    push_entry(&mut items, kicad("Import Library Symbol...", "eeschema.SymbolLibraryControl.importSymbol", None));
    items
}

/// The layout of `tools_symbol_maintenance`.
pub open spec fn tools_symbol_maintenance_layout() -> Seq<EntryView> {
    seq![
        kicad_view("Change Symbols...", "eeschema.InteractiveEdit.changeSymbols", None),
        kicad_view("Update Symbols...", "eeschema.InteractiveEdit.updateSymbols", None),
        kicad_view("Remap Symbols...", "eeschema.EditorControl.remapSymbols", None),
        kicad_view("Rescue Symbols...", "eeschema.EditorControl.rescueSymbols", None)
    ]
}

/// The entries of `tools_symbol_maintenance`.
fn tools_symbol_maintenance_items() -> (items: Vec<MenuEntry>)
    ensures
        entries_view(items@) == tools_symbol_maintenance_layout(),
{
    let mut items: Vec<MenuEntry> = Vec::new();
    push_entry(&mut items, kicad("Change Symbols...", "eeschema.InteractiveEdit.changeSymbols", None));
    push_entry(&mut items, kicad("Update Symbols...", "eeschema.InteractiveEdit.updateSymbols", None));
    push_entry(&mut items, kicad("Remap Symbols...", "eeschema.EditorControl.remapSymbols", None));
    push_entry(&mut items, kicad("Rescue Symbols...", "eeschema.EditorControl.rescueSymbols", None));
    items
}

/// The layout of `tools`.
pub open spec fn tools_layout() -> Seq<EntryView> {
    seq![
        kicad_view("Update PCB from Schematic...", "common.Control.updatePcbFromSchematic", Some("f8")),
        kicad_view("Update Schematic from PCB...", "common.Control.updateSchematicFromPCB", None),
        EntryView::Separator,
        kicad_view("Annotate Schematic...", "eeschema.EditorControl.annotate", None),
        kicad_view("Increment Annotations...", "eeschema.EditorControl.incrementAnnotations", None),
        kicad_view("Assign Footprints...", "eeschema.EditorControl.assignFootprints", None),
        kicad_view("Edit Symbol Fields...", "eeschema.EditorControl.editSymbolFields", None),
        kicad_view("Edit Symbol Library Links...", "eeschema.EditorControl.editSymbolLibraryLinks", None),
        EntryView::Separator,
        EntryView::Submenu("Symbol Libraries"@, tools_symbol_libraries_layout()),
        EntryView::Separator,
        EntryView::Submenu("Symbol Maintenance"@, tools_symbol_maintenance_layout()),
        EntryView::Separator,
        kicad_view("Generate Bill of Materials...", "eeschema.EditorControl.generateBOM", None),
        kicad_view("Export Netlist...", "eeschema.EditorControl.exportNetlist", None)
    ]
}

/// The entries of `tools`.
fn tools_items() -> (items: Vec<MenuEntry>)
    ensures
        entries_view(items@) == tools_layout(),
{
    let mut items: Vec<MenuEntry> = Vec::new();
    push_entry(&mut items, kicad("Update PCB from Schematic...", "common.Control.updatePcbFromSchematic", Some("f8")));
    push_entry(&mut items, kicad("Update Schematic from PCB...", "common.Control.updateSchematicFromPCB", None));
    push_entry(&mut items, MenuEntry::Separator);
    push_entry(&mut items, kicad("Annotate Schematic...", "eeschema.EditorControl.annotate", None));
    push_entry(&mut items, kicad("Increment Annotations...", "eeschema.EditorControl.incrementAnnotations", None));
    push_entry(&mut items, kicad("Assign Footprints...", "eeschema.EditorControl.assignFootprints", None));
    push_entry(&mut items, kicad("Edit Symbol Fields...", "eeschema.EditorControl.editSymbolFields", None));
    push_entry(&mut items, kicad("Edit Symbol Library Links...", "eeschema.EditorControl.editSymbolLibraryLinks", None));
    push_entry(&mut items, MenuEntry::Separator);
    push_entry(&mut items, submenu("Symbol Libraries", tools_symbol_libraries_items()));
    push_entry(&mut items, MenuEntry::Separator);
    push_entry(&mut items, submenu("Symbol Maintenance", tools_symbol_maintenance_items()));
    push_entry(&mut items, MenuEntry::Separator);
    push_entry(&mut items, kicad("Generate Bill of Materials...", "eeschema.EditorControl.generateBOM", None));
    push_entry(&mut items, kicad("Export Netlist...", "eeschema.EditorControl.exportNetlist", None));
    items
}

/// The layout of `preferences_schematic_tools_and_settings`.
pub open spec fn preferences_schematic_tools_and_settings_layout() -> Seq<EntryView> {
    seq![
        shell_view("Resolve Field Name Case Conflicts...", ShellCommand::FieldCaseConflicts, None),
        shell_view("Schematic Data Sources...", ShellCommand::SchematicDataSources, None),
        shell_view("Migrate Legacy Buses...", ShellCommand::MigrateBuses, None),
        kicad_view("Update Inherited Symbol Fields...", "eeschema.SymbolLibraryControl.updateSymbolFields", None),
        shell_view("Bus Aliases...", ShellCommand::BusAliases, None),
        shell_view("Net Classes...", ShellCommand::Netclasses, None),
        shell_view("Net Chains...", ShellCommand::NetChains, None),
        shell_view("Import Settings...", ShellCommand::ImportSettings, None),
        kicad_view("Create Net Chain...", "eeschema.EditorControl.createNetChain", None),
        kicad_view("Edit Text and Graphics...", "eeschema.InteractiveEdit.editTextAndGraphics", None),
        kicad_view("Synchronize Sheet Pins...", "eeschema.InteractiveDrawing.syncSheetPins", None),
        kicad_view("Synchronize All Sheet Pins...", "eeschema.InteractiveDrawing.syncAllSheetsPins", None)
    ]
}

/// The entries of `preferences_schematic_tools_and_settings`.
fn preferences_schematic_tools_and_settings_items() -> (items: Vec<MenuEntry>)
    ensures
        entries_view(items@) == preferences_schematic_tools_and_settings_layout(),
{
    let mut items: Vec<MenuEntry> = Vec::new();
    push_entry(&mut items, shell("Resolve Field Name Case Conflicts...", ShellCommand::FieldCaseConflicts, None));
    push_entry(&mut items, shell("Schematic Data Sources...", ShellCommand::SchematicDataSources, None));
    push_entry(&mut items, shell("Migrate Legacy Buses...", ShellCommand::MigrateBuses, None));
    push_entry(&mut items, kicad("Update Inherited Symbol Fields...", "eeschema.SymbolLibraryControl.updateSymbolFields", None));
    push_entry(&mut items, shell("Bus Aliases...", ShellCommand::BusAliases, None));
    push_entry(&mut items, shell("Net Classes...", ShellCommand::Netclasses, None));
    push_entry(&mut items, shell("Net Chains...", ShellCommand::NetChains, None));
    push_entry(&mut items, shell("Import Settings...", ShellCommand::ImportSettings, None));
    push_entry(&mut items, kicad("Create Net Chain...", "eeschema.EditorControl.createNetChain", None));
    push_entry(&mut items, kicad("Edit Text and Graphics...", "eeschema.InteractiveEdit.editTextAndGraphics", None));
    push_entry(&mut items, kicad("Synchronize Sheet Pins...", "eeschema.InteractiveDrawing.syncSheetPins", None));
    push_entry(&mut items, kicad("Synchronize All Sheet Pins...", "eeschema.InteractiveDrawing.syncAllSheetsPins", None));
    items
}

/// The layout of `preferences`.
pub open spec fn preferences_layout() -> Seq<EntryView> {
    seq![
        EntryView::Submenu("Schematic Tools and Settings"@, preferences_schematic_tools_and_settings_layout()),
        shell_view("Remote Symbol Providers...", ShellCommand::RemoteSymbolSettings, None),
        kicad_view("Schematic Setup...", "eeschema.EditorControl.schematicSetup", None),
        kicad_view("Preferences...", "common.SuiteControl.openPreferences", Some("ctrl-,")),
        EntryView::Separator,
        shell_view("Dark / Light Theme", ShellCommand::ToggleTheme, None),
        EntryView::Separator,
        kicad_view("Manage Symbol Libraries...", "common.SuiteControl.showSymbolLibTable", None),
        kicad_view("Configure Paths...", "common.SuiteControl.configurePaths", None),
        EntryView::Separator,
        kicad_view("Hotkeys...", "common.SuiteControl.listHotKeys", None)
    ]
}

/// The entries of `preferences`.
fn preferences_items() -> (items: Vec<MenuEntry>)
    ensures
        entries_view(items@) == preferences_layout(),
{
    let mut items: Vec<MenuEntry> = Vec::new();
    push_entry(&mut items, submenu("Schematic Tools and Settings", preferences_schematic_tools_and_settings_items()));
    push_entry(&mut items, shell("Remote Symbol Providers...", ShellCommand::RemoteSymbolSettings, None));
    push_entry(&mut items, kicad("Schematic Setup...", "eeschema.EditorControl.schematicSetup", None));
    push_entry(&mut items, kicad("Preferences...", "common.SuiteControl.openPreferences", Some("ctrl-,")));
    push_entry(&mut items, MenuEntry::Separator);
    push_entry(&mut items, shell("Dark / Light Theme", ShellCommand::ToggleTheme, None));
    push_entry(&mut items, MenuEntry::Separator);
    push_entry(&mut items, kicad("Manage Symbol Libraries...", "common.SuiteControl.showSymbolLibTable", None));
    push_entry(&mut items, kicad("Configure Paths...", "common.SuiteControl.configurePaths", None));
    push_entry(&mut items, MenuEntry::Separator);
    push_entry(&mut items, kicad("Hotkeys...", "common.SuiteControl.listHotKeys", None));
    items
}

/// The layout of `help`.
pub open spec fn help_layout() -> Seq<EntryView> {
    seq![
        kicad_view("KiCad Manual", "common.SuiteControl.help", Some("f1")),
        kicad_view("Getting Started", "common.SuiteControl.gettingStarted", None),
        kicad_view("Hotkey Reference", "common.SuiteControl.listHotKeys", None),
        EntryView::Separator,
        kicad_view("Report a Bug", "common.SuiteControl.reportBug", None),
        kicad_view("Get Involved", "common.SuiteControl.getInvolved", None),
        EntryView::Separator,
        kicad_view("About KiCad", "common.SuiteControl.about", None)
    ]
}

/// The entries of `help`.
fn help_items() -> (items: Vec<MenuEntry>)
    ensures
        entries_view(items@) == help_layout(),
{
    let mut items: Vec<MenuEntry> = Vec::new();
    push_entry(&mut items, kicad("KiCad Manual", "common.SuiteControl.help", Some("f1")));
    push_entry(&mut items, kicad("Getting Started", "common.SuiteControl.gettingStarted", None));
    push_entry(&mut items, kicad("Hotkey Reference", "common.SuiteControl.listHotKeys", None));
    push_entry(&mut items, MenuEntry::Separator);
    push_entry(&mut items, kicad("Report a Bug", "common.SuiteControl.reportBug", None));
    push_entry(&mut items, kicad("Get Involved", "common.SuiteControl.getInvolved", None));
    push_entry(&mut items, MenuEntry::Separator);
    push_entry(&mut items, kicad("About KiCad", "common.SuiteControl.about", None));
    items
}

/// The menu bar, top level first.
pub open spec fn menu_layout() -> Seq<MenuView> {
    seq![
        MenuView { name: "File"@, items: file_layout() },
        MenuView { name: "Edit"@, items: edit_layout() },
        MenuView { name: "View"@, items: view_layout() },
        MenuView { name: "Place"@, items: place_layout() },
        MenuView { name: "Inspect"@, items: inspect_layout() },
        MenuView { name: "Tools"@, items: tools_layout() },
        MenuView { name: "Preferences"@, items: preferences_layout() },
        MenuView { name: "Help"@, items: help_layout() }
    ]
}

/// The content of a list of menus.
pub open spec fn menus_view(menus: Seq<MenuDef>) -> Seq<MenuView> {
    menus.map_values(|menu: MenuDef| MenuView { name: menu.name@, items: entries_view(menu.items@) })
}

/// Number of menus on the menu bar.
pub const MENU_COUNT: usize = 8;

/// The menu bar, top level first.
pub fn menus() -> (menus: Vec<MenuDef>)
    ensures
        menus_view(menus@) == menu_layout(),
{
    let mut menus: Vec<MenuDef> = Vec::new();
    menus.push(MenuDef { name: "File", items: file_items() });
    menus.push(MenuDef { name: "Edit", items: edit_items() });
    menus.push(MenuDef { name: "View", items: view_items() });
    menus.push(MenuDef { name: "Place", items: place_items() });
    menus.push(MenuDef { name: "Inspect", items: inspect_items() });
    menus.push(MenuDef { name: "Tools", items: tools_items() });
    menus.push(MenuDef { name: "Preferences", items: preferences_items() });
    menus.push(MenuDef { name: "Help", items: help_items() });
    assert(menus_view(menus@) =~= menu_layout());
    menus
}

} // verus!
