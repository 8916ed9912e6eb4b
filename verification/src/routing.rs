//! Where an invoked command goes.
//!
//! Menus, palette rows, toolbar buttons and key bindings all arrive as one
//! action carrying a KiCad action name. A palette tool's name activates that
//! tool (placing a symbol or an image also opens the browser or the import
//! that goes with it); some names open one of the shell's own workflow
//! dialogs; the rest are the host's business. The host hears by name every
//! action the shell does not handle itself, and the electrical rules check
//! and annotation besides. This module decides all of that, and names the
//! native editing commands a focused text input takes before the schematic
//! sees them.

use vstd::prelude::*;
use crate::commands::tool_for_action;
use crate::dialogs::document_title_of;
use crate::text::str_eq;
use crate::tool_facts::lemma_ids_distinct;
use crate::toolbar::toolbar_layout;
use crate::tools::{tool_spec, Tool};

verus! {

/// What the shell does with an invoked action name.
#[derive(Clone, Copy, Debug, PartialEq, Eq, Structural)]
pub enum ActionRoute {
    /// Open the document dialog of this kind (an index into
    /// [`document_title`]), or raise it when it is already open.
    DocumentDialog(u32),
    /// Open the symbol library table.
    LibraryTable,
    /// Raise the simulator, or open it on its first page.
    Simulator,
    /// Open a symbol or library workflow of this kind.
    SymbolWorkflow(u32),
    /// Import a bitmap image.
    ImageImport,
    /// Import vector graphics.
    GraphicsImport,
    /// Open the preferences.
    Preferences,
    /// Open the schematic setup.
    Setup,
    /// Synchronise sheet pins, on every sheet or on the current one.
    SheetPinSync {
        /// Whether every sheet is synchronised.
        all_sheets: bool,
    },
    /// Browse symbols to place, power symbols only or all of them.
    Symbols {
        /// Whether only power symbols are offered.
        power_only: bool,
    },
    /// Edit the selected item's properties.
    ItemProperties,
    /// Run the electrical rules check.
    Erc,
    /// Open the search dialog, with or without replacement.
    Find {
        /// Whether the replace field is offered.
        replace: bool,
    },
    /// Step to the next or previous match, opening the search dialog first
    /// when it is closed.
    FindStep {
        /// Whether the step goes backwards.
        previous: bool,
    },
    /// Activate a tool.
    Tool(Tool),
    /// Report the action to the host.
    Host,
}

/// The tool whose action name is `id`, where there is one.
pub open spec fn tool_named(id: Seq<char>) -> Tool {
    choose|tool: Tool| tool_spec(tool).id.0@ == id
}

/// Where the action named `id` goes. A palette tool's name activates that
/// tool; then come the shell's own workflows, in the order below; everything
/// else is the host's.
pub open spec fn action_route(id: Seq<char>) -> ActionRoute {
    if exists|tool: Tool| tool_spec(tool).id.0@ == id {
        ActionRoute::Tool(tool_named(id))
    } else if id == "eeschema.EditorControl.annotate"@ {
        ActionRoute::DocumentDialog(0)
    } else if id == "eeschema.EditorControl.incrementAnnotations"@ {
        ActionRoute::DocumentDialog(1)
    } else if id == "common.Control.pageSettings"@ || id == "eeschema.EditorControl.editPageNumber"@ {
        ActionRoute::DocumentDialog(2)
    } else if id == "eeschema.EditorControl.exportNetlist"@ {
        ActionRoute::DocumentDialog(3)
    } else if id == "common.Control.plot"@ {
        ActionRoute::DocumentDialog(4)
    } else if id == "common.Control.print"@ {
        ActionRoute::DocumentDialog(5)
    } else if id == "eeschema.EditorControl.generateBOM"@ {
        ActionRoute::DocumentDialog(6)
    } else if id == "eeschema.EditorControl.editSymbolFields"@ || id == "eeschema.EditorControl.assignFootprints"@ {
        ActionRoute::DocumentDialog(7)
    } else if id == "eeschema.InteractiveEdit.changeSymbols"@ || id == "eeschema.InteractiveEdit.changeSymbol"@ {
        ActionRoute::DocumentDialog(8)
    } else if id == "eeschema.InteractiveEdit.updateSymbols"@ || id == "eeschema.InteractiveEdit.updateSymbol"@ {
        ActionRoute::DocumentDialog(9)
    } else if id == "eeschema.EditorControl.remapSymbols"@ {
        ActionRoute::DocumentDialog(10)
    } else if id == "eeschema.EditorControl.rescueSymbols"@ {
        ActionRoute::DocumentDialog(11)
    } else if id == "eeschema.EditorControl.editSymbolLibraryLinks"@ {
        ActionRoute::DocumentDialog(12)
    } else if id == "gpui.Setup.buses"@ {
        ActionRoute::DocumentDialog(13)
    } else if id == "gpui.Setup.netclasses"@ {
        ActionRoute::DocumentDialog(14)
    } else if id == "gpui.Setup.netchains"@ {
        ActionRoute::DocumentDialog(15)
    } else if id == "eeschema.EditorControl.createNetChain"@ {
        ActionRoute::DocumentDialog(16)
    } else if id == "eeschema.InteractiveEdit.editTextAndGraphics"@ {
        ActionRoute::DocumentDialog(17)
    } else if id == "gpui.Setup.import"@ {
        ActionRoute::DocumentDialog(18)
    } else if id == "gpui.MigrateBuses"@ {
        ActionRoute::DocumentDialog(19)
    } else if id == "common.Control.updateSchematicFromPCB"@ {
        ActionRoute::DocumentDialog(20)
    } else if id == "gpui.FieldCaseConflicts"@ {
        ActionRoute::DocumentDialog(21)
    } else if id == "gpui.SchematicDataSources"@ {
        ActionRoute::DocumentDialog(22)
    } else if id == "eeschema.InteractiveDrawing.importSheet"@ {
        ActionRoute::DocumentDialog(23)
    } else if id == "common.SuiteControl.showSymbolLibTable"@ {
        ActionRoute::LibraryTable
    } else if id == "eeschema.EditorControl.showSimulator"@ {
        ActionRoute::Simulator
    } else if id == "eeschema.InteractiveEdit.symbolProperties"@ || id == "common.Control.showSymbolEditor"@ {
        ActionRoute::SymbolWorkflow(3)
    } else if id == "eeschema.InteractiveEdit.editSymbolPinMaps"@ {
        ActionRoute::SymbolWorkflow(18)
    } else if id == "eeschema.SymbolLibraryControl.updateSymbolFields"@ {
        ActionRoute::SymbolWorkflow(16)
    } else if id == "eeschema.SymbolLibraryControl.newSymbol"@ {
        ActionRoute::SymbolWorkflow(4)
    } else if id == "eeschema.InteractiveEdit.pinTable"@ {
        ActionRoute::SymbolWorkflow(5)
    } else if id == "eeschema.SymbolLibraryControl.importSymbol"@ {
        ActionRoute::SymbolWorkflow(6)
    } else if id == "eeschema.EditorControl.importGraphics"@ || id == "eeschema.EditorControl.ddImportGraphics"@ {
        ActionRoute::GraphicsImport
    } else if id == "common.SuiteControl.openPreferences"@ {
        ActionRoute::Preferences
    } else if id == "eeschema.EditorControl.schematicSetup"@ {
        ActionRoute::Setup
    } else if id == "eeschema.SymbolLibraryControl.showLibraryFieldsTable"@ {
        ActionRoute::SymbolWorkflow(8)
    } else if id == "eeschema.SymbolLibraryControl.showRelatedLibraryFieldsTable"@ {
        ActionRoute::SymbolWorkflow(9)
    } else if id == "eeschema.InteractiveDrawing.syncSheetPins"@ || id == "eeschema.InteractiveEdit.cleanupSheetPins"@ || id == "eeschema.InteractiveDrawing.syncAllSheetsPins"@ {
        ActionRoute::SheetPinSync { all_sheets: id == "eeschema.InteractiveDrawing.syncAllSheetsPins"@ }
    } else if id == "gpui.RemoteSymbols.settings"@ {
        ActionRoute::SymbolWorkflow(10)
    } else if id == "common.Control.showSymbolBrowser"@ {
        ActionRoute::Symbols { power_only: false }
    } else if id == "eeschema.InteractiveEdit.properties"@ || id == "common.Interactive.properties"@ {
        ActionRoute::ItemProperties
    } else if id == "eeschema.InspectionTool.runERC"@ {
        ActionRoute::Erc
    } else if id == "common.Interactive.find"@ || id == "common.Interactive.findAndReplace"@ {
        ActionRoute::Find { replace: id == "common.Interactive.findAndReplace"@ }
    } else if id == "common.Interactive.findNext"@ || id == "common.Interactive.findPrevious"@ {
        ActionRoute::FindStep { previous: id == "common.Interactive.findPrevious"@ }
    } else {
        ActionRoute::Host
    }
}

/// Decide where the action named `id` goes.
#[verifier::rlimit(50)]
pub fn route_action(id: &str) -> (route: ActionRoute)
    ensures
        route == action_route(id@),
{
    match tool_for_action(id) {
        Some(tool) => {
            proof {
                let chosen = tool_named(id@);
                if chosen != tool {
                    lemma_ids_distinct(chosen, tool);
                }
            }
            return ActionRoute::Tool(tool);
        },
        None => {},
    }
    if str_eq(id, "eeschema.EditorControl.annotate") {
        ActionRoute::DocumentDialog(0)
    } else if str_eq(id, "eeschema.EditorControl.incrementAnnotations") {
        ActionRoute::DocumentDialog(1)
    } else if str_eq(id, "common.Control.pageSettings") || str_eq(id, "eeschema.EditorControl.editPageNumber") {
        ActionRoute::DocumentDialog(2)
    } else if str_eq(id, "eeschema.EditorControl.exportNetlist") {
        ActionRoute::DocumentDialog(3)
    } else if str_eq(id, "common.Control.plot") {
        ActionRoute::DocumentDialog(4)
    } else if str_eq(id, "common.Control.print") {
        ActionRoute::DocumentDialog(5)
    } else if str_eq(id, "eeschema.EditorControl.generateBOM") {
        ActionRoute::DocumentDialog(6)
    } else if str_eq(id, "eeschema.EditorControl.editSymbolFields") || str_eq(id, "eeschema.EditorControl.assignFootprints") {
        ActionRoute::DocumentDialog(7)
    } else if str_eq(id, "eeschema.InteractiveEdit.changeSymbols") || str_eq(id, "eeschema.InteractiveEdit.changeSymbol") {
        ActionRoute::DocumentDialog(8)
    } else if str_eq(id, "eeschema.InteractiveEdit.updateSymbols") || str_eq(id, "eeschema.InteractiveEdit.updateSymbol") {
        ActionRoute::DocumentDialog(9)
    } else if str_eq(id, "eeschema.EditorControl.remapSymbols") {
        ActionRoute::DocumentDialog(10)
    } else if str_eq(id, "eeschema.EditorControl.rescueSymbols") {
        ActionRoute::DocumentDialog(11)
    } else if str_eq(id, "eeschema.EditorControl.editSymbolLibraryLinks") {
        ActionRoute::DocumentDialog(12)
    } else if str_eq(id, "gpui.Setup.buses") {
        ActionRoute::DocumentDialog(13)
    } else if str_eq(id, "gpui.Setup.netclasses") {
        ActionRoute::DocumentDialog(14)
    } else if str_eq(id, "gpui.Setup.netchains") {
        ActionRoute::DocumentDialog(15)
    } else if str_eq(id, "eeschema.EditorControl.createNetChain") {
        ActionRoute::DocumentDialog(16)
    } else if str_eq(id, "eeschema.InteractiveEdit.editTextAndGraphics") {
        ActionRoute::DocumentDialog(17)
    } else if str_eq(id, "gpui.Setup.import") {
        ActionRoute::DocumentDialog(18)
    } else if str_eq(id, "gpui.MigrateBuses") {
        ActionRoute::DocumentDialog(19)
    } else if str_eq(id, "common.Control.updateSchematicFromPCB") {
        ActionRoute::DocumentDialog(20)
    } else if str_eq(id, "gpui.FieldCaseConflicts") {
        ActionRoute::DocumentDialog(21)
    } else if str_eq(id, "gpui.SchematicDataSources") {
        ActionRoute::DocumentDialog(22)
    } else if str_eq(id, "eeschema.InteractiveDrawing.importSheet") {
        ActionRoute::DocumentDialog(23)
    } else if str_eq(id, "common.SuiteControl.showSymbolLibTable") {
        ActionRoute::LibraryTable
    } else if str_eq(id, "eeschema.EditorControl.showSimulator") {
        ActionRoute::Simulator
    } else if str_eq(id, "eeschema.InteractiveEdit.symbolProperties") || str_eq(id, "common.Control.showSymbolEditor") {
        ActionRoute::SymbolWorkflow(3)
    } else if str_eq(id, "eeschema.InteractiveEdit.editSymbolPinMaps") {
        ActionRoute::SymbolWorkflow(18)
    } else if str_eq(id, "eeschema.SymbolLibraryControl.updateSymbolFields") {
        ActionRoute::SymbolWorkflow(16)
    } else if str_eq(id, "eeschema.SymbolLibraryControl.newSymbol") {
        ActionRoute::SymbolWorkflow(4)
    } else if str_eq(id, "eeschema.InteractiveEdit.pinTable") {
        ActionRoute::SymbolWorkflow(5)
    } else if str_eq(id, "eeschema.SymbolLibraryControl.importSymbol") {
        ActionRoute::SymbolWorkflow(6)
    } else if str_eq(id, "eeschema.EditorControl.importGraphics") || str_eq(id, "eeschema.EditorControl.ddImportGraphics") {
        ActionRoute::GraphicsImport
    } else if str_eq(id, "common.SuiteControl.openPreferences") {
        ActionRoute::Preferences
    } else if str_eq(id, "eeschema.EditorControl.schematicSetup") {
        ActionRoute::Setup
    } else if str_eq(id, "eeschema.SymbolLibraryControl.showLibraryFieldsTable") {
        ActionRoute::SymbolWorkflow(8)
    } else if str_eq(id, "eeschema.SymbolLibraryControl.showRelatedLibraryFieldsTable") {
        ActionRoute::SymbolWorkflow(9)
    } else if str_eq(id, "eeschema.InteractiveDrawing.syncSheetPins") || str_eq(id, "eeschema.InteractiveEdit.cleanupSheetPins") || str_eq(id, "eeschema.InteractiveDrawing.syncAllSheetsPins") {
        ActionRoute::SheetPinSync { all_sheets: str_eq(id, "eeschema.InteractiveDrawing.syncAllSheetsPins") }
    } else if str_eq(id, "gpui.RemoteSymbols.settings") {
        ActionRoute::SymbolWorkflow(10)
    } else if str_eq(id, "common.Control.showSymbolBrowser") {
        ActionRoute::Symbols { power_only: false }
    } else if str_eq(id, "eeschema.InteractiveEdit.properties") || str_eq(id, "common.Interactive.properties") {
        ActionRoute::ItemProperties
    } else if str_eq(id, "eeschema.InspectionTool.runERC") {
        ActionRoute::Erc
    } else if str_eq(id, "common.Interactive.find") || str_eq(id, "common.Interactive.findAndReplace") {
        ActionRoute::Find { replace: str_eq(id, "common.Interactive.findAndReplace") }
    } else if str_eq(id, "common.Interactive.findNext") || str_eq(id, "common.Interactive.findPrevious") {
        ActionRoute::FindStep { previous: str_eq(id, "common.Interactive.findPrevious") }
    } else {
        ActionRoute::Host
    }
}

/// KiCad's document actions and the titles of the dialogs they stand for:
/// printing is printing to PDF, plotting is plotting the schematic, and so
/// on.
pub open spec fn names_dialog(id: Seq<char>, title: Seq<char>) -> bool {
    ||| id == "eeschema.EditorControl.annotate"@ && title == "Annotate Schematic"@
    ||| id == "eeschema.EditorControl.incrementAnnotations"@ && title == "Increment Annotations"@
    ||| id == "common.Control.pageSettings"@ && title == "Page Settings"@
    ||| id == "eeschema.EditorControl.editPageNumber"@ && title == "Page Settings"@
    ||| id == "eeschema.EditorControl.exportNetlist"@ && title == "Export Netlist"@
    ||| id == "common.Control.plot"@ && title == "Plot Schematic"@
    ||| id == "common.Control.print"@ && title == "Print to PDF"@
    ||| id == "eeschema.EditorControl.generateBOM"@ && title == "Export Bill of Materials"@
    ||| id == "eeschema.EditorControl.editSymbolFields"@ && title == "Edit Symbol Fields"@
    ||| id == "eeschema.EditorControl.assignFootprints"@ && title == "Edit Symbol Fields"@
    ||| id == "eeschema.InteractiveEdit.changeSymbols"@ && title == "Change Symbols"@
    ||| id == "eeschema.InteractiveEdit.changeSymbol"@ && title == "Change Symbols"@
    ||| id == "eeschema.InteractiveEdit.updateSymbols"@ && title == "Update Symbols from Library"@
    ||| id == "eeschema.InteractiveEdit.updateSymbol"@ && title == "Update Symbols from Library"@
    ||| id == "eeschema.EditorControl.remapSymbols"@ && title == "Remap Symbols"@
    ||| id == "eeschema.EditorControl.rescueSymbols"@ && title == "Rescue Symbols"@
    ||| id == "eeschema.EditorControl.editSymbolLibraryLinks"@ && title == "Edit Symbol Library IDs"@
    ||| id == "gpui.Setup.buses"@ && title == "Bus Aliases"@
    ||| id == "gpui.Setup.netclasses"@ && title == "Netclasses"@
    ||| id == "gpui.Setup.netchains"@ && title == "Net Chain Setup"@
    ||| id == "eeschema.EditorControl.createNetChain"@ && title == "Create Net Chain"@
    ||| id == "eeschema.InteractiveEdit.editTextAndGraphics"@ && title == "Edit Text and Graphics"@
    ||| id == "gpui.Setup.import"@ && title == "Import Schematic Settings"@
    ||| id == "gpui.MigrateBuses"@ && title == "Migrate Legacy Buses"@
    ||| id == "common.Control.updateSchematicFromPCB"@ && title == "Update Schematic from PCB"@
    ||| id == "gpui.FieldCaseConflicts"@ && title == "Resolve Field Name Conflicts"@
    ||| id == "gpui.SchematicDataSources"@ && title == "Schematic Data Sources"@
    ||| id == "eeschema.InteractiveDrawing.importSheet"@ && title == "Import Schematic"@
}

/// The document actions KiCad has two names for.
pub open spec fn document_synonyms(a: Seq<char>, b: Seq<char>) -> bool {
    ||| (a == "common.Control.pageSettings"@ && b == "eeschema.EditorControl.editPageNumber"@) || (a == "eeschema.EditorControl.editPageNumber"@ && b == "common.Control.pageSettings"@)
    ||| (a == "eeschema.EditorControl.editSymbolFields"@ && b == "eeschema.EditorControl.assignFootprints"@) || (a == "eeschema.EditorControl.assignFootprints"@ && b == "eeschema.EditorControl.editSymbolFields"@)
    ||| (a == "eeschema.InteractiveEdit.changeSymbols"@ && b == "eeschema.InteractiveEdit.changeSymbol"@) || (a == "eeschema.InteractiveEdit.changeSymbol"@ && b == "eeschema.InteractiveEdit.changeSymbols"@)
    ||| (a == "eeschema.InteractiveEdit.updateSymbols"@ && b == "eeschema.InteractiveEdit.updateSymbol"@) || (a == "eeschema.InteractiveEdit.updateSymbol"@ && b == "eeschema.InteractiveEdit.updateSymbols"@)
}

/// Each document action opens the dialog whose title belongs to it.
pub proof fn lemma_document_action_opens_its_dialog(id: Seq<char>, k: u32)
    requires
        action_route(id) == ActionRoute::DocumentDialog(k),
    ensures
        k < 24,
        names_dialog(id, document_title_of(k as int)),
{
}

/// No two document actions open the same dialog, but for the pairs KiCad has
/// two names for.
pub proof fn lemma_document_dialogs_not_shared(a: Seq<char>, b: Seq<char>, k: u32)
    requires
        action_route(a) == ActionRoute::DocumentDialog(k),
        action_route(b) == ActionRoute::DocumentDialog(k),
        a != b,
    ensures
        document_synonyms(a, b),
{
}

/// A second workflow some tools open beside their activation: placing a
/// symbol or a power symbol opens the symbol browser on the matching list,
/// and placing an image opens the bitmap import.
pub open spec fn companion_of(id: Seq<char>) -> Option<ActionRoute> {
    if id == "eeschema.InteractiveDrawing.placeSymbol"@ {
        Some(ActionRoute::Symbols { power_only: false })
    } else if id == "eeschema.InteractiveDrawing.placePowerSymbol"@ {
        Some(ActionRoute::Symbols { power_only: true })
    } else if id == "eeschema.InteractiveDrawing.placeImage"@ {
        Some(ActionRoute::ImageImport)
    } else {
        None
    }
}

/// The workflow the action named `id` opens beside its route, if any.
pub fn companion_workflow(id: &str) -> (companion: Option<ActionRoute>)
    ensures
        companion == companion_of(id@),
{
    if str_eq(id, "eeschema.InteractiveDrawing.placeSymbol") {
        Some(ActionRoute::Symbols { power_only: false })
    } else if str_eq(id, "eeschema.InteractiveDrawing.placePowerSymbol") {
        Some(ActionRoute::Symbols { power_only: true })
    } else if str_eq(id, "eeschema.InteractiveDrawing.placeImage") {
        Some(ActionRoute::ImageImport)
    } else {
        None
    }
}

/// Whether the host hears the action named `id` by name: every action the
/// shell does not handle itself, and besides them the electrical rules check
/// and annotation, whose dialogs the shell opens while the host runs its own
/// side of them.
pub open spec fn host_hears(id: Seq<char>) -> bool {
    action_route(id) is Host || id == "eeschema.InspectionTool.runERC"@ || id
        == "eeschema.EditorControl.annotate"@
}

/// Whether the host hears the action named `id` by name.
pub fn reports_to_host(id: &str) -> (heard: bool)
    ensures
        heard == host_hears(id@),
{
    let route = route_action(id);
    match route {
        ActionRoute::Host => true,
        _ => str_eq(id, "eeschema.InspectionTool.runERC") || str_eq(id, "eeschema.EditorControl.annotate"),
    }
}

/// Everything the shell does with an invoked action.
#[derive(Clone, Copy, Debug, PartialEq, Eq, Structural)]
pub struct Dispatch {
    /// What the shell does itself.
    pub route: ActionRoute,
    /// A workflow it opens beside that.
    pub companion: Option<ActionRoute>,
    /// Whether the host hears the action by name.
    pub report: bool,
}

/// Everything the shell does with the action named `id`.
pub open spec fn dispatch_of(id: Seq<char>) -> Dispatch {
    Dispatch { route: action_route(id), companion: companion_of(id), report: host_hears(id) }
}

/// Decide everything the shell does with the action named `id`.
pub fn dispatch_action(id: &str) -> (dispatch: Dispatch)
    ensures
        dispatch == dispatch_of(id@),
{
    Dispatch { route: route_action(id), companion: companion_workflow(id), report: reports_to_host(id) }
}

/// The action named `id` activates the one tool whose name it is.
proof fn lemma_tool_name_routes(which: Tool, id: Seq<char>)
    requires
        id == tool_spec(which).id.0@,
    ensures
        action_route(id) == ActionRoute::Tool(which),
{
    assert(tool_spec(which).id.0@ == id);
    let chosen = tool_named(id);
    if chosen != which {
        lemma_ids_distinct(chosen, which);
    }
}

/// Every palette tool's action name activates that tool, whatever workflow
/// it also opens.
pub proof fn lemma_every_tool_activates(tool: Tool)
    ensures
        action_route(tool_spec(tool).id.0@) == ActionRoute::Tool(tool),
{
    lemma_tool_name_routes(tool, tool_spec(tool).id.0@);
}

/// The toolbar's document actions are no tool's and no workflow's: they go
/// to the host. (Names of different lengths differ; for the few of equal
/// length, the first differing character is named.)
#[verifier::rlimit(100)]
#[verifier::spinoff_prover]
proof fn lemma_document_actions_go_to_host(id: Seq<char>)
    requires
        id == "common.Control.new"@ || id == "common.Control.open"@ || id == "common.Control.save"@ || id == "common.Interactive.undo"@ || id == "common.Interactive.redo"@ || id == "common.Control.updatePcbFromSchematic"@,
    ensures
        action_route(id) is Host,
{
    reveal_strlit("common.Control.new");
    assert("common.Control.new"@.len() == 18);
    reveal_strlit("common.Control.open");
    assert("common.Control.open"@.len() == 19);
    reveal_strlit("common.Control.save");
    assert("common.Control.save"@.len() == 19);
    reveal_strlit("common.Interactive.undo");
    assert("common.Interactive.undo"@.len() == 23);
    reveal_strlit("common.Interactive.redo");
    assert("common.Interactive.redo"@.len() == 23);
    reveal_strlit("common.Control.updatePcbFromSchematic");
    assert("common.Control.updatePcbFromSchematic"@.len() == 37);
    reveal_strlit("common.Control.pageSettings");
    assert("common.Control.pageSettings"@.len() == 27);
    reveal_strlit("common.Control.plot");
    assert("common.Control.plot"@.len() == 19);
    reveal_strlit("common.Control.print");
    assert("common.Control.print"@.len() == 20);
    reveal_strlit("common.Control.showSymbolBrowser");
    assert("common.Control.showSymbolBrowser"@.len() == 32);
    reveal_strlit("common.Control.showSymbolEditor");
    assert("common.Control.showSymbolEditor"@.len() == 31);
    reveal_strlit("common.Control.updateSchematicFromPCB");
    assert("common.Control.updateSchematicFromPCB"@.len() == 37);
    reveal_strlit("common.Interactive.find");
    assert("common.Interactive.find"@.len() == 23);
    reveal_strlit("common.Interactive.findAndReplace");
    assert("common.Interactive.findAndReplace"@.len() == 33);
    reveal_strlit("common.Interactive.findNext");
    assert("common.Interactive.findNext"@.len() == 27);
    reveal_strlit("common.Interactive.findPrevious");
    assert("common.Interactive.findPrevious"@.len() == 31);
    reveal_strlit("common.Interactive.properties");
    assert("common.Interactive.properties"@.len() == 29);
    reveal_strlit("common.SuiteControl.openPreferences");
    assert("common.SuiteControl.openPreferences"@.len() == 35);
    reveal_strlit("common.SuiteControl.showSymbolLibTable");
    assert("common.SuiteControl.showSymbolLibTable"@.len() == 38);
    reveal_strlit("eeschema.EditorControl.annotate");
    assert("eeschema.EditorControl.annotate"@.len() == 31);
    reveal_strlit("eeschema.EditorControl.assignFootprints");
    assert("eeschema.EditorControl.assignFootprints"@.len() == 39);
    reveal_strlit("eeschema.EditorControl.createNetChain");
    assert("eeschema.EditorControl.createNetChain"@.len() == 37);
    reveal_strlit("eeschema.EditorControl.ddImportGraphics");
    assert("eeschema.EditorControl.ddImportGraphics"@.len() == 39);
    reveal_strlit("eeschema.EditorControl.editPageNumber");
    assert("eeschema.EditorControl.editPageNumber"@.len() == 37);
    reveal_strlit("eeschema.EditorControl.editSymbolFields");
    assert("eeschema.EditorControl.editSymbolFields"@.len() == 39);
    reveal_strlit("eeschema.EditorControl.editSymbolLibraryLinks");
    assert("eeschema.EditorControl.editSymbolLibraryLinks"@.len() == 45);
    reveal_strlit("eeschema.EditorControl.exportNetlist");
    assert("eeschema.EditorControl.exportNetlist"@.len() == 36);
    reveal_strlit("eeschema.EditorControl.generateBOM");
    assert("eeschema.EditorControl.generateBOM"@.len() == 34);
    reveal_strlit("eeschema.EditorControl.importGraphics");
    assert("eeschema.EditorControl.importGraphics"@.len() == 37);
    reveal_strlit("eeschema.EditorControl.incrementAnnotations");
    assert("eeschema.EditorControl.incrementAnnotations"@.len() == 43);
    reveal_strlit("eeschema.EditorControl.remapSymbols");
    assert("eeschema.EditorControl.remapSymbols"@.len() == 35);
    reveal_strlit("eeschema.EditorControl.rescueSymbols");
    assert("eeschema.EditorControl.rescueSymbols"@.len() == 36);
    reveal_strlit("eeschema.EditorControl.schematicSetup");
    assert("eeschema.EditorControl.schematicSetup"@.len() == 37);
    reveal_strlit("eeschema.EditorControl.showSimulator");
    assert("eeschema.EditorControl.showSimulator"@.len() == 36);
    reveal_strlit("eeschema.InspectionTool.runERC");
    assert("eeschema.InspectionTool.runERC"@.len() == 30);
    reveal_strlit("eeschema.InteractiveDrawing.importSheet");
    assert("eeschema.InteractiveDrawing.importSheet"@.len() == 39);
    reveal_strlit("eeschema.InteractiveDrawing.syncAllSheetsPins");
    assert("eeschema.InteractiveDrawing.syncAllSheetsPins"@.len() == 45);
    reveal_strlit("eeschema.InteractiveDrawing.syncSheetPins");
    assert("eeschema.InteractiveDrawing.syncSheetPins"@.len() == 41);
    reveal_strlit("eeschema.InteractiveEdit.changeSymbol");
    assert("eeschema.InteractiveEdit.changeSymbol"@.len() == 37);
    reveal_strlit("eeschema.InteractiveEdit.changeSymbols");
    assert("eeschema.InteractiveEdit.changeSymbols"@.len() == 38);
    reveal_strlit("eeschema.InteractiveEdit.cleanupSheetPins");
    assert("eeschema.InteractiveEdit.cleanupSheetPins"@.len() == 41);
    reveal_strlit("eeschema.InteractiveEdit.editSymbolPinMaps");
    assert("eeschema.InteractiveEdit.editSymbolPinMaps"@.len() == 42);
    reveal_strlit("eeschema.InteractiveEdit.editTextAndGraphics");
    assert("eeschema.InteractiveEdit.editTextAndGraphics"@.len() == 44);
    reveal_strlit("eeschema.InteractiveEdit.pinTable");
    assert("eeschema.InteractiveEdit.pinTable"@.len() == 33);
    reveal_strlit("eeschema.InteractiveEdit.properties");
    assert("eeschema.InteractiveEdit.properties"@.len() == 35);
    reveal_strlit("eeschema.InteractiveEdit.symbolProperties");
    assert("eeschema.InteractiveEdit.symbolProperties"@.len() == 41);
    reveal_strlit("eeschema.InteractiveEdit.updateSymbol");
    assert("eeschema.InteractiveEdit.updateSymbol"@.len() == 37);
    reveal_strlit("eeschema.InteractiveEdit.updateSymbols");
    assert("eeschema.InteractiveEdit.updateSymbols"@.len() == 38);
    reveal_strlit("eeschema.SymbolLibraryControl.importSymbol");
    assert("eeschema.SymbolLibraryControl.importSymbol"@.len() == 42);
    reveal_strlit("eeschema.SymbolLibraryControl.newSymbol");
    assert("eeschema.SymbolLibraryControl.newSymbol"@.len() == 39);
    reveal_strlit("eeschema.SymbolLibraryControl.showLibraryFieldsTable");
    assert("eeschema.SymbolLibraryControl.showLibraryFieldsTable"@.len() == 52);
    reveal_strlit("eeschema.SymbolLibraryControl.showRelatedLibraryFieldsTable");
    assert("eeschema.SymbolLibraryControl.showRelatedLibraryFieldsTable"@.len() == 59);
    reveal_strlit("eeschema.SymbolLibraryControl.updateSymbolFields");
    assert("eeschema.SymbolLibraryControl.updateSymbolFields"@.len() == 48);
    reveal_strlit("gpui.FieldCaseConflicts");
    assert("gpui.FieldCaseConflicts"@.len() == 23);
    reveal_strlit("gpui.MigrateBuses");
    assert("gpui.MigrateBuses"@.len() == 17);
    reveal_strlit("gpui.RemoteSymbols.settings");
    assert("gpui.RemoteSymbols.settings"@.len() == 27);
    reveal_strlit("gpui.SchematicDataSources");
    assert("gpui.SchematicDataSources"@.len() == 25);
    reveal_strlit("gpui.Setup.buses");
    assert("gpui.Setup.buses"@.len() == 16);
    reveal_strlit("gpui.Setup.import");
    assert("gpui.Setup.import"@.len() == 17);
    reveal_strlit("gpui.Setup.netchains");
    assert("gpui.Setup.netchains"@.len() == 20);
    reveal_strlit("gpui.Setup.netclasses");
    assert("gpui.Setup.netclasses"@.len() == 21);
    reveal_strlit("common.Interactive.deleteTool");
    assert("common.Interactive.deleteTool"@.len() == 29);
    reveal_strlit("common.Interactive.measureTool");
    assert("common.Interactive.measureTool"@.len() == 30);
    reveal_strlit("common.InteractiveSelection.selectionTool");
    assert("common.InteractiveSelection.selectionTool"@.len() == 41);
    reveal_strlit("eeschema.EditorControl.highlightNetTool");
    assert("eeschema.EditorControl.highlightNetTool"@.len() == 39);
    reveal_strlit("eeschema.InteractiveDrawing.drawArc");
    assert("eeschema.InteractiveDrawing.drawArc"@.len() == 35);
    reveal_strlit("eeschema.InteractiveDrawing.drawCircle");
    assert("eeschema.InteractiveDrawing.drawCircle"@.len() == 38);
    reveal_strlit("eeschema.InteractiveDrawing.drawRectangle");
    assert("eeschema.InteractiveDrawing.drawRectangle"@.len() == 41);
    reveal_strlit("eeschema.InteractiveDrawing.drawSheet");
    assert("eeschema.InteractiveDrawing.drawSheet"@.len() == 37);
    reveal_strlit("eeschema.InteractiveDrawing.placeBusWireEntry");
    assert("eeschema.InteractiveDrawing.placeBusWireEntry"@.len() == 45);
    reveal_strlit("eeschema.InteractiveDrawing.placeGlobalLabel");
    assert("eeschema.InteractiveDrawing.placeGlobalLabel"@.len() == 44);
    reveal_strlit("eeschema.InteractiveDrawing.placeHierarchicalLabel");
    assert("eeschema.InteractiveDrawing.placeHierarchicalLabel"@.len() == 50);
    reveal_strlit("eeschema.InteractiveDrawing.placeImage");
    assert("eeschema.InteractiveDrawing.placeImage"@.len() == 38);
    reveal_strlit("eeschema.InteractiveDrawing.placeJunction");
    assert("eeschema.InteractiveDrawing.placeJunction"@.len() == 41);
    reveal_strlit("eeschema.InteractiveDrawing.placeLabel");
    assert("eeschema.InteractiveDrawing.placeLabel"@.len() == 38);
    reveal_strlit("eeschema.InteractiveDrawing.placeNoConnect");
    assert("eeschema.InteractiveDrawing.placeNoConnect"@.len() == 42);
    reveal_strlit("eeschema.InteractiveDrawing.placePowerSymbol");
    assert("eeschema.InteractiveDrawing.placePowerSymbol"@.len() == 44);
    reveal_strlit("eeschema.InteractiveDrawing.placeSchematicText");
    assert("eeschema.InteractiveDrawing.placeSchematicText"@.len() == 46);
    reveal_strlit("eeschema.InteractiveDrawing.placeSymbol");
    assert("eeschema.InteractiveDrawing.placeSymbol"@.len() == 39);
    reveal_strlit("eeschema.InteractiveDrawingLineWireBus.drawBuses");
    assert("eeschema.InteractiveDrawingLineWireBus.drawBuses"@.len() == 48);
    reveal_strlit("eeschema.InteractiveDrawingLineWireBus.drawLines");
    assert("eeschema.InteractiveDrawingLineWireBus.drawLines"@.len() == 48);
    reveal_strlit("eeschema.InteractiveDrawingLineWireBus.drawWires");
    assert("eeschema.InteractiveDrawingLineWireBus.drawWires"@.len() == 48);
    assert("common.Control.open"@[15] != "common.Control.plot"@[15]);
    assert("common.Control.save"@[15] != "common.Control.plot"@[15]);
    assert("common.Interactive.undo"@[19] != "common.Interactive.find"@[19]);
    assert("common.Interactive.undo"@[0] != "gpui.FieldCaseConflicts"@[0]);
    assert("common.Interactive.redo"@[19] != "common.Interactive.find"@[19]);
    assert("common.Interactive.redo"@[0] != "gpui.FieldCaseConflicts"@[0]);
    assert("common.Control.updatePcbFromSchematic"@[21] != "common.Control.updateSchematicFromPCB"@[21]);
    assert("common.Control.updatePcbFromSchematic"@[0] != "eeschema.EditorControl.createNetChain"@[0]);
    assert("common.Control.updatePcbFromSchematic"@[0] != "eeschema.EditorControl.editPageNumber"@[0]);
    assert("common.Control.updatePcbFromSchematic"@[0] != "eeschema.EditorControl.importGraphics"@[0]);
    assert("common.Control.updatePcbFromSchematic"@[0] != "eeschema.EditorControl.schematicSetup"@[0]);
    assert("common.Control.updatePcbFromSchematic"@[0] != "eeschema.InteractiveEdit.changeSymbol"@[0]);
    assert("common.Control.updatePcbFromSchematic"@[0] != "eeschema.InteractiveEdit.updateSymbol"@[0]);
    assert("common.Control.updatePcbFromSchematic"@[0] != "eeschema.InteractiveDrawing.drawSheet"@[0]);
    assert forall|t: Tool| tool_spec(t).id.0@ != id by {
        match t {
            Tool::Select => {},
            Tool::HighlightNet => {},
            Tool::PlaceSymbol => {},
            Tool::PlacePower => {},
            Tool::DrawWire => {},
            Tool::DrawBus => {},
            Tool::PlaceBusEntry => {},
            Tool::PlaceJunction => {},
            Tool::PlaceNoConnect => {},
            Tool::PlaceLabel => {},
            Tool::PlaceGlobalLabel => {},
            Tool::PlaceHierLabel => {},
            Tool::DrawSheet => {},
            Tool::PlaceText => {},
            Tool::DrawRectangle => {},
            Tool::DrawCircle => {},
            Tool::DrawArc => {},
            Tool::DrawLine => {},
            Tool::PlaceImage => {},
            Tool::DeleteItems => {},
            Tool::Measure => {},
        }
    }
}

/// The host hears every KiCad action a toolbar button dispatches: the
/// document actions, and the electrical rules check and annotation as well.
pub proof fn lemma_toolbar_reaches_host(i: int)
    requires
        0 <= i < toolbar_layout().len(),
        toolbar_layout()[i].2 is Kicad,
    ensures
        host_hears(toolbar_layout()[i].2->Kicad_0@),
        dispatch_of(toolbar_layout()[i].2->Kicad_0@).report,
{
    let id = toolbar_layout()[i].2->Kicad_0@;
    if i != 8 && i != 9 {
        lemma_document_actions_go_to_host(id);
    }
}

/// A native editing command that a focused text input carries out itself.
#[derive(Clone, Copy, Debug, PartialEq, Eq, Hash, Structural)]
pub enum EditCommand {
    /// Cut the selection.
    Cut,
    /// Copy the selection.
    Copy,
    /// Paste the clipboard.
    Paste,
    /// Select all text.
    SelectAll,
    /// Undo the last edit.
    Undo,
    /// Redo the last undone edit.
    Redo,
}

/// The editing command the action named `id` stands for in a text input:
/// KiCad's own clipboard, selection and history actions, and nothing else.
pub open spec fn edit_command(id: Seq<char>) -> Option<EditCommand> {
    if id == "common.Interactive.cut"@ {
        Some(EditCommand::Cut)
    } else if id == "common.Interactive.copy"@ {
        Some(EditCommand::Copy)
    } else if id == "common.Interactive.paste"@ {
        Some(EditCommand::Paste)
    } else if id == "common.Interactive.selectAll"@ {
        Some(EditCommand::SelectAll)
    } else if id == "common.Interactive.undo"@ {
        Some(EditCommand::Undo)
    } else if id == "common.Interactive.redo"@ {
        Some(EditCommand::Redo)
    } else {
        None
    }
}

/// The editing command a focused text input runs in place of the action
/// named `id`, if there is one. Such an action never reaches the schematic
/// while an input has focus.
pub fn input_edit_action(id: &str) -> (command: Option<EditCommand>)
    ensures
        command == edit_command(id@),
{
    if str_eq(id, "common.Interactive.cut") {
        Some(EditCommand::Cut)
    } else if str_eq(id, "common.Interactive.copy") {
        Some(EditCommand::Copy)
    } else if str_eq(id, "common.Interactive.paste") {
        Some(EditCommand::Paste)
    } else if str_eq(id, "common.Interactive.selectAll") {
        Some(EditCommand::SelectAll)
    } else if str_eq(id, "common.Interactive.undo") {
        Some(EditCommand::Undo)
    } else if str_eq(id, "common.Interactive.redo") {
        Some(EditCommand::Redo)
    } else {
        None
    }
}

} // verus!
