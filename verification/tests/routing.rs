use kicad_sch_ui::dialogs::{document_title, DialogKind, SearchOperation, DOCUMENT_DIALOG_COUNT};
use kicad_sch_ui::routing::{
    companion_workflow, dispatch_action, input_edit_action, reports_to_host, route_action, ActionRoute,
    Dispatch, EditCommand,
};
use kicad_sch_ui::tool_state::{ActiveTool, ToolEvent};
use kicad_sch_ui::tools::{tools, Tool};

#[test]
fn native_edit_commands_map_to_kit_inputs_not_schematic_actions() {
    assert_eq!(input_edit_action("common.Interactive.copy"), Some(EditCommand::Copy));
    assert_eq!(input_edit_action("common.Interactive.cut"), Some(EditCommand::Cut));
    assert_eq!(input_edit_action("common.Interactive.paste"), Some(EditCommand::Paste));
    assert_eq!(
        input_edit_action("common.Interactive.selectAll"),
        Some(EditCommand::SelectAll)
    );
    assert_eq!(input_edit_action("common.Interactive.undo"), Some(EditCommand::Undo));
    assert_eq!(input_edit_action("common.Interactive.redo"), Some(EditCommand::Redo));
    assert!(input_edit_action("eeschema.EditorControl.annotate").is_none());
}

#[test]
fn document_workflows_open_their_dialog() {
    assert_eq!(
        route_action("eeschema.EditorControl.annotate"),
        ActionRoute::DocumentDialog(0)
    );
    assert_eq!(route_action("common.Control.pageSettings"), ActionRoute::DocumentDialog(2));
    assert_eq!(
        route_action("eeschema.EditorControl.editPageNumber"),
        ActionRoute::DocumentDialog(2)
    );
    assert_eq!(route_action("gpui.Setup.buses"), ActionRoute::DocumentDialog(13));
    assert_eq!(
        route_action("eeschema.InteractiveDrawing.importSheet"),
        ActionRoute::DocumentDialog(23)
    );
    assert_eq!(document_title(0), "Annotate Schematic");
    assert_eq!(document_title(13), "Bus Aliases");
    assert_eq!(document_title(23), "Import Schematic");
    assert_eq!(DOCUMENT_DIALOG_COUNT, 24);
}

#[test]
fn shell_workflows_take_their_action_names() {
    assert_eq!(
        route_action("eeschema.EditorControl.showSimulator"),
        ActionRoute::Simulator
    );
    assert_eq!(
        route_action("eeschema.InteractiveEdit.editSymbolPinMaps"),
        ActionRoute::SymbolWorkflow(18)
    );
    assert_eq!(
        route_action("eeschema.InteractiveDrawing.syncAllSheetsPins"),
        ActionRoute::SheetPinSync { all_sheets: true }
    );
    assert_eq!(
        route_action("eeschema.InteractiveDrawing.syncSheetPins"),
        ActionRoute::SheetPinSync { all_sheets: false }
    );
    assert_eq!(
        route_action("common.Interactive.findAndReplace"),
        ActionRoute::Find { replace: true }
    );
    assert_eq!(route_action("common.Interactive.find"), ActionRoute::Find { replace: false });
    assert_eq!(
        route_action("common.Interactive.findPrevious"),
        ActionRoute::FindStep { previous: true }
    );
    assert_eq!(route_action("eeschema.InspectionTool.runERC"), ActionRoute::Erc);
    assert_eq!(
        route_action("common.Control.showSymbolBrowser"),
        ActionRoute::Symbols { power_only: false }
    );
}

#[test]
fn tool_names_activate_tools_and_open_their_companions() {
    for spec in tools() {
        assert_eq!(route_action(spec.id.as_str()), ActionRoute::Tool(spec.tool));
        let companion = companion_workflow(spec.id.as_str());
        match spec.tool {
            Tool::PlaceImage => assert_eq!(companion, Some(ActionRoute::ImageImport)),
            Tool::PlaceSymbol => assert_eq!(companion, Some(ActionRoute::Symbols { power_only: false })),
            Tool::PlacePower => assert_eq!(companion, Some(ActionRoute::Symbols { power_only: true })),
            _ => assert_eq!(companion, None),
        }
        assert!(!reports_to_host(spec.id.as_str()));
    }
    assert_eq!(route_action("common.Control.save"), ActionRoute::Host);
    assert_eq!(route_action(""), ActionRoute::Host);
}

#[test]
fn every_tool_button_activates_its_tool() {
    let mut active = ActiveTool::new();
    for spec in tools() {
        if spec.tool == Tool::Select {
            continue;
        }
        let tool = match route_action(spec.id.as_str()) {
            ActionRoute::Tool(tool) => tool,
            other => panic!("{} routed to {other:?}", spec.button_id),
        };
        let events = active.set_tool(tool);
        assert_eq!(active.tool(), spec.tool, "clicking {} did not activate it", spec.button_id);
        let activated: Vec<&str> = events
            .iter()
            .filter_map(|event| match event {
                ToolEvent::ToolActivated(id) => Some(id.as_str()),
                _ => None,
            })
            .collect();
        assert_eq!(activated, vec![spec.id.as_str()], "{} reported the wrong tool id", spec.button_id);
    }
}

#[test]
fn the_rules_check_and_annotation_open_their_dialogs_and_reach_the_host() {
    assert_eq!(
        dispatch_action("eeschema.InspectionTool.runERC"),
        Dispatch { route: ActionRoute::Erc, companion: None, report: true }
    );
    assert_eq!(
        dispatch_action("eeschema.EditorControl.annotate"),
        Dispatch { route: ActionRoute::DocumentDialog(0), companion: None, report: true }
    );
    assert_eq!(
        dispatch_action("common.Control.plot"),
        Dispatch { route: ActionRoute::DocumentDialog(4), companion: None, report: false }
    );
    assert_eq!(
        dispatch_action("common.Control.save"),
        Dispatch { route: ActionRoute::Host, companion: None, report: true }
    );
    assert_eq!(
        dispatch_action("eeschema.InteractiveDrawing.placeSymbol"),
        Dispatch {
            route: ActionRoute::Tool(Tool::PlaceSymbol),
            companion: Some(ActionRoute::Symbols { power_only: false }),
            report: false
        }
    );
}

#[test]
fn library_symbol_workflows_get_their_own_windows() {
    assert_eq!(DialogKind::simulation(1), DialogKind::Simulation);
    assert_eq!(DialogKind::simulation(3), DialogKind::LibrarySymbol(3));
    assert_eq!(DialogKind::simulation(12), DialogKind::LibrarySymbol(12));
    assert_eq!(DialogKind::simulation(13), DialogKind::Simulation);
    assert_eq!(DialogKind::simulation(16), DialogKind::LibrarySymbol(16));
    assert_eq!(DialogKind::simulation(17), DialogKind::Simulation);
    assert_eq!(DialogKind::simulation(18), DialogKind::LibrarySymbol(18));
    assert_eq!(DialogKind::simulation(22), DialogKind::LibrarySymbol(22));
}

#[test]
fn search_operations_name_kicad_actions() {
    assert_eq!(SearchOperation::Next.action(), Some("common.Interactive.findNext"));
    assert_eq!(
        SearchOperation::Previous.action(),
        Some("common.Interactive.findPrevious")
    );
    assert_eq!(
        SearchOperation::Replace.action(),
        Some("common.Interactive.replaceAndFindNext")
    );
    assert_eq!(
        SearchOperation::ReplaceAll.action(),
        Some("common.Interactive.replaceAll")
    );
    assert_eq!(SearchOperation::Close.action(), None);
}
