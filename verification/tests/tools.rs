use std::collections::HashSet;

use kicad_sch_ui::tools::{palette_tool_at, tool_for_button, tools, Tool, TOOL_COUNT};

#[test]
fn every_tool_variant_has_a_row() {
    let variants = [
        Tool::Select,
        Tool::HighlightNet,
        Tool::PlaceSymbol,
        Tool::PlacePower,
        Tool::DrawWire,
        Tool::DrawBus,
        Tool::PlaceBusEntry,
        Tool::PlaceJunction,
        Tool::PlaceNoConnect,
        Tool::PlaceLabel,
        Tool::PlaceGlobalLabel,
        Tool::PlaceHierLabel,
        Tool::DrawSheet,
        Tool::PlaceText,
        Tool::DrawRectangle,
        Tool::DrawCircle,
        Tool::DrawArc,
        Tool::DrawLine,
        Tool::PlaceImage,
        Tool::DeleteItems,
        Tool::Measure,
    ];
    assert_eq!(variants.len(), tools().len());
    for tool in variants {
        assert_eq!(tool.spec().tool, tool);
    }
}

#[test]
fn button_ids_tool_ids_and_shortcuts_are_unique() {
    let mut buttons = HashSet::new();
    let mut ids = HashSet::new();
    let mut keys = HashSet::new();
    for spec in tools() {
        assert!(
            buttons.insert(spec.button_id),
            "duplicate {}",
            spec.button_id
        );
        assert!(ids.insert(spec.id), "duplicate {}", spec.id.as_str());
        if let Some(key) = spec.shortcut {
            assert!(keys.insert(key), "duplicate shortcut {key}");
        }
    }
}

#[test]
fn tool_ids_are_namespaced_kicad_action_names() {
    for spec in tools() {
        let name = spec.id.as_str();
        assert!(
            name.starts_with("eeschema.") || name.starts_with("common."),
            "{name} is not a KiCad action name"
        );
        assert!(name.matches('.').count() >= 2, "{name} lacks a tool class");
    }
}

#[test]
fn buttons_resolve_back_to_their_tool() {
    assert_eq!(tool_for_button("tool-wire"), Some(Tool::DrawWire));
    assert_eq!(tool_for_button("tool-nonexistent"), None);
}

// ---------------------------------------------------------------------------
// Further cases

#[test]
fn every_button_id_finds_its_own_tool() {
    for spec in tools() {
        assert_eq!(tool_for_button(spec.button_id), Some(spec.tool));
    }
    assert_eq!(tool_for_button(""), None);
    assert_eq!(tool_for_button("tool-wir"), None);
}

#[test]
fn the_palette_runs_in_table_order() {
    assert_eq!(TOOL_COUNT, 21);
    let specs = tools();
    for (i, spec) in specs.iter().enumerate() {
        assert_eq!(palette_tool_at(i), spec.tool);
    }
    assert_eq!(palette_tool_at(0), Tool::Select);
    assert_eq!(palette_tool_at(TOOL_COUNT - 1), Tool::Measure);
}

#[test]
fn the_wire_row_reads_as_eeschema_has_it() {
    let spec = Tool::DrawWire.spec();
    assert_eq!(spec.id.as_str(), "eeschema.InteractiveDrawingLineWireBus.drawWires");
    assert_eq!(spec.button_id, "tool-wire");
    assert_eq!(Tool::DrawWire.label(), "Draw Wire");
    assert_eq!(spec.shortcut, Some("w"));
    assert_eq!(Tool::Select.spec().shortcut, None);
}
