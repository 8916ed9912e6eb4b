use kicad_sch_ui::commands::{kind_reported_id, ActionInfo, ActionRegistry};
use kicad_sch_ui::routing::dispatch_action;
use kicad_sch_ui::toolbar::{action_presentation, toolbar_buttons};

#[test]
fn toolbar_buttons_dispatch_their_kicad_action() {
    let buttons = toolbar_buttons();
    for (button, action) in [
        ("tb-new", "common.Control.new"),
        ("tb-open", "common.Control.open"),
        ("tb-save", "common.Control.save"),
        ("tb-undo", "common.Interactive.undo"),
        ("tb-redo", "common.Interactive.redo"),
        ("tb-erc", "eeschema.InspectionTool.runERC"),
        ("tb-annotate", "eeschema.EditorControl.annotate"),
    ] {
        let found = buttons.iter().find(|b| b.id == button).unwrap();
        assert_eq!(kind_reported_id(found.kind), action, "{button} reported the wrong action");
        assert!(dispatch_action(kind_reported_id(found.kind)).report, "{button} never reaches the host");
        assert!(found.from_registry);
    }
    let zoom = buttons.iter().find(|b| b.id == "tb-zoom-in").unwrap();
    assert_eq!(kind_reported_id(zoom.kind), "common.Control.zoomIn");
    assert!(!zoom.from_registry);
}

#[test]
fn a_standalone_button_uses_its_fallbacks() {
    let shown = action_presentation(None, "common.Control.save", "Save", "Save the schematic", Some("ctrl-s"), false);
    assert_eq!(shown.label, "Save");
    assert_eq!(shown.tooltip, "Save (Ctrl+S)\nSave the schematic");
    assert!(shown.available);
    let mac = action_presentation(None, "common.Control.save", "Save", "", Some("ctrl-s"), true);
    assert_eq!(mac.tooltip, "Save (Cmd+S)");
}

#[test]
fn a_live_host_decides_label_shortcut_and_availability() {
    let registry = ActionRegistry::new(vec![ActionInfo {
        name: "common.Control.save".into(),
        label: "Save".into(),
        description: "Save".into(),
        hotkey: "Ctrl+S".into(),
        ..Default::default()
    }]);
    let shown = action_presentation(Some(&registry), "common.Control.save", "x", "y", None, false);
    assert_eq!(shown.tooltip, "Save (Ctrl+S)");
    assert!(shown.available);
    let missing = action_presentation(Some(&registry), "common.Control.open", "Open...", "", Some("ctrl-o"), false);
    assert!(!missing.available);
    assert_eq!(missing.label, "Open...");
    assert_eq!(missing.tooltip, "Open...\nAction unavailable in this host");
}
