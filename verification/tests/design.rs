use kicad_sch_ui::design::{DesignState, SheetNode};

fn contains(nodes: &[SheetNode], id: &str) -> bool {
    nodes
        .iter()
        .any(|node| node.id == id || contains(&node.children, id))
}

#[test]
fn selecting_a_symbol_changes_the_reported_kind() {
    let mut design = DesignState::placeholder();
    assert_eq!(design.selected_kind(), "Sheet");
    design.select("sym-u1", "U1  MCU-48");
    assert_eq!(design.selected_kind(), "Symbol");
    assert_eq!(design.selected_label(), "U1  MCU-48");
    assert_eq!(design.properties()[0].value, "U1  MCU-48");
}

#[test]
fn the_placeholder_hierarchy_has_nested_sheets() {
    let design = DesignState::placeholder();
    let root = &design.hierarchy()[0];
    assert!(!root.children.is_empty());
    assert!(root.expanded);
    assert!(contains(&root.children, "sym-u2"));
}

#[test]
fn selecting_a_sheet_reports_a_sheet() {
    let mut design = DesignState::default();
    design.select("sym-u1", "U1");
    design.select("sheet-power", "Power");
    assert_eq!(design.selected_id(), "sheet-power");
    assert_eq!(design.selected_kind(), "Sheet");
    design.select("sym", "not quite");
    assert_eq!(design.selected_kind(), "Sheet");
    let names: Vec<&str> = design.properties().iter().map(|p| p.name.as_str()).collect();
    assert_eq!(
        names,
        [
            "Name",
            "Library",
            "Position",
            "Rotation",
            "Unit",
            "Exclude from BOM",
            "Exclude from board",
            "Do not populate"
        ]
    );
    assert_eq!(design.properties()[3].value, "0\u{b0}");
}
