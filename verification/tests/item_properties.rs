use kicad_sch_ui::item_properties::{
    apply_value, boolean_value, editor_for, shows_property, unit_suffix, Editor, ItemProperties,
};

#[test]
fn each_kind_gets_its_editor() {
    assert_eq!(editor_for(1), Editor::CheckBox);
    assert_eq!(editor_for(7), Editor::Choice);
    assert_eq!(editor_for(8), Editor::Multiline);
    assert_eq!(editor_for(0), Editor::Text);
    assert_eq!(editor_for(4), Editor::Text);
}

#[test]
fn lengths_and_angles_name_their_unit_once() {
    assert_eq!(unit_suffix(4, "Width"), " (mm)");
    assert_eq!(unit_suffix(4, "Width (mm)  "), "");
    assert_eq!(unit_suffix(5, "Rotation"), " (\u{b0})");
    assert_eq!(unit_suffix(5, "Rotation (\u{b0})"), "");
    assert_eq!(unit_suffix(0, "Name"), "");
}

#[test]
fn applying_takes_each_editor_at_its_word() {
    assert_eq!(apply_value(7, "a", Some("b"), "typed"), "b");
    assert_eq!(apply_value(7, "a", None, "typed"), "a");
    assert_eq!(apply_value(1, "true", None, "typed"), "true");
    assert_eq!(apply_value(8, "a", None, "line one\nline two"), "line one\nline two");
    assert_eq!(apply_value(2, "1", None, "2"), "2");
    assert_eq!(boolean_value(true), "true");
    assert_eq!(boolean_value(false), "false");
}

#[test]
fn the_filter_matches_names_case_aside() {
    assert!(shows_property("Reference", "REF"));
    assert!(shows_property("Reference", ""));
    assert!(!shows_property("Value", "ref"));
}

#[test]
fn capabilities_enable_the_extra_controls() {
    let none = ItemProperties {
        capabilities: 0,
        item_id: "x".into(),
        entries: Vec::new(),
    };
    assert!(!none.allows_custom_fields());
    assert!(!none.allows_sheet_relink());
    assert_eq!(none.relink_label(), "Relink Sheet (clears undo history)");
    let all = ItemProperties {
        capabilities: 7,
        item_id: "x".into(),
        entries: Vec::new(),
    };
    assert!(all.allows_custom_fields());
    assert!(all.allows_sheet_relink());
    assert_eq!(all.relink_label(), "Set Sheet File");
}
