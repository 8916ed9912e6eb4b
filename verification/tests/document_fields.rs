use kicad_sch_ui::document_fields::{
    apply_values, choices, field_kind, first_typed_field, visible_fields, ChoiceSet, FieldKind,
};

#[test]
fn options_use_controls_and_identity_is_hidden() {
    assert!(matches!(field_kind(0, 1), FieldKind::Choice(_)));
    assert!(matches!(field_kind(0, 3), FieldKind::Boolean));
    assert!(matches!(field_kind(7, 0), FieldKind::Hidden));
    assert!(matches!(field_kind(12, 0), FieldKind::Hidden));
}

#[test]
fn field_conflict_rows_repeat_in_threes() {
    assert_eq!(field_kind(21, 0), FieldKind::ReadOnly);
    assert_eq!(field_kind(21, 1), FieldKind::Text);
    assert_eq!(field_kind(21, 2), FieldKind::Hidden);
    assert_eq!(field_kind(21, 3), FieldKind::ReadOnly);
    assert_eq!(field_kind(21, 4), FieldKind::Choice(ChoiceSet::FieldConflict));
    assert_eq!(field_kind(21, 5), FieldKind::Hidden);
    assert_eq!(field_kind(19, 1), FieldKind::Hidden);
    assert_eq!(field_kind(19, 2), FieldKind::Text);
    assert_eq!(field_kind(22, 9), FieldKind::ReadOnly);
    assert_eq!(field_kind(14, 5), FieldKind::Number);
    assert_eq!(field_kind(14, 9), FieldKind::ReadOnly);
    assert_eq!(field_kind(99, 0), FieldKind::Text);
}

#[test]
fn choice_lists_pair_values_with_labels() {
    let sizes = choices(ChoiceSet::PageSize);
    assert_eq!(sizes.len(), 13);
    assert_eq!(sizes[0], ("A4", "A4"));
    assert_eq!(sizes[6], ("A", "ANSI A"));
    assert_eq!(
        choices(ChoiceSet::AnnotateNumbering)[1],
        ("100", "Sheet \u{d7} 100")
    );
    assert_eq!(choices(ChoiceSet::PlotFormat)[3], ("ps", "PostScript"));
}

#[test]
fn focus_lands_on_the_first_typed_field() {
    assert_eq!(first_typed_field(0, 5), Some(0));
    assert_eq!(first_typed_field(7, 3), Some(1));
    assert_eq!(first_typed_field(7, 1), None);
    assert_eq!(first_typed_field(0, 0), None);
}

#[test]
fn applying_keeps_what_is_not_typed() {
    let supplied: Vec<String> = ["id", "name", "yes"].iter().map(|s| s.to_string()).collect();
    let typed: Vec<String> = ["x", "new name", "no"].iter().map(|s| s.to_string()).collect();
    let values = apply_values(7, &supplied, &typed);
    assert_eq!(values, vec!["id", "new name", "no"]);
    assert_eq!(visible_fields(7, 3), vec![1, 2]);
    assert_eq!(visible_fields(21, 6), vec![0, 1, 3, 4]);
}
