use kicad_sch_ui::symbol_browser::{SymbolChooser, SymbolRequest};

fn names(items: &[&str]) -> Vec<String> {
    items.iter().map(|s| s.to_string()).collect()
}

#[test]
fn typing_a_full_name_places_it_and_otherwise_the_first_match() {
    let mut chooser = SymbolChooser::new();
    chooser.open(names(&["power:GND", "power:VCC", "Device:R"]), names(&["power"]), true);
    match chooser.place("  power:VCC ") {
        Some(SymbolRequest::Place(id, 1, 1)) => assert_eq!(id, "power:VCC"),
        other => panic!("{other:?}"),
    }
    match chooser.place("vcc") {
        Some(SymbolRequest::Place(id, 1, 1)) => assert_eq!(id, "power:VCC"),
        other => panic!("{other:?}"),
    }
    match chooser.place("POWER") {
        Some(SymbolRequest::Place(id, _, _)) => assert_eq!(id, "power:GND"),
        other => panic!("{other:?}"),
    }
    assert!(chooser.place("capacitor").is_none());
}

#[test]
fn a_previewed_symbol_is_placed_with_its_unit_and_body() {
    let mut chooser = SymbolChooser::new();
    chooser.open(names(&["Amp:OPA2"]), Vec::new(), false);
    match chooser.preview("Amp:OPA2") {
        SymbolRequest::Preview(id, 1, 1) => assert_eq!(id, "Amp:OPA2"),
        other => panic!("{other:?}"),
    }
    chooser.set_preview_counts(2, 1);
    assert_eq!(chooser.next_unit(), 2);
    assert_eq!(chooser.next_body(), 1);
    match chooser.place_id("Amp:OPA2") {
        SymbolRequest::Place(_, 2, 1) => {}
        other => panic!("{other:?}"),
    }
    match chooser.place_id("Amp:OTHER") {
        SymbolRequest::Place(_, 1, 1) => {}
        other => panic!("{other:?}"),
    }
    assert_eq!(chooser.next_unit(), 1);
    match chooser.preview("Amp:OPA2") {
        SymbolRequest::Preview(_, 1, 1) => {}
        other => panic!("{other:?}"),
    }
    chooser.next_unit();
    match chooser.preview("Amp:OPA4") {
        SymbolRequest::Preview(_, 1, 1) => {}
        other => panic!("{other:?}"),
    }
}

#[test]
fn browsing_empties_the_list_and_keeps_the_power_filter() {
    let mut chooser = SymbolChooser::new();
    chooser.open(names(&["a:b"]), names(&["power", "Device", "Amplifier"]), true);
    match chooser.browse("power") {
        SymbolRequest::Browse(library, true) => assert_eq!(library, "power"),
        other => panic!("{other:?}"),
    }
    assert!(chooser.matching_symbols("").is_empty());
    assert_eq!(chooser.matching_libraries("ICE"), vec!["Device"]);
    assert_eq!(chooser.matching_libraries(""), vec!["power", "Device", "Amplifier"]);
}
