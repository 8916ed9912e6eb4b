use kicad_sch_ui::simulation_form::{simulation_form, value_for};

fn rows(items: &[(&str, &str)]) -> Vec<(String, String)> {
    items
        .iter()
        .map(|(l, v)| (l.to_string(), v.to_string()))
        .collect()
}

#[test]
fn auxiliary_rows_feed_the_fields() {
    let form = simulation_form(
        0,
        &rows(&[
            ("Model", "R"),
            ("Device", "R"),
            ("Type", "default"),
            ("Choice 0", "R"),
            ("Choice 0", "C"),
            ("Device choice", "R"),
            ("Device choice", "L"),
            ("Type choice", "default"),
            ("Enabled", "true"),
            ("Password", "secret"),
            ("Wheel actions", "1,x,4"),
            ("Sample", "0,1,2"),
        ]),
    );
    assert_eq!(form.fields.len(), 5);
    assert_eq!(form.fields[0].options, vec!["R", "C"]);
    assert_eq!(form.fields[0].selected.as_deref(), Some("R"));
    assert_eq!(form.fields[1].options, vec!["R", "L"]);
    assert_eq!(form.fields[2].options, vec!["default"]);
    assert_eq!(form.fields[3].boolean, Some(true));
    assert!(form.fields[3].options.is_empty());
    assert!(form.fields[4].masked);
    assert_eq!(form.wheel, vec![1, 4]);
    assert_eq!(form.samples, vec!["0,1,2"]);
    assert_eq!(form.flags, 0);
}

#[test]
fn position_fields_start_on_the_option_they_number() {
    let form = simulation_form(1, &rows(&[("Model", "x"), ("Flags", "6"), ("Simulator", "3")]));
    assert_eq!(form.flags, 6);
    assert_eq!(form.fields[2].options.len(), 6);
    assert_eq!(form.fields[2].selected.as_deref(), Some("LTspice"));
    let fallback = simulation_form(1, &rows(&[("Model", "x"), ("Flags", "no"), ("Simulator", "?")]));
    assert_eq!(fallback.flags, 0);
    assert_eq!(fallback.fields[2].selected.as_deref(), Some("Ngspice"));
    let wheel = simulation_form(15, &rows(&[("Vertical", "9")]));
    assert_eq!(wheel.fields[0].selected.as_deref(), Some(""));
}

#[test]
fn pin_rows_offer_types_and_orientations() {
    let form = simulation_form(
        5,
        &rows(&[("Pin 1 Electrical type", "Input"), ("Pin 1 Orientation", "Up"), ("Pin 1 Name", "A")]),
    );
    assert_eq!(form.fields[0].options.len(), 12);
    assert_eq!(form.fields[1].options, vec!["Right", "Left", "Up", "Down"]);
    assert_eq!(form.fields[1].selected.as_deref(), Some("Up"));
    assert!(form.fields[2].options.is_empty());
}

#[test]
fn values_go_back_the_way_the_host_reads_them() {
    assert_eq!(value_for(1, 1, 42, None, None, "ignored"), "42");
    assert_eq!(value_for(3, 0, 0, Some(false), None, "x"), "false");
    assert_eq!(value_for(15, 0, 0, None, Some("Zoom"), "x"), "4");
    assert_eq!(value_for(15, 0, 0, None, Some("Spin"), "x"), "0");
    assert_eq!(value_for(1, 2, 0, None, Some("HSpice"), "x"), "5");
    assert_eq!(value_for(1, 2, 0, None, Some("Other"), "x"), "1");
    assert_eq!(value_for(0, 1, 0, None, Some("L"), "x"), "L");
    assert_eq!(value_for(0, 3, 0, None, None, "typed"), "typed");
}

#[test]
fn a_new_pin_map_takes_the_first_free_number_and_lists_the_pins() {
    let before = rows(&[
        ("Symbol", "U1"),
        ("Footprint", ""),
        ("Pins", "2"),
        ("Pin 1", "1"),
        ("Pin 2", "2"),
        ("Map name", "Map 1"),
        ("Associated footprints (; separated)", "SOIC"),
        ("Pin 1 \u{2192} pad", "1"),
        ("Pin 2 \u{2192} pad", "3"),
    ]);
    let after = kicad_sch_ui::simulation_form::add_pin_map(&before, None);
    assert_eq!(after.len(), before.len() + 4);
    assert_eq!(&after[..before.len()], &before[..]);
    assert_eq!(after[9], ("Map name".to_string(), "Map 2".to_string()));
    assert_eq!(after[10].1, "");
    assert_eq!(after[11], ("Pin 1 \u{2192} pad".to_string(), "1".to_string()));
    assert_eq!(after[12], ("Pin 2 \u{2192} pad".to_string(), "2".to_string()));
    let copied = kicad_sch_ui::simulation_form::add_pin_map(&after, Some(5));
    assert_eq!(copied[13], ("Map name".to_string(), "Map 3".to_string()));
    assert_eq!(copied[14], ("Associated footprints (; separated)".to_string(), String::new()));
    assert_eq!(copied[16].1, "3");
    assert_eq!(kicad_sch_ui::simulation_form::pin_map_count(&copied), 2);
    assert_eq!(kicad_sch_ui::simulation_form::next_map_number(&copied), 4);
}

#[test]
fn removing_rows_drops_exactly_that_range() {
    let before = rows(&[("a", "1"), ("b", "2"), ("c", "3"), ("d", "4")]);
    let after = kicad_sch_ui::simulation_form::remove_rows(&before, 1, 2);
    assert_eq!(after, rows(&[("a", "1"), ("d", "4")]));
    assert_eq!(kicad_sch_ui::simulation_form::remove_rows(&before, 4, 0), before);
    assert_eq!(kicad_sch_ui::simulation_form::remove_rows(&before, 0, 4), Vec::new());
}
