use kicad_sch_ui::erc::{count_severity, erc_status, severity_label, ErcFilter};

#[test]
fn severities_are_named() {
    assert_eq!(severity_label(0x20), "Error");
    assert_eq!(severity_label(0x10), "Warning");
    assert_eq!(severity_label(0x04), "Excluded");
    assert_eq!(severity_label(0x01), "Info");
    assert_eq!(severity_label(0x30), "Info");
}

#[test]
fn results_are_counted_by_severity() {
    let severities = vec![0x20, 0x10, 0x20, 0x04, 0x01];
    assert_eq!(count_severity(&severities, 0x20), 2);
    assert_eq!(count_severity(&severities, 0x10), 1);
    assert_eq!(count_severity(&Vec::new(), 0x20), 0);
}

#[test]
fn filters_hide_only_what_they_name() {
    let severities = vec![0x20, 0x10, 0x04, 0x01];
    let all = ErcFilter::new();
    assert_eq!(all.shown(&severities), vec![0, 1, 2, 3]);
    let no_errors = ErcFilter { show_errors: false, ..ErcFilter::new() };
    assert_eq!(no_errors.shown(&severities), vec![1, 2, 3]);
    let nothing = ErcFilter {
        show_errors: false,
        show_warnings: false,
        show_excluded: false,
    };
    assert_eq!(nothing.shown(&severities), vec![3]);
}

#[test]
fn a_finished_run_is_summarised_by_severity() {
    let results: Result<Vec<u32>, String> = Ok(vec![0x20, 0x10, 0x20, 0x04, 0x01, 0x10, 0x20]);
    assert_eq!(erc_status(&results), "7 violations \u{b7} 3 errors \u{b7} 2 warnings");
    let clean: Result<Vec<u32>, String> = Ok(Vec::new());
    assert_eq!(erc_status(&clean), "0 violations \u{b7} 0 errors \u{b7} 0 warnings");
}

#[test]
fn a_failed_run_shows_its_reason() {
    let failed: Result<Vec<u32>, String> = Err("No schematic is open".to_string());
    assert_eq!(erc_status(&failed), "No schematic is open");
}
