use kicad_sch_ui::grid::{
    grid_size_at, grid_sizes, GridState, Units, DEFAULT_GRID, GRID_SIZE_COUNT, IU_PER_INCH,
    IU_PER_MIL, IU_PER_MM,
};

#[test]
fn units_cycle_back_to_the_start() {
    let mut unit = Units::Millimetres;
    for _ in 0..3 {
        unit = unit.next();
    }
    assert_eq!(unit, Units::Millimetres);
}

#[test]
fn the_default_grid_is_fifty_mil() {
    let grid = GridState::default();
    assert_eq!(grid.size().label, "50 mil");
    assert_eq!(grid.spacing_iu(), 12_700);
    assert!(grid.is_visible());
}

#[test]
fn cycling_the_grid_wraps() {
    let mut grid = GridState::default();
    for _ in 0..grid_sizes().len() {
        grid.cycle();
    }
    assert_eq!(grid.size().label, "50 mil");
}

#[test]
fn hiding_the_grid_is_reversible() {
    let mut grid = GridState::default();
    assert!(!grid.toggle_visible());
    assert!(grid.toggle_visible());
}

// ---------------------------------------------------------------------------
// Further cases

#[test]
fn internal_units_per_display_unit() {
    assert_eq!(IU_PER_MM, 10_000);
    assert_eq!(IU_PER_MIL, 254);
    assert_eq!(IU_PER_INCH, 1000 * IU_PER_MIL);
    assert_eq!(Units::Millimetres.iu_per_unit(), 10_000);
    assert_eq!(Units::Mils.iu_per_unit(), 254);
    assert_eq!(Units::Inches.iu_per_unit(), 254_000);
}

#[test]
fn each_unit_has_its_suffix_and_precision() {
    assert_eq!(Units::Millimetres.suffix(), "mm");
    assert_eq!(Units::Mils.suffix(), "mil");
    assert_eq!(Units::Inches.suffix(), "in");
    assert_eq!(Units::Millimetres.decimals(), 3);
    assert_eq!(Units::Mils.decimals(), 1);
    assert_eq!(Units::Inches.decimals(), 4);
    assert_eq!(Units::Millimetres.next(), Units::Mils);
    assert_eq!(Units::Mils.next(), Units::Inches);
    assert_eq!(Units::Inches.next(), Units::Millimetres);
}

#[test]
fn the_ladder_runs_coarsest_first() {
    let sizes = grid_sizes();
    assert_eq!(sizes.len(), GRID_SIZE_COUNT);
    let expected = [
        (25_400, "100 mil"),
        (12_700, "50 mil"),
        (6_350, "25 mil"),
        (2_540, "10 mil"),
        (10_000, "1.0 mm"),
        (5_000, "0.5 mm"),
        (2_500, "0.25 mm"),
    ];
    for (i, (iu, label)) in expected.iter().enumerate() {
        assert_eq!(sizes[i].iu, *iu);
        assert_eq!(sizes[i].label, *label);
        assert_eq!(grid_size_at(i), sizes[i]);
    }
    assert_eq!(sizes[DEFAULT_GRID].label, "50 mil");
}

#[test]
fn cycling_steps_one_rung_and_keeps_visibility() {
    let mut grid = GridState::default();
    grid.set_visible(false);
    grid.cycle();
    assert_eq!(grid.index(), DEFAULT_GRID + 1);
    assert_eq!(grid.size().label, "25 mil");
    assert!(!grid.is_visible());
    for _ in 0..GRID_SIZE_COUNT - 2 {
        grid.cycle();
    }
    assert_eq!(grid.index(), 0);
    assert_eq!(grid.spacing_iu(), 25_400);
}

#[test]
fn setting_visibility_is_idempotent() {
    let mut grid = GridState::default();
    grid.set_visible(true);
    assert!(grid.is_visible());
    grid.set_visible(false);
    grid.set_visible(false);
    assert!(!grid.is_visible());
    assert_eq!(grid.index(), DEFAULT_GRID);
}
