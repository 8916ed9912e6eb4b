//! Grid spacings and display units.
//!
//! One internal unit is 100 nm in eeschema. Every spacing on the schematic
//! grid ladder is a whole number of internal units, so the ladder is held as
//! integers; millimetres and mils exist only in [`Units`], which names the unit
//! a number is shown in.

use vstd::prelude::*;

verus! {

/// Internal units in one millimetre. One unit is 100 nm.
pub const IU_PER_MM: u64 = 10_000;

/// Internal units in one mil (thousandth of an inch). Exact.
pub const IU_PER_MIL: u64 = 254;

/// Internal units in one inch. Exact.
pub const IU_PER_INCH: u64 = 254_000;

/// How coordinates are displayed.
#[derive(Clone, Copy, Debug, PartialEq, Eq, Structural)]
pub enum Units {
    /// Millimetres.
    Millimetres,
    /// Thousandths of an inch. The unit the symbol libraries are drawn in.
    Mils,
    /// Inches.
    Inches,
}

/// The suffix written after a number in `unit`.
pub open spec fn unit_suffix(unit: Units) -> Seq<char> {
    match unit {
        Units::Millimetres => "mm"@,
        Units::Mils => "mil"@,
        Units::Inches => "in"@,
    }
}

/// Digits after the point that read sensibly in `unit`.
pub open spec fn unit_decimals(unit: Units) -> nat {
    match unit {
        Units::Millimetres => 3,
        Units::Mils => 1,
        Units::Inches => 4,
    }
}

/// The unit after `unit` in the cycle `Switch Units` walks.
pub open spec fn unit_after(unit: Units) -> Units {
    match unit {
        Units::Millimetres => Units::Mils,
        Units::Mils => Units::Inches,
        Units::Inches => Units::Millimetres,
    }
}

/// Internal units in one `unit`.
pub open spec fn iu_per_unit(unit: Units) -> nat {
    match unit {
        Units::Millimetres => IU_PER_MM as nat,
        Units::Mils => IU_PER_MIL as nat,
        Units::Inches => IU_PER_INCH as nat,
    }
}

impl Units {
    /// The suffix shown after a number.
    pub fn suffix(self) -> (s: &'static str)
        ensures
            s@ == unit_suffix(self),
    {
        match self {
            Units::Millimetres => "mm",
            Units::Mils => "mil",
            Units::Inches => "in",
        }
    }

    /// How many digits after the point read sensibly in this unit.
    pub fn decimals(self) -> (d: usize)
        ensures
            d == unit_decimals(self),
    {
        match self {
            Units::Millimetres => 3,
            Units::Mils => 1,
            Units::Inches => 4,
        }
    }

    /// Internal units in one of this unit, the divisor a value is shown with.
    pub fn iu_per_unit(self) -> (n: u64)
        ensures
            n == iu_per_unit(self),
    {
        match self {
            Units::Millimetres => IU_PER_MM,
            Units::Mils => IU_PER_MIL,
            Units::Inches => IU_PER_INCH,
        }
    }

    /// The next unit in the cycle the `Switch Units` command walks.
    pub fn next(self) -> (n: Units)
        ensures
            n == unit_after(self),
    {
        match self {
            Units::Millimetres => Units::Mils,
            Units::Mils => Units::Inches,
            Units::Inches => Units::Millimetres,
        }
    }
}

/// Three steps of `Switch Units` come back to the unit they started from, and
/// no fewer do.
pub proof fn lemma_units_cycle(unit: Units)
    ensures
        unit_after(unit_after(unit_after(unit))) == unit,
        unit_after(unit) != unit,
        unit_after(unit_after(unit)) != unit,
{
}

/// One selectable grid spacing.
#[derive(Clone, Copy, Debug, PartialEq, Eq)]
pub struct GridSize {
    /// Spacing in internal units. Every spacing on the ladder is whole.
    pub iu: u64,
    /// How it is written in the status bar and the grid menu.
    pub label: &'static str,
}

/// Number of spacings on the grid ladder.
pub const GRID_SIZE_COUNT: usize = 7;

/// Index of the default 50 mil grid on the ladder.
pub const DEFAULT_GRID: usize = 1;

/// The schematic grid ladder, coarsest first, matching eeschema's own list:
/// the spacing at `index`.
pub open spec fn grid_ladder(index: int) -> GridSize {
    if index == 0 {
        GridSize { iu: 25_400, label: "100 mil" }
    } else if index == 1 {
        GridSize { iu: 12_700, label: "50 mil" }
    } else if index == 2 {
        GridSize { iu: 6_350, label: "25 mil" }
    } else if index == 3 {
        GridSize { iu: 2_540, label: "10 mil" }
    } else if index == 4 {
        GridSize { iu: 10_000, label: "1.0 mm" }
    } else if index == 5 {
        GridSize { iu: 5_000, label: "0.5 mm" }
    } else {
        GridSize { iu: 2_500, label: "0.25 mm" }
    }
}

/// The spacing at `index` on the grid ladder, for `index` below
/// [`GRID_SIZE_COUNT`].
pub fn grid_size_at(index: usize) -> (size: GridSize)
    requires
        index < GRID_SIZE_COUNT,
    ensures
        size == grid_ladder(index as int),
{
    if index == 0 {
        GridSize { iu: 100 * IU_PER_MIL, label: "100 mil" }
    } else if index == 1 {
        GridSize { iu: 50 * IU_PER_MIL, label: "50 mil" }
    } else if index == 2 {
        GridSize { iu: 25 * IU_PER_MIL, label: "25 mil" }
    } else if index == 3 {
        GridSize { iu: 10 * IU_PER_MIL, label: "10 mil" }
    } else if index == 4 {
        GridSize { iu: IU_PER_MM, label: "1.0 mm" }
    } else if index == 5 {
        GridSize { iu: IU_PER_MM / 2, label: "0.5 mm" }
    } else {
        GridSize { iu: IU_PER_MM / 4, label: "0.25 mm" }
    }
}

/// The whole grid ladder, coarsest first.
pub fn grid_sizes() -> (sizes: Vec<GridSize>)
    ensures
        sizes@.len() == GRID_SIZE_COUNT,
        forall|i: int| 0 <= i < GRID_SIZE_COUNT ==> #[trigger] sizes@[i] == grid_ladder(i),
{
    let mut sizes: Vec<GridSize> = Vec::new();
    let mut i: usize = 0;
    while i < GRID_SIZE_COUNT
        invariant
            i <= GRID_SIZE_COUNT,
            sizes@.len() == i,
            forall|j: int| 0 <= j < i ==> #[trigger] sizes@[j] == grid_ladder(j),
        decreases GRID_SIZE_COUNT - i,
    {
        sizes.push(grid_size_at(i));
        i = i + 1;
    }
    sizes
}

/// The grid as the shell holds it: which spacing, and whether it is drawn.
#[derive(Clone, Copy, Debug, PartialEq, Eq)]
pub struct GridState {
    index: usize,
    visible: bool,
}

impl Default for GridState {
    /// The default grid: 50 mil, drawn.
    fn default() -> (grid: GridState)
        ensures
            grid.spec_index() == DEFAULT_GRID,
            grid.spec_visible(),
    {
        GridState { index: DEFAULT_GRID, visible: true }
    }
}

impl GridState {
    /// Which rung of the ladder is selected.
    pub closed spec fn spec_index(self) -> nat {
        self.index as nat
    }

    /// Whether the grid is drawn.
    pub closed spec fn spec_visible(self) -> bool {
        self.visible
    }

    /// The selected rung is always on the ladder.
    #[verifier::type_invariant]
    closed spec fn on_the_ladder(self) -> bool {
        self.index < GRID_SIZE_COUNT
    }

    /// Which rung of the ladder is selected.
    pub fn index(&self) -> (i: usize)
        ensures
            i == self.spec_index(),
            i < GRID_SIZE_COUNT,
    {
        proof {
            use_type_invariant(self);
        }
        self.index
    }

    /// The current spacing.
    pub fn size(&self) -> (size: GridSize)
        ensures
            size == grid_ladder(self.spec_index() as int),
    {
        grid_size_at(self.index())
    }

    /// Spacing in internal units.
    pub fn spacing_iu(&self) -> (iu: u64)
        ensures
            iu == grid_ladder(self.spec_index() as int).iu,
    {
        self.size().iu
    }

    /// Whether the grid is drawn. Snapping is the host's business and is not
    /// affected by this.
    pub fn is_visible(&self) -> (visible: bool)
        ensures
            visible == self.spec_visible(),
    {
        self.visible
    }

    /// Show or hide the grid.
    pub fn set_visible(&mut self, visible: bool)
        ensures
            final(self).spec_visible() == visible,
            final(self).spec_index() == old(self).spec_index(),
    {
        proof {
            use_type_invariant(&*self);
        }
        self.visible = visible;
    }

    /// Flip the grid's visibility and report the new state.
    pub fn toggle_visible(&mut self) -> (visible: bool)
        ensures
            visible == !old(self).spec_visible(),
            final(self).spec_visible() == visible,
            final(self).spec_index() == old(self).spec_index(),
    {
        proof {
            use_type_invariant(&*self);
        }
        self.visible = !self.visible;
        self.visible
    }

    /// Step to the next spacing, wrapping.
    pub fn cycle(&mut self)
        ensures
            final(self).spec_index() == (old(self).spec_index() + 1) % (GRID_SIZE_COUNT as nat),
            final(self).spec_visible() == old(self).spec_visible(),
    {
        self.index = (self.index() + 1) % GRID_SIZE_COUNT;
    }
}

/// Hiding the grid is reversible: two toggles give back the grid you had.
pub proof fn lemma_toggle_twice_restores(before: GridState, middle: GridState, after: GridState)
    requires
        middle.spec_visible() == !before.spec_visible(),
        middle.spec_index() == before.spec_index(),
        after.spec_visible() == !middle.spec_visible(),
        after.spec_index() == middle.spec_index(),
    ensures
        after.spec_visible() == before.spec_visible(),
        after.spec_index() == before.spec_index(),
{
}

/// The index reached from `start` after `steps` cycles.
pub open spec fn cycled_index(start: nat, steps: nat) -> nat
    decreases steps,
{
    if steps == 0 {
        start
    } else {
        (cycled_index(start, (steps - 1) as nat) + 1) % (GRID_SIZE_COUNT as nat)
    }
}

/// Cycling through the whole ladder comes back to the spacing it started on.
pub proof fn lemma_cycle_wraps(start: nat)
    requires
        start < GRID_SIZE_COUNT,
    ensures
        cycled_index(start, GRID_SIZE_COUNT as nat) == start,
{
    reveal_with_fuel(cycled_index, 8);
}

} // verus!
