//! The symbol browser's choices: which library is open, which symbols match
//! what was typed, which unit and body style a placement uses, and what the
//! host is asked for.
//!
//! Symbols are named `Library:Symbol`. Typing such a name places it outright;
//! anything else places the first listed symbol whose name holds the typed
//! text, case aside. A previewed symbol is placed with the unit and body
//! style it was previewed with; any other with the first of each.

use vstd::prelude::*;
use crate::keymap::{contains, contains_str};
use crate::text::{lowercase, owned, str_eq, to_lowercase, trim, trimmed};

verus! {

/// What the browser asks the host for.
#[derive(Debug)]
pub enum SymbolRequest {
    /// Place this symbol, with this unit and body style.
    Place(String, u32, u32),
    /// Draw this symbol, with this unit and body style, for the preview.
    Preview(String, u32, u32),
    /// List the symbols of this library, power symbols only or all.
    Browse(String, bool),
}

/// The content of a [`SymbolRequest`].
pub enum SymbolRequestView {
    /// Place: the symbol, its unit and body style.
    Place(Seq<char>, u32, u32),
    /// Preview: the symbol, its unit and body style.
    Preview(Seq<char>, u32, u32),
    /// Browse: the library, and whether only power symbols are wanted.
    Browse(Seq<char>, bool),
}

/// The content of a request.
pub open spec fn request_view(request: SymbolRequest) -> SymbolRequestView {
    match request {
        SymbolRequest::Place(id, unit, body) => SymbolRequestView::Place(id@, unit, body),
        SymbolRequest::Preview(id, unit, body) => SymbolRequestView::Preview(id@, unit, body),
        SymbolRequest::Browse(library, power) => SymbolRequestView::Browse(library@, power),
    }
}

/// Whether `name` matches the typed `query`, case aside.
pub open spec fn name_matches(name: Seq<char>, query: Seq<char>) -> bool {
    contains(lowercase(name), lowercase(query))
}

/// The positions, among the first `upto` of `names`, of those matching
/// `query`, in order.
pub open spec fn matching_positions(names: Seq<Seq<char>>, query: Seq<char>, upto: int) -> Seq<int>
    decreases upto,
{
    if upto <= 0 {
        Seq::empty()
    } else {
        let before = matching_positions(names, query, upto - 1);
        if name_matches(names[upto - 1], query) {
            before.push(upto - 1)
        } else {
            before
        }
    }
}

/// The next of `count` units or body styles after `current`, wrapping to
/// the first; a symbol with none has one.
pub open spec fn next_of(current: u32, count: u32) -> u32 {
    let n = if count == 0 {
        1
    } else {
        count
    };
    (current % n + 1) as u32
}

/// The names of `strings`.
pub open spec fn names_of(strings: Seq<String>) -> Seq<Seq<char>> {
    strings.map_values(|s: String| s@)
}

/// The browser's state.
#[derive(Debug)]
pub struct SymbolChooser {
    libraries: Vec<String>,
    symbols: Vec<String>,
    library: String,
    power_only: bool,
    preview_id: String,
    unit: u32,
    body: u32,
    units: u32,
    bodies: u32,
}

/// The names of `strings` matching `query`, in order.
fn matching(strings: &Vec<String>, query: &str) -> (found: Vec<String>)
    ensures
        names_of(found@) == matching_positions(names_of(strings@), query@, strings@.len() as int).map_values(
            |k: int| names_of(strings@)[k],
        ),
{
    let ghost names = names_of(strings@);
    let lower_query = to_lowercase(query);
    let mut found: Vec<String> = Vec::new();
    let mut i: usize = 0;
    assert(names_of(found@) =~= matching_positions(names, query@, 0).map_values(|k: int| names[k]));
    while i < strings.len()
        invariant
            i <= strings@.len(),
            names == names_of(strings@),
            lower_query@ == lowercase(query@),
            names_of(found@) == matching_positions(names, query@, i as int).map_values(
                |k: int| names[k],
            ),
        decreases strings@.len() - i,
    {
        let ghost before = names_of(found@);
        let lower = to_lowercase(strings[i].as_str());
        assert(names[i as int] == strings@[i as int]@);
        if contains_str(lower.as_str(), lower_query.as_str()) {
            found.push(strings[i].clone());
            assert(names_of(found@) =~= before.push(strings@[i as int]@));
            assert(matching_positions(names, query@, i + 1) == matching_positions(names, query@, i as int).push(
                i as int,
            ));
            assert(matching_positions(names, query@, i + 1).map_values(|k: int| names[k])
                =~= before.push(names[i as int]));
        }
        i = i + 1;
    }
    found
}

impl SymbolChooser {
    /// The libraries on offer.
    pub closed spec fn spec_libraries(&self) -> Seq<Seq<char>> {
        names_of(self.libraries@)
    }

    /// The symbols listed.
    pub closed spec fn spec_symbols(&self) -> Seq<Seq<char>> {
        names_of(self.symbols@)
    }

    /// The open library.
    pub closed spec fn spec_library(&self) -> Seq<char> {
        self.library@
    }

    /// Whether only power symbols are wanted.
    pub closed spec fn spec_power_only(&self) -> bool {
        self.power_only
    }

    /// The symbol last previewed.
    pub closed spec fn spec_preview_id(&self) -> Seq<char> {
        self.preview_id@
    }

    /// The unit previewed.
    pub closed spec fn spec_unit(&self) -> u32 {
        self.unit
    }

    /// The body style previewed.
    pub closed spec fn spec_body(&self) -> u32 {
        self.body
    }

    /// How many units the previewed symbol has.
    pub closed spec fn spec_units(&self) -> u32 {
        self.units
    }

    /// How many body styles the previewed symbol has.
    pub closed spec fn spec_bodies(&self) -> u32 {
        self.bodies
    }

    /// The unit and body style placing `id` uses: the previewed ones for the
    /// previewed symbol, the first of each for any other.
    pub open spec fn placement_of(&self, id: Seq<char>) -> (u32, u32) {
        if id == self.spec_preview_id() {
            (self.spec_unit(), self.spec_body())
        } else {
            (1, 1)
        }
    }

    /// A browser with nothing listed and nothing previewed.
    pub fn new() -> (chooser: SymbolChooser)
        ensures
            chooser.spec_libraries().len() == 0,
            chooser.spec_symbols().len() == 0,
            chooser.spec_library().len() == 0,
            !chooser.spec_power_only(),
            chooser.spec_preview_id().len() == 0,
            chooser.spec_unit() == 1 && chooser.spec_body() == 1,
            chooser.spec_units() == 1 && chooser.spec_bodies() == 1,
    {
        let chooser = SymbolChooser {
            libraries: Vec::new(),
            symbols: Vec::new(),
            library: String::new(),
            power_only: false,
            preview_id: String::new(),
            unit: 1,
            body: 1,
            units: 1,
            bodies: 1,
        };
        assert(names_of(chooser.libraries@) =~= Seq::<Seq<char>>::empty());
        assert(names_of(chooser.symbols@) =~= Seq::<Seq<char>>::empty());
        chooser
    }

    /// Show `symbols` from `libraries`, power symbols only or all.
    pub fn open(&mut self, symbols: Vec<String>, libraries: Vec<String>, power_only: bool)
        ensures
            final(self).spec_symbols() == names_of(symbols@),
            final(self).spec_libraries() == names_of(libraries@),
            final(self).spec_power_only() == power_only,
            final(self).spec_library() == old(self).spec_library(),
            final(self).spec_preview_id() == old(self).spec_preview_id(),
            final(self).spec_unit() == old(self).spec_unit(),
            final(self).spec_body() == old(self).spec_body(),
            final(self).spec_units() == old(self).spec_units(),
            final(self).spec_bodies() == old(self).spec_bodies(),
    {
        self.symbols = symbols;
        self.libraries = libraries;
        self.power_only = power_only;
    }

    /// Replace the listed symbols, after the host answered a browse.
    pub fn set_symbols(&mut self, symbols: Vec<String>)
        ensures
            final(self).spec_symbols() == names_of(symbols@),
            final(self).spec_libraries() == old(self).spec_libraries(),
            final(self).spec_power_only() == old(self).spec_power_only(),
            final(self).spec_library() == old(self).spec_library(),
            final(self).spec_preview_id() == old(self).spec_preview_id(),
            final(self).spec_unit() == old(self).spec_unit(),
            final(self).spec_body() == old(self).spec_body(),
    {
        self.symbols = symbols;
    }

    /// Record how many units and body styles the previewed symbol has.
    pub fn set_preview_counts(&mut self, units: u32, bodies: u32)
        ensures
            final(self).spec_units() == units,
            final(self).spec_bodies() == bodies,
            final(self).spec_unit() == old(self).spec_unit(),
            final(self).spec_body() == old(self).spec_body(),
            final(self).spec_preview_id() == old(self).spec_preview_id(),
            final(self).spec_symbols() == old(self).spec_symbols(),
    {
        self.units = units;
        self.bodies = bodies;
    }

    /// Preview `id`. A different symbol starts from its first unit and body
    /// style; the same one keeps the ones chosen.
    pub fn preview(&mut self, id: &str) -> (request: SymbolRequest)
        ensures
            final(self).spec_preview_id() == id@,
            (final(self).spec_unit(), final(self).spec_body()) == if id@ == old(self).spec_preview_id() {
                (old(self).spec_unit(), old(self).spec_body())
            } else {
                (1u32, 1u32)
            },
            request_view(request) == SymbolRequestView::Preview(
                id@,
                final(self).spec_unit(),
                final(self).spec_body(),
            ),
            final(self).spec_symbols() == old(self).spec_symbols(),
            final(self).spec_units() == old(self).spec_units(),
            final(self).spec_bodies() == old(self).spec_bodies(),
    {
        if !str_eq(self.preview_id.as_str(), id) {
            self.unit = 1;
            self.body = 1;
        }
        self.preview_id = owned(id);
        SymbolRequest::Preview(owned(id), self.unit, self.body)
    }

    /// Step to the next unit of the previewed symbol, wrapping.
    pub fn next_unit(&mut self) -> (unit: u32)
        ensures
            unit == next_of(old(self).spec_unit(), old(self).spec_units()),
            final(self).spec_unit() == unit,
            final(self).spec_body() == old(self).spec_body(),
            final(self).spec_preview_id() == old(self).spec_preview_id(),
            final(self).spec_units() == old(self).spec_units(),
            final(self).spec_bodies() == old(self).spec_bodies(),
    {
        let n = if self.units == 0 {
            1
        } else {
            self.units
        };
        self.unit = self.unit % n + 1;
        self.unit
    }

    /// Step to the next body style of the previewed symbol, wrapping.
    pub fn next_body(&mut self) -> (body: u32)
        ensures
            body == next_of(old(self).spec_body(), old(self).spec_bodies()),
            final(self).spec_body() == body,
            final(self).spec_unit() == old(self).spec_unit(),
            final(self).spec_preview_id() == old(self).spec_preview_id(),
            final(self).spec_units() == old(self).spec_units(),
            final(self).spec_bodies() == old(self).spec_bodies(),
    {
        let n = if self.bodies == 0 {
            1
        } else {
            self.bodies
        };
        self.body = self.body % n + 1;
        self.body
    }

    /// Ask to place `id`.
    pub fn place_id(&self, id: &str) -> (request: SymbolRequest)
        ensures
            request_view(request) == SymbolRequestView::Place(
                id@,
                self.placement_of(id@).0,
                self.placement_of(id@).1,
            ),
    {
        if str_eq(id, self.preview_id.as_str()) {
            SymbolRequest::Place(owned(id), self.unit, self.body)
        } else {
            SymbolRequest::Place(owned(id), 1, 1)
        }
    }

    /// Open `library`: the list empties until the host answers.
    pub fn browse(&mut self, library: &str) -> (request: SymbolRequest)
        ensures
            final(self).spec_library() == library@,
            final(self).spec_symbols().len() == 0,
            final(self).spec_power_only() == old(self).spec_power_only(),
            final(self).spec_preview_id() == old(self).spec_preview_id(),
            final(self).spec_unit() == old(self).spec_unit(),
            final(self).spec_body() == old(self).spec_body(),
            request_view(request) == SymbolRequestView::Browse(library@, old(self).spec_power_only()),
    {
        self.library = owned(library);
        self.symbols = Vec::new();
        assert(names_of(self.symbols@) =~= Seq::<Seq<char>>::empty());
        SymbolRequest::Browse(owned(library), self.power_only)
    }

    /// Place what was typed: a full `Library:Symbol` name as it stands,
    /// otherwise the first listed symbol whose name holds the typed text,
    /// case aside, and nothing when none does.
    pub fn place(&self, query: &str) -> (request: Option<SymbolRequest>)
        ensures
            ({
                let typed = trimmed(query@);
                if contains(typed, ":"@) {
                    request is Some && request_view(request->0) == SymbolRequestView::Place(
                        typed,
                        self.placement_of(typed).0,
                        self.placement_of(typed).1,
                    )
                } else {
                    match request {
                        Some(r) => exists|k: int|
                            0 <= k < self.spec_symbols().len() && name_matches(
                                #[trigger] self.spec_symbols()[k],
                                typed,
                            ) && (forall|m: int|
                                0 <= m < k ==> !name_matches(self.spec_symbols()[m], typed))
                                && request_view(r) == SymbolRequestView::Place(
                                self.spec_symbols()[k],
                                self.placement_of(self.spec_symbols()[k]).0,
                                self.placement_of(self.spec_symbols()[k]).1,
                            ),
                        None => forall|k: int|
                            0 <= k < self.spec_symbols().len() ==> !name_matches(
                                #[trigger] self.spec_symbols()[k],
                                typed,
                            ),
                    }
                }
            }),
    {
        let typed = trim(query);
        if contains_str(typed, ":") {
            return Some(self.place_id(typed));
        }
        let lower_typed = to_lowercase(typed);
        let ghost names = self.spec_symbols();
        let mut i: usize = 0;
        while i < self.symbols.len()
            invariant
                i <= self.symbols@.len(),
                names == self.spec_symbols(),
                names == names_of(self.symbols@),
                typed@ == trimmed(query@),
                !contains(typed@, ":"@),
                lower_typed@ == lowercase(typed@),
                forall|m: int| 0 <= m < i ==> !name_matches(names[m], typed@),
            decreases self.symbols@.len() - i,
        {
            let lower = to_lowercase(self.symbols[i].as_str());
            assert(names[i as int] == self.symbols@[i as int]@);
            if contains_str(lower.as_str(), lower_typed.as_str()) {
                let request = self.place_id(self.symbols[i].as_str());
                assert(name_matches(names[i as int], typed@));
                assert(!contains(typed@, ":"@));
                assert(exists|k: int|
                    0 <= k < self.spec_symbols().len() && name_matches(
                        #[trigger] self.spec_symbols()[k],
                        typed@,
                    ) && (forall|m: int| 0 <= m < k ==> !name_matches(self.spec_symbols()[m], typed@))
                        && request_view(request) == SymbolRequestView::Place(
                        self.spec_symbols()[k],
                        self.placement_of(self.spec_symbols()[k]).0,
                        self.placement_of(self.spec_symbols()[k]).1,
                    )) by {
                    assert(self.spec_symbols()[i as int] == names[i as int]);
                }
                return Some(request);
            }
            i = i + 1;
        }
        None
    }

    /// The listed symbols whose names hold `query`, case aside, in order.
    pub fn matching_symbols(&self, query: &str) -> (found: Vec<String>)
        ensures
            names_of(found@) == matching_positions(self.spec_symbols(), query@, self.spec_symbols().len() as int).map_values(
                |k: int| self.spec_symbols()[k],
            ),
    {
        matching(&self.symbols, query)
    }

    /// The libraries whose names hold `query`, case aside, in order.
    pub fn matching_libraries(&self, query: &str) -> (found: Vec<String>)
        ensures
            names_of(found@) == matching_positions(self.spec_libraries(), query@, self.spec_libraries().len() as int).map_values(
                |k: int| self.spec_libraries()[k],
            ),
    {
        matching(&self.libraries, query)
    }
}

} // verus!
