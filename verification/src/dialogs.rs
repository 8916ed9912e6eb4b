//! The shell's workflow dialogs: which window a workflow lives in, what a
//! document dialog is called, which KiCad action a search step is, and what
//! the search panel hands the host.

use vstd::prelude::*;

verus! {

/// The window a workflow dialog occupies. One window per kind: opening a
/// workflow whose window is up raises that window instead.
#[derive(Clone, Copy, Debug, PartialEq, Eq, Hash, Structural)]
pub enum DialogKind {
    /// The electrical rules check.
    Erc,
    /// Item properties.
    Properties,
    /// The symbol browser.
    Symbols,
    /// Find and replace.
    Search,
    /// A document dialog, by kind.
    Document(u32),
    /// The symbol library table.
    LibraryTable,
    /// The simulator.
    Simulation,
    /// A library-symbol workflow, by kind.
    LibrarySymbol(u32),
    /// Sheet pin synchronisation.
    SheetPins,
    /// Bitmap import.
    ImageImport,
    /// Vector graphics import.
    GraphicsImport,
    /// Schematic setup.
    Setup,
    /// Preferences.
    Preferences,
}

/// The window a symbol or simulation workflow of `kind` opens in: the
/// library-symbol workflows each get their own, everything else shares the
/// simulator's.
pub open spec fn workflow_window(kind: u32) -> DialogKind {
    if (3 <= kind && kind <= 12) || kind == 16 || kind == 18 || kind == 22 {
        DialogKind::LibrarySymbol(kind)
    } else {
        DialogKind::Simulation
    }
}

impl DialogKind {
    /// The window a symbol or simulation workflow of `kind` opens in.
    pub fn simulation(kind: u32) -> (window: DialogKind)
        ensures
            window == workflow_window(kind),
    {
        if (3 <= kind && kind <= 12) || kind == 16 || kind == 18 || kind == 22 {
            DialogKind::LibrarySymbol(kind)
        } else {
            DialogKind::Simulation
        }
    }
}

/// Number of document dialogs.
pub const DOCUMENT_DIALOG_COUNT: usize = 24;

/// The title of document dialog `kind`.
pub open spec fn document_title_of(kind: int) -> Seq<char> {
    if kind == 0 {
        "Annotate Schematic"@
    } else if kind == 1 {
        "Increment Annotations"@
    } else if kind == 2 {
        "Page Settings"@
    } else if kind == 3 {
        "Export Netlist"@
    } else if kind == 4 {
        "Plot Schematic"@
    } else if kind == 5 {
        "Print to PDF"@
    } else if kind == 6 {
        "Export Bill of Materials"@
    } else if kind == 7 {
        "Edit Symbol Fields"@
    } else if kind == 8 {
        "Change Symbols"@
    } else if kind == 9 {
        "Update Symbols from Library"@
    } else if kind == 10 {
        "Remap Symbols"@
    } else if kind == 11 {
        "Rescue Symbols"@
    } else if kind == 12 {
        "Edit Symbol Library IDs"@
    } else if kind == 13 {
        "Bus Aliases"@
    } else if kind == 14 {
        "Netclasses"@
    } else if kind == 15 {
        "Net Chain Setup"@
    } else if kind == 16 {
        "Create Net Chain"@
    } else if kind == 17 {
        "Edit Text and Graphics"@
    } else if kind == 18 {
        "Import Schematic Settings"@
    } else if kind == 19 {
        "Migrate Legacy Buses"@
    } else if kind == 20 {
        "Update Schematic from PCB"@
    } else if kind == 21 {
        "Resolve Field Name Conflicts"@
    } else if kind == 22 {
        "Schematic Data Sources"@
    } else {
        "Import Schematic"@
    }
}

/// The title of document dialog `kind`.
pub fn document_title(kind: u32) -> (title: &'static str)
    requires
        kind < DOCUMENT_DIALOG_COUNT,
    ensures
        title@ == document_title_of(kind as int),
{
    if kind == 0 {
        "Annotate Schematic"
    } else if kind == 1 {
        "Increment Annotations"
    } else if kind == 2 {
        "Page Settings"
    } else if kind == 3 {
        "Export Netlist"
    } else if kind == 4 {
        "Plot Schematic"
    } else if kind == 5 {
        "Print to PDF"
    } else if kind == 6 {
        "Export Bill of Materials"
    } else if kind == 7 {
        "Edit Symbol Fields"
    } else if kind == 8 {
        "Change Symbols"
    } else if kind == 9 {
        "Update Symbols from Library"
    } else if kind == 10 {
        "Remap Symbols"
    } else if kind == 11 {
        "Rescue Symbols"
    } else if kind == 12 {
        "Edit Symbol Library IDs"
    } else if kind == 13 {
        "Bus Aliases"
    } else if kind == 14 {
        "Netclasses"
    } else if kind == 15 {
        "Net Chain Setup"
    } else if kind == 16 {
        "Create Net Chain"
    } else if kind == 17 {
        "Edit Text and Graphics"
    } else if kind == 18 {
        "Import Schematic Settings"
    } else if kind == 19 {
        "Migrate Legacy Buses"
    } else if kind == 20 {
        "Update Schematic from PCB"
    } else if kind == 21 {
        "Resolve Field Name Conflicts"
    } else if kind == 22 {
        "Schematic Data Sources"
    } else {
        "Import Schematic"
    }
}

/// A search operation performed by the host.
#[derive(Clone, Copy, Debug, PartialEq, Eq, Structural)]
pub enum SearchOperation {
    /// Find the next match.
    Next,
    /// Find the preceding match.
    Previous,
    /// Replace the current match, then find the next.
    Replace,
    /// Replace every matching item in the scope.
    ReplaceAll,
    /// Clear search highlighting and deactivate search.
    Close,
}

/// KiCad's own action for a search operation; closing has none.
pub open spec fn search_action(operation: SearchOperation) -> Option<&'static str> {
    match operation {
        SearchOperation::Next => Some("common.Interactive.findNext"),
        SearchOperation::Previous => Some("common.Interactive.findPrevious"),
        SearchOperation::Replace => Some("common.Interactive.replaceAndFindNext"),
        SearchOperation::ReplaceAll => Some("common.Interactive.replaceAll"),
        SearchOperation::Close => None,
    }
}

impl SearchOperation {
    /// The existing KiCad action for this operation, if any.
    pub fn action(self) -> (name: Option<&'static str>)
        ensures
            name == search_action(self),
    {
        match self {
            SearchOperation::Next => Some("common.Interactive.findNext"),
            SearchOperation::Previous => Some("common.Interactive.findPrevious"),
            SearchOperation::Replace => Some("common.Interactive.replaceAndFindNext"),
            SearchOperation::ReplaceAll => Some("common.Interactive.replaceAll"),
            SearchOperation::Close => None,
        }
    }
}

/// Owned search settings passed to the schematic host.
#[derive(Clone, Debug, Default, PartialEq, Eq)]
pub struct SearchData {
    /// Text to locate.
    pub find: String,
    /// Replacement text; may be empty.
    pub replace: String,
    /// Match upper/lower case exactly.
    pub match_case: bool,
    /// Require a whole-word match.
    pub whole_word: bool,
    /// Restrict search to the current sheet.
    pub current_sheet_only: bool,
    /// Restrict search to the selection.
    pub selected_only: bool,
    /// Allow editing symbol references.
    pub replace_references: bool,
    /// Include all symbol fields.
    pub search_all_fields: bool,
    /// Include pin names and numbers.
    pub search_all_pins: bool,
    /// Find only items that can be replaced.
    pub replace_mode: bool,
    /// Whether the search interface is active.
    pub active: bool,
}

/// The search panel's answer to an empty find field.
pub const EMPTY_FIND_FEEDBACK: &'static str = "Enter text to find";

/// `data` carries `options`' switches with `find` and `replace` in place of
/// theirs, and is active unless the operation closes the search.
pub open spec fn submitted(data: SearchData, options: SearchData, find: Seq<char>, replace: Seq<char>, operation: SearchOperation) -> bool {
    &&& data.find@ == find
    &&& data.replace@ == replace
    &&& data.match_case == options.match_case
    &&& data.whole_word == options.whole_word
    &&& data.current_sheet_only == options.current_sheet_only
    &&& data.selected_only == options.selected_only
    &&& data.replace_references == options.replace_references
    &&& data.search_all_fields == options.search_all_fields
    &&& data.search_all_pins == options.search_all_pins
    &&& data.replace_mode == options.replace_mode
    &&& data.active == (operation != SearchOperation::Close)
}

impl SearchData {
    /// What the search panel hands the host for `operation`: its switches with
    /// the typed `find` and `replace` texts; or, when there is nothing to find
    /// and the search is not being closed, the feedback it shows instead.
    pub fn submit(&self, find: String, replace: String, operation: SearchOperation) -> (request: Result<SearchData, &'static str>)
        ensures
            match request {
                Ok(data) => submitted(data, *self, find@, replace@, operation),
                Err(feedback) => feedback == EMPTY_FIND_FEEDBACK,
            },
            request is Err <==> (find@.len() == 0 && operation != SearchOperation::Close),
    {
        let active = match operation {
            SearchOperation::Close => false,
            _ => true,
        };
        if find.as_str().is_empty() && active {
            return Err(EMPTY_FIND_FEEDBACK);
        }
        Ok(SearchData {
            find,
            replace,
            match_case: self.match_case,
            whole_word: self.whole_word,
            current_sheet_only: self.current_sheet_only,
            selected_only: self.selected_only,
            replace_references: self.replace_references,
            search_all_fields: self.search_all_fields,
            search_all_pins: self.search_all_pins,
            replace_mode: self.replace_mode,
            active,
        })
    }
}

} // verus!
