//! How electrical rules results are presented: what a severity is called,
//! how many results carry it, what the status line says of a run, and which
//! results the dialog's filters show.

use vstd::prelude::*;
use crate::numbers::{decimal, to_decimal};

verus! {

/// KiCad's severity bit for an error.
pub const SEVERITY_ERROR: u32 = 0x20;
/// KiCad's severity bit for a warning.
pub const SEVERITY_WARNING: u32 = 0x10;
/// KiCad's severity bit for an excluded violation.
pub const SEVERITY_EXCLUDED: u32 = 0x04;

/// What a result of `severity` is called.
pub open spec fn severity_name(severity: u32) -> &'static str {
    if severity == SEVERITY_ERROR {
        "Error"
    } else if severity == SEVERITY_WARNING {
        "Warning"
    } else if severity == SEVERITY_EXCLUDED {
        "Excluded"
    } else {
        "Info"
    }
}

/// What a result of `severity` is called: errors, warnings and excluded
/// results by name, anything else as information.
pub fn severity_label(severity: u32) -> (label: &'static str)
    ensures
        label == severity_name(severity),
{
    if severity == SEVERITY_ERROR {
        "Error"
    } else if severity == SEVERITY_WARNING {
        "Warning"
    } else if severity == SEVERITY_EXCLUDED {
        "Excluded"
    } else {
        "Info"
    }
}

/// How many of `severities` equal `severity`.
pub open spec fn count_of(severities: Seq<u32>, severity: u32) -> nat
    decreases severities.len(),
{
    if severities.len() == 0 {
        0
    } else {
        count_of(severities.drop_last(), severity) + if severities.last() == severity {
            1nat
        } else {
            0nat
        }
    }
}

/// How many results carry `severity`.
pub fn count_severity(severities: &Vec<u32>, severity: u32) -> (count: usize)
    ensures
        count == count_of(severities@, severity),
{
    let mut count: usize = 0;
    let mut i: usize = 0;
    assert(severities@.take(0) =~= Seq::<u32>::empty());
    while i < severities.len()
        invariant
            i <= severities@.len(),
            count == count_of(severities@.take(i as int), severity),
            count <= i,
        decreases severities@.len() - i,
    {
        assert(severities@.take(i + 1).drop_last() =~= severities@.take(i as int));
        if severities[i] == severity {
            count = count + 1;
        }
        i = i + 1;
    }
    assert(severities@.take(severities@.len() as int) =~= severities@);
    count
}

/// The status line after a successful run: `N violations · E errors · W warnings`.
pub open spec fn summary_text(severities: Seq<u32>) -> Seq<char> {
    decimal(severities.len()) + " violations \u{b7} "@ + decimal(count_of(severities, SEVERITY_ERROR))
        + " errors \u{b7} "@ + decimal(count_of(severities, SEVERITY_WARNING)) + " warnings"@
}

/// A count never exceeds the number of results.
proof fn lemma_count_bounded(severities: Seq<u32>, severity: u32)
    ensures
        count_of(severities, severity) <= severities.len(),
    decreases severities.len(),
{
    if severities.len() > 0 {
        lemma_count_bounded(severities.drop_last(), severity);
    }
}

/// What the results dialog's status line says once a run ends: a summary of
/// the results by severity, or the reason the run failed.
pub fn erc_status(results: &Result<Vec<u32>, String>) -> (status: String)
    ensures
        match results {
            Ok(severities) => status@ == summary_text(severities@),
            Err(error) => status@ == error@,
        },
{
    match results {
        Ok(severities) => {
            let errors = count_severity(severities, SEVERITY_ERROR);
            let warnings = count_severity(severities, SEVERITY_WARNING);
            proof {
                lemma_count_bounded(severities@, SEVERITY_ERROR);
                lemma_count_bounded(severities@, SEVERITY_WARNING);
            }
            let mut status = to_decimal(severities.len() as u64);
            status.append(" violations \u{b7} ");
            let e = to_decimal(errors as u64);
            status.append(e.as_str());
            status.append(" errors \u{b7} ");
            let w = to_decimal(warnings as u64);
            status.append(w.as_str());
            status.append(" warnings");
            status
        },
        Err(error) => error.clone(),
    }
}

/// Which severities the results dialog shows.
#[derive(Clone, Copy, Debug, PartialEq, Eq, Structural)]
pub struct ErcFilter {
    /// Show errors.
    pub show_errors: bool,
    /// Show warnings.
    pub show_warnings: bool,
    /// Show excluded violations.
    pub show_excluded: bool,
}

/// Whether `filter` shows a result of `severity`. Results of any other
/// severity are always shown.
pub open spec fn filter_shows(filter: ErcFilter, severity: u32) -> bool {
    if severity == SEVERITY_ERROR {
        filter.show_errors
    } else if severity == SEVERITY_WARNING {
        filter.show_warnings
    } else if severity == SEVERITY_EXCLUDED {
        filter.show_excluded
    } else {
        true
    }
}

/// The positions of the results `filter` shows, in order, among the first
/// `upto`.
pub open spec fn shown_positions(filter: ErcFilter, severities: Seq<u32>, upto: int) -> Seq<int>
    decreases upto,
{
    if upto <= 0 {
        Seq::empty()
    } else {
        let before = shown_positions(filter, severities, upto - 1);
        if filter_shows(filter, severities[upto - 1]) {
            before.push(upto - 1)
        } else {
            before
        }
    }
}

impl ErcFilter {
    /// A fresh dialog shows everything.
    pub fn new() -> (filter: ErcFilter)
        ensures
            filter.show_errors && filter.show_warnings && filter.show_excluded,
    {
        ErcFilter { show_errors: true, show_warnings: true, show_excluded: true }
    }

    /// Whether a result of `severity` is shown.
    pub fn shows(&self, severity: u32) -> (shown: bool)
        ensures
            shown == filter_shows(*self, severity),
    {
        if severity == SEVERITY_ERROR {
            self.show_errors
        } else if severity == SEVERITY_WARNING {
            self.show_warnings
        } else if severity == SEVERITY_EXCLUDED {
            self.show_excluded
        } else {
            true
        }
    }

    /// The positions of the results shown, in the order they were reported.
    pub fn shown(&self, severities: &Vec<u32>) -> (positions: Vec<usize>)
        ensures
            positions@.map_values(|i: usize| i as int) == shown_positions(
                *self,
                severities@,
                severities@.len() as int,
            ),
    {
        let mut positions: Vec<usize> = Vec::new();
        let mut i: usize = 0;
        assert(positions@.map_values(|k: usize| k as int) =~= Seq::<int>::empty());
        while i < severities.len()
            invariant
                i <= severities@.len(),
                positions@.map_values(|k: usize| k as int) == shown_positions(*self, severities@, i as int),
            decreases severities@.len() - i,
        {
            let ghost before = positions@.map_values(|k: usize| k as int);
            if self.shows(severities[i]) {
                positions.push(i);
                assert(positions@.map_values(|k: usize| k as int) =~= before.push(i as int));
            }
            i = i + 1;
        }
        positions
    }
}

/// Each severity answers to its own switch: an error is shown exactly when
/// errors are, a warning exactly when warnings are, an excluded result
/// exactly when excluded ones are, whatever the other switches say; and a
/// result of any other severity always.
pub proof fn lemma_each_severity_has_its_switch(filter: ErcFilter, severity: u32)
    ensures
        filter_shows(filter, severity) <==> ((severity == 0x20 ==> filter.show_errors) && (severity == 0x10
            ==> filter.show_warnings) && (severity == 0x04 ==> filter.show_excluded)),
{
}

/// The positions shown are exactly those of the results whose severity the
/// filter shows, each once, in the order the results came.
pub proof fn lemma_shown_positions(filter: ErcFilter, severities: Seq<u32>, upto: int)
    requires
        0 <= upto <= severities.len(),
    ensures
        forall|p: int| shown_positions(filter, severities, upto).contains(p) <==> (0 <= p < upto
            && filter_shows(filter, severities[p])),
        forall|i: int, j: int|
            0 <= i < j < shown_positions(filter, severities, upto).len() ==> shown_positions(filter, severities, upto)[i]
                < shown_positions(filter, severities, upto)[j],
        forall|i: int|
            0 <= i < shown_positions(filter, severities, upto).len() ==> 0 <= #[trigger] shown_positions(
                filter,
                severities,
                upto,
            )[i] < upto,
    decreases upto,
{
    if upto > 0 {
        lemma_shown_positions(filter, severities, upto - 1);
        let before = shown_positions(filter, severities, upto - 1);
        if filter_shows(filter, severities[upto - 1]) {
            let after = before.push(upto - 1);
            assert forall|p: int| after.contains(p) <==> (0 <= p < upto && filter_shows(filter, severities[p])) by {
                if p == upto - 1 {
                    assert(after[after.len() - 1] == p);
                }
                if after.contains(p) && p != upto - 1 {
                    let i = choose|i: int| 0 <= i < after.len() && after[i] == p;
                    assert(before[i] == p);
                }
                if before.contains(p) {
                    let i = choose|i: int| 0 <= i < before.len() && before[i] == p;
                    assert(after[i] == p);
                }
            }
        }
    }
}

} // verus!
