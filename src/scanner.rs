//! Tally and per-file decision of the directory scan.

use vstd::prelude::*;

use crate::filters::{chain_holds, passes_all, PathFacts, Predicate};

verus! {

/// Counts of what a scan met; each count saturates at `usize::MAX`.
#[derive(Debug, Clone, Copy, PartialEq, Eq, Structural)]
pub struct ScanStats {
    /// Files examined.
    pub files: usize,
    /// Entries that could not be examined.
    pub errors: usize,
    /// Files that passed the predicates.
    pub filtered: usize,
    /// Jobs skipped.
    pub skipped: usize,
    /// Jobs transcoded.
    pub transcoded: usize,
}

/// `a + b`, or `usize::MAX` when the sum does not fit.
pub open spec fn sat_add(a: usize, b: usize) -> usize {
    if a + b > usize::MAX {
        usize::MAX
    } else {
        (a + b) as usize
    }
}

impl ScanStats {
    pub fn new() -> (r: ScanStats)
        ensures
            r == (ScanStats { files: 0, errors: 0, filtered: 0, skipped: 0, transcoded: 0 }),
    {
        ScanStats { files: 0, errors: 0, filtered: 0, skipped: 0, transcoded: 0 }
    }

    /// Adds the counts of `more` to these.
    pub fn aggregate(&mut self, more: &ScanStats)
        ensures
            final(self).files == sat_add(old(self).files, more.files),
            final(self).errors == sat_add(old(self).errors, more.errors),
            final(self).filtered == sat_add(old(self).filtered, more.filtered),
            final(self).skipped == sat_add(old(self).skipped, more.skipped),
            final(self).transcoded == sat_add(old(self).transcoded, more.transcoded),
    {
        self.files = self.files.saturating_add(more.files);
        self.errors = self.errors.saturating_add(more.errors);
        self.filtered = self.filtered.saturating_add(more.filtered);
        self.skipped = self.skipped.saturating_add(more.skipped);
        self.transcoded = self.transcoded.saturating_add(more.transcoded);
    }
}

/// Decides whether a file met by the scan is enqueued: it is when it passes
/// every predicate of `chain`. Counts the file, and counts it as filtered
/// when it passes.
pub fn screen_file(chain: &Vec<Predicate>, facts: &PathFacts, stats: &mut ScanStats) -> (r: bool)
    ensures
        r == chain_holds(chain@, *facts),
        final(stats).files == sat_add(old(stats).files, 1),
        final(stats).filtered == (if r {
            sat_add(old(stats).filtered, 1)
        } else {
            old(stats).filtered
        }),
        final(stats).errors == old(stats).errors,
        final(stats).skipped == old(stats).skipped,
        final(stats).transcoded == old(stats).transcoded,
{
    stats.files = stats.files.saturating_add(1);
    let r = passes_all(chain, facts);
    if r {
        stats.filtered = stats.filtered.saturating_add(1);
    }
    r
}

} // verus!
