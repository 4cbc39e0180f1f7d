//! The tally of a conversion run.

use vstd::prelude::*;

use crate::pipeline::Outcome;

verus! {

/// A counter after one more event; like an atomic counter it wraps to zero
/// past the largest value.
pub open spec fn bumped(n: usize) -> usize {
    if n == usize::MAX {
        0
    } else {
        (n + 1) as usize
    }
}

fn bump(n: usize) -> (r: usize)
    ensures
        r == bumped(n),
{
    n.wrapping_add(1)
}

/// How many files were converted, skipped and failed so far.
pub struct ConversionStats {
    pub converted: usize,
    pub skipped: usize,
    pub failed: usize,
}

impl ConversionStats {
    /// No file counted yet.
    pub fn new() -> (r: ConversionStats)
        ensures
            r.converted == 0 && r.skipped == 0 && r.failed == 0,
    {
        ConversionStats { converted: 0, skipped: 0, failed: 0 }
    }

    /// Counts a converted file.
    pub fn inc_ok(&mut self)
        ensures
            final(self).converted == bumped(old(self).converted),
            final(self).skipped == old(self).skipped,
            final(self).failed == old(self).failed,
    {
        self.converted = bump(self.converted);
    }

    /// Counts a skipped file.
    pub fn inc_skip(&mut self)
        ensures
            final(self).skipped == bumped(old(self).skipped),
            final(self).converted == old(self).converted,
            final(self).failed == old(self).failed,
    {
        self.skipped = bump(self.skipped);
    }

    /// Counts a failed file.
    pub fn inc_fail(&mut self)
        ensures
            final(self).failed == bumped(old(self).failed),
            final(self).converted == old(self).converted,
            final(self).skipped == old(self).skipped,
    {
        self.failed = bump(self.failed);
    }

    /// Counts a file by how its conversion ended.
    pub fn record(&mut self, outcome: Outcome)
        ensures
            *final(self) == recorded(*old(self), outcome),
    {
        match outcome {
            Outcome::Converted => self.inc_ok(),
            Outcome::Skipped => self.inc_skip(),
            Outcome::Failed => self.inc_fail(),
        }
    }

    /// The counts: converted, skipped, failed.
    pub fn summary(&self) -> (r: (usize, usize, usize))
        ensures
            r == (self.converted, self.skipped, self.failed),
    {
        (self.converted, self.skipped, self.failed)
    }
}

/// The tally after one more file ended with `outcome`.
pub open spec fn recorded(s: ConversionStats, outcome: Outcome) -> ConversionStats {
    ConversionStats {
        converted: if outcome == Outcome::Converted {
            bumped(s.converted)
        } else {
            s.converted
        },
        skipped: if outcome == Outcome::Skipped {
            bumped(s.skipped)
        } else {
            s.skipped
        },
        failed: if outcome == Outcome::Failed {
            bumped(s.failed)
        } else {
            s.failed
        },
    }
}

/// Every file is counted exactly once: recording one outcome raises the total
/// of the three counts by one, as long as no count is at its limit.
pub proof fn law_one_count_per_file(before: ConversionStats, outcome: Outcome)
    requires
        before.converted < usize::MAX,
        before.skipped < usize::MAX,
        before.failed < usize::MAX,
    ensures
        ({
            let after = recorded(before, outcome);
            after.converted + after.skipped + after.failed == before.converted + before.skipped
                + before.failed + 1
        }),
{
}

/// The tally after the files ended with `outcomes`, in order.
pub open spec fn recorded_all(s: ConversionStats, outcomes: Seq<Outcome>) -> ConversionStats
    decreases outcomes.len(),
{
    if outcomes.len() == 0 {
        s
    } else {
        recorded(recorded_all(s, outcomes.drop_last()), outcomes.last())
    }
}

/// A run in which every file is skipped (as every file whose target already
/// exists is, by the per-file collision law) counts them all as skipped and
/// none as converted or failed.
pub proof fn law_all_skipped_run(outcomes: Seq<Outcome>)
    requires
        outcomes.len() <= usize::MAX,
        forall|i: int| 0 <= i < outcomes.len() ==> outcomes[i] == Outcome::Skipped,
    ensures
        ({
            let r = recorded_all(ConversionStats { converted: 0, skipped: 0, failed: 0 }, outcomes);
            r.converted == 0 && r.skipped == outcomes.len() && r.failed == 0
        }),
    decreases outcomes.len(),
{
    if outcomes.len() > 0 {
        law_all_skipped_run(outcomes.drop_last());
    }
}

} // verus!
