use vstd::prelude::*;

use crate::experience::outcome::RequestOutcome;

verus! {

/// What has been learnt of one step kind: how often the edge served it, how
/// often a cascade fell back to the cloud, and how often the upstream failed.
#[derive(Debug, Clone, Copy, PartialEq, Eq, Default, Structural)]
pub struct StepExperience {
    pub edge_ok: u64,
    pub cascade_fallback: u64,
    pub upstream_error: u64,
}

/// The counters after one outcome: each flag that is set adds one to its counter.
pub open spec fn recorded(e: StepExperience, o: RequestOutcome) -> StepExperience {
    StepExperience {
        edge_ok: if o.edge_ok {
            (e.edge_ok + 1) as u64
        } else {
            e.edge_ok
        },
        cascade_fallback: if o.cascade_fallback {
            (e.cascade_fallback + 1) as u64
        } else {
            e.cascade_fallback
        },
        upstream_error: if o.upstream_error {
            (e.upstream_error + 1) as u64
        } else {
            e.upstream_error
        },
    }
}

/// Room left in every counter that the outcome bumps.
pub open spec fn outcome_fits(e: StepExperience, o: RequestOutcome) -> bool {
    &&& o.edge_ok ==> e.edge_ok < u64::MAX
    &&& o.cascade_fallback ==> e.cascade_fallback < u64::MAX
    &&& o.upstream_error ==> e.upstream_error < u64::MAX
}

impl StepExperience {
    /// Counts one outcome of a request of this step kind.
    pub fn record_outcome(&mut self, outcome: RequestOutcome)
        requires
            outcome_fits(*old(self), outcome),
        ensures
            *final(self) == recorded(*old(self), outcome),
    {
        if outcome.edge_ok {
            self.edge_ok += 1;
        }
        if outcome.cascade_fallback {
            self.cascade_fallback += 1;
        }
        if outcome.upstream_error {
            self.upstream_error += 1;
        }
    }

    /// Edge successes plus cascade fallbacks counted for this step kind.
    pub fn judged(&self) -> (r: u64)
        requires
            self.edge_ok + self.cascade_fallback <= u64::MAX,
        ensures
            r == self.edge_ok + self.cascade_fallback,
    {
        self.edge_ok + self.cascade_fallback
    }
}

/// Counting an outcome never lowers a counter, and an outcome that is an edge
/// success, a cascade fallback or an upstream error is counted exactly once.
pub proof fn lemma_outcome_counts_once(e: StepExperience, o: RequestOutcome)
    requires
        outcome_fits(e, o),
    ensures
        recorded(e, o).edge_ok + recorded(e, o).cascade_fallback + recorded(e, o).upstream_error
            == e.edge_ok + e.cascade_fallback + e.upstream_error + (if o.edge_ok {
            1int
        } else {
            0
        }) + (if o.cascade_fallback {
            1int
        } else {
            0
        }) + (if o.upstream_error {
            1int
        } else {
            0
        }),
        recorded(e, o).edge_ok >= e.edge_ok,
        recorded(e, o).cascade_fallback >= e.cascade_fallback,
        recorded(e, o).upstream_error >= e.upstream_error,
{
}

} // verus!
