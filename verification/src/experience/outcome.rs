use vstd::prelude::*;

use crate::routing::decision::RouteTier;
use crate::routing::gates::hard_gate_spec;
use crate::routing::signals::RequestSignals;
use crate::routing::step_kind::StepKind;

verus! {

/// Result of a completed chat request (implicit signals for learning).
#[derive(Debug, Clone, Copy, PartialEq, Eq, Structural)]
pub struct RequestOutcome {
    pub edge_ok: bool,
    pub cascade_fallback: bool,
    pub upstream_error: bool,
}

impl Default for RequestOutcome {
    fn default() -> (r: RequestOutcome)
        ensures
            r == (RequestOutcome { edge_ok: false, cascade_fallback: false, upstream_error: false }),
    {
        RequestOutcome { edge_ok: false, cascade_fallback: false, upstream_error: false }
    }
}

/// The outcome of a request served on `route`; `fallback` says whether a
/// cascade fell back to the cloud.
pub open spec fn success_spec(route: RouteTier, fallback: bool) -> RequestOutcome {
    match route {
        RouteTier::Edge => RequestOutcome { edge_ok: true, cascade_fallback: false, upstream_error: false },
        RouteTier::Cloud => RequestOutcome {
            edge_ok: false,
            cascade_fallback: false,
            upstream_error: false,
        },
        RouteTier::Cascade => RequestOutcome {
            edge_ok: !fallback,
            cascade_fallback: fallback,
            upstream_error: false,
        },
    }
}

/// After this outcome the conversation sticks to the cloud.
pub open spec fn sticky_spec(o: RequestOutcome, step_kind: StepKind) -> bool {
    o.cascade_fallback || (o.upstream_error && step_kind != StepKind::HeartbeatAck)
}

impl RequestOutcome {
    /// The outcome of a request served on `route` (the decision's tier).
    pub fn success(route: RouteTier, fallback: bool) -> (r: Self)
        ensures
            r == success_spec(route, fallback),
    {
        match route {
            RouteTier::Edge => Self { edge_ok: true, cascade_fallback: false, upstream_error: false },
            RouteTier::Cloud => Self::default(),
            RouteTier::Cascade => Self {
                edge_ok: !fallback,
                cascade_fallback: fallback,
                upstream_error: false,
            },
        }
    }

    /// The outcome of a request whose upstream call failed.
    pub fn upstream_error() -> (r: Self)
        ensures
            r == (RequestOutcome { edge_ok: false, cascade_fallback: false, upstream_error: true }),
    {
        Self { edge_ok: false, cascade_fallback: false, upstream_error: true }
    }

    /// After this outcome the conversation should stick to the cloud.
    pub fn should_set_cloud_sticky(self, step_kind: StepKind) -> (r: bool)
        ensures
            r == sticky_spec(self, step_kind),
    {
        self.cascade_fallback || (self.upstream_error && step_kind != StepKind::HeartbeatAck)
    }
}

/// A cascade that fell back to the cloud always makes the conversation stick to
/// the cloud, and a successful request on a single tier never does.
pub proof fn lemma_fallback_sticks(step_kind: StepKind, fallback: bool)
    ensures
        sticky_spec(success_spec(RouteTier::Cascade, fallback), step_kind) == fallback,
        !sticky_spec(success_spec(RouteTier::Edge, fallback), step_kind),
        !sticky_spec(success_spec(RouteTier::Cloud, fallback), step_kind),
{
}

/// A failed upstream call makes the conversation stick to the cloud unless the
/// step was a heartbeat acknowledgement.
pub proof fn lemma_error_sticks(step_kind: StepKind)
    ensures
        sticky_spec(
            RequestOutcome { edge_ok: false, cascade_fallback: false, upstream_error: true },
            step_kind,
        ) <==> step_kind != StepKind::HeartbeatAck,
{
}

/// A successful outcome never reports both an edge success and a fallback, and
/// never an upstream error.
pub proof fn lemma_success_consistent(route: RouteTier, fallback: bool)
    ensures
        !(success_spec(route, fallback).edge_ok && success_spec(route, fallback).cascade_fallback),
        !success_spec(route, fallback).upstream_error,
{
}

/// Once a sticky outcome at time `t` sets the conversation's cloud deadline to
/// `t + ttl`, every later request of that conversation before the deadline is
/// sent to the cloud by the sticky-cloud gate while the edge is up, whatever its
/// signals and step kind.
pub proof fn lemma_sticky_outcome_gates_cloud(
    outcome: RequestOutcome,
    outcome_step: StepKind,
    t: u64,
    ttl: u64,
    signals: RequestSignals,
    step_kind: StepKind,
    ctx_edge_max: u32,
    now: u64,
)
    requires
        sticky_spec(outcome, outcome_step),
        t + ttl <= u64::MAX,
        t <= now < t + ttl,
    ensures
        hard_gate_spec(signals, step_kind, ctx_edge_max, true, Some((t + ttl) as u64), now) == Some(
            "GATE_STICKY_CLOUD"@,
        ),
{
}

} // verus!
