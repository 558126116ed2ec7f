use vstd::prelude::*;

use super::signals::RequestSignals;
use super::step_kind::StepKind;
use crate::clock::now_unix;

verus! {

/// A hard routing constraint that sends the request to the cloud without scoring.
#[derive(Debug, Clone, Copy)]
pub struct HardGate {
    pub code: &'static str,
}

/// Four fifths of the edge context size, rounded down. This is the value of
/// `(ctx_edge_max as f64 * 0.8) as u32` for every `u32` input: the product is a
/// multiple of 0.2 up to a rounding error far below 0.2, so truncation lands on
/// `floor(4 * ctx / 5)`.
pub open spec fn ctx_overflow_limit(ctx_edge_max: u32) -> int {
    (ctx_edge_max as int * 4) / 5
}

pub fn ctx_limit(ctx_edge_max: u32) -> (r: u32)
    ensures
        r == ctx_overflow_limit(ctx_edge_max),
{
    ((ctx_edge_max as u64 * 4) / 5) as u32
}

/// A cloud-sticky deadline is in force at time `now`.
pub open spec fn sticky_at(cloud_sticky_until: Option<u64>, now: u64) -> bool {
    match cloud_sticky_until {
        Some(until) => now < until,
        None => false,
    }
}

/// The first hard gate that fires, in priority order, as its code.
pub open spec fn hard_gate_spec(
    signals: RequestSignals,
    step_kind: StepKind,
    ctx_edge_max: u32,
    edge_available: bool,
    cloud_sticky_until: Option<u64>,
    now: u64,
) -> Option<Seq<char>> {
    if !edge_available {
        Some("GATE_EDGE_DOWN"@)
    } else if sticky_at(cloud_sticky_until, now) {
        Some("GATE_STICKY_CLOUD"@)
    } else if signals.tok_total_in > ctx_overflow_limit(ctx_edge_max) {
        Some("GATE_CTX_OVERFLOW"@)
    } else if signals.assistant_failed_recent && step_kind != StepKind::HeartbeatAck {
        Some("GATE_ASSISTANT_FAILURE"@)
    } else if signals.risky_tool_tier1 {
        Some("GATE_RISKY_TOOL"@)
    } else if step_kind == StepKind::MemoryCompact && signals.tok_total_in > 12_000 {
        Some("GATE_OPENCLAW_COMPACT"@)
    } else {
        None
    }
}

/// Identifier of the hard gate that fired.
pub open spec fn fired_gate_id(g: Option<HardGate>) -> Option<Seq<char>> {
    match g {
        Some(h) => Some(h.code@),
        None => None,
    }
}

/// Whether a cloud-sticky deadline is still in force at time `now`.
pub fn cloud_sticky_active_at(cloud_sticky_until: Option<u64>, now: u64) -> (r: bool)
    ensures
        r == sticky_at(cloud_sticky_until, now),
{
    match cloud_sticky_until {
        Some(until) => now < until,
        None => false,
    }
}

/// Whether a cloud-sticky deadline is still in force now.
pub fn cloud_sticky_active(cloud_sticky_until: Option<u64>) -> (r: bool)
    ensures
        cloud_sticky_until is None ==> !r,
        exists|now: u64| r == sticky_at(cloud_sticky_until, now),
{
    let now = now_unix();
    cloud_sticky_active_at(cloud_sticky_until, now)
}

/// Checks the hard gates at time `now`; the first that fires wins.
pub fn check_hard_gates_at(
    signals: &RequestSignals,
    step_kind: StepKind,
    ctx_edge_max: u32,
    edge_available: bool,
    cloud_sticky_until: Option<u64>,
    now: u64,
) -> (r: Option<HardGate>)
    ensures
        fired_gate_id(r) == hard_gate_spec(
            *signals,
            step_kind,
            ctx_edge_max,
            edge_available,
            cloud_sticky_until,
            now,
        ),
{
    if !edge_available {
        return Some(HardGate { code: "GATE_EDGE_DOWN" });
    }
    if cloud_sticky_active_at(cloud_sticky_until, now) {
        return Some(HardGate { code: "GATE_STICKY_CLOUD" });
    }
    if signals.tok_total_in > ctx_limit(ctx_edge_max) {
        return Some(HardGate { code: "GATE_CTX_OVERFLOW" });
    }
    if signals.assistant_failed_recent && step_kind != StepKind::HeartbeatAck {
        return Some(HardGate { code: "GATE_ASSISTANT_FAILURE" });
    }
    if signals.risky_tool_tier1 {
        return Some(HardGate { code: "GATE_RISKY_TOOL" });
    }
    if step_kind == StepKind::MemoryCompact && signals.tok_total_in > 12_000 {
        return Some(HardGate { code: "GATE_OPENCLAW_COMPACT" });
    }
    None
}

/// Checks the hard gates against the current time; the first that fires wins.
/// Only the sticky-cloud gate depends on the time of the call.
pub fn check_hard_gates(
    signals: &RequestSignals,
    step_kind: StepKind,
    ctx_edge_max: u32,
    edge_available: bool,
    cloud_sticky_until: Option<u64>,
) -> (r: Option<HardGate>)
    ensures
        exists|now: u64|
            fired_gate_id(r) == hard_gate_spec(
                *signals,
                step_kind,
                ctx_edge_max,
                edge_available,
                cloud_sticky_until,
                now,
            ),
{
    let now = now_unix();
    check_hard_gates_at(signals, step_kind, ctx_edge_max, edge_available, cloud_sticky_until, now)
}

/// The time-independent gates fire the same way at every moment: whatever the
/// clock reads, a missing edge, a context overflow, a recent assistant failure, a
/// risky tool or a large memory compaction always forces the cloud, and with no
/// sticky deadline the outcome does not depend on the time at all.
pub proof fn lemma_gates_without_sticky_ignore_time(
    signals: RequestSignals,
    step_kind: StepKind,
    ctx_edge_max: u32,
    edge_available: bool,
    t1: u64,
    t2: u64,
)
    ensures
        hard_gate_spec(signals, step_kind, ctx_edge_max, edge_available, None, t1) == hard_gate_spec(
            signals,
            step_kind,
            ctx_edge_max,
            edge_available,
            None,
            t2,
        ),
{
}

/// A sticky deadline in the future, with the edge available, always yields the
/// sticky-cloud gate.
pub proof fn lemma_sticky_deadline_forces_cloud(
    signals: RequestSignals,
    step_kind: StepKind,
    ctx_edge_max: u32,
    until: u64,
    now: u64,
)
    requires
        now < until,
    ensures
        hard_gate_spec(signals, step_kind, ctx_edge_max, true, Some(until), now) == Some(
            "GATE_STICKY_CLOUD"@,
        ),
{
}

/// The hard gates in words: a missing edge always fires `GATE_EDGE_DOWN`; with
/// the edge up and no sticky deadline in force, more than four fifths of the
/// edge context fires `GATE_CTX_OVERFLOW`; and no gate fires only when the edge
/// is up, no deadline is in force, the input fits four fifths of the context,
/// no assistant failure is recent (outside heartbeats), no risky tool was
/// called and no memory compaction exceeds 12000 tokens.
pub proof fn lemma_gates_in_words(
    signals: RequestSignals,
    step_kind: StepKind,
    ctx_edge_max: u32,
    edge_available: bool,
    cloud_sticky_until: Option<u64>,
    now: u64,
)
    ensures
        !edge_available ==> hard_gate_spec(
            signals,
            step_kind,
            ctx_edge_max,
            edge_available,
            cloud_sticky_until,
            now,
        ) == Some("GATE_EDGE_DOWN"@),
        edge_available && !(cloud_sticky_until matches Some(u) && now < u) && 5 * signals.tok_total_in > 4
            * ctx_edge_max ==> hard_gate_spec(
            signals,
            step_kind,
            ctx_edge_max,
            edge_available,
            cloud_sticky_until,
            now,
        ) == Some("GATE_CTX_OVERFLOW"@),
        hard_gate_spec(signals, step_kind, ctx_edge_max, edge_available, cloud_sticky_until, now) is None
            <==> ({
            &&& edge_available
            &&& !(cloud_sticky_until matches Some(u) && now < u)
            &&& 5 * signals.tok_total_in <= 4 * ctx_edge_max
            &&& !(signals.assistant_failed_recent && step_kind != StepKind::HeartbeatAck)
            &&& !signals.risky_tool_tier1
            &&& !(step_kind == StepKind::MemoryCompact && signals.tok_total_in > 12_000)
        }),
{
    let t = signals.tok_total_in as int;
    let c = ctx_edge_max as int;
    assert((t > (c * 4) / 5) <==> (5 * t > 4 * c)) by (nonlinear_arith);
}

} // verus!
