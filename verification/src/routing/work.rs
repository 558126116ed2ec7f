use vstd::prelude::*;

use super::decision::RouteTier;
use super::step_kind::StepKind;

verus! {

/// How a work step is served.
#[derive(Debug, Clone, Copy, PartialEq, Eq, Default, Structural)]
pub enum WorkStrategy {
    #[default]
    NoStrategy,
    /// Experience shows edge handles this step_kind reliably.
    CachedEdge,
    /// Edge first, cloud validates; outcomes feed experience.
    Verify,
}

/// Why the work policy changed the route; each names one reason code.
#[derive(Debug, Clone, Copy, PartialEq, Eq, Structural)]
pub enum WorkReason {
    /// `INITIAL_PLAN_CLOUD`
    InitialPlanCloud,
    /// `WORK_CACHE_EDGE`
    CacheEdge,
    /// `WORK_VERIFY_SAMPLE(p=..)`
    VerifySample,
    /// `WORK_SAMPLE_SKIP(p=..)`
    SampleSkip,
}

pub open spec fn plan_step(k: StepKind) -> bool {
    k == StepKind::InitialPlan
}

pub open spec fn work_step(k: StepKind) -> bool {
    ||| k == StepKind::ToolSelect
    ||| k == StepKind::ToolArgFill
    ||| k == StepKind::ToolResultDigest
    ||| k == StepKind::FinalReply
    ||| k == StepKind::SubagentSpawn
    ||| k == StepKind::MemoryCompact
    ||| k == StepKind::CronBackground
}

/// The step plans a new task.
pub fn is_plan_step(step_kind: StepKind) -> (r: bool)
    ensures
        r == plan_step(step_kind),
{
    step_kind == StepKind::InitialPlan
}

/// The step does work inside an agent loop.
pub fn is_work_step(step_kind: StepKind) -> (r: bool)
    ensures
        r == work_step(step_kind),
{
    match step_kind {
        StepKind::ToolSelect | StepKind::ToolArgFill | StepKind::ToolResultDigest
        | StepKind::FinalReply | StepKind::SubagentSpawn | StepKind::MemoryCompact
        | StepKind::CronBackground => true,
        _ => false,
    }
}

/// The work policy: planning goes to the cloud; work steps go to the edge when
/// experience trusts it, else are verified in cascade when sampled, else go to
/// the edge. Without a cloud upstream, or for other steps, or without an edge
/// upstream, the route stands.
pub open spec fn work_route_spec(
    route: RouteTier,
    step_kind: StepKind,
    edge_configured: bool,
    cloud_configured: bool,
    edge_trusted: bool,
    sampled: bool,
) -> (RouteTier, WorkStrategy, Option<WorkReason>) {
    if !cloud_configured {
        (route, WorkStrategy::NoStrategy, None)
    } else if plan_step(step_kind) {
        (RouteTier::Cloud, WorkStrategy::NoStrategy, Some(WorkReason::InitialPlanCloud))
    } else if !work_step(step_kind) || !edge_configured {
        (route, WorkStrategy::NoStrategy, None)
    } else if edge_trusted {
        (RouteTier::Edge, WorkStrategy::CachedEdge, Some(WorkReason::CacheEdge))
    } else if sampled {
        (RouteTier::Cascade, WorkStrategy::Verify, Some(WorkReason::VerifySample))
    } else {
        (RouteTier::Edge, WorkStrategy::NoStrategy, Some(WorkReason::SampleSkip))
    }
}

/// Applies the work policy. `edge_trusted` is whether experience trusts the edge
/// for this step kind; `sampled` is whether this request falls in the
/// verification sample. Returns the route, the strategy and the reason to record.
pub fn decide_work_route(
    route: RouteTier,
    step_kind: StepKind,
    edge_configured: bool,
    cloud_configured: bool,
    edge_trusted: bool,
    sampled: bool,
) -> (r: (RouteTier, WorkStrategy, Option<WorkReason>))
    ensures
        r == work_route_spec(route, step_kind, edge_configured, cloud_configured, edge_trusted, sampled),
{
    if !cloud_configured {
        return (route, WorkStrategy::NoStrategy, None);
    }
    if is_plan_step(step_kind) {
        return (RouteTier::Cloud, WorkStrategy::NoStrategy, Some(WorkReason::InitialPlanCloud));
    }
    if !is_work_step(step_kind) || !edge_configured {
        return (route, WorkStrategy::NoStrategy, None);
    }
    if edge_trusted {
        return (RouteTier::Edge, WorkStrategy::CachedEdge, Some(WorkReason::CacheEdge));
    }
    if sampled {
        return (RouteTier::Cascade, WorkStrategy::Verify, Some(WorkReason::VerifySample));
    }
    (RouteTier::Edge, WorkStrategy::NoStrategy, Some(WorkReason::SampleSkip))
}

/// Planning is never a work step: the two step classes are disjoint.
pub proof fn lemma_plan_and_work_disjoint(k: StepKind)
    ensures
        !(plan_step(k) && work_step(k)),
{
}

/// With both upstreams configured, the work policy never leaves a work step on
/// the cloud: it goes to the edge or to a verifying cascade.
pub proof fn lemma_work_steps_leave_cloud(
    route: RouteTier,
    step_kind: StepKind,
    edge_trusted: bool,
    sampled: bool,
)
    requires
        work_step(step_kind),
    ensures
        work_route_spec(route, step_kind, true, true, edge_trusted, sampled).0 != RouteTier::Cloud,
        work_route_spec(route, step_kind, true, true, edge_trusted, sampled).1 == WorkStrategy::Verify
            <==> (!edge_trusted && sampled),
{
}

/// The work steps are the agent-loop steps: tool selection, argument filling,
/// tool-result digests, final replies, sub-agent spawns, memory compaction and
/// background jobs. With both upstreams configured each of them leaves the
/// cloud: to the edge when experience trusts it, else to a verifying cascade
/// when sampled, else to the edge. A plan goes to the cloud, and a heartbeat,
/// direct chat or recovery step keeps its route.
pub proof fn lemma_work_route_by_step(route: RouteTier, k: StepKind, edge_trusted: bool, sampled: bool)
    ensures
        (match k {
            StepKind::ToolSelect | StepKind::ToolArgFill | StepKind::ToolResultDigest
            | StepKind::FinalReply | StepKind::SubagentSpawn | StepKind::MemoryCompact
            | StepKind::CronBackground => work_route_spec(route, k, true, true, edge_trusted, sampled) == if edge_trusted {
                (RouteTier::Edge, WorkStrategy::CachedEdge, Some(WorkReason::CacheEdge))
            } else if sampled {
                (RouteTier::Cascade, WorkStrategy::Verify, Some(WorkReason::VerifySample))
            } else {
                (RouteTier::Edge, WorkStrategy::NoStrategy, Some(WorkReason::SampleSkip))
            },
            StepKind::InitialPlan => work_route_spec(route, k, true, true, edge_trusted, sampled) == (
                RouteTier::Cloud,
                WorkStrategy::NoStrategy,
                Some(WorkReason::InitialPlanCloud),
            ),
            StepKind::HeartbeatAck | StepKind::DirectChat | StepKind::RecoveryAfterFailure => work_route_spec(
                route,
                k,
                true,
                true,
                edge_trusted,
                sampled,
            ) == (route, WorkStrategy::NoStrategy, None::<WorkReason>),
        }),
{
}

} // verus!
