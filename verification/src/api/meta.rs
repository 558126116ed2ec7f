use vstd::prelude::*;

use crate::routing::decision::{Profile, RouteTier};
use crate::routing::step_kind::StepKind;

verus! {

pub open spec fn tier_name_spec(t: RouteTier) -> Seq<char> {
    match t {
        RouteTier::Edge => "edge"@,
        RouteTier::Cloud => "cloud"@,
        RouteTier::Cascade => "cascade"@,
    }
}

/// Lower-case tier name reported to clients.
pub fn tier_name(t: RouteTier) -> (r: &'static str)
    ensures
        r@ == tier_name_spec(t),
{
    match t {
        RouteTier::Edge => "edge",
        RouteTier::Cloud => "cloud",
        RouteTier::Cascade => "cascade",
    }
}

pub open spec fn step_kind_name_spec(k: StepKind) -> Seq<char> {
    match k {
        StepKind::HeartbeatAck => "heartbeat_ack"@,
        StepKind::DirectChat => "direct_chat"@,
        StepKind::RecoveryAfterFailure => "recovery_after_failure"@,
        StepKind::ToolSelect => "tool_select"@,
        StepKind::ToolArgFill => "tool_arg_fill"@,
        StepKind::ToolResultDigest => "tool_result_digest"@,
        StepKind::InitialPlan => "initial_plan"@,
        StepKind::FinalReply => "final_reply"@,
        StepKind::SubagentSpawn => "subagent_spawn"@,
        StepKind::MemoryCompact => "memory_compact"@,
        StepKind::CronBackground => "cron_background"@,
    }
}

/// Snake-case step-kind name reported to clients.
pub fn step_kind_name(k: StepKind) -> (r: &'static str)
    ensures
        r@ == step_kind_name_spec(k),
{
    match k {
        StepKind::HeartbeatAck => "heartbeat_ack",
        StepKind::DirectChat => "direct_chat",
        StepKind::RecoveryAfterFailure => "recovery_after_failure",
        StepKind::ToolSelect => "tool_select",
        StepKind::ToolArgFill => "tool_arg_fill",
        StepKind::ToolResultDigest => "tool_result_digest",
        StepKind::InitialPlan => "initial_plan",
        StepKind::FinalReply => "final_reply",
        StepKind::SubagentSpawn => "subagent_spawn",
        StepKind::MemoryCompact => "memory_compact",
        StepKind::CronBackground => "cron_background",
    }
}

pub open spec fn profile_name_spec(p: Profile) -> Seq<char> {
    match p {
        Profile::Economy => "economy"@,
        Profile::Balanced => "balanced"@,
        Profile::Premium => "premium"@,
        Profile::Privacy => "privacy"@,
    }
}

/// Lower-case profile name reported to clients.
pub fn profile_name(p: Profile) -> (r: &'static str)
    ensures
        r@ == profile_name_spec(p),
{
    match p {
        Profile::Economy => "economy",
        Profile::Balanced => "balanced",
        Profile::Premium => "premium",
        Profile::Privacy => "privacy",
    }
}

} // verus!
