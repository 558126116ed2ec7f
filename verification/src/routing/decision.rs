use vstd::prelude::*;

use super::signals::RequestSignals;
use super::step_kind::StepKind;
use crate::text::{lowered_text_is, str_lowered_is};

verus! {

/// Where a request is served: the edge upstream, the cloud upstream, or edge
/// first with a cloud fallback.
#[derive(Debug, Clone, Copy, PartialEq, Eq, Structural)]
pub enum RouteTier {
    Edge,
    Cloud,
    Cascade,
}

/// How `route = auto` maps difficulty onto tiers.
#[derive(Debug, Clone, Copy, PartialEq, Eq, Structural)]
pub enum RoutingMode {
    Single,
    Cascade,
    Split,
}

/// A cost/quality routing profile.
#[derive(Debug, Clone, Copy, PartialEq, Eq, Structural)]
pub enum Profile {
    Economy,
    Balanced,
    Premium,
    Privacy,
}

/// The routing mode that a configuration string names, case-insensitively.
pub open spec fn routing_mode_of(s: Seq<char>) -> Option<RoutingMode> {
    if lowered_text_is(s, "single"@) {
        Some(RoutingMode::Single)
    } else if lowered_text_is(s, "cascade"@) {
        Some(RoutingMode::Cascade)
    } else if lowered_text_is(s, "split"@) {
        Some(RoutingMode::Split)
    } else {
        None
    }
}

impl RoutingMode {
    /// Parses `single`, `cascade` or `split`, ignoring ASCII case.
    pub fn parse(s: &str) -> (r: Option<RoutingMode>)
        ensures
            r == routing_mode_of(s@),
    {
        if str_lowered_is(s, "single") {
            Some(RoutingMode::Single)
        } else if str_lowered_is(s, "cascade") {
            Some(RoutingMode::Cascade)
        } else if str_lowered_is(s, "split") {
            Some(RoutingMode::Split)
        } else {
            None
        }
    }
}

impl std::str::FromStr for RoutingMode {
    type Err = ();

    fn from_str(s: &str) -> (r: Result<Self, Self::Err>)
        ensures
            r == match routing_mode_of(s@) {
                Some(m) => Ok::<RoutingMode, ()>(m),
                None => Err(()),
            },
    {
        match RoutingMode::parse(s) {
            Some(m) => Ok(m),
            None => Err(()),
        }
    }
}

/// Cloud input tokens that serving on `route` avoids sending to the cloud.
pub open spec fn cloud_input_saved_spec(route: RouteTier, tok_total_in: u32) -> u32 {
    match route {
        RouteTier::Edge => tok_total_in,
        RouteTier::Cascade => tok_total_in / 2,
        RouteTier::Cloud => 0,
    }
}

/// Estimate of the cloud input tokens saved by the chosen route.
pub fn cloud_input_saved(route: RouteTier, signals: &RequestSignals) -> (r: u32)
    ensures
        r == cloud_input_saved_spec(route, signals.tok_total_in),
{
    match route {
        RouteTier::Edge => signals.tok_total_in,
        RouteTier::Cascade => signals.tok_total_in / 2,
        RouteTier::Cloud => 0,
    }
}

/// Upper-case tier name used in reason codes.
pub open spec fn tier_code_spec(t: RouteTier) -> Seq<char> {
    match t {
        RouteTier::Edge => "EDGE"@,
        RouteTier::Cloud => "CLOUD"@,
        RouteTier::Cascade => "CASCADE"@,
    }
}

/// Upper-case tier name used in reason codes (`CONFIG_ROUTE_<NAME>`).
pub fn tier_name(t: RouteTier) -> (r: &'static str)
    ensures
        r@ == tier_code_spec(t),
{
    match t {
        RouteTier::Edge => "EDGE",
        RouteTier::Cloud => "CLOUD",
        RouteTier::Cascade => "CASCADE",
    }
}

/// Upper-case step-kind name used in reason codes (`STEP_<NAME>`).
pub open spec fn step_kind_code_spec(k: StepKind) -> Seq<char> {
    match k {
        StepKind::HeartbeatAck => "HEARTBEAT_ACK"@,
        StepKind::DirectChat => "DIRECT_CHAT"@,
        StepKind::RecoveryAfterFailure => "RECOVERY_AFTER_FAILURE"@,
        StepKind::ToolSelect => "TOOL_SELECT"@,
        StepKind::ToolArgFill => "TOOL_ARG_FILL"@,
        StepKind::ToolResultDigest => "TOOL_RESULT_DIGEST"@,
        StepKind::InitialPlan => "INITIAL_PLAN"@,
        StepKind::FinalReply => "FINAL_REPLY"@,
        StepKind::SubagentSpawn => "SUBAGENT_SPAWN"@,
        StepKind::MemoryCompact => "MEMORY_COMPACT"@,
        StepKind::CronBackground => "CRON_BACKGROUND"@,
    }
}

/// Upper-case step-kind name used in reason codes.
pub fn step_kind_code(k: StepKind) -> (r: &'static str)
    ensures
        r@ == step_kind_code_spec(k),
{
    match k {
        StepKind::HeartbeatAck => "HEARTBEAT_ACK",
        StepKind::DirectChat => "DIRECT_CHAT",
        StepKind::RecoveryAfterFailure => "RECOVERY_AFTER_FAILURE",
        StepKind::ToolSelect => "TOOL_SELECT",
        StepKind::ToolArgFill => "TOOL_ARG_FILL",
        StepKind::ToolResultDigest => "TOOL_RESULT_DIGEST",
        StepKind::InitialPlan => "INITIAL_PLAN",
        StepKind::FinalReply => "FINAL_REPLY",
        StepKind::SubagentSpawn => "SUBAGENT_SPAWN",
        StepKind::MemoryCompact => "MEMORY_COMPACT",
        StepKind::CronBackground => "CRON_BACKGROUND",
    }
}

} // verus!
