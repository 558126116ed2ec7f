use vstd::prelude::*;

verus! {

/// The kind of agent-loop step that one chat request represents.
#[derive(Debug, Clone, Copy, PartialEq, Eq, Hash, Structural)]
pub enum StepKind {
    HeartbeatAck,
    DirectChat,
    RecoveryAfterFailure,
    ToolSelect,
    ToolArgFill,
    ToolResultDigest,
    InitialPlan,
    FinalReply,
    SubagentSpawn,
    MemoryCompact,
    CronBackground,
}

/// The lower-cased variant name under which a step kind is counted.
pub open spec fn step_kind_key_spec(k: StepKind) -> Seq<char> {
    match k {
        StepKind::HeartbeatAck => "heartbeatack"@,
        StepKind::DirectChat => "directchat"@,
        StepKind::RecoveryAfterFailure => "recoveryafterfailure"@,
        StepKind::ToolSelect => "toolselect"@,
        StepKind::ToolArgFill => "toolargfill"@,
        StepKind::ToolResultDigest => "toolresultdigest"@,
        StepKind::InitialPlan => "initialplan"@,
        StepKind::FinalReply => "finalreply"@,
        StepKind::SubagentSpawn => "subagentspawn"@,
        StepKind::MemoryCompact => "memorycompact"@,
        StepKind::CronBackground => "cronbackground"@,
    }
}

/// The counter key of a step kind: its variant name in lower case.
pub fn step_kind_key(k: StepKind) -> (r: String)
    ensures
        r@ == step_kind_key_spec(k),
{
    let s: &str = match k {
        StepKind::HeartbeatAck => "heartbeatack",
        StepKind::DirectChat => "directchat",
        StepKind::RecoveryAfterFailure => "recoveryafterfailure",
        StepKind::ToolSelect => "toolselect",
        StepKind::ToolArgFill => "toolargfill",
        StepKind::ToolResultDigest => "toolresultdigest",
        StepKind::InitialPlan => "initialplan",
        StepKind::FinalReply => "finalreply",
        StepKind::SubagentSpawn => "subagentspawn",
        StepKind::MemoryCompact => "memorycompact",
        StepKind::CronBackground => "cronbackground",
    };
    s.to_owned()
}

} // verus!
