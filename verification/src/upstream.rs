//! Upstream selection decisions and the cascade quality gate.
use vstd::prelude::*;

use crate::error::AppError;
use crate::openai::ChatCompletionResponse;
use crate::routing::decision::RouteTier;
use crate::text::{byte_len, str_contains, text_has};
use vstd::utf8::encode_utf8;

verus! {

/// The text of the first choice of a response, if there is one.
pub open spec fn first_choice_text(resp: ChatCompletionResponse) -> Option<Seq<char>> {
    if resp.choices@.len() > 0 {
        match resp.choices@[0].message.content {
            Some(t) => Some(t@),
            None => None,
        }
    } else {
        None
    }
}

/// An edge answer passes the cascade gate when it is longer than 8 bytes and
/// does not say it is unsure (`不确定`).
pub open spec fn gate_pass_spec(resp: ChatCompletionResponse) -> bool {
    match first_choice_text(resp) {
        Some(t) => t.len() > 0 && !text_has(t, "不确定"@) && byte_len(t) > 8,
        None => false,
    }
}

/// Whether an edge answer is good enough to serve without falling back to the cloud.
pub fn cascade_gate_pass(resp: &ChatCompletionResponse) -> (r: bool)
    ensures
        r == gate_pass_spec(*resp),
{
    if resp.choices.len() == 0 {
        return false;
    }
    match &resp.choices[0].message.content {
        None => false,
        Some(text) => {
            let t = text.as_str();
            !t.is_empty() && !str_contains(t, "不确定") && t.as_bytes().len() > 8
        },
    }
}

pub open spec fn missing_message(tier: Seq<char>) -> Seq<char> {
    "upstream."@ + tier + " not configured — set [upstream."@ + tier + "] in config.toml"@
}

/// The error for a request routed to a tier that has no upstream.
pub fn missing_upstream(tier: &str) -> (r: AppError)
    ensures
        r matches AppError::Unavailable(m) && m@ == missing_message(tier@),
{
    let mut m = "upstream.".to_owned();
    m.append(tier);
    m.append(" not configured — set [upstream.");
    m.append(tier);
    m.append("] in config.toml");
    AppError::Unavailable(m)
}

/// The tier a stream goes to: a stream does not fall back mid-way, so a
/// cascade streams from the edge when it is configured and from the cloud
/// otherwise.
pub open spec fn stream_tier_spec(route: RouteTier, edge_configured: bool) -> RouteTier {
    match route {
        RouteTier::Cascade => if edge_configured {
            RouteTier::Edge
        } else {
            RouteTier::Cloud
        },
        _ => route,
    }
}

/// The tier a streamed request is sent to.
pub fn stream_tier(route: RouteTier, edge_configured: bool) -> (r: RouteTier)
    ensures
        r == stream_tier_spec(route, edge_configured),
        r != RouteTier::Cascade,
{
    match route {
        RouteTier::Edge => RouteTier::Edge,
        RouteTier::Cloud => RouteTier::Cloud,
        RouteTier::Cascade => if edge_configured {
            RouteTier::Edge
        } else {
            RouteTier::Cloud
        },
    }
}

/// What is known of the edge call of a request before the next step.
#[derive(Debug, Clone, Copy, PartialEq, Eq, Structural)]
pub enum EdgeAttempt {
    /// The edge has not been called.
    NotTried,
    /// The edge answered; `passes_gate` is the verdict of `cascade_gate_pass`.
    Answered { passes_gate: bool },
    /// The edge call failed.
    Failed,
}

/// The next step of a non-streamed completion.
#[derive(Debug, Clone, Copy, PartialEq, Eq, Structural)]
pub enum CompletionAction {
    /// Send the request to the edge upstream.
    CallEdge,
    /// Send the request to the cloud upstream; `fallback` says that a cascade
    /// gave up on the edge: it is counted first and reported with the answer.
    CallCloud { fallback: bool },
    /// Serve the edge answer of a cascade, counting an edge success.
    ServeEdge,
    /// Fail with `missing_upstream` for `tier`, counting a cascade fallback first
    /// when `fallback`.
    Missing { tier: RouteTier, fallback: bool },
}

/// The cloud step of a cascade: the cloud call, or the missing-upstream error.
pub open spec fn to_cloud(cloud_configured: bool, fallback: bool) -> CompletionAction {
    if cloud_configured {
        CompletionAction::CallCloud { fallback }
    } else {
        CompletionAction::Missing { tier: RouteTier::Cloud, fallback }
    }
}

/// The step after `attempt` for a request routed to `route`. A request routed to
/// the edge or the cloud goes there alone (its answer, or its error, is final).
/// A cascade calls the edge first when one is configured and serves its answer
/// when `cascade_gate_pass` accepts it; else the cloud is called.
pub open spec fn next_action_spec(
    route: RouteTier,
    edge_configured: bool,
    cloud_configured: bool,
    attempt: EdgeAttempt,
) -> CompletionAction {
    match route {
        RouteTier::Edge => if edge_configured {
            CompletionAction::CallEdge
        } else {
            CompletionAction::Missing { tier: RouteTier::Edge, fallback: false }
        },
        RouteTier::Cloud => to_cloud(cloud_configured, false),
        RouteTier::Cascade => match attempt {
            EdgeAttempt::NotTried => if edge_configured {
                CompletionAction::CallEdge
            } else {
                to_cloud(cloud_configured, false)
            },
            EdgeAttempt::Answered { passes_gate } => if passes_gate {
                CompletionAction::ServeEdge
            } else {
                to_cloud(cloud_configured, true)
            },
            EdgeAttempt::Failed => to_cloud(cloud_configured, true),
        },
    }
}

/// The cloud step of a cascade or of a request routed to the cloud.
fn cloud_step(cloud_configured: bool, fallback: bool) -> (a: CompletionAction)
    ensures
        a == to_cloud(cloud_configured, fallback),
{
    if cloud_configured {
        CompletionAction::CallCloud { fallback }
    } else {
        CompletionAction::Missing { tier: RouteTier::Cloud, fallback }
    }
}

/// The next step of a non-streamed completion on `route`.
pub fn next_completion_action(
    route: RouteTier,
    edge_configured: bool,
    cloud_configured: bool,
    attempt: EdgeAttempt,
) -> (r: CompletionAction)
    ensures
        r == next_action_spec(route, edge_configured, cloud_configured, attempt),
{
    match route {
        RouteTier::Edge => if edge_configured {
            CompletionAction::CallEdge
        } else {
            CompletionAction::Missing { tier: RouteTier::Edge, fallback: false }
        },
        RouteTier::Cloud => cloud_step(cloud_configured, false),
        RouteTier::Cascade => match attempt {
            EdgeAttempt::NotTried => if edge_configured {
                CompletionAction::CallEdge
            } else {
                cloud_step(cloud_configured, false)
            },
            EdgeAttempt::Answered { passes_gate } => if passes_gate {
                CompletionAction::ServeEdge
            } else {
                cloud_step(cloud_configured, true)
            },
            EdgeAttempt::Failed => cloud_step(cloud_configured, true),
        },
    }
}

/// A cascade serves an edge answer only when the edge answered and
/// `cascade_gate_pass` accepted the answer; any other result of the edge call
/// sends the request to the cloud. A request routed to the edge or to the cloud
/// never changes tier.
pub proof fn lemma_cascade_serves_only_gated_edge(
    route: RouteTier,
    edge_configured: bool,
    cloud_configured: bool,
    attempt: EdgeAttempt,
)
    ensures
        next_action_spec(route, edge_configured, cloud_configured, attempt)
            == CompletionAction::ServeEdge ==> route == RouteTier::Cascade && attempt
            == (EdgeAttempt::Answered { passes_gate: true }),
        route == RouteTier::Cascade && attempt != EdgeAttempt::NotTried && attempt != (
        EdgeAttempt::Answered { passes_gate: true }) ==> next_action_spec(
            route,
            edge_configured,
            cloud_configured,
            attempt,
        ) == to_cloud(cloud_configured, true),
        route == RouteTier::Edge ==> match next_action_spec(
            route,
            edge_configured,
            cloud_configured,
            attempt,
        ) {
            CompletionAction::CallEdge => true,
            CompletionAction::Missing { tier, fallback } => tier == RouteTier::Edge && !fallback,
            _ => false,
        },
        route == RouteTier::Cloud ==> next_action_spec(
            route,
            edge_configured,
            cloud_configured,
            attempt,
        ) == to_cloud(cloud_configured, false),
{
}

/// A response that passes the cascade gate has a non-empty first answer of more
/// than 8 bytes.
pub proof fn lemma_gate_pass_needs_text(resp: ChatCompletionResponse)
    requires
        gate_pass_spec(resp),
    ensures
        first_choice_text(resp) matches Some(t) && byte_len(t) > 8 && t.len() > 0,
{
}

/// The cascade gate accepts an edge answer exactly when its first choice has a
/// text of more than 8 bytes in which `不确定` ("unsure") occurs nowhere: an
/// answer that says it is unsure anywhere always falls back to the cloud.
pub proof fn lemma_gate_rejects_unsure(resp: ChatCompletionResponse)
    ensures
        gate_pass_spec(resp) <==> (resp.choices@.len() > 0 && resp.choices@[0].message.content is Some
            && byte_len(resp.choices@[0].message.content.unwrap()@) > 8 && !text_has(
            resp.choices@[0].message.content.unwrap()@,
            "不确定"@,
        )),
{
    if resp.choices@.len() > 0 && resp.choices@[0].message.content is Some {
        let t = resp.choices@[0].message.content.unwrap()@;
        if byte_len(t) > 8 {
            assert(t.len() > 0) by {
                if t.len() == 0 {
                    assert(t =~= Seq::<char>::empty());
                    assert(encode_utf8(t) =~= Seq::<u8>::empty());
                }
            }
        }
    }
}

} // verus!
