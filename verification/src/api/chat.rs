//! The decisions of the chat-completions handler: whether a request is
//! admitted, and what its upstream result is recorded as. Routing and the
//! upstream calls happen between the two.
use vstd::prelude::*;

use crate::config::AppConfig;
use crate::text::{starts_with_text, str_eq, strip_prefix};
use crate::error::AppError;
use crate::experience::outcome::{success_spec, sticky_spec, RequestOutcome};
use crate::routing::upstream_availability::{cloud_on, edge_on, no_upstream_message, require_any_upstream};
use crate::stats::data::{
    added_tokens_out, bump_error, bump_request, error_fits, request_fits, stamp, DecisionRecord,
    StatsData,
};

verus! {

/// Whether an inbound request carries the gateway's API key: with no key
/// configured every request passes; otherwise the request must carry
/// `Authorization: Bearer <key>` or `x-api-key: <key>` with exactly that key.
pub open spec fn key_accepted(
    expected: Option<String>,
    authorization: Option<Seq<char>>,
    x_api_key: Option<Seq<char>>,
) -> bool {
    match expected {
        None => true,
        Some(k) => authorization == Some("Bearer "@ + k@) || x_api_key == Some(k@),
    }
}

/// The message of the refusal of a request without the gateway's API key.
pub open spec fn bad_key_message() -> Seq<char> {
    "invalid or missing API key"@
}

fn bearer_is(authorization: &str, key: &str) -> (r: bool)
    ensures
        r == (authorization@ == "Bearer "@ + key@),
{
    proof {
        reveal_strlit("Bearer ");
    }
    match strip_prefix(authorization, "Bearer ") {
        Some(rest) => {
            proof {
                assert(authorization@ =~= "Bearer "@ + rest@);
                if authorization@ == "Bearer "@ + key@ {
                    assert(rest@ =~= ("Bearer "@ + key@).skip(7));
                    assert(("Bearer "@ + key@).skip(7) =~= key@);
                }
            }
            str_eq(rest, key)
        },
        None => {
            proof {
                if authorization@ == "Bearer "@ + key@ {
                    assert(authorization@.take(7) =~= "Bearer "@);
                    assert(starts_with_text(authorization@, "Bearer "@));
                }
            }
            false
        },
    }
}

/// Checks the inbound API key, given the `Authorization` and `x-api-key`
/// header values; refuses with `Unauthorized` when the key is required and
/// neither header carries it. The rule is this library's own, written from the
/// README's description of `gateway.api_key` (`Authorization: Bearer <key>` or
/// `x-api-key: <key>`), and so is the refusal's message.
pub fn gateway_key_check(
    expected: &Option<String>,
    authorization: Option<&str>,
    x_api_key: Option<&str>,
) -> (r: Result<(), AppError>)
    ensures
        r is Ok <==> key_accepted(
            *expected,
            match authorization {
                Some(a) => Some(a@),
                None => None,
            },
            match x_api_key {
                Some(x) => Some(x@),
                None => None,
            },
        ),
        r matches Err(e) ==> (e matches AppError::Unauthorized(m) && m@ == bad_key_message()),
{
    match expected {
        None => Ok(()),
        Some(k) => {
            let by_bearer = match authorization {
                Some(a) => bearer_is(a, k.as_str()),
                None => false,
            };
            let by_header = match x_api_key {
                Some(x) => str_eq(x, k.as_str()),
                None => false,
            };
            if by_bearer || by_header {
                Ok(())
            } else {
                Err(AppError::Unauthorized("invalid or missing API key".to_owned()))
            }
        },
    }
}

/// The error that refuses a request when no upstream is configured.
pub open spec fn is_no_upstream_error(e: AppError) -> bool {
    e matches AppError::Unavailable(m) && m@ == no_upstream_message()
}

/// The error a request is refused with, if any: the key check's error first,
/// then the missing-upstream error.
pub open spec fn admit_error_ok(config: AppConfig, key_check: Result<(), AppError>, e: AppError) -> bool {
    match key_check {
        Err(k) => e == k,
        Ok(()) => !(edge_on(config) || cloud_on(config)) && is_no_upstream_error(e),
    }
}

/// Room in the counters for the request and for the error it may be refused with.
pub open spec fn admit_fits(stats: StatsData, config: AppConfig, stream: bool, key_check: Result<(), AppError>) -> bool {
    &&& request_fits(stats, stream)
    &&& key_check matches Err(k) ==> error_fits(stats, k)
    &&& (key_check is Ok && !(edge_on(config) || cloud_on(config))) ==> {
        &&& stats.errors_total < u64::MAX
        &&& stats.errors_unavailable < u64::MAX
    }
}

/// Counts a chat request and decides whether it goes on to routing. The
/// request is refused with the key check's error when that failed (the key is
/// checked outside, against the gateway's API key), else with the
/// missing-upstream error when neither upstream is configured. Every refusal is
/// counted as an error after the request.
pub fn admit_chat(
    stats: &mut StatsData,
    config: &AppConfig,
    stream: bool,
    key_check: Result<(), AppError>,
) -> (r: Result<(), AppError>)
    requires
        admit_fits(*old(stats), *config, stream, key_check),
    ensures
        r is Ok <==> (key_check is Ok && (edge_on(*config) || cloud_on(*config))),
        r is Ok ==> exists|t: u64| *final(stats) == bump_request(stamp(*old(stats), t), stream),
        r matches Err(e) ==> admit_error_ok(*config, key_check, e) && exists|t1: u64, t2: u64|
            *final(stats) == bump_error(stamp(bump_request(stamp(*old(stats), t1), stream), t2), e),
{
    stats.record_request(stream);
    match key_check {
        Err(e) => {
            stats.record_error(&e);
            Err(e)
        },
        Ok(()) => match require_any_upstream(config) {
            Ok(()) => Ok(()),
            Err(e) => {
                stats.record_error(&e);
                Err(e)
            },
        },
    }
}

/// What an upstream call gave back: whether a cascade fell back to the cloud,
/// and, for a non-streamed answer, its completion-token estimate.
#[derive(Debug, Clone, Copy, PartialEq, Eq, Structural)]
pub struct ChatReply {
    pub fallback: bool,
    pub tokens_out: Option<u32>,
}

/// What a settled request teaches: its outcome, and whether the conversation
/// now sticks to the cloud.
#[derive(Debug, Clone, Copy, PartialEq, Eq, Structural)]
pub struct ChatSettlement {
    pub outcome: RequestOutcome,
    pub cloud_sticky: bool,
}

/// The outcome of an upstream result.
pub open spec fn settled_outcome(decision: DecisionRecord, upstream: Result<ChatReply, AppError>) -> RequestOutcome {
    match upstream {
        Ok(rep) => success_spec(decision.route, rep.fallback),
        Err(_) => RequestOutcome { edge_ok: false, cascade_fallback: false, upstream_error: true },
    }
}

/// Room in the counters for what settling records.
pub open spec fn settle_fits(stats: StatsData, upstream: Result<ChatReply, AppError>) -> bool {
    match upstream {
        Ok(rep) => match rep.tokens_out {
            Some(n) => stats.tokens_out_estimate + n <= u64::MAX,
            None => true,
        },
        Err(e) => error_fits(stats, e),
    }
}

/// Turns the upstream result of a routed request into its outcome and the
/// cloud-sticky flag, and records it: a failed call counts its error; a
/// non-streamed answer adds its completion tokens; a streamed one adds nothing.
pub fn settle_chat(
    stats: &mut StatsData,
    decision: &DecisionRecord,
    upstream: &Result<ChatReply, AppError>,
) -> (r: ChatSettlement)
    requires
        settle_fits(*old(stats), *upstream),
    ensures
        r.outcome == settled_outcome(*decision, *upstream),
        r.cloud_sticky == sticky_spec(r.outcome, decision.step_kind),
        match *upstream {
            Ok(rep) => match rep.tokens_out {
                Some(n) => exists|t: u64| *final(stats) == added_tokens_out(stamp(*old(stats), t), n),
                None => *final(stats) == *old(stats),
            },
            Err(e) => exists|t: u64| *final(stats) == bump_error(stamp(*old(stats), t), e),
        },
{
    let outcome = match upstream {
        Ok(rep) => {
            if let Some(n) = rep.tokens_out {
                stats.record_completion_tokens(n);
            }
            RequestOutcome::success(decision.route, rep.fallback)
        },
        Err(e) => {
            stats.record_error(e);
            RequestOutcome::upstream_error()
        },
    };
    let cloud_sticky = outcome.should_set_cloud_sticky(decision.step_kind);
    ChatSettlement { outcome, cloud_sticky }
}

/// A failed upstream call settles as an upstream error, whatever the route:
/// no edge success, no cascade fallback, and a conversation that sticks to the
/// cloud unless the step was a heartbeat acknowledgement.
pub proof fn lemma_failure_settles_as_upstream_error(decision: DecisionRecord, e: AppError)
    ensures
        settled_outcome(decision, Err(e)).upstream_error,
        !settled_outcome(decision, Err(e)).edge_ok,
        !settled_outcome(decision, Err(e)).cascade_fallback,
        sticky_spec(settled_outcome(decision, Err(e)), decision.step_kind) <==> decision.step_kind
            != crate::routing::step_kind::StepKind::HeartbeatAck,
{
}

/// An answered call never settles as an upstream error, and it is sticky exactly
/// when a cascade fell back to the cloud.
pub proof fn lemma_answer_settles_without_error(decision: DecisionRecord, rep: ChatReply)
    ensures
        !settled_outcome(decision, Ok(rep)).upstream_error,
        sticky_spec(settled_outcome(decision, Ok(rep)), decision.step_kind) <==> (decision.route
            == crate::routing::decision::RouteTier::Cascade && rep.fallback),
{
}

} // verus!
