//! The part of a routing decision that is settled before any difficulty score:
//! a configured fixed route, or the cloud when a hard gate fires.
use vstd::prelude::*;

use super::decision::{
    cloud_input_saved, cloud_input_saved_spec, step_kind_code, step_kind_code_spec, tier_code_spec,
    tier_name, RouteTier,
};
use super::gates::{check_hard_gates_at, fired_gate_id, hard_gate_spec};
use super::signals::RequestSignals;
use super::step_kind::StepKind;
use super::upstream_availability::{
    availability_tag, available_route, cloud_on, edge_configured, edge_on, finalize_route,
};
use crate::clock::now_unix;
use crate::config::AppConfig;

verus! {

/// A decision settled without a difficulty score.
#[derive(Debug, Clone)]
pub struct EarlyDecision {
    pub route: RouteTier,
    pub reason_codes: Vec<String>,
    pub cloud_input_saved_estimate: u32,
    /// Whether a hard gate (rather than a fixed route) settled it.
    pub gated: bool,
}

/// The text of each reason code.
pub open spec fn codes_view(v: Seq<String>) -> Seq<Seq<char>> {
    v.map_values(|s: String| s@)
}

/// Reason codes after upstream availability is applied to them.
pub open spec fn finalized_codes(codes: Seq<Seq<char>>, config: AppConfig) -> Seq<Seq<char>> {
    match availability_tag(edge_on(config), cloud_on(config)) {
        Some(tag) => codes.push(tag),
        None => codes,
    }
}

/// The first reason code of every decision: `STEP_<KIND>`.
pub open spec fn step_code(k: StepKind) -> Seq<char> {
    "STEP_"@ + step_kind_code_spec(k)
}

/// Route, reason codes, cloud input saved and whether a gate decided, for the
/// requests that a fixed route or a hard gate settles at time `now`; `None` for
/// the requests that need a difficulty score.
pub open spec fn early_spec(
    config: AppConfig,
    signals: RequestSignals,
    step_kind: StepKind,
    sticky_until: Option<u64>,
    now: u64,
) -> Option<(RouteTier, Seq<Seq<char>>, u32, bool)> {
    match config.fixed_route {
        Some(fixed) => {
            let route = available_route(fixed, edge_on(config), cloud_on(config));
            Some(
                (
                    route,
                    finalized_codes(
                        seq![step_code(step_kind), "CONFIG_ROUTE_"@ + tier_code_spec(fixed)],
                        config,
                    ),
                    cloud_input_saved_spec(route, signals.tok_total_in),
                    false,
                ),
            )
        },
        None => match hard_gate_spec(
            signals,
            step_kind,
            config.ctx_edge_max_tokens,
            edge_on(config),
            sticky_until,
            now,
        ) {
            Some(code) => Some(
                (
                    available_route(RouteTier::Cloud, edge_on(config), cloud_on(config)),
                    finalized_codes(seq![step_code(step_kind), code], config),
                    0,
                    true,
                ),
            ),
            None => None,
        },
    }
}

/// Whether `r` is the decision that `early_spec` describes.
pub open spec fn early_matches(r: Option<EarlyDecision>, s: Option<(RouteTier, Seq<Seq<char>>, u32, bool)>) -> bool {
    match (r, s) {
        (Some(d), Some(e)) => d.route == e.0 && codes_view(d.reason_codes@) == e.1
            && d.cloud_input_saved_estimate == e.2 && d.gated == e.3,
        (None, None) => true,
        _ => false,
    }
}

fn prefixed(prefix: &str, name: &str) -> (r: String)
    ensures
        r@ == prefix@ + name@,
{
    let mut s = prefix.to_owned();
    s.append(name);
    s
}

/// Settles a request at time `now` when the configuration fixes its route or a
/// hard gate fires, as `early_spec` states: the route after upstream
/// availability, and the reason codes in order. Returns `None` when a
/// difficulty score must decide.
pub fn decide_early_at(
    config: &AppConfig,
    signals: &RequestSignals,
    step_kind: StepKind,
    sticky_until: Option<u64>,
    now: u64,
) -> (r: Option<EarlyDecision>)
    ensures
        early_matches(r, early_spec(*config, *signals, step_kind, sticky_until, now)),
{
    let mut reason_codes: Vec<String> = Vec::new();
    reason_codes.push(prefixed("STEP_", step_kind_code(step_kind)));
    let ghost step = step_code(step_kind);
    proof {
        assert(codes_view(reason_codes@) =~= seq![step]);
    }
    if let Some(fixed) = config.fixed_route {
        reason_codes.push(prefixed("CONFIG_ROUTE_", tier_name(fixed)));
        let ghost before = reason_codes@;
        proof {
            assert(codes_view(before) =~= seq![step, "CONFIG_ROUTE_"@ + tier_code_spec(fixed)]);
        }
        let route = finalize_route(fixed, config, &mut reason_codes);
        proof {
            lemma_finalized_view(before, reason_codes@, *config);
        }
        let saved = cloud_input_saved(route, signals);
        return Some(
            EarlyDecision { route, reason_codes, cloud_input_saved_estimate: saved, gated: false },
        );
    }
    let gate = check_hard_gates_at(
        signals,
        step_kind,
        config.ctx_edge_max_tokens,
        edge_configured(config),
        sticky_until,
        now,
    );
    match gate {
        Some(g) => {
            reason_codes.push(g.code.to_owned());
            let ghost before = reason_codes@;
            proof {
                assert(fired_gate_id(gate) == Some(g.code@));
                assert(codes_view(before) =~= seq![step, g.code@]);
            }
            let route = finalize_route(RouteTier::Cloud, config, &mut reason_codes);
            proof {
                lemma_finalized_view(before, reason_codes@, *config);
            }
            Some(EarlyDecision { route, reason_codes, cloud_input_saved_estimate: 0, gated: true })
        },
        None => None,
    }
}

/// Like `decide_early_at`, at the current time; only the sticky-cloud gate
/// depends on the time.
pub fn decide_early(
    config: &AppConfig,
    signals: &RequestSignals,
    step_kind: StepKind,
    sticky_until: Option<u64>,
) -> (r: Option<EarlyDecision>)
    ensures
        exists|now: u64| early_matches(r, early_spec(*config, *signals, step_kind, sticky_until, now)),
{
    let now = now_unix();
    decide_early_at(config, signals, step_kind, sticky_until, now)
}

proof fn lemma_finalized_view(before: Seq<String>, after: Seq<String>, config: AppConfig)
    requires
        match availability_tag(edge_on(config), cloud_on(config)) {
            Some(tag) => after.len() == before.len() + 1 && after.take(before.len() as int) == before
                && after.last()@ == tag,
            None => after == before,
        },
    ensures
        codes_view(after) == finalized_codes(codes_view(before), config),
{
    match availability_tag(edge_on(config), cloud_on(config)) {
        Some(tag) => {
            assert(after =~= before.push(after.last()));
            assert(codes_view(after) =~= codes_view(before).push(tag));
        },
        None => {},
    }
}

/// A configured fixed route is kept whenever its tier can be served; a hard gate
/// always sends the request to the cloud when the cloud is configured.
pub proof fn lemma_early_routes(
    config: AppConfig,
    signals: RequestSignals,
    step_kind: StepKind,
    sticky_until: Option<u64>,
    now: u64,
)
    ensures
        config.fixed_route is Some && edge_on(config) && cloud_on(config) ==> (match early_spec(
            config,
            signals,
            step_kind,
            sticky_until,
            now,
        ) {
            Some(e) => e.0 == config.fixed_route.unwrap() && !e.3,
            None => false,
        }),
        config.fixed_route is None && cloud_on(config) ==> (match early_spec(
            config,
            signals,
            step_kind,
            sticky_until,
            now,
        ) {
            Some(e) => e.0 == RouteTier::Cloud && e.2 == 0 && e.3,
            None => true,
        }),
        config.fixed_route is None && !edge_on(config) ==> early_spec(
            config,
            signals,
            step_kind,
            sticky_until,
            now,
        ) is Some,
{
}

} // verus!
