use flowy_router::api::admin::{admin_token_accepted, gateway_status, requested_scope, StatsQuery};
use flowy_router::api::meta::{profile_name, step_kind_name, tier_name};
use flowy_router::config::AppConfig;
use flowy_router::multimodal::data::{ModelCapability, MultimodalData, TierSupport};
use flowy_router::multimodal::fingerprint::upstream_fingerprint;
use flowy_router::multimodal::{MultimodalRouteHint, MultimodalStrategy};
use flowy_router::openai::{ChatCompletionResponse, Choice, Message, Role};
use flowy_router::routing::decision::{Profile, RouteTier, RoutingMode};
use flowy_router::routing::step_kind::StepKind;
use flowy_router::stats::StatsScope;
use flowy_router::error::AppError;
use flowy_router::upstream::{
    cascade_gate_pass, missing_upstream, next_completion_action, stream_tier, CompletionAction,
    EdgeAttempt,
};

fn config() -> AppConfig {
    AppConfig {
        listen_addr: "127.0.0.1:8080".into(),
        edge_base_url: Some("http://e/v1".into()),
        edge_api_key: None,
        cloud_base_url: Some("http://c/v1".into()),
        cloud_api_key: Some("sk".into()),
        api_key: None,
        admin_token: Some("t0k".into()),
        default_profile: Profile::Premium,
        routing_mode: RoutingMode::Single,
        fixed_route: None,
        ctx_edge_max_tokens: 65536,
        cloud_sticky_ttl_secs: 600,
        session_persist_enabled: false,
    }
}

#[test]
fn client_names() {
    assert_eq!(tier_name(RouteTier::Edge), "edge");
    assert_eq!(step_kind_name(StepKind::FinalReply), "final_reply");
    assert_eq!(profile_name(Profile::Privacy), "privacy");
}

#[test]
fn stats_query_scope() {
    assert_eq!(requested_scope(&StatsQuery { scope: None }), Some(StatsScope::Session));
    assert_eq!(requested_scope(&StatsQuery { scope: Some("global".into()) }), Some(StatsScope::Global));
    assert_eq!(requested_scope(&StatsQuery { scope: Some("Global".into()) }), None);
}

#[test]
fn admin_token_check() {
    assert!(admin_token_accepted(&None, None));
    assert!(admin_token_accepted(&Some("t0k".into()), Some("t0k")));
    assert!(!admin_token_accepted(&Some("t0k".into()), Some("t0K")));
    assert!(!admin_token_accepted(&Some("t0k".into()), None));
}

#[test]
fn status_report() {
    let s = gateway_status(&config(), "0.1.0", 42, 7, "/p".into(), "/d".into());
    assert_eq!(s.status, "running");
    assert_eq!(s.listen, "127.0.0.1:8080");
    assert_eq!(s.default_profile, "premium");
    assert!(s.edge_configured && s.cloud_configured);
    assert_eq!((s.pid, s.uptime_secs), (42, 7));
}

#[test]
fn fingerprint_lists_endpoints() {
    assert_eq!(upstream_fingerprint(&config()), "edge:http://e/v1|ek:|cloud:http://c/v1|ck:sk");
}

#[test]
fn model_entry_inserts_unknown() {
    let mut d = MultimodalData::default();
    d.touch();
    assert_eq!(d.version, 1);
    {
        let e = d.model_entry("gpt");
        assert_eq!(*e, ModelCapability::default());
        e.edge = TierSupport::Supported;
    }
    assert_eq!(d.model_entry("gpt").edge, TierSupport::Supported);
    assert_eq!(d.model_entry("other").edge, TierSupport::Unknown);
    assert_eq!(d.by_model.len(), 2);
}

fn response(content: &str) -> ChatCompletionResponse {
    ChatCompletionResponse {
        id: "r".into(),
        model: "m".into(),
        choices: vec![Choice {
            index: 0,
            message: Message {
                role: Role::Assistant,
                content: Some(content.into()),
                content_parts: None,
                tool_calls: None,
                tool_call_id: None,
            },
            finish_reason: None,
        }],
        usage: None,
    }
}

#[test]
fn cascade_gate() {
    assert!(cascade_gate_pass(&response("a good long answer")));
    assert!(!cascade_gate_pass(&response("short")));
    assert!(!cascade_gate_pass(&response("我不确定这个答案是否正确")));
    assert!(cascade_gate_pass(&response("这个答案很好")));
}

#[test]
fn upstream_selection() {
    assert_eq!(stream_tier(RouteTier::Cascade, true), RouteTier::Edge);
    assert_eq!(stream_tier(RouteTier::Cascade, false), RouteTier::Cloud);
    assert_eq!(stream_tier(RouteTier::Cloud, true), RouteTier::Cloud);
    match missing_upstream("edge") {
        AppError::Unavailable(m) => {
            assert_eq!(m, "upstream.edge not configured — set [upstream.edge] in config.toml")
        }
        other => panic!("unexpected {other:?}"),
    }
}

#[test]
fn cascade_tries_edge_then_falls_back() {
    let c = RouteTier::Cascade;
    assert_eq!(next_completion_action(c, true, true, EdgeAttempt::NotTried), CompletionAction::CallEdge);
    assert_eq!(
        next_completion_action(c, true, true, EdgeAttempt::Answered { passes_gate: true }),
        CompletionAction::ServeEdge
    );
    assert_eq!(
        next_completion_action(c, true, true, EdgeAttempt::Answered { passes_gate: false }),
        CompletionAction::CallCloud { fallback: true }
    );
    assert_eq!(
        next_completion_action(c, true, true, EdgeAttempt::Failed),
        CompletionAction::CallCloud { fallback: true }
    );
    assert_eq!(
        next_completion_action(c, false, true, EdgeAttempt::NotTried),
        CompletionAction::CallCloud { fallback: false }
    );
    assert_eq!(
        next_completion_action(c, true, false, EdgeAttempt::Failed),
        CompletionAction::Missing { tier: RouteTier::Cloud, fallback: true }
    );
}

#[test]
fn pinned_routes_do_not_fall_back() {
    assert_eq!(
        next_completion_action(RouteTier::Edge, true, true, EdgeAttempt::NotTried),
        CompletionAction::CallEdge
    );
    assert_eq!(
        next_completion_action(RouteTier::Edge, false, true, EdgeAttempt::NotTried),
        CompletionAction::Missing { tier: RouteTier::Edge, fallback: false }
    );
    assert_eq!(
        next_completion_action(RouteTier::Cloud, true, true, EdgeAttempt::Failed),
        CompletionAction::CallCloud { fallback: false }
    );
    assert_eq!(
        next_completion_action(RouteTier::Cloud, true, false, EdgeAttempt::NotTried),
        CompletionAction::Missing { tier: RouteTier::Cloud, fallback: false }
    );
}

#[test]
fn hints_become_strategies() {
    assert_eq!(MultimodalStrategy::from(MultimodalRouteHint::CachedEdge), MultimodalStrategy::CachedEdge);
    assert_eq!(MultimodalStrategy::from(MultimodalRouteHint::CachedCloud), MultimodalStrategy::CachedCloud);
    assert_eq!(
        MultimodalStrategy::from(MultimodalRouteHint::CachedEdgeFallback),
        MultimodalStrategy::CachedEdgeFallback
    );
    assert_eq!(MultimodalStrategy::from(MultimodalRouteHint::Probe), MultimodalStrategy::Probe);
    assert_eq!(MultimodalStrategy::default(), MultimodalStrategy::NoStrategy);
}

#[test]
fn changed_upstream_resets_capabilities() {
    let mut d = MultimodalData::default();
    let fp = upstream_fingerprint(&config());
    assert!(d.align_fingerprint(fp.clone()));
    d.model_entry("llava").edge = TierSupport::Supported;
    assert!(!d.align_fingerprint(fp.clone()));
    assert_eq!(d.by_model.len(), 1);
    assert!(d.align_fingerprint("edge:|ek:|cloud:http://c/v1|ck:sk".to_string()));
    assert!(d.by_model.is_empty());
    assert_eq!(d.upstream_fingerprint, "edge:|ek:|cloud:http://c/v1|ck:sk");
}
