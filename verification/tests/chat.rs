use flowy_router::api::chat::{admit_chat, gateway_key_check, settle_chat, ChatReply};
use flowy_router::config::AppConfig;
use flowy_router::error::AppError;
use flowy_router::experience::outcome::RequestOutcome;
use flowy_router::routing::decision::{Profile, RouteTier, RoutingMode};
use flowy_router::routing::step_kind::StepKind;
use flowy_router::stats::data::{DecisionRecord, StatsData};
use flowy_router::stats::metrics::{take_sse_fields, SseFields, SseUsage};

fn config(edge: bool, cloud: bool) -> AppConfig {
    AppConfig {
        listen_addr: "127.0.0.1:8080".into(),
        edge_base_url: if edge { Some("http://e/v1".into()) } else { None },
        edge_api_key: None,
        cloud_base_url: if cloud { Some("http://c/v1".into()) } else { None },
        cloud_api_key: None,
        api_key: None,
        admin_token: None,
        default_profile: Profile::Balanced,
        routing_mode: RoutingMode::Cascade,
        fixed_route: None,
        ctx_edge_max_tokens: 65536,
        cloud_sticky_ttl_secs: 600,
        session_persist_enabled: true,
    }
}

fn decision(route: RouteTier, step_kind: StepKind) -> DecisionRecord {
    DecisionRecord { route, step_kind, tokens_in_estimate: 10, cloud_input_saved_estimate: 10, difficulty_milli: 0 }
}

#[test]
fn admitted_request_is_counted_once() {
    let mut stats = StatsData::default();
    assert!(admit_chat(&mut stats, &config(true, false), true, Ok(())).is_ok());
    assert_eq!((stats.requests_total, stats.requests_stream, stats.errors_total), (1, 1, 0));
}

#[test]
fn bad_key_is_refused_and_counted() {
    let mut stats = StatsData::default();
    let r = admit_chat(&mut stats, &config(true, true), false, Err(AppError::Unauthorized("bad key".into())));
    assert!(matches!(r, Err(AppError::Unauthorized(m)) if m == "bad key"));
    assert_eq!((stats.requests_total, stats.requests_non_stream), (1, 1));
    assert_eq!((stats.errors_total, stats.errors_unauthorized), (1, 1));
}

#[test]
fn no_upstream_is_refused_and_counted() {
    let mut stats = StatsData::default();
    let r = admit_chat(&mut stats, &config(false, false), false, Ok(()));
    match r {
        Err(AppError::Unavailable(m)) => assert_eq!(
            m,
            "no upstream configured: set [upstream.edge] and/or [upstream.cloud] in config.toml"
        ),
        other => panic!("unexpected {other:?}"),
    }
    assert_eq!((stats.requests_total, stats.errors_total, stats.errors_unavailable), (1, 1, 1));
}

#[test]
fn settled_results_are_recorded() {
    let mut stats = StatsData::default();
    let s = settle_chat(
        &mut stats,
        &decision(RouteTier::Cascade, StepKind::DirectChat),
        &Ok(ChatReply { fallback: true, tokens_out: Some(7) }),
    );
    assert_eq!(s.outcome, RequestOutcome { edge_ok: false, cascade_fallback: true, upstream_error: false });
    assert!(s.cloud_sticky);
    assert_eq!(stats.tokens_out_estimate, 7);

    let s = settle_chat(
        &mut stats,
        &decision(RouteTier::Edge, StepKind::DirectChat),
        &Ok(ChatReply { fallback: false, tokens_out: None }),
    );
    assert_eq!(s.outcome, RequestOutcome { edge_ok: true, cascade_fallback: false, upstream_error: false });
    assert!(!s.cloud_sticky);
    assert_eq!(stats.tokens_out_estimate, 7);

    let s = settle_chat(
        &mut stats,
        &decision(RouteTier::Edge, StepKind::HeartbeatAck),
        &Err(AppError::Upstream("502".into())),
    );
    assert_eq!(s.outcome, RequestOutcome::upstream_error());
    assert!(!s.cloud_sticky);
    assert_eq!((stats.errors_total, stats.errors_upstream), (1, 1));

    let s = settle_chat(
        &mut stats,
        &decision(RouteTier::Cloud, StepKind::ToolSelect),
        &Err(AppError::Upstream("502".into())),
    );
    assert!(s.cloud_sticky);
}

#[test]
fn parsed_sse_fields_are_taken() {
    let mut chars = 3usize;
    let f = SseFields {
        delta_content: Some("héllo".into()),
        usage: Some(SseUsage { prompt_tokens: Some(100), completion_tokens: None, cached_tokens: Some(1u64 << 32) }),
    };
    assert_eq!(take_sse_fields(&f, &mut chars), Some((100, 0, 0)));
    assert_eq!(chars, 3 + 6);
    let g = SseFields { delta_content: None, usage: None };
    assert_eq!(take_sse_fields(&g, &mut chars), None);
    assert_eq!(chars, 9);
}

#[test]
fn inbound_key_check() {
    assert!(gateway_key_check(&None, None, None).is_ok());
    let k = Some("flowy-local".to_string());
    assert!(gateway_key_check(&k, Some("Bearer flowy-local"), None).is_ok());
    assert!(gateway_key_check(&k, None, Some("flowy-local")).is_ok());
    assert!(gateway_key_check(&k, Some("Bearer wrong"), Some("flowy-local")).is_ok());
    assert!(gateway_key_check(&k, Some("flowy-local"), None).is_err());
    match gateway_key_check(&k, Some("Bearer flowy-localx"), Some("other")) {
        Err(AppError::Unauthorized(m)) => assert_eq!(m, "invalid or missing API key"),
        other => panic!("unexpected {other:?}"),
    }
    let mut stats = StatsData::default();
    let r = admit_chat(&mut stats, &config(true, true), false, gateway_key_check(&k, None, None));
    assert!(r.is_err());
    assert_eq!(stats.errors_unauthorized, 1);
}
