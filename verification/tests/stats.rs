use flowy_router::experience::data::StepExperience;
use flowy_router::error::AppError;
use flowy_router::experience::outcome::RequestOutcome;
use flowy_router::routing::decision::RouteTier;
use flowy_router::routing::step_kind::StepKind;
use flowy_router::stats::data::{DecisionRecord, StatsData};
use flowy_router::stats::metrics::{estimate_tokens, tokens_from_response, usage_triplet};
use flowy_router::stats::{snapshot_counts, StatsScope};
use flowy_router::openai::{ChatCompletionResponse, Choice, Message, PromptTokensDetails, Role, Usage};

fn record(route: RouteTier) -> DecisionRecord {
    DecisionRecord {
        route,
        step_kind: StepKind::DirectChat,
        tokens_in_estimate: 100,
        cloud_input_saved_estimate: 100,
        difficulty_milli: 200,
    }
}

#[test]
fn decisions_aggregate() {
    let mut d = StatsData::default();
    d.record_request(false);
    d.record_decision(&record(RouteTier::Edge));
    d.record_decision(&record(RouteTier::Cloud));
    assert_eq!(d.requests_total, 1);
    assert_eq!(d.requests_non_stream, 1);
    assert_eq!(d.route_edge, 1);
    assert_eq!(d.route_cloud, 1);
    assert_eq!(d.tokens_in_estimate, 200);
    assert_eq!(d.difficulty_sum, 400);
    assert_eq!(d.difficulty_count, 2);
    assert_eq!(d.step_kinds.len(), 1);
    assert_eq!(d.step_kinds[0].key, "directchat");
    assert_eq!(d.step_kinds[0].count, 2);
    assert_eq!(d.version, 1);
    assert!(d.first_record_at_unix.is_some());
    assert!(d.first_record_at_unix <= d.last_updated_at_unix);
}

#[test]
fn errors_are_classified() {
    let mut d = StatsData::default();
    d.record_error(&AppError::Unauthorized("x".into()));
    d.record_error(&AppError::Upstream("x".into()));
    d.record_error(&AppError::Internal(anyhow::Error::msg("boom")));
    assert_eq!(d.errors_total, 3);
    assert_eq!(d.errors_unauthorized, 1);
    assert_eq!(d.errors_upstream, 1);
    assert_eq!(d.errors_unavailable, 0);
    assert_eq!(d.errors_bad_request, 0);
}

#[test]
fn other_counters() {
    let mut d = StatsData::default();
    d.record_completion_tokens(7);
    d.record_upstream_edge();
    d.record_upstream_cloud();
    d.record_cascade_edge_ok();
    d.record_cascade_fallback();
    d.touch_updated_at(5);
    let (up, cas, tok, err) = snapshot_counts(&d);
    assert_eq!((up.edge_calls, up.cloud_calls), (1, 1));
    assert_eq!((cas.edge_ok, cas.fallback_to_cloud), (1, 1));
    assert_eq!(tok.out_estimate, 7);
    assert_eq!(err.total, 0);
    assert_eq!(d.last_updated_at_unix, Some(5));
}

#[test]
fn touch_keeps_first_record() {
    let mut d = StatsData::default();
    d.touch_updated_at(10);
    d.touch_updated_at(20);
    assert_eq!(d.first_record_at_unix, Some(10));
    assert_eq!(d.last_updated_at_unix, Some(20));
}

#[test]
fn scope_names() {
    assert_eq!(StatsScope::Session.as_str(), "session");
    assert_eq!(StatsScope::parse("GLOBAL"), Some(StatsScope::Global));
    assert_eq!(StatsScope::parse(StatsScope::Session.as_str()), Some(StatsScope::Session));
    assert_eq!(StatsScope::parse("all"), None);
}

#[test]
fn outcomes() {
    let o = RequestOutcome::success(RouteTier::Cascade, true);
    assert!(o.cascade_fallback && !o.edge_ok);
    assert!(o.should_set_cloud_sticky(StepKind::DirectChat));
    let e = RequestOutcome::upstream_error();
    assert!(e.should_set_cloud_sticky(StepKind::ToolSelect));
    assert!(!e.should_set_cloud_sticky(StepKind::HeartbeatAck));
    let edge = RequestOutcome::success(RouteTier::Edge, true);
    assert!(edge.edge_ok && !edge.cascade_fallback);
    assert!(!RequestOutcome::success(RouteTier::Cloud, false).should_set_cloud_sticky(StepKind::DirectChat));
}

fn response(content: Option<&str>, usage: Option<Usage>) -> ChatCompletionResponse {
    ChatCompletionResponse {
        id: "r".into(),
        model: "m".into(),
        choices: vec![Choice {
            index: 0,
            message: Message {
                role: Role::Assistant,
                content: content.map(|c| c.to_string()),
                content_parts: None,
                tool_calls: None,
                tool_call_id: None,
            },
            finish_reason: None,
        }],
        usage,
    }
}

#[test]
fn response_tokens() {
    let u = Usage {
        prompt_tokens: 100,
        completion_tokens: 20,
        total_tokens: 120,
        prompt_tokens_details: Some(PromptTokensDetails { cached_tokens: 80 }),
    };
    assert_eq!(usage_triplet(&u), (100, 20, 80));
    assert_eq!(tokens_from_response(&response(Some("x"), Some(u)), 9), (100, 20, 80));
    assert_eq!(tokens_from_response(&response(Some("hello world"), None), 9), (9, 3, 0));
    assert_eq!(tokens_from_response(&response(None, None), 9), (9, 0, 0));
    assert_eq!(estimate_tokens(0), 0);
    assert_eq!(estimate_tokens(9), 3);
    assert_eq!(estimate_tokens(usize::MAX), u32::MAX);
}

#[test]
fn experience_counts_outcomes() {
    let mut e = StepExperience::default();
    e.record_outcome(RequestOutcome::success(RouteTier::Cascade, true));
    e.record_outcome(RequestOutcome::success(RouteTier::Edge, false));
    e.record_outcome(RequestOutcome::success(RouteTier::Cascade, false));
    e.record_outcome(RequestOutcome::success(RouteTier::Cloud, false));
    e.record_outcome(RequestOutcome::upstream_error());
    assert_eq!(e, StepExperience { edge_ok: 2, cascade_fallback: 1, upstream_error: 1 });
    assert_eq!(e.judged(), 3);
}

#[test]
fn session_stays_within_global() {
    let mut global = StatsData::default();
    global.record_request(true);
    let mut session = StatsData::default();
    for d in [&mut global, &mut session] {
        d.record_request(false);
        d.record_decision(&record(RouteTier::Cloud));
        d.record_error(&AppError::Upstream("x".into()));
    }
    assert_eq!(session.requests_total, 1);
    assert_eq!(global.requests_total, 2);
    assert!(session.requests_stream <= global.requests_stream);
    assert!(session.route_cloud <= global.route_cloud);
    assert!(session.errors_upstream <= global.errors_upstream);
    assert_eq!(session.step_kinds[0].count, global.step_kinds[0].count);
}
