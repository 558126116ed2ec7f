use flowy_router::config::AppConfig;
use flowy_router::openai::{
    ChatCompletionRequest, ContentPart, FunctionCall, FunctionDefinition, Message, Role, ToolCall,
    ToolDefinition,
};
use flowy_router::routing::decision::{
    cloud_input_saved, step_kind_code, tier_name, Profile, RouteTier, RoutingMode,
};
use flowy_router::routing::early::{decide_early, decide_early_at};
use flowy_router::routing::gates::{check_hard_gates, check_hard_gates_at, ctx_limit, HardGate};
use flowy_router::routing::signals::{
    contains_easy_intent, contains_hard_intent, estimate_message_tokens, estimate_tokens,
    is_simple_multimodal, message_text, RequestSignals, SignalExtractor,
};
use flowy_router::routing::step_kind::{step_kind_key, StepKind};
use flowy_router::routing::upstream_availability::{
    apply_upstream_availability, finalize_route, require_any_upstream,
};
use flowy_router::routing::work::{decide_work_route, is_plan_step, is_work_step, WorkReason, WorkStrategy};
use flowy_router::stats::data::now_unix;

fn empty_signals() -> RequestSignals {
    RequestSignals {
        tok_system: 0,
        tok_tools_schema: 0,
        tok_total_in: 100,
        tok_loop_delta: 0,
        tok_out_estimate: 0,
        n_tool_defs: 0,
        n_turns: 1,
        loop_steps: 0,
        pending_tool_calls: false,
        tool_arg_ready: false,
        last_role_tool: false,
        synthetic_tool_result: false,
        assistant_failed_recent: false,
        is_heartbeat_poll: false,
        voice_repair_loop: false,
        subagent_spawn_hint: false,
        memory_compact_hint: false,
        cron_background: false,
        tools_enabled: false,
        had_tool_roundtrip: false,
        risky_tool_tier1: false,
        intent_hard: false,
        intent_easy: false,
        multimodal: false,
    }
}

fn code(g: Option<HardGate>) -> Option<&'static str> {
    g.map(|g| g.code)
}

#[test]
fn sticky_cloud_gate_fires() {
    let until = now_unix() + 3600;
    let gate = check_hard_gates(&empty_signals(), StepKind::DirectChat, 65536, true, Some(until));
    assert_eq!(gate.unwrap().code, "GATE_STICKY_CLOUD");
}

#[test]
fn expired_sticky_does_not_fire() {
    let gate = check_hard_gates(&empty_signals(), StepKind::DirectChat, 65536, true, Some(1));
    assert!(gate.is_none());
}

#[test]
fn gates_fire_in_priority_order() {
    let mut s = empty_signals();
    s.assistant_failed_recent = true;
    s.risky_tool_tier1 = true;
    assert_eq!(code(check_hard_gates_at(&s, StepKind::DirectChat, 65536, false, Some(10), 5)), Some("GATE_EDGE_DOWN"));
    assert_eq!(code(check_hard_gates_at(&s, StepKind::DirectChat, 65536, true, Some(10), 5)), Some("GATE_STICKY_CLOUD"));
    assert_eq!(code(check_hard_gates_at(&s, StepKind::DirectChat, 65536, true, Some(10), 10)), Some("GATE_ASSISTANT_FAILURE"));
    assert_eq!(code(check_hard_gates_at(&s, StepKind::HeartbeatAck, 65536, true, None, 0)), Some("GATE_RISKY_TOOL"));
    let mut c = empty_signals();
    c.tok_total_in = 12_001;
    assert_eq!(code(check_hard_gates_at(&c, StepKind::MemoryCompact, 65536, true, None, 0)), Some("GATE_OPENCLAW_COMPACT"));
    assert_eq!(code(check_hard_gates_at(&c, StepKind::ToolSelect, 65536, true, None, 0)), None);
}

#[test]
fn context_overflow_at_four_fifths() {
    assert_eq!(ctx_limit(65536), 52428);
    assert_eq!(ctx_limit(u32::MAX), ((u32::MAX as f64) * 0.8) as u32);
    for ctx in [0u32, 1, 4, 5, 7, 999, 65536, 123_457, 4_000_000_003] {
        assert_eq!(ctx_limit(ctx), (ctx as f64 * 0.8) as u32);
    }
    let mut s = empty_signals();
    s.tok_total_in = 52429;
    assert_eq!(code(check_hard_gates_at(&s, StepKind::DirectChat, 65536, true, None, 0)), Some("GATE_CTX_OVERFLOW"));
    s.tok_total_in = 52428;
    assert_eq!(code(check_hard_gates_at(&s, StepKind::DirectChat, 65536, true, None, 0)), None);
}

fn config(edge: bool, cloud: bool) -> AppConfig {
    AppConfig {
        listen_addr: "127.0.0.1:8080".into(),
        edge_base_url: if edge { Some("http://127.0.0.1:11434/v1".into()) } else { None },
        edge_api_key: None,
        cloud_base_url: if cloud { Some("https://api.deepseek.com/v1".into()) } else { None },
        cloud_api_key: if cloud { Some("test-key".into()) } else { None },
        api_key: None,
        admin_token: None,
        default_profile: Profile::Balanced,
        routing_mode: RoutingMode::Cascade,
        fixed_route: None,
        ctx_edge_max_tokens: 65536,
        cloud_sticky_ttl_secs: 600,
        session_persist_enabled: true,
    }
}

#[test]
fn require_any_upstream_rejects_empty() {
    let cfg = config(false, false);
    assert!(require_any_upstream(&cfg).is_err());
}

#[test]
fn require_any_upstream_accepts_one_side() {
    assert!(require_any_upstream(&config(true, false)).is_ok());
    assert!(require_any_upstream(&config(false, true)).is_ok());
    assert!(require_any_upstream(&config(true, true)).is_ok());
}

#[test]
fn edge_only_forces_edge() {
    let cfg = config(true, false);
    let mut codes = vec!["STEP_INITIAL_PLAN".to_string()];
    let r = finalize_route(RouteTier::Cloud, &cfg, &mut codes);
    assert_eq!(r, RouteTier::Edge);
    assert_eq!(codes, vec!["STEP_INITIAL_PLAN".to_string(), "UPSTREAM_EDGE_ONLY".to_string()]);
}

#[test]
fn cloud_only_forces_cloud() {
    let cfg = config(false, true);
    let req = ChatCompletionRequest {
        model: "abc".into(),
        messages: vec![Message {
            role: Role::User,
            content: Some("你好".into()),
            content_parts: None,
            tool_calls: None,
            tool_call_id: None,
        }],
        tools: vec![],
        stream: true,
        tool_choice: None,
        max_tokens: None,
    };
    let signals = SignalExtractor { ctx_edge_max: cfg.ctx_edge_max_tokens }.extract(&req, "[]", None);
    // Whatever the step kind, a missing edge settles the request before scoring.
    for kind in [StepKind::DirectChat, StepKind::HeartbeatAck] {
        let decision = decide_early(&cfg, &signals, kind, None).unwrap();
        assert!(matches!(decision.route, RouteTier::Cloud), "{:?}", decision.reason_codes);
        assert!(decision.reason_codes.iter().any(|c| c == "UPSTREAM_CLOUD_ONLY"), "{:?}", decision.reason_codes);
    }
    let mut codes = Vec::new();
    let r = finalize_route(RouteTier::Edge, &cfg, &mut codes);
    assert_eq!(r, RouteTier::Cloud);
    assert!(codes.iter().any(|c| c == "UPSTREAM_CLOUD_ONLY"));
}

#[test]
fn edge_only_overrides_settled_routes() {
    let mut cfg = config(true, false);
    cfg.fixed_route = Some(RouteTier::Cloud);
    let signals = empty_signals();
    let decision = decide_early(&cfg, &signals, StepKind::InitialPlan, None).unwrap();
    assert!(matches!(decision.route, RouteTier::Edge), "{:?}", decision.reason_codes);
    assert!(decision.reason_codes.iter().any(|c| c == "UPSTREAM_EDGE_ONLY"), "{:?}", decision.reason_codes);
    let mut s = empty_signals();
    s.risky_tool_tier1 = true;
    cfg.fixed_route = None;
    let decision = decide_early(&cfg, &s, StepKind::ToolSelect, None).unwrap();
    assert!(matches!(decision.route, RouteTier::Edge), "{:?}", decision.reason_codes);
    assert_eq!(decision.reason_codes, vec!["STEP_TOOL_SELECT", "GATE_RISKY_TOOL", "UPSTREAM_EDGE_ONLY"]);
}

#[test]
fn both_sides_keep_route() {
    let cfg = config(true, true);
    assert_eq!(apply_upstream_availability(RouteTier::Cascade, &cfg), (RouteTier::Cascade, None));
    let mut codes = Vec::new();
    assert_eq!(finalize_route(RouteTier::Edge, &cfg, &mut codes), RouteTier::Edge);
    assert!(codes.is_empty());
}

#[test]
fn routing_mode_parses_case_insensitively() {
    assert_eq!(RoutingMode::parse("Cascade"), Some(RoutingMode::Cascade));
    assert_eq!(RoutingMode::parse("SINGLE"), Some(RoutingMode::Single));
    assert_eq!(RoutingMode::parse("split"), Some(RoutingMode::Split));
    assert_eq!(RoutingMode::parse("auto"), None);
    assert_eq!("cascade".parse::<RoutingMode>(), Ok(RoutingMode::Cascade));
    assert_eq!("x".parse::<RoutingMode>(), Err(()));
}

#[test]
fn names_and_codes() {
    assert_eq!(tier_name(RouteTier::Cascade), "CASCADE");
    assert_eq!(step_kind_code(StepKind::ToolResultDigest), "TOOL_RESULT_DIGEST");
    assert_eq!(step_kind_key(StepKind::DirectChat), "directchat");
    assert_eq!(step_kind_key(StepKind::HeartbeatAck), "heartbeatack");
}

#[test]
fn cloud_input_saved_by_route() {
    let mut s = empty_signals();
    s.tok_total_in = 1001;
    assert_eq!(cloud_input_saved(RouteTier::Edge, &s), 1001);
    assert_eq!(cloud_input_saved(RouteTier::Cascade, &s), 500);
    assert_eq!(cloud_input_saved(RouteTier::Cloud, &s), 0);
}

#[test]
fn work_policy() {
    assert!(is_plan_step(StepKind::InitialPlan));
    assert!(!is_work_step(StepKind::InitialPlan));
    assert!(is_work_step(StepKind::ToolSelect));
    assert!(!is_work_step(StepKind::DirectChat));
    assert_eq!(
        decide_work_route(RouteTier::Cloud, StepKind::ToolSelect, true, true, false, false),
        (RouteTier::Edge, WorkStrategy::NoStrategy, Some(WorkReason::SampleSkip))
    );
    assert_eq!(
        decide_work_route(RouteTier::Cloud, StepKind::ToolSelect, true, true, false, true),
        (RouteTier::Cascade, WorkStrategy::Verify, Some(WorkReason::VerifySample))
    );
    assert_eq!(
        decide_work_route(RouteTier::Cloud, StepKind::ToolSelect, true, true, true, true),
        (RouteTier::Edge, WorkStrategy::CachedEdge, Some(WorkReason::CacheEdge))
    );
    assert_eq!(
        decide_work_route(RouteTier::Edge, StepKind::InitialPlan, true, true, true, true),
        (RouteTier::Cloud, WorkStrategy::NoStrategy, Some(WorkReason::InitialPlanCloud))
    );
    assert_eq!(
        decide_work_route(RouteTier::Edge, StepKind::InitialPlan, true, false, true, true),
        (RouteTier::Edge, WorkStrategy::NoStrategy, None)
    );
    assert_eq!(
        decide_work_route(RouteTier::Cloud, StepKind::ToolSelect, false, true, true, true),
        (RouteTier::Cloud, WorkStrategy::NoStrategy, None)
    );
}

fn msg(role: Role, content: &str) -> Message {
    Message { role, content: Some(content.into()), content_parts: None, tool_calls: None, tool_call_id: None }
}

fn call(name: &str, args: &str) -> ToolCall {
    ToolCall {
        id: "call_1".into(),
        call_type: "function".into(),
        function: FunctionCall { name: name.into(), arguments: args.into() },
    }
}

fn tool_def(name: &str) -> ToolDefinition {
    ToolDefinition {
        tool_type: "function".into(),
        function: FunctionDefinition { name: name.into(), description: None, parameters: "{}".into() },
    }
}

fn extract(req: &ChatCompletionRequest, tools_json: &str, prev: Option<u32>) -> RequestSignals {
    SignalExtractor { ctx_edge_max: 65536 }.extract(req, tools_json, prev)
}

#[test]
fn token_estimates() {
    assert_eq!(estimate_tokens(""), 0);
    assert_eq!(estimate_tokens("abcd"), 1);
    assert_eq!(estimate_tokens("abcde"), 2);
    assert_eq!(estimate_tokens("你好"), 2);
    let m = Message {
        role: Role::User,
        content: Some("12345678".into()),
        content_parts: Some(vec![
            ContentPart { part_type: "text".into(), text: Some("abc".into()), image_url: None },
            ContentPart { part_type: "image_url".into(), text: None, image_url: Some("data:".into()) },
        ]),
        tool_calls: Some(vec![call("exec", "{\"cmd\":\"ls\"}")]),
        tool_call_id: None,
    };
    assert_eq!(estimate_message_tokens(&m), 2 + 1 + 512 + 1 + 3);
}

#[test]
fn message_text_joins_parts() {
    let m = Message {
        role: Role::User,
        content: None,
        content_parts: Some(vec![
            ContentPart { part_type: "text".into(), text: Some("a".into()), image_url: None },
            ContentPart { part_type: "image_url".into(), text: None, image_url: Some("x".into()) },
            ContentPart { part_type: "text".into(), text: Some("b".into()), image_url: None },
        ]),
        tool_calls: None,
        tool_call_id: None,
    };
    assert_eq!(message_text(&m), "a\nb");
    assert_eq!(message_text(&msg(Role::User, "plain")), "plain");
}

#[test]
fn intents() {
    assert!(contains_hard_intent("Refactor the entire module with refactor steps"));
    assert!(contains_hard_intent("请给出架构设计"));
    assert!(!contains_hard_intent("Refactor the module"));
    assert!(contains_easy_intent("你好"));
    assert!(contains_easy_intent("现在几点了？"));
    assert!(!contains_easy_intent("fix the bug"));
}

#[test]
fn heartbeat_request_signals() {
    let req = ChatCompletionRequest {
        model: "flowy-auto".into(),
        messages: vec![msg(Role::System, "You are OpenClaw"), msg(Role::User, "[OpenClaw heartbeat poll]\n")],
        ..Default::default()
    };
    let s = extract(&req, "[]", None);
    assert!(s.is_heartbeat_poll);
    assert_eq!(s.tok_system, 4);
    assert_eq!(s.tok_total_in, 4 + 7 + 1);
    assert_eq!(s.tok_loop_delta, s.tok_total_in);
    assert_eq!(s.n_turns, 1);
    assert_eq!(s.loop_steps, 0);
    assert!(!s.tools_enabled);
    assert!(!s.had_tool_roundtrip);
}

#[test]
fn mid_loop_signals() {
    let mut asst = msg(Role::Assistant, "I'll run a command.");
    asst.tool_calls = Some(vec![call("exec", "{\"cmd\":\"ls\"}")]);
    let req = ChatCompletionRequest {
        model: "flowy-auto".into(),
        messages: vec![
            msg(Role::System, "You are a coding agent."),
            msg(Role::User, "fix the bug"),
            asst,
            msg(Role::Tool, "ok"),
        ],
        tools: vec![tool_def("exec")],
        stream: true,
        ..Default::default()
    };
    let s = extract(&req, "[{\"type\":\"function\"}]", Some(5));
    assert!(s.pending_tool_calls);
    assert!(s.tool_arg_ready);
    assert!(s.risky_tool_tier1);
    assert!(s.last_role_tool);
    assert!(s.had_tool_roundtrip);
    assert!(s.tools_enabled);
    assert_eq!(s.n_tool_defs, 1);
    assert_eq!(s.loop_steps, 1);
    assert_eq!(s.tok_loop_delta, s.tok_total_in - 5);
    assert!(!s.subagent_spawn_hint);
}

#[test]
fn system_docs_do_not_signal_spawn() {
    let req = ChatCompletionRequest {
        model: "m".into(),
        messages: vec![
            msg(Role::System, "Use sessions_spawn for larger work. Do not poll subagents in a loop."),
            msg(Role::User, "你好"),
            msg(Role::Assistant, "你好！"),
            msg(Role::User, "现在几点了？"),
        ],
        tools: vec![tool_def("session_status")],
        ..Default::default()
    };
    let s = extract(&req, "[]", None);
    assert!(!s.subagent_spawn_hint);
    assert!(s.intent_easy);
    assert!(!s.intent_hard);
    assert_eq!(s.n_turns, 2);
    assert!(!s.pending_tool_calls);
}

#[test]
fn transcript_signals() {
    let req = ChatCompletionRequest {
        model: "m".into(),
        messages: vec![
            msg(Role::System, "Dynamic Project Context here"),
            msg(Role::User, "please spawn a sub-agent"),
            msg(Role::Assistant, "[assistant turn failed before producing content]"),
            msg(Role::User, "[CRON] Job started"),
            msg(Role::Tool, "[openclaw] missing tool result in session history"),
        ],
        ..Default::default()
    };
    let s = extract(&req, "[]", None);
    assert!(s.subagent_spawn_hint);
    assert!(s.memory_compact_hint);
    assert!(s.cron_background);
    assert!(s.assistant_failed_recent);
    assert!(s.synthetic_tool_result);
}

#[test]
fn simple_multimodal_needs_image_and_no_tools() {
    let mut s = empty_signals();
    assert!(!is_simple_multimodal(&s));
    s.multimodal = true;
    assert!(is_simple_multimodal(&s));
    s.n_turns = 3;
    assert!(!is_simple_multimodal(&s));
}

#[test]
fn fixed_route_settles_early() {
    let mut c = config(true, true);
    c.fixed_route = Some(RouteTier::Edge);
    let d = decide_early_at(&c, &empty_signals(), StepKind::ToolSelect, None, 0).unwrap();
    assert_eq!(d.route, RouteTier::Edge);
    assert_eq!(d.reason_codes, vec!["STEP_TOOL_SELECT", "CONFIG_ROUTE_EDGE"]);
    assert_eq!(d.cloud_input_saved_estimate, 100);
    assert!(!d.gated);

    let mut only_cloud = config(false, true);
    only_cloud.fixed_route = Some(RouteTier::Cascade);
    let d = decide_early_at(&only_cloud, &empty_signals(), StepKind::DirectChat, None, 0).unwrap();
    assert_eq!(d.route, RouteTier::Cloud);
    assert_eq!(d.reason_codes, vec!["STEP_DIRECT_CHAT", "CONFIG_ROUTE_CASCADE", "UPSTREAM_CLOUD_ONLY"]);
    assert_eq!(d.cloud_input_saved_estimate, 0);
}

#[test]
fn hard_gate_settles_early_on_cloud() {
    let c = config(true, true);
    let d = decide_early_at(&c, &empty_signals(), StepKind::DirectChat, Some(50), 10).unwrap();
    assert_eq!(d.route, RouteTier::Cloud);
    assert_eq!(d.reason_codes, vec!["STEP_DIRECT_CHAT", "GATE_STICKY_CLOUD"]);
    assert!(d.gated);
    assert!(decide_early_at(&c, &empty_signals(), StepKind::DirectChat, Some(50), 50).is_none());
    assert!(decide_early(&c, &empty_signals(), StepKind::DirectChat, None).is_none());

    let d = decide_early_at(&config(false, true), &empty_signals(), StepKind::FinalReply, None, 0).unwrap();
    assert_eq!(d.reason_codes, vec!["STEP_FINAL_REPLY", "GATE_EDGE_DOWN", "UPSTREAM_CLOUD_ONLY"]);
    assert_eq!(d.route, RouteTier::Cloud);
}

#[test]
fn signals_ignore_model_and_stream() {
    let messages = vec![
        Message {
            role: Role::System,
            content: Some("You are a coding agent.".into()),
            content_parts: None,
            tool_calls: None,
            tool_call_id: None,
        },
        Message {
            role: Role::User,
            content: Some("fix the bug".into()),
            content_parts: None,
            tool_calls: None,
            tool_call_id: None,
        },
    ];
    let a = ChatCompletionRequest {
        model: "flowy-auto".into(),
        messages: messages.clone(),
        tools: vec![tool_def("exec")],
        stream: false,
        tool_choice: None,
        max_tokens: None,
    };
    let b = ChatCompletionRequest {
        model: "Minimax-M2.5".into(),
        messages,
        tools: vec![tool_def("exec")],
        stream: true,
        tool_choice: Some("auto".into()),
        max_tokens: Some(512),
    };
    let tools_json = "[{\"type\":\"function\",\"function\":{\"name\":\"exec\",\"parameters\":{}}}]";
    assert_eq!(extract(&a, tools_json, Some(3)), extract(&b, tools_json, Some(3)));
}

#[test]
fn heartbeat_marker_starts_the_text() {
    let poll = |text: &str, role: Role| {
        let req = ChatCompletionRequest { model: "m".into(), messages: vec![msg(role, text)], ..Default::default() };
        extract(&req, "[]", None).is_heartbeat_poll
    };
    assert!(poll("[OpenClaw heartbeat poll]x", Role::User));
    assert!(poll("[OpenClaw heartbeat poll] at 12:00", Role::User));
    assert!(!poll(" [OpenClaw heartbeat poll]", Role::User));
    assert!(!poll("ping [OpenClaw heartbeat poll]", Role::User));
    assert!(!poll("[OpenClaw heartbeat poll]", Role::Assistant));
}
