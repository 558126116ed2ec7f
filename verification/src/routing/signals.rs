use vstd::prelude::*;

use crate::openai::{ChatCompletionRequest, ContentPart, Message, Role, ToolCall};
use vstd::utf8::encode_utf8;
use crate::text::{
    est_tokens, byte_len, estimate_text_tokens, lowered_text_has, str_contains, str_contains_lowered, str_eq,
    starts_with_text, strip_prefix, text_has, trim, trim_seq,
};

verus! {

/// Observable features of one chat request, used by the routing gates and score.
#[derive(Debug, Clone, Copy, PartialEq, Eq, Structural)]
pub struct RequestSignals {
    pub tok_system: u32,
    pub tok_tools_schema: u32,
    pub tok_total_in: u32,
    pub tok_loop_delta: u32,
    pub tok_out_estimate: u32,
    pub n_tool_defs: u32,
    pub n_turns: u32,
    pub loop_steps: u32,
    pub pending_tool_calls: bool,
    pub tool_arg_ready: bool,
    pub last_role_tool: bool,
    pub synthetic_tool_result: bool,
    pub assistant_failed_recent: bool,
    pub is_heartbeat_poll: bool,
    pub voice_repair_loop: bool,
    pub subagent_spawn_hint: bool,
    pub memory_compact_hint: bool,
    pub cron_background: bool,
    pub tools_enabled: bool,
    pub had_tool_roundtrip: bool,
    pub risky_tool_tier1: bool,
    pub intent_hard: bool,
    pub intent_easy: bool,
    pub multimodal: bool,
}

/// Tool-free, short multimodal chat — eligible for edge probe/cache.
pub open spec fn simple_multimodal(s: RequestSignals) -> bool {
    &&& s.multimodal
    &&& !s.tools_enabled
    &&& !s.had_tool_roundtrip
    &&& !s.pending_tool_calls
    &&& s.n_turns <= 2
    &&& s.tok_total_in < 2048
    &&& !s.intent_hard
    &&& !s.assistant_failed_recent
}

/// Tool-free, short multimodal chat — eligible for edge probe/cache.
pub fn is_simple_multimodal(signals: &RequestSignals) -> (r: bool)
    ensures
        r == simple_multimodal(*signals),
{
    signals.multimodal && !signals.tools_enabled && !signals.had_tool_roundtrip
        && !signals.pending_tool_calls && signals.n_turns <= 2 && signals.tok_total_in < 2048
        && !signals.intent_hard && !signals.assistant_failed_recent
}

// ----- message text -----

/// The texts of the parts that carry one, in order.
pub open spec fn part_texts(ps: Seq<ContentPart>) -> Seq<Seq<char>>
    decreases ps.len(),
{
    if ps.len() == 0 {
        Seq::empty()
    } else {
        let prev = part_texts(ps.drop_last());
        match ps.last().text {
            Some(t) => prev.push(t@),
            None => prev,
        }
    }
}

/// Texts joined by a line feed.
pub open spec fn join_lines(xs: Seq<Seq<char>>) -> Seq<char>
    decreases xs.len(),
{
    if xs.len() == 0 {
        Seq::empty()
    } else if xs.len() == 1 {
        xs[0]
    } else {
        join_lines(xs.drop_last()) + "\n"@ + xs.last()
    }
}

/// The text of a message: its plain content, or else its part texts joined by
/// line feeds, or else empty.
pub open spec fn text_of(m: Message) -> Seq<char> {
    match m.content {
        Some(c) => c@,
        None => match m.content_parts {
            Some(ps) => join_lines(part_texts(ps@)),
            None => Seq::empty(),
        },
    }
}

/// The text of a message: its plain content, or else its part texts joined by line feeds.
pub fn message_text(msg: &Message) -> (r: String)
    ensures
        r@ == text_of(*msg),
{
    if let Some(c) = &msg.content {
        return c.clone();
    }
    match &msg.content_parts {
        None => String::new(),
        Some(parts) => {
            let mut out = String::new();
            let mut any = false;
            let mut i: usize = 0;
            while i < parts.len()
                invariant
                    i <= parts@.len(),
                    out@ == join_lines(part_texts(parts@.take(i as int))),
                    any == (part_texts(parts@.take(i as int)).len() > 0),
                decreases parts@.len() - i,
            {
                proof {
                    assert(parts@.take(i + 1).drop_last() =~= parts@.take(i as int));
                }
                if let Some(t) = &parts[i].text {
                    let ghost prev = part_texts(parts@.take(i as int));
                    if any {
                        out.append("\n");
                    }
                    out.append(t.as_str());
                    any = true;
                    proof {
                        let xs = prev.push(t@);
                        assert(xs.drop_last() =~= prev);
                        if prev.len() == 0 {
                            assert(out@ =~= t@);
                        } else {
                            assert(out@ =~= join_lines(prev) + "\n"@ + t@);
                        }
                    }
                }
                i += 1;
            }
            assert(parts@.take(parts@.len() as int) =~= parts@);
            out
        },
    }
}

// ----- token estimates -----

pub open spec fn opt_text_tokens(t: Option<String>) -> int {
    match t {
        Some(s) => est_tokens(byte_len(s@)) as int,
        None => 0,
    }
}

/// Tokens of one content part: its text, plus 512 for an image.
pub open spec fn part_tokens(p: ContentPart) -> int {
    opt_text_tokens(p.text) + if p.image_url is Some {
        512int
    } else {
        0int
    }
}

pub open spec fn parts_tokens(ps: Seq<ContentPart>) -> int
    decreases ps.len(),
{
    if ps.len() == 0 {
        0
    } else {
        parts_tokens(ps.drop_last()) + part_tokens(ps.last())
    }
}

/// Tokens of one tool call: its function name and its argument text.
pub open spec fn call_tokens(c: ToolCall) -> int {
    est_tokens(byte_len(c.function.name@)) + est_tokens(byte_len(c.function.arguments@))
}

pub open spec fn calls_tokens(cs: Seq<ToolCall>) -> int
    decreases cs.len(),
{
    if cs.len() == 0 {
        0
    } else {
        calls_tokens(cs.drop_last()) + call_tokens(cs.last())
    }
}

/// The token estimate of a message: content, parts (512 per image) and tool calls.
pub open spec fn msg_tokens(m: Message) -> int {
    opt_text_tokens(m.content) + match m.content_parts {
        Some(ps) => parts_tokens(ps@),
        None => 0,
    } + match m.tool_calls {
        Some(cs) => calls_tokens(cs@),
        None => 0,
    }
}

proof fn lemma_parts_tokens_prefix(ps: Seq<ContentPart>, i: int)
    requires
        0 <= i <= ps.len(),
    ensures
        0 <= parts_tokens(ps.take(i)) <= parts_tokens(ps),
    decreases ps.len() - i,
{
    if i == ps.len() {
        assert(ps.take(i) =~= ps);
        lemma_parts_tokens_nonneg(ps);
    } else {
        lemma_parts_tokens_prefix(ps, i + 1);
        assert(ps.take(i + 1).drop_last() =~= ps.take(i));
        lemma_parts_tokens_nonneg(ps.take(i));
    }
}

proof fn lemma_parts_tokens_nonneg(ps: Seq<ContentPart>)
    ensures
        parts_tokens(ps) >= 0,
    decreases ps.len(),
{
    if ps.len() > 0 {
        lemma_parts_tokens_nonneg(ps.drop_last());
    }
}

proof fn lemma_calls_tokens_nonneg(cs: Seq<ToolCall>)
    ensures
        calls_tokens(cs) >= 0,
    decreases cs.len(),
{
    if cs.len() > 0 {
        lemma_calls_tokens_nonneg(cs.drop_last());
    }
}

proof fn lemma_calls_tokens_prefix(cs: Seq<ToolCall>, i: int)
    requires
        0 <= i <= cs.len(),
    ensures
        0 <= calls_tokens(cs.take(i)) <= calls_tokens(cs),
    decreases cs.len() - i,
{
    if i == cs.len() {
        assert(cs.take(i) =~= cs);
        lemma_calls_tokens_nonneg(cs);
    } else {
        lemma_calls_tokens_prefix(cs, i + 1);
        assert(cs.take(i + 1).drop_last() =~= cs.take(i));
        lemma_calls_tokens_nonneg(cs.take(i));
    }
}

/// A message's token estimate is never negative.
pub proof fn lemma_msg_tokens_nonneg(m: Message)
    ensures
        msg_tokens(m) >= 0,
        match m.content_parts {
            Some(ps) => parts_tokens(ps@),
            None => 0,
        } >= 0,
        match m.tool_calls {
            Some(cs) => calls_tokens(cs@),
            None => 0,
        } >= 0,
{
    if let Some(ps) = m.content_parts {
        lemma_parts_tokens_nonneg(ps@);
    }
    if let Some(cs) = m.tool_calls {
        lemma_calls_tokens_nonneg(cs@);
    }
}

/// Token estimate of a text: about four bytes per token, rounded up.
pub fn estimate_tokens(text: &str) -> (r: u32)
    ensures
        r == est_tokens(byte_len(text@)),
{
    estimate_text_tokens(text)
}

/// Token estimate of a message. `requires`: the estimate fits in `u32`, as the
/// running `u32` sum of the parts must not overflow.
pub fn estimate_message_tokens(msg: &Message) -> (r: u32)
    requires
        msg_tokens(*msg) <= u32::MAX,
    ensures
        r == msg_tokens(*msg),
{
    proof {
        lemma_msg_tokens_nonneg(*msg);
    }
    let mut n: u32 = 0;
    if let Some(c) = &msg.content {
        n += estimate_tokens(c.as_str());
    }
    let ghost base_parts = n as int;
    if let Some(parts) = &msg.content_parts {
        let mut i: usize = 0;
        while i < parts.len()
            invariant
                i <= parts@.len(),
                msg.content_parts == Some(*parts),
                msg_tokens(*msg) <= u32::MAX,
                base_parts == opt_text_tokens(msg.content),
                n == base_parts + parts_tokens(parts@.take(i as int)),
                parts_tokens(parts@) + base_parts <= msg_tokens(*msg),
            decreases parts@.len() - i,
        {
            proof {
                assert(parts@.take(i + 1).drop_last() =~= parts@.take(i as int));
                lemma_parts_tokens_prefix(parts@, i + 1);
            }
            let p = &parts[i];
            if let Some(t) = &p.text {
                n += estimate_tokens(t.as_str());
            }
            if p.image_url.is_some() {
                n += 512;
            }
            i += 1;
        }
        assert(parts@.take(parts@.len() as int) =~= parts@);
    }
    let ghost base_calls = n as int;
    assert(base_calls == opt_text_tokens(msg.content) + match msg.content_parts {
        Some(ps) => parts_tokens(ps@),
        None => 0,
    });
    if let Some(calls) = &msg.tool_calls {
        let mut i: usize = 0;
        while i < calls.len()
            invariant
                i <= calls@.len(),
                msg.tool_calls == Some(*calls),
                msg_tokens(*msg) <= u32::MAX,
                n == base_calls + calls_tokens(calls@.take(i as int)),
                base_calls + calls_tokens(calls@) == msg_tokens(*msg),
            decreases calls@.len() - i,
        {
            proof {
                assert(calls@.take(i + 1).drop_last() =~= calls@.take(i as int));
                lemma_calls_tokens_prefix(calls@, i + 1);
            }
            let c = &calls[i];
            n += estimate_tokens(c.function.name.as_str());
            n += estimate_tokens(c.function.arguments.as_str());
            i += 1;
        }
        assert(calls@.take(calls@.len() as int) =~= calls@);
    }
    n
}

/// Some part of the message references an image.
pub open spec fn has_image(m: Message) -> bool {
    match m.content_parts {
        Some(ps) => exists|k: int| 0 <= k < ps@.len() && (#[trigger] ps@[k]).image_url is Some,
        None => false,
    }
}

/// Some part of the message references an image.
pub fn message_has_image(msg: &Message) -> (r: bool)
    ensures
        r == has_image(*msg),
{
    match &msg.content_parts {
        None => false,
        Some(parts) => {
            let mut i: usize = 0;
            while i < parts.len()
                invariant
                    i <= parts@.len(),
                    msg.content_parts == Some(*parts),
                    forall|k: int| 0 <= k < i ==> (#[trigger] parts@[k]).image_url is None,
                decreases parts@.len() - i,
            {
                if parts[i].image_url.is_some() {
                    assert(parts@[i as int].image_url is Some);
                    return true;
                }
                i += 1;
            }
            false
        },
    }
}

// ----- intent keywords -----

/// The text names a task that is hard for a small model.
pub open spec fn hard_intent(t: Seq<char>) -> bool {
    ||| text_has(t, "架构"@)
    ||| text_has(t, "证明"@)
    ||| text_has(t, "refactor"@)
    ||| text_has(t, "distributed"@)
    ||| text_has(t, "legal"@)
    ||| text_has(t, "medical"@)
    ||| text_has(t, "跨仓库"@)
}

/// The text names a task that a small model handles well.
pub open spec fn easy_intent(t: Seq<char>) -> bool {
    ||| text_has(t, "分类"@)
    ||| text_has(t, "提取"@)
    ||| text_has(t, "格式化"@)
    ||| text_has(t, "translate"@)
    ||| text_has(t, "yes/no"@)
    ||| text_has(t, "是否"@)
    ||| text_has(t, "你好"@)
    ||| text_has(t, "hello"@)
    ||| text_has(t, "hi"@)
    ||| text_has(t, "嗨"@)
    ||| text_has(t, "几点"@)
    ||| text_has(t, "what time"@)
    ||| text_has(t, "current time"@)
    ||| text_has(t, "现在几点"@)
    ||| text_has(t, "什么时间"@)
}

pub fn contains_hard_intent(text: &str) -> (r: bool)
    ensures
        r == hard_intent(text@),
{
    str_contains(text, "架构") || str_contains(text, "证明") || str_contains(text, "refactor")
        || str_contains(text, "distributed") || str_contains(text, "legal") || str_contains(
        text,
        "medical",
    ) || str_contains(text, "跨仓库")
}

pub fn contains_easy_intent(text: &str) -> (r: bool)
    ensures
        r == easy_intent(text@),
{
    str_contains(text, "分类") || str_contains(text, "提取") || str_contains(text, "格式化")
        || str_contains(text, "translate") || str_contains(text, "yes/no") || str_contains(
        text,
        "是否",
    ) || str_contains(text, "你好") || str_contains(text, "hello") || str_contains(text, "hi")
        || str_contains(text, "嗨") || str_contains(text, "几点") || str_contains(
        text,
        "what time",
    ) || str_contains(text, "current time") || str_contains(text, "现在几点") || str_contains(
        text,
        "什么时间",
    )
}


// ----- whole-request features -----

/// Token term that message `i` contributes outside a leading system prompt.
pub open spec fn rest_term(msgs: Seq<Message>, i: int) -> int {
    if i == 0 && msgs[0].role == Role::System {
        0
    } else {
        msg_tokens(msgs[i])
    }
}

/// Tokens of the first `n` messages, a leading system prompt excluded.
pub open spec fn rest_tokens(msgs: Seq<Message>, n: int) -> int
    decreases n,
{
    if n <= 0 {
        0
    } else {
        rest_tokens(msgs, n - 1) + rest_term(msgs, n - 1)
    }
}

/// Tokens of a leading system prompt, or 0.
pub open spec fn system_tokens(msgs: Seq<Message>) -> int {
    if msgs.len() > 0 && msgs[0].role == Role::System {
        msg_tokens(msgs[0])
    } else {
        0
    }
}

/// Number of the first `n` messages with the given role.
pub open spec fn count_role(msgs: Seq<Message>, role: Role, n: int) -> int
    decreases n,
{
    if n <= 0 {
        0
    } else {
        count_role(msgs, role, n - 1) + if msgs[n - 1].role == role {
            1int
        } else {
            0int
        }
    }
}

pub open spec fn any_role(msgs: Seq<Message>, role: Role) -> bool {
    exists|k: int| 0 <= k < msgs.len() && (#[trigger] msgs[k]).role == role
}

pub open spec fn any_image(msgs: Seq<Message>) -> bool {
    exists|k: int| 0 <= k < msgs.len() && has_image(#[trigger] msgs[k])
}

/// The transcript itself (not the system prompt) points at sub-agent work.
pub open spec fn spawn_msg(m: Message) -> bool {
    let t = text_of(m);
    &&& m.role != Role::System
    &&& (text_has(t, "[Subagent Task]"@) || (m.role == Role::User && (text_has(t, "sessions_spawn("@)
        || text_has(t, "spawn a sub-agent"@) || text_has(t, "spawn subagent"@) || text_has(
        t,
        "子代理"@,
    ) || text_has(t, "子 agent"@))))
}

pub open spec fn compact_msg(m: Message) -> bool {
    text_has(text_of(m), "Dynamic Project Context"@) || text_has(text_of(m), "compaction"@)
}

pub open spec fn cron_msg(m: Message) -> bool {
    let t = text_of(m);
    lowered_text_has(t, "[cron]"@) || lowered_text_has(t, "cron background"@) || lowered_text_has(
        t,
        "cron job"@,
    )
}

pub open spec fn failed_msg(m: Message) -> bool {
    m.role == Role::Assistant && text_has(text_of(m), "[assistant turn failed"@)
}

pub open spec fn any_spawn_msg(msgs: Seq<Message>) -> bool {
    exists|k: int| 0 <= k < msgs.len() && spawn_msg(#[trigger] msgs[k])
}

pub open spec fn any_compact_msg(msgs: Seq<Message>) -> bool {
    exists|k: int| 0 <= k < msgs.len() && compact_msg(#[trigger] msgs[k])
}

pub open spec fn any_cron_msg(msgs: Seq<Message>) -> bool {
    exists|k: int| 0 <= k < msgs.len() && cron_msg(#[trigger] msgs[k])
}

/// One of the last four messages is a failed assistant turn.
pub open spec fn recent_failure(msgs: Seq<Message>) -> bool {
    exists|k: int| 0 <= k < msgs.len() && msgs.len() - 4 <= k && failed_msg(#[trigger] msgs[k])
}

/// Index of the last message with the given role.
pub open spec fn last_with_role(msgs: Seq<Message>, role: Role) -> Option<int>
    decreases msgs.len(),
{
    if msgs.len() == 0 {
        None
    } else if msgs.last().role == role {
        Some(msgs.len() - 1)
    } else {
        last_with_role(msgs.drop_last(), role)
    }
}

/// Tool calls of the last assistant message, if it has any list of them.
pub open spec fn prev_calls(msgs: Seq<Message>) -> Option<Seq<ToolCall>> {
    match last_with_role(msgs, Role::Assistant) {
        Some(i) => match msgs[i].tool_calls {
            Some(cs) => Some(cs@),
            None => None,
        },
        None => None,
    }
}

/// Tool-call arguments look complete: they start with `{` and contain `}`.
pub open spec fn args_ready(a: Seq<char>) -> bool {
    &&& encode_utf8(a).len() > 0
    &&& encode_utf8(a)[0] == 123u8
    &&& text_has(a, "}"@)
}

/// Tier-1 tools that change state outside the conversation.
pub open spec fn risky_tool(name: Seq<char>) -> bool {
    ||| name == "exec"@
    ||| name == "write"@
    ||| name == "edit"@
    ||| name == "browser"@
    ||| name == "sessions_spawn"@
    ||| name == "message"@
}

pub open spec fn all_args_ready(cs: Seq<ToolCall>) -> bool {
    forall|j: int| 0 <= j < cs.len() ==> args_ready(#[trigger] cs[j].function.arguments@)
}

pub open spec fn any_risky(cs: Seq<ToolCall>) -> bool {
    exists|j: int| 0 <= j < cs.len() && risky_tool(#[trigger] cs[j].function.name@)
}

pub open spec fn any_spawn_call(cs: Seq<ToolCall>) -> bool {
    exists|j: int| 0 <= j < cs.len() && (#[trigger] cs[j].function.name@) == "sessions_spawn"@
}

/// Every estimate that the extraction sums in `u32` fits there, and the user
/// turns can be counted in `u32`.
pub open spec fn extract_fits(req: ChatCompletionRequest) -> bool {
    let msgs = req.messages@;
    &&& msgs.len() < u32::MAX
    &&& forall|k: int| 0 <= k < msgs.len() ==> msg_tokens(#[trigger] msgs[k]) <= u32::MAX
    &&& rest_tokens(msgs, msgs.len() as int) <= u32::MAX
}

/// Total input tokens: system, rest and tool schema, each addition saturating.
pub open spec fn total_in(req: ChatCompletionRequest, tools_json: Seq<char>) -> u32 {
    let msgs = req.messages@;
    (system_tokens(msgs) as u32).saturating_add(rest_tokens(msgs, msgs.len() as int) as u32).saturating_add(
        est_tokens(byte_len(tools_json)),
    )
}

/// The signals of a request, given the JSON text of its `tools` array and the
/// input token total of the conversation's previous step.
pub open spec fn signals_of(
    req: ChatCompletionRequest,
    tools_json: Seq<char>,
    prev_tok_total_in: Option<u32>,
) -> RequestSignals {
    let msgs = req.messages@;
    let n = msgs.len() as int;
    let last = msgs[n - 1];
    let calls = prev_calls(msgs);
    let total = total_in(req, tools_json);
    RequestSignals {
        tok_system: system_tokens(msgs) as u32,
        tok_tools_schema: est_tokens(byte_len(tools_json)),
        tok_total_in: total,
        tok_loop_delta: match prev_tok_total_in {
            Some(p) => total.saturating_sub(p),
            None => total,
        },
        tok_out_estimate: 0,
        n_tool_defs: req.tools@.len() as u32,
        n_turns: count_role(msgs, Role::User, n) as u32,
        loop_steps: count_role(msgs, Role::Assistant, n) as u32,
        pending_tool_calls: calls matches Some(cs) && cs.len() > 0,
        tool_arg_ready: calls matches Some(cs) && all_args_ready(cs),
        last_role_tool: n > 0 && last.role == Role::Tool,
        synthetic_tool_result: n > 0 && (text_has(text_of(last), "[openclaw] missing tool result"@)
            || text_has(text_of(last), "prompt lock was released"@)),
        assistant_failed_recent: recent_failure(msgs),
        is_heartbeat_poll: n > 0 && last.role == Role::User && heartbeat_text(text_of(last)),
        voice_repair_loop: n > 0 && last.role == Role::User && text_has(
            text_of(last),
            "[Audio transcript"@,
        ) && any_role(msgs, Role::Tool),
        subagent_spawn_hint: any_spawn_msg(msgs) || (calls matches Some(cs) && any_spawn_call(cs)),
        memory_compact_hint: system_tokens(msgs) > 0 && any_compact_msg(msgs),
        cron_background: any_cron_msg(msgs),
        tools_enabled: req.tools@.len() > 0,
        had_tool_roundtrip: any_role(msgs, Role::Tool),
        risky_tool_tier1: calls matches Some(cs) && any_risky(cs),
        intent_hard: n > 0 && hard_intent(text_of(last)),
        intent_easy: n > 0 && easy_intent(text_of(last)),
        multimodal: any_image(msgs),
    }
}

/// Routing reads a request only through its `messages` and `tools`: two requests
/// with the same messages and the same tools (their count and their JSON text)
/// have the same signals, whatever their model name, stream flag, tool choice or
/// token limit.
pub proof fn lemma_signals_read_only_messages_and_tools(
    a: ChatCompletionRequest,
    b: ChatCompletionRequest,
    tools_json: Seq<char>,
    prev_tok_total_in: Option<u32>,
)
    requires
        a.messages@ == b.messages@,
        a.tools@.len() == b.tools@.len(),
    ensures
        signals_of(a, tools_json, prev_tok_total_in) == signals_of(b, tools_json, prev_tok_total_in),
{
}

proof fn lemma_last_with_role_at(msgs: Seq<Message>, role: Role, i: int)
    requires
        0 <= i < msgs.len(),
        msgs[i].role == role,
        forall|j: int| i < j < msgs.len() ==> (#[trigger] msgs[j]).role != role,
    ensures
        last_with_role(msgs, role) == Some(i),
    decreases msgs.len(),
{
    if msgs.last().role != role {
        assert forall|j: int| i < j < msgs.drop_last().len() implies (#[trigger] msgs.drop_last()[j]).role
            != role by {
            assert(msgs.drop_last()[j] == msgs[j]);
        }
        lemma_last_with_role_at(msgs.drop_last(), role, i);
    }
}

/// When the latest assistant message of a request calls `sessions_spawn`, the
/// request is marked as spawning a sub-agent, whatever the other messages say.
pub proof fn lemma_spawn_call_marks_subagent(
    req: ChatCompletionRequest,
    tools_json: Seq<char>,
    prev_tok_total_in: Option<u32>,
    i: int,
    k: int,
)
    requires
        0 <= i < req.messages@.len(),
        req.messages@[i].role == Role::Assistant,
        forall|j: int| i < j < req.messages@.len() ==> (#[trigger] req.messages@[j]).role != Role::Assistant,
        req.messages@[i].tool_calls is Some,
        0 <= k < req.messages@[i].tool_calls.unwrap()@.len(),
        req.messages@[i].tool_calls.unwrap()@[k].function.name@ == "sessions_spawn"@,
    ensures
        signals_of(req, tools_json, prev_tok_total_in).subagent_spawn_hint,
{
    lemma_last_with_role_at(req.messages@, Role::Assistant, i);
    let cs = req.messages@[i].tool_calls.unwrap()@;
    assert(cs[k].function.name@ == "sessions_spawn"@);
}

/// When the latest assistant message of a request calls a tier-1 tool (`exec`,
/// `write`, `edit`, `browser`, `sessions_spawn` or `message`), the request is
/// marked as following a risky tool and as having pending tool calls.
pub proof fn lemma_risky_call_marks_request(
    req: ChatCompletionRequest,
    tools_json: Seq<char>,
    prev_tok_total_in: Option<u32>,
    i: int,
    k: int,
)
    requires
        0 <= i < req.messages@.len(),
        req.messages@[i].role == Role::Assistant,
        forall|j: int| i < j < req.messages@.len() ==> (#[trigger] req.messages@[j]).role != Role::Assistant,
        req.messages@[i].tool_calls is Some,
        0 <= k < req.messages@[i].tool_calls.unwrap()@.len(),
        ({
            let name = req.messages@[i].tool_calls.unwrap()@[k].function.name@;
            name == "exec"@ || name == "write"@ || name == "edit"@ || name == "browser"@ || name
                == "sessions_spawn"@ || name == "message"@
        }),
    ensures
        signals_of(req, tools_json, prev_tok_total_in).risky_tool_tier1,
        signals_of(req, tools_json, prev_tok_total_in).pending_tool_calls,
{
    lemma_last_with_role_at(req.messages@, Role::Assistant, i);
    let cs = req.messages@[i].tool_calls.unwrap()@;
    assert(risky_tool(cs[k].function.name@));
}

/// A request with no assistant message has no pending tool calls and follows
/// no risky tool.
pub proof fn lemma_no_assistant_no_calls(
    req: ChatCompletionRequest,
    tools_json: Seq<char>,
    prev_tok_total_in: Option<u32>,
)
    requires
        forall|j: int| 0 <= j < req.messages@.len() ==> (#[trigger] req.messages@[j]).role != Role::Assistant,
    ensures
        !signals_of(req, tools_json, prev_tok_total_in).risky_tool_tier1,
        !signals_of(req, tools_json, prev_tok_total_in).pending_tool_calls,
        !signals_of(req, tools_json, prev_tok_total_in).tool_arg_ready,
{
    lemma_no_role(req.messages@, Role::Assistant);
}

proof fn lemma_no_role(msgs: Seq<Message>, role: Role)
    requires
        forall|j: int| 0 <= j < msgs.len() ==> (#[trigger] msgs[j]).role != role,
    ensures
        last_with_role(msgs, role) is None,
    decreases msgs.len(),
{
    if msgs.len() > 0 {
        assert(msgs[msgs.len() - 1].role != role);
        assert forall|j: int| 0 <= j < msgs.drop_last().len() implies (#[trigger] msgs.drop_last()[j]).role
            != role by {
            assert(msgs.drop_last()[j] == msgs[j]);
        }
        lemma_no_role(msgs.drop_last(), role);
    }
}

/// Per-message features gathered in one pass.
struct MessageScan {
    tok_system: u32,
    tok_rest: u32,
    n_turns: u32,
    assistants: usize,
    had_tool: bool,
    multimodal: bool,
    spawn_transcript: bool,
    compact_text: bool,
    cron_text: bool,
}

proof fn lemma_rest_tokens_prefix(msgs: Seq<Message>, i: int)
    requires
        0 <= i <= msgs.len(),
        forall|k: int| 0 <= k < msgs.len() ==> msg_tokens(#[trigger] msgs[k]) >= 0,
    ensures
        0 <= rest_tokens(msgs, i) <= rest_tokens(msgs, msgs.len() as int),
    decreases msgs.len() - i,
{
    if i < msgs.len() {
        lemma_rest_tokens_prefix(msgs, i + 1);
    }
    lemma_rest_tokens_nonneg(msgs, i);
}

proof fn lemma_rest_tokens_nonneg(msgs: Seq<Message>, i: int)
    requires
        0 <= i <= msgs.len(),
        forall|k: int| 0 <= k < msgs.len() ==> msg_tokens(#[trigger] msgs[k]) >= 0,
    ensures
        0 <= rest_tokens(msgs, i),
    decreases i,
{
    if i > 0 {
        lemma_rest_tokens_nonneg(msgs, i - 1);
    }
}

proof fn lemma_count_role_bound(msgs: Seq<Message>, role: Role, i: int)
    requires
        0 <= i <= msgs.len(),
    ensures
        0 <= count_role(msgs, role, i) <= i,
    decreases i,
{
    if i > 0 {
        lemma_count_role_bound(msgs, role, i - 1);
    }
}

fn scan_messages(msgs: &Vec<Message>) -> (r: MessageScan)
    requires
        msgs@.len() < u32::MAX,
        forall|k: int| 0 <= k < msgs@.len() ==> msg_tokens(#[trigger] msgs@[k]) <= u32::MAX,
        rest_tokens(msgs@, msgs@.len() as int) <= u32::MAX,
    ensures
        r.tok_system == system_tokens(msgs@),
        r.tok_rest == rest_tokens(msgs@, msgs@.len() as int),
        r.n_turns == count_role(msgs@, Role::User, msgs@.len() as int),
        r.assistants == count_role(msgs@, Role::Assistant, msgs@.len() as int),
        r.had_tool == any_role(msgs@, Role::Tool),
        r.multimodal == any_image(msgs@),
        r.spawn_transcript == any_spawn_msg(msgs@),
        r.compact_text == any_compact_msg(msgs@),
        r.cron_text == any_cron_msg(msgs@),
{
    proof {
        assert forall|k: int| 0 <= k < msgs@.len() implies msg_tokens(#[trigger] msgs@[k]) >= 0 by {
            lemma_msg_tokens_nonneg(msgs@[k]);
        }
    }
    let ghost m = msgs@;
    let mut r = MessageScan {
        tok_system: 0,
        tok_rest: 0,
        n_turns: 0,
        assistants: 0,
        had_tool: false,
        multimodal: false,
        spawn_transcript: false,
        compact_text: false,
        cron_text: false,
    };
    let mut i: usize = 0;
    while i < msgs.len()
        invariant
            m == msgs@,
            i <= m.len(),
            m.len() < u32::MAX,
            forall|k: int| 0 <= k < m.len() ==> msg_tokens(#[trigger] m[k]) <= u32::MAX,
            forall|k: int| 0 <= k < m.len() ==> msg_tokens(#[trigger] m[k]) >= 0,
            rest_tokens(m, m.len() as int) <= u32::MAX,
            r.tok_system == (if i > 0 { system_tokens(m) } else { 0 }),
            r.tok_rest == rest_tokens(m, i as int),
            r.n_turns == count_role(m, Role::User, i as int),
            r.assistants == count_role(m, Role::Assistant, i as int),
            r.had_tool == exists|k: int| 0 <= k < i && (#[trigger] m[k]).role == Role::Tool,
            r.multimodal == exists|k: int| 0 <= k < i && has_image(#[trigger] m[k]),
            r.spawn_transcript == exists|k: int| 0 <= k < i && spawn_msg(#[trigger] m[k]),
            r.compact_text == exists|k: int| 0 <= k < i && compact_msg(#[trigger] m[k]),
            r.cron_text == exists|k: int| 0 <= k < i && cron_msg(#[trigger] m[k]),
        decreases m.len() - i,
    {
        let msg = &msgs[i];
        proof {
            lemma_rest_tokens_prefix(m, i + 1);
            lemma_count_role_bound(m, Role::User, i as int);
            lemma_count_role_bound(m, Role::Assistant, i as int);
        }
        let t = estimate_message_tokens(msg);
        if i == 0 && msg.role == Role::System {
            r.tok_system = t;
        } else {
            r.tok_rest = r.tok_rest + t;
        }
        if msg.role == Role::User {
            r.n_turns = r.n_turns + 1;
        }
        if msg.role == Role::Assistant {
            r.assistants = r.assistants + 1;
        }
        if msg.role == Role::Tool {
            r.had_tool = true;
        }
        if message_has_image(msg) {
            r.multimodal = true;
        }
        let text = message_text(msg);
        let ts = text.as_str();
        let spawn = msg.role != Role::System && (str_contains(ts, "[Subagent Task]") || (msg.role
            == Role::User && (str_contains(ts, "sessions_spawn(") || str_contains(
            ts,
            "spawn a sub-agent",
        ) || str_contains(ts, "spawn subagent") || str_contains(ts, "子代理") || str_contains(
            ts,
            "子 agent",
        ))));
        if spawn {
            r.spawn_transcript = true;
        }
        if str_contains(ts, "Dynamic Project Context") || str_contains(ts, "compaction") {
            r.compact_text = true;
        }
        if str_contains_lowered(ts, "[cron]") || str_contains_lowered(ts, "cron background")
            || str_contains_lowered(ts, "cron job") {
            r.cron_text = true;
        }
        proof {
            assert(spawn == spawn_msg(m[i as int]));
        }
        i += 1;
    }
    r
}

/// Index of the last message with the given role.
fn last_index_of_role(msgs: &Vec<Message>, role: Role) -> (r: Option<usize>)
    ensures
        match r {
            Some(i) => last_with_role(msgs@, role) == Some(i as int) && i < msgs@.len(),
            None => last_with_role(msgs@, role) is None,
        },
{
    let mut i = msgs.len();
    assert(msgs@.take(i as int) =~= msgs@);
    while i > 0
        invariant
            i <= msgs@.len(),
            last_with_role(msgs@, role) == last_with_role(msgs@.take(i as int), role),
        decreases i,
    {
        assert(msgs@.take(i as int).last() == msgs@[i - 1]);
        if msgs[i - 1].role == role {
            return Some(i - 1);
        }
        assert(msgs@.take(i as int).drop_last() =~= msgs@.take(i - 1));
        i -= 1;
    }
    None
}

/// Whether one of the last four messages is a failed assistant turn.
fn recent_assistant_failure(msgs: &Vec<Message>) -> (r: bool)
    ensures
        r == recent_failure(msgs@),
{
    let n = msgs.len();
    let start = if n > 4 { n - 4 } else { 0 };
    let mut i = start;
    while i < n
        invariant
            n == msgs@.len(),
            start <= i <= n,
            start == (if n > 4 { n - 4 } else { 0 }),
            forall|k: int| start <= k < i ==> !failed_msg(#[trigger] msgs@[k]),
        decreases n - i,
    {
        let msg = &msgs[i];
        if msg.role == Role::Assistant {
            let text = message_text(msg);
            if str_contains(text.as_str(), "[assistant turn failed") {
                assert(failed_msg(msgs@[i as int]));
                return true;
            }
        }
        i += 1;
    }
    false
}

/// Whether a tool-call argument text starts with `{` and contains `}`.
fn arguments_ready(a: &str) -> (r: bool)
    ensures
        r == args_ready(a@),
{
    let b = a.as_bytes();
    b.len() > 0 && b[0] == 123u8 && str_contains(a, "}")
}

/// Whether a tool name is one of the tier-1 risky tools.
fn is_risky_tool(name: &str) -> (r: bool)
    ensures
        r == risky_tool(name@),
{
    str_eq(name, "exec") || str_eq(name, "write") || str_eq(name, "edit") || str_eq(name, "browser")
        || str_eq(name, "sessions_spawn") || str_eq(name, "message")
}

/// Features of the tool calls of the last assistant message:
/// (all arguments ready, some risky tool, some `sessions_spawn`).
fn call_flags(calls: &Vec<ToolCall>) -> (r: (bool, bool, bool))
    ensures
        r.0 == all_args_ready(calls@),
        r.1 == any_risky(calls@),
        r.2 == any_spawn_call(calls@),
{
    let mut ready = true;
    let mut risky = false;
    let mut spawn = false;
    let mut j: usize = 0;
    while j < calls.len()
        invariant
            j <= calls@.len(),
            ready == forall|k: int| 0 <= k < j ==> args_ready(#[trigger] calls@[k].function.arguments@),
            risky == exists|k: int| 0 <= k < j && risky_tool(#[trigger] calls@[k].function.name@),
            spawn == exists|k: int| 0 <= k < j && (#[trigger] calls@[k].function.name@) == "sessions_spawn"@,
        decreases calls@.len() - j,
    {
        let f = &calls[j].function;
        if !arguments_ready(f.arguments.as_str()) {
            ready = false;
        }
        if is_risky_tool(f.name.as_str()) {
            risky = true;
        }
        if str_eq(f.name.as_str(), "sessions_spawn") {
            spawn = true;
        }
        j += 1;
    }
    (ready, risky, spawn)
}

/// Features of the last assistant message's tool calls:
/// (pending calls, all arguments ready, some risky tool, some `sessions_spawn`).
fn prev_call_flags(msgs: &Vec<Message>) -> (r: (bool, bool, bool, bool))
    ensures
        r.0 == (prev_calls(msgs@) matches Some(cs) && cs.len() > 0),
        r.1 == (prev_calls(msgs@) matches Some(cs) && all_args_ready(cs)),
        r.2 == (prev_calls(msgs@) matches Some(cs) && any_risky(cs)),
        r.3 == (prev_calls(msgs@) matches Some(cs) && any_spawn_call(cs)),
{
    match last_index_of_role(msgs, Role::Assistant) {
        Some(i) => match &msgs[i].tool_calls {
            Some(c) => {
                let (ready, risky, spawn) = call_flags(c);
                (c.len() > 0, ready, risky, spawn)
            },
            None => (false, false, false, false),
        },
        None => (false, false, false, false),
    }
}

/// A heartbeat poll: the text starts with `[OpenClaw heartbeat poll]`, with
/// nothing before the marker.
pub open spec fn heartbeat_text(t: Seq<char>) -> bool {
    starts_with_text(t, "[OpenClaw heartbeat poll]"@)
}

/// Features of the last message: (is a tool result, is a synthetic tool result,
/// is a heartbeat poll, is a voice-repair turn, hard intent, easy intent).
fn last_message_flags(msgs: &Vec<Message>, had_tool: bool) -> (r: (bool, bool, bool, bool, bool, bool))
    requires
        had_tool == any_role(msgs@, Role::Tool),
    ensures
        ({
            let m = msgs@;
            let n = m.len() as int;
            let last = m[n - 1];
            &&& r.0 == (n > 0 && last.role == Role::Tool)
            &&& r.1 == (n > 0 && (text_has(text_of(last), "[openclaw] missing tool result"@)
                || text_has(text_of(last), "prompt lock was released"@)))
            &&& r.2 == (n > 0 && last.role == Role::User && heartbeat_text(text_of(last)))
            &&& r.3 == (n > 0 && last.role == Role::User && text_has(
                text_of(last),
                "[Audio transcript"@,
            ) && any_role(m, Role::Tool))
            &&& r.4 == (n > 0 && hard_intent(text_of(last)))
            &&& r.5 == (n > 0 && easy_intent(text_of(last)))
        }),
{
    let n = msgs.len();
    if n == 0 {
        return (false, false, false, false, false, false);
    }
    let last = &msgs[n - 1];
    let text = message_text(last);
    let ts = text.as_str();
    let tool = last.role == Role::Tool;
    let synthetic = str_contains(ts, "[openclaw] missing tool result") || str_contains(
        ts,
        "prompt lock was released",
    );
    let heartbeat = last.role == Role::User && strip_prefix(ts, "[OpenClaw heartbeat poll]").is_some();
    let voice = last.role == Role::User && str_contains(ts, "[Audio transcript") && had_tool;
    (tool, synthetic, heartbeat, voice, contains_hard_intent(ts), contains_easy_intent(ts))
}

/// Extracts routing signals from a request.
pub struct SignalExtractor {
    pub ctx_edge_max: u32,
}

impl SignalExtractor {
    /// Computes the signals of `req`. `tools_json` is the JSON text of the
    /// request's `tools` array, whose length drives the tool-schema estimate;
    /// `prev_tok_total_in` is the conversation's previous input total.
    /// `requires`: the token sums fit in `u32` (see `extract_fits`).
    #[verifier::rlimit(60)]
    pub fn extract(
        &self,
        req: &ChatCompletionRequest,
        tools_json: &str,
        prev_tok_total_in: Option<u32>,
    ) -> (r: RequestSignals)
        requires
            extract_fits(*req),
        ensures
            r == signals_of(*req, tools_json@, prev_tok_total_in),
    {
        let msgs = &req.messages;
        let n = msgs.len();
        let tok_tools_schema = estimate_tokens(tools_json);
        let scan = scan_messages(msgs);
        let tok_total_in = scan.tok_system.saturating_add(scan.tok_rest).saturating_add(
            tok_tools_schema,
        );
        let tok_loop_delta = match prev_tok_total_in {
            Some(p) => tok_total_in.saturating_sub(p),
            None => tok_total_in,
        };
        let (pending_tool_calls, tool_arg_ready, risky_tool_tier1, spawn_call) = prev_call_flags(
            msgs,
        );
        let lf = last_message_flags(msgs, scan.had_tool);
        let (last_role_tool, synthetic_tool_result, is_heartbeat_poll) = (lf.0, lf.1, lf.2);
        let (voice_repair_loop, intent_hard, intent_easy) = (lf.3, lf.4, lf.5);
        let assistant_failed_recent = recent_assistant_failure(msgs);
        let r = RequestSignals {
            tok_system: scan.tok_system,
            tok_tools_schema,
            tok_total_in,
            tok_loop_delta,
            tok_out_estimate: 0,
            n_tool_defs: req.tools.len() as u32,
            n_turns: scan.n_turns,
            loop_steps: scan.assistants as u32,
            pending_tool_calls,
            tool_arg_ready,
            last_role_tool,
            synthetic_tool_result,
            assistant_failed_recent,
            is_heartbeat_poll,
            voice_repair_loop,
            subagent_spawn_hint: scan.spawn_transcript || spawn_call,
            memory_compact_hint: scan.tok_system > 0 && scan.compact_text,
            cron_background: scan.cron_text,
            tools_enabled: req.tools.len() > 0,
            had_tool_roundtrip: scan.had_tool,
            risky_tool_tier1,
            intent_hard,
            intent_easy,
            multimodal: scan.multimodal,
        };
        r
    }
}

} // verus!
