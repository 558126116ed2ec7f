//! Token accounting of upstream calls.
use vstd::prelude::*;

use crate::openai::{ChatCompletionResponse, Usage};
use crate::text::{
    byte_len, est_tokens, est_tokens_len, lines_spec, starts_with_text, str_eq, str_lines,
    strip_prefix, trim, trim_seq, utf8_str,
};
use vstd::utf8::{decode_utf8, encode_utf8, valid_utf8};

verus! {

/// Metrics from a single upstream HTTP call (edge or cloud).
#[derive(Debug, Clone, Copy)]
pub struct UpstreamCallMetrics {
    pub tier: &'static str,
    pub prompt_tokens: u32,
    pub completion_tokens: u32,
    pub cached_tokens: u32,
    pub latency_ms: u64,
    pub ttft_ms: Option<u64>,
    pub stream: bool,
}

/// Client-visible response served from edge — counts toward cloud token savings.
#[derive(Debug, Clone, Copy)]
pub struct FinalResponseMetrics {
    pub served_tier: &'static str,
    pub cloud_input_saved: u32,
    pub completion_tokens: u32,
}

pub open spec fn triplet_of(u: Usage) -> (u32, u32, u32) {
    (
        u.prompt_tokens,
        u.completion_tokens,
        match u.prompt_tokens_details {
            Some(d) => d.cached_tokens,
            None => 0,
        },
    )
}

/// (prompt, completion, cached) tokens of a usage report; cached is 0 when absent.
pub fn usage_triplet(usage: &Usage) -> (r: (u32, u32, u32))
    ensures
        r == triplet_of(*usage),
{
    let cached = match &usage.prompt_tokens_details {
        Some(d) => d.cached_tokens,
        None => 0,
    };
    (usage.prompt_tokens, usage.completion_tokens, cached)
}

/// Token estimate of `char_len` bytes of text (about four per token, rounded up).
pub fn estimate_tokens(char_len: usize) -> (r: u32)
    ensures
        r == est_tokens(char_len as int),
{
    est_tokens_len(char_len)
}

/// Tokens of a response: its usage report when present; otherwise the given
/// prompt estimate, the estimated tokens of the first answer (0 without one),
/// and no cached tokens.
pub open spec fn response_tokens(resp: ChatCompletionResponse, prompt_fallback: u32) -> (u32, u32, u32) {
    match resp.usage {
        Some(u) => triplet_of(u),
        None => (
            prompt_fallback,
            if resp.choices@.len() > 0 && resp.choices@[0].message.content is Some {
                est_tokens(byte_len(resp.choices@[0].message.content.unwrap()@))
            } else {
                0
            },
            0,
        ),
    }
}

/// Tokens of a response, estimated when the upstream reported no usage.
pub fn tokens_from_response(resp: &ChatCompletionResponse, prompt_fallback: u32) -> (r: (u32, u32, u32))
    ensures
        r == response_tokens(*resp, prompt_fallback),
{
    if let Some(usage) = &resp.usage {
        return usage_triplet(usage);
    }
    let completion = if resp.choices.len() > 0 {
        match &resp.choices[0].message.content {
            Some(t) => estimate_tokens(t.as_str().as_bytes().len()),
            None => 0,
        }
    } else {
        0
    };
    (prompt_fallback, completion, 0)
}

// ----- server-sent events -----

/// The usage numbers of an SSE event, each present when it is a JSON unsigned integer.
#[derive(Debug, Clone, Copy)]
pub struct SseUsage {
    pub prompt_tokens: Option<u64>,
    pub completion_tokens: Option<u64>,
    pub cached_tokens: Option<u64>,
}

/// What the gateway reads of one SSE `data:` payload: the text at
/// `/choices/0/delta/content`, and the usage object when the payload has one.
#[derive(Debug, Clone)]
pub struct SseFields {
    pub delta_content: Option<String>,
    pub usage: Option<SseUsage>,
}

/// The fields as plain values: (delta content, (prompt, completion, cached) when
/// a `usage` key is present).
pub type SseFieldsModel = (Option<Seq<char>>, Option<(Option<u64>, Option<u64>, Option<u64>)>);

/// What `serde_json` reads of a payload text: `None` when it is not JSON;
/// otherwise the string at `/choices/0/delta/content` (if it is a string), and,
/// when the top-level object has a `usage` key, the unsigned integers at
/// `/usage/prompt_tokens`, `/usage/completion_tokens` and
/// `/usage/prompt_tokens_details/cached_tokens`.
pub uninterp spec fn json_sse_fields(payload: Seq<char>) -> Option<SseFieldsModel>;

pub open spec fn fields_model(f: Option<SseFields>) -> Option<SseFieldsModel> {
    match f {
        None => None,
        Some(x) => Some(
            (
                match x.delta_content {
                    Some(d) => Some(d@),
                    None => None,
                },
                match x.usage {
                    Some(u) => Some((u.prompt_tokens, u.completion_tokens, u.cached_tokens)),
                    None => None,
                },
            ),
        ),
    }
}

/// Parses an SSE payload with `serde_json::from_str` into a `serde_json::Value`
/// and reads its delta content (`Value::pointer`, `Value::as_str`) and usage
/// numbers (`Value::get`, `Value::pointer`, `Value::as_u64`). The result is named
/// by `json_sse_fields`.
#[verifier::external_body]
fn parse_sse_payload(payload: &str) -> (r: Option<SseFields>)
    ensures
        fields_model(r) == json_sse_fields(payload@),
{
    let v: serde_json::Value = serde_json::from_str(payload).ok()?;
    let content = v.pointer("/choices/0/delta/content").and_then(serde_json::Value::as_str);
    let usage = match v.get("usage") {
        Some(_) => Some(SseUsage {
            prompt_tokens: v.pointer("/usage/prompt_tokens").and_then(serde_json::Value::as_u64),
            completion_tokens: v.pointer("/usage/completion_tokens").and_then(serde_json::Value::as_u64),
            cached_tokens: v
                .pointer("/usage/prompt_tokens_details/cached_tokens")
                .and_then(serde_json::Value::as_u64),
        }),
        None => None,
    };
    Some(SseFields { delta_content: content.map(str::to_owned), usage })
}

/// A usage number as the gateway counts it: 0 when absent, truncated to `u32`.
pub open spec fn usage_number(n: Option<u64>) -> u32 {
    match n {
        Some(v) => #[verifier::truncate] (v as u32),
        None => 0,
    }
}

/// The payload of an SSE line: the line after `data: `, trimmed.
pub open spec fn payload_of(line: Seq<char>) -> Seq<char> {
    trim_seq(line.skip(6))
}

/// Scanning SSE lines for usage: every line must be a `data: ` line whose
/// payload is `[DONE]` or JSON, else the scan stops with nothing; delta content
/// lengths (bytes) add to `acc`; the first event with a `usage` key ends the
/// scan with its numbers. Returns the result and the final `acc`.
pub open spec fn usage_scan(lines: Seq<Seq<char>>, acc: int) -> (Option<(u32, u32, u32)>, int)
    decreases lines.len(),
{
    if lines.len() == 0 {
        (None, acc)
    } else if !starts_with_text(lines[0], "data: "@) {
        (None, acc)
    } else if payload_of(lines[0]) == "[DONE]"@ {
        usage_scan(lines.drop_first(), acc)
    } else {
        match json_sse_fields(payload_of(lines[0])) {
            None => (None, acc),
            Some(f) => {
                let acc2 = acc + match f.0 {
                    Some(d) => byte_len(d),
                    None => 0,
                };
                match f.1 {
                    Some(u) => (Some((usage_number(u.0), usage_number(u.1), usage_number(u.2))), acc2),
                    None => usage_scan(lines.drop_first(), acc2),
                }
            },
        }
    }
}

/// The usage scan of a chunk: nothing for bytes that are not UTF-8.
pub open spec fn chunk_usage(bytes: Seq<u8>, acc: int) -> (Option<(u32, u32, u32)>, int) {
    if valid_utf8(bytes) {
        usage_scan(lines_spec(decode_utf8(bytes)), acc)
    } else {
        (None, acc)
    }
}

/// The scan's byte count never goes down.
proof fn lemma_usage_scan_acc(ls: Seq<Seq<char>>, acc: int)
    ensures
        acc <= usage_scan(ls, acc).1,
    decreases ls.len(),
{
    if ls.len() > 0 && starts_with_text(ls[0], "data: "@) {
        if payload_of(ls[0]) == "[DONE]"@ {
            lemma_usage_scan_acc(ls.drop_first(), acc);
        } else if let Some(f) = json_sse_fields(payload_of(ls[0])) {
            let acc2 = acc + match f.0 {
                Some(d) => byte_len(d),
                None => 0,
            };
            lemma_usage_scan_acc(ls.drop_first(), acc2);
        }
    }
}

/// Bytes of the delta content of parsed fields (0 when there is none).
pub open spec fn delta_bytes(f: SseFieldsModel) -> int {
    match f.0 {
        Some(d) => byte_len(d),
        None => 0,
    }
}

/// The usage numbers of parsed fields, as the gateway counts them.
pub open spec fn fields_usage(f: SseFieldsModel) -> Option<(u32, u32, u32)> {
    match f.1 {
        Some(u) => Some((usage_number(u.0), usage_number(u.1), usage_number(u.2))),
        None => None,
    }
}

/// Takes one parsed SSE event: adds the byte length of its delta content to
/// `completion_chars`, and returns its usage numbers (each 0 when absent,
/// truncated to `u32`) when it carries a `usage` object.
pub fn take_sse_fields(fields: &SseFields, completion_chars: &mut usize) -> (r: Option<(u32, u32, u32)>)
    requires
        *old(completion_chars) + delta_bytes(fields_model(Some(*fields)).unwrap()) <= usize::MAX,
    ensures
        *final(completion_chars) == *old(completion_chars) + delta_bytes(fields_model(Some(*fields)).unwrap()),
        r == fields_usage(fields_model(Some(*fields)).unwrap()),
{
    if let Some(delta) = &fields.delta_content {
        *completion_chars += delta.as_str().as_bytes().len();
    }
    match fields.usage {
        Some(u) => {
            let p = match u.prompt_tokens {
                Some(v) => #[verifier::truncate] (v as u32),
                None => 0,
            };
            let c = match u.completion_tokens {
                Some(v) => #[verifier::truncate] (v as u32),
                None => 0,
            };
            let k = match u.cached_tokens {
                Some(v) => #[verifier::truncate] (v as u32),
                None => 0,
            };
            Some((p, c, k))
        },
        None => None,
    }
}

/// Parses an OpenAI-style SSE chunk: adds the byte length of each delta content
/// to `completion_chars` and returns the (prompt, completion, cached) usage of
/// the first event that carries one. A line that is not a `data: ` line, or a
/// payload that is not JSON, ends the scan with `None`.
/// `requires`: the counter has room for the content of the chunk.
pub fn inspect_sse_chunk(bytes: &[u8], completion_chars: &mut usize) -> (r: Option<(u32, u32, u32)>)
    requires
        chunk_usage(bytes@, *old(completion_chars) as int).1 <= usize::MAX,
    ensures
        (r, *final(completion_chars) as int) == chunk_usage(bytes@, *old(completion_chars) as int),
{
    proof {
        reveal_strlit("data: ");
    }
    let text = match utf8_str(bytes) {
        Some(t) => t,
        None => return None,
    };
    let lines = str_lines(text);
    let ghost ls = lines@.map_values(|x: &str| x@);
    let ghost start = *completion_chars as int;
    proof {
        broadcast use vstd::utf8::decode_utf8_encode_utf8;
        assert(encode_utf8(decode_utf8(bytes@)) == bytes@);
        assert(ls.skip(0) =~= ls);
    }
    let mut i: usize = 0;
    while i < lines.len()
        invariant
            i <= lines@.len(),
            ls == lines@.map_values(|x: &str| x@),
            ls.len() == lines@.len(),
            start == *old(completion_chars) as int,
            chunk_usage(bytes@, start) == usage_scan(ls, start),
            usage_scan(ls, start) == usage_scan(ls.skip(i as int), *completion_chars as int),
            usage_scan(ls, start).1 <= usize::MAX,
        decreases lines@.len() - i,
    {
        let ghost rest = ls.skip(i as int);
        proof {
            reveal_strlit("data: ");
            reveal_strlit("[DONE]");
            assert(rest[0] == lines@[i as int]@);
            assert(rest.drop_first() =~= ls.skip(i + 1));
        }
        let line = lines[i];
        let after = match strip_prefix(line, "data: ") {
            Some(p) => p,
            None => return None,
        };
        let payload = trim(after);
        if str_eq(payload, "[DONE]") {
            i += 1;
            continue;
        }
        let fields = match parse_sse_payload(payload) {
            Some(f) => f,
            None => return None,
        };
        proof {
            assert(line@.subrange(6, line@.len() as int) =~= after@);
            let acc2 = *completion_chars as int + match fields_model(Some(fields)).unwrap().0 {
                Some(d) => byte_len(d),
                None => 0,
            };
            lemma_usage_scan_acc(rest.drop_first(), acc2);
        }
        if let Some(u) = take_sse_fields(&fields, completion_chars) {
            return Some(u);
        }
        i += 1;
    }
    proof {
        assert(ls.skip(i as int) =~= Seq::<Seq<char>>::empty());
    }
    None
}

/// Scanning SSE lines for content: `data: ` lines whose payload is neither
/// `[DONE]` nor unparsable and whose delta content is a non-empty string.
pub open spec fn content_scan(lines: Seq<Seq<char>>) -> bool
    decreases lines.len(),
{
    if lines.len() == 0 {
        false
    } else if starts_with_text(lines[0], "data: "@) && payload_of(lines[0]) != "[DONE]"@ && (
    json_sse_fields(payload_of(lines[0])) matches Some(f) && f.0 matches Some(d) && d.len() > 0) {
        true
    } else {
        content_scan(lines.drop_first())
    }
}

pub open spec fn chunk_has_content(bytes: Seq<u8>) -> bool {
    valid_utf8(bytes) && content_scan(lines_spec(decode_utf8(bytes)))
}

/// Whether an SSE chunk carries any non-empty delta content.
pub fn sse_has_content(bytes: &[u8]) -> (r: bool)
    ensures
        r == chunk_has_content(bytes@),
{
    proof {
        reveal_strlit("data: ");
    }
    let text = match utf8_str(bytes) {
        Some(t) => t,
        None => return false,
    };
    let lines = str_lines(text);
    let ghost ls = lines@.map_values(|x: &str| x@);
    proof {
        assert(ls.skip(0) =~= ls);
    }
    let mut i: usize = 0;
    while i < lines.len()
        invariant
            i <= lines@.len(),
            ls == lines@.map_values(|x: &str| x@),
            ls.len() == lines@.len(),
            chunk_has_content(bytes@) == content_scan(ls),
            content_scan(ls) == content_scan(ls.skip(i as int)),
        decreases lines@.len() - i,
    {
        let ghost rest = ls.skip(i as int);
        proof {
            reveal_strlit("data: ");
            reveal_strlit("[DONE]");
            assert(rest[0] == lines@[i as int]@);
            assert(rest.drop_first() =~= ls.skip(i + 1));
        }
        let line = lines[i];
        if let Some(after) = strip_prefix(line, "data: ") {
            let payload = trim(after);
            if !str_eq(payload, "[DONE]") {
                if let Some(f) = parse_sse_payload(payload) {
                    if let Some(d) = &f.delta_content {
                        if !d.as_str().is_empty() {
                            return true;
                        }
                    }
                }
            }
        }
        i += 1;
    }
    proof {
        assert(ls.skip(i as int) =~= Seq::<Seq<char>>::empty());
    }
    false
}

} // verus!
