use flowy_router::stats::metrics::{inspect_sse_chunk, sse_has_content};

#[test]
fn parses_sse_usage_chunk() {
    let chunk = br#"data: {"usage":{"prompt_tokens":100,"completion_tokens":20,"prompt_tokens_details":{"cached_tokens":80}}}

"#;
    let mut chars = 0;
    let u = inspect_sse_chunk(chunk, &mut chars).unwrap();
    assert_eq!(u, (100, 20, 80));
}

#[test]
fn counts_delta_chars() {
    let chunk = br#"data: {"choices":[{"delta":{"content":"hello"}}]}

"#;
    let mut chars = 0;
    assert!(inspect_sse_chunk(chunk, &mut chars).is_none());
    assert_eq!(chars, 5);
}

#[test]
fn done_lines_are_skipped_and_usage_defaults_to_zero() {
    let chunk = b"data: [DONE]\r\ndata: {\"choices\":[{\"delta\":{\"content\":\"\xe4\xbd\xa0\"}}],\"usage\":{\"completion_tokens\":3}}\n";
    let mut chars = 2;
    assert_eq!(inspect_sse_chunk(chunk, &mut chars), Some((0, 3, 0)));
    assert_eq!(chars, 5);
}

#[test]
fn invalid_chunks_yield_nothing() {
    let mut chars = 0;
    assert_eq!(inspect_sse_chunk(b"\xff\xfe", &mut chars), None);
    assert_eq!(inspect_sse_chunk(b"event: ping\ndata: {\"usage\":{}}\n", &mut chars), None);
    assert_eq!(inspect_sse_chunk(b"data: not json\n", &mut chars), None);
    assert_eq!(chars, 0);
}

#[test]
fn content_detection() {
    assert!(sse_has_content(b"event: x\ndata: {\"choices\":[{\"delta\":{\"content\":\"a\"}}]}\n\n"));
    assert!(!sse_has_content(b"data: {\"choices\":[{\"delta\":{\"content\":\"\"}}]}\n\ndata: [DONE]\n\n"));
    assert!(!sse_has_content(b"data: oops\n"));
    assert!(!sse_has_content(b"\xff"));
}
