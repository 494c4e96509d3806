use kedai_server::json::parse_json;
use kedai_server::llm::{LlmErrorKind, LlmStreamChunk};
use kedai_server::connectors::openai_compatible::sse_parser::{find_event_end, parse_usage, SseParser, MAX_BAD_JSON_EVENTS};

fn usage_of_text(text: &str) -> (i64, i64, i64, i64, i64, i64) {
    let v = parse_json(&text.chars().collect::<Vec<char>>()).unwrap();
    parse_usage(&v)
}

fn chunk_boundaries() {
    let mut parser = SseParser::default();
    let mut out = Vec::new();
    for part in [
        b"data: {\"choices\":[{\"delta\":{\"content\":\"\xe4".as_slice(),
        b"\xbd\xa0\"}}]}\r".as_slice(),
        b"\n\r\ndata: {\"choices\":[{\"delta\":{\"content\":\"hao\"}}]}\n\n".as_slice(),
        b"data: [DONE]\n\n".as_slice(),
    ] {
        parser.push(part, &mut out).unwrap();
    }
    assert!(parser.is_done());
    assert_eq!(out.len(), 2);
    assert!(matches!(&out[0], LlmStreamChunk::Token(text) if text == "你"));
    assert!(matches!(&out[1], LlmStreamChunk::Token(text) if text == "hao"));
}

#[test]
fn openai_compatible_sse_parser_handles_arbitrary_chunk_boundaries() {
    chunk_boundaries();
}

#[test]
fn tests_sse_parser_handles_arbitrary_chunk_boundaries() {
    chunk_boundaries();
}

fn cache_hit_tokens() {
    let u = r#"{"prompt_tokens": 1000, "completion_tokens": 200, "total_tokens": 1200,
        "prompt_cache_hit_tokens": 700, "prompt_cache_miss_tokens": 300}"#;
    assert_eq!(usage_of_text(u), (1000, 200, 1200, 700, 300, 0));
    let plain = r#"{"prompt_tokens": 500, "completion_tokens": 50, "total_tokens": 550}"#;
    assert_eq!(usage_of_text(plain), (500, 50, 550, 0, 0, 0));
    assert_eq!(usage_of_text("{}"), (0, 0, 0, 0, 0, 0));
}

#[test]
fn openai_compatible_parse_usage_reads_cache_hit_tokens() {
    cache_hit_tokens();
}

#[test]
fn tests_parse_usage_reads_cache_hit_tokens() {
    cache_hit_tokens();
}

#[test]
fn parse_usage_reads_openai_cached_tokens() {
    let u = r#"{"prompt_tokens": 1000, "completion_tokens": 50, "total_tokens": 1050,
        "prompt_tokens_details": {"cached_tokens": 600}}"#;
    assert_eq!(usage_of_text(u), (1000, 50, 1050, 600, 400, 0));
    let both = r#"{"prompt_tokens": 1000, "completion_tokens": 50, "total_tokens": 1050,
        "prompt_cache_hit_tokens": 800, "prompt_cache_miss_tokens": 200,
        "prompt_tokens_details": {"cached_tokens": 600}}"#;
    assert_eq!(usage_of_text(both), (1000, 50, 1050, 800, 200, 0));
}

#[test]
fn parse_usage_reads_reasoning_tokens() {
    let u = r#"{"prompt_tokens": 800, "completion_tokens": 10000, "total_tokens": 10800,
        "completion_tokens_details": {"reasoning_tokens": 10000}}"#;
    assert_eq!(usage_of_text(u), (800, 10000, 10800, 0, 0, 10000));
}

#[test]
fn parse_usage_cached_above_prompt_gives_zero_miss() {
    let u = r#"{"prompt_tokens": 100, "prompt_tokens_details": {"cached_tokens": 600}}"#;
    assert_eq!(usage_of_text(u), (100, 0, 0, 600, 0, 0));
}

#[test]
fn sse_parser_emits_finish_chunk() {
    let mut parser = SseParser::default();
    let mut out = Vec::new();
    parser
        .push(
            b"data: {\"choices\":[{\"index\":0,\"delta\":{},\"finish_reason\":\"length\"}]}\n\n",
            &mut out,
        )
        .unwrap();
    assert!(
        matches!(&out[..], [LlmStreamChunk::Finish { reason }] if reason == "length"),
        "length 应产出 Finish 块: {out:?}"
    );

    let mut parser2 = SseParser::default();
    let mut out2 = Vec::new();
    parser2
        .push(
            b"data: {\"choices\":[{\"index\":0,\"delta\":{\"content\":\"hi\"},\"finish_reason\":\"tool_calls\"}]}\n\n",
            &mut out2,
        )
        .unwrap();
    assert!(
        out2.iter()
            .any(|c| matches!(c, LlmStreamChunk::Finish { reason } if reason == "tool_calls")),
        "tool_calls 应产出 Finish{{tool_calls}} 块(F6): {out2:?}"
    );
}

fn upstream_error_object() {
    let mut parser = SseParser::default();
    let mut out = Vec::new();
    let err = parser
        .push(
            b"data: {\"error\":{\"message\":\"insufficient_quota\",\"type\":\"insufficient_quota\"}}\n\n",
            &mut out,
        )
        .unwrap_err();
    assert!(err.message.contains("insufficient_quota"), "应暴露上游错误对象: {err:?}");
}

#[test]
fn openai_compatible_sse_parser_surfaces_upstream_error_object() {
    upstream_error_object();
}

#[test]
fn tests_sse_parser_surfaces_upstream_error_object() {
    upstream_error_object();
}

fn bad_json_threshold() {
    let mut parser = SseParser::default();
    let mut out = Vec::new();
    for _ in 0..5 {
        parser.push(b"data: ping\n\n", &mut out).unwrap();
    }
    assert!(out.is_empty(), "少量非 JSON 应静默忽略");

    let mut parser2 = SseParser::default();
    let mut out2 = Vec::new();
    let mut failed_at: Option<usize> = None;
    for i in 0..(MAX_BAD_JSON_EVENTS + 2) {
        let r = parser2.push(b"data: garbage\n\n", &mut out2);
        if r.is_err() {
            failed_at = Some(i);
            break;
        }
    }
    assert!(failed_at.is_some(), "连续非 JSON 达到阈值应报错(当前 {MAX_BAD_JSON_EVENTS})");
    assert_eq!(failed_at.unwrap(), MAX_BAD_JSON_EVENTS - 1, "应在恰好第 {MAX_BAD_JSON_EVENTS} 个坏事件时报错");
}

#[test]
fn openai_compatible_sse_parser_tolerates_bad_json_then_fails_at_threshold() {
    bad_json_threshold();
}

#[test]
fn tests_sse_parser_tolerates_bad_json_then_fails_at_threshold() {
    bad_json_threshold();
}

fn flush_only_on_tool_calls() {
    let mut parser = SseParser::default();
    let mut out = Vec::new();
    parser
        .push(
            b"data: {\"choices\":[{\"delta\":{\"tool_calls\":[{\"index\":0,\"id\":\"c1\",\"function\":{\"name\":\"read\",\"arguments\":\"{\\\"q\\\":1}\"}}]},\"finish_reason\":\"stop\"}]}\n\n",
            &mut out,
        )
        .unwrap();
    assert!(
        !out.iter().any(|c| matches!(c, LlmStreamChunk::ToolCall(_))),
        "非 tool_calls finish 不应 flush 工具调用: {out:?}"
    );
    parser
        .push(b"data: {\"choices\":[{\"finish_reason\":\"tool_calls\"}]}\n\n", &mut out)
        .unwrap();
    assert!(
        out.iter().any(|c| matches!(c, LlmStreamChunk::ToolCall(c) if c.name == "read")),
        "tool_calls finish 应 flush 已聚合调用: {out:?}"
    );
    assert!(
        out.iter()
            .any(|c| matches!(c, LlmStreamChunk::Finish { reason } if reason == "tool_calls")),
        "tool_calls finish 应产出 Finish{{tool_calls}} 供上层落库(F6): {out:?}"
    );
}

#[test]
fn openai_compatible_sse_parser_flushes_tool_calls_only_on_tool_calls_finish() {
    flush_only_on_tool_calls();
}

#[test]
fn tests_sse_parser_flushes_tool_calls_only_on_tool_calls_finish() {
    flush_only_on_tool_calls();
}

fn invalid_tool_arguments() {
    let mut parser = SseParser::default();
    let mut out = Vec::new();
    let err = parser
        .push(
            b"data: {\"choices\":[{\"delta\":{\"tool_calls\":[{\"index\":0,\"id\":\"c1\",\"function\":{\"name\":\"read\",\"arguments\":\"not-json\"}}]},\"finish_reason\":\"tool_calls\"}]}\n\n",
            &mut out,
        )
        .unwrap_err();
    assert!(err.message.contains("不是合法 JSON"), "非法 arguments 应在 flush 时暴露: {err:?}");
}

#[test]
fn openai_compatible_sse_parser_rejects_invalid_tool_arguments() {
    invalid_tool_arguments();
}

#[test]
fn tests_sse_parser_rejects_invalid_tool_arguments() {
    invalid_tool_arguments();
}

fn duplicate_ids() {
    let mut parser2 = SseParser::default();
    let mut out2 = Vec::new();
    let err2 = parser2
        .push(
            b"data: {\"choices\":[{\"delta\":{\"tool_calls\":[{\"index\":0,\"id\":\"dup\",\"function\":{\"name\":\"read\",\"arguments\":\"{}\"}},{\"index\":1,\"id\":\"dup\",\"function\":{\"name\":\"role\",\"arguments\":\"{}\"}}]},\"finish_reason\":\"tool_calls\"}]}\n\n",
            &mut out2,
        )
        .unwrap_err();
    assert!(err2.message.contains("重复工具调用 id"), "重复 id 应报错: {err2:?}");
}

#[test]
fn openai_compatible_sse_parser_rejects_duplicate_tool_call_ids() {
    duplicate_ids();
}

#[test]
fn tests_sse_parser_rejects_duplicate_tool_call_ids() {
    duplicate_ids();
}

#[test]
fn event_end_prefers_earlier_separator() {
    assert_eq!(find_event_end(b"a\r\n\r\nb\n\n"), Some((1, 4)));
    assert_eq!(find_event_end(b"a\n\nb\r\n\r\n"), Some((1, 2)));
    assert_eq!(find_event_end(b"abc\n"), None);
}

#[test]
fn tool_call_deltas_merge_by_index_and_flush_in_index_order() {
    let mut parser = SseParser::default();
    let mut out = Vec::new();
    parser
        .push(b"data: {\"choices\":[{\"delta\":{\"tool_calls\":[{\"index\":1,\"function\":{\"name\":\"b\",\"arguments\":\"{\\\"x\\\"\"}},{\"index\":0,\"id\":\"first\",\"function\":{\"name\":\"a\",\"arguments\":\"{}\"}}]}}]}\n\n", &mut out)
        .unwrap();
    parser
        .push(b"data: {\"choices\":[{\"delta\":{\"tool_calls\":[{\"index\":1,\"function\":{\"arguments\":\":2}\"}}]}}]}\n\ndata: [DONE]\n\n", &mut out)
        .unwrap();
    assert_eq!(out.len(), 2);
    match (&out[0], &out[1]) {
        (LlmStreamChunk::ToolCall(a), LlmStreamChunk::ToolCall(b)) => {
            assert_eq!(a.id, "first");
            assert_eq!(a.name, "a");
            assert_eq!(b.id, "call_1");
            assert_eq!(b.arguments, "{\"x\":2}");
        }
        other => panic!("unexpected chunks {other:?}"),
    }
}

#[test]
fn usage_and_reasoning_chunks_and_finish_flushes_leftovers() {
    let mut parser = SseParser::default();
    let mut out = Vec::new();
    parser
        .push(b"data: {\"choices\":[{\"delta\":{\"reasoning_content\":\"think\",\"tool_calls\":[{\"index\":0,\"function\":{\"name\":\"r\"}}]}}],\"usage\":{\"prompt_tokens\":3}}\n\n", &mut out)
        .unwrap();
    assert!(matches!(&out[0], LlmStreamChunk::Reasoning(t) if t == "think"));
    assert!(matches!(&out[1], LlmStreamChunk::Usage(u) if u.prompt_tokens == 3));
    parser.finish(&mut out).unwrap();
    assert!(matches!(&out[2], LlmStreamChunk::ToolCall(c) if c.id == "call_0" && c.name == "r"));
}

#[test]
fn rate_limit_and_auth_errors_are_classified() {
    let mut parser = SseParser::default();
    let mut out = Vec::new();
    let err = parser
        .push(b"data: {\"error\":{\"message\":\"slow down\",\"code\":\"Rate_Limit_Exceeded\"}}\n\n", &mut out)
        .unwrap_err();
    assert_eq!(err.kind, LlmErrorKind::RateLimited);
    assert_eq!(err.message, "上游返回错误: slow down");
    let mut parser = SseParser::default();
    let err = parser
        .push(b"data: {\"error\":{\"type\":\"invalid_api_key\"}}\n\n", &mut out)
        .unwrap_err();
    assert_eq!(err.kind, LlmErrorKind::AuthFailed);
    assert_eq!(err.message, "上游返回错误 [invalid_api_key]: 未知上游错误");
}

#[test]
fn invalid_utf8_event_is_a_generation_error() {
    let mut parser = SseParser::default();
    let mut out = Vec::new();
    let err = parser.push(b"data: \xff\n\n", &mut out).unwrap_err();
    assert_eq!(err.kind, LlmErrorKind::Generation);
    assert!(err.message.starts_with("SSE 响应不是有效 UTF-8: "));
}

#[test]
fn stream_split_anywhere_gives_same_chunks() {
    let stream: &[u8] = b"data: {\"choices\":[{\"delta\":{\"content\":\"\xe4\xbd\xa0\"}}]}\r\n\r\ndata: {\"choices\":[{\"delta\":{\"reasoning_content\":\"r\"}}]}\n\ndata: {\"choices\":[{\"delta\":{\"content\":\"ok\"},\"finish_reason\":\"stop\"}]}\n\ndata: [DONE]\n\n";
    let mut whole = SseParser::default();
    let mut expected = Vec::new();
    whole.push(stream, &mut expected).unwrap();
    assert!(whole.is_done());
    for cut in 0..=stream.len() {
        let mut parser = SseParser::default();
        let mut out = Vec::new();
        parser.push(&stream[..cut], &mut out).unwrap();
        parser.push(&stream[cut..], &mut out).unwrap();
        assert_eq!(out, expected, "cut at {cut}");
        assert!(parser.is_done());
    }
}

#[test]
fn stream_cut_into_many_pieces_parses_as_whole() {
    let whole: &[u8] = b"data: {\"choices\":[{\"delta\":{\"content\":\"\xe4\xbd\xa0\"}}]}\r\n\r\ndata: {\"choices\":[{\"delta\":{\"content\":\"hao\"},\"finish_reason\":\"stop\"}]}\n\ndata: [DONE]\n\n";
    let mut one = SseParser::default();
    let mut out_one = Vec::new();
    one.push(whole, &mut out_one).unwrap();
    one.finish(&mut out_one).unwrap();
    for size in [1usize, 2, 3, 7] {
        let mut p = SseParser::default();
        let mut out = Vec::new();
        for piece in whole.chunks(size) {
            p.push(piece, &mut out).unwrap();
        }
        assert_eq!(p.is_done(), one.is_done());
        p.finish(&mut out).unwrap();
        assert_eq!(format!("{out:?}"), format!("{out_one:?}"), "pieces of {size}");
    }
}

#[test]
fn parsed_event_is_read_or_refused() {
    let mut p = SseParser::default();
    let mut out = Vec::new();
    let v = parse_json(&r#"{"choices":[{"delta":{"content":"hi"}}]}"#.chars().collect::<Vec<char>>()).unwrap();
    p.handle_json(&v, &mut out).unwrap();
    assert!(matches!(&out[0], LlmStreamChunk::Token(t) if t == "hi"));
    let err = parse_json(&r#"{"error":{"message":"quota","type":"insufficient_quota"}}"#.chars().collect::<Vec<char>>()).unwrap();
    let e = p.handle_json(&err, &mut out).unwrap_err();
    assert!(e.message.contains("quota"));
    assert_eq!(out.len(), 1);
}
