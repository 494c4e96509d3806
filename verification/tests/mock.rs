use kedai_server::connectors::mock::{MockConnector, MockReply, DEFAULT_CHAR_DELAY_MS};
use kedai_server::llm::{GenerationParams, LlmMessage, LlmStreamChunk, ToolCallArgs, ToolChoice, ToolDefinition, UsageCounts};
use kedai_server::json::Json;

fn params(max_tokens: u32) -> GenerationParams {
    GenerationParams { max_tokens, stop: None, tools: Vec::new(), max_tool_rounds: None, tool_choice: ToolChoice::Auto, parallel_tool_calls: None }
}

fn user(t: &str) -> LlmMessage {
    LlmMessage::plain("user", t)
}

fn gen(msgs: &[LlmMessage], p: &GenerationParams) -> MockReply {
    MockConnector::new().generate(msgs, p, false).unwrap()
}

fn usage(c: &LlmStreamChunk) -> UsageCounts {
    match c {
        LlmStreamChunk::Usage(u) => *u,
        _ => panic!("应为 Usage: {c:?}"),
    }
}

fn call(c: &LlmStreamChunk) -> &ToolCallArgs {
    match c {
        LlmStreamChunk::ToolCall(t) => t,
        _ => panic!("应为 ToolCall: {c:?}"),
    }
}

fn finish(c: &LlmStreamChunk) -> &str {
    match c {
        LlmStreamChunk::Finish { reason } => reason,
        _ => panic!("应为 Finish: {c:?}"),
    }
}

fn token(c: &LlmStreamChunk) -> &str {
    match c {
        LlmStreamChunk::Token(t) => t,
        _ => panic!("应为 Token: {c:?}"),
    }
}

#[test]
fn fail_hook_fails() {
    let r = MockConnector::new().generate(&[user("x [[fail: 上游炸了 ]]")], &params(1024), false);
    assert_eq!(r.unwrap_err(), "上游炸了");
    assert!(MockConnector::new().generate(&[user("[[fail:   ]]")], &params(1024), false).is_ok());
}

#[test]
fn tool_hook_respects_offered_tools() {
    let r = gen(&[user("[[tool:read {\"path\":\"a\"}]]")], &params(1024));
    let c = call(&r.chunks[0]);
    assert_eq!((c.id.as_str(), c.name.as_str(), c.arguments.as_str()), ("mock-call-1", "read", "{\"path\":\"a\"}"));
    assert_eq!(usage(&r.chunks[1]).total_tokens, 8);
    assert_eq!(finish(&r.chunks[2]), "tool_calls");
    let mut p = params(1024);
    p.tools = vec![ToolDefinition { name: "write".into(), description: String::new(), parameters: Json::Null }];
    let r = gen(&[user("[[tool:read {}]]")], &p);
    assert_eq!(r.paced, r.chunks.len() - 2, "未下发的工具不调用,走默认逐字回复");
    assert_eq!(r.delay_ms, DEFAULT_CHAR_DELAY_MS);
}

#[test]
fn tool_loop_runs_rounds_then_replies() {
    let mut msgs = vec![user("[[tool_loop:dice|2 {\"n\":1}]]")];
    let r = gen(&msgs, &params(1024));
    assert_eq!(call(&r.chunks[0]).id, "mock-call-1");
    msgs.push(LlmMessage::plain("tool", "r1"));
    let r = gen(&msgs, &params(1024));
    assert_eq!(call(&r.chunks[0]).id, "mock-call-2");
    msgs.push(LlmMessage::plain("tool", "r2"));
    let r = gen(&msgs, &params(1024));
    assert_eq!(token(&r.chunks[0]), "（模拟回复）工具循环已完成,最终回复。");
    assert_eq!(usage(&r.chunks[1]).completion_tokens, 19);
    assert_eq!(finish(&r.chunks[2]), "stop");
}

#[test]
fn tool_echo_calls_twice_then_echoes() {
    let r = gen(&[user("[[tool_echo:t {}]]")], &params(1024));
    assert_eq!(call(&r.chunks[0]).id, "mock-echo-1");
    assert_eq!(call(&r.chunks[1]).id, "mock-echo-2");
    let mut a = LlmMessage::plain("assistant", "");
    a.tool_calls = Some(vec![ToolCallArgs { id: "1".into(), name: "t".into(), arguments: "{}".into() }, ToolCallArgs { id: "2".into(), name: "t".into(), arguments: "{}".into() }]);
    let msgs = vec![user("[[tool_echo:t {}]]"), a, LlmMessage::plain("tool", "ok")];
    let r = gen(&msgs, &params(1024));
    assert_eq!(token(&r.chunks[0]), "[user] [[tool_echo:t {}]]\n---SEP---\n[assistant [calls:2]] \n---SEP---\n[tool] ok");
}

#[test]
fn tool_raw_truncates_below_budget() {
    let r = gen(&[user("[[tool_raw:w {\"abcd\":1}]]")], &params(1024));
    assert_eq!(call(&r.chunks[0]).arguments, "{\"abc");
    assert_eq!(finish(&r.chunks[2]), "length");
    let r = gen(&[user("[[tool_raw:w {\"abcd\":1}]]")], &params(2048));
    assert_eq!(call(&r.chunks[0]).arguments, "{\"abcd\":1}");
    assert_eq!(finish(&r.chunks[2]), "tool_calls");
}

#[test]
fn empty_hooks_give_usage_only() {
    let r = gen(&[user("[[empty]]")], &params(1024));
    assert_eq!(r.chunks.len(), 1);
    assert_eq!(usage(&r.chunks[0]).prompt_tokens, 3);
    let msgs = vec![LlmMessage::plain("system", "任务汇总者"), user("[[empty_if:汇总者]]")];
    assert_eq!(gen(&msgs, &params(1024)).chunks.len(), 1);
    let msgs = vec![LlmMessage::plain("system", "规划器"), user("[[empty_if:汇总者]]")];
    assert!(gen(&msgs, &params(1024)).chunks.len() > 1);
}

#[test]
fn reply_hooks() {
    let r = gen(&[user("前缀 [[reply:你好]] 后缀")], &params(1024));
    assert_eq!(token(&r.chunks[0]), "你好");
    assert_eq!(usage(&r.chunks[1]).completion_tokens, 1);
    let r = gen(&[user("[[reply_stream:abc]]")], &params(1024));
    assert_eq!(r.paced, 3);
    assert_eq!(r.delay_ms, 0);
    assert_eq!(token(&r.chunks[1]), "b");
    assert_eq!(usage(&r.chunks[3]).completion_tokens, 3);
    let msgs = vec![LlmMessage::plain("system", "审计员 [[reply_if:规划器|假]]"), user("[[reply_if:规划器|计划]] [[reply_if:审计员|审计]]")];
    assert_eq!(token(&gen(&msgs, &params(1024)).chunks[0]), "审计");
    let msgs = vec![LlmMessage::plain("system", "规划器"), user("[[tool:x {}]] [[reply:计划 JSON]]"), LlmMessage::plain("tool", "done")];
    assert_eq!(token(&gen(&msgs, &params(1024)).chunks[0]), "计划 JSON");
}

#[test]
fn mvu_and_finish_hooks() {
    let r = gen(&[user("[[mvu_tool:set|{\"a\":1}\nmore")], &params(1024));
    assert_eq!(call(&r.chunks[0]).id, "mock-mvu-call-1");
    assert_eq!(call(&r.chunks[0]).arguments, "{\"a\":1}");
    let r = gen(&[user("[[mvu_text: SB{hp=3} ]]")], &params(1024));
    assert_eq!(token(&r.chunks[0]), "<StatusBar>hp=3</StatusBar>");
    let r = gen(&[user("[[finish:length|半句]]")], &params(1024));
    assert_eq!(token(&r.chunks[0]), "半句");
    assert_eq!(finish(&r.chunks[2]), "length");
    let r = gen(&[user("[[finish:content_filter]]")], &params(1024));
    assert_eq!(token(&r.chunks[0]), "（模拟回复）输出在 max_tokens 处被截断,后半句");
}

#[test]
fn floors_echo_and_default_reply() {
    let msgs = vec![LlmMessage::plain("system", "S"), user("[[floors]]")];
    let r = gen(&msgs, &params(1024));
    assert_eq!(token(&r.chunks[0]), "[system] S\n---FLOOR-SEP---\n[user] [[floors]]");
    let r = gen(&[user("你好")], &params(1024));
    let text: String = r.chunks[..r.paced].iter().map(|c| token(c).to_string()).collect();
    assert!(text.starts_with("（模拟回复）我已收到你的消息:「你好」"));
    let u = usage(&r.chunks[r.paced]);
    assert_eq!(u.prompt_tokens, 1);
    assert_eq!(u.completion_tokens, (text.chars().count() as i64 + 3) / 4);
    assert_eq!(u.total_tokens, u.prompt_tokens + u.completion_tokens);
}

#[test]
fn tool_results_without_reply_hook_close() {
    let msgs = vec![user("[[tool:x {}]]"), LlmMessage::plain("tool", "r")];
    let r = gen(&msgs, &params(1024));
    assert_eq!(token(&r.chunks[0]), "（模拟回复）工具调用已完成,结果已回填上下文,这是最终的回复内容。");
    assert_eq!(usage(&r.chunks[1]).prompt_tokens, 10);
}

#[test]
fn tool_results_never_ask_for_more_calls() {
    let tool = LlmMessage::plain("tool", "result");
    for hook in ["[[tool:w {}]]", "[[tool_echo:w {}]]", "[[reply:done]]", "hello", "[[tool_loop:w|1 {}]]"] {
        let r = gen(&[user(hook), tool.clone()], &params(1024));
        assert!(r.chunks.iter().all(|c| !matches!(c, LlmStreamChunk::ToolCall(_))), "{hook}");
    }
}

#[test]
fn aborted_streamed_reply_is_interrupted() {
    let m = MockConnector::new();
    let p = params(1024);
    let r = m.generate(&[user("你好")], &p, true);
    assert_eq!(r.err().as_deref(), Some("生成已中断"));
    let r = m.generate(&[user("[[reply_stream:ab]]")], &p, true);
    assert_eq!(r.err().as_deref(), Some("生成已中断"));
    // A reply sent in one chunk is not streamed character by character: no abort point.
    assert!(m.generate(&[user("[[reply:ok]]")], &p, true).is_ok());
    // An empty streamed reply has no character to stop at.
    assert!(m.generate(&[user("[[reply_stream:]]")], &p, true).is_ok());
}

#[test]
fn every_reply_has_one_usage_and_a_final_finish() {
    let p = params(1024);
    for text in ["你好", "[[reply:x]]", "[[reply_stream:xy]]", "[[empty]]", "[[finish:length|半截]]"] {
        let r = gen(&[user(text)], &p);
        let usages = r.chunks.iter().filter(|c| matches!(c, LlmStreamChunk::Usage(_))).count();
        assert_eq!(usages, 1, "{text}");
        let finishes: Vec<usize> = r
            .chunks
            .iter()
            .enumerate()
            .filter(|(_, c)| matches!(c, LlmStreamChunk::Finish { .. }))
            .map(|(i, _)| i)
            .collect();
        assert!(finishes.len() <= 1, "{text}");
        if let Some(&i) = finishes.first() {
            assert_eq!(i, r.chunks.len() - 1, "{text}");
        }
    }
}
