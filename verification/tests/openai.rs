use kedai_server::connectors::openai_compatible::retry::{is_retryable_status, retry_delay_with_jitter, should_retry};
use kedai_server::connectors::openai_compatible::{
    after_failed_attempt, chat_request_body, connector_type, model_ids, to_openai_messages, AttemptFailure,
    AttemptStep, OpenAiCompatibleConnector, Probe,
};
use kedai_server::json::{parse_json, Json};
use kedai_server::llm::{GenerationParams, LlmErrorKind, LlmMessage, ToolCallArgs, ToolChoice, ToolDefinition};

fn get<'a>(j: &'a Json, key: &str) -> Option<&'a Json> {
    match j {
        Json::Object(es) => es.iter().find(|(k, _)| k.iter().collect::<String>() == key).map(|(_, v)| v),
        _ => None,
    }
}

fn text(j: Option<&Json>) -> Option<String> {
    match j {
        Some(Json::Str(s)) => Some(s.iter().collect()),
        _ => None,
    }
}

fn json_of(t: &str) -> Json {
    parse_json(&t.chars().collect::<Vec<char>>()).unwrap()
}

fn echo_reasoning() {
    let msgs = vec![
        LlmMessage {
            role: "assistant".into(),
            content: String::new(),
            reasoning_content: Some("先掷骰再回答".into()),
            tool_calls: Some(vec![ToolCallArgs {
                id: "call_1".into(),
                name: "role".into(),
                arguments: r#"{"sides":6}"#.into(),
            }]),
            tool_call_id: None,
        },
        LlmMessage {
            role: "tool".into(),
            content: r#"{"rolls":[4]}"#.into(),
            reasoning_content: None,
            tool_calls: None,
            tool_call_id: Some("call_1".into()),
        },
    ];
    let out = to_openai_messages(&msgs);
    assert_eq!(text(get(&out[0], "role")).as_deref(), Some("assistant"));
    let calls = match get(&out[0], "tool_calls") {
        Some(Json::Array(a)) => a,
        _ => panic!("tool_calls 应为数组"),
    };
    assert_eq!(text(get(&calls[0], "type")).as_deref(), Some("function"));
    assert_eq!(text(get(get(&calls[0], "function").unwrap(), "name")).as_deref(), Some("role"));
    assert_eq!(text(get(&out[0], "reasoning_content")).as_deref(), Some("先掷骰再回答"));
    assert_eq!(text(get(&out[1], "role")).as_deref(), Some("tool"));
    assert_eq!(text(get(&out[1], "tool_call_id")).as_deref(), Some("call_1"));
    assert_eq!(text(get(&out[1], "content")).as_deref(), Some(r#"{"rolls":[4]}"#));
}

#[test]
fn openai_compatible_tool_messages_echo_reasoning() {
    echo_reasoning();
}

#[test]
fn tests_tool_messages_echo_reasoning() {
    echo_reasoning();
}

#[test]
fn plain_and_tool_messages_without_reasoning() {
    let mut assistant = LlmMessage::plain("assistant", "x");
    assistant.tool_calls = Some(vec![]);
    assistant.reasoning_content = Some(String::new());
    let out = to_openai_messages(&[LlmMessage::plain("user", "hi"), assistant, LlmMessage::plain("tool", "r")]);
    assert_eq!(text(get(&out[0], "content")).as_deref(), Some("hi"));
    assert!(matches!(get(&out[1], "content"), Some(Json::Null)));
    assert!(get(&out[1], "reasoning_content").is_none());
    assert_eq!(text(get(&out[2], "tool_call_id")).as_deref(), Some(""));
}

fn params() -> GenerationParams {
    GenerationParams {
        max_tokens: 128,
        stop: None,
        tools: Vec::new(),
        max_tool_rounds: None,
        tool_choice: ToolChoice::Auto,
        parallel_tool_calls: None,
    }
}

#[test]
fn tool_choice_and_parallel_flag_in_request_body() {
    for (choice, expect_auto) in [(ToolChoice::Auto, true), (ToolChoice::Function("read".into()), false)] {
        let mut p = params();
        p.tools = vec![ToolDefinition {
            name: "read".into(),
            description: "read".into(),
            parameters: json_of(r#"{"type": "object"}"#),
        }];
        p.tool_choice = choice;
        p.parallel_tool_calls = Some(false);
        let body = chat_request_body("model", &[LlmMessage::plain("user", "hi")], p);
        if expect_auto {
            assert_eq!(text(get(&body, "tool_choice")).as_deref(), Some("auto"));
        } else {
            let c = get(&body, "tool_choice").unwrap();
            assert_eq!(text(get(c, "type")).as_deref(), Some("function"));
            assert_eq!(text(get(get(c, "function").unwrap(), "name")).as_deref(), Some("read"));
        }
        assert!(matches!(get(&body, "parallel_tool_calls"), Some(Json::Bool(false))));
        assert!(matches!(get(&body, "tools"), Some(Json::Array(_))));
        assert!(matches!(get(get(&body, "stream_options").unwrap(), "include_usage"), Some(Json::Bool(true))));
    }
}

#[test]
fn request_body_basics_without_tools() {
    let mut p = params();
    p.stop = Some(vec!["END".into()]);
    let body = chat_request_body("m1", &[LlmMessage::plain("user", "hi")], p);
    assert_eq!(text(get(&body, "model")).as_deref(), Some("m1"));
    assert!(matches!(get(&body, "stream"), Some(Json::Bool(true))));
    assert!(matches!(get(&body, "max_tokens"), Some(Json::Number(Some(128), Some(128)))));
    match get(&body, "stop") {
        Some(Json::Array(a)) => assert_eq!(text(a.first()).as_deref(), Some("END")),
        _ => panic!("stop 应下发"),
    }
    assert!(get(&body, "tools").is_none());
    assert!(get(&body, "tool_choice").is_none());
    let mut empty_stop = params();
    empty_stop.stop = Some(vec![]);
    assert!(get(&chat_request_body("m", &[], empty_stop), "stop").is_none());
}

#[test]
fn urls_and_auth() {
    let c = OpenAiCompatibleConnector::new("https://api.example.com/v1", "sk-1", "gpt");
    assert_eq!(c.chat_completions_url(), "https://api.example.com/v1/chat/completions");
    assert_eq!(c.auth_header().as_deref(), Some("Bearer sk-1"));
    assert_eq!(
        c.model_list_urls(),
        vec!["https://api.example.com/v1/models".to_string(), "https://api.example.com/models".to_string()]
    );
    let d = OpenAiCompatibleConnector::new("http://h", "", "m");
    assert!(d.auth_header().is_none());
    assert_eq!(d.model_list_urls()[1], "http://h/v1/models");
    let e = c.with_model("other");
    assert_eq!(e.model(), "other");
    assert_eq!(e.base_url(), "https://api.example.com/v1");
    assert_eq!(connector_type("openai-compatible"), "openai-compatible");
    assert_eq!(connector_type("anything"), "mock");
}

#[test]
fn model_listing_and_connection_report() {
    let listing = json_of(r#"{"data": [{"id": "a"}, {"x": 1}, {"id": "b"}]}"#);
    assert_eq!(model_ids(Some(&listing)), vec!["a".to_string(), "b".to_string()]);
    assert!(model_ids(None).is_empty());
    let c = OpenAiCompatibleConnector::new("http://h", "k", "cur");
    let ok = c.connection_report(Probe::Answered { status: 200, status_text: "200 OK".into(), body: Some(listing) });
    assert!(ok.ok && !ok.fallback_used);
    assert_eq!(ok.message, "连接成功,可用模型 2 个");
    let fb = c.connection_report(Probe::Answered { status: 200, status_text: "200 OK".into(), body: None });
    assert!(fb.fallback_used);
    assert_eq!(fb.models, vec!["cur".to_string()]);
    assert_eq!(fb.message, "连接成功,但模型列表无效,已回退当前模型");
    let auth = c.connection_report(Probe::Answered { status: 401, status_text: "401 Unauthorized".into(), body: None });
    assert!(!auth.ok && auth.endpoint_reachable && !auth.authenticated);
    let nf = c.connection_report(Probe::Answered { status: 404, status_text: "404 Not Found".into(), body: None });
    assert_eq!(nf.message, "API 端点可达,返回 HTTP 404 Not Found");
    let down = c.connection_report(Probe::Unreachable);
    assert_eq!(down.message, "API 端点不可达");
    assert_eq!(down.http_status, None);
}

#[test]
fn failed_attempts_retry_then_fail() {
    assert!(matches!(after_failed_attempt(1, AttemptFailure::TimedOut), AttemptStep::Retry { .. }));
    match after_failed_attempt(3, AttemptFailure::TimedOut) {
        AttemptStep::Fail(e) => {
            assert_eq!(e.kind, LlmErrorKind::Timeout);
            assert_eq!(e.message, "请求 OpenAI 兼容接口超时(30s)");
        }
        _ => panic!(),
    }
    match after_failed_attempt(
        1,
        AttemptFailure::Status { status: 429, status_text: "429 Too Many Requests".into(), retry_after: Some(2), body: String::new() },
    ) {
        AttemptStep::Retry { delay_ms } => assert_eq!(delay_ms, 2000),
        _ => panic!(),
    }
    match after_failed_attempt(
        1,
        AttemptFailure::Status { status: 401, status_text: "401 Unauthorized".into(), retry_after: None, body: "x".repeat(400) },
    ) {
        AttemptStep::Fail(e) => {
            assert_eq!(e.kind, LlmErrorKind::AuthFailed);
            assert_eq!(e.message.chars().count(), "OpenAI 兼容接口返回 401 Unauthorized: ".chars().count() + 300);
        }
        _ => panic!(),
    }
    match after_failed_attempt(3, AttemptFailure::Transport { kind: LlmErrorKind::Upstream, detail: "boom".into() }) {
        AttemptStep::Fail(e) => assert_eq!(e.message, "请求 OpenAI 兼容接口失败: boom"),
        _ => panic!(),
    }
    assert!(is_retryable_status(503) && !is_retryable_status(404));
    assert!(should_retry(2, true) && !should_retry(3, true) && !should_retry(1, false));
    assert_eq!(retry_delay_with_jitter(1, None, 0), 500);
    assert_eq!(retry_delay_with_jitter(3, None, 10), 2010);
    assert_eq!(retry_delay_with_jitter(9, None, 0), 5000);
    assert_eq!(retry_delay_with_jitter(1, Some(99), 0), 30000);
}

#[test]
fn request_body_holds_no_other_members() {
    let count = |j: &Json| match j {
        Json::Object(es) => es.len(),
        _ => 0,
    };
    assert_eq!(count(&chat_request_body("m", &[LlmMessage::plain("user", "hi")], params())), 5);
    let mut p = params();
    p.stop = Some(vec!["END".into()]);
    p.tools = vec![ToolDefinition { name: "read".into(), description: "read".into(), parameters: Json::Null }];
    p.parallel_tool_calls = Some(true);
    assert_eq!(count(&chat_request_body("m", &[], p)), 9);
}

#[test]
fn tool_choice_and_stream_options_hold_only_their_members() {
    let count = |j: Option<&Json>| match j {
        Some(Json::Object(es)) => es.len(),
        _ => 0,
    };
    let mut p = params();
    p.tools = vec![ToolDefinition { name: "read".into(), description: "read".into(), parameters: Json::Null }];
    p.tool_choice = ToolChoice::Function("read".into());
    let body = chat_request_body("m", &[LlmMessage::plain("user", "hi")], p);
    assert_eq!(count(get(&body, "stream_options")), 1);
    let choice = get(&body, "tool_choice");
    assert_eq!(count(choice), 2);
    assert_eq!(count(choice.and_then(|c| get(c, "function"))), 1);
    match get(&body, "tools") {
        Some(Json::Array(ts)) => {
            assert_eq!(count(ts.first()), 2);
            assert_eq!(count(ts.first().and_then(|t| get(t, "function"))), 3);
        },
        _ => panic!("tools 应下发"),
    }
    match get(&body, "messages") {
        Some(Json::Array(ms)) => assert_eq!(count(ms.first()), 2),
        _ => panic!("messages 应下发"),
    }
}
