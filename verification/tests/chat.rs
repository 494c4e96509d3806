use kedai_server::api::chat::{
    check_generation_limits, check_raw_request, generate_raw_budget, generate_raw_heal_budget,
    inject_worldbook_for_raw, inject_worldbook_with_roll, message_write, raw_after_attempt,
    raw_attempts, reply_text, required_session_id, run_mode, send_message, send_target,
    GenerateRawMessage, LastMessage, MessageWrite, RawNext, SessionTarget,
    GENERATE_RAW_MAX_TOKENS_LIMIT, GENERATE_RAW_MIN_TOKENS, GENERATE_RAW_RETRY_MAX_TOKENS,
};
use kedai_server::llm::{LlmError, LlmErrorKind, LlmStreamChunk};
use kedai_server::world_book::WorldEntry;

fn entry(comment: &str, keys: Vec<&str>, content: &str, constant: bool, use_regex: bool) -> WorldEntry {
    WorldEntry {
        comment: comment.to_string(),
        keys: keys.into_iter().map(|s| s.to_string()).collect(),
        use_regex,
        content: content.to_string(),
        constant,
        enabled: true,
        depth: 4,
        scan_depth: None,
        case_sensitive: false,
        probability: 100,
        use_probability: false,
        role: None,
    }
}

fn msg(role: &str, content: &str) -> GenerateRawMessage {
    GenerateRawMessage { role: role.to_string(), content: content.to_string() }
}

fn copy(ms: &[GenerateRawMessage]) -> Vec<GenerateRawMessage> {
    ms.iter().map(|m| msg(&m.role, &m.content)).collect()
}

#[test]
fn raw_inject_constant_head_triggered_before_last_user() {
    let entries = vec![
        entry("世界观", vec![], "吸血鬼世界观设定", true, false),
        entry(
            "🔗故事编写🔗",
            vec!["system log"],
            "<response_format_guidance>仅输出一个 JSON</response_format_guidance>",
            false,
            true,
        ),
        entry("无关条目", vec!["火车站"], "不应出现", false, false),
    ];
    let mut messages = vec![
        msg("system", "你是角色扮演模型"),
        msg("assistant", "{\n\t\"thinking\": \"...\",\n\t\"context\": {}\n}\n/* system log(IGNORE the line): continue */"),
        msg("user", "Read the xml tag `<user_input>`."),
    ];
    let injected = inject_worldbook_for_raw(&entries, &mut messages);
    assert_eq!(injected, vec!["世界观", "🔗故事编写🔗"]);
    assert_eq!(messages.len(), 5);
    assert_eq!(messages[0].role, "system");
    assert!(messages[0].content.contains("吸血鬼世界观设定"), "常驻条目置顶");
    assert_eq!(messages[3].role, "system");
    assert!(messages[3].content.contains("response_format_guidance"));
    assert_eq!(messages[4].role, "user");
}

#[test]
fn raw_inject_no_hit_keeps_messages() {
    let mut e = entry("格式", vec!["system log"], "x", false, false);
    let entries = vec![entry("格式", vec!["system log"], "x", false, false)];
    let mut messages = vec![msg("user", "普通对话")];
    let injected = inject_worldbook_for_raw(&entries, &mut messages);
    assert!(injected.is_empty());
    assert_eq!(messages.len(), 1);
    e.enabled = false;
    let mut messages2 = vec![msg("user", "含 system log 字样")];
    assert!(inject_worldbook_for_raw(&[e], &mut messages2).is_empty());
    assert_eq!(messages2.len(), 1);
}

#[test]
fn raw_inject_scan_depth_window_not_entry_depth() {
    let mut e = entry("格式", vec!["system log"], "格式规范", false, false);
    e.depth = 1;
    let messages = vec![
        msg("user", "/* system log(IGNORE the line): */ 开场"),
        msg("user", "Read the xml tag `<user_input>`."),
    ];
    let mut first = copy(&messages);
    assert_eq!(
        inject_worldbook_for_raw(&[e], &mut first).len(),
        1,
        "条目 depth 不得收窄 generate-raw 的扫描窗口"
    );
    let mut narrow = entry("格式", vec!["system log"], "格式规范", false, false);
    narrow.scan_depth = Some(1);
    let mut only_tail = copy(&messages);
    assert!(inject_worldbook_for_raw(&[narrow], &mut only_tail).is_empty());
    let mut all = entry("格式", vec!["system log"], "格式规范", false, false);
    all.scan_depth = Some(0);
    let mut all_msgs = copy(&messages);
    assert_eq!(inject_worldbook_for_raw(&[all], &mut all_msgs).len(), 1);
}

#[test]
fn raw_inject_vampire_card_format_entry_hits() {
    let mut format = entry(
        "[INS]🔗响应格式🔗[FORMAT]",
        vec!["system log"],
        "<response_format_guidance>有且仅有一个 JSON</response_format_guidance>",
        false,
        true,
    );
    format.depth = 1;
    let world = entry("🐧核心叙事🐧", vec![], "常驻世界观", true, false);
    let mut messages = vec![
        msg("user", "/* system log(IGNORE the line): */\n<chat_history>\n## bootstrap_00\n</chat_history>"),
        msg("system", "<current_status>当前暂无历史记录</current_status>"),
        msg("user", "\nRead the xml tag `<user_input>`.\n"),
    ];
    let injected = inject_worldbook_for_raw(&[world, format], &mut messages);
    assert!(
        injected.iter().any(|c| c.contains("响应格式")),
        "格式规范条目必须注入(否则卡片报丢格式):{injected:?}"
    );
}

#[test]
fn raw_budget_applies_structured_floor() {
    assert_eq!(generate_raw_budget(None, 1024), GENERATE_RAW_MIN_TOKENS);
    assert_eq!(generate_raw_budget(None, 10000), 10000);
    assert_eq!(generate_raw_budget(Some(512), 1024), 512);
    assert_eq!(generate_raw_budget(Some(2048), 1024), 2048);
    assert_eq!(generate_raw_budget(Some(0), 1024), 1);
    assert_eq!(generate_raw_budget(Some(u32::MAX), 1024), GENERATE_RAW_MAX_TOKENS_LIMIT);
    assert_eq!(
        generate_raw_budget(None, u32::MAX),
        GENERATE_RAW_MAX_TOKENS_LIMIT,
        "用户设置异常大时同样钳上限"
    );
}

#[test]
fn raw_heal_budget_only_on_length_with_cap_and_round_limit() {
    assert_eq!(
        generate_raw_heal_budget(Some("length"), GENERATE_RAW_MIN_TOKENS, 0),
        Some(GENERATE_RAW_MIN_TOKENS * 2)
    );
    assert_eq!(
        generate_raw_heal_budget(Some("length"), 20000, 1),
        Some(GENERATE_RAW_RETRY_MAX_TOKENS)
    );
    assert_eq!(
        generate_raw_heal_budget(Some("length"), GENERATE_RAW_RETRY_MAX_TOKENS, 0),
        None
    );
    assert_eq!(generate_raw_heal_budget(Some("length"), GENERATE_RAW_MIN_TOKENS, 2), None);
    assert_eq!(generate_raw_heal_budget(Some("stop"), 1024, 0), None);
    assert_eq!(generate_raw_heal_budget(None, 1024, 0), None);
}

#[test]
fn raw_inject_probability_gate_uses_roll() {
    let mut e = entry("概率", vec!["钥匙"], "概率条目", false, false);
    e.use_probability = true;
    e.probability = 30;
    let mut low = vec![msg("user", "拿起钥匙")];
    assert_eq!(inject_worldbook_with_roll(&[e], &mut low, 10).len(), 1);
    let mut e2 = entry("概率", vec!["钥匙"], "概率条目", false, false);
    e2.use_probability = true;
    e2.probability = 30;
    let mut high = vec![msg("user", "拿起钥匙")];
    assert!(inject_worldbook_with_roll(&[e2], &mut high, 30).is_empty());
    assert_eq!(high.len(), 1);
}

#[test]
fn raw_inject_titled_entry_text_and_no_user_appends() {
    let e = entry("标题", vec!["触发"], "  正文  ", false, false);
    let mut ms = vec![msg("assistant", "这里会触发")];
    let injected = inject_worldbook_with_roll(&[e], &mut ms, 0);
    assert_eq!(injected, vec!["标题"]);
    assert_eq!(ms.len(), 2);
    assert_eq!(ms[1].role, "system");
    assert_eq!(ms[1].content, "[标题]\n正文");
}

#[test]
fn raw_inject_case_insensitive_keys() {
    let e = entry("格式", vec!["System Log"], "规范", false, false);
    let mut ms = vec![msg("user", "a SYSTEM LOG line"), msg("user", "末尾")];
    assert_eq!(inject_worldbook_with_roll(&[e], &mut ms, 0).len(), 1);
    assert_eq!(ms[1].role, "system");
    assert_eq!(ms[2].content, "末尾");
}

#[test]
fn raw_request_limits_and_errors() {
    assert_eq!(check_raw_request(&[], None).unwrap_err().error, "messages 不能为空");
    let many: Vec<GenerateRawMessage> = (0..201).map(|_| msg("user", "x")).collect();
    assert_eq!(check_raw_request(&many, None).unwrap_err().error, "messages 过多(上限 200)");
    assert_eq!(
        check_raw_request(&[msg("tool", "x")], None).unwrap_err().error,
        "role 仅支持 system/user/assistant"
    );
    let long = "a".repeat(65537);
    assert_eq!(check_raw_request(&[msg("user", &long)], None).unwrap_err().error, "单条消息过长(上限 64KB)");
    let big = "a".repeat(65536);
    let total: Vec<GenerateRawMessage> = (0..5).map(|_| msg("user", &big)).collect();
    assert_eq!(check_raw_request(&total, None).unwrap_err().error, "消息总长超限(256KB)");
    let e = check_raw_request(&[msg("user", "hi")], Some(0)).unwrap_err();
    assert_eq!(e.error, "max_tokens 非法:必须 ≥ 1,或省略以使用默认预算");
    assert_eq!(e.status, 400);
    assert!(check_raw_request(&[msg("system", "s"), msg("assistant", "a"), msg("user", "u")], Some(10)).is_ok());
}

#[test]
fn raw_retry_state_machine() {
    let truncated = vec![
        LlmStreamChunk::Token("半".into()),
        LlmStreamChunk::Token("截".into()),
        LlmStreamChunk::Finish { reason: "length".into() },
    ];
    let (text, finish) = reply_text(&truncated);
    assert_eq!(text, "半截");
    assert_eq!(finish.as_deref(), Some("length"));
    let s = raw_attempts(GENERATE_RAW_MIN_TOKENS);
    let s = match raw_after_attempt(s, Ok(truncated)) {
        RawNext::Retry(s) => s,
        _ => panic!("截断应重发"),
    };
    assert_eq!(s.budget, 16384);
    assert_eq!(s.heal_rounds, 1);
    assert_eq!(s.last_text.as_deref(), Some("半截"));
    match raw_after_attempt(s, Err(LlmError::new(LlmErrorKind::Upstream, "x".into()))) {
        RawNext::Done(t) => assert_eq!(t, "半截"),
        _ => panic!("失败时回退上一次文本"),
    }
    match raw_after_attempt(raw_attempts(1024), Err(LlmError::generation("y".into()))) {
        RawNext::Fail => {}
        _ => panic!("无历史文本时失败"),
    }
    let done = vec![LlmStreamChunk::Token("完整".into()), LlmStreamChunk::Finish { reason: "stop".into() }];
    match raw_after_attempt(raw_attempts(1024), Ok(done)) {
        RawNext::Done(t) => assert_eq!(t, "完整"),
        _ => panic!("stop 不重发"),
    }
}

#[test]
fn send_checks() {
    assert_eq!(send_message(Some("  你好 ".into())).unwrap(), "你好");
    assert_eq!(send_message(Some("   ".into())).unwrap_err().error, "消息不能为空");
    assert_eq!(send_message(None).unwrap_err().status, 400);
    match send_target(Some("s1".into()), Some("c1".into())).unwrap() {
        SessionTarget::Session(s) => assert_eq!(s, "s1"),
        _ => panic!(),
    }
    match send_target(None, Some("c1".into())).unwrap() {
        SessionTarget::Character(c) => assert_eq!(c, "c1"),
        _ => panic!(),
    }
    assert_eq!(send_target(None, None).unwrap_err().error, "缺少 session_id 或 character_id");
    assert_eq!(run_mode(Some("agent")), "agent");
    assert_eq!(run_mode(Some("deep")), "deep");
    assert_eq!(run_mode(Some("custom")), "custom");
    assert_eq!(run_mode(Some("other")), "fast");
    assert_eq!(run_mode(None), "fast");
    assert!(check_generation_limits(65536, Some(1_048_576)).is_ok());
    assert!(check_generation_limits(0, None).is_err());
    assert!(check_generation_limits(65537, None).is_err());
    assert_eq!(check_generation_limits(1024, Some(0)).unwrap_err().error, "生成参数超出安全上限");
    assert_eq!(required_session_id(Some(" s ".into())).unwrap(), " s ");
    assert_eq!(required_session_id(Some("  ".into())).unwrap_err().error, "缺少 session_id");
}

fn last(id: i64, role: &str, content: &str) -> Option<LastMessage> {
    Some(LastMessage { id, role: role.into(), content: content.into() })
}

#[test]
fn send_anchor_checks() {
    assert_eq!(
        message_write(Some(1), Some(2), last(1, "assistant", "a"), "hi").unwrap_err().error,
        "重生成与重发锚点互斥,不能同时指定"
    );
    match message_write(Some(7), None, last(7, "assistant", "a"), "hi").unwrap() {
        MessageWrite::Regenerate(id) => assert_eq!(id, 7),
        _ => panic!(),
    }
    let e = message_write(Some(7), None, last(7, "user", "a"), "hi").unwrap_err();
    assert_eq!((e.status, e.error.as_str()), (409, "重生成锚点无效或已过期"));
    match message_write(None, Some(3), last(3, "user", "hi"), "hi").unwrap() {
        MessageWrite::Resend(id) => assert_eq!(id, 3),
        _ => panic!(),
    }
    assert_eq!(
        message_write(None, Some(3), last(3, "user", "other"), "hi").unwrap_err().error,
        "重发消息锚点无效或已过期"
    );
    assert!(matches!(message_write(None, None, None, "hi").unwrap(), MessageWrite::Append));
}

#[test]
fn injection_keeps_every_request_message_in_order() {
    let entries = vec![
        entry("常驻", vec![], "always", true, false),
        entry("触发", vec!["dragon"], "lore", false, false),
    ];
    let sent = vec![msg("system", "sys"), msg("user", "a dragon"), msg("assistant", "hi"), msg("user", "again dragon")];
    let mut messages = copy(&sent);
    let titles = inject_worldbook_with_roll(&entries, &mut messages, 0);
    assert_eq!(titles.len(), 2);
    assert_eq!(messages.len(), sent.len() + titles.len());
    let kept: Vec<(String, String)> = messages
        .iter()
        .filter(|m| !(m.role == "system" && m.content.starts_with('[')))
        .map(|m| (m.role.clone(), m.content.clone()))
        .collect();
    let want: Vec<(String, String)> = sent.iter().map(|m| (m.role.clone(), m.content.clone())).collect();
    assert_eq!(kept, want);
}
