use kedai_server::api::chat::{send_checks, FlowFacts, LastMessage, MessageWrite, SessionTarget};
use kedai_server::api::errors::ErrorCode;

fn flow() -> FlowFacts {
    FlowFacts { selected: true, enabled_with_steps: true, invalid: None }
}

fn last(id: i64, role: &str, content: &str) -> Option<LastMessage> {
    Some(LastMessage { id, role: role.into(), content: content.into() })
}

#[allow(clippy::too_many_arguments)]
fn run(
    message: Option<&str>,
    session: Option<&str>,
    character: Option<&str>,
    mode: Option<&str>,
    found: bool,
    generating: bool,
    flow: &FlowFacts,
    max_tokens: u32,
    regen: Option<i64>,
    resend: Option<i64>,
    last_msg: Option<LastMessage>,
) -> Result<kedai_server::api::chat::SendPlan, (u16, String, ErrorCode)> {
    send_checks(
        message.map(String::from),
        session.map(String::from),
        character.map(String::from),
        mode,
        found,
        generating,
        flow,
        max_tokens,
        Some(131072),
        regen,
        resend,
        last_msg,
    )
    .map_err(|e| (e.status, e.error, e.code))
}

#[test]
fn send_plan_carries_trimmed_message_target_and_mode() {
    let plan = run(Some("  你好 "), Some("s1"), None, Some("deep"), true, false, &flow(), 1024, None, None, None).unwrap();
    assert_eq!(plan.message, "你好");
    assert!(matches!(plan.target, SessionTarget::Session(ref s) if s == "s1"));
    assert_eq!(plan.mode, "deep");
    assert!(matches!(plan.write, MessageWrite::Append));
    let plan = run(Some("x"), None, Some("c1"), Some("bogus"), true, false, &flow(), 1024, None, None, None).unwrap();
    assert!(matches!(plan.target, SessionTarget::Character(ref c) if c == "c1"));
    assert_eq!(plan.mode, "fast");
}

#[test]
fn send_first_failing_check_decides() {
    // A blank message wins over every later problem.
    let e = run(Some("  "), None, None, None, false, true, &flow(), 0, Some(1), Some(2), None).unwrap_err();
    assert_eq!((e.0, e.1.as_str(), e.2), (400, "消息不能为空", ErrorCode::Validation));
    let e = run(Some("x"), None, None, None, false, true, &flow(), 0, None, None, None).unwrap_err();
    assert_eq!((e.0, e.1.as_str()), (400, "缺少 session_id 或 character_id"));
    let e = run(Some("x"), Some("s"), None, None, false, true, &flow(), 0, None, None, None).unwrap_err();
    assert_eq!((e.0, e.1.as_str(), e.2), (404, "会话不存在", ErrorCode::NotFound));
    let e = run(Some("x"), Some("s"), None, None, true, true, &flow(), 0, None, None, None).unwrap_err();
    assert_eq!((e.0, e.1.as_str(), e.2), (409, "该会话正在生成中", ErrorCode::Conflict));
    let e = run(Some("x"), Some("s"), None, None, true, false, &flow(), 0, Some(1), Some(2), None).unwrap_err();
    assert_eq!((e.0, e.1.as_str()), (400, "生成参数超出安全上限"));
    let e = run(Some("x"), Some("s"), None, None, true, false, &flow(), 1024, Some(1), Some(2), None).unwrap_err();
    assert_eq!((e.0, e.1.as_str()), (400, "重生成与重发锚点互斥,不能同时指定"));
}

#[test]
fn send_custom_mode_needs_a_usable_flow() {
    let none = FlowFacts { selected: false, enabled_with_steps: false, invalid: None };
    let e = run(Some("x"), Some("s"), None, Some("custom"), true, false, &none, 1024, None, None, None).unwrap_err();
    assert_eq!(e.1, "未选择执行流程:请先在设置中新建或选择一个 Agent 执行流程");
    let off = FlowFacts { selected: true, enabled_with_steps: false, invalid: None };
    let e = run(Some("x"), Some("s"), None, Some("custom"), true, false, &off, 1024, None, None, None).unwrap_err();
    assert_eq!(e.1, "自定义模式需要先在设置中启用并保存执行流程");
    let bad = FlowFacts { selected: true, enabled_with_steps: true, invalid: Some("步骤 2 缺少指令".into()) };
    let e = run(Some("x"), Some("s"), None, Some("custom"), true, false, &bad, 1024, None, None, None).unwrap_err();
    assert_eq!(e.1, "执行流程配置无效:步骤 2 缺少指令");
    // Outside custom mode the flow is not looked at.
    assert!(run(Some("x"), Some("s"), None, Some("agent"), true, false, &bad, 1024, None, None, None).is_ok());
}

#[test]
fn send_anchors_must_match_the_last_message() {
    let plan = run(Some("x"), Some("s"), None, None, true, false, &flow(), 1024, Some(7), None, last(7, "assistant", "a"))
        .unwrap();
    assert!(matches!(plan.write, MessageWrite::Regenerate(7)));
    let e = run(Some("x"), Some("s"), None, None, true, false, &flow(), 1024, Some(7), None, last(7, "user", "a"))
        .unwrap_err();
    assert_eq!((e.0, e.1.as_str()), (409, "重生成锚点无效或已过期"));
    let plan = run(Some(" hi "), Some("s"), None, None, true, false, &flow(), 1024, None, Some(3), last(3, "user", "hi"))
        .unwrap();
    assert!(matches!(plan.write, MessageWrite::Resend(3)));
    let e = run(Some("hi"), Some("s"), None, None, true, false, &flow(), 1024, None, Some(3), last(3, "user", "other"))
        .unwrap_err();
    assert_eq!((e.0, e.1.as_str()), (409, "重发消息锚点无效或已过期"));
}
