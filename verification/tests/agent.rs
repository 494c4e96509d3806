use kedai_server::api::agent::{custom_flow_ready, execute_not_implemented, plan_message};
use kedai_server::api::diagnostics::{latest_prompt_tokens, CacheQuery};
use kedai_server::api::errors::ErrorCode;
use kedai_server::api::json_body::{invalid_json_reply, JsonBody};

#[test]
fn plan_message_is_trimmed_and_required() {
    assert_eq!(plan_message(Some("  写一段开场  ".into())).unwrap(), "写一段开场");
    let e = plan_message(Some("   ".into())).unwrap_err();
    assert_eq!((e.status, e.error.as_str(), e.code), (400, "缺少 message", ErrorCode::Validation));
    assert_eq!(plan_message(None).unwrap_err().error, "缺少 message");
}

#[test]
fn custom_flow_needs_selection_then_enabling() {
    assert!(custom_flow_ready(true, true).is_ok());
    assert_eq!(
        custom_flow_ready(false, true).unwrap_err().error,
        "未选择执行流程:请先在设置中新建或选择一个 Agent 执行流程"
    );
    let e = custom_flow_ready(true, false).unwrap_err();
    assert_eq!((e.status, e.error.as_str()), (400, "自定义模式需要先在设置中启用并保存执行流程"));
}

#[test]
fn execute_is_not_implemented() {
    let e = execute_not_implemented();
    assert_eq!((e.status, e.error.as_str(), e.code), (501, "该接口尚未实现,请使用 /api/chat/send", ErrorCode::Internal));
}

#[test]
fn cache_window_defaults_and_clamps() {
    let q = |w| CacheQuery { session_id: None, window: w };
    assert_eq!(q(None).window_size(), 20);
    assert_eq!(q(Some(0)).window_size(), 1);
    assert_eq!(q(Some(77)).window_size(), 77);
    assert_eq!(q(Some(10_000)).window_size(), 500);
    assert_eq!(latest_prompt_tokens(&[]), 0);
    assert_eq!(latest_prompt_tokens(&[10, 30, 20]), 20);
}

#[test]
fn malformed_json_answer_is_validation_400() {
    let e = invalid_json_reply();
    assert_eq!((e.status, e.error.as_str(), e.code), (400, "请求体不是合法 JSON,请检查字段格式", ErrorCode::Validation));
    let JsonBody(v) = JsonBody(5u8);
    assert_eq!(v, 5);
}
