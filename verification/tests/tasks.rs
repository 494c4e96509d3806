use kedai_server::api::errors::ErrorCode;
use kedai_server::api::tasks::{
    followup_allowed, followup_request, plan_chat_allowed, plan_chat_failure, plan_chat_message, task_run_mode,
};

#[test]
fn task_modes_are_strict() {
    assert_eq!(task_run_mode(None).unwrap(), "legacy");
    for m in ["legacy", "solo", "multi", "plan", "team", "custom"] {
        assert_eq!(task_run_mode(Some(m)).unwrap(), m);
    }
    let e = task_run_mode(Some("Solo")).unwrap_err();
    assert_eq!(e.status, 400);
    assert_eq!(e.error, "未知任务模式:Solo(可选:legacy/solo/multi/plan/team/custom)");
}

#[test]
fn followup_requests() {
    assert_eq!(followup_request("  再润色一遍 ", None).unwrap(), ("再润色一遍".to_string(), "append".to_string()));
    assert_eq!(followup_request("x", Some("")).unwrap().1, "append");
    assert_eq!(followup_request("x", Some("replace")).unwrap().1, "replace");
    let e = followup_request("   ", Some("replace")).unwrap_err();
    assert_eq!((e.status, e.error.as_str(), e.code), (400, "追加指令不能为空", ErrorCode::Validation));
    let e = followup_request("x", Some("merge")).unwrap_err();
    assert_eq!(e.error, "未知追加模式:merge(可选:append/replace)");
    assert!(followup_allowed(true, "done").is_ok());
    let e = followup_allowed(false, "running").unwrap_err();
    assert_eq!(e.status, 409);
    assert_eq!(e.error, "仅终态任务可追加指令(当前:running);执行中请等待或 stop,待批准请走批准/规划对话");
}

#[test]
fn planning_turns() {
    assert_eq!(plan_chat_message(" 第二步拆开 ").unwrap(), "第二步拆开");
    assert_eq!(plan_chat_message(" ").unwrap_err().error, "反馈内容不能为空");
    assert!(plan_chat_allowed(true, "planned").is_ok());
    assert_eq!(plan_chat_allowed(false, "done").unwrap_err().error, "仅待批准(planned)状态的任务可进行规划对话(当前:done)");
    let e = plan_chat_failure("任务已停止,无法继续");
    assert_eq!((e.status, e.code), (409, ErrorCode::Conflict));
    let e = plan_chat_failure("模型超时");
    assert_eq!((e.status, e.code, e.error.as_str()), (502, ErrorCode::Upstream, "模型超时"));
}
