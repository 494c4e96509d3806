//! The agent endpoints' own logic: the plan preview's message and mode, the
//! readiness of a custom flow, and the answer of the unimplemented execute.
use vstd::prelude::*;
use crate::api::chat::{bad_request, text_or_empty};
use crate::api::errors::{err_status, validation, ErrorCode, ErrorReply};
use crate::text::{chars_of, string_of, trim, trim_chars};

verus! {

broadcast use vstd::string::group_string_axioms;

/// The body of a plan preview: the message, the agent mode and the session.
pub struct PlanBody {
    pub message: Option<String>,
    pub agent_mode: Option<String>,
    pub session_id: Option<String>,
}

/// A body naming a session.
pub struct SessionBody {
    pub session_id: Option<String>,
}

/// The message of a plan preview: the trimmed message, which must not be
/// empty (a missing one counts as empty).
pub fn plan_message(message: Option<String>) -> (r: Result<String, ErrorReply>)
    ensures
        match r {
            Ok(m) => m@ == trim(text_or_empty(message)) && m@.len() > 0,
            Err(e) => trim(text_or_empty(message)).len() == 0 && bad_request(e, "缺少 message"@),
        },
{
    let raw = match &message {
        Some(m) => chars_of(m.as_str()),
        None => Vec::new(),
    };
    let t = trim_chars(&raw);
    if t.len() == 0 {
        Err(validation("缺少 message"))
    } else {
        Ok(string_of(&t))
    }
}

/// Whether a custom plan can be made: a flow must be selected and enabled.
pub fn custom_flow_ready(selected: bool, enabled: bool) -> (r: Result<(), ErrorReply>)
    ensures
        selected && enabled ==> r is Ok,
        !selected ==> (r matches Err(e) && bad_request(e, "未选择执行流程:请先在设置中新建或选择一个 Agent 执行流程"@)),
        selected && !enabled ==> (r matches Err(e) && bad_request(e, "自定义模式需要先在设置中启用并保存执行流程"@)),
{
    if !selected {
        Err(validation("未选择执行流程:请先在设置中新建或选择一个 Agent 执行流程"))
    } else if !enabled {
        Err(validation("自定义模式需要先在设置中启用并保存执行流程"))
    } else {
        Ok(())
    }
}

/// The answer of the execute endpoint, which is not implemented: 501 with a
/// pointer to the chat endpoint.
pub fn execute_not_implemented() -> (r: ErrorReply)
    ensures
        r.status == 501,
        r.error@ == "该接口尚未实现,请使用 /api/chat/send"@,
        r.code == ErrorCode::Internal,
{
    err_status("该接口尚未实现,请使用 /api/chat/send", 501)
}

} // verus!
