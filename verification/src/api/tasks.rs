//! The task endpoints' own logic: the task mode a new task may name, what a
//! follow-up instruction and a planning turn must hold, the states in which
//! they are accepted, and how a failed planning turn is answered.
use vstd::prelude::*;
use crate::api::errors::{bare_error, err_with_code, BareError, ErrorCode, ErrorReply};
use crate::text::{append_chars, chars_of, contains, contains_chars, lit, string_of, trim, trim_chars};

verus! {

broadcast use vstd::string::group_string_axioms;

/// A new task: title, character and task mode.
pub struct CreateTaskBody {
    pub title: String,
    pub character_id: Option<String>,
    pub task_mode: Option<String>,
}

/// An approval of a planned task, with a revised plan that replaces the
/// produced one, or none to approve it as produced.
pub struct ApproveTaskBody<S> {
    pub plan: Option<Vec<S>>,
}

/// A follow-up instruction and how it applies.
pub struct FollowupTaskBody {
    pub content: String,
    pub mode: Option<String>,
}

/// One turn of a planning conversation.
pub struct PlanChatBody {
    pub message: String,
}

/// The run modes a task may name, written exactly.
pub open spec fn task_mode_ok(m: Seq<char>) -> bool {
    m == "legacy"@ || m == "solo"@ || m == "multi"@ || m == "plan"@ || m == "team"@ || m == "custom"@
}

/// The refusal of an unknown task mode.
pub open spec fn unknown_mode_message(m: Seq<char>) -> Seq<char> {
    "未知任务模式:"@ + m + "(可选:legacy/solo/multi/plan/team/custom)"@
}

/// The run mode of a new task: `legacy` when none is named, the named mode
/// when it is one of the six, else a 400 naming it.
pub fn task_run_mode(task_mode: Option<&str>) -> (r: Result<String, BareError>)
    ensures
        match task_mode {
            None => r matches Ok(m) && m@ == "legacy"@,
            Some(s) => if task_mode_ok(s@) {
                r matches Ok(m) && m@ == s@
            } else {
                r matches Err(e) && e.status == 400 && e.error@ == unknown_mode_message(s@)
            },
        },
{
    match task_mode {
        None => Ok("legacy".to_owned()),
        Some(s) => {
            let c = chars_of(s);
            if crate::json::eq_chars(&c, &lit("legacy")) || crate::json::eq_chars(&c, &lit("solo"))
                || crate::json::eq_chars(&c, &lit("multi")) || crate::json::eq_chars(&c, &lit("plan"))
                || crate::json::eq_chars(&c, &lit("team")) || crate::json::eq_chars(&c, &lit("custom")) {
                Ok(s.to_owned())
            } else {
                let mut m = lit("未知任务模式:");
                append_chars(&mut m, &c);
                append_chars(&mut m, &lit("(可选:legacy/solo/multi/plan/team/custom)"));
                let t = string_of(&m);
                Err(bare_error(400, t.as_str()))
            }
        },
    }
}

/// A 400 with code `VALIDATION` and this message.
pub open spec fn validation_reply(e: ErrorReply, msg: Seq<char>) -> bool {
    e.status == 400 && e.code == ErrorCode::Validation && e.error@ == msg
}

/// How a follow-up applies: `append` when none or an empty mode is named,
/// `append` or `replace` as named, else a 400 naming the mode.
pub open spec fn followup_mode_of(mode: Option<Seq<char>>) -> Result<Seq<char>, Seq<char>> {
    match mode {
        None => Ok("append"@),
        Some(m) => if m.len() == 0 || m == "append"@ {
            Ok("append"@)
        } else if m == "replace"@ {
            Ok("replace"@)
        } else {
            Err("未知追加模式:"@ + m + "(可选:append/replace)"@)
        },
    }
}

/// A follow-up instruction: its trimmed content, which must not be empty,
/// and how it applies (see `followup_mode_of`).
pub fn followup_request(content: &str, mode: Option<&str>) -> (r: Result<(String, String), ErrorReply>)
    ensures
        match r {
            Ok((c, m)) => c@ == trim(content@) && c@.len() > 0 && followup_mode_of(crate::api::chat::opt_view(mode))
                == Ok::<Seq<char>, Seq<char>>(m@),
            Err(e) => if trim(content@).len() == 0 {
                validation_reply(e, "追加指令不能为空"@)
            } else {
                followup_mode_of(crate::api::chat::opt_view(mode)) matches Err(msg) && validation_reply(e, msg)
            },
        },
{
    let t = trim_chars(&chars_of(content));
    if t.len() == 0 {
        return Err(err_with_code(ErrorCode::Validation, "追加指令不能为空", 400));
    }
    let m = match mode {
        None => "append".to_owned(),
        Some(s) => {
            let c = chars_of(s);
            if c.len() == 0 || crate::json::eq_chars(&c, &lit("append")) {
                "append".to_owned()
            } else if crate::json::eq_chars(&c, &lit("replace")) {
                "replace".to_owned()
            } else {
                let mut msg = lit("未知追加模式:");
                append_chars(&mut msg, &c);
                append_chars(&mut msg, &lit("(可选:append/replace)"));
                let text = string_of(&msg);
                return Err(err_with_code(ErrorCode::Validation, text.as_str(), 400));
            }
        },
    };
    Ok((string_of(&t), m))
}

/// Whether a follow-up may be added: only to a task in a final state (done,
/// partial, error or ended); any other state is a conflict naming it.
pub fn followup_allowed(final_state: bool, state_name: &str) -> (r: Result<(), ErrorReply>)
    ensures
        final_state ==> r is Ok,
        !final_state ==> (r matches Err(e) && e.status == 409 && e.code == ErrorCode::Conflict && e.error@
            == "仅终态任务可追加指令(当前:"@ + state_name@ + ");执行中请等待或 stop,待批准请走批准/规划对话"@),
{
    if final_state {
        Ok(())
    } else {
        let mut m = lit("仅终态任务可追加指令(当前:");
        append_chars(&mut m, &chars_of(state_name));
        append_chars(&mut m, &lit(");执行中请等待或 stop,待批准请走批准/规划对话"));
        let t = string_of(&m);
        Err(err_with_code(ErrorCode::Conflict, t.as_str(), 409))
    }
}

/// The feedback of a planning turn: trimmed, and not empty.
pub fn plan_chat_message(message: &str) -> (r: Result<String, ErrorReply>)
    ensures
        match r {
            Ok(m) => m@ == trim(message@) && m@.len() > 0,
            Err(e) => trim(message@).len() == 0 && validation_reply(e, "反馈内容不能为空"@),
        },
{
    let t = trim_chars(&chars_of(message));
    if t.len() == 0 {
        Err(err_with_code(ErrorCode::Validation, "反馈内容不能为空", 400))
    } else {
        Ok(string_of(&t))
    }
}

/// Whether a planning turn may be taken: only while the task awaits approval
/// (`planned`); any other state is a conflict naming it.
pub fn plan_chat_allowed(planned: bool, state_name: &str) -> (r: Result<(), ErrorReply>)
    ensures
        planned ==> r is Ok,
        !planned ==> (r matches Err(e) && e.status == 409 && e.code == ErrorCode::Conflict && e.error@
            == "仅待批准(planned)状态的任务可进行规划对话(当前:"@ + state_name@ + ")"@),
{
    if planned {
        Ok(())
    } else {
        let mut m = lit("仅待批准(planned)状态的任务可进行规划对话(当前:");
        append_chars(&mut m, &chars_of(state_name));
        append_chars(&mut m, &lit(")"));
        let t = string_of(&m);
        Err(err_with_code(ErrorCode::Conflict, t.as_str(), 409))
    }
}

/// The answer to a failed planning turn: a stopped task or one no longer
/// awaiting approval is a conflict, anything else an upstream failure; the
/// message is passed on.
pub fn plan_chat_failure(error: &str) -> (r: ErrorReply)
    ensures
        r.error@ == error@,
        if contains(error@, "任务已停止"@) || contains(error@, "仅待批准"@) {
            r.status == 409 && r.code == ErrorCode::Conflict
        } else {
            r.status == 502 && r.code == ErrorCode::Upstream
        },
{
    let c = chars_of(error);
    if contains_chars(&c, &lit("任务已停止")) || contains_chars(&c, &lit("仅待批准")) {
        err_with_code(ErrorCode::Conflict, error, 409)
    } else {
        err_with_code(ErrorCode::Upstream, error, 502)
    }
}

} // verus!
