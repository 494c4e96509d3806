//! The tool-permission endpoints' own logic: what a pending authorization is
//! answered with, and which session or character a grant is bound to.
use vstd::prelude::*;
use crate::api::chat::bad_request;
use crate::api::errors::{validation, ErrorReply};
use crate::text::{chars_of, lit};

verus! {

broadcast use vstd::string::group_string_axioms;

/// The session and character whose permissions are read.
pub struct PermissionQuery {
    pub session_id: String,
    pub character_id: Option<String>,
}

/// A permission change of a tool in a scope.
pub struct PermissionBody {
    pub session_id: String,
    pub tool: String,
    pub scope: String,
    pub run_id: Option<String>,
    pub call_id: Option<String>,
    pub scope_id: Option<String>,
}

/// The answer to a tool call waiting for authorization.
#[derive(Debug, Clone, Copy, PartialEq, Eq, Structural)]
pub enum PendingDecision {
    AllowOnce,
    AllowSession,
    AllowRole,
    Deny,
}

impl PermissionBody {
    /// The run and call a pending authorization belongs to, both required
    /// (the run first).
    pub fn pending_call(&self) -> (r: Result<(String, String), ErrorReply>)
        ensures
            match (self.run_id, self.call_id) {
                (Some(run), Some(call)) => r matches Ok((a, b)) && a@ == run@ && b@ == call@,
                (None, _) => r matches Err(e) && bad_request(e, "缺少 run_id"@),
                (Some(_), None) => r matches Err(e) && bad_request(e, "缺少 call_id"@),
            },
    {
        match &self.run_id {
            None => Err(validation("缺少 run_id")),
            Some(run) => match &self.call_id {
                None => Err(validation("缺少 call_id")),
                Some(call) => Ok((run.clone(), call.clone())),
            },
        }
    }
}

/// The answer a scope names: `once`, `session`, `role` or `deny`.
pub open spec fn decision_of(scope: Seq<char>) -> Option<PendingDecision> {
    if scope == "once"@ {
        Some(PendingDecision::AllowOnce)
    } else if scope == "session"@ {
        Some(PendingDecision::AllowSession)
    } else if scope == "role"@ {
        Some(PendingDecision::AllowRole)
    } else if scope == "deny"@ {
        Some(PendingDecision::Deny)
    } else {
        None
    }
}

/// The answer to a pending authorization (see `decision_of`); any other
/// scope is refused.
pub fn pending_decision(scope: &str) -> (r: Result<PendingDecision, ErrorReply>)
    ensures
        match decision_of(scope@) {
            Some(d) => r == Ok::<PendingDecision, ErrorReply>(d),
            None => r matches Err(e) && bad_request(e, "decision 仅支持 once/session/role/deny"@),
        },
{
    let s = chars_of(scope);
    if crate::json::eq_chars(&s, &lit("once")) {
        Ok(PendingDecision::AllowOnce)
    } else if crate::json::eq_chars(&s, &lit("session")) {
        Ok(PendingDecision::AllowSession)
    } else if crate::json::eq_chars(&s, &lit("role")) {
        Ok(PendingDecision::AllowRole)
    } else if crate::json::eq_chars(&s, &lit("deny")) {
        Ok(PendingDecision::Deny)
    } else {
        Err(validation("decision 仅支持 once/session/role/deny"))
    }
}

/// What a standing grant is bound to: the session for scope `session`, the
/// session's character for scope `role`; any other scope is refused.
pub fn grant_target(scope: &str, session_id: &str, character_id: &str) -> (r: Result<String, ErrorReply>)
    ensures
        scope@ == "session"@ ==> (r matches Ok(t) && t@ == session_id@),
        scope@ == "role"@ ==> (r matches Ok(t) && t@ == character_id@),
        scope@ != "session"@ && scope@ != "role"@ ==> (r matches Err(e) && bad_request(e, "scope 仅支持 session 或 role"@)),
{
    proof {
        reveal_strlit("session");
        reveal_strlit("role");
        assert("session"@.len() != "role"@.len());
    }
    let s = chars_of(scope);
    if crate::json::eq_chars(&s, &lit("session")) {
        Ok(session_id.to_owned())
    } else if crate::json::eq_chars(&s, &lit("role")) {
        Ok(character_id.to_owned())
    } else {
        Err(validation("scope 仅支持 session 或 role"))
    }
}

} // verus!
