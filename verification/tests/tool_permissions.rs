use kedai_server::api::tool_permissions::{grant_target, pending_decision, PendingDecision, PermissionBody};

fn body(run: Option<&str>, call: Option<&str>) -> PermissionBody {
    PermissionBody {
        session_id: "s".into(),
        tool: "web_search".into(),
        scope: "once".into(),
        run_id: run.map(Into::into),
        call_id: call.map(Into::into),
        scope_id: None,
    }
}

#[test]
fn pending_call_needs_run_then_call() {
    assert_eq!(body(Some("r"), Some("c")).pending_call().unwrap(), ("r".into(), "c".into()));
    assert_eq!(body(None, None).pending_call().unwrap_err().error, "缺少 run_id");
    assert_eq!(body(Some("r"), None).pending_call().unwrap_err().error, "缺少 call_id");
}

#[test]
fn decisions_and_grant_targets() {
    assert_eq!(pending_decision("once").unwrap(), PendingDecision::AllowOnce);
    assert_eq!(pending_decision("session").unwrap(), PendingDecision::AllowSession);
    assert_eq!(pending_decision("role").unwrap(), PendingDecision::AllowRole);
    assert_eq!(pending_decision("deny").unwrap(), PendingDecision::Deny);
    let e = pending_decision("always").unwrap_err();
    assert_eq!((e.status, e.error.as_str()), (400, "decision 仅支持 once/session/role/deny"));
    assert_eq!(grant_target("session", "s1", "c1").unwrap(), "s1");
    assert_eq!(grant_target("role", "s1", "c1").unwrap(), "c1");
    assert_eq!(grant_target("once", "s1", "c1").unwrap_err().error, "scope 仅支持 session 或 role");
}
