use kedai_server::api::errors::ErrorCode;
use kedai_server::api::memory::{distill_session, memory_content_ok, memory_owner, SearchQuery};

#[test]
fn owner_is_trimmed_and_required() {
    assert_eq!(memory_owner(Some("  c1 ")).unwrap(), "c1");
    let e = memory_owner(Some("  ")).unwrap_err();
    assert_eq!((e.status, e.error.as_str(), e.code), (400, "缺少 character_id", ErrorCode::Validation));
    assert_eq!(memory_owner(None).unwrap_err().error, "缺少 character_id");
}

#[test]
fn search_needs_character_then_query_and_clamps_limit() {
    let q = |c: Option<&str>, t: Option<&str>, l| SearchQuery { character_id: c.map(Into::into), q: t.map(Into::into), limit: l };
    assert_eq!(q(Some(" c "), Some(" 龙 "), None).request().unwrap(), ("c".into(), "龙".into(), 20));
    assert_eq!(q(Some("c"), Some("x"), Some(0)).request().unwrap().2, 1);
    assert_eq!(q(Some("c"), Some("x"), Some(1000)).request().unwrap().2, 100);
    assert_eq!(q(None, None, None).request().unwrap_err().error, "缺少 character_id");
    assert_eq!(q(Some("c"), Some(" "), None).request().unwrap_err().error, "缺少 q");
}

#[test]
fn content_and_distillation_checks() {
    assert!(memory_content_ok("记得她怕黑").is_ok());
    assert_eq!(memory_content_ok(" \n").unwrap_err().error, "记忆内容不能为空");
    assert_eq!(
        distill_session(false, "s1").unwrap_err().error,
        "跨会话记忆蒸馏未开启,请先在设置中打开 memory_distill_enabled"
    );
    assert_eq!(distill_session(true, " s1 ").unwrap(), "s1");
    assert_eq!(distill_session(true, "").unwrap_err().error, "缺少 session_id");
}
