use kedai_server::api::errors::ErrorCode;
use kedai_server::api::user_scripts::{grant_check, AuthorizationQuery, GrantRefusal, TreeQuery};

#[test]
fn tree_scope_and_owner() {
    let t = |s: Option<&str>, c: Option<&str>| TreeQuery { scope: s.map(Into::into), character_id: c.map(Into::into) };
    assert_eq!(t(None, None).owner().unwrap(), ("global".into(), "".into()));
    assert_eq!(t(Some("character"), Some("c1")).owner().unwrap(), ("character".into(), "c1".into()));
    assert_eq!(t(Some("character"), Some("")).owner().unwrap_err().error, "角色级脚本需指定 character_id");
    let e = t(Some("preset"), None).owner().unwrap_err();
    assert_eq!((e.status, e.error.as_str()), (400, "未知脚本作用域: preset(仅支持 global/character)"));
}

#[test]
fn authorizations() {
    assert_eq!(AuthorizationQuery { character_id: Some("c".into()) }.character().unwrap(), "c");
    assert_eq!(AuthorizationQuery { character_id: None }.character().unwrap_err().error, "需指定 character_id");
    assert!(grant_check("abc", "abc").is_ok());
    match grant_check("", "abc") {
        Err(GrantRefusal::NoScripts(e)) => assert_eq!(e.error, "该角色没有可授权的启用脚本"),
        _ => panic!(),
    }
    match grant_check("new", "old") {
        Err(GrantRefusal::Stale { reply, current_hash }) => {
            assert_eq!((reply.status, reply.code, current_hash.as_str()), (409, ErrorCode::Conflict, "new"));
        }
        _ => panic!(),
    }
}
