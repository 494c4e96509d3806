use kedai_server::api::tokens::{usage_totals, TokenCountBody};
use kedai_server::api::variables::{parse_scope, write_scope, VarScope, VariablesQuery};
use kedai_server::llm::LlmMessage;

#[test]
fn scopes_by_name() {
    let all = [
        ("global", VarScope::Global),
        ("chat", VarScope::Chat),
        ("character", VarScope::Character),
        ("preset", VarScope::Preset),
        ("message", VarScope::Message),
        ("script", VarScope::Script),
        ("extension", VarScope::Extension),
    ];
    for (name, s) in all {
        assert_eq!(parse_scope(name).unwrap(), s);
        assert_eq!(s.as_str(), name);
    }
    let e = parse_scope("Chat").unwrap_err();
    assert_eq!((e.status, e.error.as_str()), (400, "scope 须为 global|chat|character|preset|message|script|extension"));
    assert!(write_scope(None).is_err());
    assert_eq!(write_scope(Some("preset")).unwrap(), VarScope::Preset);
}

#[test]
fn read_targets() {
    let q = |sid: Option<&str>, scope: Option<&str>, id: Option<&str>| VariablesQuery {
        session_id: sid.map(Into::into),
        scope: scope.map(Into::into),
        scope_id: id.map(Into::into),
    };
    assert_eq!(q(Some("s"), None, None).read_target().unwrap(), ("s".into(), VarScope::Chat, "".into()));
    assert_eq!(q(Some("s"), Some("message"), Some("12")).read_target().unwrap(), ("s".into(), VarScope::Message, "12".into()));
    assert_eq!(q(None, None, None).read_target().unwrap_err().error, "缺少 session_id 查询参数");
    assert!(q(Some("s"), Some("bogus"), None).read_target().is_err());
}

#[test]
fn token_counts_and_totals() {
    assert_eq!(TokenCountBody { messages: vec![], model: None }.check().unwrap_err().error, "缺少 messages 数组");
    assert!(TokenCountBody { messages: vec![LlmMessage::plain("user", "hi")], model: None }.check().is_ok());
    assert_eq!(usage_totals(None), (0, 0, 0));
    assert_eq!(usage_totals(Some((10, 5, 15))), (10, 5, 15));
}
