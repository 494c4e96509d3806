use kedai_server::api::contract_history::{restorable, rollback_seq, HistoryQuery};
use kedai_server::api::errors::ErrorCode;
use kedai_server::api::exec_audit::AuditQuery;
use kedai_server::api::kaleido::{patches_check, writer_of, ChangelogQuery};
use kedai_server::json::parse_json;

fn body(t: &str) -> kedai_server::json::Json {
    parse_json(&t.chars().collect()).unwrap()
}

#[test]
fn rollback_needs_an_integer_seq() {
    assert_eq!(rollback_seq(&body(r#"{"seq": 3}"#)).unwrap(), 3);
    for bad in [r#"{"seq": "3"}"#, r#"{"seq": 1.5}"#, r#"{}"#, "[3]"] {
        let e = rollback_seq(&body(bad)).unwrap_err();
        assert_eq!((e.status, e.error.as_str(), e.code), (400, "请求体必须包含整数 seq", ErrorCode::Validation));
    }
    assert!(restorable(true).is_ok());
    let e = restorable(false).unwrap_err();
    assert_eq!((e.status, e.error.as_str()), (422, "该记录无可恢复内容"));
}

#[test]
fn listing_lengths_and_changelog_checks() {
    assert_eq!(HistoryQuery { limit: None }.limit_or_default(), 50);
    assert_eq!(HistoryQuery { limit: Some(7) }.limit_or_default(), 7);
    assert_eq!(AuditQuery { limit: None, source: None, risk: None }.limit_or_default(), 100);
    assert_eq!(ChangelogQuery { session_id: Some("s".into()), limit: None }.listing().unwrap(), ("s".into(), 50));
    assert_eq!(ChangelogQuery { session_id: None, limit: Some(5) }.listing().unwrap_err().error, "缺少 session_id 查询参数");
    assert_eq!(patches_check(0).unwrap_err().error, "patches 不能为空");
    assert!(patches_check(2).is_ok());
    assert_eq!(writer_of(None), "external");
    assert_eq!(writer_of(Some("tool".into())), "tool");
}
