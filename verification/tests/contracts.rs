use kedai_server::api::contracts::{changelog_warning, contract_body_check, delete_step, put_source, ChangeSource, DeleteStep};
use kedai_server::api::quick_replies::ListQuery;
use kedai_server::json::parse_json;

#[test]
fn contracts_must_be_objects() {
    let j = |t: &str| parse_json(&t.chars().collect()).unwrap();
    assert!(contract_body_check(&j(r#"{"version":1}"#)).is_ok());
    let e = contract_body_check(&j("[1]")).unwrap_err();
    assert_eq!((e.status, e.error.as_str()), (400, "契约必须是 JSON 对象"));
}

#[test]
fn delete_without_contract_changes_nothing() {
    assert_eq!(delete_step(false, true), DeleteStep::NothingToRemove);
    assert_eq!(delete_step(false, false), DeleteStep::NotFound);
    assert_eq!(delete_step(true, true), DeleteStep::Remove);
    assert_eq!(put_source(false), ChangeSource::ContractInit);
    assert_eq!(put_source(true), ChangeSource::Manual);
    assert_eq!(changelog_warning(false, "disk full"), "契约已更新,但变更历史写入失败: disk full");
    assert_eq!(changelog_warning(true, "x"), "契约已移除,但变更历史写入失败: x");
}

#[test]
fn quick_reply_listing_filter() {
    assert!(ListQuery { all: None }.only_enabled());
    assert!(ListQuery { all: Some(false) }.only_enabled());
    assert!(!ListQuery { all: Some(true) }.only_enabled());
}
