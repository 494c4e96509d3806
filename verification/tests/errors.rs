use kedai_server::api::errors::{
    code_for_status, conflict, db_err, err_status, err_with_code, internal, not_found, upstream,
    validation, ErrorCode,
};

#[test]
fn error_code_strings_are_stable_contract() {
    assert_eq!(ErrorCode::Validation.as_str(), "VALIDATION");
    assert_eq!(ErrorCode::Unauthorized.as_str(), "UNAUTHORIZED");
    assert_eq!(ErrorCode::NotFound.as_str(), "NOT_FOUND");
    assert_eq!(ErrorCode::Conflict.as_str(), "CONFLICT");
    assert_eq!(ErrorCode::Db.as_str(), "DB");
    assert_eq!(ErrorCode::Upstream.as_str(), "UPSTREAM");
    assert_eq!(ErrorCode::Internal.as_str(), "INTERNAL");
}

#[test]
fn code_for_status_maps_typical_statuses() {
    assert_eq!(code_for_status(400), ErrorCode::Validation);
    assert_eq!(code_for_status(422), ErrorCode::Validation);
    assert_eq!(code_for_status(401), ErrorCode::Unauthorized);
    assert_eq!(code_for_status(404), ErrorCode::NotFound);
    assert_eq!(code_for_status(409), ErrorCode::Conflict);
    assert_eq!(code_for_status(502), ErrorCode::Upstream);
    assert_eq!(code_for_status(500), ErrorCode::Internal);
}

#[test]
fn err_with_code_carries_code_and_status() {
    let r = err_with_code(ErrorCode::NotFound, "会话不存在", 404);
    assert_eq!(r.status, 404);
    assert_eq!(r.error, "会话不存在");
    assert_eq!(r.code.as_str(), "NOT_FOUND");
}

#[test]
fn err_status_preserves_status_and_message_adds_code() {
    let r = err_status("缺少 session_id", 400);
    assert_eq!(r.status, 400);
    assert_eq!(r.error, "缺少 session_id");
    assert_eq!(r.code, ErrorCode::Validation);
    let r = err_status("我是茶壶", 418);
    assert_eq!(r.status, 418);
    assert_eq!(r.error, "我是茶壶");
    assert_eq!(r.code, ErrorCode::Validation);
}

#[test]
fn semantic_constructors_pair_status_with_code() {
    let v = validation("参数不合法");
    assert_eq!((v.status, v.code), (400, ErrorCode::Validation));
    let n = not_found("会话不存在");
    assert_eq!((n.status, n.code), (404, ErrorCode::NotFound));
    let c = conflict("该会话正在生成中");
    assert_eq!((c.status, c.code), (409, ErrorCode::Conflict));
}

#[test]
fn internal_and_upstream_never_leak_detail() {
    let leaky = "SQLite error: no such column: x (C:\\Users\\ops\\data\\kedai.db)";
    for r in [internal(leaky), upstream(leaky)] {
        assert!(r.status >= 500);
        assert_eq!(r.error, "服务端内部错误,详情见服务端日志");
        for leaked in ["SQLite", "no such column", "C:\\", "kedai.db"] {
            assert!(!r.error.contains(leaked));
        }
    }
}

#[test]
fn db_err_never_leaks_internal_detail() {
    let r = db_err("DB 任务执行失败: SQLite error: no such column: character_id (C:\\Users\\ops\\AppData\\data\\kedai.db)");
    assert_eq!(r.status, 500);
    assert_eq!(r.code.as_str(), "DB");
    assert_eq!(r.error, "数据库操作失败,详情见服务端日志");
}

#[test]
fn err_with_code_validation_and_conflict() {
    let r = err_with_code(ErrorCode::Validation, "缺少 session_id", 400);
    assert_eq!(r.status, 400);
    assert_eq!(r.code.as_str(), "VALIDATION");

    let r = err_with_code(ErrorCode::Conflict, "该会话正在生成中", 409);
    assert_eq!(r.status, 409);
    assert_eq!(r.code.as_str(), "CONFLICT");
}

#[test]
fn db_err_carries_db_code() {
    let r = db_err("连接池耗尽");
    assert_eq!(r.status, 500);
    assert_eq!(r.code.as_str(), "DB");
}
