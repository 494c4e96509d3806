//! Structured API error codes and the error replies built from them: every
//! error reply carries an HTTP status, a message and a stable code; replies
//! for server-side failures never carry the internal detail.
use vstd::prelude::*;

verus! {

/// The `code` field of an error reply (a stable contract with the front end).
#[derive(Debug, Clone, Copy, PartialEq, Eq, Structural)]
pub enum ErrorCode {
    /// Missing or invalid parameters (400; also the 422 of semantic checks).
    Validation,
    /// Missing or invalid credentials (401).
    Unauthorized,
    /// A resource that does not exist (404).
    NotFound,
    /// A state conflict, such as a session that is already generating (409).
    Conflict,
    /// A database or blocking-task failure (500).
    Db,
    /// A failure of the upstream model service (502).
    Upstream,
    /// Any other internal failure (500).
    Internal,
}

/// The wire string of a code.
pub open spec fn code_name(c: ErrorCode) -> Seq<char> {
    match c {
        ErrorCode::Validation => "VALIDATION"@,
        ErrorCode::Unauthorized => "UNAUTHORIZED"@,
        ErrorCode::NotFound => "NOT_FOUND"@,
        ErrorCode::Conflict => "CONFLICT"@,
        ErrorCode::Db => "DB"@,
        ErrorCode::Upstream => "UPSTREAM"@,
        ErrorCode::Internal => "INTERNAL"@,
    }
}

impl ErrorCode {
    /// The value of the reply's `code` field.
    pub fn as_str(self) -> (r: &'static str)
        ensures
            r@ == code_name(self),
    {
        match self {
            ErrorCode::Validation => "VALIDATION",
            ErrorCode::Unauthorized => "UNAUTHORIZED",
            ErrorCode::NotFound => "NOT_FOUND",
            ErrorCode::Conflict => "CONFLICT",
            ErrorCode::Db => "DB",
            ErrorCode::Upstream => "UPSTREAM",
            ErrorCode::Internal => "INTERNAL",
        }
    }
}

/// The code that a bare HTTP status implies: 400 validation, 401
/// unauthorized, 404 not found, 409 conflict, 502 upstream, any other 4xx
/// validation, everything else internal.
pub open spec fn status_code(status: u16) -> ErrorCode {
    if status == 400 {
        ErrorCode::Validation
    } else if status == 401 {
        ErrorCode::Unauthorized
    } else if status == 404 {
        ErrorCode::NotFound
    } else if status == 409 {
        ErrorCode::Conflict
    } else if status == 502 {
        ErrorCode::Upstream
    } else if 400 <= status <= 499 {
        ErrorCode::Validation
    } else {
        ErrorCode::Internal
    }
}

/// The default code for an HTTP status.
pub fn code_for_status(status: u16) -> (r: ErrorCode)
    ensures
        r == status_code(status),
{
    if status == 400 {
        ErrorCode::Validation
    } else if status == 401 {
        ErrorCode::Unauthorized
    } else if status == 404 {
        ErrorCode::NotFound
    } else if status == 409 {
        ErrorCode::Conflict
    } else if status == 502 {
        ErrorCode::Upstream
    } else if 400 <= status && status <= 499 {
        ErrorCode::Validation
    } else {
        ErrorCode::Internal
    }
}

/// An error reply: HTTP status and the JSON body `{ "error": error, "code": code }`.
#[derive(Debug)]
pub struct ErrorReply {
    pub status: u16,
    pub error: String,
    pub code: ErrorCode,
}

/// An error reply with only a message: HTTP status and the JSON body `{ "error": error }`.
#[derive(Debug)]
pub struct BareError {
    pub status: u16,
    pub error: String,
}

/// A bare error reply.
pub fn bare_error(status: u16, msg: &str) -> (r: BareError)
    ensures
        r.status == status,
        r.error@ == msg@,
{
    BareError { status, error: msg.to_owned() }
}

/// The fixed message of server-side failures; the detail goes to the log only.
pub open spec fn server_error_message() -> Seq<char> {
    "服务端内部错误,详情见服务端日志"@
}

/// A reply with the given code, message and status.
pub fn err_with_code(code: ErrorCode, msg: &str, status: u16) -> (r: ErrorReply)
    ensures
        r.status == status,
        r.error@ == msg@,
        r.code == code,
{
    ErrorReply { status, error: msg.to_owned(), code }
}

/// A reply whose code is implied by the status; the message is passed through.
pub fn err_status(msg: &str, status: u16) -> (r: ErrorReply)
    ensures
        r.status == status,
        r.error@ == msg@,
        r.code == status_code(status),
{
    err_with_code(code_for_status(status), msg, status)
}

/// 400 with code `VALIDATION`.
pub fn validation(msg: &str) -> (r: ErrorReply)
    ensures
        r.status == 400,
        r.error@ == msg@,
        r.code == ErrorCode::Validation,
{
    err_with_code(ErrorCode::Validation, msg, 400)
}

/// 404 with code `NOT_FOUND`.
pub fn not_found(msg: &str) -> (r: ErrorReply)
    ensures
        r.status == 404,
        r.error@ == msg@,
        r.code == ErrorCode::NotFound,
{
    err_with_code(ErrorCode::NotFound, msg, 404)
}

/// 409 with code `CONFLICT`.
pub fn conflict(msg: &str) -> (r: ErrorReply)
    ensures
        r.status == 409,
        r.error@ == msg@,
        r.code == ErrorCode::Conflict,
{
    err_with_code(ErrorCode::Conflict, msg, 409)
}

/// 500 with code `INTERNAL`; the reply carries the fixed message whatever
/// `detail` says (the caller logs the detail).
pub fn internal(detail: &str) -> (r: ErrorReply)
    ensures
        r.status == 500,
        r.error@ == server_error_message(),
        r.code == ErrorCode::Internal,
{
    err_with_code(ErrorCode::Internal, "服务端内部错误,详情见服务端日志", 500)
}

/// 502 with code `UPSTREAM`; the reply carries the fixed message whatever
/// `detail` says (the caller logs the detail).
pub fn upstream(detail: &str) -> (r: ErrorReply)
    ensures
        r.status == 502,
        r.error@ == server_error_message(),
        r.code == ErrorCode::Upstream,
{
    err_with_code(ErrorCode::Upstream, "服务端内部错误,详情见服务端日志", 502)
}

/// The reply of the database-failure exit: 500 with code `DB`, the fixed
/// database message whatever the detail.
pub fn db_err(detail: &str) -> (r: ErrorReply)
    ensures
        r.status == 500,
        r.error@ == "数据库操作失败,详情见服务端日志"@,
        r.code == ErrorCode::Db,
{
    err_with_code(ErrorCode::Db, "数据库操作失败,详情见服务端日志", 500)
}

/// Different codes never share a wire string, so the front end can tell every
/// code apart.
pub proof fn law_code_names_distinct(a: ErrorCode, b: ErrorCode)
    ensures
        code_name(a) == code_name(b) ==> a == b,
{
    reveal_strlit("VALIDATION");
    reveal_strlit("UNAUTHORIZED");
    reveal_strlit("NOT_FOUND");
    reveal_strlit("CONFLICT");
    reveal_strlit("DB");
    reveal_strlit("UPSTREAM");
    reveal_strlit("INTERNAL");
    if code_name(a) == code_name(b) && a != b {
        assert(code_name(a).len() == code_name(b).len());
        assert(code_name(a)[0] == code_name(b)[0]);
        assert(code_name(a)[1] == code_name(b)[1]);
    }
}

/// The semantic constructors agree with what their status alone implies:
/// a reply built from the status alone carries the same code.
pub proof fn law_semantic_codes_agree_with_status()
    ensures
        status_code(400) == ErrorCode::Validation,
        status_code(401) == ErrorCode::Unauthorized,
        status_code(404) == ErrorCode::NotFound,
        status_code(409) == ErrorCode::Conflict,
        status_code(502) == ErrorCode::Upstream,
        status_code(500) == ErrorCode::Internal,
{
}

} // verus!
