//! The JSON request body wrapper and the answer to a body that does not parse.
use vstd::prelude::*;
use crate::api::errors::{validation, ErrorCode, ErrorReply};

verus! {

/// A JSON request body: the value it parsed into.
#[derive(Debug, Clone, Copy, Default)]
pub struct JsonBody<T>(pub T);

/// The message of a body that is not valid JSON: it says what is wrong and
/// what to do, never the parser's type names or offsets.
pub open spec fn invalid_json_message() -> Seq<char> {
    "请求体不是合法 JSON,请检查字段格式"@
}

/// The answer to a body that is malformed, lacks a required field or has the
/// wrong content type: 400 with code `VALIDATION` and the fixed message.
pub fn invalid_json_reply() -> (r: ErrorReply)
    ensures
        r.status == 400,
        r.error@ == invalid_json_message(),
        r.code == ErrorCode::Validation,
{
    validation("请求体不是合法 JSON,请检查字段格式")
}

} // verus!
