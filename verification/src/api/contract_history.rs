//! The contract-history endpoints' own logic: the listing's length, the
//! version a rollback names, and whether a record can be restored.
use vstd::prelude::*;
use crate::api::errors::{err_status, status_code, ErrorReply};
use crate::json::{as_i64, i64_of, member, member_of, opt_val, Json};
use crate::text::lit;

verus! {

broadcast use vstd::string::group_string_axioms;

/// How many history records to list.
pub struct HistoryQuery {
    pub limit: Option<usize>,
}

impl HistoryQuery {
    /// The number of records listed: 50 unless the query names another.
    pub fn limit_or_default(&self) -> (r: usize)
        ensures
            r == match self.limit {
                Some(l) => l,
                None => 50usize,
            },
    {
        match self.limit {
            Some(l) => l,
            None => 50,
        }
    }
}

/// The version a rollback names: the body's integer `seq`; any other body
/// is refused.
pub fn rollback_seq(body: &Json) -> (r: Result<i64, ErrorReply>)
    ensures
        match as_i64(member_of(Some(*body), "seq"@)) {
            Some(n) => r == Ok::<i64, ErrorReply>(n),
            None => r matches Err(e) && e.status == 400 && e.code == status_code(400) && e.error@
                == "请求体必须包含整数 seq"@,
        },
{
    match i64_of(member(Some(body), &lit("seq"))) {
        Some(n) => Ok(n),
        None => Err(err_status("请求体必须包含整数 seq", 400)),
    }
}

/// Whether a history record can be restored: it must hold the contract after
/// its change (a removal holds none).
pub fn restorable(has_content: bool) -> (r: Result<(), ErrorReply>)
    ensures
        has_content ==> r is Ok,
        !has_content ==> (r matches Err(e) && e.status == 422 && e.code == status_code(422) && e.error@
            == "该记录无可恢复内容"@),
{
    if has_content {
        Ok(())
    } else {
        Err(err_status("该记录无可恢复内容", 422))
    }
}

} // verus!
