//! The variable-contract endpoints' own logic: what an update must hold,
//! who wrote it, and the session and length of a changelog listing.
use vstd::prelude::*;
use crate::api::chat::bad_request;
use crate::api::errors::{validation, ErrorReply};

verus! {

broadcast use vstd::string::group_string_axioms;

/// The session and length of a changelog listing.
pub struct ChangelogQuery {
    pub session_id: Option<String>,
    pub limit: Option<usize>,
}

/// The session whose variable state is read.
pub struct StateQuery {
    pub session_id: Option<String>,
}

/// An update must hold at least one patch.
pub fn patches_check(count: usize) -> (r: Result<(), ErrorReply>)
    ensures
        count > 0 ==> r is Ok,
        count == 0 ==> (r matches Err(e) && bad_request(e, "patches 不能为空"@)),
{
    if count == 0 {
        Err(validation("patches 不能为空"))
    } else {
        Ok(())
    }
}

/// Who an update is recorded as written by: the named writer, else `external`.
pub fn writer_of(writer: Option<String>) -> (r: String)
    ensures
        r@ == match writer {
            Some(w) => w@,
            None => "external"@,
        },
{
    match writer {
        Some(w) => w,
        None => "external".to_owned(),
    }
}

impl ChangelogQuery {
    /// The session and length of the listing: the session is required, the
    /// length is 50 unless another is named.
    pub fn listing(&self) -> (r: Result<(String, usize), ErrorReply>)
        ensures
            match self.session_id {
                Some(s) => r matches Ok((x, l)) && x@ == s@ && l == match self.limit {
                    Some(n) => n,
                    None => 50usize,
                },
                None => r matches Err(e) && bad_request(e, "缺少 session_id 查询参数"@),
            },
    {
        match &self.session_id {
            Some(s) => Ok((
                s.clone(),
                match self.limit {
                    Some(n) => n,
                    None => 50,
                },
            )),
            None => Err(validation("缺少 session_id 查询参数")),
        }
    }
}

} // verus!
