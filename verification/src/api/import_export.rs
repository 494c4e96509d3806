//! The chat import and export endpoints' own logic: the session they name.
use vstd::prelude::*;
use crate::api::errors::{bare_error, BareError};
use crate::text::{chars_of, trim, trim_chars};

verus! {

broadcast use vstd::string::group_string_axioms;

/// The session to export.
pub struct SessionQuery {
    pub session_id: Option<String>,
}

/// Messages imported into a session.
pub struct ImportBody<M> {
    pub session_id: Option<String>,
    pub messages: Vec<M>,
}

/// A session id as given, refused with `msg` when it is missing or blank.
pub open spec fn session_named(v: Option<String>, msg: Seq<char>, r: Result<String, BareError>) -> bool {
    match v {
        Some(s) => if trim(s@).len() > 0 {
            r matches Ok(x) && x@ == s@
        } else {
            r matches Err(e) && e.status == 400 && e.error@ == msg
        },
        None => r matches Err(e) && e.status == 400 && e.error@ == msg,
    }
}

fn named(v: &Option<String>, msg: &str) -> (r: Result<String, BareError>)
    ensures
        session_named(*v, msg@, r),
{
    match v {
        Some(s) => if trim_chars(&chars_of(s.as_str())).len() > 0 {
            Ok(s.clone())
        } else {
            Err(bare_error(400, msg))
        },
        None => Err(bare_error(400, msg)),
    }
}

impl SessionQuery {
    /// The session to export, which the query must name.
    pub fn session(&self) -> (r: Result<String, BareError>)
        ensures
            session_named(self.session_id, "缺少 session_id 查询参数"@, r),
    {
        named(&self.session_id, "缺少 session_id 查询参数")
    }
}

impl<M> ImportBody<M> {
    /// The session to import into, which the body must name.
    pub fn session(&self) -> (r: Result<String, BareError>)
        ensures
            session_named(self.session_id, "缺少 session_id"@, r),
    {
        named(&self.session_id, "缺少 session_id")
    }
}

} // verus!
