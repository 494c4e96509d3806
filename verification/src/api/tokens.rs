//! The token-count endpoints' own logic: what a count request must hold and
//! the totals reported for a session or overall.
use vstd::prelude::*;
use crate::api::errors::{bare_error, BareError};
use crate::llm::LlmMessage;

verus! {

broadcast use vstd::string::group_string_axioms;

/// Messages to count tokens of, for an optional model.
pub struct TokenCountBody {
    pub messages: Vec<LlmMessage>,
    pub model: Option<String>,
}

/// The session whose token total is read.
pub struct SessionTotalQuery {
    pub session_id: String,
}

impl TokenCountBody {
    /// A count needs at least one message.
    pub fn check(&self) -> (r: Result<(), BareError>)
        ensures
            r is Ok <==> self.messages@.len() > 0,
            r matches Err(e) ==> e.status == 400 && e.error@ == "缺少 messages 数组"@,
    {
        if self.messages.len() == 0 {
            Err(bare_error(400, "缺少 messages 数组"))
        } else {
            Ok(())
        }
    }
}

/// The reported totals (prompt, completion, all): the recorded ones, or
/// zeros when nothing is recorded yet.
pub fn usage_totals(row: Option<(i64, i64, i64)>) -> (r: (i64, i64, i64))
    ensures
        r == match row {
            Some(t) => t,
            None => (0i64, 0i64, 0i64),
        },
{
    match row {
        Some(t) => t,
        None => (0, 0, 0),
    }
}

} // verus!
