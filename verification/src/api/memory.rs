//! The memory endpoints' own logic: the character a request names, the
//! search's query and limit, the content a memory must hold, and when a
//! distillation may run.
use vstd::prelude::*;
use crate::api::chat::bad_request;
use crate::api::errors::{validation, ErrorReply};
use crate::text::{chars_of, string_of, trim, trim_chars};

verus! {

broadcast use vstd::string::group_string_axioms;

/// The session whose memories are distilled.
pub struct DistillBody {
    pub session_id: String,
}

/// The character whose memories are listed.
pub struct ListQuery {
    pub character_id: Option<String>,
}

/// A memory search: character, query text and limit.
pub struct SearchQuery {
    pub character_id: Option<String>,
    pub q: Option<String>,
    pub limit: Option<usize>,
}

/// A new memory of a character.
pub struct CreateBody {
    pub character_id: String,
    pub content: String,
}

/// The character whose memories are pruned.
pub struct PruneBody {
    pub character_id: String,
}

/// The trimmed text, refused with `msg` when it is missing or blank.
pub open spec fn required_text(v: Option<Seq<char>>, msg: Seq<char>, r: Result<String, ErrorReply>) -> bool {
    match v {
        Some(t) => if trim(t).len() > 0 {
            r matches Ok(x) && x@ == trim(t)
        } else {
            r matches Err(e) && bad_request(e, msg)
        },
        None => r matches Err(e) && bad_request(e, msg),
    }
}

/// Whether a text is present and not blank.
pub open spec fn present(v: Option<Seq<char>>) -> bool {
    v matches Some(t) && trim(t).len() > 0
}

/// A text trimmed.
pub open spec fn trimmed(v: Option<Seq<char>>) -> Option<Seq<char>> {
    match v {
        Some(t) => Some(trim(t)),
        None => None,
    }
}

fn required(v: Option<&str>, msg: &str) -> (r: Result<String, ErrorReply>)
    ensures
        required_text(crate::api::chat::opt_view(v), msg@, r),
{
    match v {
        Some(t) => {
            let c = trim_chars(&chars_of(t));
            if c.len() > 0 {
                Ok(string_of(&c))
            } else {
                Err(validation(msg))
            }
        },
        None => Err(validation(msg)),
    }
}

/// The character a memory request names: trimmed, and required.
pub fn memory_owner(character_id: Option<&str>) -> (r: Result<String, ErrorReply>)
    ensures
        required_text(crate::api::chat::opt_view(character_id), "缺少 character_id"@, r),
{
    required(character_id, "缺少 character_id")
}

/// The most memories a search returns: 20 when none is named, otherwise the
/// value clamped to `[1, 100]`.
pub open spec fn search_limit_of(limit: Option<usize>) -> int {
    match limit {
        Some(l) => if l < 1 { 1 } else if l > 100 { 100 } else { l as int },
        None => 20,
    }
}

impl SearchQuery {
    /// The search's character, trimmed query and limit; the character and
    /// the query are required, in that order.
    pub fn request(&self) -> (r: Result<(String, String, usize), ErrorReply>)
        ensures
            match r {
                Ok((c, q, l)) => present(crate::api::chat::text_opt(self.character_id)) && present(
                    crate::api::chat::text_opt(self.q),
                ) && Some(c@) == trimmed(crate::api::chat::text_opt(self.character_id)) && Some(q@) == trimmed(
                    crate::api::chat::text_opt(self.q),
                ) && l as int == search_limit_of(self.limit),
                Err(e) => if present(crate::api::chat::text_opt(self.character_id)) {
                    !present(crate::api::chat::text_opt(self.q)) && bad_request(e, "缺少 q"@)
                } else {
                    bad_request(e, "缺少 character_id"@)
                },
            },
    {
        let owner = match &self.character_id {
            Some(c) => required(Some(c.as_str()), "缺少 character_id"),
            None => required(None, "缺少 character_id"),
        };
        let c = match owner {
            Ok(c) => c,
            Err(e) => return Err(e),
        };
        let query = match &self.q {
            Some(q) => required(Some(q.as_str()), "缺少 q"),
            None => required(None, "缺少 q"),
        };
        let q = match query {
            Ok(q) => q,
            Err(e) => return Err(e),
        };
        let l = match self.limit {
            Some(l) => if l < 1 {
                1
            } else if l > 100 {
                100
            } else {
                l
            },
            None => 20,
        };
        Ok((c, q, l))
    }
}

/// A memory's content must not be blank.
pub fn memory_content_ok(content: &str) -> (r: Result<(), ErrorReply>)
    ensures
        r is Ok <==> trim(content@).len() > 0,
        r matches Err(e) ==> bad_request(e, "记忆内容不能为空"@),
{
    if trim_chars(&chars_of(content)).len() == 0 {
        Err(validation("记忆内容不能为空"))
    } else {
        Ok(())
    }
}

/// Whether a distillation may run: it must be switched on in the settings,
/// and the session is required (trimmed).
pub fn distill_session(enabled: bool, session_id: &str) -> (r: Result<String, ErrorReply>)
    ensures
        !enabled ==> (r matches Err(e) && bad_request(e, "跨会话记忆蒸馏未开启,请先在设置中打开 memory_distill_enabled"@)),
        enabled ==> required_text(Some(session_id@), "缺少 session_id"@, r),
{
    if !enabled {
        return Err(validation("跨会话记忆蒸馏未开启,请先在设置中打开 memory_distill_enabled"));
    }
    required(Some(session_id), "缺少 session_id")
}

} // verus!
