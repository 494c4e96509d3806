//! The user-script endpoints' own logic: the owner a script tree belongs
//! to, the character an authorization names, and when a grant is accepted.
use vstd::prelude::*;
use crate::api::chat::bad_request;
use crate::api::errors::{err_with_code, validation, ErrorCode, ErrorReply};
use crate::text::{append_chars, chars_of, lit, string_of};

verus! {

broadcast use vstd::string::group_string_axioms;

/// The scope of a script tree.
pub struct TreeQuery {
    pub scope: Option<String>,
    pub character_id: Option<String>,
}

/// The character whose script authorizations are read.
pub struct AuthorizationQuery {
    pub character_id: Option<String>,
}

/// A script authorization granted to a character.
pub struct GrantBody {
    pub character_id: String,
    pub script_hash: String,
}

/// A named, non-empty value.
pub open spec fn nonempty(v: Option<String>) -> Option<Seq<char>> {
    match v {
        Some(s) => if s@.len() > 0 { Some(s@) } else { None },
        None => None,
    }
}

impl TreeQuery {
    /// The scope and owner of the tree: `global` (the default) with no
    /// owner, or `character` with the named character; anything else refused.
    pub fn owner(&self) -> (r: Result<(String, String), ErrorReply>)
        ensures
            ({
                let scope = match self.scope {
                    Some(s) => s@,
                    None => "global"@,
                };
                if scope == "global"@ {
                    r matches Ok((s, o)) && s@ == "global"@ && o@.len() == 0
                } else if scope == "character"@ {
                    match nonempty(self.character_id) {
                        Some(c) => r matches Ok((s, o)) && s@ == "character"@ && o@ == c,
                        None => r matches Err(e) && bad_request(e, "角色级脚本需指定 character_id"@),
                    }
                } else {
                    r matches Err(e) && bad_request(e, "未知脚本作用域: "@ + scope + "(仅支持 global/character)"@)
                }
            }),
    {
        proof {
            reveal_strlit("");
        }
        let scope = match &self.scope {
            Some(s) => chars_of(s.as_str()),
            None => lit("global"),
        };
        if crate::json::eq_chars(&scope, &lit("global")) {
            Ok(("global".to_owned(), "".to_owned()))
        } else if crate::json::eq_chars(&scope, &lit("character")) {
            match &self.character_id {
                Some(c) => if c.as_str().unicode_len() > 0 {
                    Ok(("character".to_owned(), c.clone()))
                } else {
                    Err(validation("角色级脚本需指定 character_id"))
                },
                None => Err(validation("角色级脚本需指定 character_id")),
            }
        } else {
            let mut m = lit("未知脚本作用域: ");
            append_chars(&mut m, &scope);
            append_chars(&mut m, &lit("(仅支持 global/character)"));
            let t = string_of(&m);
            Err(validation(t.as_str()))
        }
    }
}

impl AuthorizationQuery {
    /// The character the request names, which must not be empty.
    pub fn character(&self) -> (r: Result<String, ErrorReply>)
        ensures
            match nonempty(self.character_id) {
                Some(c) => r matches Ok(x) && x@ == c,
                None => r matches Err(e) && bad_request(e, "需指定 character_id"@),
            },
    {
        match &self.character_id {
            Some(c) => if c.as_str().unicode_len() > 0 {
                Ok(c.clone())
            } else {
                Err(validation("需指定 character_id"))
            },
            None => Err(validation("需指定 character_id")),
        }
    }
}

/// Why a grant is refused: the character has no enabled scripts, or the hash
/// the client read is stale (the answer then carries the current hash).
pub enum GrantRefusal {
    NoScripts(ErrorReply),
    Stale { reply: ErrorReply, current_hash: String },
}

/// Whether a grant is accepted: there must be enabled scripts (a non-empty
/// current hash), and the client's hash must equal the current one.
pub fn grant_check(current_hash: &str, claimed_hash: &str) -> (r: Result<(), GrantRefusal>)
    ensures
        current_hash@.len() == 0 ==> (r matches Err(GrantRefusal::NoScripts(e)) && bad_request(
            e,
            "该角色没有可授权的启用脚本"@,
        )),
        current_hash@.len() > 0 && current_hash@ != claimed_hash@ ==> (r matches Err(
            GrantRefusal::Stale { reply, current_hash: h },
        ) && reply.status == 409 && reply.code == ErrorCode::Conflict && reply.error@
            == "脚本已变更,授权哈希过期;请重新读取当前哈希后再授权"@ && h@ == current_hash@),
        current_hash@.len() > 0 && current_hash@ == claimed_hash@ ==> r is Ok,
{
    let cur = chars_of(current_hash);
    if cur.len() == 0 {
        return Err(GrantRefusal::NoScripts(validation("该角色没有可授权的启用脚本")));
    }
    if !crate::json::eq_chars(&cur, &chars_of(claimed_hash)) {
        return Err(GrantRefusal::Stale {
            reply: err_with_code(ErrorCode::Conflict, "脚本已变更,授权哈希过期;请重新读取当前哈希后再授权", 409),
            current_hash: current_hash.to_owned(),
        });
    }
    Ok(())
}

} // verus!
