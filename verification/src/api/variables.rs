//! The variable endpoints' own logic: the scopes variables live in, and the
//! scope and session a read or write names.
use vstd::prelude::*;
use crate::api::chat::bad_request;
use crate::api::errors::{validation, ErrorReply};
use crate::text::{chars_of, lit};

verus! {

broadcast use vstd::string::group_string_axioms;

/// The session and scope of a variable read.
pub struct VariablesQuery {
    pub session_id: Option<String>,
    pub scope: Option<String>,
    pub scope_id: Option<String>,
}

/// The scopes variables live in.
#[derive(Debug, Clone, Copy, PartialEq, Eq, Structural)]
pub enum VarScope {
    Global,
    Chat,
    Character,
    Preset,
    Message,
    Script,
    Extension,
}

/// The scope a name denotes, written exactly.
pub open spec fn scope_named(name: Seq<char>) -> Option<VarScope> {
    if name == "global"@ {
        Some(VarScope::Global)
    } else if name == "chat"@ {
        Some(VarScope::Chat)
    } else if name == "character"@ {
        Some(VarScope::Character)
    } else if name == "preset"@ {
        Some(VarScope::Preset)
    } else if name == "message"@ {
        Some(VarScope::Message)
    } else if name == "script"@ {
        Some(VarScope::Script)
    } else if name == "extension"@ {
        Some(VarScope::Extension)
    } else {
        None
    }
}

/// The wire name of a scope.
pub open spec fn scope_name(s: VarScope) -> Seq<char> {
    match s {
        VarScope::Global => "global"@,
        VarScope::Chat => "chat"@,
        VarScope::Character => "character"@,
        VarScope::Preset => "preset"@,
        VarScope::Message => "message"@,
        VarScope::Script => "script"@,
        VarScope::Extension => "extension"@,
    }
}

impl VarScope {
    /// The wire name of the scope.
    pub fn as_str(self) -> (r: &'static str)
        ensures
            r@ == scope_name(self),
    {
        match self {
            VarScope::Global => "global",
            VarScope::Chat => "chat",
            VarScope::Character => "character",
            VarScope::Preset => "preset",
            VarScope::Message => "message",
            VarScope::Script => "script",
            VarScope::Extension => "extension",
        }
    }
}

/// The scope a name denotes (see `scope_named`); any other name is refused.
pub fn parse_scope(name: &str) -> (r: Result<VarScope, ErrorReply>)
    ensures
        match scope_named(name@) {
            Some(s) => r == Ok::<VarScope, ErrorReply>(s),
            None => r matches Err(e) && bad_request(e, "scope 须为 global|chat|character|preset|message|script|extension"@),
        },
{
    let c = chars_of(name);
    if crate::json::eq_chars(&c, &lit("global")) {
        Ok(VarScope::Global)
    } else if crate::json::eq_chars(&c, &lit("chat")) {
        Ok(VarScope::Chat)
    } else if crate::json::eq_chars(&c, &lit("character")) {
        Ok(VarScope::Character)
    } else if crate::json::eq_chars(&c, &lit("preset")) {
        Ok(VarScope::Preset)
    } else if crate::json::eq_chars(&c, &lit("message")) {
        Ok(VarScope::Message)
    } else if crate::json::eq_chars(&c, &lit("script")) {
        Ok(VarScope::Script)
    } else if crate::json::eq_chars(&c, &lit("extension")) {
        Ok(VarScope::Extension)
    } else {
        Err(validation("scope 须为 global|chat|character|preset|message|script|extension"))
    }
}

/// The scope a write names, which must be given.
pub fn write_scope(scope: Option<&str>) -> (r: Result<VarScope, ErrorReply>)
    ensures
        match scope {
            Some(s) => match scope_named(s@) {
                Some(v) => r == Ok::<VarScope, ErrorReply>(v),
                None => r matches Err(e) && bad_request(e, "scope 须为 global|chat|character|preset|message|script|extension"@),
            },
            None => r matches Err(e) && bad_request(e, "scope 须为 global|chat|character|preset|message|script|extension"@),
        },
{
    match scope {
        Some(s) => parse_scope(s),
        None => Err(validation("scope 须为 global|chat|character|preset|message|script|extension")),
    }
}

impl VariablesQuery {
    /// The session and scope of a read: the session is required, the scope
    /// is the chat's when none is named; the scope id defaults to empty.
    pub fn read_target(&self) -> (r: Result<(String, VarScope, String), ErrorReply>)
        ensures
            match self.session_id {
                None => r matches Err(e) && bad_request(e, "缺少 session_id 查询参数"@),
                Some(sid) => match self.scope {
                    None => r matches Ok((s, v, id)) && s@ == sid@ && v == VarScope::Chat
                        && id@ == crate::api::chat::text_or_empty(self.scope_id),
                    Some(name) => match scope_named(name@) {
                        Some(sc) => r matches Ok((s, v, id)) && s@ == sid@ && v == sc
                            && id@ == crate::api::chat::text_or_empty(self.scope_id),
                        None => r matches Err(e) && bad_request(
                            e,
                            "scope 须为 global|chat|character|preset|message|script|extension"@,
                        ),
                    },
                },
            },
    {
        proof {
            reveal_strlit("");
        }
        let sid = match &self.session_id {
            Some(s) => s.clone(),
            None => return Err(validation("缺少 session_id 查询参数")),
        };
        let scope = match &self.scope {
            None => VarScope::Chat,
            Some(name) => match parse_scope(name.as_str()) {
                Ok(s) => s,
                Err(e) => return Err(e),
            },
        };
        let id = match &self.scope_id {
            Some(x) => x.clone(),
            None => "".to_owned(),
        };
        Ok((sid, scope, id))
    }
}

} // verus!
