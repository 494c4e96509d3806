pub mod retry;
pub mod sse_parser;

use vstd::prelude::*;
use crate::json::{lemma_entries_get_absent, lemma_entries_get_at, member_of, Json};
use crate::llm::{GenerationParams, LlmError, LlmErrorKind, LlmMessage, ToolCallArgs, ToolChoice, ToolDefinition};
use crate::text::{append_chars, chars_of, ends_with, lit, slice_chars, string_of};

verus! {

broadcast use vstd::string::group_string_axioms;

/// The connection settings of an OpenAI-compatible backend.
pub struct OpenAiCompatibleConnector {
    base_url: String,
    api_key: String,
    model: String,
}

/// The view of a backend's settings.
pub struct BackendModel {
    pub base_url: Seq<char>,
    pub api_key: Seq<char>,
    pub model: Seq<char>,
}

impl View for OpenAiCompatibleConnector {
    type V = BackendModel;

    closed spec fn view(&self) -> BackendModel {
        BackendModel { base_url: self.base_url@, api_key: self.api_key@, model: self.model@ }
    }
}

/// `s` with every trailing repetition of `suffix` removed (`str::trim_end_matches`).
pub open spec fn trim_end_all(s: Seq<char>, suffix: Seq<char>) -> Seq<char>
    decreases s.len(),
{
    if suffix.len() > 0 && ends_with(s, suffix) {
        trim_end_all(s.take(s.len() - suffix.len()), suffix)
    } else {
        s
    }
}

pub(crate) fn trim_end_all_chars(s: &Vec<char>, suffix: &Vec<char>) -> (r: Vec<char>)
    ensures
        r@ == trim_end_all(s@, suffix@),
    decreases s@.len(),
{
    if suffix.len() > 0 && crate::text::ends_with_chars(s, suffix) {
        let shorter = slice_chars(s, 0, s.len() - suffix.len());
        assert(shorter@ =~= s@.take(s@.len() - suffix@.len()));
        trim_end_all_chars(&shorter, suffix)
    } else {
        slice_chars(s, 0, s.len())
    }
}

/// The model-list URLs tried in order: `{base}/models`, then, for a base that
/// ends in `/v1`, the same without the `/v1` suffixes, else `{base}/v1/models`.
pub open spec fn model_list_urls_of(base: Seq<char>) -> Seq<Seq<char>> {
    seq![
        base + "/models"@,
        if ends_with(base, "/v1"@) {
            trim_end_all(base, "/v1"@) + "/models"@
        } else {
            base + "/v1/models"@
        },
    ]
}

impl OpenAiCompatibleConnector {
    /// A backend with the given base URL, key and model.
    pub fn new(base_url: &str, api_key: &str, model: &str) -> (r: Self)
        ensures
            r@ == (BackendModel { base_url: base_url@, api_key: api_key@, model: model@ }),
    {
        OpenAiCompatibleConnector {
            base_url: base_url.to_owned(),
            api_key: api_key.to_owned(),
            model: model.to_owned(),
        }
    }

    /// The current model.
    pub fn model(&self) -> (r: &str)
        ensures
            r@ == self@.model,
    {
        self.model.as_str()
    }

    /// The base URL.
    pub fn base_url(&self) -> (r: &str)
        ensures
            r@ == self@.base_url,
    {
        self.base_url.as_str()
    }

    /// The same backend with another model (URL and key kept).
    pub fn with_model(&self, model: &str) -> (r: Self)
        ensures
            r@ == (BackendModel { base_url: self@.base_url, api_key: self@.api_key, model: model@ }),
    {
        OpenAiCompatibleConnector {
            base_url: self.base_url.clone(),
            api_key: self.api_key.clone(),
            model: model.to_owned(),
        }
    }

    /// The `Authorization` header value: `Bearer <key>` when a key is set.
    pub fn auth_header(&self) -> (r: Option<String>)
        ensures
            match r {
                Some(h) => self@.api_key.len() > 0 && h@ == "Bearer "@ + self@.api_key,
                None => self@.api_key.len() == 0,
            },
    {
        let key = chars_of(self.api_key.as_str());
        if key.len() == 0 {
            None
        } else {
            let mut h = lit("Bearer ");
            append_chars(&mut h, &key);
            Some(string_of(&h))
        }
    }

    /// The chat-completions endpoint: `{base}/chat/completions`.
    pub fn chat_completions_url(&self) -> (r: String)
        ensures
            r@ == self@.base_url + "/chat/completions"@,
    {
        let mut u = chars_of(self.base_url.as_str());
        append_chars(&mut u, &lit("/chat/completions"));
        string_of(&u)
    }

    /// The model-list URLs to try, in order.
    pub fn model_list_urls(&self) -> (r: Vec<String>)
        ensures
            r@.len() == 2,
            r@[0]@ == model_list_urls_of(self@.base_url)[0],
            r@[1]@ == model_list_urls_of(self@.base_url)[1],
    {
        let base = chars_of(self.base_url.as_str());
        let mut first = slice_chars(&base, 0, base.len());
        append_chars(&mut first, &lit("/models"));
        let v1 = lit("/v1");
        let second = if crate::text::ends_with_chars(&base, &v1) {
            let mut t = trim_end_all_chars(&base, &v1);
            append_chars(&mut t, &lit("/models"));
            t
        } else {
            let mut t = slice_chars(&base, 0, base.len());
            append_chars(&mut t, &lit("/v1/models"));
            t
        };
        assert(base@.subrange(0, base@.len() as int) =~= base@);
        let mut r: Vec<String> = Vec::new();
        r.push(string_of(&first));
        r.push(string_of(&second));
        r
    }
}

/// The connector type named by a configuration value: `openai-compatible`
/// for exactly that value, `mock` for anything else.
pub fn connector_type(config_connector: &str) -> (r: String)
    ensures
        r@ == if config_connector@ == "openai-compatible"@ {
            "openai-compatible"@
        } else {
            "mock"@
        },
{
    if crate::json::eq_chars(&chars_of(config_connector), &lit("openai-compatible")) {
        "openai-compatible".to_owned()
    } else {
        "mock".to_owned()
    }
}

// ---------------------------------------------------------------------------
// Request bodies
// ---------------------------------------------------------------------------

/// A JSON string holding exactly these characters.
pub open spec fn is_str(j: Json, s: Seq<char>) -> bool {
    j matches Json::Str(v) && v@ == s
}

/// Whether a JSON value is an object of exactly `n` members.
pub open spec fn obj_len(j: Json, n: nat) -> bool {
    j is Object && j->Object_0@.len() == n
}

/// The JSON of one tool call: `{id, type: "function", function: {name, arguments}}`, nothing more.
pub open spec fn tool_call_json_ok(j: Json, c: ToolCallArgs) -> bool {
    &&& obj_len(j, 3)
    &&& (member_of(Some(j), "id"@) matches Some(x) && is_str(x, c.id@))
    &&& (member_of(Some(j), "type"@) matches Some(x) && is_str(x, "function"@))
    &&& (member_of(Some(j), "function"@) matches Some(f) && {
        &&& obj_len(f, 2)
        &&& (member_of(Some(f), "name"@) matches Some(x) && is_str(x, c.name@))
        &&& (member_of(Some(f), "arguments"@) matches Some(y) && is_str(y, c.arguments@))
    })
}

/// How many members a message's JSON holds: role, tool call id and content
/// for a tool result; role, content, the reasoning when there is some, and
/// the calls for an assistant turn with tool calls; role and content otherwise.
pub open spec fn message_member_count(m: LlmMessage) -> nat {
    if m.role@ == "tool"@ {
        3
    } else if m.tool_calls is Some {
        match m.reasoning_content {
            Some(rc) => if rc@.len() > 0 { 4 } else { 3 },
            None => 3,
        }
    } else {
        2
    }
}

/// The JSON of one message in an OpenAI-compatible request: always its
/// `role`; a tool result carries `tool_call_id` (empty when absent) and
/// `content`; an assistant turn with tool calls carries `content: null`,
/// its non-empty `reasoning_content`, and the calls; any other message
/// carries `content`; no other member.
pub open spec fn message_json_ok(j: Json, m: LlmMessage) -> bool {
    &&& j is Object
    &&& j->Object_0@.len() == message_member_count(m)
    &&& member_of(Some(j), "role"@) matches Some(x) && is_str(x, m.role@)
    &&& if m.role@ == "tool"@ {
        &&& member_of(Some(j), "tool_call_id"@) matches Some(x) && is_str(
            x,
            match m.tool_call_id {
                Some(t) => t@,
                None => seq![],
            },
        )
        &&& member_of(Some(j), "content"@) matches Some(x) && is_str(x, m.content@)
        &&& member_of(Some(j), "tool_calls"@) is None
        &&& member_of(Some(j), "reasoning_content"@) is None
    } else if m.tool_calls is Some {
        &&& member_of(Some(j), "content"@) == Some(Json::Null)
        &&& match m.reasoning_content {
            Some(rc) => if rc@.len() > 0 {
                member_of(Some(j), "reasoning_content"@) matches Some(x) && is_str(x, rc@)
            } else {
                member_of(Some(j), "reasoning_content"@) is None
            },
            None => member_of(Some(j), "reasoning_content"@) is None,
        }
        &&& member_of(Some(j), "tool_calls"@) matches Some(Json::Array(items)) && items@.len()
            == m.tool_calls->Some_0@.len() && forall|k: int|
            0 <= k < items@.len() ==> tool_call_json_ok(#[trigger] items@[k], m.tool_calls->Some_0@[k])
        &&& member_of(Some(j), "tool_call_id"@) is None
    } else {
        &&& member_of(Some(j), "content"@) matches Some(x) && is_str(x, m.content@)
        &&& member_of(Some(j), "tool_calls"@) is None
        &&& member_of(Some(j), "tool_call_id"@) is None
        &&& member_of(Some(j), "reasoning_content"@) is None
    }
}

fn jstr(s: &String) -> (r: Json)
    ensures
        is_str(r, s@),
{
    Json::Str(chars_of(s.as_str()))
}

fn jkey(s: &str) -> (r: Vec<char>)
    ensures
        r@ == s@,
{
    lit(s)
}

fn tool_call_json(c: &ToolCallArgs) -> (r: Json)
    ensures
        tool_call_json_ok(r, *c),
{
    let mut f: Vec<(Vec<char>, Json)> = Vec::new();
    f.push((jkey("name"), jstr(&c.name)));
    f.push((jkey("arguments"), jstr(&c.arguments)));
    let func = Json::Object(f);
    let mut es: Vec<(Vec<char>, Json)> = Vec::new();
    es.push((jkey("id"), jstr(&c.id)));
    es.push((jkey("type"), Json::Str(lit("function"))));
    es.push((jkey("function"), func));
    proof {
        reveal_strlit("id");
        reveal_strlit("type");
        reveal_strlit("function");
        reveal_strlit("name");
        reveal_strlit("arguments");
    }
    let r = Json::Object(es);
    assert("type"@.len() != "function"@.len() && "id"@.len() != "function"@.len());
    assert("name"@.len() != "arguments"@.len());
    assert(crate::json::entries_get(f@, "arguments"@, 1) == Some(f@[1].1));
    assert(crate::json::entries_get(es@, "type"@, 1) == Some(es@[1].1));
    assert(crate::json::entries_get(es@, "function"@, 2) == Some(es@[2].1));
    assert(crate::json::entries_get(es@, "function"@, 1) == Some(es@[2].1));
    assert(member_of(Some(func), "name"@) == Some(f@[0].1));
    assert(member_of(Some(func), "arguments"@) == Some(f@[1].1));
    assert(member_of(Some(r), "id"@) == Some(es@[0].1));
    assert(member_of(Some(r), "type"@) == Some(es@[1].1));
    assert(member_of(Some(r), "function"@) == Some(es@[2].1));
    r
}

fn tool_calls_json(calls: &Vec<ToolCallArgs>) -> (r: Vec<Json>)
    ensures
        r@.len() == calls@.len(),
        forall|k: int| 0 <= k < r@.len() ==> tool_call_json_ok(#[trigger] r@[k], calls@[k]),
{
    let mut items: Vec<Json> = Vec::new();
    for i in 0..calls.len()
        invariant
            items@.len() == i,
            forall|k: int| 0 <= k < i ==> tool_call_json_ok(#[trigger] items@[k], calls@[k]),
    {
        items.push(tool_call_json(&calls[i]));
    }
    items
}

/// The OpenAI-compatible JSON of one message.
fn message_json(m: &LlmMessage) -> (r: Json)
    ensures
        message_json_ok(r, *m),
{
    proof {
        reveal_strlit("role");
        reveal_strlit("tool_call_id");
        reveal_strlit("content");
        reveal_strlit("reasoning_content");
        reveal_strlit("tool_calls");
        reveal_strlit("tool");
        assert("role"@.len() == 4 && "tool_call_id"@.len() == 12 && "content"@.len() == 7);
        assert("reasoning_content"@.len() == 17 && "tool_calls"@.len() == 10);
    }
    let mut es: Vec<(Vec<char>, Json)> = Vec::new();
    es.push((jkey("role"), jstr(&m.role)));
    if crate::json::eq_chars(&chars_of(m.role.as_str()), &lit("tool")) {
        let id = match &m.tool_call_id {
            Some(t) => chars_of(t.as_str()),
            None => Vec::new(),
        };
        es.push((jkey("tool_call_id"), Json::Str(id)));
        es.push((jkey("content"), jstr(&m.content)));
        proof {
            lemma_entries_get_at(es@, "role"@, 0, 0);
            lemma_entries_get_at(es@, "tool_call_id"@, 0, 1);
            lemma_entries_get_at(es@, "content"@, 0, 2);
            lemma_entries_get_absent(es@, "tool_calls"@, 0);
            lemma_entries_get_absent(es@, "reasoning_content"@, 0);
        }
        Json::Object(es)
    } else {
        match &m.tool_calls {
            Some(calls) => {
                es.push((jkey("content"), Json::Null));
                let mut with_reasoning = false;
                match &m.reasoning_content {
                    Some(rc) => {
                        if rc.as_str().unicode_len() > 0 {
                            es.push((jkey("reasoning_content"), jstr(rc)));
                            with_reasoning = true;
                        }
                    },
                    None => {},
                }
                let n = es.len();
                es.push((jkey("tool_calls"), Json::Array(tool_calls_json(calls))));
                proof {
                    lemma_entries_get_at(es@, "role"@, 0, 0);
                    lemma_entries_get_at(es@, "content"@, 0, 1);
                    if with_reasoning {
                        lemma_entries_get_at(es@, "reasoning_content"@, 0, 2);
                    } else {
                        lemma_entries_get_absent(es@, "reasoning_content"@, 0);
                    }
                    lemma_entries_get_at(es@, "tool_calls"@, 0, n as int);
                    lemma_entries_get_absent(es@, "tool_call_id"@, 0);
                }
                Json::Object(es)
            },
            None => {
                es.push((jkey("content"), jstr(&m.content)));
                proof {
                    lemma_entries_get_at(es@, "role"@, 0, 0);
                    lemma_entries_get_at(es@, "content"@, 0, 1);
                    lemma_entries_get_absent(es@, "tool_calls"@, 0);
                    lemma_entries_get_absent(es@, "tool_call_id"@, 0);
                    lemma_entries_get_absent(es@, "reasoning_content"@, 0);
                }
                Json::Object(es)
            },
        }
    }
}

/// The `messages` array of a chat request: one JSON object per message, in order.
pub fn to_openai_messages(messages: &[LlmMessage]) -> (r: Vec<Json>)
    ensures
        r@.len() == messages@.len(),
        forall|k: int| 0 <= k < r@.len() ==> message_json_ok(#[trigger] r@[k], messages@[k]),
{
    let mut out: Vec<Json> = Vec::new();
    for i in 0..messages.len()
        invariant
            out@.len() == i,
            forall|k: int| 0 <= k < i ==> message_json_ok(#[trigger] out@[k], messages@[k]),
    {
        out.push(message_json(&messages[i]));
    }
    out
}

/// A JSON array of strings holding exactly `ss`, in order.
pub open spec fn str_array_ok(j: Json, ss: Seq<String>) -> bool {
    &&& j is Array
    &&& j->Array_0@.len() == ss.len()
    &&& forall|k: int| 0 <= k < ss.len() ==> is_str(#[trigger] j->Array_0@[k], ss[k]@)
}

/// The JSON of one offered tool: `{type: "function", function: {name, description, parameters}}`,
/// with no other member.
pub open spec fn tool_json_ok(j: Json, t: ToolDefinition) -> bool {
    &&& obj_len(j, 2)
    &&& (member_of(Some(j), "type"@) matches Some(x) && is_str(x, "function"@))
    &&& (member_of(Some(j), "function"@) matches Some(f) && {
        &&& obj_len(f, 3)
        &&& (member_of(Some(f), "name"@) matches Some(x) && is_str(x, t.name@))
        &&& (member_of(Some(f), "description"@) matches Some(x) && is_str(x, t.description@))
        &&& member_of(Some(f), "parameters"@) == Some(t.parameters)
    })
}

/// The JSON of a tool-choice policy: `"auto"`, `"none"`, `"required"`, or
/// `{type: "function", function: {name}}` with no other member.
pub open spec fn tool_choice_json_ok(j: Json, c: ToolChoice) -> bool {
    match c {
        ToolChoice::Auto => is_str(j, "auto"@),
        ToolChoice::Disabled => is_str(j, "none"@),
        ToolChoice::Required => is_str(j, "required"@),
        ToolChoice::Function(name) => {
            &&& obj_len(j, 2)
            &&& (member_of(Some(j), "type"@) matches Some(x) && is_str(x, "function"@))
            &&& (member_of(Some(j), "function"@) matches Some(f) && obj_len(f, 1) && (member_of(Some(f), "name"@) matches Some(x) && is_str(x, name@)))
        },
    }
}

/// How many members a chat request body holds: model, messages, stream,
/// `max_tokens` and the stream options; the stop words when there are any;
/// the tools and the tool choice when tools are offered, and then the
/// parallel-calls flag when it is set.
pub open spec fn body_member_count(p: GenerationParams) -> nat {
    let stop: nat = match p.stop {
        Some(stop) => if stop@.len() > 0 { 1 } else { 0 },
        None => 0,
    };
    let tools: nat = if p.tools@.len() > 0 {
        if p.parallel_tool_calls is Some { 3 } else { 2 }
    } else {
        0
    };
    5 + stop + tools
}

/// The body of a streamed chat-completions request (sampling temperatures
/// aside): the model, the messages, `stream: true`, `max_tokens`, a request
/// for usage at the end of the stream; the stop words when there are any;
/// and, when tools are offered, the tools, the tool choice and, when set, the
/// parallel-calls flag; no other member, and none twice.
pub open spec fn chat_body_ok(j: Json, model: Seq<char>, messages: Seq<LlmMessage>, p: GenerationParams) -> bool {
    &&& j is Object
    &&& j->Object_0@.len() == body_member_count(p)
    &&& (member_of(Some(j), "model"@) matches Some(x) && is_str(x, model))
    &&& (member_of(Some(j), "messages"@) matches Some(x) && {
        &&& x is Array
        &&& x->Array_0@.len() == messages.len()
        &&& forall|k: int| 0 <= k < messages.len() ==> message_json_ok(#[trigger] x->Array_0@[k], messages[k])
    })
    &&& member_of(Some(j), "stream"@) == Some(Json::Bool(true))
    &&& member_of(Some(j), "max_tokens"@) == Some(Json::Number(Some(p.max_tokens as i64), Some(p.max_tokens as u64)))
    &&& (member_of(Some(j), "stream_options"@) matches Some(o) && obj_len(o, 1) && member_of(Some(o), "include_usage"@) == Some(Json::Bool(true)))
    &&& match p.stop {
        Some(stop) => if stop@.len() > 0 {
            member_of(Some(j), "stop"@) matches Some(x) && str_array_ok(x, stop@)
        } else {
            member_of(Some(j), "stop"@) is None
        },
        None => member_of(Some(j), "stop"@) is None,
    }
    &&& if p.tools@.len() > 0 {
        &&& (member_of(Some(j), "tools"@) matches Some(x) && {
            &&& x is Array
            &&& x->Array_0@.len() == p.tools@.len()
            &&& forall|k: int| 0 <= k < p.tools@.len() ==> tool_json_ok(#[trigger] x->Array_0@[k], p.tools@[k])
        })
        &&& (member_of(Some(j), "tool_choice"@) matches Some(x) && tool_choice_json_ok(x, p.tool_choice))
        &&& member_of(Some(j), "parallel_tool_calls"@) == match p.parallel_tool_calls {
            Some(b) => Some(Json::Bool(b)),
            None => None::<Json>,
        }
    } else {
        &&& member_of(Some(j), "tools"@) is None
        &&& member_of(Some(j), "tool_choice"@) is None
        &&& member_of(Some(j), "parallel_tool_calls"@) is None
    }
}

fn obj2(k1: &str, v1: Json, k2: &str, v2: Json) -> (r: Json)
    requires
        k1@ != k2@,
    ensures
        obj_len(r, 2),
        member_of(Some(r), k1@) == Some(v1),
        member_of(Some(r), k2@) == Some(v2),
{
    let mut es: Vec<(Vec<char>, Json)> = Vec::new();
    es.push((jkey(k1), v1));
    es.push((jkey(k2), v2));
    proof {
        lemma_entries_get_at(es@, k1@, 0, 0);
        lemma_entries_get_at(es@, k2@, 0, 1);
    }
    Json::Object(es)
}

fn obj1(k1: &str, v1: Json) -> (r: Json)
    ensures
        obj_len(r, 1),
        member_of(Some(r), k1@) == Some(v1),
{
    let mut es: Vec<(Vec<char>, Json)> = Vec::new();
    es.push((jkey(k1), v1));
    proof {
        lemma_entries_get_at(es@, k1@, 0, 0);
    }
    Json::Object(es)
}

fn tool_json(t: ToolDefinition) -> (r: Json)
    ensures
        tool_json_ok(r, t),
{
    proof {
        reveal_strlit("type");
        reveal_strlit("function");
        reveal_strlit("name");
        reveal_strlit("description");
        reveal_strlit("parameters");
        assert("type"@.len() != "function"@.len());
        assert("name"@.len() != "description"@.len() && "name"@.len() != "parameters"@.len());
        assert("description"@ != "parameters"@) by {
            assert("description"@[0] != "parameters"@[0]);
        }
    }
    let ToolDefinition { name, description, parameters } = t;
    let mut f: Vec<(Vec<char>, Json)> = Vec::new();
    f.push((jkey("name"), jstr(&name)));
    f.push((jkey("description"), jstr(&description)));
    f.push((jkey("parameters"), parameters));
    proof {
        lemma_entries_get_at(f@, "name"@, 0, 0);
        lemma_entries_get_at(f@, "description"@, 0, 1);
        lemma_entries_get_at(f@, "parameters"@, 0, 2);
    }
    obj2("type", Json::Str(lit("function")), "function", Json::Object(f))
}

fn tool_choice_json(c: &ToolChoice) -> (r: Json)
    ensures
        tool_choice_json_ok(r, *c),
{
    match c {
        ToolChoice::Auto => Json::Str(lit("auto")),
        ToolChoice::Disabled => Json::Str(lit("none")),
        ToolChoice::Required => Json::Str(lit("required")),
        ToolChoice::Function(name) => {
            proof {
                reveal_strlit("type");
                reveal_strlit("function");
                assert("type"@.len() != "function"@.len());
            }
            let f = obj1("name", jstr(name));
            obj2("type", Json::Str(lit("function")), "function", f)
        },
    }
}

fn strings_json(ss: &Vec<String>) -> (r: Json)
    ensures
        str_array_ok(r, ss@),
{
    let mut items: Vec<Json> = Vec::new();
    for i in 0..ss.len()
        invariant
            items@.len() == i,
            forall|k: int| 0 <= k < i ==> is_str(#[trigger] items@[k], ss@[k]@),
    {
        items.push(jstr(&ss[i]));
    }
    Json::Array(items)
}

fn tools_json(tools: Vec<ToolDefinition>) -> (r: Vec<Json>)
    ensures
        r@.len() == tools@.len(),
        forall|k: int| 0 <= k < tools@.len() ==> tool_json_ok(#[trigger] r@[k], tools@[k]),
{
    let ghost orig = tools@;
    let mut rest = tools;
    let mut items: Vec<Json> = Vec::new();
    while rest.len() > 0
        invariant
            items@.len() + rest@.len() == orig.len(),
            rest@ == orig.skip(items@.len() as int),
            forall|k: int| 0 <= k < items@.len() ==> tool_json_ok(#[trigger] items@[k], orig[k]),
        decreases rest@.len(),
    {
        let t = rest.remove(0);
        items.push(tool_json(t));
        assert(rest@ =~= orig.skip(items@.len() as int));
    }
    items
}

/// The body of a streamed chat request to `model` (see `chat_body_ok`).
pub fn chat_request_body(model: &str, messages: &[LlmMessage], params: GenerationParams) -> (r: Json)
    ensures
        chat_body_ok(r, model@, messages@, params),
{
    proof {
        reveal_strlit("model");
        reveal_strlit("messages");
        reveal_strlit("stream");
        reveal_strlit("max_tokens");
        reveal_strlit("stream_options");
        reveal_strlit("include_usage");
        reveal_strlit("stop");
        reveal_strlit("tools");
        reveal_strlit("tool_choice");
        reveal_strlit("parallel_tool_calls");
        assert("model"@.len() == 5 && "messages"@.len() == 8 && "stream"@.len() == 6);
        assert("max_tokens"@.len() == 10 && "stream_options"@.len() == 14 && "stop"@.len() == 4);
        assert("tools"@.len() == 5 && "tool_choice"@.len() == 11 && "parallel_tool_calls"@.len() == 19);
        assert("model"@ != "tools"@) by {
            assert("model"@[0] != "tools"@[0]);
        }
    }
    let ghost p = params;
    let GenerationParams { max_tokens, stop, tools, max_tool_rounds: _, tool_choice, parallel_tool_calls } = params;
    let mut es: Vec<(Vec<char>, Json)> = Vec::new();
    es.push((jkey("model"), Json::Str(chars_of(model))));
    es.push((jkey("messages"), Json::Array(to_openai_messages(messages))));
    es.push((jkey("stream"), Json::Bool(true)));
    es.push((jkey("max_tokens"), Json::Number(Some(max_tokens as i64), Some(max_tokens as u64))));
    es.push((jkey("stream_options"), obj1("include_usage", Json::Bool(true))));
    let mut with_stop = false;
    match &stop {
        Some(words) => {
            if words.len() > 0 {
                es.push((jkey("stop"), strings_json(words)));
                with_stop = true;
            }
        },
        None => {},
    }
    let t = es.len();
    let n_tools = tools.len();
    let mut with_parallel = false;
    if n_tools > 0 {
        es.push((jkey("tools"), Json::Array(tools_json(tools))));
        es.push((jkey("tool_choice"), tool_choice_json(&tool_choice)));
        match parallel_tool_calls {
            Some(b) => {
                es.push((jkey("parallel_tool_calls"), Json::Bool(b)));
                with_parallel = true;
            },
            None => {},
        }
    }
    proof {
        let s = es@;
        lemma_entries_get_at(s, "model"@, 0, 0);
        lemma_entries_get_at(s, "messages"@, 0, 1);
        lemma_entries_get_at(s, "stream"@, 0, 2);
        lemma_entries_get_at(s, "max_tokens"@, 0, 3);
        lemma_entries_get_at(s, "stream_options"@, 0, 4);
        if with_stop {
            lemma_entries_get_at(s, "stop"@, 0, 5);
        } else {
            lemma_entries_get_absent(s, "stop"@, 0);
        }
        if n_tools > 0 {
            lemma_entries_get_at(s, "tools"@, 0, t as int);
            lemma_entries_get_at(s, "tool_choice"@, 0, t + 1);
            if with_parallel {
                lemma_entries_get_at(s, "parallel_tool_calls"@, 0, t + 2);
            } else {
                lemma_entries_get_absent(s, "parallel_tool_calls"@, 0);
            }
        } else {
            lemma_entries_get_absent(s, "tools"@, 0);
            lemma_entries_get_absent(s, "tool_choice"@, 0);
            lemma_entries_get_absent(s, "parallel_tool_calls"@, 0);
        }
    }
    Json::Object(es)
}

/// The model ids of a listing's items: each item's `id` that is a string, in order.
pub open spec fn ids_from(items: Seq<Json>) -> Seq<Seq<char>>
    decreases items.len(),
{
    if items.len() == 0 {
        seq![]
    } else {
        let rest = ids_from(items.drop_last());
        match crate::json::as_str(member_of(Some(items.last()), "id"@)) {
            Some(id) => rest.push(id),
            None => rest,
        }
    }
}

/// The model ids of a `/models` answer: those of its `data` array (none
/// when the answer has no such array).
pub open spec fn listing_ids(body: Option<Json>) -> Seq<Seq<char>> {
    match crate::json::as_array(member_of(body, "data"@)) {
        Some(items) => ids_from(items),
        None => seq![],
    }
}

/// The model ids of a `/models` answer (see `listing_ids`).
pub fn model_ids(body: Option<&Json>) -> (r: Vec<String>)
    ensures
        crate::connectors::strings_view(r@) == listing_ids(crate::json::opt_val(body)),
{
    let items = match crate::json::array_of(crate::json::member(body, &lit("data"))) {
        Some(a) => a,
        None => {
            let r: Vec<String> = Vec::new();
            assert(crate::connectors::strings_view(r@) =~= Seq::<Seq<char>>::empty());
            return r;
        },
    };
    let mut out: Vec<String> = Vec::new();
    for k in 0..items.len()
        invariant
            crate::connectors::strings_view(out@) == ids_from(items@.take(k as int)),
    {
        assert(items@.take(k + 1).drop_last() =~= items@.take(k as int));
        assert(items@.take(k + 1).last() == items@[k as int]);
        let ghost before = out@;
        match crate::json::str_of(crate::json::member(Some(&items[k]), &lit("id"))) {
            Some(id) => {
                out.push(string_of(id));
            },
            None => {},
        }
        assert(crate::connectors::strings_view(out@) =~= ids_from(items@.take(k + 1)));
    }
    assert(items@.take(items@.len() as int) =~= items@);
    out
}

/// What a connection test learned of the `/models` endpoint: nothing
/// (unreachable), or its status, the status's text and the parsed body.
pub enum Probe {
    Unreachable,
    Answered { status: u16, status_text: String, body: Option<Json> },
}

impl OpenAiCompatibleConnector {
    /// The report of a connection test: an unreachable endpoint; a reachable
    /// one that refuses the key (401, 403); a reachable one with another
    /// failing status; or a working one with its models, falling back to the
    /// current model when the listing holds none.
    pub fn connection_report(&self, probe: Probe) -> (r: crate::connectors::ConnectionReport)
        ensures
            match probe {
                Probe::Unreachable => !r.ok && r.message@ == "API 端点不可达"@ && !r.endpoint_reachable
                    && !r.authenticated && !r.fallback_used && r.http_status is None && r.models@.len() == 0,
                Probe::Answered { status, status_text, body } => if status == 401 || status == 403 {
                    !r.ok && r.message@ == "API 端点可达,但认证失败"@ && r.endpoint_reachable && !r.authenticated
                        && !r.fallback_used && r.http_status == Some(status) && r.models@.len() == 0
                } else if !(200 <= status <= 299) {
                    !r.ok && r.message@ == "API 端点可达,返回 HTTP "@ + status_text@ && r.endpoint_reachable
                        && r.authenticated && !r.fallback_used && r.http_status == Some(status)
                        && r.models@.len() == 0
                } else {
                    let ids = listing_ids(body);
                    &&& r.ok && r.endpoint_reachable && r.authenticated && r.http_status == Some(status)
                    &&& r.fallback_used == (ids.len() == 0)
                    &&& crate::connectors::strings_view(r.models@) == if ids.len() == 0 { seq![self@.model] } else { ids }
                    &&& r.message@ == if ids.len() == 0 {
                        "连接成功,但模型列表无效,已回退当前模型"@
                    } else {
                        "连接成功,可用模型 "@ + crate::text::decimal(ids.len()) + " 个"@
                    }
                },
            },
    {
        match probe {
            Probe::Unreachable => crate::connectors::ConnectionReport {
                ok: false,
                message: "API 端点不可达".to_owned(),
                endpoint_reachable: false,
                authenticated: false,
                fallback_used: false,
                http_status: None,
                models: Vec::new(),
            },
            Probe::Answered { status, status_text, body } => {
                if status == 401 || status == 403 {
                    return crate::connectors::ConnectionReport {
                        ok: false,
                        message: "API 端点可达,但认证失败".to_owned(),
                        endpoint_reachable: true,
                        authenticated: false,
                        fallback_used: false,
                        http_status: Some(status),
                        models: Vec::new(),
                    };
                }
                if !(200 <= status && status <= 299) {
                    let mut m = lit("API 端点可达,返回 HTTP ");
                    append_chars(&mut m, &chars_of(status_text.as_str()));
                    return crate::connectors::ConnectionReport {
                        ok: false,
                        message: string_of(&m),
                        endpoint_reachable: true,
                        authenticated: true,
                        fallback_used: false,
                        http_status: Some(status),
                        models: Vec::new(),
                    };
                }
                let ids = match &body {
                    Some(b) => model_ids(Some(b)),
                    None => model_ids(None),
                };
                let fallback = ids.len() == 0;
                let message = if fallback {
                    "连接成功,但模型列表无效,已回退当前模型".to_owned()
                } else {
                    let mut m = lit("连接成功,可用模型 ");
                    append_chars(&mut m, &crate::text::decimal_chars(ids.len() as u64));
                    append_chars(&mut m, &lit(" 个"));
                    string_of(&m)
                };
                let models = if fallback {
                    let mut v: Vec<String> = Vec::new();
                    v.push(self.model.clone());
                    assert(crate::connectors::strings_view(v@) =~= seq![self@.model]);
                    v
                } else {
                    ids
                };
                crate::connectors::ConnectionReport {
                    ok: true,
                    message,
                    endpoint_reachable: true,
                    authenticated: true,
                    fallback_used: fallback,
                    http_status: Some(status),
                    models,
                }
            },
        }
    }
}

/// How a failed attempt of a chat request ended: the request timed out, the
/// transport failed (classified by the caller, with its text), or the
/// upstream answered with a failing status (its text, `Retry-After` seconds
/// and body).
pub enum AttemptFailure {
    TimedOut,
    Transport { kind: LlmErrorKind, detail: String },
    Status { status: u16, status_text: String, retry_after: Option<u64>, body: String },
}

/// What follows a failed attempt: another attempt after a delay, or the error.
pub enum AttemptStep {
    Retry { delay_ms: u64 },
    Fail(LlmError),
}

/// The error kind of a failing status: 401 and 403 a refused key, 429 a
/// rate limit, 408 a timeout, any other an upstream failure.
pub open spec fn status_kind(status: u16) -> LlmErrorKind {
    if status == 401 || status == 403 {
        LlmErrorKind::AuthFailed
    } else if status == 429 {
        LlmErrorKind::RateLimited
    } else if status == 408 {
        LlmErrorKind::Timeout
    } else {
        LlmErrorKind::Upstream
    }
}

/// The first 300 characters of a text.
pub open spec fn first300(s: Seq<char>) -> Seq<char> {
    if s.len() <= 300 { s } else { s.take(300) }
}

/// The step after failed attempt `attempt` (1-based): a timeout or a
/// transport failure is retried while attempts remain, a failing status only
/// when it is retryable; the last failure is the error, with its message.
pub fn after_failed_attempt(attempt: usize, failure: AttemptFailure) -> (r: AttemptStep)
    requires
        1 <= attempt <= 64,
    ensures
        match failure {
            AttemptFailure::TimedOut => if attempt < retry::MAX_ATTEMPTS {
                r is Retry
            } else {
                r matches AttemptStep::Fail(e) && e.kind == LlmErrorKind::Timeout && e.message@
                    == "请求 OpenAI 兼容接口超时(30s)"@
            },
            AttemptFailure::Transport { kind, detail } => if attempt < retry::MAX_ATTEMPTS {
                r is Retry
            } else {
                r matches AttemptStep::Fail(e) && e.kind == kind && e.message@ == "请求 OpenAI 兼容接口失败: "@
                    + detail@
            },
            AttemptFailure::Status { status, status_text, retry_after, body } => if retry::retryable(status)
                && attempt < retry::MAX_ATTEMPTS {
                r matches AttemptStep::Retry { delay_ms } && exists|j: u64|
                    j < 250 && delay_ms as int == retry::retry_delay_ms(attempt as nat, retry_after, j)
            } else {
                r matches AttemptStep::Fail(e) && e.kind == status_kind(status) && e.message@
                    == "OpenAI 兼容接口返回 "@ + status_text@ + ": "@ + first300(body@)
            },
        },
{
    match failure {
        AttemptFailure::TimedOut => {
            if attempt < retry::MAX_ATTEMPTS {
                AttemptStep::Retry { delay_ms: retry::retry_delay(attempt, None) }
            } else {
                AttemptStep::Fail(LlmError::timeout("请求 OpenAI 兼容接口超时(30s)".to_owned()))
            }
        },
        AttemptFailure::Transport { kind, detail } => {
            if attempt < retry::MAX_ATTEMPTS {
                AttemptStep::Retry { delay_ms: retry::retry_delay(attempt, None) }
            } else {
                let mut m = lit("请求 OpenAI 兼容接口失败: ");
                append_chars(&mut m, &chars_of(detail.as_str()));
                AttemptStep::Fail(LlmError::new(kind, string_of(&m)))
            }
        },
        AttemptFailure::Status { status, status_text, retry_after, body } => {
            if retry::is_retryable_status(status) && attempt < retry::MAX_ATTEMPTS {
                return AttemptStep::Retry { delay_ms: retry::retry_delay(attempt, retry_after) };
            }
            let kind = if status == 401 || status == 403 {
                LlmErrorKind::AuthFailed
            } else if status == 429 {
                LlmErrorKind::RateLimited
            } else if status == 408 {
                LlmErrorKind::Timeout
            } else {
                LlmErrorKind::Upstream
            };
            let mut m = lit("OpenAI 兼容接口返回 ");
            append_chars(&mut m, &chars_of(status_text.as_str()));
            append_chars(&mut m, &lit(": "));
            append_chars(&mut m, &crate::text::take_chars(&chars_of(body.as_str()), 300));
            AttemptStep::Fail(LlmError::new(kind, string_of(&m)))
        },
    }
}

} // verus!
