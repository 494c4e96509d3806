//! Model backends: the demonstration backend and OpenAI-compatible HTTP
//! backends, the choice between them, and the report of a connection test.
pub mod mock;
pub mod openai_compatible;

use vstd::prelude::*;
use crate::json::{as_str, lemma_entries_get_at, member_of, Json};
use crate::text::{chars_of, lit};
use mock::MockConnector;
use openai_compatible::OpenAiCompatibleConnector;

verus! {

broadcast use vstd::string::group_string_axioms;

/// The configured backend.
pub enum Connector {
    Mock(MockConnector),
    OpenAi(OpenAiCompatibleConnector),
}

/// The result of testing a connection: whether it works, a message for the
/// user, what was learned of the endpoint, and the models it offers.
#[derive(Debug)]
pub struct ConnectionReport {
    pub ok: bool,
    pub message: String,
    pub endpoint_reachable: bool,
    pub authenticated: bool,
    pub fallback_used: bool,
    pub http_status: Option<u16>,
    pub models: Vec<String>,
}

/// The characters of each string, in order.
pub open spec fn strings_view(v: Seq<String>) -> Seq<Seq<char>> {
    v.map_values(|s: String| s@)
}

/// The type name of a backend, as configurations write it.
pub open spec fn type_str_of(c: Connector) -> Seq<char> {
    match c {
        Connector::Mock(_) => "mock"@,
        Connector::OpenAi(_) => "openai-compatible"@,
    }
}

/// The model a backend talks to: the demonstration model, or the configured one.
pub open spec fn model_of(c: Connector) -> Seq<char> {
    match c {
        Connector::Mock(_) => "mock-demo"@,
        Connector::OpenAi(o) => o@.model,
    }
}

impl Connector {
    /// The backend's type name: `mock` or `openai-compatible`.
    pub fn type_str(&self) -> (r: &'static str)
        ensures
            r@ == type_str_of(*self),
    {
        match self {
            Connector::Mock(_) => "mock",
            Connector::OpenAi(_) => "openai-compatible",
        }
    }

    /// The current model name.
    pub fn model(&self) -> (r: &str)
        ensures
            r@ == model_of(*self),
    {
        match self {
            Connector::Mock(_) => "mock-demo",
            Connector::OpenAi(c) => c.model(),
        }
    }
}

/// The backend for a configuration: an OpenAI-compatible backend with the
/// given URL, key and model for `openai-compatible`, the demonstration
/// backend for any other value.
pub fn build_connector(connector: &str, base_url: &str, api_key: &str, model: &str) -> (r: Connector)
    ensures
        connector@ == "openai-compatible"@ ==> (r matches Connector::OpenAi(o) && o@.base_url
            == base_url@ && o@.api_key == api_key@ && o@.model == model@),
        connector@ != "openai-compatible"@ ==> r is Mock,
{
    if crate::json::eq_chars(&chars_of(connector), &lit("openai-compatible")) {
        Connector::OpenAi(OpenAiCompatibleConnector::new(base_url, api_key, model))
    } else {
        Connector::Mock(MockConnector::new())
    }
}

/// The backend switched to another model: the demonstration backend stays as
/// it is; an OpenAI-compatible backend keeps its URL and key.
pub fn with_model(c: &Connector, model: &str) -> (r: Connector)
    ensures
        match *c {
            Connector::Mock(_) => r is Mock,
            Connector::OpenAi(o) => (r matches Connector::OpenAi(n) && n@.base_url == o@.base_url
                && n@.api_key == o@.api_key && n@.model == model@),
        },
{
    match c {
        Connector::Mock(_) => Connector::Mock(MockConnector::new()),
        Connector::OpenAi(o) => Connector::OpenAi(o.with_model(model)),
    }
}

/// One entry of the list of backend types: `{type, label}`.
pub open spec fn type_entry_ok(j: Json, ty: Seq<char>, label: Seq<char>) -> bool {
    &&& as_str(member_of(Some(j), "type"@)) == Some(ty)
    &&& as_str(member_of(Some(j), "label"@)) == Some(label)
}

fn type_entry(ty: &str, label: &str) -> (r: Json)
    ensures
        type_entry_ok(r, ty@, label@),
{
    proof {
        reveal_strlit("type");
        reveal_strlit("label");
        assert("type"@.len() != "label"@.len());
    }
    let mut es: Vec<(Vec<char>, Json)> = Vec::new();
    es.push((lit("type"), Json::Str(chars_of(ty))));
    es.push((lit("label"), Json::Str(chars_of(label))));
    proof {
        lemma_entries_get_at(es@, "type"@, 0, 0);
        lemma_entries_get_at(es@, "label"@, 0, 1);
    }
    Json::Object(es)
}

/// The backend types a user can choose, with their labels: the
/// OpenAI-compatible backend first, then the demonstration backend.
pub fn available_connector_types() -> (r: Vec<Json>)
    ensures
        r@.len() == 2,
        type_entry_ok(r@[0], "openai-compatible"@, "OpenAI 兼容"@),
        type_entry_ok(r@[1], "mock"@, "演示(Mock)"@),
{
    let mut r: Vec<Json> = Vec::new();
    r.push(type_entry("openai-compatible", "OpenAI 兼容"));
    r.push(type_entry("mock", "演示(Mock)"));
    r
}

/// The connection test of the demonstration backend: always ready, with its
/// one model, reachable and authenticated, as an HTTP 200 would be.
pub fn mock_test_report(m: &MockConnector) -> (r: ConnectionReport)
    ensures
        r.ok,
        r.message@ == mock::MOCK_READY_MESSAGE@,
        r.endpoint_reachable,
        r.authenticated,
        !r.fallback_used,
        r.http_status == Some(200u16),
        strings_view(r.models@) == seq!["mock-demo"@],
{
    let (ok, message) = m.test();
    let models = m.list_models();
    assert(strings_view(models@) =~= seq!["mock-demo"@]);
    ConnectionReport {
        ok,
        message,
        endpoint_reachable: true,
        authenticated: true,
        fallback_used: false,
        http_status: Some(200),
        models,
    }
}

} // verus!
