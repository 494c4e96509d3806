//! The server's settings taken from its environment: which values are read,
//! their defaults, the ranges a number must fall in, and the API token.
use vstd::prelude::*;
use crate::api::request_id::{hex_digit, uuid_v4_simple};
use crate::connectors::openai_compatible::{trim_end_all, trim_end_all_chars};
use crate::text::{append_chars, chars_of, lit, parse_usize, parse_usize_chars, string_of, trim, trim_chars};

verus! {

broadcast use vstd::string::group_string_axioms;

/// The raw values of the environment variables the settings come from; an
/// absent or empty value counts as unset.
pub struct EnvValues {
    pub host: Option<String>,
    pub port: Option<String>,
    pub connector: Option<String>,
    pub openai_base_url: Option<String>,
    pub openai_api_key: Option<String>,
    pub openai_model: Option<String>,
    pub default_max_tokens: Option<String>,
    pub default_max_context_tokens: Option<String>,
    pub log_level: Option<String>,
    pub allow_remote: Option<String>,
    pub strict_client_header: Option<String>,
    pub api_token: Option<String>,
}

/// The settings the server takes from its environment (paths and sampling
/// defaults aside).
pub struct EnvConfig {
    pub host: String,
    pub port: u16,
    pub connector: String,
    pub openai_base_url: String,
    pub openai_api_key: String,
    pub openai_model: String,
    pub default_max_tokens: u32,
    pub default_max_context_tokens: u32,
    pub log_level: String,
    pub api_token: String,
    pub auth_required: bool,
    pub api_token_injected: bool,
    pub allow_remote: bool,
    pub bootstrap_enabled: bool,
    pub strict_client_header: bool,
}

/// A variable's value when it is set (present and not empty).
pub open spec fn set_value(v: Option<String>) -> Option<Seq<char>> {
    match v {
        Some(s) => if s@.len() > 0 { Some(s@) } else { None },
        None => None,
    }
}

/// A variable's value, or `d` when it is unset.
pub open spec fn value_or(v: Option<String>, d: Seq<char>) -> Seq<char> {
    match set_value(v) {
        Some(s) => s,
        None => d,
    }
}

/// A number read from a variable: its decimal value when it is set, parses
/// and lies in `[lo, hi]`, else `d`.
pub open spec fn number_in(v: Option<String>, lo: int, hi: int, d: int) -> int {
    match set_value(v) {
        Some(s) => match parse_usize(s) {
            Some(n) => if lo <= n <= hi { n } else { d },
            None => d,
        },
        None => d,
    }
}

/// Whether a switch variable is on: exactly `1` or `true`.
pub open spec fn switch_on(v: Option<String>) -> bool {
    set_value(v) == Some("1"@) || set_value(v) == Some("true"@)
}

/// The connector named by the variable: `openai-compatible` when unset, the
/// name when it is `openai-compatible` or `mock`, any other name falling back to `mock`.
pub open spec fn connector_of(v: Option<String>) -> Seq<char> {
    let c = value_or(v, "openai-compatible"@);
    if c == "openai-compatible"@ || c == "mock"@ { c } else { "mock"@ }
}

/// Whether the listen host is a loopback name, written exactly.
pub open spec fn loopback_host(host: Seq<char>) -> bool {
    host == "127.0.0.1"@ || host == "localhost"@ || host == "::1"@
}

/// The settings from the environment values, the API token aside: defaults
/// `127.0.0.1`, port 3001, `https://api.openai.com/v1` (trailing `/` removed),
/// `gpt-4o-mini`, an output budget of 1024 (accepted in `[1, 131072]`), a
/// context window of 65536 (accepted in `[65536, 1048576]`), log level `info`;
/// authentication always required, bootstrap only on a loopback host.
pub open spec fn env_config_ok(c: EnvConfig, env: EnvValues) -> bool {
    &&& c.host@ == value_or(env.host, "127.0.0.1"@)
    &&& c.port as int == number_in(env.port, 0, 65535, 3001)
    &&& c.connector@ == connector_of(env.connector)
    &&& c.openai_base_url@ == trim_end_all(value_or(env.openai_base_url, "https://api.openai.com/v1"@), "/"@)
    &&& c.openai_api_key@ == value_or(env.openai_api_key, seq![])
    &&& c.openai_model@ == value_or(env.openai_model, "gpt-4o-mini"@)
    &&& c.default_max_tokens as int == number_in(env.default_max_tokens, 1, 131072, 1024)
    &&& c.default_max_context_tokens as int == number_in(env.default_max_context_tokens, 65536, 1048576, 65536)
    &&& c.log_level@ == value_or(env.log_level, "info"@)
    &&& c.auth_required
    &&& c.api_token_injected == (set_value(env.api_token) is Some)
    &&& c.allow_remote == switch_on(env.allow_remote)
    &&& c.strict_client_header == switch_on(env.strict_client_header)
    &&& c.bootstrap_enabled == loopback_host(c.host@)
}

fn value_or_chars(v: &Option<String>, d: &str) -> (r: Vec<char>)
    ensures
        r@ == value_or(*v, d@),
{
    match v {
        Some(s) => {
            let c = chars_of(s.as_str());
            if c.len() > 0 {
                c
            } else {
                chars_of(d)
            }
        },
        None => chars_of(d),
    }
}

fn number_from(v: &Option<String>, lo: usize, hi: usize, d: usize) -> (r: usize)
    requires
        lo <= d <= hi,
    ensures
        r as int == number_in(*v, lo as int, hi as int, d as int),
        lo <= r <= hi,
{
    match v {
        Some(s) => {
            let c = chars_of(s.as_str());
            if c.len() == 0 {
                return d;
            }
            match parse_usize_chars(&c) {
                Some(n) => if lo <= n && n <= hi {
                    n
                } else {
                    d
                },
                None => d,
            }
        },
        None => d,
    }
}

fn switch_from(v: &Option<String>) -> (r: bool)
    ensures
        r == switch_on(*v),
{
    proof {
        reveal_strlit("1");
        reveal_strlit("true");
    }
    match v {
        Some(s) => {
            let c = chars_of(s.as_str());
            c.len() > 0 && (crate::json::eq_chars(&c, &lit("1")) || crate::json::eq_chars(&c, &lit("true")))
        },
        None => false,
    }
}

/// A fresh API token: the simple forms of two random version-4 UUIDs, 64
/// lower-case hexadecimal digits in all.
pub fn fresh_api_token() -> (r: String)
    ensures
        r@.len() == 64,
        forall|i: int| 0 <= i < 64 ==> hex_digit(#[trigger] r@[i]),
{
    let mut t = chars_of(uuid_v4_simple().as_str());
    let second = chars_of(uuid_v4_simple().as_str());
    let ghost first = t@;
    append_chars(&mut t, &second);
    assert forall|i: int| 0 <= i < 64 implies hex_digit(#[trigger] t@[i]) by {
        if i < 32 {
            assert(t@[i] == first[i]);
        } else {
            assert(t@[i] == second@[i - 32]);
        }
    }
    string_of(&t)
}

/// The settings from the environment values (see `env_config_ok`); the API
/// token is the injected one when there is one, else a fresh random one.
pub fn env_config(env: &EnvValues) -> (r: EnvConfig)
    ensures
        env_config_ok(r, *env),
        match set_value(env.api_token) {
            Some(t) => r.api_token@ == t,
            None => r.api_token@.len() == 64 && forall|i: int| 0 <= i < 64 ==> hex_digit(#[trigger] r.api_token@[i]),
        },
{
    proof {
        reveal_strlit("");
    }
    let host = string_of(&value_or_chars(&env.host, "127.0.0.1"));
    let port = number_from(&env.port, 0, 65535, 3001) as u16;
    let c = value_or_chars(&env.connector, "openai-compatible");
    let connector = if crate::json::eq_chars(&c, &lit("openai-compatible")) || crate::json::eq_chars(&c, &lit("mock")) {
        string_of(&c)
    } else {
        "mock".to_owned()
    };
    let base = value_or_chars(&env.openai_base_url, "https://api.openai.com/v1");
    let base_url = string_of(&trim_end_all_chars(&base, &lit("/")));
    let max_tokens = number_from(&env.default_max_tokens, 1, 131072, 1024) as u32;
    let max_context = number_from(&env.default_max_context_tokens, 65536, 1048576, 65536) as u32;
    let (api_token, injected) = match &env.api_token {
        Some(t) => if t.as_str().unicode_len() > 0 {
            (t.clone(), true)
        } else {
            (fresh_api_token(), false)
        },
        None => (fresh_api_token(), false),
    };
    let hc = chars_of(host.as_str());
    let loopback = crate::json::eq_chars(&hc, &lit("127.0.0.1")) || crate::json::eq_chars(&hc, &lit("localhost"))
        || crate::json::eq_chars(&hc, &lit("::1"));
    let r = EnvConfig {
        host,
        port,
        connector,
        openai_base_url: base_url,
        openai_api_key: string_of(&value_or_chars(&env.openai_api_key, "")),
        openai_model: string_of(&value_or_chars(&env.openai_model, "gpt-4o-mini")),
        default_max_tokens: max_tokens,
        default_max_context_tokens: max_context,
        log_level: string_of(&value_or_chars(&env.log_level, "info")),
        api_token,
        auth_required: true,
        api_token_injected: injected,
        allow_remote: switch_from(&env.allow_remote),
        bootstrap_enabled: loopback,
        strict_client_header: switch_from(&env.strict_client_header),
    };
    assert(r.openai_api_key@ == value_or(env.openai_api_key, seq![]));
    r
}

/// The connector a server starts with: OpenAI-compatible when the saved base
/// URL and key are both set (not blank), else the configured one.
pub fn startup_connector(config_connector: &str, base_url: &str, api_key: &str) -> (r: String)
    ensures
        r@ == if trim(base_url@).len() > 0 && trim(api_key@).len() > 0 {
            "openai-compatible"@
        } else {
            config_connector@
        },
{
    if trim_chars(&chars_of(base_url)).len() > 0 && trim_chars(&chars_of(api_key)).len() > 0 {
        "openai-compatible".to_owned()
    } else {
        config_connector.to_owned()
    }
}

/// Whatever the environment says, the output budget lies in `[1, 131072]`
/// and the context window in `[64 Ki, 1 Mi]` tokens.
pub proof fn law_env_numbers_in_range(env: EnvValues)
    ensures
        1 <= number_in(env.default_max_tokens, 1, 131072, 1024) <= 131072,
        65536 <= number_in(env.default_max_context_tokens, 65536, 1048576, 65536) <= 1048576,
        0 <= number_in(env.port, 0, 65535, 3001) <= 65535,
{
}

} // verus!
