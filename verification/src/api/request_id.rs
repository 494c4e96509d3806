//! Request ids: a client's id is kept when it is short visible ASCII, else a
//! short random id is made; and the fields of the access log line.
use vstd::prelude::*;
use crate::text::{append_chars, chars_of, lit, string_of, trim};

verus! {

broadcast use vstd::string::group_string_axioms;

/// The header that carries the request id, in and out.
pub const REQUEST_ID_HEADER: &'static str = "x-request-id";

/// The longest client id that is kept.
pub const MAX_CLIENT_ID_LEN: usize = 64;

/// The number of hexadecimal digits of a made id.
pub const GENERATED_ID_CHARS: usize = 16;

/// The client's id as it is kept: trimmed, not empty, at most 64 bytes, and
/// every byte visible ASCII (`!` to `~`).
pub open spec fn client_id_of(raw: Seq<char>) -> Option<Seq<char>> {
    let t = trim(raw);
    let b = vstd::utf8::encode_utf8(t);
    if t.len() == 0 || b.len() > MAX_CLIENT_ID_LEN {
        None
    } else if forall|i: int| 0 <= i < b.len() ==> 0x21 <= #[trigger] b[i] && b[i] <= 0x7e {
        Some(t)
    } else {
        None
    }
}

/// The client's id as it is kept, or nothing (see `client_id_of`).
pub fn sanitize_client_id(raw: &str) -> (r: Option<String>)
    ensures
        crate::api::chat::text_opt(r) == client_id_of(raw@),
{
    let t = string_of(&crate::text::trim_chars(&chars_of(raw)));
    let b = t.as_str().as_bytes();
    assert(t@ == trim(raw@));
    assert(b@ == vstd::utf8::encode_utf8(trim(raw@)));
    if t.as_str().unicode_len() == 0 || b.len() > MAX_CLIENT_ID_LEN {
        return None;
    }
    for i in 0..b.len()
        invariant
            b@ == vstd::utf8::encode_utf8(t@),
            t@ == trim(raw@),
            t@.len() > 0,
            b@.len() <= MAX_CLIENT_ID_LEN,
            forall|k: int| 0 <= k < i ==> 0x21 <= #[trigger] b@[k] && b@[k] <= 0x7e,
    {
        if b[i] < 0x21 || b[i] > 0x7e {
            assert(!(0x21 <= vstd::utf8::encode_utf8(t@)[i as int] && vstd::utf8::encode_utf8(t@)[i as int] <= 0x7e));
            return None;
        }
    }
    Some(t)
}

/// Whether a character is a lower-case hexadecimal digit.
pub open spec fn hex_digit(c: char) -> bool {
    ('0' <= c && c <= '9') || ('a' <= c && c <= 'f')
}

/// `Uuid::new_v4` and `Uuid::simple` formatted with `to_string`: a random
/// version-4 UUID as 32 lower-case hexadecimal digits, as the `uuid` crate
/// documents its simple format. Nothing else is claimed of the value.
#[verifier::external_body]
pub(crate) fn uuid_v4_simple() -> (r: String)
    ensures
        r@.len() == 32,
        forall|i: int| 0 <= i < 32 ==> hex_digit(#[trigger] r@[i]),
{
    uuid::Uuid::new_v4().simple().to_string()
}

/// A made request id: `req-` and 16 lower-case hexadecimal digits of a random UUID.
pub fn generate_id() -> (r: String)
    ensures
        r@.len() == 4 + GENERATED_ID_CHARS,
        r@.take(4) == "req-"@,
        forall|i: int| 4 <= i < r@.len() ==> hex_digit(#[trigger] r@[i]),
{
    let hex = chars_of(uuid_v4_simple().as_str());
    let mut out = lit("req-");
    proof {
        reveal_strlit("req-");
    }
    append_chars(&mut out, &crate::text::slice_chars(&hex, 0, GENERATED_ID_CHARS));
    assert(out@.take(4) =~= "req-"@);
    assert forall|i: int| 4 <= i < out@.len() implies hex_digit(#[trigger] out@[i]) by {
        assert(out@[i] == hex@[i - 4]);
    }
    string_of(&out)
}

/// Whether an id has the shape of a made one: `req-` and 16 lower-case
/// hexadecimal digits.
pub open spec fn made_id(g: Seq<char>) -> bool {
    &&& g.len() == 4 + GENERATED_ID_CHARS
    &&& g.take(4) == "req-"@
    &&& forall|i: int| 4 <= i < g.len() ==> hex_digit(#[trigger] g[i])
}

/// The id of a request: the client's id when it is kept, else a made one.
pub fn request_id(header: Option<&str>) -> (r: String)
    ensures
        match header {
            Some(h) => match client_id_of(h@) {
                Some(t) => r@ == t,
                None => made_id(r@),
            },
            None => made_id(r@),
        },
{
    match header {
        Some(h) => match sanitize_client_id(h) {
            Some(t) => t,
            None => generate_id(),
        },
        None => generate_id(),
    }
}

/// Every id the server answers with is one it would keep unchanged if a
/// client sent it back: a kept client id is kept again as it is, and a made
/// id is a valid client id.
pub proof fn law_echoed_ids_are_kept(raw: Seq<char>, g: Seq<char>)
    ensures
        client_id_of(raw) matches Some(t) ==> client_id_of(t) == Some(t),
        made_id(g) ==> client_id_of(g) == Some(g),
{
    crate::text::lemma_trim_idempotent(raw);
    if made_id(g) {
        reveal_strlit("req-");
        assert(g[0] == g.take(4)[0]);
        assert(g[0] == 'r');
        assert(hex_digit(g[g.len() - 1]));
        crate::text::lemma_trim_fixed(g);
        assert(vstd::utf8::is_ascii_chars(g)) by {
            assert forall|i: int| 0 <= i < g.len() implies '\0' <= #[trigger] g[i] <= '\u{7f}' by {
                if i < 4 {
                    assert(g[i] == g.take(4)[i]);
                } else {
                    assert(hex_digit(g[i]));
                }
            }
        }
        vstd::utf8::is_ascii_chars_encode_utf8(g);
        let b = vstd::utf8::encode_utf8(g);
        assert forall|i: int| 0 <= i < b.len() implies 0x21 <= #[trigger] b[i] && b[i] <= 0x7e by {
            assert(g[i] as u8 == b[i]);
            if i < 4 {
                assert(g[i] == g.take(4)[i]);
            } else {
                assert(hex_digit(g[i]));
            }
        }
    }
}

/// The fields of one access-log line.
#[derive(Debug, Clone, Copy, PartialEq, Eq)]
pub struct AccessLog<'a> {
    pub method: &'a str,
    pub path: &'a str,
    pub status: u16,
    pub duration_ms: u64,
}

/// The fields of an access-log line: method, path, status code and the
/// whole milliseconds of the request (as `u128 as u64` gives them).
pub fn access_log<'a>(method: &'a str, path: &'a str, status: u16, elapsed_ms: u128) -> (r: AccessLog<'a>)
    ensures
        r.method@ == method@,
        r.path@ == path@,
        r.status == status,
        r.duration_ms == elapsed_ms as u64,
{
    AccessLog { method, path, status, duration_ms: elapsed_ms as u64 }
}

} // verus!
