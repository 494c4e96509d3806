//! A JSON value as the library reads it, the lookups that the stream and
//! usage parsers perform on it, and the parse that serde_json performs.
use vstd::prelude::*;

verus! {

/// A parsed JSON value. Strings and keys are kept as characters; a number is
/// kept as what it reads as a signed and as an unsigned 64-bit integer (both
/// absent for fractions and out-of-range values).
#[derive(Debug, PartialEq)]
pub enum Json {
    Null,
    Bool(bool),
    Number(Option<i64>, Option<u64>),
    Str(Vec<char>),
    Array(Vec<Json>),
    Object(Vec<(Vec<char>, Json)>),
}

/// The value of the first member named `key` at or after position `i`.
pub open spec fn entries_get(es: Seq<(Vec<char>, Json)>, key: Seq<char>, i: int) -> Option<Json>
    decreases es.len() - i,
{
    if i < 0 || i >= es.len() {
        None
    } else if es[i].0@ == key {
        Some(es[i].1)
    } else {
        entries_get(es, key, i + 1)
    }
}

/// `Value::get` with a key: the member of an object, nothing for other values.
pub open spec fn obj_get(v: Json, key: Seq<char>) -> Option<Json> {
    match v {
        Json::Object(es) => entries_get(es@, key, 0),
        _ => None,
    }
}

/// One step of a JSON pointer (RFC 6901) with a reference token that is either
/// an object key or `"0"`: objects look the token up as a key, arrays take the
/// first element for `"0"` and nothing for a non-numeric token.
pub open spec fn pointer_step(v: Option<Json>, tok: Seq<char>) -> Option<Json> {
    match v {
        Some(Json::Object(es)) => entries_get(es@, tok, 0),
        Some(Json::Array(items)) => if tok == "0"@ && items@.len() > 0 {
            Some(items@[0])
        } else {
            None
        },
        _ => None,
    }
}

/// `Value::as_str`.
pub open spec fn as_str(v: Option<Json>) -> Option<Seq<char>> {
    match v {
        Some(Json::Str(s)) => Some(s@),
        _ => None,
    }
}

/// `Value::as_u64`.
pub open spec fn as_u64(v: Option<Json>) -> Option<u64> {
    match v {
        Some(Json::Number(_, u)) => u,
        _ => None,
    }
}

/// `Value::as_i64`.
pub open spec fn as_i64(v: Option<Json>) -> Option<i64> {
    match v {
        Some(Json::Number(i, _)) => i,
        _ => None,
    }
}

/// `Value::as_array`.
pub open spec fn as_array(v: Option<Json>) -> Option<Seq<Json>> {
    match v {
        Some(Json::Array(items)) => Some(items@),
        _ => None,
    }
}

/// The result of serde_json parsing `text` into a value, or the text of its error.
pub uninterp spec fn json_parse(text: Seq<char>) -> Result<Json, Seq<char>>;

#[verifier::external_type_specification]
#[verifier::external_body]
pub struct ExSerdeValue(serde_json::Value);

/// Rebuilds a serde_json value as a `Json`, variant for variant (strings as
/// their characters, numbers through `Number::as_i64` / `Number::as_u64`).
#[verifier::external_body]
fn json_from_serde(v: serde_json::Value) -> Json {
    match v {
        serde_json::Value::Null => Json::Null,
        serde_json::Value::Bool(b) => Json::Bool(b),
        serde_json::Value::Number(n) => Json::Number(n.as_i64(), n.as_u64()),
        serde_json::Value::String(s) => Json::Str(s.chars().collect()),
        serde_json::Value::Array(a) => Json::Array(a.into_iter().map(json_from_serde).collect()),
        serde_json::Value::Object(m) => Json::Object(
            m.into_iter().map(|(k, x)| (k.chars().collect(), json_from_serde(x))).collect(),
        ),
    }
}

/// `serde_json::from_str::<Value>` on the characters of `text`: the parsed
/// value, or the error's display text; the contract names that result
/// `json_parse(text)` and claims nothing more of it.
#[verifier::external_body]
fn serde_parse(text: &Vec<char>) -> (r: Result<Json, String>)
    ensures
        match r {
            Ok(v) => json_parse(text@) == Ok::<Json, Seq<char>>(v),
            Err(e) => json_parse(text@) == Err::<Json, Seq<char>>(e@),
        },
{
    let s: String = text.iter().collect();
    match serde_json::from_str::<serde_json::Value>(&s) {
        Ok(v) => Ok(json_from_serde(v)),
        Err(e) => Err(e.to_string()),
    }
}

/// A JSON text parsed into a value, or the parser's error text (see `json_parse`).
pub fn parse_json(text: &Vec<char>) -> (r: Result<Json, String>)
    ensures
        match r {
            Ok(v) => json_parse(text@) == Ok::<Json, Seq<char>>(v),
            Err(e) => json_parse(text@) == Err::<Json, Seq<char>>(e@),
        },
{
    serde_parse(text)
}

/// Whether two character sequences are equal.
pub fn eq_chars(a: &Vec<char>, b: &Vec<char>) -> (r: bool)
    ensures
        r == (a@ == b@),
{
    if a.len() != b.len() {
        return false;
    }
    let r = crate::text::chars_at(a, 0, b);
    assert(r == (a@ == b@)) by {
        assert(a@.subrange(0, b@.len() as int) =~= a@);
    }
    r
}

/// The value of the first member of `es` named `key`.
fn entries_lookup<'a>(es: &'a Vec<(Vec<char>, Json)>, key: &Vec<char>) -> (r: Option<&'a Json>)
    ensures
        match r {
            Some(x) => entries_get(es@, key@, 0) == Some(*x),
            None => entries_get(es@, key@, 0) is None,
        },
{
    let mut i: usize = 0;
    while i < es.len()
        invariant
            i <= es@.len(),
            entries_get(es@, key@, 0) == entries_get(es@, key@, i as int),
        decreases es.len() - i,
    {
        if eq_chars(&es[i].0, key) {
            return Some(&es[i].1);
        }
        i = i + 1;
    }
    None
}

/// `Value::get(key)` on an optional value: the member of an object, nothing otherwise.
pub open spec fn member_of(v: Option<Json>, key: Seq<char>) -> Option<Json> {
    match v {
        Some(w) => obj_get(w, key),
        None => None,
    }
}

/// `Value::get(key)` on an optional value.
pub fn member<'a>(v: Option<&'a Json>, key: &Vec<char>) -> (r: Option<&'a Json>)
    ensures
        opt_val(r) == member_of(opt_val(v), key@),
{
    match v {
        Some(Json::Object(es)) => entries_lookup(es, key),
        _ => None,
    }
}

/// One JSON-pointer step with token `tok` (an object key or `"0"`).
pub fn step<'a>(v: Option<&'a Json>, tok: &Vec<char>) -> (r: Option<&'a Json>)
    ensures
        opt_val(r) == pointer_step(opt_val(v), tok@),
{
    match v {
        Some(Json::Object(es)) => entries_lookup(es, tok),
        Some(Json::Array(items)) => {
            let zero = crate::text::chars_of("0");
            if eq_chars(tok, &zero) && items.len() > 0 {
                Some(&items[0])
            } else {
                None
            }
        },
        _ => None,
    }
}

/// `Value::as_str`, giving the characters.
pub fn str_of<'a>(v: Option<&'a Json>) -> (r: Option<&'a Vec<char>>)
    ensures
        match r {
            Some(s) => as_str(opt_val(v)) == Some(s@),
            None => as_str(opt_val(v)) is None,
        },
{
    match v {
        Some(Json::Str(s)) => Some(s),
        _ => None,
    }
}

/// `Value::as_u64`.
pub fn u64_of(v: Option<&Json>) -> (r: Option<u64>)
    ensures
        r == as_u64(opt_val(v)),
{
    match v {
        Some(Json::Number(_, u)) => *u,
        _ => None,
    }
}

/// `Value::as_i64`.
pub fn i64_of(v: Option<&Json>) -> (r: Option<i64>)
    ensures
        r == as_i64(opt_val(v)),
{
    match v {
        Some(Json::Number(i, _)) => *i,
        _ => None,
    }
}

/// `Value::as_array`.
pub fn array_of<'a>(v: Option<&'a Json>) -> (r: Option<&'a Vec<Json>>)
    ensures
        match r {
            Some(a) => as_array(opt_val(v)) == Some(a@),
            None => as_array(opt_val(v)) is None,
        },
{
    match v {
        Some(Json::Array(a)) => Some(a),
        _ => None,
    }
}

/// The value behind an optional reference.
pub open spec fn opt_val(v: Option<&Json>) -> Option<Json> {
    match v {
        Some(x) => Some(*x),
        None => None,
    }
}

/// A member found at position `i`, with no member of that name before it, is
/// what a lookup from any earlier position gives.
pub proof fn lemma_entries_get_at(es: Seq<(Vec<char>, Json)>, key: Seq<char>, k: int, i: int)
    requires
        0 <= k <= i < es.len(),
        es[i].0@ == key,
        forall|j: int| k <= j < i ==> (#[trigger] es[j]).0@ != key,
    ensures
        entries_get(es, key, k) == Some(es[i].1),
    decreases i - k,
{
    if k < i {
        lemma_entries_get_at(es, key, k + 1, i);
    }
}

/// A lookup finds nothing when no member from position `k` on has that name.
pub proof fn lemma_entries_get_absent(es: Seq<(Vec<char>, Json)>, key: Seq<char>, k: int)
    requires
        0 <= k,
        forall|j: int| k <= j < es.len() ==> (#[trigger] es[j]).0@ != key,
    ensures
        entries_get(es, key, k) is None,
    decreases es.len() - k,
{
    if k < es.len() {
        lemma_entries_get_absent(es, key, k + 1);
    }
}

/// A copy of a character vector.
pub fn copy_of(s: &Vec<char>) -> (r: Vec<char>)
    ensures
        r@ == s@,
{
    crate::text::slice_chars(s, 0, s.len())
}

} // verus!
