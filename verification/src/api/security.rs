//! The API guard: which requests are refused before they reach a handler
//! (host, cross-site, origin, content type, client header, bootstrap
//! restrictions and bearer token), the bootstrap rate limit, and the
//! security headers of each kind of response.
use vstd::prelude::*;
use crate::text::{chars_of, lit, starts_with, string_of, trim};

verus! {

broadcast use vstd::string::group_string_axioms;

/// A character lower-cased if it is an ASCII capital.
pub open spec fn ascii_lower(c: char) -> char {
    if 'A' <= c && c <= 'Z' { ((c as u32) + 32) as char } else { c }
}

/// Whether two strings are equal ignoring ASCII case (`eq_ignore_ascii_case`).
pub open spec fn eq_ascii_ci(a: Seq<char>, b: Seq<char>) -> bool {
    a.len() == b.len() && forall|i: int| 0 <= i < a.len() ==> ascii_lower(#[trigger] a[i]) == ascii_lower(b[i])
}

/// `s` with ASCII capitals lower-cased (`to_ascii_lowercase`).
pub open spec fn ascii_lowercase(s: Seq<char>) -> Seq<char> {
    s.map_values(|c: char| ascii_lower(c))
}

fn lower_char(c: char) -> (r: char)
    ensures
        r == ascii_lower(c),
{
    match c {
        'A' => 'a',
        'B' => 'b',
        'C' => 'c',
        'D' => 'd',
        'E' => 'e',
        'F' => 'f',
        'G' => 'g',
        'H' => 'h',
        'I' => 'i',
        'J' => 'j',
        'K' => 'k',
        'L' => 'l',
        'M' => 'm',
        'N' => 'n',
        'O' => 'o',
        'P' => 'p',
        'Q' => 'q',
        'R' => 'r',
        'S' => 's',
        'T' => 't',
        'U' => 'u',
        'V' => 'v',
        'W' => 'w',
        'X' => 'x',
        'Y' => 'y',
        'Z' => 'z',
        _ => c,
    }
}

/// `s` with ASCII capitals lower-cased.
pub fn ascii_lowercase_chars(s: &Vec<char>) -> (r: Vec<char>)
    ensures
        r@ == ascii_lowercase(s@),
{
    let mut out: Vec<char> = Vec::new();
    for i in 0..s.len()
        invariant
            out@ == ascii_lowercase(s@.take(i as int)),
    {
        out.push(lower_char(s[i]));
        assert(out@ =~= ascii_lowercase(s@.take(i + 1)));
    }
    assert(s@.take(s@.len() as int) =~= s@);
    out
}

/// Whether two strings are equal ignoring ASCII case.
pub fn eq_ignore_ascii_case(a: &Vec<char>, b: &Vec<char>) -> (r: bool)
    ensures
        r == eq_ascii_ci(a@, b@),
{
    if a.len() != b.len() {
        return false;
    }
    for i in 0..a.len()
        invariant
            a@.len() == b@.len(),
            forall|k: int| 0 <= k < i ==> ascii_lower(#[trigger] a@[k]) == ascii_lower(b@[k]),
    {
        if lower_char(a[i]) != lower_char(b[i]) {
            return false;
        }
    }
    true
}

/// Whether two byte strings are equal, compared in time that depends only on
/// their length.
pub fn constant_time_eq(left: &[u8], right: &[u8]) -> (r: bool)
    ensures
        r == (left@ == right@),
{
    if left.len() != right.len() {
        return false;
    }
    let mut diff: u8 = 0;
    for i in 0..left.len()
        invariant
            left@.len() == right@.len(),
            left@.len() == left.len(),
            (diff == 0) == (forall|k: int| 0 <= k < i ==> left@[k] == right@[k]),
    {
        let a = left[i];
        let b = right[i];
        let d = diff | (a ^ b);
        assert((d == 0) == (diff == 0 && a == b)) by (bit_vector)
            requires
                d == diff | (a ^ b),
        ;
        diff = d;
    }
    if diff == 0 {
        assert(left@ =~= right@);
    }
    diff == 0
}

/// Whether a host name is the loopback: `localhost` in any case, `127.0.0.1` or `::1`.
pub open spec fn loopback_name(host: Seq<char>) -> bool {
    eq_ascii_ci(host, "localhost"@) || host == "127.0.0.1"@ || host == "::1"@
}

/// Whether a host name is the loopback.
pub fn is_loopback_name(host: &str) -> (r: bool)
    ensures
        r == loopback_name(host@),
{
    let h = chars_of(host);
    eq_ignore_ascii_case(&h, &lit("localhost")) || crate::json::eq_chars(&h, &lit("127.0.0.1"))
        || crate::json::eq_chars(&h, &lit("::1"))
}

/// Whether a method writes: `POST`, `PUT` or `PATCH`.
pub open spec fn mutating(method: Seq<char>) -> bool {
    method == "POST"@ || method == "PUT"@ || method == "PATCH"@
}

/// Whether a method writes.
pub fn mutates(method: &str) -> (r: bool)
    ensures
        r == mutating(method@),
{
    let m = chars_of(method);
    crate::json::eq_chars(&m, &lit("POST")) || crate::json::eq_chars(&m, &lit("PUT"))
        || crate::json::eq_chars(&m, &lit("PATCH"))
}

/// Whether a content type is one the API takes: JSON or multipart form data
/// (by prefix, ignoring ASCII case).
pub open spec fn content_type_ok(value: Option<Seq<char>>) -> bool {
    match value {
        Some(v) => starts_with(ascii_lowercase(v), "application/json"@) || starts_with(
            ascii_lowercase(v),
            "multipart/form-data"@,
        ),
        None => false,
    }
}

/// Whether a content type is one the API takes.
pub fn valid_content_type(value: Option<&str>) -> (r: bool)
    ensures
        r == content_type_ok(crate::api::chat::opt_view(value)),
{
    match value {
        Some(v) => {
            let lower = ascii_lowercase_chars(&chars_of(v));
            crate::text::starts_with_chars(&lower, &lit("application/json"))
                || crate::text::starts_with_chars(&lower, &lit("multipart/form-data"))
        },
        None => false,
    }
}

/// Whether an `Authorization` header carries the API token: `Bearer ` and
/// then exactly the token's bytes.
pub open spec fn token_ok(value: Option<Seq<char>>, token: Seq<char>) -> bool {
    match value {
        Some(v) => starts_with(v, "Bearer "@) && vstd::utf8::encode_utf8(v.skip(7))
            == vstd::utf8::encode_utf8(token),
        None => false,
    }
}

/// Whether an `Authorization` header carries the API token.
pub fn valid_token(value: Option<&str>, token: &str) -> (r: bool)
    ensures
        r == token_ok(crate::api::chat::opt_view(value), token@),
{
    proof {
        reveal_strlit("Bearer ");
    }
    match value {
        Some(v) => {
            let cs = chars_of(v);
            if !crate::text::starts_with_chars(&cs, &lit("Bearer ")) {
                return false;
            }
            let rest = crate::text::slice_chars(&cs, 7, cs.len());
            assert(rest@ =~= v@.skip(7));
            let candidate = string_of(&rest);
            constant_time_eq(candidate.as_str().as_bytes(), token.as_bytes())
        },
        None => false,
    }
}

/// What `url::Url::parse` makes of a string: its scheme and its host, when it parses.
pub uninterp spec fn url_parts(raw: Seq<char>) -> Option<(Seq<char>, Option<Seq<char>>)>;

/// `reqwest::Url::parse` (the `url` crate's `Url::parse`), then `Url::scheme`
/// and `Url::host_str`: the scheme and host of a URL, or nothing when it does
/// not parse. The contract names the result `url_parts(raw)` and claims
/// nothing more of it.
#[verifier::external_body]
pub(crate) fn parse_url_parts(raw: &str) -> (r: Option<(String, Option<String>)>)
    ensures
        match r {
            Some((s, h)) => url_parts(raw@) == Some((s@, crate::api::chat::text_opt(h))),
            None => url_parts(raw@) is None,
        },
{
    match reqwest::Url::parse(raw) {
        Ok(u) => Some((u.scheme().to_string(), u.host_str().map(|h| h.to_string()))),
        Err(_) => None,
    }
}

/// Whether an `Origin` header is acceptable: absent, or an `http`, `https`
/// or `tauri` URL of a loopback host.
pub open spec fn origin_ok(value: Option<Seq<char>>) -> bool {
    match value {
        None => true,
        Some(o) => match url_parts(o) {
            Some((scheme, host)) => (scheme == "http"@ || scheme == "https"@ || scheme == "tauri"@)
                && (host matches Some(h) && loopback_name(h)),
            None => false,
        },
    }
}

/// Whether an `Origin` header is acceptable.
pub fn valid_origin(value: Option<&str>) -> (r: bool)
    ensures
        r == origin_ok(crate::api::chat::opt_view(value)),
{
    match value {
        None => true,
        Some(o) => match parse_url_parts(o) {
            Some((scheme, host)) => {
                let sc = chars_of(scheme.as_str());
                let scheme_ok = crate::json::eq_chars(&sc, &lit("http")) || crate::json::eq_chars(&sc, &lit("https"))
                    || crate::json::eq_chars(&sc, &lit("tauri"));
                scheme_ok && match &host {
                    Some(h) => is_loopback_name(h.as_str()),
                    None => false,
                }
            },
            None => false,
        },
    }
}

/// The host of a `Host` header as `http::uri::Authority` parses it.
pub uninterp spec fn authority_host_raw(raw: Seq<char>) -> Option<Seq<char>>;

/// `raw.parse::<http::uri::Authority>()` and `Authority::host`: the host part
/// of an authority, or nothing when it does not parse. The contract names the
/// result `authority_host_raw(raw)` and claims nothing more of it.
#[verifier::external_body]
pub(crate) fn parse_authority_host(raw: &str) -> (r: Option<String>)
    ensures
        crate::api::chat::text_opt(r) == authority_host_raw(raw@),
{
    match raw.parse::<axum::http::uri::Authority>() {
        Ok(a) => Some(a.host().to_string()),
        Err(_) => None,
    }
}

/// The host of a `Host` header, without the brackets of an IPv6 literal.
pub open spec fn header_host(value: Option<Seq<char>>) -> Option<Seq<char>> {
    match value {
        Some(raw) => match authority_host_raw(raw) {
            Some(h) => if h.len() >= 2 && h[0] == '[' && h.last() == ']' {
                Some(h.subrange(1, h.len() - 1))
            } else {
                Some(h)
            },
            None => None,
        },
        None => None,
    }
}

/// Whether a `Host` header names an acceptable host: the loopback, or any
/// non-blank host when remote access is allowed.
pub open spec fn host_ok(value: Option<Seq<char>>, allow_remote: bool) -> bool {
    header_host(value) matches Some(name) && (loopback_name(name) || (allow_remote && trim(name).len() > 0))
}

/// Whether a `Host` header names an acceptable host.
pub fn valid_host(value: Option<&str>, allow_remote: bool) -> (r: bool)
    ensures
        r == host_ok(crate::api::chat::opt_view(value), allow_remote),
{
    let raw = match value {
        Some(v) => v,
        None => {
            return false;
        },
    };
    let h = match parse_authority_host(raw) {
        Some(h) => chars_of(h.as_str()),
        None => {
            return false;
        },
    };
    let name = if h.len() >= 2 && h[0] == '[' && h[h.len() - 1] == ']' {
        crate::text::slice_chars(&h, 1, h.len() - 1)
    } else {
        h
    };
    let s = string_of(&name);
    is_loopback_name(s.as_str()) || (allow_remote && crate::text::trim_chars(&name).len() > 0)
}

/// What the guard reads of a request: its path and method, the header values
/// that are visible ASCII (others count as absent), whether the client header
/// is present, and its peer (address text and whether it is the loopback).
pub struct GuardRequest {
    pub path: String,
    pub method: String,
    pub host: Option<String>,
    pub sec_fetch_site: Option<String>,
    pub origin: Option<String>,
    pub content_type: Option<String>,
    pub has_client_header: bool,
    pub authorization: Option<String>,
    pub peer: String,
    pub loopback_peer: bool,
}

/// The guard's settings.
pub struct GuardConfig {
    pub auth_required: bool,
    pub allow_remote: bool,
    pub strict_client_header: bool,
    pub bootstrap_enabled: bool,
    pub api_token: String,
}

/// A refused request: its status and message (a 401 also carries the code `UNAUTHORIZED`).
#[derive(Debug)]
pub struct Rejection {
    pub status: u16,
    pub message: String,
}

/// The bootstrap rate-limit window.
pub const BOOTSTRAP_WINDOW_MS: u64 = 60000;

/// The bootstrap requests allowed per peer and window.
pub const BOOTSTRAP_MAX_REQUESTS: u32 = 30;

/// Bootstrap requests per peer: when the window began and how many came in
/// it (counted up to one more than allowed: any count beyond the limit is
/// refused alike).
pub struct BootstrapLimiter {
    entries: Vec<(String, u64, u32)>,
}

/// The view of a limiter: per peer, the window start and the count.
pub open spec fn limiter_entries(v: Seq<(String, u64, u32)>) -> Seq<(Seq<char>, u64, u32)> {
    v.map_values(|e: (String, u64, u32)| (e.0@, e.1, e.2))
}

impl View for BootstrapLimiter {
    type V = Seq<(Seq<char>, u64, u32)>;

    closed spec fn view(&self) -> Seq<(Seq<char>, u64, u32)> {
        limiter_entries(self.entries@)
    }
}

/// The position of a peer's entry.
pub open spec fn peer_index(es: Seq<(Seq<char>, u64, u32)>, peer: Seq<char>) -> Option<int> {
    if exists|i: int| 0 <= i < es.len() && (#[trigger] es[i]).0 == peer {
        Some(choose|i: int| 0 <= i < es.len() && (#[trigger] es[i]).0 == peer)
    } else {
        None
    }
}

/// The window start and count of a peer before a request at `now`: a new
/// window when there is none or the last began a window's length ago.
pub open spec fn window_before(es: Seq<(Seq<char>, u64, u32)>, peer: Seq<char>, now: u64) -> (u64, u32) {
    match peer_index(es, peer) {
        Some(i) => if now >= es[i].1 && now - es[i].1 >= BOOTSTRAP_WINDOW_MS {
            (now, 0)
        } else {
            (es[i].1, es[i].2)
        },
        None => (now, 0),
    }
}

/// Whether a bootstrap request at `now` is within the limit: at most 30 in its window.
pub open spec fn rate_ok(es: Seq<(Seq<char>, u64, u32)>, peer: Seq<char>, now: u64) -> bool {
    window_before(es, peer, now).1 + 1 <= BOOTSTRAP_MAX_REQUESTS
}

/// The limiter after a bootstrap request at `now`: the peer's window and
/// count (one more, counted up to 31), every other peer unchanged.
pub open spec fn after_hit(es: Seq<(Seq<char>, u64, u32)>, peer: Seq<char>, now: u64) -> Seq<(Seq<char>, u64, u32)> {
    let (start, count) = window_before(es, peer, now);
    let next: u32 = if count >= BOOTSTRAP_MAX_REQUESTS { (BOOTSTRAP_MAX_REQUESTS + 1) as u32 } else { (count + 1) as u32 };
    match peer_index(es, peer) {
        Some(i) => es.update(i, (peer, start, next)),
        None => es.push((peer, start, next)),
    }
}

impl BootstrapLimiter {
    /// Whether no peer holds two entries.
    pub closed spec fn wf(&self) -> bool {
        forall|i: int, j: int|
            0 <= i < j < self.entries@.len() ==> (#[trigger] self.entries@[i]).0@ != (#[trigger] self.entries@[j]).0@
    }

    /// A limiter with no requests.
    pub fn new() -> (r: Self)
        ensures
            r.wf(),
            r@ == Seq::<(Seq<char>, u64, u32)>::empty(),
    {
        let r = BootstrapLimiter { entries: Vec::new() };
        assert(r@ =~= Seq::<(Seq<char>, u64, u32)>::empty());
        r
    }

    /// Counts a bootstrap request of `peer` at `now` (milliseconds of a
    /// monotonic clock) and says whether it is within the limit.
    pub fn hit(&mut self, peer: &str, now: u64) -> (ok: bool)
        requires
            old(self).wf(),
        ensures
            final(self).wf(),
            ok == rate_ok(old(self)@, peer@, now),
            final(self)@ == after_hit(old(self)@, peer@, now),
    {
        let ghost es = self@;
        let want = chars_of(peer);
        let mut idx: Option<usize> = None;
        for i in 0..self.entries.len()
            invariant
                self@ == es,
                es == limiter_entries(self.entries@),
                want@ == peer@,
                match idx {
                    Some(k) => k < i && es[k as int].0 == peer@,
                    None => forall|j: int| 0 <= j < i ==> (#[trigger] es[j]).0 != peer@,
                },
        {
            if idx.is_none() && crate::json::eq_chars(&chars_of(self.entries[i].0.as_str()), &want) {
                idx = Some(i);
            }
        }
        proof {
            match idx {
                Some(k) => {
                    assert(exists|i: int| 0 <= i < es.len() && (#[trigger] es[i]).0 == peer@);
                    let c = choose|i: int| 0 <= i < es.len() && (#[trigger] es[i]).0 == peer@;
                    if c != k as int {
                        if c < k {
                            assert(self.entries@[c].0@ != self.entries@[k as int].0@);
                        } else {
                            assert(self.entries@[k as int].0@ != self.entries@[c].0@);
                        }
                    }
                    assert(peer_index(es, peer@) == Some(k as int));
                },
                None => {
                    assert(peer_index(es, peer@) is None);
                },
            }
        }
        let (start, count) = match idx {
            Some(k) => {
                let (_, s, c) = self.entries[k];
                if now >= s && now - s >= BOOTSTRAP_WINDOW_MS {
                    (now, 0u32)
                } else {
                    (s, c)
                }
            },
            None => (now, 0u32),
        };
        let next: u32 = if count >= BOOTSTRAP_MAX_REQUESTS { BOOTSTRAP_MAX_REQUESTS + 1 } else { count + 1 };
        let ghost old_entries = self.entries@;
        match idx {
            Some(k) => {
                self.entries.set(k, (peer.to_owned(), start, next));
                assert(self.entries@[k as int].0@ == old_entries[k as int].0@);
                assert forall|i: int, j: int| 0 <= i < j < self.entries@.len() implies (#[trigger] self.entries@[i]).0@ != (#[trigger] self.entries@[j]).0@ by {
                    assert(old_entries[i].0@ != old_entries[j].0@);
                    if i != k as int {
                        assert(self.entries@[i] == old_entries[i]);
                    }
                    if j != k as int {
                        assert(self.entries@[j] == old_entries[j]);
                    }
                }
            },
            None => {
                self.entries.push((peer.to_owned(), start, next));
                assert forall|i: int, j: int| 0 <= i < j < self.entries@.len() implies (#[trigger] self.entries@[i]).0@ != (#[trigger] self.entries@[j]).0@ by {
                    if j < old_entries.len() {
                        assert(old_entries[i].0@ != old_entries[j].0@);
                    } else {
                        assert(es[i].0 != peer@);
                    }
                }
            },
        }
        assert(self@ =~= after_hit(es, peer@, now));
        count < BOOTSTRAP_MAX_REQUESTS
    }
}

/// Whether no peer holds two entries of a limiter's view.
pub open spec fn unique_peers(es: Seq<(Seq<char>, u64, u32)>) -> bool {
    forall|i: int, j: int| 0 <= i < j < es.len() ==> (#[trigger] es[i]).0 != (#[trigger] es[j]).0
}

/// A limiter's view after the bootstrap requests of one peer at the times `ts`, in order.
pub open spec fn hits(es: Seq<(Seq<char>, u64, u32)>, peer: Seq<char>, ts: Seq<u64>) -> Seq<(Seq<char>, u64, u32)>
    decreases ts.len(),
{
    if ts.len() == 0 {
        es
    } else {
        after_hit(hits(es, peer, ts.drop_last()), peer, ts.last())
    }
}

proof fn lemma_peer_index_at(es: Seq<(Seq<char>, u64, u32)>, peer: Seq<char>, i: int)
    requires
        unique_peers(es),
        0 <= i < es.len(),
        es[i].0 == peer,
    ensures
        peer_index(es, peer) == Some(i),
{
    let c = choose|k: int| 0 <= k < es.len() && (#[trigger] es[k]).0 == peer;
    if c != i {
        if c < i {
            assert(es[c].0 != es[i].0);
        } else {
            assert(es[i].0 != es[c].0);
        }
    }
}

proof fn lemma_after_hit_entry(es: Seq<(Seq<char>, u64, u32)>, peer: Seq<char>, now: u64)
    requires
        unique_peers(es),
    ensures
        unique_peers(after_hit(es, peer, now)),
        ({
            let (start, count) = window_before(es, peer, now);
            let next: u32 = if count >= BOOTSTRAP_MAX_REQUESTS { (BOOTSTRAP_MAX_REQUESTS + 1) as u32 } else { (count + 1) as u32 };
            exists|i: int| 0 <= i < after_hit(es, peer, now).len()
                && #[trigger] after_hit(es, peer, now)[i] == (peer, start, next)
                && peer_index(after_hit(es, peer, now), peer) == Some(i)
        }),
        forall|q: Seq<char>| q != peer ==> (#[trigger] peer_index(after_hit(es, peer, now), q) matches Some(j)
            ==> peer_index(es, q) == Some(j) && after_hit(es, peer, now)[j] == es[j]),
        forall|q: Seq<char>| q != peer ==> (#[trigger] peer_index(after_hit(es, peer, now), q) is None
            <==> peer_index(es, q) is None),
{
    let a = after_hit(es, peer, now);
    let (start, count) = window_before(es, peer, now);
    let next: u32 = if count >= BOOTSTRAP_MAX_REQUESTS { (BOOTSTRAP_MAX_REQUESTS + 1) as u32 } else { (count + 1) as u32 };
    let k: int = match peer_index(es, peer) {
        Some(i) => i,
        None => es.len() as int,
    };
    match peer_index(es, peer) {
        Some(i) => {
            assert(0 <= i < es.len() && es[i].0 == peer);
        },
        None => {
            assert(forall|j: int| 0 <= j < es.len() ==> (#[trigger] es[j]).0 != peer);
        },
    }
    assert(a.len() == if k < es.len() { es.len() as int } else { es.len() + 1 as int });
    assert(a[k] == (peer, start, next));
    assert(forall|j: int| 0 <= j < a.len() && j != k ==> #[trigger] a[j] == es[j]);
    assert forall|i: int, j: int| 0 <= i < j < a.len() implies (#[trigger] a[i]).0 != (#[trigger] a[j]).0 by {
        if i == k {
            assert(es[j].0 != peer);
        } else if j == k {
            assert(es[i].0 != peer);
        } else {
            assert(es[i].0 != es[j].0);
        }
    }
    lemma_peer_index_at(a, peer, k);
    assert forall|q: Seq<char>| q != peer implies (#[trigger] peer_index(a, q) matches Some(j)
        ==> peer_index(es, q) == Some(j) && a[j] == es[j]) by {
        if let Some(j) = peer_index(a, q) {
            assert(0 <= j < a.len() && a[j].0 == q);
            assert(j != k);
            lemma_peer_index_at(es, q, j);
        }
    }
    assert forall|q: Seq<char>| q != peer implies (#[trigger] peer_index(a, q) is None <==> peer_index(es, q) is None) by {
        if let Some(j) = peer_index(es, q) {
            assert(0 <= j < es.len() && es[j].0 == q);
            assert(j != k);
            assert(a[j].0 == q);
        }
        if let Some(j) = peer_index(a, q) {
            assert(0 <= j < a.len() && a[j].0 == q);
            assert(j != k);
            assert(es[j].0 == q);
        }
    }
}

/// Counting stays in the window: after a request of `peer`, a later request in
/// the same window sees the window's start and one more request (counted up to 31),
/// and is refused once 30 have come in that window.
pub proof fn law_limiter_counts_in_window(es: Seq<(Seq<char>, u64, u32)>, peer: Seq<char>, now: u64, later: u64)
    requires
        unique_peers(es),
        window_before(es, peer, now).0 <= later,
        later - window_before(es, peer, now).0 < BOOTSTRAP_WINDOW_MS,
    ensures
        ({
            let (start, count) = window_before(es, peer, now);
            let next: int = if count >= BOOTSTRAP_MAX_REQUESTS { BOOTSTRAP_MAX_REQUESTS + 1 } else { count + 1 };
            &&& window_before(after_hit(es, peer, now), peer, later) == (start, next as u32)
            &&& (rate_ok(after_hit(es, peer, now), peer, later) <==> count + 1 < BOOTSTRAP_MAX_REQUESTS)
        }),
{
    lemma_after_hit_entry(es, peer, now);
}

/// Requests of one peer never change another peer's window or count.
pub proof fn law_limiter_other_peers(es: Seq<(Seq<char>, u64, u32)>, peer: Seq<char>, other: Seq<char>, now: u64, t: u64)
    requires
        unique_peers(es),
        other != peer,
    ensures
        window_before(after_hit(es, peer, now), other, t) == window_before(es, other, t),
        rate_ok(after_hit(es, peer, now), other, t) == rate_ok(es, other, t),
{
    lemma_after_hit_entry(es, peer, now);
    assert(peer_index(after_hit(es, peer, now), other) is None <==> peer_index(es, other) is None);
}

/// A peer never seen, or one whose window began a full window ago, is let in.
pub proof fn law_limiter_new_window(es: Seq<(Seq<char>, u64, u32)>, peer: Seq<char>, now: u64)
    ensures
        ((peer_index(es, peer) matches Some(i) ==> now >= es[i].1 && now - es[i].1 >= BOOTSTRAP_WINDOW_MS))
            ==> rate_ok(es, peer, now) && window_before(es, peer, now) == (now, 0u32),
{
}

/// Within one window, a peer's first 30 bootstrap requests are let in and
/// every later one is refused: of requests at non-decreasing times `ts` from a
/// peer the limiter has not seen, all less than a window after the first,
/// request `k` is let in exactly when `k < 30`.
pub proof fn law_limiter_thirty_per_window(es: Seq<(Seq<char>, u64, u32)>, peer: Seq<char>, ts: Seq<u64>)
    requires
        unique_peers(es),
        peer_index(es, peer) is None,
        ts.len() >= 1,
        forall|i: int, j: int| 0 <= i <= j < ts.len() ==> ts[i] <= ts[j],
        forall|i: int| 0 <= i < ts.len() ==> #[trigger] ts[i] - ts[0] < BOOTSTRAP_WINDOW_MS,
    ensures
        forall|k: int| 0 <= k < ts.len() ==> (#[trigger] rate_ok(hits(es, peer, ts.take(k)), peer, ts[k]) <==> k < 30),
{
    assert forall|k: int| 0 <= k < ts.len() implies (#[trigger] rate_ok(hits(es, peer, ts.take(k)), peer, ts[k]) <==> k < 30) by {
        lemma_hits_window(es, peer, ts, k);
    }
}

proof fn lemma_hits_window(es: Seq<(Seq<char>, u64, u32)>, peer: Seq<char>, ts: Seq<u64>, k: int)
    requires
        unique_peers(es),
        peer_index(es, peer) is None,
        0 <= k < ts.len(),
        forall|i: int, j: int| 0 <= i <= j < ts.len() ==> ts[i] <= ts[j],
        forall|i: int| 0 <= i < ts.len() ==> #[trigger] ts[i] - ts[0] < BOOTSTRAP_WINDOW_MS,
    ensures
        unique_peers(hits(es, peer, ts.take(k))),
        window_before(hits(es, peer, ts.take(k)), peer, ts[k]) == (ts[0], if k > 30 { 31u32 } else { k as u32 }),
    decreases k,
{
    if k > 0 {
        lemma_hits_window(es, peer, ts, k - 1);
        let prev = hits(es, peer, ts.take(k - 1));
        assert(ts.take(k).drop_last() =~= ts.take(k - 1));
        assert(ts.take(k).last() == ts[k - 1]);
        assert(hits(es, peer, ts.take(k)) == after_hit(prev, peer, ts[k - 1]));
        law_limiter_counts_in_window(prev, peer, ts[k - 1], ts[k]);
        lemma_after_hit_entry(prev, peer, ts[k - 1]);
    } else {
        assert(ts.take(0) =~= Seq::<u64>::empty());
    }
}

/// The view of a guard request's optional header.
pub open spec fn hv(v: Option<String>) -> Option<Seq<char>> {
    crate::api::chat::text_opt(v)
}

/// Whether a request reaches the bootstrap rate check.
pub open spec fn reaches_rate_check(q: GuardRequest, c: GuardConfig) -> bool {
    &&& starts_with(q.path@, "/api/"@)
    &&& !(c.auth_required && !host_ok(hv(q.host), c.allow_remote))
    &&& !(q.sec_fetch_site matches Some(fs) && eq_ascii_ci(fs@, "cross-site"@))
    &&& origin_ok(hv(q.origin))
    &&& !(mutating(q.method@) && !content_type_ok(hv(q.content_type)))
    &&& !(mutating(q.method@) && c.strict_client_header && (!q.has_client_header || q.origin is None))
    &&& c.auth_required && q.path@ == "/api/bootstrap"@ && c.bootstrap_enabled && q.loopback_peer
}

/// Whether a path is open without a token: health, bootstrap and avatars.
pub open spec fn public_path(path: Seq<char>) -> bool {
    path == "/api/health"@ || path == "/api/bootstrap"@ || starts_with(path, "/api/avatars/"@)
}

/// The guard's answer to a request under `/api/`, checked in this order
/// (`rate` is the outcome of the bootstrap rate check): an untrusted host
/// (when authentication is required), a cross-site fetch, an untrusted
/// origin, a write with another content type, a write without the client
/// header or without an origin (when that is demanded), the bootstrap
/// restrictions (disabled, not the loopback, too frequent), and a missing
/// or wrong token (when authentication is required, except on public paths).
/// Requests outside `/api/` pass.
pub open spec fn guard_outcome(q: GuardRequest, c: GuardConfig, rate: bool) -> Option<(u16, Seq<char>)> {
    if !starts_with(q.path@, "/api/"@) {
        None
    } else if c.auth_required && !host_ok(hv(q.host), c.allow_remote) {
        Some((400u16, "Host 不受信任"@))
    } else if q.sec_fetch_site matches Some(fs) && eq_ascii_ci(fs@, "cross-site"@) {
        Some((403u16, "跨站请求拒绝"@))
    } else if !origin_ok(hv(q.origin)) {
        Some((403u16, "Origin 不受信任"@))
    } else if mutating(q.method@) && !content_type_ok(hv(q.content_type)) {
        Some((415u16, "Content-Type 必须为 application/json 或 multipart/form-data"@))
    } else if mutating(q.method@) && c.strict_client_header && !q.has_client_header {
        Some((403u16, "缺少 X-Kedai-Client 头"@))
    } else if mutating(q.method@) && c.strict_client_header && q.origin is None {
        Some((403u16, "写请求缺少 Origin"@))
    } else if c.auth_required && q.path@ == "/api/bootstrap"@ && !c.bootstrap_enabled {
        Some((404u16, "bootstrap 已禁用"@))
    } else if c.auth_required && q.path@ == "/api/bootstrap"@ && !q.loopback_peer {
        Some((403u16, "bootstrap 仅允许真实 loopback 连接"@))
    } else if c.auth_required && q.path@ == "/api/bootstrap"@ && !rate {
        Some((429u16, "bootstrap 请求过于频繁"@))
    } else if c.auth_required && !public_path(q.path@) && !token_ok(hv(q.authorization), c.api_token@) {
        Some((401u16, "缺少或无效的 bearer token"@))
    } else {
        None
    }
}

fn reject(status: u16, message: &str) -> (r: Option<Rejection>)
    ensures
        r matches Some(x) && x.status == status && x.message@ == message@,
{
    Some(Rejection { status, message: message.to_owned() })
}

fn opt_str(v: &Option<String>) -> (r: Option<&str>)
    ensures
        crate::api::chat::opt_view(r) == hv(*v),
{
    match v {
        Some(s) => Some(s.as_str()),
        None => None,
    }
}

/// The guard's check of a request (see `guard_outcome`); the bootstrap rate
/// limiter counts the request only when the request reaches that check.
pub fn guard_check(q: &GuardRequest, c: &GuardConfig, limiter: &mut BootstrapLimiter, now: u64) -> (r: Option<Rejection>)
    requires
        old(limiter).wf(),
    ensures
        final(limiter).wf(),
        reaches_rate_check(*q, *c) ==> final(limiter)@ == after_hit(old(limiter)@, q.peer@, now),
        !reaches_rate_check(*q, *c) ==> final(limiter)@ == old(limiter)@,
        match guard_outcome(*q, *c, rate_ok(old(limiter)@, q.peer@, now)) {
            Some((status, msg)) => r matches Some(x) && x.status == status && x.message@ == msg,
            None => r is None,
        },
{
    let path = chars_of(q.path.as_str());
    if !crate::text::starts_with_chars(&path, &lit("/api/")) {
        return None;
    }
    if c.auth_required && !valid_host(opt_str(&q.host), c.allow_remote) {
        return reject(400, "Host 不受信任");
    }
    match &q.sec_fetch_site {
        Some(fs) => {
            if eq_ignore_ascii_case(&chars_of(fs.as_str()), &lit("cross-site")) {
                return reject(403, "跨站请求拒绝");
            }
        },
        None => {},
    }
    if !valid_origin(opt_str(&q.origin)) {
        return reject(403, "Origin 不受信任");
    }
    let writes = mutates(q.method.as_str());
    if writes && !valid_content_type(opt_str(&q.content_type)) {
        return reject(415, "Content-Type 必须为 application/json 或 multipart/form-data");
    }
    if writes && c.strict_client_header {
        if !q.has_client_header {
            return reject(403, "缺少 X-Kedai-Client 头");
        }
        if q.origin.is_none() {
            return reject(403, "写请求缺少 Origin");
        }
    }
    let bootstrap = crate::json::eq_chars(&path, &lit("/api/bootstrap"));
    if c.auth_required && bootstrap {
        if !c.bootstrap_enabled {
            return reject(404, "bootstrap 已禁用");
        }
        if !q.loopback_peer {
            return reject(403, "bootstrap 仅允许真实 loopback 连接");
        }
        if !limiter.hit(q.peer.as_str(), now) {
            return reject(429, "bootstrap 请求过于频繁");
        }
    }
    let public = bootstrap || crate::json::eq_chars(&path, &lit("/api/health"))
        || crate::text::starts_with_chars(&path, &lit("/api/avatars/"));
    if c.auth_required && !public && !valid_token(opt_str(&q.authorization), c.api_token.as_str()) {
        return reject(401, "缺少或无效的 bearer token");
    }
    None
}

/// The security headers a response gets, by the page it is.
pub enum HeaderPolicy {
    /// The script sandbox page: inline scripts, no network.
    Sandbox,
    /// The remote-resource frame page: the author's page with its network.
    ResourceFrame,
    /// The message render frame page: inline scripts, no network.
    RenderFrame,
    /// Any other page: the site policy, and no caching for `/api/`.
    Site { api: bool },
}

/// The security headers of the response to `path`.
pub fn header_policy(path: &str) -> (r: HeaderPolicy)
    ensures
        r == if path@ == "/sandbox.html"@ {
            HeaderPolicy::Sandbox
        } else if path@ == "/resource-frame.html"@ {
            HeaderPolicy::ResourceFrame
        } else if path@ == "/render-frame.html"@ {
            HeaderPolicy::RenderFrame
        } else {
            HeaderPolicy::Site { api: starts_with(path@, "/api/"@) }
        },
{
    let p = chars_of(path);
    if crate::json::eq_chars(&p, &lit("/sandbox.html")) {
        HeaderPolicy::Sandbox
    } else if crate::json::eq_chars(&p, &lit("/resource-frame.html")) {
        HeaderPolicy::ResourceFrame
    } else if crate::json::eq_chars(&p, &lit("/render-frame.html")) {
        HeaderPolicy::RenderFrame
    } else {
        HeaderPolicy::Site { api: crate::text::starts_with_chars(&p, &lit("/api/")) }
    }
}

/// Pages outside `/api/` are never refused by the guard and never counted by
/// the bootstrap limiter.
pub proof fn law_guard_passes_pages(q: GuardRequest, c: GuardConfig, rate: bool)
    ensures
        !starts_with(q.path@, "/api/"@) ==> guard_outcome(q, c, rate) is None && !reaches_rate_check(q, c),
{
}

/// When a token is required, no API request other than health, bootstrap and
/// avatars gets through without the right bearer token.
pub proof fn law_guard_demands_token(q: GuardRequest, c: GuardConfig, rate: bool)
    ensures
        (c.auth_required && starts_with(q.path@, "/api/"@) && !public_path(q.path@) && !token_ok(
            hv(q.authorization),
            c.api_token@,
        )) ==> guard_outcome(q, c, rate) is Some,
{
}

/// A refusal always comes with a client-error status.
pub proof fn law_guard_refusals_are_client_errors(q: GuardRequest, c: GuardConfig, rate: bool)
    ensures
        guard_outcome(q, c, rate) matches Some((status, _)) ==> 400 <= status <= 499,
{
}

} // verus!
