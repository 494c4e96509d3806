//! The proxy of character-card resource pages: which URLs may be fetched,
//! how upstream answers are refused, and which character encoding a page is
//! decoded with (declared charset, then a `<meta>` charset, then UTF-8).
use vstd::prelude::*;
use crate::api::errors::{err_with_code, ErrorCode, ErrorReply};
use crate::api::security::{ascii_lowercase, eq_ascii_ci, eq_ignore_ascii_case, parse_url_parts, url_parts};
use crate::text::{
    chars_of, find, lead_char, lit, lowercase, lowercase_chars, split_on, split_once, strip_char, string_of, trim,
    trim_start, is_ws, lead_ws, trail_ws,
};

verus! {

broadcast use vstd::string::group_string_axioms;

/// A body naming the page to fetch.
pub struct ProxyQuery {
    pub url: String,
}

/// The largest resource page fetched.
pub const MAX_RESOURCE_BYTES: usize = 5242880;

/// The `charset` parameter of a content type, scanning its parameters from
/// position `i`: a parameter without `=` ends the scan with nothing; the
/// first `charset` (any ASCII case) with a non-empty value, stripped of
/// white space and quotes, is taken.
pub open spec fn charset_scan(parts: Seq<Seq<char>>, i: int) -> Option<Seq<char>>
    decreases parts.len() - i,
{
    if i < 0 || i >= parts.len() {
        None
    } else {
        match split_once(parts[i], '=') {
            None => None,
            Some((k, v)) => {
                let label = strip_char(strip_char(trim(v), '"'), '\'');
                if eq_ascii_ci(trim(k), "charset"@) && label.len() > 0 {
                    Some(label)
                } else {
                    charset_scan(parts, i + 1)
                }
            },
        }
    }
}

/// The `charset` parameter of a content type (`text/html; charset=gbk`).
pub open spec fn content_type_charset(ct: Seq<char>) -> Option<Seq<char>> {
    charset_scan(split_on(ct, ';'), 1)
}

/// The `charset` parameter of a content type, when it has one.
pub fn charset_from_content_type(content_type: &str) -> (r: Option<String>)
    ensures
        crate::api::chat::text_opt(r) == content_type_charset(content_type@),
{
    let parts = crate::text::split_chars(&chars_of(content_type), ';');
    let ghost pv = parts@.map_values(|p: Vec<char>| p@);
    let charset = lit("charset");
    let mut i: usize = 1;
    while i < parts.len()
        invariant
            1 <= i,
            pv == parts@.map_values(|p: Vec<char>| p@),
            pv == split_on(content_type@, ';'),
            charset@ == "charset"@,
            content_type_charset(content_type@) == charset_scan(pv, i as int),
        decreases parts.len() - i,
    {
        assert(pv[i as int] == parts@[i as int]@);
        match crate::text::split_once_chars(&parts[i], '=') {
            None => {
                return None;
            },
            Some((k, v)) => {
                let label = crate::text::strip_char_chars(
                    &crate::text::strip_char_chars(&crate::text::trim_chars(&v), '"'),
                    '\'',
                );
                if eq_ignore_ascii_case(&crate::text::trim_chars(&k), &charset) && label.len() > 0 {
                    return Some(string_of(&label));
                }
            },
        }
        i = i + 1;
    }
    None
}

/// Whether a character may stand in a sniffed charset label.
pub open spec fn label_char(c: char) -> bool {
    ('a' <= c && c <= 'z') || ('A' <= c && c <= 'Z') || ('0' <= c && c <= '9') || c == '-' || c == '_'
        || c == ':'
}

/// The first position at or after `i` of a character that may not stand in a label.
pub open spec fn label_end(s: Seq<char>, i: int) -> int
    decreases s.len() - i,
{
    if 0 <= i < s.len() && label_char(s[i]) {
        label_end(s, i + 1)
    } else {
        i
    }
}

/// The number of leading quote characters (`"` or `'`) from position `i`.
pub open spec fn lead_quotes(s: Seq<char>, i: int) -> int
    decreases s.len() - i,
{
    if 0 <= i < s.len() && (s[i] == '"' || s[i] == '\'') {
        lead_quotes(s, i + 1)
    } else {
        i
    }
}

/// What `String::from_utf8_lossy` makes of bytes.
pub uninterp spec fn utf8_lossy(bytes: Seq<u8>) -> Seq<char>;

/// `String::from_utf8_lossy`: the characters of the bytes, with each invalid
/// sequence replaced by U+FFFD; for valid UTF-8 exactly its characters (as
/// the standard library documents). The contract names the result
/// `utf8_lossy(bytes)` and claims only that.
#[verifier::external_body]
pub(crate) fn decode_utf8_lossy(bytes: &[u8]) -> (r: Vec<char>)
    ensures
        r@ == utf8_lossy(bytes@),
        vstd::utf8::valid_utf8(bytes@) ==> r@ == vstd::utf8::decode_utf8(bytes@),
{
    String::from_utf8_lossy(bytes).chars().collect()
}

/// The charset that a lower-cased page head declares: after the first
/// `charset`, an `=`, optional quotes, then the label's characters (letters,
/// digits, `-`, `_`, `:`), trimmed; none when any of that is missing or the
/// label is empty.
pub open spec fn charset_in_head(head: Seq<char>) -> Option<Seq<char>> {
    match find(head, "charset"@) {
        None => None,
        Some(i) => {
            let after = trim_start(head.skip(i + 7));
            if after.len() > 0 && after[0] == '=' {
                let a = trim_start(after.skip(1));
                let b = a.skip(lead_quotes(a, 0));
                let label = trim(b.take(label_end(b, 0)));
                if label.len() > 0 { Some(label) } else { None }
            } else {
                None
            }
        },
    }
}

/// The charset that a page's first 4 KiB declare in a `<meta>` tag: the
/// charset in the lower-cased text of those bytes (see `charset_in_head`).
pub open spec fn meta_charset(bytes: Seq<u8>) -> Option<Seq<char>> {
    charset_in_head(lowercase(utf8_lossy(if bytes.len() > 4096 { bytes.take(4096) } else { bytes })))
}

proof fn lemma_scan_bounds(s: Seq<char>, i: int)
    requires
        0 <= i <= s.len(),
    ensures
        i <= label_end(s, i) <= s.len(),
        i <= lead_quotes(s, i) <= s.len(),
    decreases s.len() - i,
{
    if i < s.len() {
        lemma_scan_bounds(s, i + 1);
    }
}

/// A character that may stand in a charset label: an ASCII letter or
/// digit, `-`, `_` or `:`.
pub open spec fn charset_label_letter(c: char) -> bool {
    ('a' <= c && c <= 'z') || ('A' <= c && c <= 'Z') || ('0' <= c && c <= '9') || c == '-' || c == '_' || c == ':'
}

proof fn lemma_label_run(b: Seq<char>, n: int, k: int)
    requires
        0 <= k <= n <= b.len(),
        forall|j: int| k <= j < n ==> charset_label_letter(#[trigger] b[j]),
        n < b.len() ==> !charset_label_letter(b[n]),
    ensures
        label_end(b, k) == n,
    decreases n - k,
{
    if k < n {
        lemma_label_run(b, n, k + 1);
    }
}

proof fn lemma_no_lead_ws(s: Seq<char>)
    requires
        s.len() > 0,
        !is_ws(s[0]),
    ensures
        trim_start(s) == s,
{
    assert(lead_ws(s, 0) == 0);
    assert(s.subrange(0, s.len() as int) =~= s);
}

/// A `<meta>` charset is read whole: after the first `charset` of the
/// lower-cased head, an `=`, at most one quote, then a label of ASCII
/// letters, digits, `-`, `_` and `:` up to the first other character, the
/// label declared is exactly that run of characters (so `charset="euc-kr"`
/// declares `euc-kr`, `charset=windows-1252` declares `windows-1252`).
pub proof fn law_meta_label_read_whole(p: Seq<char>, q: Seq<char>, label: Seq<char>, t: Seq<char>)
    requires
        q == Seq::<char>::empty() || q == seq!['"'] || q == seq!['\''],
        label.len() > 0,
        forall|k: int| 0 <= k < label.len() ==> charset_label_letter(#[trigger] label[k]),
        t.len() > 0 ==> !charset_label_letter(t[0]),
        find(p + "charset="@ + q + label + t, "charset"@) == Some(p.len() as int),
    ensures
        charset_in_head(p + "charset="@ + q + label + t) == Some(label),
{
    reveal_strlit("charset=");
    reveal_strlit("charset");
    let head = p + "charset="@ + q + label + t;
    let i = p.len() as int;
    let a0 = seq!['='] + q + label + t;
    assert(head.skip(i + 7) =~= a0);
    assert(!is_ws('='));
    lemma_no_lead_ws(a0);
    let b0 = q + label + t;
    assert(a0.skip(1) =~= b0);
    assert(!is_ws(b0[0])) by {
        if q.len() == 0 {
            assert(b0[0] == label[0]);
            assert(charset_label_letter(label[0]));
        }
    }
    lemma_no_lead_ws(b0);
    assert(lead_quotes(b0, 0) == q.len()) by {
        assert(b0[q.len() as int] == label[0]);
        assert(charset_label_letter(label[0]));
        if q.len() == 1 {
            assert(b0[0] == '"' || b0[0] == '\'');
            assert(b0[1] == label[0]);
            assert(lead_quotes(b0, 1) == 1);
            assert(lead_quotes(b0, 0) == lead_quotes(b0, 1));
        } else {
            assert(b0[0] == label[0]);
        }
    }
    let b = b0.skip(q.len() as int);
    assert(b =~= label + t);
    assert forall|j: int| 0 <= j < label.len() implies charset_label_letter(#[trigger] b[j]) by {
        assert(b[j] == label[j]);
    }
    if t.len() > 0 {
        assert(b[label.len() as int] == t[0]);
    }
    lemma_label_run(b, label.len() as int, 0);
    assert(b.take(label.len() as int) =~= label);
    assert(charset_label_letter(label[0]) && charset_label_letter(label[label.len() - 1]));
    lemma_no_lead_ws(label);
    assert(trail_ws(label, label.len() as int) == label.len());
    assert(label.subrange(0, label.len() as int) =~= label);
}

/// The charset a page's `<meta>` tag declares, when it declares one.
pub fn sniff_meta_charset(bytes: &[u8]) -> (r: Option<String>)
    ensures
        crate::api::chat::text_opt(r) == meta_charset(bytes@),
{
    let n = if bytes.len() > 4096 { 4096 } else { bytes.len() };
    let head_bytes = crate::text::slice_bytes(bytes, 0, n);
    assert(head_bytes@ =~= if bytes@.len() > 4096 { bytes@.take(4096) } else { bytes@ });
    let head = lowercase_chars(&decode_utf8_lossy(head_bytes.as_slice()));
    charset_of_head(&head)
}

/// The charset that a lower-cased page head declares (see `charset_in_head`).
pub fn charset_of_head(head: &Vec<char>) -> (r: Option<String>)
    ensures
        crate::api::chat::text_opt(r) == charset_in_head(head@),
{
    proof {
        reveal_strlit("charset");
    }
    let i = match crate::text::find_chars(head, &lit("charset")) {
        Some(i) => i,
        None => {
            return None;
        },
    };
    proof {
        crate::text::lemma_find_from(head@, "charset"@, 0);
        assert(crate::text::occurs_at(head@, i as int, "charset"@));
    }
    let hn = head.len();
    let rest = crate::text::slice_chars(head, i + 7, hn);
    assert(rest@ =~= head@.skip(i + 7));
    let after = crate::text::trim_start_chars(&rest);
    if !(after.len() > 0 && after[0] == '=') {
        return None;
    }
    let a_rest = crate::text::slice_chars(&after, 1, after.len());
    assert(a_rest@ =~= after@.skip(1));
    let a = crate::text::trim_start_chars(&a_rest);
    let mut q: usize = 0;
    while q < a.len() && (a[q] == '"' || a[q] == '\'')
        invariant
            q <= a@.len(),
            lead_quotes(a@, 0) == lead_quotes(a@, q as int),
        decreases a@.len() - q,
    {
        q = q + 1;
    }
    let b = crate::text::slice_chars(&a, q, a.len());
    assert(b@ =~= a@.skip(q as int));
    let mut e: usize = 0;
    while e < b.len() && (('a' <= b[e] && b[e] <= 'z') || ('A' <= b[e] && b[e] <= 'Z') || ('0' <= b[e] && b[e] <= '9')
        || b[e] == '-' || b[e] == '_' || b[e] == ':')
        invariant
            e <= b@.len(),
            label_end(b@, 0) == label_end(b@, e as int),
        decreases b@.len() - e,
    {
        e = e + 1;
    }
    let head_label = crate::text::slice_chars(&b, 0, e);
    assert(head_label@ =~= b@.take(e as int));
    let label = crate::text::trim_chars(&head_label);
    if label.len() > 0 {
        Some(string_of(&label))
    } else {
        None
    }
}

/// The charset label a resource page is decoded with: the content type's
/// `charset`, else the `<meta>` charset.
pub open spec fn resource_label(bytes: Seq<u8>, content_type: Option<Seq<char>>) -> Option<Seq<char>> {
    match content_type {
        Some(ct) => match content_type_charset(ct) {
            Some(l) => Some(l),
            None => meta_charset(bytes),
        },
        None => meta_charset(bytes),
    }
}

/// The charset label a resource page is decoded with (see `resource_label`).
pub fn resource_charset_label(bytes: &[u8], content_type: Option<&str>) -> (r: Option<String>)
    ensures
        crate::api::chat::text_opt(r) == resource_label(bytes@, crate::api::chat::opt_view(content_type)),
{
    match content_type {
        Some(ct) => match charset_from_content_type(ct) {
            Some(l) => Some(l),
            None => sniff_meta_charset(bytes),
        },
        None => sniff_meta_charset(bytes),
    }
}

/// Whether `Encoding::for_label` knows a label.
pub uninterp spec fn label_known(label: Seq<char>) -> bool;

/// The text that `encoding_rs` decodes bytes to with the encoding of a label.
pub uninterp spec fn decoded_text(label: Seq<char>, bytes: Seq<u8>) -> Seq<char>;

/// `encoding_rs::Encoding::for_label` on the label's bytes, then
/// `Encoding::decode` of the bytes with the encoding found, its text taken as
/// an owned string: none when the WHATWG Encoding Standard assigns the label
/// no encoding, else the decoded text (a byte-order mark choosing another
/// encoding, invalid sequences replaced by U+FFFD). `utf-8` is a known label
/// (the crate's documentation shows `for_label(b"utf-8")` giving `UTF_8`).
/// The contract names the text `decoded_text(label, bytes)` and claims
/// nothing more of it.
#[verifier::external_body]
fn decode_by_label(label: &str, bytes: &[u8]) -> (r: Option<String>)
    ensures
        r is Some == label_known(label@),
        label@ == "utf-8"@ ==> r is Some,
        r matches Some(t) ==> t@ == decoded_text(label@, bytes@),
{
    encoding_rs::Encoding::for_label(label.as_bytes()).map(|e| e.decode(bytes).0.into_owned())
}

/// The label that decodes a resource page: its declared label when that is
/// known, else `utf-8`.
pub open spec fn resource_decode_label(bytes: Seq<u8>, content_type: Option<Seq<char>>) -> Seq<char> {
    match resource_label(bytes, content_type) {
        Some(l) => if label_known(l) { l } else { "utf-8"@ },
        None => "utf-8"@,
    }
}

/// A resource page's text: decoded with the encoding of its label (see
/// `resource_label`) when the label is known, else as UTF-8. The returned
/// flag says whether the label's encoding was used.
pub fn decode_resource_html(bytes: &[u8], content_type: Option<&str>) -> (r: (String, bool))
    ensures
        r.1 == (resource_label(bytes@, crate::api::chat::opt_view(content_type)) matches Some(l) && label_known(l)),
        r.0@ == decoded_text(resource_decode_label(bytes@, crate::api::chat::opt_view(content_type)), bytes@),
{
    let label = resource_charset_label(bytes, content_type);
    let declared = match &label {
        Some(l) => decode_by_label(l.as_str(), bytes),
        None => None,
    };
    match declared {
        Some(text) => (text, true),
        None => {
            let utf8 = "utf-8";
            proof {
                reveal_strlit("utf-8");
            }
            match decode_by_label(utf8, bytes) {
                Some(text) => (text, false),
                None => (String::new(), false),
            }
        },
    }
}

/// A page to fetch: the trimmed URL and its scheme and host.
#[derive(Debug)]
pub struct ProxyTarget {
    pub url: String,
    pub scheme: String,
    pub host: String,
}

/// Checks the URL of a resource page: once trimmed, it must parse as an
/// `https` URL with a host.
pub fn proxy_target(raw: &str) -> (r: Result<ProxyTarget, ErrorReply>)
    ensures
        match r {
            Ok(t) => t.url@ == trim(raw@) && url_parts(trim(raw@)) == Some((t.scheme@, Some(t.host@)))
                && t.scheme@ == "https"@,
            Err(e) => !(url_parts(trim(raw@)) matches Some((s, h)) && s == "https"@ && h is Some) && e.status
                == 400 && e.code == ErrorCode::Validation && e.error@ == "仅支持 https 资源地址"@,
        },
{
    let url = string_of(&crate::text::trim_chars(&chars_of(raw)));
    match parse_url_parts(url.as_str()) {
        Some((scheme, Some(host))) => {
            if crate::json::eq_chars(&chars_of(scheme.as_str()), &lit("https")) {
                return Ok(ProxyTarget { url, scheme, host });
            }
        },
        _ => {},
    }
    Err(err_with_code(ErrorCode::Validation, "仅支持 https 资源地址", 400))
}

/// The base URL of a fetched page: its scheme and host.
pub fn proxy_base_url(t: &ProxyTarget) -> (r: String)
    ensures
        r@ == t.scheme@ + "://"@ + t.host@,
{
    let mut out = chars_of(t.scheme.as_str());
    crate::text::append_chars(&mut out, &lit("://"));
    crate::text::append_chars(&mut out, &chars_of(t.host.as_str()));
    string_of(&out)
}

/// Checks an upstream answer: a redirect is refused, so is any status other
/// than a success (with the status's text), and so is a page over 5 MiB.
pub fn proxy_response_check(status: u16, status_text: &str, len: usize) -> (r: Result<(), ErrorReply>)
    ensures
        match r {
            Ok(()) => 200 <= status <= 299 && len <= MAX_RESOURCE_BYTES,
            Err(e) => e.status == 502 && e.code == ErrorCode::Upstream && e.error@ == if 300 <= status <= 399 {
                "资源页重定向已禁用"@
            } else if !(200 <= status <= 299) {
                "资源页返回 "@ + status_text@
            } else {
                "资源页过大(超过 5MB)"@
            },
        },
{
    if 300 <= status && status <= 399 {
        return Err(err_with_code(ErrorCode::Upstream, "资源页重定向已禁用", 502));
    }
    if !(200 <= status && status <= 299) {
        let mut m = lit("资源页返回 ");
        crate::text::append_chars(&mut m, &chars_of(status_text));
        let s = string_of(&m);
        return Err(err_with_code(ErrorCode::Upstream, s.as_str(), 502));
    }
    if len > MAX_RESOURCE_BYTES {
        return Err(err_with_code(ErrorCode::Upstream, "资源页过大(超过 5MB)", 502));
    }
    Ok(())
}

/// The stages at which fetching a resource page can fail outside the
/// library: the address does not resolve to a public host, the client cannot
/// be built, the request fails, the body cannot be read.
pub enum ProxyFailure {
    Unresolvable,
    ClientBuild,
    Request,
    Read,
}

/// The reply to a failed stage: a fixed message, never the underlying error.
pub fn proxy_failure(f: ProxyFailure) -> (r: ErrorReply)
    ensures
        match f {
            ProxyFailure::Unresolvable => r.status == 400 && r.code == ErrorCode::Validation && r.error@
                == "资源地址不可用,请确认其为公开可访问的 https 地址"@,
            ProxyFailure::ClientBuild => r.status == 500 && r.code == ErrorCode::Internal && r.error@
                == "构建请求客户端失败,详情见服务端日志"@,
            ProxyFailure::Request => r.status == 502 && r.code == ErrorCode::Upstream && r.error@
                == "请求资源页失败,请稍后重试"@,
            ProxyFailure::Read => r.status == 502 && r.code == ErrorCode::Upstream && r.error@
                == "读取资源页失败,请稍后重试"@,
        },
{
    match f {
        ProxyFailure::Unresolvable => err_with_code(ErrorCode::Validation, "资源地址不可用,请确认其为公开可访问的 https 地址", 400),
        ProxyFailure::ClientBuild => err_with_code(ErrorCode::Internal, "构建请求客户端失败,详情见服务端日志", 500),
        ProxyFailure::Request => err_with_code(ErrorCode::Upstream, "请求资源页失败,请稍后重试", 502),
        ProxyFailure::Read => err_with_code(ErrorCode::Upstream, "读取资源页失败,请稍后重试", 502),
    }
}

/// Whether an IPv4 address may be fetched from: not "this network" (`0/8`),
/// private (`10/8`, `172.16/12`, `192.168/16`), shared (`100.64/10`),
/// loopback (`127/8`), link-local or the metadata service (`169.254/16`),
/// nor multicast, reserved or broadcast (`224/3`).
pub open spec fn public_v4(o: [u8; 4]) -> bool {
    let a = o[0];
    let b = o[1];
    !(a == 0 || a == 10 || a == 127 || (a == 169 && b == 254) || (a == 172 && 16 <= b && b <= 31) || (a == 192
        && b == 168) || (a == 100 && 64 <= b && b <= 127) || a >= 224)
}

/// Whether an IPv4 address may be fetched from (see `public_v4`).
pub fn public_ipv4(o: [u8; 4]) -> (r: bool)
    ensures
        r == public_v4(o),
{
    let a = o[0];
    let b = o[1];
    !(a == 0 || a == 10 || a == 127 || (a == 169 && b == 254) || (a == 172 && 16 <= b && b <= 31) || (a == 192
        && b == 168) || (a == 100 && 64 <= b && b <= 127) || a >= 224)
}

/// Whether an IPv6 address may be fetched from: not unspecified nor
/// loopback, not unique-local (`fc00::/7`), link-local (`fe80::/10`) nor
/// multicast (`ff00::/8`), and an IPv4-mapped address only when its IPv4
/// address may be.
pub open spec fn public_v6(s: [u16; 8]) -> bool {
    let zero_head = s[0] == 0 && s[1] == 0 && s[2] == 0 && s[3] == 0 && s[4] == 0;
    if zero_head && s[5] == 0 && s[6] == 0 && (s[7] == 0 || s[7] == 1) {
        false
    } else if zero_head && s[5] == 0xffff {
        public_v4([(s[6] / 256) as u8, (s[6] % 256) as u8, (s[7] / 256) as u8, (s[7] % 256) as u8])
    } else {
        !((0xfc00 <= s[0] && s[0] <= 0xfdff) || (0xfe80 <= s[0] && s[0] <= 0xfebf) || s[0] >= 0xff00)
    }
}

/// Whether an IPv6 address may be fetched from (see `public_v6`).
pub fn public_ipv6(s: [u16; 8]) -> (r: bool)
    ensures
        r == public_v6(s),
{
    let zero_head = s[0] == 0 && s[1] == 0 && s[2] == 0 && s[3] == 0 && s[4] == 0;
    if zero_head && s[5] == 0 && s[6] == 0 && (s[7] == 0 || s[7] == 1) {
        false
    } else if zero_head && s[5] == 0xffff {
        let v4: [u8; 4] = [(s[6] / 256) as u8, (s[6] % 256) as u8, (s[7] / 256) as u8, (s[7] % 256) as u8];
        public_ipv4(v4)
    } else {
        !((0xfc00 <= s[0] && s[0] <= 0xfdff) || (0xfe80 <= s[0] && s[0] <= 0xfebf) || s[0] >= 0xff00)
    }
}

/// No loopback, private or link-local (metadata) IPv4 address is ever
/// fetched from, whether written as IPv4 or mapped into IPv6.
pub proof fn law_local_addresses_refused(o: [u8; 4], s: [u16; 8])
    ensures
        (o[0] == 127 || o[0] == 10 || (o[0] == 169 && o[1] == 254) || (o[0] == 192 && o[1] == 168))
            ==> !public_v4(o),
        (s[0] == 0 && s[1] == 0 && s[2] == 0 && s[3] == 0 && s[4] == 0 && s[5] == 0xffff && s[6] / 256 == 127)
            ==> !public_v6(s),
{
}

} // verus!
