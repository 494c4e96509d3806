//! Multipart uploads: the boundary of a `multipart/form-data` content type,
//! the parts of a complete multipart body, and its file part.
use vstd::prelude::*;
use crate::api::resource::{decode_utf8_lossy, utf8_lossy};
use crate::api::security::ascii_lowercase;
use crate::text::{
    chars_of, find, find_from, lead_char, lemma_find_from, lit, lowercase, lowercase_chars, split_on, starts_with,
    strip_char, string_of, trim, trim_start,
};

verus! {

broadcast use vstd::string::group_string_axioms;

/// The largest character card upload.
pub const MAX_UPLOAD: usize = 31457280;

/// Whether every character of `s` is ASCII.
pub open spec fn all_ascii(s: Seq<char>) -> bool {
    forall|i: int| 0 <= i < s.len() ==> (#[trigger] s[i] as u32) < 0x80
}

/// The boundary a content type names: the text after the first `boundary=`
/// (found ignoring ASCII case), trimmed, without surrounding quotes, up to
/// the next `;`; its case is kept.
pub open spec fn boundary_of(ct: Seq<char>) -> Option<Seq<char>> {
    match find(ascii_lowercase(ct), "boundary="@) {
        Some(i) => {
            let rest = strip_char(trim(ct.skip(i + 9)), '"');
            Some(match find(rest, ";"@) {
                Some(e) => rest.take(e),
                None => rest,
            })
        },
        None => None,
    }
}

/// The boundary a content type names (see `boundary_of`). Content types
/// come from header values, which are ASCII.
pub fn parse_boundary(content_type: &str) -> (r: Option<String>)
    requires
        all_ascii(content_type@),
    ensures
        crate::api::chat::text_opt(r) == boundary_of(content_type@),
{
    let ct = chars_of(content_type);
    let lower = crate::api::security::ascii_lowercase_chars(&ct);
    proof {
        reveal_strlit("boundary=");
    }
    let i = match crate::text::find_chars(&lower, &lit("boundary=")) {
        Some(i) => i,
        None => {
            return None;
        },
    };
    proof {
        lemma_find_from(lower@, "boundary="@, 0);
        assert(crate::text::occurs_at(lower@, i as int, "boundary="@));
    }
    let n = ct.len();
    let rest0 = crate::text::slice_chars(&ct, i + 9, n);
    assert(rest0@ =~= ct@.skip(i + 9));
    let rest = crate::text::strip_char_chars(&crate::text::trim_chars(&rest0), '"');
    let semi = lit(";");
    let r = match crate::text::find_chars(&rest, &semi) {
        Some(e) => {
            proof {
                lemma_find_from(rest@, semi@, 0);
            }
            let t = crate::text::slice_chars(&rest, 0, e);
            assert(t@ =~= rest@.take(e as int));
            t
        },
        None => rest,
    };
    Some(string_of(&r))
}

/// One part of a multipart body: its field name, its file name if any, and its content.
#[derive(Debug)]
pub struct MultipartPart {
    pub field: String,
    pub filename: Option<String>,
    pub content: Vec<u8>,
}

/// A part as field name, file name and content.
pub open spec fn part_view(p: MultipartPart) -> (Seq<char>, Option<Seq<char>>, Seq<u8>) {
    (p.field@, crate::api::chat::text_opt(p.filename), p.content@)
}

/// Parts as field names, file names and contents.
pub open spec fn parts_view(v: Seq<MultipartPart>) -> Seq<(Seq<char>, Option<Seq<char>>, Seq<u8>)> {
    v.map_values(|p: MultipartPart| part_view(p))
}

/// `s` without one trailing carriage return.
pub open spec fn strip_cr(s: Seq<char>) -> Seq<char> {
    if s.len() > 0 && s.last() == '\r' { s.drop_last() } else { s }
}

/// The lines of a text (`str::lines`): split at each line feed, a final line
/// feed ending the last line rather than starting an empty one, and a line
/// ended by a line feed losing one carriage return before it.
pub open spec fn text_lines(s: Seq<char>) -> Seq<Seq<char>> {
    let ps = split_on(s, '\n');
    if s.len() == 0 {
        seq![]
    } else if s.last() == '\n' {
        Seq::new((ps.len() - 1) as nat, |k: int| strip_cr(ps[k]))
    } else {
        Seq::new(ps.len(), |k: int| if k < ps.len() - 1 { strip_cr(ps[k]) } else { ps[k] })
    }
}

/// The quoted value after the first `key` of a header line: white space and
/// opening quotes skipped, up to the next quote.
pub open spec fn disposition_value(l: Seq<char>, key: Seq<char>) -> Option<Seq<char>> {
    match find(l, key) {
        Some(i) => {
            let r = trim_start(l.skip(i + key.len()));
            let v = r.skip(lead_char(r, '"', 0));
            Some(match find(v, "\""@) {
                Some(e) => v.take(e),
                None => v,
            })
        },
        None => None,
    }
}

/// The field name and file name that a part's header lines give: each
/// `Content-Disposition` line (any case, after leading white space) sets the
/// field from its `name=` and the file name from its `filename=`.
pub open spec fn header_names(lines: Seq<Seq<char>>) -> (Seq<char>, Option<Seq<char>>)
    decreases lines.len(),
{
    if lines.len() == 0 {
        (seq![], None)
    } else {
        let (field, file) = header_names(lines.drop_last());
        let l = trim_start(lines.last());
        if starts_with(lowercase(l), "content-disposition"@) {
            (
                match disposition_value(l, "name="@) {
                    Some(v) => v,
                    None => field,
                },
                match disposition_value(l, "filename="@) {
                    Some(v) => Some(v),
                    None => file,
                },
            )
        } else {
            (field, file)
        }
    }
}

/// The parts of a multipart body from position `from`: after each
/// delimiter and the two bytes that end its line come headers up to a blank
/// line, then content up to the next `\r\n--`; parts without a field name are
/// dropped, and the scan stops when a piece is missing. Nothing (rather than
/// a list) marks a body whose delimiter stands less than two bytes before
/// its end.
pub open spec fn parts_from(body: Seq<u8>, delim: Seq<u8>, from: int) -> Option<Seq<(Seq<char>, Option<Seq<char>>, Seq<u8>)>>
    decreases body.len() - from,
{
    if from < 0 || from > body.len() || delim.len() == 0 {
        Some(seq![])
    } else {
        match find_from(body, delim, from) {
            None => Some(seq![]),
            Some(p) => {
                let ps = p + delim.len() + 2;
                if ps > body.len() {
                    None
                } else {
                    match find_from(body, seq![13u8, 10u8, 13u8, 10u8], ps) {
                        None => Some(seq![]),
                        Some(h) => {
                            let cs = h + 4;
                            match find_from(body, seq![13u8, 10u8, 45u8, 45u8], cs) {
                                None => Some(seq![]),
                                Some(n) => {
                                    proof {
                                        lemma_find_from(body, delim, from);
                                        lemma_find_from(body, seq![13u8, 10u8, 13u8, 10u8], ps);
                                        lemma_find_from(body, seq![13u8, 10u8, 45u8, 45u8], cs);
                                    }
                                    let (field, file) = header_names(text_lines(utf8_lossy(body.subrange(ps, h))));
                                    match parts_from(body, delim, n) {
                                        None => None,
                                        Some(rest) => Some(
                                            if field.len() > 0 {
                                                seq![(field, file, body.subrange(cs, n))] + rest
                                            } else {
                                                rest
                                            },
                                        ),
                                    }
                                },
                            }
                        },
                    }
                }
            },
        }
    }
}

/// The delimiter of a boundary: `--` and the boundary's UTF-8 bytes.
pub open spec fn delimiter(boundary: Seq<char>) -> Seq<u8> {
    seq![45u8, 45u8] + vstd::utf8::encode_utf8(boundary)
}

fn lines_of(s: &Vec<char>) -> (r: Vec<Vec<char>>)
    ensures
        r@.map_values(|l: Vec<char>| l@) == text_lines(s@),
{
    if s.len() == 0 {
        let r: Vec<Vec<char>> = Vec::new();
        assert(r@.map_values(|l: Vec<char>| l@) =~= text_lines(s@));
        return r;
    }
    let ps = crate::text::split_chars(s, '\n');
    let ghost pv = ps@.map_values(|p: Vec<char>| p@);
    proof {
        crate::text::lemma_split_nonempty(s@, '\n');
    }
    let ends_nl = s[s.len() - 1] == '\n';
    let m = if ends_nl { ps.len() - 1 } else { ps.len() };
    let mut out: Vec<Vec<char>> = Vec::new();
    for k in 0..m
        invariant
            pv == ps@.map_values(|p: Vec<char>| p@),
            pv == split_on(s@, '\n'),
            m <= ps@.len(),
            ps@.len() >= 1,
            m == if ends_nl { ps@.len() - 1 } else { ps@.len() as int },
            out@.len() == k,
            forall|j: int| 0 <= j < k ==> (#[trigger] out@[j])@ == (if j < ps@.len() - 1 { strip_cr(pv[j]) } else { pv[j] }),
    {
        let p = &ps[k];
        assert(p@ == pv[k as int]);
        if k + 1 < ps.len() && p.len() > 0 && p[p.len() - 1] == '\r' {
            out.push(crate::text::slice_chars(p, 0, p.len() - 1));
            assert(out@[k as int]@ =~= strip_cr(pv[k as int]));
        } else {
            out.push(crate::json::copy_of(p));
        }
    }
    assert(out@.map_values(|l: Vec<char>| l@) =~= text_lines(s@));
    out
}

fn disposition_value_of(l: &Vec<char>, key: &str) -> (r: Option<Vec<char>>)
    ensures
        match r {
            Some(v) => disposition_value(l@, key@) == Some(v@),
            None => disposition_value(l@, key@) is None,
        },
{
    let k = lit(key);
    match crate::text::find_chars(l, &k) {
        Some(i) => {
            proof {
                lemma_find_from(l@, k@, 0);
                assert(crate::text::occurs_at(l@, i as int, k@));
            }
            let n = l.len();
            let after = crate::text::slice_chars(l, i + k.len(), n);
            assert(after@ =~= l@.skip(i + k@.len()));
            let r = crate::text::trim_start_chars(&after);
            let q = crate::text::lead_char_len(&r, '"');
            let v = crate::text::slice_chars(&r, q, r.len());
            assert(v@ =~= r@.skip(q as int));
            let quote = lit("\"");
            match crate::text::find_chars(&v, &quote) {
                Some(e) => {
                    proof {
                        lemma_find_from(v@, quote@, 0);
                    }
                    let t = crate::text::slice_chars(&v, 0, e);
                    assert(t@ =~= v@.take(e as int));
                    Some(t)
                },
                None => Some(v),
            }
        },
        None => None,
    }
}

fn header_names_of(lines: &Vec<Vec<char>>) -> (r: (Vec<char>, Option<Vec<char>>))
    ensures
        (r.0@, match r.1 {
            Some(f) => Some(f@),
            None => None,
        }) == header_names(lines@.map_values(|l: Vec<char>| l@)),
{
    let ghost lv = lines@.map_values(|l: Vec<char>| l@);
    let mut field: Vec<char> = Vec::new();
    let mut file: Option<Vec<char>> = None;
    for k in 0..lines.len()
        invariant
            lv == lines@.map_values(|l: Vec<char>| l@),
            (field@, match file {
                Some(f) => Some(f@),
                None => None,
            }) == header_names(lv.take(k as int)),
    {
        assert(lv.take(k + 1).drop_last() =~= lv.take(k as int));
        assert(lv.take(k + 1).last() == lines@[k as int]@);
        let l = crate::text::trim_start_chars(&lines[k]);
        if crate::text::starts_with_chars(&lowercase_chars(&l), &lit("content-disposition")) {
            match disposition_value_of(&l, "name=") {
                Some(v) => {
                    field = v;
                },
                None => {},
            }
            match disposition_value_of(&l, "filename=") {
                Some(v) => {
                    file = Some(v);
                },
                None => {},
            }
        }
    }
    assert(lv.take(lines@.len() as int) =~= lv);
    (field, file)
}

/// The parts of a complete multipart body with the given boundary (see
/// `parts_from`). A body whose delimiter stands less than two bytes before
/// its end is left out: the parse slices past the end there.
pub fn parse_multipart(body: &[u8], boundary: &str) -> (r: Vec<MultipartPart>)
    requires
        parts_from(body@, delimiter(boundary@), 0) is Some,
    ensures
        parts_from(body@, delimiter(boundary@), 0) == Some(parts_view(r@)),
{
    let mut delim: Vec<u8> = Vec::new();
    delim.push(45);
    delim.push(45);
    let bb = boundary.as_bytes();
    for k in 0..bb.len()
        invariant
            bb@ == vstd::utf8::encode_utf8(boundary@),
            delim@ == seq![45u8, 45u8] + bb@.take(k as int),
    {
        delim.push(bb[k]);
        assert(delim@ =~= seq![45u8, 45u8] + bb@.take(k + 1));
    }
    assert(bb@.take(bb@.len() as int) =~= bb@);
    assert(delim@ == delimiter(boundary@));
    let crlf2: [u8; 4] = [13, 10, 13, 10];
    let next_mark: [u8; 4] = [13, 10, 45, 45];
    assert(crlf2@ =~= seq![13u8, 10u8, 13u8, 10u8]);
    assert(next_mark@ =~= seq![13u8, 10u8, 45u8, 45u8]);
    let mut parts: Vec<MultipartPart> = Vec::new();
    let mut from: usize = 0;
    let bl = body.len();
    loop
        invariant
            bl == body@.len(),
            from <= body@.len(),
            delim@ == delimiter(boundary@),
            delim@.len() >= 2,
            crlf2@ == seq![13u8, 10u8, 13u8, 10u8],
            next_mark@ == seq![13u8, 10u8, 45u8, 45u8],
            parts_from(body@, delim@, from as int) is Some,
            parts_from(body@, delim@, 0) == Some(
                parts_view(parts@) + parts_from(body@, delim@, from as int)->Some_0,
            ),
        decreases body@.len() - from,
    {
        let ghost pv = parts_view(parts@);
        let p = match crate::text::find_bytes_from(body, delim.as_slice(), from) {
            Some(p) => p,
            None => {
                assert(pv + Seq::empty() =~= pv);
                return parts;
            },
        };
        proof {
            lemma_find_from(body@, delim@, from as int);
            assert(find_from(body@, delim@, from as int) == Some(p as int));
            assert(p + delim@.len() + 2 <= body@.len());
        }
        let dl = delim.len();
        assert(dl == delim@.len());
        let ps = p + dl + 2;
        let h = match crate::text::find_bytes_from(body, crlf2.as_slice(), ps) {
            Some(h) => h,
            None => {
                assert(pv + Seq::empty() =~= pv);
                return parts;
            },
        };
        proof {
            lemma_find_from(body@, crlf2@, ps as int);
        }
        let cs = h + 4;
        let n = match crate::text::find_bytes_from(body, next_mark.as_slice(), cs) {
            Some(n) => n,
            None => {
                assert(pv + Seq::empty() =~= pv);
                return parts;
            },
        };
        proof {
            lemma_find_from(body@, next_mark@, cs as int);
        }
        let headers = decode_utf8_lossy(crate::text::slice_bytes(body, ps, h).as_slice());
        let (field, file) = header_names_of(&lines_of(&headers));
        let ghost rest = parts_from(body@, delim@, n as int)->Some_0;
        if field.len() > 0 {
            let part = MultipartPart {
                field: string_of(&field),
                filename: match &file {
                    Some(f) => Some(string_of(f)),
                    None => None,
                },
                content: crate::text::slice_bytes(body, cs, n),
            };
            let ghost before = parts@;
            let ghost one = part_view(part);
            parts.push(part);
            assert(parts_view(parts@) =~= parts_view(before).push(one));
            assert(pv + (seq![one] + rest) =~= pv.push(one) + rest);
        }
        from = n;
    }
}

fn delimiter_bytes(boundary: &str) -> (r: Vec<u8>)
    ensures
        r@ == delimiter(boundary@),
        r@.len() >= 2,
{
    let mut delim: Vec<u8> = Vec::new();
    delim.push(45);
    delim.push(45);
    let bb = boundary.as_bytes();
    for k in 0..bb.len()
        invariant
            bb@ == vstd::utf8::encode_utf8(boundary@),
            delim@ == seq![45u8, 45u8] + bb@.take(k as int),
    {
        delim.push(bb[k]);
        assert(delim@ =~= seq![45u8, 45u8] + bb@.take(k + 1));
    }
    assert(bb@.take(bb@.len() as int) =~= bb@);
    delim
}

/// Whether `parse_multipart` and `parse_multipart_file` can read a body with
/// this boundary: no delimiter stands less than two bytes before its end.
pub fn multipart_in_bounds(body: &[u8], boundary: &str) -> (r: bool)
    ensures
        r == (parts_from(body@, delimiter(boundary@), 0) is Some),
{
    let delim = delimiter_bytes(boundary);
    let crlf2: [u8; 4] = [13, 10, 13, 10];
    let next_mark: [u8; 4] = [13, 10, 45, 45];
    assert(crlf2@ =~= seq![13u8, 10u8, 13u8, 10u8]);
    assert(next_mark@ =~= seq![13u8, 10u8, 45u8, 45u8]);
    let mut from: usize = 0;
    let bl = body.len();
    loop
        invariant
            bl == body@.len(),
            from <= body@.len(),
            delim@ == delimiter(boundary@),
            delim@.len() >= 2,
            crlf2@ == seq![13u8, 10u8, 13u8, 10u8],
            next_mark@ == seq![13u8, 10u8, 45u8, 45u8],
            (parts_from(body@, delim@, 0) is Some) == (parts_from(body@, delim@, from as int) is Some),
        decreases body@.len() - from,
    {
        let p = match crate::text::find_bytes_from(body, delim.as_slice(), from) {
            Some(p) => p,
            None => {
                return true;
            },
        };
        proof {
            lemma_find_from(body@, delim@, from as int);
        }
        let dl = delim.len();
        if p > bl || dl > bl - p || 2 > bl - p - dl {
            return false;
        }
        let ps = p + dl + 2;
        let h = match crate::text::find_bytes_from(body, crlf2.as_slice(), ps) {
            Some(h) => h,
            None => {
                return true;
            },
        };
        proof {
            lemma_find_from(body@, crlf2@, ps as int);
        }
        let cs = h + 4;
        let n = match crate::text::find_bytes_from(body, next_mark.as_slice(), cs) {
            Some(n) => n,
            None => {
                return true;
            },
        };
        proof {
            lemma_find_from(body@, next_mark@, cs as int);
        }
        from = n;
    }
}

/// A body in which every delimiter has at least two bytes after it is always
/// read: the parse never slices past its end.
pub proof fn law_bounded_delimiters_parse(body: Seq<u8>, boundary: Seq<char>, from: int)
    requires
        0 <= from,
        forall|i: int| crate::text::occurs_at(body, i, delimiter(boundary)) ==> i + delimiter(boundary).len() + 2 <= body.len(),
    ensures
        parts_from(body, delimiter(boundary), from) is Some,
    decreases body.len() - from,
{
    let delim = delimiter(boundary);
    if from > body.len() || delim.len() == 0 {
    } else {
        lemma_find_from(body, delim, from);
        match find_from(body, delim, from) {
            None => {},
            Some(p) => {
                let ps = p + delim.len() + 2;
                lemma_find_from(body, seq![13u8, 10u8, 13u8, 10u8], ps);
                match find_from(body, seq![13u8, 10u8, 13u8, 10u8], ps) {
                    None => {},
                    Some(h) => {
                        let cs = h + 4;
                        lemma_find_from(body, seq![13u8, 10u8, 45u8, 45u8], cs);
                        match find_from(body, seq![13u8, 10u8, 45u8, 45u8], cs) {
                            None => {},
                            Some(n) => {
                                law_bounded_delimiters_parse(body, boundary, n);
                            },
                        }
                    },
                }
            },
        }
    }
}

/// Every part read from a body has a field name, and its content is a
/// contiguous slice of the body.
pub proof fn law_parts_are_named_slices(body: Seq<u8>, delim: Seq<u8>, from: int)
    ensures
        parts_from(body, delim, from) matches Some(ps) ==> forall|i: int|
            0 <= i < ps.len() ==> (#[trigger] ps[i]).0.len() > 0 && exists|a: int, b: int|
                0 <= a <= b <= body.len() && ps[i].2 == body.subrange(a, b),
    decreases body.len() - from,
{
    if from < 0 || from > body.len() || delim.len() == 0 {
    } else {
        lemma_find_from(body, delim, from);
        match find_from(body, delim, from) {
            None => {},
            Some(p) => {
                let ps = p + delim.len() + 2;
                if ps <= body.len() {
                    lemma_find_from(body, seq![13u8, 10u8, 13u8, 10u8], ps);
                    match find_from(body, seq![13u8, 10u8, 13u8, 10u8], ps) {
                        None => {},
                        Some(h) => {
                            let cs = h + 4;
                            lemma_find_from(body, seq![13u8, 10u8, 45u8, 45u8], cs);
                            match find_from(body, seq![13u8, 10u8, 45u8, 45u8], cs) {
                                None => {},
                                Some(n) => {
                                    law_parts_are_named_slices(body, delim, n);
                                    let (field, file) = header_names(text_lines(utf8_lossy(body.subrange(ps, h))));
                                    match parts_from(body, delim, n) {
                                        None => {},
                                        Some(rest) => {
                                            if field.len() > 0 {
                                                let all = seq![(field, file, body.subrange(cs, n))] + rest;
                                                assert forall|i: int| 0 <= i < all.len() implies (#[trigger] all[i]).0.len() > 0
                                                    && exists|a: int, b: int|
                                                    0 <= a <= b <= body.len() && all[i].2 == body.subrange(a, b) by {
                                                    if i == 0 {
                                                        assert(0 <= cs <= n <= body.len());
                                                        assert(all[0].2 == body.subrange(cs, n));
                                                    } else {
                                                        assert(all[i] == rest[i - 1]);
                                                    }
                                                }
                                            }
                                        },
                                    }
                                },
                            }
                        },
                    }
                }
            },
        }
    }
}

/// The first position of `needle` in `haystack`; an empty needle is found nowhere.
pub fn find_subsequence(haystack: &[u8], needle: &[u8]) -> (r: Option<usize>)
    ensures
        needle@.len() == 0 ==> r is None,
        needle@.len() > 0 ==> match r {
            Some(k) => find(haystack@, needle@) == Some(k as int),
            None => find(haystack@, needle@) is None,
        },
{
    if needle.len() == 0 || haystack.len() < needle.len() {
        proof {
            if needle@.len() > 0 {
                lemma_find_from(haystack@, needle@, 0);
            }
        }
        return None;
    }
    crate::text::find_bytes_from(haystack, needle, 0)
}

/// The first part of a parsed body with its file name: the part with a file name.
pub open spec fn first_file(parts: Seq<(Seq<char>, Option<Seq<char>>, Seq<u8>)>) -> Option<(Seq<char>, Seq<u8>)>
    decreases parts.len(),
{
    if parts.len() == 0 {
        None
    } else {
        match parts[0].1 {
            Some(f) => Some((f, parts[0].2)),
            None => first_file(parts.drop_first()),
        }
    }
}

/// The file of a multipart body: the name and content of its first part
/// that has a file name.
pub fn parse_multipart_file(body: &[u8], boundary: &str) -> (r: Option<(String, Vec<u8>)>)
    requires
        parts_from(body@, delimiter(boundary@), 0) is Some,
    ensures
        match r {
            Some((f, c)) => first_file(parts_from(body@, delimiter(boundary@), 0)->Some_0) == Some((f@, c@)),
            None => first_file(parts_from(body@, delimiter(boundary@), 0)->Some_0) is None,
        },
{
    let parts = parse_multipart(body, boundary);
    let ghost pv = parts_view(parts@);
    let mut rest = parts;
    let ghost mut k: int = 0;
    assert(pv.skip(0) =~= pv);
    while rest.len() > 0
        invariant
            0 <= k <= pv.len(),
            parts_from(body@, delimiter(boundary@), 0) == Some(pv),
            parts_view(rest@) == pv.skip(k),
            first_file(pv) == first_file(pv.skip(k)),
        decreases rest@.len(),
    {
        let p = rest.remove(0);
        assert(pv.skip(k)[0] == part_view(p)) by {
            assert(rest@.len() + 1 == pv.skip(k).len());
        }
        assert(pv.skip(k).drop_first() =~= pv.skip(k + 1));
        let ghost pp = part_view(p);
        assert(pv.skip(k).len() > 0);
        assert(first_file(pv.skip(k)) == match pp.1 {
            Some(f) => Some((f, pp.2)),
            None => first_file(pv.skip(k + 1)),
        });
        let MultipartPart { field: _, filename, content } = p;
        match filename {
            Some(f) => {
                assert(pp.1 == Some(f@));
                assert(pp.2 == content@);
                assert(first_file(pv) == Some((f@, content@)));
                return Some((f, content));
            },
            None => {},
        }
        proof {
            k = k + 1;
        }
        assert(parts_view(rest@) =~= pv.skip(k));
    }
    assert(pv.skip(k) =~= Seq::<(Seq<char>, Option<Seq<char>>, Seq<u8>)>::empty());
    None
}

/// The checks of a character card upload: a body without a file part, or a
/// file over 30 MiB, is refused.
pub fn upload_check(file_len: Option<usize>) -> (r: Result<(), crate::api::errors::BareError>)
    ensures
        match file_len {
            None => r matches Err(e) && e.status == 400 && e.error@ == "缺少文件字段(file)"@,
            Some(n) => if n > MAX_UPLOAD {
                r matches Err(e) && e.status == 400 && e.error@ == "文件超过 30MB 上限"@
            } else {
                r is Ok
            },
        },
{
    match file_len {
        None => Err(crate::api::errors::bare_error(400, "缺少文件字段(file)")),
        Some(n) => if n > MAX_UPLOAD {
            Err(crate::api::errors::bare_error(400, "文件超过 30MB 上限"))
        } else {
            Ok(())
        },
    }
}

} // verus!
