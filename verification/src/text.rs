//! Character-level text helpers shared by the parsers: conversions between
//! `str` and character vectors, whitespace, trimming, searching and decimal
//! formatting, each with the statement it is proved against.
use vstd::prelude::*;

verus! {

broadcast use vstd::string::group_string_axioms;

/// The characters of `s`, in order.
pub fn chars_of(s: &str) -> (r: Vec<char>)
    ensures
        r@ == s@,
{
    let mut out: Vec<char> = Vec::new();
    for c in it: s.chars()
        invariant
            out@ == it.seq().take(it.index() as int),
            it.seq() == s@,
    {
        out.push(c);
        assert(it.seq().take(it.index() + 1) =~= it.seq().take(it.index() as int).push(c));
    }
    assert(s@.take(s@.len() as int) =~= s@);
    out
}

/// `String::from_iter` over the characters of `v`: the string made of exactly
/// those characters, in order.
#[verifier::external_body]
pub(crate) fn string_of(v: &Vec<char>) -> (r: String)
    ensures
        r@ == v@,
{
    String::from_iter(v.iter())
}

/// Unicode `White_Space`, the set that `char::is_whitespace` tests.
pub open spec fn is_ws(c: char) -> bool {
    let v = c as u32;
    (0x9 <= v && v <= 0xd) || v == 0x20 || v == 0x85 || v == 0xa0 || v == 0x1680 || (0x2000 <= v
        && v <= 0x200a) || v == 0x2028 || v == 0x2029 || v == 0x202f || v == 0x205f || v == 0x3000
}

/// Whether `c` is Unicode white space.
pub fn is_whitespace(c: char) -> (r: bool)
    ensures
        r == is_ws(c),
{
    let v = c as u32;
    (0x9 <= v && v <= 0xd) || v == 0x20 || v == 0x85 || v == 0xa0 || v == 0x1680 || (0x2000 <= v
        && v <= 0x200a) || v == 0x2028 || v == 0x2029 || v == 0x202f || v == 0x205f || v == 0x3000
}

/// Whether every character of `s` is white space (what `s.trim().is_empty()` tests).
pub open spec fn blank(s: Seq<char>) -> bool {
    forall|i: int| 0 <= i < s.len() ==> is_ws(#[trigger] s[i])
}

/// The index of the first non-white-space character at or after `i`.
pub open spec fn lead_ws(s: Seq<char>, i: int) -> int
    decreases s.len() - i,
{
    if 0 <= i < s.len() && is_ws(s[i]) {
        lead_ws(s, i + 1)
    } else {
        i
    }
}

/// The end of `s.take(j)` once trailing white space is dropped.
pub open spec fn trail_ws(s: Seq<char>, j: int) -> int
    decreases j,
{
    if 0 < j <= s.len() && is_ws(s[j - 1]) {
        trail_ws(s, j - 1)
    } else {
        j
    }
}

/// `s` without leading white space.
pub open spec fn trim_start(s: Seq<char>) -> Seq<char> {
    s.subrange(lead_ws(s, 0), s.len() as int)
}

/// `s` without trailing white space.
pub open spec fn trim_end(s: Seq<char>) -> Seq<char> {
    s.subrange(0, trail_ws(s, s.len() as int))
}

/// `s` without leading and trailing white space.
pub open spec fn trim(s: Seq<char>) -> Seq<char> {
    trim_end(trim_start(s))
}

proof fn lemma_lead_ws_bounds(s: Seq<char>, i: int)
    requires
        0 <= i <= s.len(),
    ensures
        i <= lead_ws(s, i) <= s.len(),
        forall|k: int| i <= k < lead_ws(s, i) ==> is_ws(#[trigger] s[k]),
        lead_ws(s, i) < s.len() ==> !is_ws(s[lead_ws(s, i)]),
    decreases s.len() - i,
{
    if i < s.len() && is_ws(s[i]) {
        lemma_lead_ws_bounds(s, i + 1);
    }
}

proof fn lemma_trail_ws_bounds(s: Seq<char>, j: int)
    requires
        0 <= j <= s.len(),
    ensures
        0 <= trail_ws(s, j) <= j,
        forall|k: int| trail_ws(s, j) <= k < j ==> is_ws(#[trigger] s[k]),
        trail_ws(s, j) > 0 ==> !is_ws(s[trail_ws(s, j) - 1]),
    decreases j,
{
    if 0 < j && is_ws(s[j - 1]) {
        lemma_trail_ws_bounds(s, j - 1);
    }
}

/// A trimmed text neither starts nor ends with white space.
pub proof fn lemma_trim_ends(s: Seq<char>)
    ensures
        trim(s).len() > 0 ==> !is_ws(trim(s)[0]) && !is_ws(trim(s)[trim(s).len() - 1]),
        trim(s).len() <= s.len(),
{
    lemma_lead_ws_bounds(s, 0);
    let u = trim_start(s);
    lemma_trail_ws_bounds(u, u.len() as int);
    if trim(s).len() > 0 {
        assert(trim(s)[0] == u[0]);
        assert(u[0] == s[lead_ws(s, 0)]);
    }
}

/// A text that neither starts nor ends with white space is its own trim.
pub proof fn lemma_trim_fixed(t: Seq<char>)
    requires
        t.len() > 0 ==> !is_ws(t[0]) && !is_ws(t[t.len() - 1]),
    ensures
        trim(t) == t,
{
    if t.len() > 0 {
        assert(lead_ws(t, 0) == 0);
        assert(t.subrange(0, t.len() as int) =~= t);
        assert(trim_start(t) == t);
        assert(trail_ws(t, t.len() as int) == t.len());
    } else {
        assert(trim_start(t) =~= t);
        assert(trim_end(t) =~= t);
    }
    assert(trim(t) =~= t);
}

/// Trimming twice is trimming once.
pub proof fn lemma_trim_idempotent(s: Seq<char>)
    ensures
        trim(trim(s)) == trim(s),
{
    lemma_trim_ends(s);
    lemma_trim_fixed(trim(s));
}

/// The position of the first non-white-space character (or the length).
pub fn lead_ws_len(s: &Vec<char>) -> (r: usize)
    ensures
        r as int == lead_ws(s@, 0),
        r <= s.len(),
{
    let mut i: usize = 0;
    while i < s.len() && is_whitespace(s[i])
        invariant
            i <= s.len(),
            lead_ws(s@, 0) == lead_ws(s@, i as int),
        decreases s.len() - i,
    {
        i = i + 1;
    }
    proof {
        lemma_lead_ws_bounds(s@, i as int);
    }
    i
}

/// The end of `s` once trailing white space is dropped.
pub fn trail_ws_end(s: &Vec<char>) -> (r: usize)
    ensures
        r as int == trail_ws(s@, s@.len() as int),
        r <= s.len(),
{
    let mut j: usize = s.len();
    while j > 0 && is_whitespace(s[j - 1])
        invariant
            j <= s.len(),
            trail_ws(s@, s@.len() as int) == trail_ws(s@, j as int),
        decreases j,
    {
        j = j - 1;
    }
    proof {
        lemma_trail_ws_bounds(s@, j as int);
    }
    j
}

/// The characters of `s` from `start` to `end`.
pub fn slice_chars(s: &Vec<char>, start: usize, end: usize) -> (r: Vec<char>)
    requires
        start <= end <= s.len(),
    ensures
        r@ == s@.subrange(start as int, end as int),
{
    let mut out: Vec<char> = Vec::new();
    let mut i = start;
    while i < end
        invariant
            start <= i <= end <= s.len(),
            out@ == s@.subrange(start as int, i as int),
        decreases end - i,
    {
        out.push(s[i]);
        i = i + 1;
        assert(out@ =~= s@.subrange(start as int, i as int));
    }
    out
}

/// The bytes of `s` from `start` to `end`.
pub fn slice_bytes(s: &[u8], start: usize, end: usize) -> (r: Vec<u8>)
    requires
        start <= end <= s@.len(),
    ensures
        r@ == s@.subrange(start as int, end as int),
{
    let mut out: Vec<u8> = Vec::new();
    let mut i = start;
    while i < end
        invariant
            start <= i <= end <= s@.len(),
            out@ == s@.subrange(start as int, i as int),
        decreases end - i,
    {
        out.push(s[i]);
        i = i + 1;
        assert(out@ =~= s@.subrange(start as int, i as int));
    }
    out
}

/// `s` without leading white space.
pub fn trim_start_chars(s: &Vec<char>) -> (r: Vec<char>)
    ensures
        r@ == trim_start(s@),
{
    let k = lead_ws_len(s);
    slice_chars(s, k, s.len())
}

/// `s` without trailing white space.
pub fn trim_end_chars(s: &Vec<char>) -> (r: Vec<char>)
    ensures
        r@ == trim_end(s@),
{
    let k = trail_ws_end(s);
    slice_chars(s, 0, k)
}

/// `s` without leading and trailing white space.
pub fn trim_chars(s: &Vec<char>) -> (r: Vec<char>)
    ensures
        r@ == trim(s@),
{
    let a = trim_start_chars(s);
    trim_end_chars(&a)
}

/// Whether every character of `s` is white space.
pub fn is_blank(s: &Vec<char>) -> (r: bool)
    ensures
        r == blank(s@),
{
    let mut i: usize = 0;
    while i < s.len()
        invariant
            i <= s.len(),
            forall|k: int| 0 <= k < i ==> is_ws(#[trigger] s@[k]),
        decreases s.len() - i,
    {
        if !is_whitespace(s[i]) {
            return false;
        }
        i = i + 1;
    }
    true
}

/// Whether `s` holds `pat` at position `i`.
pub open spec fn occurs_at<T>(s: Seq<T>, i: int, pat: Seq<T>) -> bool {
    0 <= i && i + pat.len() <= s.len() && s.subrange(i, i + pat.len()) == pat
}

/// The first position at or after `i` where `pat` occurs in `s`.
pub open spec fn find_from<T>(s: Seq<T>, pat: Seq<T>, i: int) -> Option<int>
    decreases s.len() - i,
{
    if i < 0 || i + pat.len() > s.len() {
        None
    } else if occurs_at(s, i, pat) {
        Some(i)
    } else if i >= s.len() {
        None
    } else {
        find_from(s, pat, i + 1)
    }
}

/// The first position where `pat` occurs in `s` (what `str::find` and a window
/// search return).
pub open spec fn find<T>(s: Seq<T>, pat: Seq<T>) -> Option<int> {
    find_from(s, pat, 0)
}

/// Facts about a search result: a hit is an occurrence, and nothing occurs before it.
pub proof fn lemma_find_from<T>(s: Seq<T>, pat: Seq<T>, i: int)
    requires
        0 <= i,
    ensures
        find_from(s, pat, i) matches Some(k) ==> i <= k && occurs_at(s, k, pat) && forall|j: int|
            i <= j < k ==> !occurs_at(s, j, pat),
        find_from(s, pat, i) is None ==> forall|j: int| i <= j ==> !occurs_at(s, j, pat),
    decreases s.len() - i,
{
    if i + pat.len() > s.len() {
    } else if occurs_at(s, i, pat) {
    } else if i >= s.len() {
        assert(occurs_at(s, i, pat)) by {
            assert(pat.len() == 0);
            assert(s.subrange(i, i) =~= pat);
        }
    } else {
        lemma_find_from(s, pat, i + 1);
    }
}

/// A position where `pat` occurs, with no occurrence between `i` and it, is
/// what the search from `i` finds.
pub proof fn lemma_find_from_unique<T>(s: Seq<T>, pat: Seq<T>, i: int, k: int)
    requires
        0 <= i <= k,
        occurs_at(s, k, pat),
        forall|j: int| i <= j < k ==> !occurs_at(s, j, pat),
    ensures
        find_from(s, pat, i) == Some(k),
    decreases k - i,
{
    if i < k {
        assert(!occurs_at(s, i, pat));
        lemma_find_from_unique(s, pat, i + 1, k);
    }
}

/// An occurrence that lies wholly inside `s` is one in `s + x`, and back.
pub proof fn lemma_occurs_prefix<T>(s: Seq<T>, x: Seq<T>, j: int, pat: Seq<T>)
    requires
        0 <= j,
        j + pat.len() <= s.len(),
    ensures
        occurs_at(s + x, j, pat) == occurs_at(s, j, pat),
{
    assert((s + x).subrange(j, j + pat.len()) =~= s.subrange(j, j + pat.len()));
}

/// What a search finds in `s` it finds at the same place in `s + x`.
pub proof fn lemma_find_extend<T>(s: Seq<T>, x: Seq<T>, pat: Seq<T>)
    ensures
        find(s, pat) matches Some(k) ==> find(s + x, pat) == Some(k),
{
    lemma_find_from(s, pat, 0);
    if let Some(k) = find(s, pat) {
        lemma_occurs_prefix(s, x, k, pat);
        assert forall|j: int| 0 <= j < k implies !occurs_at(s + x, j, pat) by {
            lemma_occurs_prefix(s, x, j, pat);
        }
        lemma_find_from_unique(s + x, pat, 0, k);
    }
}

/// Whether `s` starts with `p`.
pub open spec fn starts_with<T>(s: Seq<T>, p: Seq<T>) -> bool {
    p.len() <= s.len() && s.take(p.len() as int) == p
}

/// Whether `s` ends with `p`.
pub open spec fn ends_with<T>(s: Seq<T>, p: Seq<T>) -> bool {
    p.len() <= s.len() && s.skip(s.len() - p.len()) == p
}

/// Whether the characters of `pat` stand in `s` at `i`.
pub fn chars_at(s: &Vec<char>, i: usize, pat: &Vec<char>) -> (r: bool)
    ensures
        r == occurs_at(s@, i as int, pat@),
{
    if pat.len() > s.len() || i > s.len() - pat.len() {
        return false;
    }
    let mut k: usize = 0;
    while k < pat.len()
        invariant
            k <= pat.len(),
            i + pat.len() <= s.len(),
            forall|j: int| 0 <= j < k ==> s@[i + j] == pat@[j],
        decreases pat.len() - k,
    {
        if s[i + k] != pat[k] {
            assert(s@.subrange(i as int, i + pat@.len())[k as int] != pat@[k as int]);
            return false;
        }
        k = k + 1;
    }
    assert(s@.subrange(i as int, i + pat@.len()) =~= pat@);
    true
}

/// Whether the bytes of `pat` stand in `s` at `i`.
pub fn bytes_at(s: &[u8], i: usize, pat: &[u8]) -> (r: bool)
    ensures
        r == occurs_at(s@, i as int, pat@),
{
    if pat.len() > s.len() || i > s.len() - pat.len() {
        return false;
    }
    let mut k: usize = 0;
    while k < pat.len()
        invariant
            k <= pat@.len(),
            i + pat@.len() <= s@.len(),
            s@.len() == s.len(),
            pat@.len() == pat.len(),
            forall|j: int| 0 <= j < k ==> s@[i + j] == pat@[j],
        decreases pat@.len() - k,
    {
        if s[i + k] != pat[k] {
            assert(s@.subrange(i as int, i + pat@.len())[k as int] != pat@[k as int]);
            return false;
        }
        k = k + 1;
    }
    assert(s@.subrange(i as int, i + pat@.len()) =~= pat@);
    true
}

/// The first position at or after `from` where `pat` occurs in `s`.
pub fn find_chars_from(s: &Vec<char>, pat: &Vec<char>, from: usize) -> (r: Option<usize>)
    ensures
        r matches Some(k) ==> find_from(s@, pat@, from as int) == Some(k as int),
        r is None ==> find_from(s@, pat@, from as int) is None,
{
    if pat.len() > s.len() || from > s.len() - pat.len() {
        return None;
    }
    if pat.len() == 0 {
        assert(occurs_at(s@, from as int, pat@)) by {
            assert(s@.subrange(from as int, from as int) =~= pat@);
        }
        return Some(from);
    }
    let mut i = from;
    while i <= s.len() - pat.len()
        invariant
            from <= i,
            1 <= pat@.len() <= s@.len(),
            find_from(s@, pat@, from as int) == find_from(s@, pat@, i as int),
        decreases s.len() - i,
    {
        if chars_at(s, i, pat) {
            return Some(i);
        }
        i = i + 1;
    }
    None
}

/// The first position where `pat` occurs in `s`.
pub fn find_chars(s: &Vec<char>, pat: &Vec<char>) -> (r: Option<usize>)
    ensures
        r matches Some(k) ==> find(s@, pat@) == Some(k as int),
        r is None ==> find(s@, pat@) is None,
{
    find_chars_from(s, pat, 0)
}

/// The first position at or after `from` where `pat` occurs in `s`.
pub fn find_bytes_from(s: &[u8], pat: &[u8], from: usize) -> (r: Option<usize>)
    ensures
        r matches Some(k) ==> find_from(s@, pat@, from as int) == Some(k as int),
        r is None ==> find_from(s@, pat@, from as int) is None,
{
    if pat.len() > s.len() || from > s.len() - pat.len() {
        return None;
    }
    if pat.len() == 0 {
        assert(occurs_at(s@, from as int, pat@)) by {
            assert(s@.subrange(from as int, from as int) =~= pat@);
        }
        return Some(from);
    }
    let mut i = from;
    while i <= s.len() - pat.len()
        invariant
            from <= i,
            1 <= pat@.len() <= s@.len(),
            find_from(s@, pat@, from as int) == find_from(s@, pat@, i as int),
        decreases s@.len() - i,
    {
        if bytes_at(s, i, pat) {
            return Some(i);
        }
        i = i + 1;
    }
    None
}

/// Whether `s` starts with `p`.
pub fn starts_with_chars(s: &Vec<char>, p: &Vec<char>) -> (r: bool)
    ensures
        r == starts_with(s@, p@),
{
    let r = chars_at(s, 0, p);
    assert(r == starts_with(s@, p@)) by {
        if p@.len() <= s@.len() {
            assert(s@.subrange(0, p@.len() as int) =~= s@.take(p@.len() as int));
        }
    }
    r
}

/// Whether `s` ends with `p`.
pub fn ends_with_chars(s: &Vec<char>, p: &Vec<char>) -> (r: bool)
    ensures
        r == ends_with(s@, p@),
{
    if p.len() > s.len() {
        return false;
    }
    let r = chars_at(s, s.len() - p.len(), p);
    assert(r == ends_with(s@, p@)) by {
        assert(s@.subrange(s@.len() - p@.len(), s@.len() as int) =~= s@.skip(
            s@.len() - p@.len(),
        ));
    }
    r
}

/// The decimal digit character of `d`.
pub open spec fn digit_char(d: nat) -> char {
    (('0' as u32) + d) as char
}

/// The decimal representation of `n`, most significant digit first, no padding.
pub open spec fn decimal(n: nat) -> Seq<char>
    decreases n,
{
    if n < 10 {
        seq![digit_char(n)]
    } else {
        decimal(n / 10) + seq![digit_char(n % 10)]
    }
}

fn digit_of(d: u64) -> (r: char)
    requires
        d < 10,
    ensures
        r == digit_char(d as nat),
{
    if d == 0 { '0' }
    else if d == 1 { '1' }
    else if d == 2 { '2' }
    else if d == 3 { '3' }
    else if d == 4 { '4' }
    else if d == 5 { '5' }
    else if d == 6 { '6' }
    else if d == 7 { '7' }
    else if d == 8 { '8' }
    else { '9' }
}

/// The decimal representation of `n` (what `{}` formatting prints for an
/// unsigned integer).
pub fn decimal_chars(n: u64) -> (r: Vec<char>)
    ensures
        r@ == decimal(n as nat),
    decreases n,
{
    if n < 10 {
        vec![digit_of(n)]
    } else {
        let mut v = decimal_chars(n / 10);
        v.push(digit_of(n % 10));
        v
    }
}

/// Appends the characters of `b` to `a`.
pub fn append_chars(a: &mut Vec<char>, b: &Vec<char>)
    ensures
        final(a)@ == old(a)@ + b@,
{
    let mut i: usize = 0;
    while i < b.len()
        invariant
            i <= b.len(),
            a@ == old(a)@ + b@.take(i as int),
        decreases b.len() - i,
    {
        a.push(b[i]);
        i = i + 1;
        assert(a@ =~= old(a)@ + b@.take(i as int));
    }
    assert(b@.take(b@.len() as int) =~= b@);
}

/// The first `n` characters of `s` (all of them when it is shorter).
pub fn take_chars(s: &Vec<char>, n: usize) -> (r: Vec<char>)
    ensures
        r@ == if s@.len() <= n { s@ } else { s@.take(n as int) },
{
    if s.len() <= n {
        let r = slice_chars(s, 0, s.len());
        assert(r@ =~= s@);
        r
    } else {
        let r = slice_chars(s, 0, n);
        assert(r@ =~= s@.take(n as int));
        r
    }
}

} // verus!

verus! {

/// What `str::to_lowercase` gives for a string with these characters.
pub uninterp spec fn lowercase(s: Seq<char>) -> Seq<char>;

/// `str::to_lowercase` on the string made of the characters of `s`; the
/// contract names the result `lowercase(s)` and claims nothing more of it.
#[verifier::external_body]
pub(crate) fn lowercase_chars(s: &Vec<char>) -> (r: Vec<char>)
    ensures
        r@ == lowercase(s@),
{
    String::from_iter(s.iter()).to_lowercase().chars().collect()
}

/// The display text of the `Utf8Error` that `std::str::from_utf8` reports for these bytes.
pub uninterp spec fn utf8_error_text(bytes: Seq<u8>) -> Seq<char>;

/// `std::str::from_utf8`: the decoded characters when the bytes are valid
/// UTF-8 (as the standard library documents), else the error's display text.
#[verifier::external_body]
pub(crate) fn decode_utf8_chars(bytes: &[u8]) -> (r: Result<Vec<char>, Vec<char>>)
    ensures
        r is Ok <==> vstd::utf8::valid_utf8(bytes@),
        r matches Ok(s) ==> s@ == vstd::utf8::decode_utf8(bytes@),
        r matches Err(e) ==> e@ == utf8_error_text(bytes@),
{
    match std::str::from_utf8(bytes) {
        Ok(s) => Ok(s.chars().collect()),
        Err(e) => Err(e.to_string().chars().collect()),
    }
}

/// Whether `p` occurs anywhere in `s`.
pub open spec fn contains<T>(s: Seq<T>, p: Seq<T>) -> bool {
    find(s, p) is Some
}

/// Whether the characters of `p` occur in `s`.
pub fn contains_chars(s: &Vec<char>, p: &Vec<char>) -> (r: bool)
    ensures
        r == contains(s@, p@),
{
    find_chars(s, p).is_some()
}

/// A character vector holding the characters of a string literal or slice.
pub fn lit(s: &str) -> (r: Vec<char>)
    ensures
        r@ == s@,
{
    chars_of(s)
}

/// `str::split_once` with a one-character separator: the text before the
/// first separator and the text after it.
pub open spec fn split_once(s: Seq<char>, c: char) -> Option<(Seq<char>, Seq<char>)> {
    match find(s, seq![c]) {
        Some(k) => Some((s.take(k), s.skip(k + 1))),
        None => None,
    }
}

/// Splits `s` at the first `c`.
pub fn split_once_chars(s: &Vec<char>, c: char) -> (r: Option<(Vec<char>, Vec<char>)>)
    ensures
        match r {
            Some((a, b)) => split_once(s@, c) == Some((a@, b@)),
            None => split_once(s@, c) is None,
        },
{
    let sep = vec![c];
    assert(sep@ =~= seq![c]);
    match find_chars(s, &sep) {
        Some(k) => {
            proof {
                lemma_find_from(s@, sep@, 0);
                assert(occurs_at(s@, k as int, sep@));
                assert(k + 1 <= s@.len());
            }
            let a = slice_chars(s, 0, k);
            let n = s.len();
            let b = slice_chars(s, k + 1, n);
            assert(a@ =~= s@.take(k as int));
            assert(b@ =~= s@.skip(k + 1));
            Some((a, b))
        },
        None => None,
    }
}

/// The value of a decimal digit character.
pub open spec fn digit_value(c: char) -> int {
    c as int - '0' as int
}

/// Whether every character of `d` is an ASCII decimal digit.
pub open spec fn all_digits(d: Seq<char>) -> bool {
    forall|i: int| 0 <= i < d.len() ==> '0' <= #[trigger] d[i] && d[i] <= '9'
}

/// The number that the decimal digits `d` write.
pub open spec fn digits_value(d: Seq<char>) -> int
    decreases d.len(),
{
    if d.len() == 0 {
        0
    } else {
        digits_value(d.drop_last()) * 10 + digit_value(d.last())
    }
}

/// `str::parse::<usize>`: an optional `+`, then one or more ASCII digits
/// whose value fits in `usize`.
pub open spec fn parse_usize(s: Seq<char>) -> Option<int> {
    let d = if s.len() > 0 && s[0] == '+' { s.skip(1) } else { s };
    if d.len() > 0 && all_digits(d) && digits_value(d) <= usize::MAX {
        Some(digits_value(d))
    } else {
        None
    }
}

proof fn lemma_digits_prefix(d: Seq<char>, k: int)
    requires
        all_digits(d),
        0 <= k <= d.len(),
    ensures
        0 <= digits_value(d.take(k)) <= digits_value(d),
    decreases d.len(),
{
    if k < d.len() {
        assert(d.drop_last().take(k) =~= d.take(k));
        assert(all_digits(d.drop_last()));
        lemma_digits_prefix(d.drop_last(), k);
    } else {
        assert(d.take(k) =~= d);
        lemma_digits_nonneg(d);
    }
}

proof fn lemma_digits_nonneg(d: Seq<char>)
    requires
        all_digits(d),
    ensures
        0 <= digits_value(d),
    decreases d.len(),
{
    if d.len() > 0 {
        assert(all_digits(d.drop_last()));
        lemma_digits_nonneg(d.drop_last());
    }
}

/// Parses `s` as a `usize` the way `str::parse` does.
pub fn parse_usize_chars(s: &Vec<char>) -> (r: Option<usize>)
    ensures
        match r {
            Some(n) => parse_usize(s@) == Some(n as int),
            None => parse_usize(s@) is None,
        },
{
    let start: usize = if s.len() > 0 && s[0] == '+' { 1 } else { 0 };
    let ghost d = if s@.len() > 0 && s@[0] == '+' { s@.skip(1) } else { s@ };
    assert(d =~= s@.subrange(start as int, s@.len() as int));
    if start >= s.len() {
        return None;
    }
    let mut acc: usize = 0;
    let mut i: usize = start;
    while i < s.len()
        invariant
            start <= i <= s@.len(),
            d == s@.subrange(start as int, s@.len() as int),
            d == (if s@.len() > 0 && s@[0] == '+' { s@.skip(1) } else { s@ }),
            d.len() > 0,
            acc as int == digits_value(d.take(i - start)),
            forall|k: int| 0 <= k < i - start ==> '0' <= #[trigger] d[k] && d[k] <= '9',
        decreases s.len() - i,
    {
        let c = s[i];
        if c < '0' || c > '9' {
            assert(d[i - start] == c);
            assert(!all_digits(d));
            return None;
        }
        let v = (c as u32 - '0' as u32) as usize;
        assert(v as int == digit_value(c));
        let ghost j: int = i - start;
        assert(d.take(j + 1).drop_last() =~= d.take(j));
        assert(digits_value(d.take(j + 1)) == digits_value(d.take(j)) * 10 + digit_value(c));
        let next = match acc.checked_mul(10) {
            Some(m) => m.checked_add(v),
            None => None,
        };
        match next {
            Some(n) => {
                acc = n;
            },
            None => {
                proof {
                    if all_digits(d) {
                        lemma_digits_prefix(d, j + 1);
                        assert(digits_value(d.take(j + 1)) > usize::MAX);
                    }
                }
                return None;
            },
        }
        i = i + 1;
    }
    assert(d.take(s@.len() - start) =~= d);
    Some(acc)
}

/// The index of the first character at or after `i` that is not `c`.
pub open spec fn lead_char(s: Seq<char>, c: char, i: int) -> int
    decreases s.len() - i,
{
    if 0 <= i < s.len() && s[i] == c {
        lead_char(s, c, i + 1)
    } else {
        i
    }
}

/// The number of leading `c` characters of `s`.
pub fn lead_char_len(s: &Vec<char>, c: char) -> (r: usize)
    ensures
        r as int == lead_char(s@, c, 0),
        r <= s@.len(),
{
    let mut i: usize = 0;
    while i < s.len() && s[i] == c
        invariant
            i <= s@.len(),
            lead_char(s@, c, 0) == lead_char(s@, c, i as int),
        decreases s@.len() - i,
    {
        i = i + 1;
    }
    i
}

/// The pieces of `s` between the occurrences of `c` (`str::split`): one
/// more piece than there are separators, empty pieces included.
pub open spec fn split_on(s: Seq<char>, c: char) -> Seq<Seq<char>>
    decreases s.len(),
{
    if s.len() == 0 {
        seq![seq![]]
    } else {
        let p = split_on(s.drop_last(), c);
        if s.last() == c {
            p.push(seq![])
        } else {
            p.update(p.len() - 1, p.last().push(s.last()))
        }
    }
}

pub proof fn lemma_split_nonempty(s: Seq<char>, c: char)
    ensures
        split_on(s, c).len() >= 1,
    decreases s.len(),
{
    if s.len() > 0 {
        lemma_split_nonempty(s.drop_last(), c);
    }
}

/// No piece of a split holds the separator.
pub proof fn lemma_split_pieces_lack_sep(s: Seq<char>, c: char)
    ensures
        forall|i: int, k: int|
            0 <= i < split_on(s, c).len() && 0 <= k < split_on(s, c)[i].len() ==> #[trigger] split_on(s, c)[i][k] != c,
    decreases s.len(),
{
    lemma_split_nonempty(s, c);
    if s.len() > 0 {
        lemma_split_pieces_lack_sep(s.drop_last(), c);
        lemma_split_nonempty(s.drop_last(), c);
        let p = split_on(s.drop_last(), c);
        let q = split_on(s, c);
        assert forall|i: int, k: int| 0 <= i < q.len() && 0 <= k < q[i].len() implies #[trigger] q[i][k] != c by {
            if s.last() == c {
                if i < p.len() {
                    assert(q[i] == p[i]);
                }
            } else {
                if i < p.len() - 1 {
                    assert(q[i] == p[i]);
                } else {
                    assert(q[i] == p.last().push(s.last()));
                    if k < p.last().len() {
                        assert(q[i][k] == p[p.len() - 1][k]);
                    }
                }
            }
        }
    }
}

pub proof fn lemma_split_last_after(s: Seq<char>, c: char)
    ensures
        split_on(s, c).len() >= 1,
        split_on(s, c).last().len() <= s.len(),
        split_on(s, c).last() == s.skip(s.len() - split_on(s, c).last().len()),
        forall|k: int| 0 <= k < split_on(s, c).last().len() ==> split_on(s, c).last()[k] != c,
        split_on(s, c).last().len() < s.len() ==> s[s.len() - split_on(s, c).last().len() - 1] == c,
    decreases s.len(),
{
    lemma_split_nonempty(s, c);
    if s.len() > 0 {
        lemma_split_last_after(s.drop_last(), c);
        let p = split_on(s.drop_last(), c);
        lemma_split_nonempty(s.drop_last(), c);
        let dl = s.drop_last();
        if s.last() == c {
            assert(s.skip(s.len() as int) =~= seq![]);
        } else {
            let lp = p.last().len();
            assert(p.last() == dl.skip(dl.len() - lp));
            assert forall|k: int| 0 <= k < lp + 1 implies #[trigger] p.last().push(s.last())[k] == s.skip(s.len() - (lp + 1))[k] by {
                if k < lp {
                    assert(p.last()[k] == dl.skip(dl.len() - lp)[k]);
                    assert(dl.skip(dl.len() - lp)[k] == dl[dl.len() - lp + k]);
                }
            }
            assert(p.last().push(s.last()) =~= s.skip(s.len() - (lp + 1)));
            assert(split_on(s, c).last() == p.last().push(s.last()));
        }
    } else {
        assert(s.skip(0) =~= seq![]);
    }
}

/// Splits `s` at every `c` (see `split_on`).
pub fn split_chars(s: &Vec<char>, c: char) -> (r: Vec<Vec<char>>)
    ensures
        r@.map_values(|p: Vec<char>| p@) == split_on(s@, c),
{
    let mut done: Vec<Vec<char>> = Vec::new();
    let mut seg: Vec<char> = Vec::new();
    for i in 0..s.len()
        invariant
            split_on(s@.take(i as int), c) == done@.map_values(|p: Vec<char>| p@).push(seg@),
    {
        assert(s@.take(i + 1).drop_last() =~= s@.take(i as int));
        assert(s@.take(i + 1).last() == s@[i as int]);
        if s[i] == c {
            let ghost before = done@;
            let finished = seg;
            done.push(finished);
            seg = Vec::new();
            assert(done@.map_values(|p: Vec<char>| p@) =~= before.map_values(|p: Vec<char>| p@).push(finished@));
            assert(split_on(s@.take(i + 1), c) =~= done@.map_values(|p: Vec<char>| p@).push(seg@));
        } else {
            let ghost prev = seg@;
            seg.push(s[i]);
            assert(split_on(s@.take(i + 1), c) =~= done@.map_values(|p: Vec<char>| p@).push(seg@));
        }
    }
    assert(s@.take(s@.len() as int) =~= s@);
    let ghost before = done@;
    let finished = seg;
    done.push(finished);
    assert(done@.map_values(|p: Vec<char>| p@) =~= before.map_values(|p: Vec<char>| p@).push(finished@));
    done
}

/// The end of `s.take(j)` once trailing `c` characters are dropped.
pub open spec fn trail_char(s: Seq<char>, c: char, j: int) -> int
    decreases j,
{
    if 0 < j <= s.len() && s[j - 1] == c {
        trail_char(s, c, j - 1)
    } else {
        j
    }
}

/// `s` without leading and trailing `c` characters (`str::trim_matches`).
pub open spec fn strip_char(s: Seq<char>, c: char) -> Seq<char> {
    let t = s.skip(lead_char(s, c, 0));
    t.take(trail_char(t, c, t.len() as int))
}

proof fn lemma_lead_char_bounds(s: Seq<char>, c: char, i: int)
    requires
        0 <= i <= s.len(),
    ensures
        i <= lead_char(s, c, i) <= s.len(),
    decreases s.len() - i,
{
    if i < s.len() && s[i] == c {
        lemma_lead_char_bounds(s, c, i + 1);
    }
}

proof fn lemma_trail_char_bounds(s: Seq<char>, c: char, j: int)
    requires
        0 <= j <= s.len(),
    ensures
        0 <= trail_char(s, c, j) <= j,
    decreases j,
{
    if 0 < j && s[j - 1] == c {
        lemma_trail_char_bounds(s, c, j - 1);
    }
}

/// `s` without leading and trailing `c` characters.
pub fn strip_char_chars(s: &Vec<char>, c: char) -> (r: Vec<char>)
    ensures
        r@ == strip_char(s@, c),
{
    let a = lead_char_len(s, c);
    proof {
        lemma_lead_char_bounds(s@, c, 0);
    }
    let t = slice_chars(s, a, s.len());
    assert(t@ =~= s@.skip(a as int));
    let mut j = t.len();
    while j > 0 && t[j - 1] == c
        invariant
            j <= t@.len(),
            trail_char(t@, c, t@.len() as int) == trail_char(t@, c, j as int),
        decreases j,
    {
        j = j - 1;
    }
    let r = slice_chars(&t, 0, j);
    assert(r@ =~= t@.take(j as int));
    r
}

} // verus!
