//! Static assets: the image format read from a file's first bytes, the
//! content type guessed from its name, and the normalisation of asset paths.
use vstd::prelude::*;
use crate::text::{chars_of, ends_with, lit, lowercase, lowercase_chars, starts_with, string_of};

verus! {

broadcast use vstd::string::group_string_axioms;

/// The image type its first bytes announce: PNG, JPEG, GIF, WebP (a RIFF
/// container of type `WEBP`) or BMP.
pub open spec fn image_kind(b: Seq<u8>) -> Option<Seq<char>> {
    if starts_with(b, seq![0x89u8, 0x50u8, 0x4Eu8, 0x47u8]) {
        Some("image/png"@)
    } else if starts_with(b, seq![0xFFu8, 0xD8u8, 0xFFu8]) {
        Some("image/jpeg"@)
    } else if starts_with(b, seq![0x47u8, 0x49u8, 0x46u8, 0x38u8]) {
        Some("image/gif"@)
    } else if b.len() >= 12 && starts_with(b, seq![0x52u8, 0x49u8, 0x46u8, 0x46u8]) && b.subrange(8, 12)
        == seq![0x57u8, 0x45u8, 0x42u8, 0x50u8] {
        Some("image/webp"@)
    } else if starts_with(b, seq![0x42u8, 0x4Du8]) {
        Some("image/bmp"@)
    } else {
        None
    }
}

fn bytes_start(b: &[u8], p: &[u8]) -> (r: bool)
    ensures
        r == starts_with(b@, p@),
{
    let r = crate::text::bytes_at(b, 0, p);
    assert(r == starts_with(b@, p@)) by {
        if p@.len() <= b@.len() {
            assert(b@.subrange(0, p@.len() as int) =~= b@.take(p@.len() as int));
        }
    }
    r
}

/// The image type that a file's first bytes announce, when they announce one.
pub fn sniff_image_mime(bytes: &[u8]) -> (r: Option<&'static str>)
    ensures
        match r {
            Some(m) => image_kind(bytes@) == Some(m@),
            None => image_kind(bytes@) is None,
        },
{
    let png: [u8; 4] = [0x89, 0x50, 0x4E, 0x47];
    let jpeg: [u8; 3] = [0xFF, 0xD8, 0xFF];
    let gif: [u8; 4] = [0x47, 0x49, 0x46, 0x38];
    let riff: [u8; 4] = [0x52, 0x49, 0x46, 0x46];
    let webp: [u8; 4] = [0x57, 0x45, 0x42, 0x50];
    let bmp: [u8; 2] = [0x42, 0x4D];
    assert(png@ =~= seq![0x89u8, 0x50u8, 0x4Eu8, 0x47u8]);
    assert(jpeg@ =~= seq![0xFFu8, 0xD8u8, 0xFFu8]);
    assert(gif@ =~= seq![0x47u8, 0x49u8, 0x46u8, 0x38u8]);
    assert(riff@ =~= seq![0x52u8, 0x49u8, 0x46u8, 0x46u8]);
    assert(webp@ =~= seq![0x57u8, 0x45u8, 0x42u8, 0x50u8]);
    assert(bmp@ =~= seq![0x42u8, 0x4Du8]);
    if bytes_start(bytes, png.as_slice()) {
        Some("image/png")
    } else if bytes_start(bytes, jpeg.as_slice()) {
        Some("image/jpeg")
    } else if bytes_start(bytes, gif.as_slice()) {
        Some("image/gif")
    } else if bytes.len() >= 12 && bytes_start(bytes, riff.as_slice()) && crate::text::bytes_at(bytes, 8, webp.as_slice()) {
        Some("image/webp")
    } else if bytes_start(bytes, bmp.as_slice()) {
        Some("image/bmp")
    } else {
        None
    }
}

/// The content type of a file, from the lower-cased end of its name.
pub open spec fn mime_of(lower: Seq<char>) -> Seq<char> {
    if ends_with(lower, ".html"@) {
        "text/html; charset=utf-8"@
    } else if ends_with(lower, ".js"@) {
        "application/javascript; charset=utf-8"@
    } else if ends_with(lower, ".css"@) {
        "text/css; charset=utf-8"@
    } else if ends_with(lower, ".svg"@) {
        "image/svg+xml"@
    } else if ends_with(lower, ".png"@) {
        "image/png"@
    } else if ends_with(lower, ".jpg"@) || ends_with(lower, ".jpeg"@) {
        "image/jpeg"@
    } else if ends_with(lower, ".gif"@) {
        "image/gif"@
    } else if ends_with(lower, ".webp"@) {
        "image/webp"@
    } else if ends_with(lower, ".json"@) {
        "application/json"@
    } else if ends_with(lower, ".woff2"@) {
        "font/woff2"@
    } else if ends_with(lower, ".ico"@) {
        "image/x-icon"@
    } else {
        "application/octet-stream"@
    }
}

proof fn lemma_last_two(l: Seq<char>, p: Seq<char>)
    ensures
        ends_with(l, p) && p.len() >= 2 ==> l[l.len() - 1] == p[p.len() - 1] && l[l.len() - 2] == p[p.len() - 2],
{
    if ends_with(l, p) && p.len() >= 2 {
        assert(l.skip(l.len() - p.len())[p.len() - 1] == p[p.len() - 1]);
        assert(l.skip(l.len() - p.len())[p.len() - 2] == p[p.len() - 2]);
    }
}

/// The content type follows the file's extension, in any case: `.html`,
/// `.js` and `.css` are UTF-8 text of their kind, `.svg`, `.png`, `.jpg` /
/// `.jpeg`, `.gif`, `.webp` and `.ico` are images of their kind, `.json` is
/// JSON and `.woff2` a web font; any other name is an opaque byte stream.
pub proof fn law_mime_follows_extension(path: Seq<char>)
    ensures
        ends_with(lowercase(path), ".html"@) ==> mime_of(lowercase(path)) == "text/html; charset=utf-8"@,
        ends_with(lowercase(path), ".js"@) ==> mime_of(lowercase(path)) == "application/javascript; charset=utf-8"@,
        ends_with(lowercase(path), ".css"@) ==> mime_of(lowercase(path)) == "text/css; charset=utf-8"@,
        ends_with(lowercase(path), ".svg"@) ==> mime_of(lowercase(path)) == "image/svg+xml"@,
        ends_with(lowercase(path), ".png"@) ==> mime_of(lowercase(path)) == "image/png"@,
        ends_with(lowercase(path), ".jpg"@) ==> mime_of(lowercase(path)) == "image/jpeg"@,
        ends_with(lowercase(path), ".jpeg"@) ==> mime_of(lowercase(path)) == "image/jpeg"@,
        ends_with(lowercase(path), ".gif"@) ==> mime_of(lowercase(path)) == "image/gif"@,
        ends_with(lowercase(path), ".webp"@) ==> mime_of(lowercase(path)) == "image/webp"@,
        ends_with(lowercase(path), ".json"@) ==> mime_of(lowercase(path)) == "application/json"@,
        ends_with(lowercase(path), ".woff2"@) ==> mime_of(lowercase(path)) == "font/woff2"@,
        ends_with(lowercase(path), ".ico"@) ==> mime_of(lowercase(path)) == "image/x-icon"@,
        !(ends_with(lowercase(path), ".html"@) || ends_with(lowercase(path), ".js"@) || ends_with(lowercase(path), ".css"@) || ends_with(lowercase(path), ".svg"@) || ends_with(lowercase(path), ".png"@) || ends_with(lowercase(path), ".jpg"@) || ends_with(lowercase(path), ".jpeg"@) || ends_with(lowercase(path), ".gif"@) || ends_with(lowercase(path), ".webp"@) || ends_with(lowercase(path), ".json"@) || ends_with(lowercase(path), ".woff2"@) || ends_with(lowercase(path), ".ico"@)) ==> mime_of(lowercase(path)) == "application/octet-stream"@,
{
    let l = lowercase(path);
    reveal_strlit(".html");
    reveal_strlit(".js");
    reveal_strlit(".css");
    reveal_strlit(".svg");
    reveal_strlit(".png");
    reveal_strlit(".jpg");
    reveal_strlit(".jpeg");
    reveal_strlit(".gif");
    reveal_strlit(".webp");
    reveal_strlit(".json");
    reveal_strlit(".woff2");
    reveal_strlit(".ico");
    lemma_last_two(l, ".html"@);
    lemma_last_two(l, ".js"@);
    lemma_last_two(l, ".css"@);
    lemma_last_two(l, ".svg"@);
    lemma_last_two(l, ".png"@);
    lemma_last_two(l, ".jpg"@);
    lemma_last_two(l, ".jpeg"@);
    lemma_last_two(l, ".gif"@);
    lemma_last_two(l, ".webp"@);
    lemma_last_two(l, ".json"@);
    lemma_last_two(l, ".woff2"@);
    lemma_last_two(l, ".ico"@);
}

/// The content type guessed from a file's name (see `mime_of`).
pub fn guess_mime(path: &str) -> (r: &'static str)
    ensures
        r@ == mime_of(lowercase(path@)),
{
    let lower = lowercase_chars(&chars_of(path));
    let e = |s: &str| -> (b: bool)
        ensures
            b == ends_with(lower@, s@),
        { crate::text::ends_with_chars(&lower, &lit(s)) };
    if e(".html") {
        "text/html; charset=utf-8"
    } else if e(".js") {
        "application/javascript; charset=utf-8"
    } else if e(".css") {
        "text/css; charset=utf-8"
    } else if e(".svg") {
        "image/svg+xml"
    } else if e(".png") {
        "image/png"
    } else if e(".jpg") || e(".jpeg") {
        "image/jpeg"
    } else if e(".gif") {
        "image/gif"
    } else if e(".webp") {
        "image/webp"
    } else if e(".json") {
        "application/json"
    } else if e(".woff2") {
        "font/woff2"
    } else if e(".ico") {
        "image/x-icon"
    } else {
        "application/octet-stream"
    }
}

/// The content type of an avatar: what its bytes announce, else what its name suggests.
pub fn avatar_mime(bytes: &[u8], file: &str) -> (r: &'static str)
    ensures
        r@ == match image_kind(bytes@) {
            Some(m) => m,
            None => mime_of(lowercase(file@)),
        },
{
    match sniff_image_mime(bytes) {
        Some(m) => m,
        None => guess_mime(file),
    }
}

/// The path's segments that are neither empty nor `.` nor `..`, joined by `/`.
pub open spec fn clean_segments(segs: Seq<Seq<char>>) -> Seq<char>
    decreases segs.len(),
{
    if segs.len() == 0 {
        seq![]
    } else {
        let head = clean_segments(segs.drop_last());
        let s = segs.last();
        if s.len() == 0 || s == "."@ || s == ".."@ {
            head
        } else if head.len() == 0 {
            s
        } else {
            head + "/"@ + s
        }
    }
}

/// The embedded file that a static path names: its clean segments, or
/// `index.html` for the root.
pub open spec fn static_target(path: Seq<char>) -> Seq<char> {
    let rel = clean_segments(crate::text::split_on(path, '/'));
    if rel.len() == 0 { "index.html"@ } else { rel }
}

/// Segments joined by `/`.
pub open spec fn join_segments(segs: Seq<Seq<char>>) -> Seq<char>
    decreases segs.len(),
{
    if segs.len() == 0 {
        seq![]
    } else if segs.len() == 1 {
        segs[0]
    } else {
        join_segments(segs.drop_last()) + "/"@ + segs.last()
    }
}

/// The segments that are neither empty nor `.` nor `..`, in order.
pub open spec fn kept_segments(segs: Seq<Seq<char>>) -> Seq<Seq<char>>
    decreases segs.len(),
{
    if segs.len() == 0 {
        seq![]
    } else {
        let s = segs.last();
        if s.len() == 0 || s == "."@ || s == ".."@ {
            kept_segments(segs.drop_last())
        } else {
            kept_segments(segs.drop_last()).push(s)
        }
    }
}

/// Whether a segment can stand in a path that stays inside its directory:
/// not empty, not `.` nor `..`, and free of `/`.
pub open spec fn inner_segment(s: Seq<char>) -> bool {
    s.len() > 0 && s != "."@ && s != ".."@ && forall|k: int| 0 <= k < s.len() ==> s[k] != '/'
}

proof fn lemma_join_nonempty(segs: Seq<Seq<char>>)
    requires
        forall|i: int| 0 <= i < segs.len() ==> (#[trigger] segs[i]).len() > 0,
    ensures
        segs.len() > 0 ==> join_segments(segs).len() > 0,
    decreases segs.len(),
{
    if segs.len() > 1 {
        lemma_join_nonempty(segs.drop_last());
    }
}

proof fn lemma_clean_is_join(segs: Seq<Seq<char>>)
    requires
        forall|i: int, k: int| 0 <= i < segs.len() && 0 <= k < segs[i].len() ==> #[trigger] segs[i][k] != '/',
    ensures
        clean_segments(segs) == join_segments(kept_segments(segs)),
        forall|i: int| 0 <= i < kept_segments(segs).len() ==> inner_segment(#[trigger] kept_segments(segs)[i]),
    decreases segs.len(),
{
    if segs.len() > 0 {
        let d = segs.drop_last();
        assert forall|i: int, k: int| 0 <= i < d.len() && 0 <= k < d[i].len() implies #[trigger] d[i][k] != '/' by {
            assert(d[i] == segs[i]);
        }
        lemma_clean_is_join(d);
        let kd = kept_segments(d);
        let s = segs.last();
        assert forall|i: int| 0 <= i < kd.len() implies (#[trigger] kd[i]).len() > 0 by {
            assert(inner_segment(kd[i]));
        }
        lemma_join_nonempty(kd);
        if !(s.len() == 0 || s == "."@ || s == ".."@) {
            let ks = kd.push(s);
            assert(ks.drop_last() =~= kd);
            assert forall|k: int| 0 <= k < s.len() implies s[k] != '/' by {
                assert(segs[segs.len() - 1][k] != '/');
            }
            assert forall|i: int| 0 <= i < ks.len() implies inner_segment(#[trigger] ks[i]) by {
                if i < kd.len() {
                    assert(ks[i] == kd[i]);
                }
            }
            if kd.len() == 0 {
                assert(clean_segments(d).len() == 0);
            } else {
                assert(clean_segments(d).len() > 0);
            }
        }
    }
}

/// A static request never leaves the front-end directory: whatever the path,
/// the file served is `index.html` or segments joined by `/`, none of them
/// empty, `.` or `..`, and none holding a `/`.
pub proof fn law_static_target_stays_inside(path: Seq<char>)
    ensures
        static_target(path) == "index.html"@ || ({
            let kept = kept_segments(crate::text::split_on(path, '/'));
            &&& static_target(path) == join_segments(kept)
            &&& kept.len() > 0
            &&& forall|i: int| 0 <= i < kept.len() ==> inner_segment(#[trigger] kept[i])
        }),
{
    let segs = crate::text::split_on(path, '/');
    crate::text::lemma_split_pieces_lack_sep(path, '/');
    lemma_clean_is_join(segs);
}

/// A request path with `.`, `..` and empty segments dropped, so that no
/// request leaves the front-end directory.
pub fn static_rel_path(path: &str) -> (r: String)
    ensures
        r@ == clean_segments(crate::text::split_on(path@, '/')),
{
    proof {
        reveal_strlit("/");
    }
    let s = chars_of(path);
    let mut out: Vec<char> = Vec::new();
    let mut seg: Vec<char> = Vec::new();
    let ghost mut done: Seq<Seq<char>> = seq![];
    let dot = lit(".");
    let dots = lit("..");
    for i in 0..s.len()
        invariant
            s@ == path@,
            dot@ == "."@,
            dots@ == ".."@,
            crate::text::split_on(s@.take(i as int), '/') == done.push(seg@),
            "/"@ == seq!['/'],
            out@ == clean_segments(done),
    {
        let c = s[i];
        assert(s@.take(i + 1).drop_last() =~= s@.take(i as int));
        assert(s@.take(i + 1).last() == c);
        if c == '/' {
            let ghost before = out@;
            assert(before == clean_segments(done));
            if !(seg.len() == 0 || crate::json::eq_chars(&seg, &dot) || crate::json::eq_chars(&seg, &dots)) {
                if out.len() > 0 {
                    out.push('/');
                }
                crate::text::append_chars(&mut out, &seg);
            }
            proof {
                assert(done.push(seg@).drop_last() =~= done);
                assert(done.push(seg@).last() == seg@);
                assert(done.push(seg@).len() > 0);
                assert(out@ =~= clean_segments(done.push(seg@)));
                done = done.push(seg@);
            }
            seg = Vec::new();
            assert(crate::text::split_on(s@.take(i + 1), '/') =~= done.push(seg@));
        } else {
            seg.push(c);
            assert(crate::text::split_on(s@.take(i + 1), '/') =~= done.push(seg@));
        }
    }
    assert(s@.take(s@.len() as int) =~= s@);
    let ghost before = out@;
    if !(seg.len() == 0 || crate::json::eq_chars(&seg, &dot) || crate::json::eq_chars(&seg, &dots)) {
        if out.len() > 0 {
            out.push('/');
        }
        crate::text::append_chars(&mut out, &seg);
    }
    proof {
        assert(done.push(seg@).drop_last() =~= done);
        assert(done.push(seg@).last() == seg@);
        assert(done.push(seg@).len() > 0);
        assert(out@ =~= clean_segments(done.push(seg@)));
    }
    string_of(&out)
}

/// The key of an asset request inside the embedded front end: `index.html`
/// for the root, otherwise the cleaned path.
pub fn static_target_path(path: &str) -> (r: String)
    ensures
        r@ == static_target(path@),
{
    let rel = static_rel_path(path);
    if rel.as_str().unicode_len() == 0 {
        "index.html".to_owned()
    } else {
        rel
    }
}

/// Whether a cleaned path asks for an asset rather than a page: it lies
/// under `assets/` or its last segment holds a dot.
pub open spec fn asset_like(rel: Seq<char>) -> bool {
    let last = crate::text::split_on(rel, '/').last();
    starts_with(rel, "assets/"@) || crate::text::contains(last, "."@)
}

/// The text after the last `/` of `s` (all of it when there is none).
fn last_segment(s: &Vec<char>) -> (r: Vec<char>)
    ensures
        r@ == crate::text::split_on(s@, '/').last(),
{
    let mut j = s.len();
    while j > 0 && s[j - 1] != '/'
        invariant
            j <= s@.len(),
            forall|k: int| j <= k < s@.len() ==> s@[k] != '/',
        decreases j,
    {
        j = j - 1;
    }
    proof {
        crate::text::lemma_split_last_after(s@, '/');
        let last = crate::text::split_on(s@, '/').last();
        let start = s@.len() - last.len();
        if j < start {
            assert(s@[start - 1] == '/');
        } else if j > start {
            let k = j - 1 - start;
            assert(0 <= k < last.len());
            assert(last[k] == s@.skip(start)[k]);
            assert(s@.skip(start)[k] == s@[j - 1]);
        }
        assert(j == start);
    }
    crate::text::slice_chars(s, j, s.len())
}

/// Whether a cleaned path asks for an asset rather than a page.
pub fn looks_like_asset(rel: &str) -> (r: bool)
    ensures
        r == asset_like(rel@),
{
    let cs = chars_of(rel);
    crate::text::starts_with_chars(&cs, &lit("assets/")) || crate::text::contains_chars(&last_segment(&cs), &lit("."))
}

/// The caching policy of a served front-end file: nothing is cached for the
/// entry page, and other files are revalidated.
pub fn static_cache_control(target: &str) -> (r: &'static str)
    ensures
        r@ == if target@ == "index.html"@ {
            "no-store, no-cache, must-revalidate, max-age=0"@
        } else {
            "no-cache, must-revalidate"@
        },
{
    if crate::json::eq_chars(&chars_of(target), &lit("index.html")) {
        "no-store, no-cache, must-revalidate, max-age=0"
    } else {
        "no-cache, must-revalidate"
    }
}

/// Whether a request may be answered from the front end: a `GET` outside `/api/`.
pub fn serves_front_end(is_get: bool, path: &str) -> (r: bool)
    ensures
        r == (is_get && !starts_with(path@, "/api/"@)),
{
    is_get && !crate::text::starts_with_chars(&chars_of(path), &lit("/api/"))
}

/// The key of a file in the embedded front end: the path without leading
/// slashes, and `index.html` for an empty path.
pub open spec fn embedded_key_of(rel: Seq<char>) -> Seq<char> {
    let norm = rel.skip(crate::text::lead_char(rel, '/', 0));
    if norm.len() == 0 { "index.html"@ } else { norm }
}

/// The key of a file in the embedded front end (see `embedded_key_of`).
pub fn embedded_key(rel: &str) -> (r: String)
    ensures
        r@ == embedded_key_of(rel@),
{
    let cs = chars_of(rel);
    let k = crate::text::lead_char_len(&cs, '/');
    let norm = crate::text::slice_chars(&cs, k, cs.len());
    assert(norm@ =~= rel@.skip(k as int));
    if norm.len() == 0 {
        "index.html".to_owned()
    } else {
        string_of(&norm)
    }
}

/// Whether an avatar file name holds only the characters a stored avatar's
/// name may hold (ASCII letters and digits, `.`, `-`, `_`), so that no
/// request leaves the avatar directory.
pub fn avatar_name_ok(file: &str) -> (r: bool)
    ensures
        r == crate::api::plugins::plugin_chars(file@),
{
    let cs = chars_of(file);
    for i in 0..cs.len()
        invariant
            cs@ == file@,
            forall|k: int| 0 <= k < i ==> crate::api::plugins::plugin_char(#[trigger] cs@[k]),
    {
        let c = cs[i];
        if !(('a' <= c && c <= 'z') || ('A' <= c && c <= 'Z') || ('0' <= c && c <= '9') || c == '-' || c == '_' || c == '.') {
            assert(!crate::api::plugins::plugin_char(file@[i as int]));
            return false;
        }
    }
    true
}

} // verus!
