//! World-book entries and the test that decides whether a triggered entry
//! fires on a conversation.
use vstd::prelude::*;
use crate::text::{chars_of, contains, contains_chars, lowercase, lowercase_chars};

verus! {

broadcast use vstd::string::group_string_axioms;

/// A world-book entry, with what the trigger test and the injection read.
pub struct WorldEntry {
    /// The entry's title.
    pub comment: String,
    /// Its trigger keywords.
    pub keys: Vec<String>,
    /// Whether the keywords were written as patterns (they are matched as text).
    pub use_regex: bool,
    /// The text injected when it fires.
    pub content: String,
    /// Whether it fires always.
    pub constant: bool,
    /// Whether it takes part at all.
    pub enabled: bool,
    /// The insertion depth (no part of the scan).
    pub depth: i64,
    /// How many of the latest messages are scanned (0 or absent: all).
    pub scan_depth: Option<usize>,
    /// Whether keywords match with case.
    pub case_sensitive: bool,
    /// The chance, in percent, that a triggered entry fires.
    pub probability: u32,
    /// Whether that chance applies.
    pub use_probability: bool,
    /// The role its text is injected as, when the entry names one.
    pub role: Option<String>,
}

/// The first scanned message: the latest `d` for a scan depth `d > 0`, all otherwise.
pub open spec fn window_start(n: int, scan_depth: Option<usize>) -> int {
    match scan_depth {
        Some(d) => if d > 0 && d < n { n - d } else { 0 },
        None => 0,
    }
}

/// The text compared: as written with case, else lower-cased.
pub open spec fn fold_case(s: Seq<char>, case_sensitive: bool) -> Seq<char> {
    if case_sensitive { s } else { lowercase(s) }
}

/// Whether a non-empty keyword occurs in one of the scanned messages.
pub open spec fn key_hits(key: Seq<char>, texts: Seq<Seq<char>>, lo: int, case_sensitive: bool) -> bool {
    key.len() > 0 && exists|j: int|
        lo <= j < texts.len() && contains(
            fold_case(#[trigger] texts[j], case_sensitive),
            fold_case(key, case_sensitive),
        )
}

/// Whether the entry's chance lets it fire on `roll` (a number below 100).
pub open spec fn chance_passes(e: WorldEntry, roll: u32) -> bool {
    !e.use_probability || e.probability >= 100 || roll < e.probability
}

/// Whether a triggered entry fires: one of its keywords occurs in the
/// scanned messages, and its chance lets it.
pub open spec fn triggered_hits(e: WorldEntry, texts: Seq<Seq<char>>, roll: u32) -> bool {
    &&& exists|k: int|
        0 <= k < e.keys@.len() && key_hits(
            (#[trigger] e.keys@[k])@,
            texts,
            window_start(texts.len() as int, e.scan_depth),
            e.case_sensitive,
        )
    &&& chance_passes(e, roll)
}

/// The messages' texts, with case as written and lower-cased.
pub struct ScanTexts {
    pub plain: Vec<Vec<char>>,
    pub lower: Vec<Vec<char>>,
}

/// The texts of the scanned messages.
pub fn scan_texts(texts: &Vec<Vec<char>>) -> (r: ScanTexts)
    ensures
        r.plain@.len() == texts@.len(),
        r.lower@.len() == texts@.len(),
        forall|j: int| 0 <= j < texts@.len() ==> (#[trigger] r.plain@[j])@ == texts@[j]@,
        forall|j: int| 0 <= j < texts@.len() ==> (#[trigger] r.lower@[j])@ == lowercase(texts@[j]@),
{
    let mut plain: Vec<Vec<char>> = Vec::new();
    let mut lower: Vec<Vec<char>> = Vec::new();
    for j in 0..texts.len()
        invariant
            plain@.len() == j,
            lower@.len() == j,
            forall|i: int| 0 <= i < j ==> (#[trigger] plain@[i])@ == texts@[i]@,
            forall|i: int| 0 <= i < j ==> (#[trigger] lower@[i])@ == lowercase(texts@[i]@),
    {
        plain.push(crate::json::copy_of(&texts[j]));
        lower.push(lowercase_chars(&texts[j]));
    }
    ScanTexts { plain, lower }
}

/// Whether a triggered entry fires on the scanned texts (see `triggered_hits`).
pub fn entry_hits(e: &WorldEntry, texts: &ScanTexts, ghost_texts: &Vec<Vec<char>>, roll: u32) -> (r: bool)
    requires
        texts.plain@.len() == ghost_texts@.len(),
        texts.lower@.len() == ghost_texts@.len(),
        forall|j: int| 0 <= j < ghost_texts@.len() ==> (#[trigger] texts.plain@[j])@ == ghost_texts@[j]@,
        forall|j: int| 0 <= j < ghost_texts@.len() ==> (#[trigger] texts.lower@[j])@ == lowercase(ghost_texts@[j]@),
    ensures
        r == triggered_hits(*e, ghost_texts@.map_values(|t: Vec<char>| t@), roll),
{
    let ghost tv = ghost_texts@.map_values(|t: Vec<char>| t@);
    let n = texts.plain.len();
    let lo: usize = match e.scan_depth {
        Some(d) => if d > 0 && d < n { n - d } else { 0 },
        None => 0,
    };
    assert(lo as int == window_start(tv.len() as int, e.scan_depth));
    let passes = !e.use_probability || e.probability >= 100 || roll < e.probability;
    if !passes {
        return false;
    }
    for k in 0..e.keys.len()
        invariant
            n == tv.len(),
            lo as int == window_start(tv.len() as int, e.scan_depth),
            lo <= n,
            chance_passes(*e, roll),
            tv == ghost_texts@.map_values(|t: Vec<char>| t@),
            texts.plain@.len() == ghost_texts@.len(),
            texts.lower@.len() == ghost_texts@.len(),
            forall|j: int| 0 <= j < ghost_texts@.len() ==> (#[trigger] texts.plain@[j])@ == ghost_texts@[j]@,
            forall|j: int| 0 <= j < ghost_texts@.len() ==> (#[trigger] texts.lower@[j])@ == lowercase(ghost_texts@[j]@),
            forall|i: int| 0 <= i < k ==> !key_hits((#[trigger] e.keys@[i])@, tv, lo as int, e.case_sensitive),
    {
        let key = chars_of(e.keys[k].as_str());
        if key.len() > 0 {
            let pat = if e.case_sensitive { key } else { lowercase_chars(&key) };
            let mut j = lo;
            while j < n
                invariant
                    lo <= j <= n,
                    n == tv.len(),
                    lo as int == window_start(tv.len() as int, e.scan_depth),
                    tv == ghost_texts@.map_values(|t: Vec<char>| t@),
                    texts.plain@.len() == ghost_texts@.len(),
                    texts.lower@.len() == ghost_texts@.len(),
                    forall|i: int| 0 <= i < ghost_texts@.len() ==> (#[trigger] texts.plain@[i])@ == ghost_texts@[i]@,
                    forall|i: int| 0 <= i < ghost_texts@.len() ==> (#[trigger] texts.lower@[i])@ == lowercase(ghost_texts@[i]@),
                    pat@ == fold_case(e.keys@[k as int]@, e.case_sensitive),
                    e.keys@[k as int]@.len() > 0,
                    chance_passes(*e, roll),
                    0 <= k < e.keys@.len(),
                    forall|i: int| lo <= i < j ==> !contains(
                        fold_case(#[trigger] tv[i], e.case_sensitive),
                        fold_case(e.keys@[k as int]@, e.case_sensitive),
                    ),
                decreases n - j,
            {
                let t = if e.case_sensitive { &texts.plain[j] } else { &texts.lower[j] };
                assert(t@ == fold_case(tv[j as int], e.case_sensitive));
                if contains_chars(t, &pat) {
                    assert(contains(fold_case(tv[j as int], e.case_sensitive), fold_case(e.keys@[k as int]@, e.case_sensitive)));
                    assert(key_hits(e.keys@[k as int]@, tv, lo as int, e.case_sensitive));
                    return true;
                }
                j = j + 1;
            }
        }
    }
    false
}

/// Scanning more messages never loses a hit: a keyword found from message
/// `lo` on is found from any earlier message on; a larger scan depth starts
/// no later than a smaller one, and no limit starts at the first message.
pub proof fn law_wider_scan_keeps_hits(
    key: Seq<char>,
    texts: Seq<Seq<char>>,
    case_sensitive: bool,
    lo: int,
    lo2: int,
    d1: usize,
    d2: usize,
)
    ensures
        key_hits(key, texts, lo, case_sensitive) && lo2 <= lo ==> key_hits(key, texts, lo2, case_sensitive),
        0 < d1 <= d2 ==> window_start(texts.len() as int, Some(d2)) <= window_start(texts.len() as int, Some(d1)),
        window_start(texts.len() as int, None) == 0,
        window_start(texts.len() as int, Some(0usize)) == 0,
{
    if key_hits(key, texts, lo, case_sensitive) && lo2 <= lo {
        let j = choose|j: int|
            lo <= j < texts.len() && contains(
                fold_case(#[trigger] texts[j], case_sensitive),
                fold_case(key, case_sensitive),
            );
        assert(lo2 <= j < texts.len());
    }
}

} // verus!
