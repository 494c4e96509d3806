//! The repository-index endpoint's own logic: its result limit and the
//! keyword filter over the indexed files.
use vstd::prelude::*;
use crate::json::{array_of, as_array, as_str, member, member_of, str_of, Json};
use crate::text::{append_chars, contains, contains_chars, lit, lowercase, lowercase_chars, trim, trim_chars};

verus! {

broadcast use vstd::string::group_string_axioms;

/// A search of the repository index: query text and limit.
pub struct RepoIndexQuery {
    pub q: Option<String>,
    pub limit: Option<usize>,
}

/// The most files a listing returns: 300 when none is named, otherwise the
/// value clamped to `[1, 2000]`.
pub open spec fn limit_of(limit: Option<usize>) -> int {
    match limit {
        Some(l) => if l < 1 { 1 } else if l > 2000 { 2000 } else { l as int },
        None => 300,
    }
}

impl RepoIndexQuery {
    /// The most files the listing returns (see `limit_of`).
    pub fn limit_size(&self) -> (r: usize)
        ensures
            r as int == limit_of(self.limit),
    {
        match self.limit {
            Some(l) => if l < 1 {
                1
            } else if l > 2000 {
                2000
            } else {
                l
            },
            None => 300,
        }
    }
}

/// The text of a string member, empty when it is absent or not a string.
pub open spec fn text_at(item: Json, key: Seq<char>) -> Seq<char> {
    match as_str(member_of(Some(item), key)) {
        Some(s) => s,
        None => seq![],
    }
}

/// The names of the symbols that have a string `name`, in order.
pub open spec fn symbol_names(syms: Seq<Json>) -> Seq<Seq<char>>
    decreases syms.len(),
{
    if syms.len() == 0 {
        seq![]
    } else {
        match as_str(member_of(Some(syms.last()), "name"@)) {
            Some(n) => symbol_names(syms.drop_last()).push(n),
            None => symbol_names(syms.drop_last()),
        }
    }
}

/// Texts joined with single spaces.
pub open spec fn spaced(parts: Seq<Seq<char>>) -> Seq<char>
    decreases parts.len(),
{
    if parts.len() == 0 {
        seq![]
    } else if parts.len() == 1 {
        parts[0]
    } else {
        spaced(parts.drop_last()) + " "@ + parts.last()
    }
}

/// What the filter searches in a file's entry: its path, summary, deep
/// summary and symbol names, separated by spaces.
pub open spec fn haystack(item: Json) -> Seq<char> {
    let syms = match as_array(member_of(Some(item), "symbols"@)) {
        Some(a) => a,
        None => seq![],
    };
    text_at(item, "path"@) + " "@ + text_at(item, "summary"@) + " "@ + text_at(item, "deepSummary"@) + " "@
        + spaced(symbol_names(syms))
}

/// Whether a file's entry matches the query: any entry when there is no
/// query or it is blank, otherwise one whose lower-cased haystack holds the
/// lower-cased trimmed query.
pub open spec fn item_matches(item: Json, q: Option<Seq<char>>) -> bool {
    match q {
        Some(t) => trim(t).len() == 0 || contains(lowercase(haystack(item)), lowercase(trim(t))),
        None => true,
    }
}

/// The positions of the entries among the first `k` that match, in order.
pub open spec fn matches_upto(items: Seq<Json>, q: Option<Seq<char>>, k: int) -> Seq<int>
    decreases k,
{
    if k <= 0 {
        seq![]
    } else if item_matches(items[k - 1], q) {
        matches_upto(items, q, k - 1).push(k - 1)
    } else {
        matches_upto(items, q, k - 1)
    }
}

fn text_of(item: &Json, key: &str) -> (r: Vec<char>)
    ensures
        r@ == text_at(*item, key@),
{
    match str_of(member(Some(item), &lit(key))) {
        Some(s) => crate::json::copy_of(s),
        None => Vec::new(),
    }
}

fn haystack_of(item: &Json) -> (r: Vec<char>)
    ensures
        r@ == haystack(*item),
{
    proof {
        reveal_strlit(" ");
    }
    let mut h = text_of(item, "path");
    append_chars(&mut h, &lit(" "));
    append_chars(&mut h, &text_of(item, "summary"));
    append_chars(&mut h, &lit(" "));
    append_chars(&mut h, &text_of(item, "deepSummary"));
    append_chars(&mut h, &lit(" "));
    let ghost syms: Seq<Json> = match as_array(member_of(Some(*item), "symbols"@)) {
        Some(a) => a,
        None => seq![],
    };
    let mut names: Vec<char> = Vec::new();
    let mut seen: bool = false;
    match array_of(member(Some(item), &lit("symbols"))) {
        Some(arr) => {
            let mut i: usize = 0;
            while i < arr.len()
                invariant
                    i <= arr@.len(),
                    arr@ == syms,
                    names@ == spaced(symbol_names(syms.take(i as int))),
                    seen == (symbol_names(syms.take(i as int)).len() > 0),
                    " "@ == seq![' '],
                decreases arr.len() - i,
            {
                let ghost before = syms.take(i as int);
                assert(syms.take(i + 1).drop_last() =~= before);
                assert(syms.take(i + 1).last() == syms[i as int]);
                match str_of(member(Some(&arr[i]), &lit("name"))) {
                    Some(n) => {
                        let ghost p = symbol_names(before);
                        assert(symbol_names(syms.take(i + 1)) == p.push(n@));
                        assert(p.push(n@).drop_last() =~= p);
                        assert(p.push(n@).last() == n@);
                        if seen {
                            names.push(' ');
                        }
                        append_chars(&mut names, n);
                        seen = true;
                        assert(names@ =~= spaced(symbol_names(syms.take(i + 1))));
                    },
                    None => {},
                }
                i = i + 1;
            }
            assert(syms.take(arr@.len() as int) =~= syms);
        },
        None => {
            assert(names@ =~= spaced(symbol_names(syms)));
        },
    }
    append_chars(&mut h, &names);
    h
}

/// The listing of the index: the positions of the first `limit` matching
/// entries, in order, and how many entries match in all.
pub fn select_entries(items: &Vec<Json>, q: Option<&str>, limit: usize) -> (r: (Vec<usize>, usize))
    ensures
        r.1 == matches_upto(items@, crate::api::chat::opt_view(q), items@.len() as int).len(),
        r.0@.len() == if r.1 < limit { r.1 } else { limit },
        forall|k: int| 0 <= k < r.0@.len() ==> r.0@[k] as int == matches_upto(items@, crate::api::chat::opt_view(q), items@.len() as int)[k],
{
    let ghost qv = crate::api::chat::opt_view(q);
    let needle: Option<Vec<char>> = match q {
        Some(t) => {
            let tt = trim_chars(&crate::text::chars_of(t));
            if tt.len() == 0 {
                None
            } else {
                Some(lowercase_chars(&tt))
            }
        },
        None => None,
    };
    let mut picked: Vec<usize> = Vec::new();
    let mut total: usize = 0;
    let mut i: usize = 0;
    while i < items.len()
        invariant
            i <= items@.len(),
            total as int == matches_upto(items@, qv, i as int).len(),
            total <= i,
            picked@.len() == if total < limit { total } else { limit },
            forall|k: int| 0 <= k < picked@.len() ==> picked@[k] as int == matches_upto(items@, qv, i as int)[k],
            match needle {
                Some(n) => qv matches Some(t) && trim(t).len() > 0 && n@ == lowercase(trim(t)),
                None => qv is None || (qv matches Some(t) && trim(t).len() == 0),
            },
        decreases items.len() - i,
    {
        let hit = match &needle {
            Some(n) => contains_chars(&lowercase_chars(&haystack_of(&items[i])), n),
            None => true,
        };
        assert(hit == item_matches(items@[i as int], qv));
        if hit {
            if total < limit {
                picked.push(i);
            }
            total = total + 1;
        }
        i = i + 1;
    }
    (picked, total)
}

} // verus!
