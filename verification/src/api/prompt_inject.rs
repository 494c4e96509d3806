//! The prompt-injection endpoints' own logic: what an uploaded preset must
//! be, whether an import appends or replaces, and the ids and order numbers
//! of appended floors.
use vstd::prelude::*;
use crate::api::errors::{bare_error, BareError};
use crate::api::resource::{decode_utf8_lossy, utf8_lossy};
use crate::text::{append_chars, chars_of, decimal, decimal_chars, lit, lowercase, lowercase_chars, string_of, trim, trim_chars};

verus! {

broadcast use vstd::string::group_string_axioms;

/// The whole injection configuration to save.
pub struct UpdatePromptInjectBody<C> {
    pub config: C,
}

/// The largest preset file accepted, in bytes.
pub const MAX_PRESET: usize = 31457280;

/// Checks the uploaded preset: the `file` field must be there, and at most 30 MiB.
pub fn preset_file_check(file_found: bool, len: usize) -> (r: Result<(), BareError>)
    ensures
        !file_found ==> (r matches Err(e) && e.status == 400 && e.error@ == "缺少文件字段(file)"@),
        file_found && len > MAX_PRESET ==> (r matches Err(e) && e.status == 400 && e.error@ == "预设文件超过 30MB 上限"@),
        file_found && len <= MAX_PRESET ==> r is Ok,
{
    if !file_found {
        Err(bare_error(400, "缺少文件字段(file)"))
    } else if len > MAX_PRESET {
        Err(bare_error(400, "预设文件超过 30MB 上限"))
    } else {
        Ok(())
    }
}

/// A preset must hold at least one prompt entry.
pub fn preset_floors_check(count: usize) -> (r: Result<(), BareError>)
    ensures
        count > 0 ==> r is Ok,
        count == 0 ==> (r matches Err(e) && e.status == 400 && e.error@ == "预设中没有可导入的提示词条目"@),
{
    if count == 0 {
        Err(bare_error(400, "预设中没有可导入的提示词条目"))
    } else {
        Ok(())
    }
}

/// Whether an import appends: its `mode` field, decoded, trimmed and lower-cased,
/// is `append`; without the field (or with any other value) it replaces.
pub open spec fn appends(mode: Option<Seq<u8>>) -> bool {
    match mode {
        Some(b) => lowercase(trim(utf8_lossy(b))) == "append"@,
        None => false,
    }
}

/// Whether an import appends (see `appends`).
pub fn import_appends(mode: Option<&[u8]>) -> (r: bool)
    ensures
        r == appends(match mode {
            Some(b) => Some(b@),
            None => None,
        }),
{
    match mode {
        Some(b) => {
            let m = lowercase_chars(&trim_chars(&decode_utf8_lossy(b)));
            crate::json::eq_chars(&m, &lit("append"))
        },
        None => false,
    }
}

/// The ids of appended floors: each keeps its id unless that id is already
/// taken (by an existing floor or an earlier appended one), in which case
/// `-import` and its position among the appended floors are added to it.
pub open spec fn appended_ids(existing: Seq<Seq<char>>, incoming: Seq<Seq<char>>) -> Seq<Seq<char>>
    decreases incoming.len(),
{
    if incoming.len() == 0 {
        seq![]
    } else {
        let prev = appended_ids(existing, incoming.drop_last());
        let i = incoming.len() - 1;
        let id = incoming.last();
        prev.push(
            if (existing + prev).contains(id) {
                id + "-import"@ + decimal(i as nat)
            } else {
                id
            },
        )
    }
}

/// The views of strings.
pub open spec fn string_views(v: Seq<String>) -> Seq<Seq<char>> {
    v.map_values(|s: String| s@)
}

fn taken(used: &Vec<String>, id: &Vec<char>) -> (r: bool)
    ensures
        r == string_views(used@).contains(id@),
{
    let mut k: usize = 0;
    while k < used.len()
        invariant
            k <= used@.len(),
            forall|j: int| 0 <= j < k ==> string_views(used@)[j] != id@,
        decreases used.len() - k,
    {
        if crate::json::eq_chars(&chars_of(used[k].as_str()), id) {
            assert(string_views(used@)[k as int] == id@);
            return true;
        }
        k = k + 1;
    }
    false
}

/// The ids of appended floors (see `appended_ids`); their order numbers are
/// the number of existing floors plus their position.
pub fn append_floor_ids(existing: &Vec<String>, incoming: &Vec<String>) -> (r: Vec<String>)
    requires
        incoming@.len() <= u64::MAX,
    ensures
        string_views(r@) == appended_ids(string_views(existing@), string_views(incoming@)),
{
    let mut used: Vec<String> = Vec::new();
    let mut k: usize = 0;
    while k < existing.len()
        invariant
            k <= existing@.len(),
            used@.len() == k,
            forall|j: int| 0 <= j < k ==> (#[trigger] used@[j])@ == existing@[j]@,
        decreases existing.len() - k,
    {
        let c = existing[k].clone();
        used.push(c);
        k = k + 1;
    }
    let ghost ex = string_views(existing@);
    let ghost inc = string_views(incoming@);
    let mut out: Vec<String> = Vec::new();
    let mut i: usize = 0;
    while i < incoming.len()
        invariant
            i <= incoming@.len(),
            incoming@.len() <= u64::MAX,
            ex == string_views(existing@),
            inc == string_views(incoming@),
            string_views(out@) == appended_ids(ex, inc.take(i as int)),
            used@.len() == ex.len() + out@.len(),
            forall|j: int| 0 <= j < ex.len() ==> (#[trigger] used@[j])@ == ex[j],
            forall|j: int| 0 <= j < out@.len() ==> (#[trigger] used@[ex.len() + j])@ == out@[j]@,
        decreases incoming.len() - i,
    {
        let id = chars_of(incoming[i].as_str());
        assert(inc.take(i + 1).drop_last() =~= inc.take(i as int));
        assert(inc.take(i + 1).last() == id@);
        assert forall|j: int| 0 <= j < used@.len() implies #[trigger] string_views(used@)[j] == (ex + string_views(out@))[j] by {
            if j >= ex.len() {
                assert(used@[ex.len() + (j - ex.len())]@ == out@[j - ex.len()]@);
            }
        }
        assert(string_views(used@) =~= ex + string_views(out@));
        let new_id = if taken(&used, &id) {
            let mut n = id;
            append_chars(&mut n, &lit("-import"));
            append_chars(&mut n, &decimal_chars(i as u64));
            string_of(&n)
        } else {
            string_of(&id)
        };
        let copy = new_id.clone();
        let ghost out_before = out@;
        used.push(copy);
        out.push(new_id);
        assert(string_views(out@) =~= string_views(out_before).push(new_id@));
        i = i + 1;
        assert(string_views(out@) =~= appended_ids(ex, inc.take(i as int)));
    }
    assert(inc.take(incoming@.len() as int) =~= inc);
    out
}

} // verus!
