//! The world-book endpoints' own logic: the character an upload binds to
//! and the binding change an update asks for.
use vstd::prelude::*;
use crate::api::characters::MultipartPart;
use crate::api::resource::{decode_utf8_lossy, utf8_lossy};
use crate::text::{chars_of, lit, string_of, trim, trim_chars};

verus! {

broadcast use vstd::string::group_string_axioms;

/// The character whose world-book assignment is checked.
pub struct AutoAssignQuery {
    pub character_id: Option<String>,
}

/// The entries that replace a world book's entries.
pub struct SaveEntriesBody<E> {
    pub entries: Vec<E>,
}

/// A partial update of a world book: switched on or off, bound to a
/// character (an empty value makes it global), renamed.
pub struct UpdateBody {
    pub enabled: Option<bool>,
    pub character_id: Option<String>,
    pub name: Option<String>,
}

/// The binding change an update asks for: none when it names no character,
/// back to global for a blank one, else the trimmed character.
pub open spec fn binding_of(v: Option<Seq<char>>) -> Option<Option<Seq<char>>> {
    match v {
        Some(s) => if trim(s).len() == 0 { Some(None) } else { Some(Some(trim(s))) },
        None => None,
    }
}

impl UpdateBody {
    /// The binding change the update asks for (see `binding_of`).
    pub fn binding(&self) -> (r: Option<Option<String>>)
        ensures
            binding_of(crate::api::chat::text_opt(self.character_id)) == match r {
                Some(Some(c)) => Some(Some(c@)),
                Some(None) => Some(None::<Seq<char>>),
                None => None,
            },
    {
        match &self.character_id {
            Some(s) => {
                let t = trim_chars(&chars_of(s.as_str()));
                if t.len() == 0 {
                    Some(None)
                } else {
                    Some(Some(string_of(&t)))
                }
            },
            None => None,
        }
    }
}

/// The character an uploaded world book is bound to: the trimmed text of the
/// first `character_id` field, when it is not blank.
pub open spec fn upload_binding_of(parts: Seq<(Seq<char>, Seq<u8>)>) -> Option<Seq<char>>
    decreases parts.len(),
{
    if parts.len() == 0 {
        None
    } else if parts[0].0 == "character_id"@ {
        let t = trim(utf8_lossy(parts[0].1));
        if t.len() > 0 { Some(t) } else { None }
    } else {
        upload_binding_of(parts.drop_first())
    }
}

/// Parts as field name and content.
pub open spec fn fields_view(parts: Seq<MultipartPart>) -> Seq<(Seq<char>, Seq<u8>)> {
    parts.map_values(|p: MultipartPart| (p.field@, p.content@))
}

/// The character an uploaded world book is bound to (see `upload_binding_of`).
pub fn upload_binding(parts: &Vec<MultipartPart>) -> (r: Option<String>)
    ensures
        match r {
            Some(c) => upload_binding_of(fields_view(parts@)) == Some(c@),
            None => upload_binding_of(fields_view(parts@)) is None,
        },
{
    let ghost all = fields_view(parts@);
    assert(all.skip(0) =~= all);
    let mut i: usize = 0;
    while i < parts.len()
        invariant
            i <= parts@.len(),
            all == fields_view(parts@),
            upload_binding_of(all) == upload_binding_of(all.skip(i as int)),
        decreases parts.len() - i,
    {
        assert(all.skip(i as int).drop_first() =~= all.skip(i + 1));
        assert(all.skip(i as int)[0] == all[i as int]);
        if crate::json::eq_chars(&chars_of(parts[i].field.as_str()), &lit("character_id")) {
            let t = trim_chars(&decode_utf8_lossy(parts[i].content.as_slice()));
            if t.len() > 0 {
                return Some(string_of(&t));
            } else {
                return None;
            }
        }
        i = i + 1;
    }
    assert(all.skip(parts@.len() as int).len() == 0);
    None
}

} // verus!
