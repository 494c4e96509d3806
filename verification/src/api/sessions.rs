//! Request bodies and query parameters of the session endpoints.
use vstd::prelude::*;
use crate::api::errors::{bare_error, BareError};
use crate::json::{as_array, as_str, member_of, Json};
use crate::text::{chars_of, trim};

verus! {

/// The character whose sessions are listed.
pub struct SessionsQuery {
    pub character_id: Option<String>,
}

/// A new session: character, title and greeting.
pub struct CreateSessionBody {
    pub character_id: Option<String>,
    pub title: Option<String>,
    pub greeting_index: Option<usize>,
}

/// The greeting that a session switches to.
pub struct RegreetBody {
    pub greeting_index: usize,
}

/// The session of a message operation.
pub struct MessageQuery {
    pub session_id: Option<String>,
}

/// The new content of a message.
pub struct UpdateMessageBody {
    pub content: Option<String>,
}

/// The session whose messages are cleared.
pub struct ClearBody {
    pub session_id: Option<String>,
}

/// The message after which a session is truncated.
pub struct TruncateBody {
    pub anchor_id: i64,
}

/// The swipe version to switch to.
pub struct SwipeBody {
    pub swipe_id: usize,
}

broadcast use vstd::string::group_string_axioms;

/// The strings that are not blank, in order.
pub open spec fn non_blank(v: Seq<String>) -> Seq<Seq<char>>
    decreases v.len(),
{
    if v.len() == 0 {
        seq![]
    } else if trim(v.last()@).len() > 0 {
        non_blank(v.drop_last()).push(v.last()@)
    } else {
        non_blank(v.drop_last())
    }
}

/// A character's greetings: the first message when it is not blank, then
/// the alternate greetings that are not blank, in order.
pub open spec fn greetings_of(first_mes: Option<Seq<char>>, alternates: Option<Seq<String>>) -> Seq<Seq<char>> {
    let head: Seq<Seq<char>> = match first_mes {
        Some(f) => if trim(f).len() > 0 { seq![f] } else { seq![] },
        None => seq![],
    };
    head + match alternates {
        Some(a) => non_blank(a),
        None => seq![],
    }
}

/// A character's greetings (see `greetings_of`).
pub fn collect_greetings(first_mes: Option<&str>, alternates: Option<&Vec<String>>) -> (r: Vec<String>)
    ensures
        r@.map_values(|s: String| s@) == greetings_of(
            crate::api::chat::opt_view(first_mes),
            match alternates {
                Some(a) => Some(a@),
                None => None,
            },
        ),
{
    let mut list: Vec<String> = Vec::new();
    match first_mes {
        Some(f) => {
            if crate::text::trim_chars(&chars_of(f)).len() > 0 {
                list.push(f.to_owned());
            }
        },
        None => {},
    }
    let ghost head = list@.map_values(|s: String| s@);
    match alternates {
        Some(a) => {
            for k in 0..a.len()
                invariant
                    list@.map_values(|s: String| s@) == head + non_blank(a@.take(k as int)),
            {
                assert(a@.take(k + 1).drop_last() =~= a@.take(k as int));
                assert(a@.take(k + 1).last() == a@[k as int]);
                let ghost before = list@;
                if crate::text::trim_chars(&chars_of(a[k].as_str())).len() > 0 {
                    let item = a[k].clone();
                    assert(item@ == a@[k as int]@);
                    list.push(item);
                    assert(list@.map_values(|s: String| s@) =~= before.map_values(|s: String| s@).push(a@[k as int]@));
                }
                assert(list@.map_values(|s: String| s@) =~= head + non_blank(a@.take(k + 1)));
            }
            assert(a@.take(a@.len() as int) =~= a@);
        },
        None => {},
    }
    assert(list@.map_values(|s: String| s@) =~= greetings_of(
        crate::api::chat::opt_view(first_mes),
        match alternates {
            Some(a) => Some(a@),
            None => None,
        },
    ));
    list
}

/// The greeting a new session opens with: the requested one, or the last
/// when the request is past the end; none when there are no greetings.
pub fn seed_greeting_index(count: usize, requested: usize) -> (r: Option<usize>)
    ensures
        count == 0 ==> r is None,
        count > 0 ==> r == Some(if requested < count { requested } else { (count - 1) as usize }),
{
    if count == 0 {
        None
    } else if requested < count {
        Some(requested)
    } else {
        Some(count - 1)
    }
}

/// The version a swipe switches to, read from the message's extra data:
/// the content of `swipes[swipe_id]` (empty when it holds none) and the
/// number of versions; a message without versions or an index past them is
/// refused.
pub open spec fn swipe_outcome(extra: Json, swipe_id: usize) -> Result<(Seq<char>, int), (u16, Seq<char>)> {
    match as_array(member_of(Some(extra), "swipes"@)) {
        Some(arr) => if arr.len() == 0 {
            Err((400u16, "该消息没有可切换的版本"@))
        } else if swipe_id >= arr.len() {
            Err((400u16, "swipe_id 越界"@))
        } else {
            Ok((
                match as_str(member_of(Some(arr[swipe_id as int]), "content"@)) {
                    Some(c) => c,
                    None => seq![],
                },
                arr.len() as int,
            ))
        },
        None => Err((400u16, "该消息没有可切换的版本"@)),
    }
}

/// The version a swipe switches to (see `swipe_outcome`).
pub fn swipe_choice(extra: &Json, swipe_id: usize) -> (r: Result<(String, usize), BareError>)
    ensures
        match r {
            Ok((c, n)) => swipe_outcome(*extra, swipe_id) == Ok::<(Seq<char>, int), (u16, Seq<char>)>((c@, n as int)),
            Err(e) => swipe_outcome(*extra, swipe_id) == Err::<(Seq<char>, int), (u16, Seq<char>)>((e.status, e.error@)),
        },
{
    let arr = match crate::json::array_of(crate::json::member(Some(extra), &crate::text::lit("swipes"))) {
        Some(a) => a,
        None => {
            return Err(bare_error(400, "该消息没有可切换的版本"));
        },
    };
    if arr.len() == 0 {
        return Err(bare_error(400, "该消息没有可切换的版本"));
    }
    if swipe_id >= arr.len() {
        return Err(bare_error(400, "swipe_id 越界"));
    }
    let content = match crate::json::str_of(crate::json::member(Some(&arr[swipe_id]), &crate::text::lit("content"))) {
        Some(c) => crate::text::string_of(c),
        None => String::new(),
    };
    Ok((content, arr.len()))
}

/// The character of a session listing or creation; a blank one is refused.
pub fn required_character_id(character_id: &str, message: &str) -> (r: Result<(), BareError>)
    ensures
        match r {
            Ok(()) => trim(character_id@).len() > 0,
            Err(e) => trim(character_id@).len() == 0 && e.status == 400 && e.error@ == message@,
        },
{
    if crate::text::trim_chars(&chars_of(character_id)).len() == 0 {
        Err(bare_error(400, message))
    } else {
        Ok(())
    }
}

/// A session id as given, refused with `msg` when it is missing or blank.
pub open spec fn session_given(v: Option<String>, msg: Seq<char>, r: Result<String, BareError>) -> bool {
    match v {
        Some(s) => if trim(s@).len() > 0 {
            r matches Ok(x) && x@ == s@
        } else {
            r matches Err(e) && e.status == 400 && e.error@ == msg
        },
        None => r matches Err(e) && e.status == 400 && e.error@ == msg,
    }
}

fn given(v: &Option<String>, msg: &str) -> (r: Result<String, BareError>)
    ensures
        session_given(*v, msg@, r),
{
    match v {
        Some(s) => if crate::text::trim_chars(&chars_of(s.as_str())).len() > 0 {
            Ok(s.clone())
        } else {
            Err(bare_error(400, msg))
        },
        None => Err(bare_error(400, msg)),
    }
}

impl MessageQuery {
    /// The session of a message operation, which the query must name.
    pub fn session(&self) -> (r: Result<String, BareError>)
        ensures
            session_given(self.session_id, "缺少 session_id 或 id"@, r),
    {
        given(&self.session_id, "缺少 session_id 或 id")
    }

    /// The session whose history is read, which the query must name.
    pub fn history_session(&self) -> (r: Result<String, BareError>)
        ensures
            session_given(self.session_id, "缺少 session_id 查询参数"@, r),
    {
        given(&self.session_id, "缺少 session_id 查询参数")
    }

    /// The session and new content of a message edit: the session must be
    /// named and the content given (checked in that order, a blank session
    /// counting as missing after the content).
    pub fn edit(&self, body: &UpdateMessageBody) -> (r: Result<(String, String), BareError>)
        ensures
            match (self.session_id, body.content) {
                (None, _) => r matches Err(e) && e.status == 400 && e.error@ == "缺少 session_id 或 id"@,
                (Some(_), None) => r matches Err(e) && e.status == 400 && e.error@ == "缺少 content"@,
                (Some(sid), Some(c)) => if trim(sid@).len() > 0 {
                    r matches Ok((a, b)) && a@ == sid@ && b@ == c@
                } else {
                    r matches Err(e) && e.status == 400 && e.error@ == "缺少 session_id 或 id"@
                },
            },
    {
        match &self.session_id {
            None => Err(bare_error(400, "缺少 session_id 或 id")),
            Some(sid) => match &body.content {
                None => Err(bare_error(400, "缺少 content")),
                Some(c) => if crate::text::trim_chars(&chars_of(sid.as_str())).len() > 0 {
                    Ok((sid.clone(), c.clone()))
                } else {
                    Err(bare_error(400, "缺少 session_id 或 id"))
                },
            },
        }
    }
}

impl ClearBody {
    /// The session whose messages are cleared, which the body must name.
    pub fn session(&self) -> (r: Result<String, BareError>)
        ensures
            session_given(self.session_id, "缺少 session_id"@, r),
    {
        given(&self.session_id, "缺少 session_id")
    }
}

impl TruncateBody {
    /// The anchor of a truncation: a stored message's positive id (zero and
    /// negative ids mark unsaved messages and would drop the whole history).
    pub fn anchor(&self) -> (r: Result<i64, BareError>)
        ensures
            self.anchor_id > 0 ==> r == Ok::<i64, BareError>(self.anchor_id),
            self.anchor_id <= 0 ==> (r matches Err(e) && e.status == 400 && e.error@
                == "截断锚点无效:必须是落库消息的正 id"@),
    {
        if self.anchor_id <= 0 {
            Err(bare_error(400, "截断锚点无效:必须是落库消息的正 id"))
        } else {
            Ok(self.anchor_id)
        }
    }
}

/// What a variables save writes: the `stat_data` and `display_data` given;
/// a save with neither is refused.
pub fn variables_patch(has_stat_data: bool, has_display_data: bool) -> (r: Result<(), BareError>)
    ensures
        r is Ok <==> (has_stat_data || has_display_data),
        r matches Err(e) ==> e.status == 400 && e.error@ == "缺少变量数据"@,
{
    if has_stat_data || has_display_data {
        Ok(())
    } else {
        Err(bare_error(400, "缺少变量数据"))
    }
}

} // verus!
