//! The demonstration backend: fixed replies, and reply hooks written into the
//! last user message that let tests steer it (tool calls, failures, empty or
//! truncated output).
use vstd::prelude::*;
use crate::llm::{CallModel, ChunkModel, GenerationParams, LlmMessage, LlmStreamChunk, ToolCallArgs, UsageCounts, chunks_view};
use crate::text::{
    all_digits, append_chars, chars_of, ends_with, ends_with_chars, find, find_chars, find_chars_from,
    lemma_find_from, lit, string_of, parse_usize, parse_usize_chars, slice_chars, split_once, split_once_chars,
    starts_with, starts_with_chars, trim, trim_chars, occurs_at, find_from,
};

verus! {

broadcast use vstd::string::group_string_axioms;

/// The message of the demonstration backend's connection test.
pub const MOCK_READY_MESSAGE: &'static str = "Mock 连接器就绪(演示模式)";

/// The demonstration backend. It holds no state.
pub struct MockConnector;

impl MockConnector {
    /// The demonstration backend.
    pub fn new() -> (r: Self) {
        MockConnector
    }

    /// Its models: only `mock-demo`.
    pub fn list_models(&self) -> (r: Vec<String>)
        ensures
            r@.len() == 1,
            r@[0]@ == "mock-demo"@,
    {
        let mut v: Vec<String> = Vec::new();
        v.push("mock-demo".to_owned());
        v
    }

    /// Its connection test: always ready.
    pub fn test(&self) -> (r: (bool, String))
        ensures
            r.0,
            r.1@ == MOCK_READY_MESSAGE@,
    {
        (true, MOCK_READY_MESSAGE.to_owned())
    }
}

impl Default for MockConnector {
    fn default() -> (r: Self) {
        MockConnector::new()
    }
}

/// The content of a `[[finish:...]]` hook that names no content.
pub const DEFAULT_TRUNCATED_TEXT: &'static str = "（模拟回复）输出在 max_tokens 处被截断,后半句";

/// The text after the first occurrence of `mark` in `s`.
pub open spec fn after_mark(s: Seq<char>, mark: Seq<char>) -> Option<Seq<char>> {
    match find(s, mark) {
        Some(i) => Some(s.skip(i + mark.len())),
        None => None,
    }
}

/// `rest` up to its first `]]`, or all of it when there is none.
pub open spec fn upto_close(rest: Seq<char>) -> Seq<char> {
    match find(rest, "]]"@) {
        Some(e) => rest.take(e),
        None => rest,
    }
}

/// `rest` up to its first `]]`, when there is one.
pub open spec fn closed_inner(rest: Seq<char>) -> Option<Seq<char>> {
    match find(rest, "]]"@) {
        Some(e) => Some(rest.take(e)),
        None => None,
    }
}

/// The first line of `rest`, up to its first `]]`.
pub open spec fn line_inner(rest: Seq<char>) -> Seq<char> {
    let line = match find(rest, "\n"@) {
        Some(e) => rest.take(e),
        None => rest,
    };
    upto_close(line)
}

/// A name and arguments split at the first `sep`, both trimmed.
pub open spec fn name_args(inner: Seq<char>, sep: char) -> Option<(Seq<char>, Seq<char>)> {
    match split_once(inner, sep) {
        Some((a, b)) => Some((trim(a), trim(b))),
        None => None,
    }
}

/// A `[[reply:...]]`-style hook: the text after `mark` up to the first `]]`
/// (to the end of the input when there is none).
pub open spec fn open_hook(s: Seq<char>, mark: Seq<char>) -> Option<Seq<char>> {
    match after_mark(s, mark) {
        Some(rest) => Some(upto_close(rest)),
        None => None,
    }
}

/// A `[[tool:name args]]`-style hook: name and arguments split at the first
/// space, both trimmed; a hook without `]]` or without a space is no hook.
pub open spec fn call_hook(s: Seq<char>, mark: Seq<char>) -> Option<(Seq<char>, Seq<char>)> {
    match after_mark(s, mark) {
        Some(rest) => match closed_inner(rest) {
            Some(inner) => name_args(inner, ' '),
            None => None,
        },
        None => None,
    }
}

/// A `[[fail:...]]`-style hook: its trimmed text up to `]]`, unless blank.
pub open spec fn text_hook(s: Seq<char>, mark: Seq<char>) -> Option<Seq<char>> {
    match after_mark(s, mark) {
        Some(rest) => match closed_inner(rest) {
            Some(inner) => if trim(inner).len() > 0 {
                Some(trim(inner))
            } else {
                None
            },
            None => None,
        },
        None => None,
    }
}

/// The `[[finish:reason|content]]` hook: the trimmed reason (a blank reason
/// is no hook) and the untrimmed content, or the default truncated text.
pub open spec fn finish_hook(s: Seq<char>) -> Option<(Seq<char>, Seq<char>)> {
    match after_mark(s, "[[finish:"@) {
        Some(rest) => {
            let inner = upto_close(rest);
            let (reason, content) = match split_once(inner, '|') {
                Some((r, c)) => (trim(r), c),
                None => (trim(inner), DEFAULT_TRUNCATED_TEXT@),
            };
            if reason.len() == 0 {
                None
            } else {
                Some((reason, content))
            }
        },
        None => None,
    }
}

/// The `[[mvu_tool:name|args]]` hook, read on its first line.
pub open spec fn mvu_tool_hook(s: Seq<char>) -> Option<(Seq<char>, Seq<char>)> {
    match after_mark(s, "[[mvu_tool:"@) {
        Some(rest) => name_args(line_inner(rest), '|'),
        None => None,
    }
}

/// The `[[mvu_text:...]]` hook, read on its first line and trimmed; a blank
/// text is no hook, and `SB{x}` stands for `<StatusBar>x</StatusBar>`.
pub open spec fn mvu_text_hook(s: Seq<char>) -> Option<Seq<char>> {
    match after_mark(s, "[[mvu_text:"@) {
        Some(rest) => {
            let text = trim(line_inner(rest));
            if text.len() == 0 {
                None
            } else if starts_with(text, "SB{"@) && ends_with(text.skip(3), "}"@) {
                Some("<StatusBar>"@ + text.subrange(3, text.len() - 1) + "</StatusBar>"@)
            } else {
                Some(text)
            }
        },
        None => None,
    }
}

/// The `[[tool_loop:name|N args]]` hook: name, number of rounds and arguments.
pub open spec fn tool_loop_hook(s: Seq<char>) -> Option<(Seq<char>, int, Seq<char>)> {
    match after_mark(s, "[[tool_loop:"@) {
        Some(rest) => match closed_inner(rest) {
            Some(inner) => match split_once(inner, '|') {
                Some((name, tail)) => match split_once(tail, ' ') {
                    Some((n_str, args)) => match parse_usize(trim(n_str)) {
                        Some(n) => Some((trim(name), n, trim(args))),
                        None => None,
                    },
                    None => None,
                },
                None => None,
            },
            None => None,
        },
        None => None,
    }
}

fn after_mark_chars(s: &Vec<char>, mark: &str) -> (r: Option<Vec<char>>)
    ensures
        match r {
            Some(x) => after_mark(s@, mark@) == Some(x@),
            None => after_mark(s@, mark@) is None,
        },
{
    let m = lit(mark);
    match find_chars(s, &m) {
        Some(i) => {
            proof {
                lemma_find_from(s@, m@, 0);
                assert(occurs_at(s@, i as int, m@));
            }
            let n = s.len();
            let r = slice_chars(s, i + m.len(), n);
            assert(r@ =~= s@.skip(i + m@.len()));
            Some(r)
        },
        None => None,
    }
}

fn take_until(rest: &Vec<char>, pat: &str) -> (r: Vec<char>)
    ensures
        r@ == match find(rest@, pat@) {
            Some(e) => rest@.take(e),
            None => rest@,
        },
{
    let p = lit(pat);
    match find_chars(rest, &p) {
        Some(e) => {
            proof {
                lemma_find_from(rest@, p@, 0);
            }
            let r = slice_chars(rest, 0, e);
            assert(r@ =~= rest@.take(e as int));
            r
        },
        None => slice_chars(rest, 0, rest.len()),
    }
}

fn closed_inner_chars(rest: &Vec<char>) -> (r: Option<Vec<char>>)
    ensures
        match r {
            Some(x) => closed_inner(rest@) == Some(x@),
            None => closed_inner(rest@) is None,
        },
{
    let p = lit("]]");
    match find_chars(rest, &p) {
        Some(e) => {
            proof {
                lemma_find_from(rest@, p@, 0);
            }
            let r = slice_chars(rest, 0, e);
            assert(r@ =~= rest@.take(e as int));
            Some(r)
        },
        None => None,
    }
}

fn name_args_chars(inner: &Vec<char>, sep: char) -> (r: Option<(String, String)>)
    ensures
        match r {
            Some((a, b)) => name_args(inner@, sep) == Some((a@, b@)),
            None => name_args(inner@, sep) is None,
        },
{
    match split_once_chars(inner, sep) {
        Some((a, b)) => Some((string_of(&trim_chars(&a)), string_of(&trim_chars(&b)))),
        None => None,
    }
}

fn open_hook_chars(s: &Vec<char>, mark: &str) -> (r: Option<String>)
    ensures
        match r {
            Some(x) => open_hook(s@, mark@) == Some(x@),
            None => open_hook(s@, mark@) is None,
        },
{
    match after_mark_chars(s, mark) {
        Some(rest) => Some(string_of(&take_until(&rest, "]]"))),
        None => None,
    }
}

fn call_hook_chars(s: &Vec<char>, mark: &str) -> (r: Option<(String, String)>)
    ensures
        match r {
            Some((a, b)) => call_hook(s@, mark@) == Some((a@, b@)),
            None => call_hook(s@, mark@) is None,
        },
{
    let rest = after_mark_chars(s, mark)?;
    let inner = closed_inner_chars(&rest)?;
    name_args_chars(&inner, ' ')
}

fn text_hook_chars(s: &Vec<char>, mark: &str) -> (r: Option<String>)
    ensures
        match r {
            Some(x) => text_hook(s@, mark@) == Some(x@),
            None => text_hook(s@, mark@) is None,
        },
{
    let rest = after_mark_chars(s, mark)?;
    let inner = closed_inner_chars(&rest)?;
    let t = trim_chars(&inner);
    if t.len() == 0 {
        None
    } else {
        Some(string_of(&t))
    }
}

/// The `[[reply:...]]` hook: the reply text.
fn extract_reply_marker(s: &Vec<char>) -> (r: Option<String>)
    ensures
        match r {
            Some(x) => open_hook(s@, "[[reply:"@) == Some(x@),
            None => open_hook(s@, "[[reply:"@) is None,
        },
{
    open_hook_chars(s, "[[reply:")
}

/// The `[[reply_stream:...]]` hook: the reply text.
fn extract_reply_stream_marker(s: &Vec<char>) -> (r: Option<String>)
    ensures
        match r {
            Some(x) => open_hook(s@, "[[reply_stream:"@) == Some(x@),
            None => open_hook(s@, "[[reply_stream:"@) is None,
        },
{
    open_hook_chars(s, "[[reply_stream:")
}

/// The `[[tool_raw:name args]]` hook.
fn extract_tool_raw_marker(s: &Vec<char>) -> (r: Option<(String, String)>)
    ensures
        match r {
            Some((a, b)) => call_hook(s@, "[[tool_raw:"@) == Some((a@, b@)),
            None => call_hook(s@, "[[tool_raw:"@) is None,
        },
{
    call_hook_chars(s, "[[tool_raw:")
}

/// The `[[tool:name args]]` hook.
fn extract_tool_marker(s: &Vec<char>) -> (r: Option<(String, String)>)
    ensures
        match r {
            Some((a, b)) => call_hook(s@, "[[tool:"@) == Some((a@, b@)),
            None => call_hook(s@, "[[tool:"@) is None,
        },
{
    call_hook_chars(s, "[[tool:")
}

/// The `[[tool_echo:name args]]` hook.
fn extract_tool_echo_marker(s: &Vec<char>) -> (r: Option<(String, String)>)
    ensures
        match r {
            Some((a, b)) => call_hook(s@, "[[tool_echo:"@) == Some((a@, b@)),
            None => call_hook(s@, "[[tool_echo:"@) is None,
        },
{
    call_hook_chars(s, "[[tool_echo:")
}

/// The `[[empty_if:needle]]` hook.
fn extract_empty_if_marker(s: &Vec<char>) -> (r: Option<String>)
    ensures
        match r {
            Some(x) => text_hook(s@, "[[empty_if:"@) == Some(x@),
            None => text_hook(s@, "[[empty_if:"@) is None,
        },
{
    text_hook_chars(s, "[[empty_if:")
}

/// The `[[fail:message]]` hook.
fn extract_fail_marker(s: &Vec<char>) -> (r: Option<String>)
    ensures
        match r {
            Some(x) => text_hook(s@, "[[fail:"@) == Some(x@),
            None => text_hook(s@, "[[fail:"@) is None,
        },
{
    text_hook_chars(s, "[[fail:")
}

/// The `[[finish:reason|content]]` hook.
fn extract_finish_marker(s: &Vec<char>) -> (r: Option<(String, String)>)
    ensures
        match r {
            Some((a, b)) => finish_hook(s@) == Some((a@, b@)),
            None => finish_hook(s@) is None,
        },
{
    let rest = after_mark_chars(s, "[[finish:")?;
    let inner = take_until(&rest, "]]");
    let (reason, content) = match split_once_chars(&inner, '|') {
        Some((r, c)) => (trim_chars(&r), c),
        None => (trim_chars(&inner), lit(DEFAULT_TRUNCATED_TEXT)),
    };
    if reason.len() == 0 {
        None
    } else {
        Some((string_of(&reason), string_of(&content)))
    }
}

fn line_inner_chars(rest: &Vec<char>) -> (r: Vec<char>)
    ensures
        r@ == line_inner(rest@),
{
    let line = take_until(rest, "\n");
    take_until(&line, "]]")
}

/// The `[[mvu_tool:name|args]]` hook.
fn extract_mvu_tool_marker(s: &Vec<char>) -> (r: Option<(String, String)>)
    ensures
        match r {
            Some((a, b)) => mvu_tool_hook(s@) == Some((a@, b@)),
            None => mvu_tool_hook(s@) is None,
        },
{
    let rest = after_mark_chars(s, "[[mvu_tool:")?;
    name_args_chars(&line_inner_chars(&rest), '|')
}

/// The `[[mvu_text:...]]` hook.
fn extract_mvu_text_marker(s: &Vec<char>) -> (r: Option<String>)
    ensures
        match r {
            Some(x) => mvu_text_hook(s@) == Some(x@),
            None => mvu_text_hook(s@) is None,
        },
{
    let rest = after_mark_chars(s, "[[mvu_text:")?;
    let text = trim_chars(&line_inner_chars(&rest));
    if text.len() == 0 {
        return None;
    }
    let open = lit("SB{");
    proof {
        reveal_strlit("SB{");
        reveal_strlit("}");
    }
    if starts_with_chars(&text, &open) {
        let tail = slice_chars(&text, 3, text.len());
        assert(tail@ =~= text@.skip(3));
        if ends_with_chars(&tail, &lit("}")) {
            let mut out = lit("<StatusBar>");
            let inner = slice_chars(&text, 3, text.len() - 1);
            append_chars(&mut out, &inner);
            append_chars(&mut out, &lit("</StatusBar>"));
            return Some(string_of(&out));
        }
    }
    Some(string_of(&text))
}

/// The `[[tool_loop:name|N args]]` hook.
fn extract_tool_loop_marker(s: &Vec<char>) -> (r: Option<(String, usize, String)>)
    ensures
        match r {
            Some((a, n, b)) => tool_loop_hook(s@) == Some((a@, n as int, b@)),
            None => tool_loop_hook(s@) is None,
        },
{
    let rest = after_mark_chars(s, "[[tool_loop:")?;
    let inner = closed_inner_chars(&rest)?;
    let (name, tail) = split_once_chars(&inner, '|')?;
    let (n_str, args) = split_once_chars(&tail, ' ')?;
    let n = parse_usize_chars(&trim_chars(&n_str))?;
    Some((string_of(&trim_chars(&name)), n, string_of(&trim_chars(&args))))
}

/// Whether, scanning the matches of `needle` in `content` left to right
/// without overlap from `from`, one stands somewhere other than right after
/// `[[reply_if:` (the hook's own text is data, not a hit).
pub open spec fn unmarked_match_from(content: Seq<char>, needle: Seq<char>, from: int) -> bool
    decreases content.len() - from,
{
    if needle.len() == 0 || from < 0 {
        false
    } else {
        match find_from(content, needle, from) {
            Some(i) => {
                proof {
                    lemma_find_from(content, needle, from);
                }
                if !ends_with(content.take(i), "[[reply_if:"@) {
                    true
                } else {
                    unmarked_match_from(content, needle, i + needle.len())
                }
            },
            None => false,
        }
    }
}

/// Whether some system message holds `needle` other than as a hook's own text.
pub open spec fn system_has_needle(msgs: Seq<LlmMessage>, needle: Seq<char>) -> bool {
    exists|k: int|
        0 <= k < msgs.len() && (#[trigger] msgs[k]).role@ == "system"@ && unmarked_match_from(
            msgs[k].content@,
            needle,
            0,
        )
}

/// The `[[reply_if:needle|content]]` hooks from position `from` on: the
/// content of the first whose trimmed needle is not blank and is held by a
/// system message; a hook without `]]` ends the search.
pub open spec fn reply_if_from(input: Seq<char>, msgs: Seq<LlmMessage>, from: int) -> Option<Seq<char>>
    decreases input.len() - from,
{
    if from < 0 {
        None
    } else {
        match find_from(input, "[[reply_if:"@, from) {
            Some(start) => {
                proof {
                    lemma_find_from(input, "[[reply_if:"@, from);
                    reveal_strlit("[[reply_if:");
                }
                let rest = input.skip(start + 11);
                match find(rest, "]]"@) {
                    Some(end) => {
                        let inner = rest.take(end);
                        match split_once(inner, '|') {
                            Some((needle, content)) => if trim(needle).len() > 0 && system_has_needle(
                                msgs,
                                trim(needle),
                            ) {
                                Some(content)
                            } else {
                                reply_if_from(input, msgs, start + 11)
                            },
                            None => reply_if_from(input, msgs, start + 11),
                        }
                    },
                    None => None,
                }
            },
            None => None,
        }
    }
}

/// Whether the tool named `name` is offered (every tool is when none is listed).
pub open spec fn tool_offered_spec(p: GenerationParams, name: Seq<char>) -> bool {
    p.tools@.len() == 0 || exists|k: int| 0 <= k < p.tools@.len() && (#[trigger] p.tools@[k]).name@ == name
}

fn unmarked_match(content: &Vec<char>, needle: &Vec<char>) -> (r: bool)
    requires
        needle@.len() > 0,
    ensures
        r == unmarked_match_from(content@, needle@, 0),
{
    let mark = lit("[[reply_if:");
    let mut from: usize = 0;
    while from <= content.len()
        invariant
            needle@.len() > 0,
            mark@ == "[[reply_if:"@,
            unmarked_match_from(content@, needle@, 0) == unmarked_match_from(content@, needle@, from as int),
        decreases content.len() + 1 - from,
    {
        match find_chars_from(content, needle, from) {
            Some(i) => {
                proof {
                    lemma_find_from(content@, needle@, from as int);
                }
                let before = slice_chars(content, 0, i);
                assert(before@ =~= content@.take(i as int));
                if !ends_with_chars(&before, &mark) {
                    return true;
                }
                from = i + needle.len();
            },
            None => {
                return false;
            },
        }
    }
    proof {
        lemma_find_from(content@, needle@, from as int);
    }
    false
}

/// Whether some system message holds `needle` other than as a hook's own text.
fn system_contains_needle(messages: &[LlmMessage], needle: &Vec<char>) -> (r: bool)
    requires
        needle@.len() > 0,
    ensures
        r == system_has_needle(messages@, needle@),
{
    let system = lit("system");
    for k in 0..messages.len()
        invariant
            needle@.len() > 0,
            system@ == "system"@,
            forall|j: int|
                0 <= j < k ==> !((#[trigger] messages@[j]).role@ == "system"@ && unmarked_match_from(
                    messages@[j].content@,
                    needle@,
                    0,
                )),
    {
        let m = &messages[k];
        if crate::json::eq_chars(&chars_of(m.role.as_str()), &system) && unmarked_match(&chars_of(m.content.as_str()), needle) {
            assert(messages@[k as int].role@ == "system"@);
            return true;
        }
    }
    false
}

/// The content of the first `[[reply_if:needle|content]]` hook whose needle
/// a system message holds.
fn extract_reply_if_marker(input: &Vec<char>, messages: &[LlmMessage]) -> (r: Option<String>)
    ensures
        match r {
            Some(x) => reply_if_from(input@, messages@, 0) == Some(x@),
            None => reply_if_from(input@, messages@, 0) is None,
        },
{
    let mark = lit("[[reply_if:");
    proof {
        reveal_strlit("[[reply_if:");
    }
    let mut from: usize = 0;
    loop
        invariant
            mark@ == "[[reply_if:"@,
            mark@.len() == 11,
            from <= input@.len() + 11,
            reply_if_from(input@, messages@, 0) == reply_if_from(input@, messages@, from as int),
        decreases input@.len() + 11 - from,
    {
        let start = match find_chars_from(input, &mark, from) {
            Some(st) => st,
            None => {
                return None;
            },
        };
        proof {
            lemma_find_from(input@, mark@, from as int);
            assert(occurs_at(input@, start as int, mark@));
        }
        let n = input.len();
        let rest = slice_chars(input, start + 11, n);
        assert(rest@ =~= input@.skip(start + 11));
        let inner = match closed_inner_chars(&rest) {
            Some(x) => x,
            None => {
                return None;
            },
        };
        match split_once_chars(&inner, '|') {
            Some((needle, content)) => {
                let t = trim_chars(&needle);
                if t.len() > 0 && system_contains_needle(messages, &t) {
                    return Some(string_of(&content));
                }
            },
            None => {},
        }
        from = start + 11;
    }
}

/// Whether the tool named `name` is offered this round (every tool is when none is listed).
fn tool_offered(params: &GenerationParams, name: &String) -> (r: bool)
    ensures
        r == tool_offered_spec(*params, name@),
{
    if params.tools.len() == 0 {
        return true;
    }
    let want = chars_of(name.as_str());
    for k in 0..params.tools.len()
        invariant
            want@ == name@,
            forall|j: int| 0 <= j < k ==> (#[trigger] params.tools@[j]).name@ != name@,
    {
        if crate::json::eq_chars(&chars_of(params.tools[k].name.as_str()), &want) {
            return true;
        }
    }
    false
}

/// The reply once a `[[tool_loop:...]]` hook has run all its rounds.
pub const LOOP_DONE_REPLY: &'static str = "（模拟回复）工具循环已完成,最终回复。";

/// The reply once tool results are in the conversation and no reply hook applies.
pub const TOOL_DONE_REPLY: &'static str = "（模拟回复）工具调用已完成,结果已回填上下文,这是最终的回复内容。";

/// The default reply, before the excerpt of the user's message.
pub const DEFAULT_REPLY_HEAD: &'static str = "（模拟回复）我已收到你的消息:「";

/// The default reply, after the excerpt of the user's message.
pub const DEFAULT_REPLY_TAIL: &'static str = "」\n\n当前为演示模式,未连接真实模型。\n可在左下角「连接状态」处配置 OpenAI 兼容后端,或保持 Mock 体验完整 Agent 流程。\n\n*Agent 引擎已先后完成规划、执行、反思,输出质量检查通过。*";

/// The `max_tokens` from which a `[[tool_raw:...]]` call comes out whole.
pub const TOOL_RAW_MIN_BUDGET: u32 = 2048;

/// The delay after each character of the default reply.
pub const DEFAULT_CHAR_DELAY_MS: u64 = 8;

/// A reply of the demonstration backend: its chunks, how many leading chunks
/// are sent one at a time with an abort check before each (an abort there
/// fails the generation), and the delay after each of those.
#[derive(Debug)]
pub struct MockReply {
    pub chunks: Vec<LlmStreamChunk>,
    pub paced: usize,
    pub delay_ms: u64,
}

/// The view of a reply: chunk views, paced count and delay.
#[verifier::ext_equal]
pub struct ReplyPlan {
    pub chunks: Seq<ChunkModel>,
    pub paced: int,
    pub delay_ms: int,
}

/// The content of the last user message (empty when there is none).
pub open spec fn last_user(msgs: Seq<LlmMessage>) -> Seq<char>
    decreases msgs.len(),
{
    if msgs.len() == 0 {
        seq![]
    } else if msgs.last().role@ == "user"@ {
        msgs.last().content@
    } else {
        last_user(msgs.drop_last())
    }
}

/// The number of tool-result messages.
pub open spec fn tool_count(msgs: Seq<LlmMessage>) -> nat
    decreases msgs.len(),
{
    if msgs.len() == 0 {
        0
    } else {
        tool_count(msgs.drop_last()) + if msgs.last().role@ == "tool"@ { 1nat } else { 0nat }
    }
}

/// The number of characters over all message contents.
pub open spec fn prompt_chars(msgs: Seq<LlmMessage>) -> nat
    decreases msgs.len(),
{
    if msgs.len() == 0 {
        0
    } else {
        prompt_chars(msgs.drop_last()) + msgs.last().content@.len()
    }
}

/// The token estimate of `n` characters: a quarter, rounded up (counts
/// beyond `u64::MAX`, more than any memory holds, count as `u64::MAX`).
pub open spec fn est(n: nat) -> int {
    let m = if n > u64::MAX { u64::MAX as int } else { n as int };
    (m + 3) / 4
}

/// Usage counts with the given prompt and completion tokens, their sum
/// (saturated at `i64::MAX`) as the total, and no cache or reasoning tokens.
pub open spec fn usage_counts(p: int, c: int) -> UsageCounts {
    UsageCounts {
        prompt_tokens: p as i64,
        completion_tokens: c as i64,
        total_tokens: (if p + c > i64::MAX { i64::MAX as int } else { p + c }) as i64,
        prompt_cache_hit_tokens: 0,
        prompt_cache_miss_tokens: 0,
        reasoning_tokens: 0,
    }
}

/// A count of characters as `as i64` would give it for any length a string can have.
pub open spec fn len_i64(n: nat) -> int {
    if n > i64::MAX { i64::MAX as int } else { n as int }
}

/// A tool-call chunk.
pub open spec fn call(id: Seq<char>, name: Seq<char>, args: Seq<char>) -> ChunkModel {
    ChunkModel::ToolCall(CallModel { id, name, arguments: args })
}

/// A tool call with the fixed small usage and a `tool_calls` finish.
pub open spec fn call_reply(id: Seq<char>, name: Seq<char>, args: Seq<char>) -> ReplyPlan {
    ReplyPlan {
        chunks: seq![call(id, name, args), ChunkModel::Usage(usage_counts(5, 3)), ChunkModel::Finish("tool_calls"@)],
        paced: 0,
        delay_ms: 0,
    }
}

/// One text chunk with the estimated usage and a finish with `reason`.
pub open spec fn text_reply(text: Seq<char>, msgs: Seq<LlmMessage>, reason: Seq<char>) -> ReplyPlan {
    ReplyPlan {
        chunks: seq![
            ChunkModel::Token(text),
            ChunkModel::Usage(usage_counts(est(prompt_chars(msgs)), est(text.len()))),
            ChunkModel::Finish(reason),
        ],
        paced: 0,
        delay_ms: 0,
    }
}

/// An empty reply: only usage, three prompt tokens.
pub open spec fn empty_reply() -> ReplyPlan {
    ReplyPlan { chunks: seq![ChunkModel::Usage(usage_counts(3, 0))], paced: 0, delay_ms: 0 }
}

/// The lines joined with `sep` between them.
pub open spec fn joined(lines: Seq<Seq<char>>, sep: Seq<char>) -> Seq<char>
    decreases lines.len(),
{
    if lines.len() == 0 {
        seq![]
    } else if lines.len() == 1 {
        lines[0]
    } else {
        joined(lines.drop_last(), sep) + sep + lines.last()
    }
}

/// A message echoed as `[role] content`, with ` [calls:N]` after the role of
/// a message that carries N tool calls.
pub open spec fn echo_line(m: LlmMessage, with_calls: bool) -> Seq<char> {
    let calls = match m.tool_calls {
        Some(cs) => if with_calls {
            " [calls:"@ + crate::text::decimal(cs@.len()) + "]"@
        } else {
            seq![]
        },
        None => seq![],
    };
    "["@ + m.role@ + calls + "] "@ + m.content@
}

/// All messages echoed, one line each, joined with `sep`.
pub open spec fn echo_text(msgs: Seq<LlmMessage>, with_calls: bool, sep: Seq<char>) -> Seq<char> {
    joined(msgs.map_values(|m: LlmMessage| echo_line(m, with_calls)), sep)
}

/// Whether some message with `role` holds `needle`.
pub open spec fn role_holds(msgs: Seq<LlmMessage>, role: Seq<char>, needle: Seq<char>) -> bool {
    exists|k: int|
        0 <= k < msgs.len() && (#[trigger] msgs[k]).role@ == role && crate::text::contains(
            msgs[k].content@,
            needle,
        )
}

/// One token chunk per character of `s`.
pub open spec fn char_tokens(s: Seq<char>) -> Seq<ChunkModel> {
    Seq::new(s.len(), |i: int| ChunkModel::Token(seq![s[i]]))
}

/// The first 60 characters of `s`.
pub open spec fn excerpt(s: Seq<char>) -> Seq<char> {
    if s.len() <= 60 { s } else { s.take(60) }
}

/// The default reply to a user message.
pub open spec fn default_text(last: Seq<char>) -> Seq<char> {
    DEFAULT_REPLY_HEAD@ + excerpt(last) + DEFAULT_REPLY_TAIL@
}

/// What the demonstration backend answers: the hooks of the last user
/// message are tried in a fixed order, and the first that applies decides.
/// 1. `[[fail:m]]` fails with `m`.
/// 2. `[[tool_loop:name|N args]]` calls `name` (id `mock-call-k` in round k)
///    until N tool results are in, then replies that the loop is done.
/// 3. `[[tool_echo:name args]]` calls the tool twice at once; once results are
///    in, it echoes every message with its number of calls.
/// 4. Once tool results are in: a `[[reply_if:...]]` or `[[reply:...]]`
///    reply, else the fixed closing reply.
/// 5. `[[tool:name args]]` calls the tool, when it is offered.
/// 6. `[[tool_raw:name args]]` calls the tool with half its arguments and a
///    `length` finish below the budget of 2048 tokens, whole from it on.
/// 7. `[[empty]]`, or `[[empty_if:x]]` with `x` in a system message: usage only.
/// 8. `[[floors]]` in any user message echoes every message.
/// 9. `[[reply_if:...]]`, then `[[reply_stream:...]]` (one chunk per
///    character), then `[[reply:...]]`.
/// 10. `[[mvu_tool:name|args]]` calls the tool; `[[mvu_text:t]]` replies `t`;
///     `[[finish:reason|t]]` replies `t` and finishes with `reason`.
/// 11. Otherwise the default reply, character by character, 8 ms apart.
pub open spec fn mock_outcome(msgs: Seq<LlmMessage>, p: GenerationParams) -> Result<ReplyPlan, Seq<char>> {
    let last = last_user(msgs);
    let done = tool_count(msgs);
    match text_hook(last, "[[fail:"@) {
        Some(m) => Err(m),
        None => Ok(match tool_loop_hook(last) {
            Some((name, n, args)) => if done < n {
                call_reply("mock-call-"@ + crate::text::decimal(done + 1), name, args)
            } else {
                ReplyPlan {
                    chunks: seq![
                        ChunkModel::Token(LOOP_DONE_REPLY@),
                        ChunkModel::Usage(usage_counts(5, LOOP_DONE_REPLY@.len() as int)),
                        ChunkModel::Finish("stop"@),
                    ],
                    paced: 0,
                    delay_ms: 0,
                }
            },
            None => match call_hook(last, "[[tool_echo:"@) {
                Some((name, args)) => if done > 0 {
                    text_reply(echo_text(msgs, true, "\n---SEP---\n"@), msgs, "stop"@)
                } else {
                    ReplyPlan {
                        chunks: seq![
                            call("mock-echo-1"@, name, args),
                            call("mock-echo-2"@, name, args),
                            ChunkModel::Usage(usage_counts(5, 3)),
                            ChunkModel::Finish("tool_calls"@),
                        ],
                        paced: 0,
                        delay_ms: 0,
                    }
                },
                None => if done > 0 {
                    match reply_if_from(last, msgs, 0) {
                        Some(c) => text_reply(c, msgs, "stop"@),
                        None => match open_hook(last, "[[reply:"@) {
                            Some(c) => text_reply(c, msgs, "stop"@),
                            None => ReplyPlan {
                                chunks: seq![
                                    ChunkModel::Token(TOOL_DONE_REPLY@),
                                    ChunkModel::Usage(usage_counts(10, TOOL_DONE_REPLY@.len() as int)),
                                    ChunkModel::Finish("stop"@),
                                ],
                                paced: 0,
                                delay_ms: 0,
                            },
                        },
                    }
                } else {
                    unhooked_outcome(msgs, p, last)
                },
            },
        }),
    }
}

/// Steps 5 to 11 of `mock_outcome`, when no tool results are in.
pub open spec fn unhooked_outcome(msgs: Seq<LlmMessage>, p: GenerationParams, last: Seq<char>) -> ReplyPlan {
    let tool = call_hook(last, "[[tool:"@);
    if tool is Some && tool_offered_spec(p, tool->Some_0.0) {
        call_reply("mock-call-1"@, tool->Some_0.0, tool->Some_0.1)
    } else {
        match call_hook(last, "[[tool_raw:"@) {
            Some((name, args)) => if p.max_tokens < TOOL_RAW_MIN_BUDGET {
                ReplyPlan {
                    chunks: seq![
                        call("mock-raw-1"@, name, args.take((args.len() / 2) as int)),
                        ChunkModel::Usage(usage_counts(5, 3)),
                        ChunkModel::Finish("length"@),
                    ],
                    paced: 0,
                    delay_ms: 0,
                }
            } else {
                call_reply("mock-raw-1"@, name, args)
            },
            None => if crate::text::contains(last, "[[empty]]"@) {
                empty_reply()
            } else if text_hook(last, "[[empty_if:"@) is Some && role_holds(
                msgs,
                "system"@,
                text_hook(last, "[[empty_if:"@)->Some_0,
            ) {
                empty_reply()
            } else if role_holds(msgs, "user"@, "[[floors]]"@) {
                let text = echo_text(msgs, false, "\n---FLOOR-SEP---\n"@);
                ReplyPlan {
                    chunks: seq![
                        ChunkModel::Token(text),
                        ChunkModel::Usage(usage_counts(est(prompt_chars(msgs)), len_i64(text.len()))),
                        ChunkModel::Finish("stop"@),
                    ],
                    paced: 0,
                    delay_ms: 0,
                }
            } else {
                hooked_text_outcome(msgs, last)
            },
        }
    }
}

/// Steps 9 to 11 of `mock_outcome`.
pub open spec fn hooked_text_outcome(msgs: Seq<LlmMessage>, last: Seq<char>) -> ReplyPlan {
    match reply_if_from(last, msgs, 0) {
        Some(c) => text_reply(c, msgs, "stop"@),
        None => match open_hook(last, "[[reply_stream:"@) {
            Some(c) => ReplyPlan {
                chunks: char_tokens(c) + seq![
                    ChunkModel::Usage(usage_counts(est(prompt_chars(msgs)), len_i64(c.len()))),
                    ChunkModel::Finish("stop"@),
                ],
                paced: c.len() as int,
                delay_ms: 0,
            },
            None => match open_hook(last, "[[reply:"@) {
                Some(c) => text_reply(c, msgs, "stop"@),
                None => match mvu_tool_hook(last) {
                    Some((name, args)) => call_reply("mock-mvu-call-1"@, name, args),
                    None => match mvu_text_hook(last) {
                        Some(t) => text_reply(t, msgs, "stop"@),
                        None => match finish_hook(last) {
                            Some((reason, t)) => text_reply(t, msgs, reason),
                            None => {
                                let text = default_text(last);
                                ReplyPlan {
                                    chunks: char_tokens(text) + seq![
                                        ChunkModel::Usage(usage_counts(est(prompt_chars(msgs)), est(text.len()))),
                                        ChunkModel::Finish("stop"@),
                                    ],
                                    paced: text.len() as int,
                                    delay_ms: DEFAULT_CHAR_DELAY_MS as int,
                                }
                            },
                        },
                    },
                },
            },
        },
    }
}

/// The view of a reply.
pub open spec fn reply_view(r: MockReply) -> ReplyPlan {
    ReplyPlan { chunks: chunks_view(r.chunks@), paced: r.paced as int, delay_ms: r.delay_ms as int }
}

fn last_user_content(messages: &[LlmMessage]) -> (r: Vec<char>)
    ensures
        r@ == last_user(messages@),
{
    let user = lit("user");
    let mut k = messages.len();
    assert(messages@.take(k as int) =~= messages@);
    while k > 0
        invariant
            k <= messages@.len(),
            user@ == "user"@,
            last_user(messages@) == last_user(messages@.take(k as int)),
        decreases k,
    {
        assert(messages@.take(k as int).drop_last() =~= messages@.take(k - 1));
        assert(messages@.take(k as int).last() == messages@[k - 1]);
        if crate::json::eq_chars(&chars_of(messages[k - 1].role.as_str()), &user) {
            return chars_of(messages[k - 1].content.as_str());
        }
        k = k - 1;
    }
    Vec::new()
}

fn count_tools(messages: &[LlmMessage]) -> (r: usize)
    ensures
        r as nat == tool_count(messages@),
{
    let tool = lit("tool");
    let mut n: usize = 0;
    for k in 0..messages.len()
        invariant
            tool@ == "tool"@,
            n as nat == tool_count(messages@.take(k as int)),
            n <= k,
    {
        assert(messages@.take(k + 1).drop_last() =~= messages@.take(k as int));
        assert(messages@.take(k + 1).last() == messages@[k as int]);
        if crate::json::eq_chars(&chars_of(messages[k].role.as_str()), &tool) {
            n = n + 1;
        }
    }
    assert(messages@.take(messages@.len() as int) =~= messages@);
    n
}

fn prompt_char_count(messages: &[LlmMessage]) -> (r: u64)
    ensures
        r as int == if prompt_chars(messages@) > u64::MAX { u64::MAX as int } else { prompt_chars(messages@) as int },
{
    let mut acc: u64 = 0;
    for k in 0..messages.len()
        invariant
            acc as int == if prompt_chars(messages@.take(k as int)) > u64::MAX {
                u64::MAX as int
            } else {
                prompt_chars(messages@.take(k as int)) as int
            },
    {
        assert(messages@.take(k + 1).drop_last() =~= messages@.take(k as int));
        assert(messages@.take(k + 1).last() == messages@[k as int]);
        let len = messages[k].content.as_str().unicode_len() as u64;
        if acc > u64::MAX - len {
            acc = u64::MAX;
        } else {
            acc = acc + len;
        }
    }
    assert(messages@.take(messages@.len() as int) =~= messages@);
    acc
}

fn est_of(n: u64) -> (r: i64)
    ensures
        r as int == est(n as nat),
        0 <= r <= u64::MAX / 4 + 1,
{
    let q = n / 4;
    if n % 4 == 0 {
        q as i64
    } else {
        (q + 1) as i64
    }
}

fn char_len(s: &String) -> (r: u64)
    ensures
        r as nat == s@.len(),
{
    s.as_str().unicode_len() as u64
}

fn usage_chunk(p: i64, c: i64) -> (r: LlmStreamChunk)
    requires
        p >= 0,
        c >= 0,
    ensures
        r@ == ChunkModel::Usage(usage_counts(p as int, c as int)),
{
    let total = if p > i64::MAX - c { i64::MAX } else { p + c };
    LlmStreamChunk::Usage(UsageCounts {
        prompt_tokens: p,
        completion_tokens: c,
        total_tokens: total,
        prompt_cache_hit_tokens: 0,
        prompt_cache_miss_tokens: 0,
        reasoning_tokens: 0,
    })
}

fn finish_chunk(reason: &str) -> (r: LlmStreamChunk)
    ensures
        r@ == ChunkModel::Finish(reason@),
{
    LlmStreamChunk::Finish { reason: reason.to_owned() }
}

fn plan_of(chunks: Vec<LlmStreamChunk>, paced: usize, delay_ms: u64) -> (r: MockReply)
    ensures
        reply_view(r) == (ReplyPlan { chunks: chunks_view(chunks@), paced: paced as int, delay_ms: delay_ms as int }),
{
    MockReply { chunks, paced, delay_ms }
}

/// A tool call with the fixed small usage and a `tool_calls` finish.
fn call_chunks(id: String, name: String, args: String) -> (r: MockReply)
    ensures
        reply_view(r) == call_reply(id@, name@, args@),
{
    let mut v: Vec<LlmStreamChunk> = Vec::new();
    v.push(LlmStreamChunk::ToolCall(ToolCallArgs { id, name, arguments: args }));
    v.push(usage_chunk(5, 3));
    v.push(tool_calls_finish());
    let r = plan_of(v, 0, 0);
    assert(reply_view(r).chunks =~= call_reply(id@, name@, args@).chunks);
    r
}

/// The `Finish` chunk of a round that ends in tool calls.
fn tool_calls_finish() -> (r: LlmStreamChunk)
    ensures
        r@ == ChunkModel::Finish("tool_calls"@),
{
    finish_chunk("tool_calls")
}

/// One text chunk with the estimated usage and a finish with `reason`.
fn text_reply_chunks(text: String, messages: &[LlmMessage], reason: String) -> (r: MockReply)
    ensures
        reply_view(r) == text_reply(text@, messages@, reason@),
{
    let p = est_of(prompt_char_count(messages));
    let c = est_of(char_len(&text));
    let mut v: Vec<LlmStreamChunk> = Vec::new();
    v.push(LlmStreamChunk::Token(text));
    v.push(usage_chunk(p, c));
    v.push(LlmStreamChunk::Finish { reason });
    let r = plan_of(v, 0, 0);
    assert(reply_view(r).chunks =~= text_reply(text@, messages@, reason@).chunks);
    r
}

fn empty_chunks() -> (r: MockReply)
    ensures
        reply_view(r) == empty_reply(),
{
    let mut v: Vec<LlmStreamChunk> = Vec::new();
    v.push(usage_chunk(3, 0));
    let r = plan_of(v, 0, 0);
    assert(reply_view(r).chunks =~= empty_reply().chunks);
    r
}

fn echo_line_chars(m: &LlmMessage, with_calls: bool) -> (r: Vec<char>)
    ensures
        r@ == echo_line(*m, with_calls),
{
    let mut out = lit("[");
    append_chars(&mut out, &chars_of(m.role.as_str()));
    match &m.tool_calls {
        Some(cs) => {
            if with_calls {
                append_chars(&mut out, &lit(" [calls:"));
                append_chars(&mut out, &crate::text::decimal_chars(cs.len() as u64));
                append_chars(&mut out, &lit("]"));
            }
        },
        None => {},
    }
    append_chars(&mut out, &lit("] "));
    append_chars(&mut out, &chars_of(m.content.as_str()));
    assert(out@ =~= echo_line(*m, with_calls));
    out
}

fn echo_chars(messages: &[LlmMessage], with_calls: bool, sep: &str) -> (r: Vec<char>)
    ensures
        r@ == echo_text(messages@, with_calls, sep@),
{
    let ghost lines = messages@.map_values(|m: LlmMessage| echo_line(m, with_calls));
    let sep_chars = lit(sep);
    let mut out: Vec<char> = Vec::new();
    for k in 0..messages.len()
        invariant
            lines == messages@.map_values(|m: LlmMessage| echo_line(m, with_calls)),
            sep_chars@ == sep@,
            out@ == joined(lines.take(k as int), sep@),
    {
        let line = echo_line_chars(&messages[k], with_calls);
        assert(lines.take(k + 1).drop_last() =~= lines.take(k as int));
        assert(lines.take(k + 1).last() == lines[k as int]);
        if k > 0 {
            append_chars(&mut out, &sep_chars);
        }
        append_chars(&mut out, &line);
        proof {
            if k == 0 {
                assert(out@ =~= lines.take(1)[0]);
            } else {
                assert(out@ =~= joined(lines.take(k as int), sep@) + sep@ + lines[k as int]);
            }
        }
    }
    assert(lines.take(messages@.len() as int) =~= lines);
    out
}

fn role_holds_chars(messages: &[LlmMessage], role: &str, needle: &Vec<char>) -> (r: bool)
    ensures
        r == role_holds(messages@, role@, needle@),
{
    let want = lit(role);
    for k in 0..messages.len()
        invariant
            want@ == role@,
            forall|j: int|
                0 <= j < k ==> !((#[trigger] messages@[j]).role@ == role@ && crate::text::contains(
                    messages@[j].content@,
                    needle@,
                )),
    {
        if crate::json::eq_chars(&chars_of(messages[k].role.as_str()), &want)
            && crate::text::contains_chars(&chars_of(messages[k].content.as_str()), needle) {
            assert(messages@[k as int].role@ == role@);
            return true;
        }
    }
    false
}

fn char_token_chunks(s: &Vec<char>) -> (r: Vec<LlmStreamChunk>)
    ensures
        chunks_view(r@) == char_tokens(s@),
{
    let mut out: Vec<LlmStreamChunk> = Vec::new();
    for k in 0..s.len()
        invariant
            out@.len() == k,
            forall|j: int| 0 <= j < k ==> (#[trigger] out@[j])@ == ChunkModel::Token(seq![s@[j]]),
    {
        let one = vec![s[k]];
        assert(one@ =~= seq![s@[k as int]]);
        out.push(LlmStreamChunk::Token(string_of(&one)));
    }
    assert(chunks_view(out@) =~= char_tokens(s@));
    out
}

fn paced_chunks(text: &Vec<char>, messages: &[LlmMessage], exact: bool, delay_ms: u64) -> (r: MockReply)
    ensures
        reply_view(r) == (ReplyPlan {
            chunks: char_tokens(text@) + seq![
                ChunkModel::Usage(usage_counts(
                    est(prompt_chars(messages@)),
                    if exact { len_i64(text@.len()) } else { est(text@.len()) },
                )),
                ChunkModel::Finish("stop"@),
            ],
            paced: text@.len() as int,
            delay_ms: delay_ms as int,
        }),
{
    let p = est_of(prompt_char_count(messages));
    let n = text.len();
    let c: i64 = if exact {
        if n as u64 > i64::MAX as u64 { i64::MAX } else { n as i64 }
    } else {
        est_of(n as u64)
    };
    let mut v = char_token_chunks(text);
    let ghost head = v@;
    v.push(usage_chunk(p, c));
    v.push(finish_chunk("stop"));
    let r = plan_of(v, n, delay_ms);
    assert(chunks_view(v@) =~= chunks_view(head) + seq![
        ChunkModel::Usage(usage_counts(
            est(prompt_chars(messages@)),
            if exact { len_i64(text@.len()) } else { est(text@.len()) },
        )),
        ChunkModel::Finish("stop"@),
    ]);
    r
}

fn hooked_text(messages: &[LlmMessage], last: &Vec<char>) -> (r: MockReply)
    ensures
        reply_view(r) == hooked_text_outcome(messages@, last@),
{
    match extract_reply_if_marker(last, messages) {
        Some(c) => {
            return text_reply_chunks(c, messages, "stop".to_owned());
        },
        None => {},
    }
    match extract_reply_stream_marker(last) {
        Some(c) => {
            return paced_chunks(&chars_of(c.as_str()), messages, true, 0);
        },
        None => {},
    }
    match extract_reply_marker(last) {
        Some(c) => {
            return text_reply_chunks(c, messages, "stop".to_owned());
        },
        None => {},
    }
    match extract_mvu_tool_marker(last) {
        Some((name, args)) => {
            return call_chunks("mock-mvu-call-1".to_owned(), name, args);
        },
        None => {},
    }
    match extract_mvu_text_marker(last) {
        Some(t) => {
            return text_reply_chunks(t, messages, "stop".to_owned());
        },
        None => {},
    }
    match extract_finish_marker(last) {
        Some((reason, t)) => {
            return text_reply_chunks(t, messages, reason);
        },
        None => {},
    }
    let mut text = lit(DEFAULT_REPLY_HEAD);
    append_chars(&mut text, &crate::text::take_chars(last, 60));
    append_chars(&mut text, &lit(DEFAULT_REPLY_TAIL));
    assert(text@ =~= default_text(last@));
    paced_chunks(&text, messages, false, DEFAULT_CHAR_DELAY_MS)
}

fn unhooked(messages: &[LlmMessage], params: &GenerationParams, last: &Vec<char>) -> (r: MockReply)
    ensures
        reply_view(r) == unhooked_outcome(messages@, *params, last@),
{
    match extract_tool_marker(last) {
        Some((name, args)) => {
            if tool_offered(params, &name) {
                return call_chunks("mock-call-1".to_owned(), name, args);
            }
        },
        None => {},
    }
    match extract_tool_raw_marker(last) {
        Some((name, args)) => {
            if params.max_tokens < TOOL_RAW_MIN_BUDGET {
                let a = chars_of(args.as_str());
                let half = string_of(&slice_chars(&a, 0, a.len() / 2));
                assert(half@ =~= args@.take((args@.len() / 2) as int));
                let mut v: Vec<LlmStreamChunk> = Vec::new();
                v.push(LlmStreamChunk::ToolCall(ToolCallArgs { id: "mock-raw-1".to_owned(), name, arguments: half }));
                v.push(usage_chunk(5, 3));
                v.push(finish_chunk("length"));
                let r = plan_of(v, 0, 0);
                assert(reply_view(r).chunks =~= unhooked_outcome(messages@, *params, last@).chunks);
                return r;
            }
            return call_chunks("mock-raw-1".to_owned(), name, args);
        },
        None => {},
    }
    if crate::text::contains_chars(last, &lit("[[empty]]")) {
        return empty_chunks();
    }
    match extract_empty_if_marker(last) {
        Some(needle) => {
            if role_holds_chars(messages, "system", &chars_of(needle.as_str())) {
                return empty_chunks();
            }
        },
        None => {},
    }
    if role_holds_chars(messages, "user", &lit("[[floors]]")) {
        let text = echo_chars(messages, false, "\n---FLOOR-SEP---\n");
        let p = est_of(prompt_char_count(messages));
        let n = text.len();
        let c: i64 = if n as u64 > i64::MAX as u64 { i64::MAX } else { n as i64 };
        let mut v: Vec<LlmStreamChunk> = Vec::new();
        v.push(LlmStreamChunk::Token(string_of(&text)));
        v.push(usage_chunk(p, c));
        v.push(finish_chunk("stop"));
        let r = plan_of(v, 0, 0);
        assert(reply_view(r).chunks =~= unhooked_outcome(messages@, *params, last@).chunks);
        return r;
    }
    hooked_text(messages, last)
}

impl MockConnector {
    /// The reply to `messages` (see `mock_outcome`), before any abort is
    /// looked at.
    pub fn reply_plan(&self, messages: &[LlmMessage], params: &GenerationParams) -> (r: Result<MockReply, String>)
        ensures
            match r {
                Ok(x) => mock_outcome(messages@, *params) == Ok::<ReplyPlan, Seq<char>>(reply_view(x)),
                Err(e) => mock_outcome(messages@, *params) == Err::<ReplyPlan, Seq<char>>(e@),
            },
    {
        let last = last_user_content(messages);
        match extract_fail_marker(&last) {
            Some(m) => {
                return Err(m);
            },
            None => {},
        }
        let done = count_tools(messages);
        match extract_tool_loop_marker(&last) {
            Some((name, n, args)) => {
                if done < n {
                    let mut id = lit("mock-call-");
                    append_chars(&mut id, &crate::text::decimal_chars(done as u64 + 1));
                    return Ok(call_chunks(string_of(&id), name, args));
                }
                let reply = LOOP_DONE_REPLY.to_owned();
                let c = char_len(&reply);
                let mut v: Vec<LlmStreamChunk> = Vec::new();
                v.push(LlmStreamChunk::Token(reply));
                proof {
                    reveal_strlit("（模拟回复）工具循环已完成,最终回复。");
                }
                v.push(usage_chunk(5, c as i64));
                v.push(finish_chunk("stop"));
                let r = plan_of(v, 0, 0);
                assert(reply_view(r).chunks =~= mock_outcome(messages@, *params)->Ok_0.chunks);
                return Ok(r);
            },
            None => {},
        }
        match extract_tool_echo_marker(&last) {
            Some((name, args)) => {
                if done > 0 {
                    let text = echo_chars(messages, true, "\n---SEP---\n");
                    return Ok(text_reply_chunks(string_of(&text), messages, "stop".to_owned()));
                }
                let mut v: Vec<LlmStreamChunk> = Vec::new();
                v.push(LlmStreamChunk::ToolCall(ToolCallArgs { id: "mock-echo-1".to_owned(), name: name.clone(), arguments: args.clone() }));
                v.push(LlmStreamChunk::ToolCall(ToolCallArgs { id: "mock-echo-2".to_owned(), name, arguments: args }));
                v.push(usage_chunk(5, 3));
                v.push(tool_calls_finish());
                let r = plan_of(v, 0, 0);
                assert(reply_view(r).chunks =~= mock_outcome(messages@, *params)->Ok_0.chunks);
                return Ok(r);
            },
            None => {},
        }
        if done > 0 {
            match extract_reply_if_marker(&last, messages) {
                Some(c) => {
                    return Ok(text_reply_chunks(c, messages, "stop".to_owned()));
                },
                None => {},
            }
            match extract_reply_marker(&last) {
                Some(c) => {
                    return Ok(text_reply_chunks(c, messages, "stop".to_owned()));
                },
                None => {},
            }
            let reply = TOOL_DONE_REPLY.to_owned();
            let c = char_len(&reply);
            proof {
                reveal_strlit("（模拟回复）工具调用已完成,结果已回填上下文,这是最终的回复内容。");
            }
            let mut v: Vec<LlmStreamChunk> = Vec::new();
            v.push(LlmStreamChunk::Token(reply));
            v.push(usage_chunk(10, c as i64));
            v.push(finish_chunk("stop"));
            let r = plan_of(v, 0, 0);
            assert(reply_view(r).chunks =~= mock_outcome(messages@, *params)->Ok_0.chunks);
            return Ok(r);
        }
        Ok(unhooked(messages, params, &last))
    }
}

/// Whether a reply asks for a tool call.
pub open spec fn calls_tool(plan: ReplyPlan) -> bool {
    exists|i: int| 0 <= i < plan.chunks.len() && (#[trigger] plan.chunks[i]) is ToolCall
}

/// Whether the rounds of a `[[tool_loop:...]]` hook in the last user message
/// are all done (true when there is no such hook).
pub open spec fn loop_rounds_done(msgs: Seq<LlmMessage>) -> bool {
    match tool_loop_hook(last_user(msgs)) {
        Some((_, n, _)) => tool_count(msgs) >= n,
        None => true,
    }
}

proof fn lemma_text_reply_no_call(text: Seq<char>, msgs: Seq<LlmMessage>, reason: Seq<char>)
    ensures
        !calls_tool(text_reply(text, msgs, reason)),
{
    let c = text_reply(text, msgs, reason).chunks;
    assert forall|i: int| 0 <= i < c.len() implies !(#[trigger] c[i] is ToolCall) by {
        assert(i == 0 || i == 1 || i == 2);
    }
}

/// The error of a reply that was aborted while it was streamed.
pub const MOCK_ABORTED: &'static str = "生成已中断";

/// What the demonstration backend answers when `abort` is the abort flag as
/// the streamed characters are sent: the reply of `mock_outcome`, except that
/// a reply streamed character by character (its paced chunks) fails with
/// `MOCK_ABORTED` when the flag is set.
pub open spec fn mock_result(msgs: Seq<LlmMessage>, p: GenerationParams, abort: bool) -> Result<ReplyPlan, Seq<char>> {
    match mock_outcome(msgs, p) {
        Ok(plan) => if abort && plan.paced > 0 {
            Err(MOCK_ABORTED@)
        } else {
            Ok(plan)
        },
        Err(m) => Err(m),
    }
}

impl MockConnector {
    /// The reply to `messages` with the abort flag `abort` (see `mock_result`).
    /// Pacing the reply is the caller's part.
    pub fn generate(&self, messages: &[LlmMessage], params: &GenerationParams, abort: bool) -> (r: Result<MockReply, String>)
        ensures
            match r {
                Ok(x) => mock_result(messages@, *params, abort) == Ok::<ReplyPlan, Seq<char>>(reply_view(x)),
                Err(e) => mock_result(messages@, *params, abort) == Err::<ReplyPlan, Seq<char>>(e@),
            },
    {
        match self.reply_plan(messages, params) {
            Ok(x) => {
                if abort && x.paced > 0 {
                    Err(MOCK_ABORTED.to_owned())
                } else {
                    Ok(x)
                }
            },
            Err(e) => Err(e),
        }
    }
}

/// Once tool results are in the conversation the mock answers in text and
/// never asks for another tool call, so an engine looping on tool calls always
/// ends; the one exception is the multi-round hook, and only until its rounds
/// are done.
pub proof fn law_mock_tool_results_end_loop(msgs: Seq<LlmMessage>, p: GenerationParams)
    ensures
        (tool_count(msgs) > 0 && loop_rounds_done(msgs)) ==> (mock_outcome(msgs, p) matches Ok(plan)
            ==> !calls_tool(plan)),
{
    if tool_count(msgs) > 0 && loop_rounds_done(msgs) {
        if let Ok(plan) = mock_outcome(msgs, p) {
            let last = last_user(msgs);
            let c = plan.chunks;
            match tool_loop_hook(last) {
                Some(_) => {
                    assert forall|i: int| 0 <= i < c.len() implies !(#[trigger] c[i] is ToolCall) by {
                        assert(i == 0 || i == 1 || i == 2);
                    }
                },
                None => {
                    match call_hook(last, "[[tool_echo:"@) {
                        Some(_) => lemma_text_reply_no_call(echo_text(msgs, true, "\n---SEP---\n"@), msgs, "stop"@),
                        None => match reply_if_from(last, msgs, 0) {
                            Some(t) => lemma_text_reply_no_call(t, msgs, "stop"@),
                            None => match open_hook(last, "[[reply:"@) {
                                Some(t) => lemma_text_reply_no_call(t, msgs, "stop"@),
                                None => {
                                    assert forall|i: int| 0 <= i < c.len() implies !(#[trigger] c[i] is ToolCall) by {
                                        assert(i == 0 || i == 1 || i == 2);
                                    }
                                },
                            },
                        },
                    }
                },
            }
        }
    }
}

/// The multi-round hook asks for exactly its rounds: with `k` tool results in
/// and `k` below its count it asks for call number `k + 1`, named `mock-call-{k+1}`.
pub proof fn law_mock_loop_round_numbering(msgs: Seq<LlmMessage>, p: GenerationParams)
    ensures
        (text_hook(last_user(msgs), "[[fail:"@) is None && !loop_rounds_done(msgs)) ==> mock_outcome(msgs, p)
            == Ok::<ReplyPlan, Seq<char>>(
            call_reply(
                "mock-call-"@ + crate::text::decimal(tool_count(msgs) + 1),
                tool_loop_hook(last_user(msgs))->Some_0.0,
                tool_loop_hook(last_user(msgs))->Some_0.2,
            ),
        ),
{
}

/// Usage counts as the backend reports them: the total is the prompt and
/// completion tokens together (saturated at `i64::MAX`), with no cache or
/// reasoning tokens.
pub open spec fn usage_ok(u: UsageCounts) -> bool {
    &&& u.total_tokens as int == (if u.prompt_tokens + u.completion_tokens > i64::MAX {
        i64::MAX as int
    } else {
        u.prompt_tokens + u.completion_tokens
    })
    &&& u.prompt_cache_hit_tokens == 0
    &&& u.prompt_cache_miss_tokens == 0
    &&& u.reasoning_tokens == 0
}

/// Whether chunk `k` is the usage chunk of `cs` and its counts are as the
/// backend reports them.
pub open spec fn usage_at(cs: Seq<ChunkModel>, k: int) -> bool {
    0 <= k < cs.len() && (cs[k] matches ChunkModel::Usage(u) && usage_ok(u))
}

/// The shape of a reply: exactly one usage chunk, reported as `usage_ok`
/// says; at most one finish chunk, and that one last.
pub open spec fn reply_shape_ok(cs: Seq<ChunkModel>) -> bool {
    &&& exists|k: int| #[trigger] usage_at(cs, k) && forall|i: int| 0 <= i < cs.len() && i != k ==> !(#[trigger] cs[i] is Usage)
    &&& forall|i: int| 0 <= i < cs.len() && (#[trigger] cs[i] is Finish) ==> i == cs.len() - 1
}

proof fn lemma_usage_counts_ok(p: int, c: int)
    requires
        0 <= p <= i64::MAX,
        0 <= c <= i64::MAX,
    ensures
        usage_ok(usage_counts(p, c)),
{
}

proof fn lemma_est_bound(n: nat)
    ensures
        0 <= est(n) <= i64::MAX,
{
}

proof fn lemma_tail_shape(pre: Seq<ChunkModel>, u: UsageCounts, fin: Seq<ChunkModel>)
    requires
        forall|i: int| 0 <= i < pre.len() ==> !(#[trigger] pre[i] is Usage) && !(pre[i] is Finish),
        usage_ok(u),
        fin.len() == 0 || (fin.len() == 1 && fin[0] is Finish),
    ensures
        reply_shape_ok(pre + seq![ChunkModel::Usage(u)] + fin),
{
    let cs = pre + seq![ChunkModel::Usage(u)] + fin;
    let k = pre.len() as int;
    assert(cs[k] == ChunkModel::Usage(u));
    assert(usage_at(cs, k));
    assert forall|i: int| 0 <= i < cs.len() && i != k implies !(#[trigger] cs[i] is Usage) by {
        if i < k {
            assert(cs[i] == pre[i]);
        } else {
            assert(cs[i] == fin[i - k - 1]);
        }
    }
    assert forall|i: int| 0 <= i < cs.len() && (#[trigger] cs[i] is Finish) implies i == cs.len() - 1 by {
        if i < k {
            assert(cs[i] == pre[i]);
        } else if i > k {
            assert(cs[i] == fin[i - k - 1]);
        }
    }
}

proof fn lemma_three_shape(a: ChunkModel, u: UsageCounts, r: Seq<char>)
    requires
        !(a is Usage) && !(a is Finish),
        usage_ok(u),
    ensures
        reply_shape_ok(seq![a, ChunkModel::Usage(u), ChunkModel::Finish(r)]),
{
    lemma_tail_shape(seq![a], u, seq![ChunkModel::Finish(r)]);
    assert(seq![a] + seq![ChunkModel::Usage(u)] + seq![ChunkModel::Finish(r)] =~= seq![a, ChunkModel::Usage(u), ChunkModel::Finish(r)]);
}

proof fn lemma_text_reply_shape(t: Seq<char>, msgs: Seq<LlmMessage>, r: Seq<char>)
    ensures
        reply_shape_ok(text_reply(t, msgs, r).chunks),
{
    lemma_est_bound(prompt_chars(msgs));
    lemma_est_bound(t.len());
    lemma_usage_counts_ok(est(prompt_chars(msgs)), est(t.len()));
    lemma_three_shape(ChunkModel::Token(t), usage_counts(est(prompt_chars(msgs)), est(t.len())), r);
}

proof fn lemma_call_reply_shape(id: Seq<char>, name: Seq<char>, args: Seq<char>)
    ensures
        reply_shape_ok(call_reply(id, name, args).chunks),
{
    lemma_usage_counts_ok(5, 3);
    lemma_three_shape(call(id, name, args), usage_counts(5, 3), "tool_calls"@);
}

proof fn lemma_char_tokens_shape(c: Seq<char>, u: UsageCounts)
    requires
        usage_ok(u),
    ensures
        reply_shape_ok(char_tokens(c) + seq![ChunkModel::Usage(u), ChunkModel::Finish("stop"@)]),
{
    let pre = char_tokens(c);
    assert forall|i: int| 0 <= i < pre.len() implies !(#[trigger] pre[i] is Usage) && !(pre[i] is Finish) by {
        assert(pre[i] == ChunkModel::Token(seq![c[i]]));
    }
    lemma_tail_shape(pre, u, seq![ChunkModel::Finish("stop"@)]);
    assert(pre + seq![ChunkModel::Usage(u)] + seq![ChunkModel::Finish("stop"@)] =~= pre + seq![
        ChunkModel::Usage(u),
        ChunkModel::Finish("stop"@),
    ]);
}

proof fn lemma_hooked_text_shape(msgs: Seq<LlmMessage>, last: Seq<char>)
    ensures
        reply_shape_ok(hooked_text_outcome(msgs, last).chunks),
{
    lemma_est_bound(prompt_chars(msgs));
    match reply_if_from(last, msgs, 0) {
        Some(c) => lemma_text_reply_shape(c, msgs, "stop"@),
        None => match open_hook(last, "[[reply_stream:"@) {
            Some(c) => {
                lemma_usage_counts_ok(est(prompt_chars(msgs)), len_i64(c.len()));
                lemma_char_tokens_shape(c, usage_counts(est(prompt_chars(msgs)), len_i64(c.len())));
            },
            None => match open_hook(last, "[[reply:"@) {
                Some(c) => lemma_text_reply_shape(c, msgs, "stop"@),
                None => match mvu_tool_hook(last) {
                    Some((name, args)) => lemma_call_reply_shape("mock-mvu-call-1"@, name, args),
                    None => match mvu_text_hook(last) {
                        Some(t) => lemma_text_reply_shape(t, msgs, "stop"@),
                        None => match finish_hook(last) {
                            Some((reason, t)) => lemma_text_reply_shape(t, msgs, reason),
                            None => {
                                let text = default_text(last);
                                lemma_est_bound(text.len());
                                lemma_usage_counts_ok(est(prompt_chars(msgs)), est(text.len()));
                                lemma_char_tokens_shape(text, usage_counts(est(prompt_chars(msgs)), est(text.len())));
                            },
                        },
                    },
                },
            },
        },
    }
}

proof fn lemma_unhooked_shape(msgs: Seq<LlmMessage>, p: GenerationParams, last: Seq<char>)
    ensures
        reply_shape_ok(unhooked_outcome(msgs, p, last).chunks),
{
    let tool = call_hook(last, "[[tool:"@);
    if tool is Some && tool_offered_spec(p, tool->Some_0.0) {
        lemma_call_reply_shape("mock-call-1"@, tool->Some_0.0, tool->Some_0.1);
    } else {
        match call_hook(last, "[[tool_raw:"@) {
            Some((name, args)) => if p.max_tokens < TOOL_RAW_MIN_BUDGET {
                lemma_usage_counts_ok(5, 3);
                lemma_three_shape(call("mock-raw-1"@, name, args.take((args.len() / 2) as int)), usage_counts(5, 3), "length"@);
            } else {
                lemma_call_reply_shape("mock-raw-1"@, name, args);
            },
            None => if crate::text::contains(last, "[[empty]]"@) || (text_hook(last, "[[empty_if:"@) is Some
                && role_holds(msgs, "system"@, text_hook(last, "[[empty_if:"@)->Some_0)) {
                lemma_usage_counts_ok(3, 0);
                lemma_tail_shape(seq![], usage_counts(3, 0), seq![]);
                assert(Seq::<ChunkModel>::empty() + seq![ChunkModel::Usage(usage_counts(3, 0))] + Seq::<ChunkModel>::empty()
                    =~= seq![ChunkModel::Usage(usage_counts(3, 0))]);
            } else if role_holds(msgs, "user"@, "[[floors]]"@) {
                let text = echo_text(msgs, false, "\n---FLOOR-SEP---\n"@);
                lemma_est_bound(prompt_chars(msgs));
                lemma_usage_counts_ok(est(prompt_chars(msgs)), len_i64(text.len()));
                lemma_three_shape(ChunkModel::Token(text), usage_counts(est(prompt_chars(msgs)), len_i64(text.len())), "stop"@);
            } else {
                lemma_hooked_text_shape(msgs, last);
            },
        }
    }
}

/// Every reply the demonstration backend gives has exactly one usage chunk,
/// whose total is its prompt and completion tokens together (saturated) and
/// which counts no cache or reasoning tokens, and at most one finish chunk,
/// which is then the last.
pub proof fn law_mock_reply_shape(msgs: Seq<LlmMessage>, p: GenerationParams, abort: bool)
    ensures
        mock_result(msgs, p, abort) matches Ok(plan) ==> reply_shape_ok(plan.chunks),
{
    if let Ok(plan) = mock_outcome(msgs, p) {
        let last = last_user(msgs);
        let done = tool_count(msgs);
        match tool_loop_hook(last) {
            Some((name, n, args)) => if done < n {
                lemma_call_reply_shape("mock-call-"@ + crate::text::decimal(done + 1), name, args);
            } else {
                reveal_strlit("（模拟回复）工具循环已完成,最终回复。");
                lemma_usage_counts_ok(5, LOOP_DONE_REPLY@.len() as int);
                lemma_three_shape(ChunkModel::Token(LOOP_DONE_REPLY@), usage_counts(5, LOOP_DONE_REPLY@.len() as int), "stop"@);
            },
            None => match call_hook(last, "[[tool_echo:"@) {
                Some((name, args)) => if done > 0 {
                    lemma_text_reply_shape(echo_text(msgs, true, "\n---SEP---\n"@), msgs, "stop"@);
                } else {
                    lemma_usage_counts_ok(5, 3);
                    let pre = seq![call("mock-echo-1"@, name, args), call("mock-echo-2"@, name, args)];
                    lemma_tail_shape(pre, usage_counts(5, 3), seq![ChunkModel::Finish("tool_calls"@)]);
                    assert(pre + seq![ChunkModel::Usage(usage_counts(5, 3))] + seq![ChunkModel::Finish("tool_calls"@)] =~= plan.chunks);
                },
                None => if done > 0 {
                    match reply_if_from(last, msgs, 0) {
                        Some(c) => lemma_text_reply_shape(c, msgs, "stop"@),
                        None => match open_hook(last, "[[reply:"@) {
                            Some(c) => lemma_text_reply_shape(c, msgs, "stop"@),
                            None => {
                                reveal_strlit("（模拟回复）工具调用已完成,结果已回填上下文,这是最终的回复内容。");
                                lemma_usage_counts_ok(10, TOOL_DONE_REPLY@.len() as int);
                                lemma_three_shape(
                                    ChunkModel::Token(TOOL_DONE_REPLY@),
                                    usage_counts(10, TOOL_DONE_REPLY@.len() as int),
                                    "stop"@,
                                );
                            },
                        },
                    }
                } else {
                    lemma_unhooked_shape(msgs, p, last);
                },
            },
        }
    }
}

} // verus!
