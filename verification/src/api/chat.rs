//! The chat endpoints' own logic: what a send request must hold, the
//! anchors of a resend or a regeneration, and the free one-shot generation
//! (its limits, its output budget and its retries after truncation).
use vstd::prelude::*;
use crate::api::errors::{err_status, status_code, ErrorCode, ErrorReply};
use crate::llm::{ChunkModel, LlmError, LlmStreamChunk, chunks_view};
use crate::text::{chars_of, lit, string_of, trim, trim_chars};
use crate::utils::retry::{heal_budget, truncation_heal_budget};
use crate::text::lowercase;
use crate::world_book::{entry_hits, scan_texts, triggered_hits, WorldEntry};

verus! {

broadcast use vstd::string::group_string_axioms;

/// A body naming the session to stop.
pub struct StopBody {
    pub session_id: Option<String>,
}

/// A body naming the session whose history is compacted.
pub struct CompactBody {
    pub session_id: Option<String>,
}

/// One message of a free generation request.
#[derive(Debug)]
pub struct GenerateRawMessage {
    pub role: String,
    pub content: String,
}

/// The least output budget of a free generation whose caller names none.
pub const GENERATE_RAW_MIN_TOKENS: u32 = 8192;

/// The cap of a retry budget after a truncated free generation.
pub const GENERATE_RAW_RETRY_MAX_TOKENS: u32 = 32768;

/// The greatest output budget of a free generation.
pub const GENERATE_RAW_MAX_TOKENS_LIMIT: u32 = 131072;

/// The most retries after a truncated free generation.
pub const GENERATE_RAW_MAX_HEAL_ROUNDS: u32 = 2;

/// The most messages of a free generation.
pub const RAW_MAX_MESSAGES: usize = 200;

/// The longest message of a free generation, in bytes.
pub const RAW_MAX_MSG_LEN: usize = 65536;

/// The longest free generation in all, in bytes.
pub const RAW_MAX_TOTAL_LEN: usize = 262144;

/// The greatest output budget of a chat turn.
pub const MAX_GENERATION_TOKENS: u32 = 65536;

/// The greatest context window of a chat turn.
pub const MAX_CONTEXT_TOKENS: u32 = 1048576;

/// `v` clamped to `[lo, hi]`.
pub open spec fn clamp(v: int, lo: int, hi: int) -> int {
    if v < lo { lo } else if v > hi { hi } else { v }
}

/// The output budget of a free generation: the caller's value clamped to
/// `[1, 131072]`, else the setting clamped to `[8192, 131072]`.
pub open spec fn raw_budget(requested: Option<u32>, setting: u32) -> int {
    match requested {
        Some(v) => clamp(v as int, 1, GENERATE_RAW_MAX_TOKENS_LIMIT as int),
        None => clamp(setting as int, GENERATE_RAW_MIN_TOKENS as int, GENERATE_RAW_MAX_TOKENS_LIMIT as int),
    }
}

/// The output budget of a free generation (see `raw_budget`).
pub fn generate_raw_budget(requested: Option<u32>, setting: u32) -> (r: u32)
    ensures
        r as int == raw_budget(requested, setting),
{
    match requested {
        Some(v) => if v < 1 {
            1
        } else if v > GENERATE_RAW_MAX_TOKENS_LIMIT {
            GENERATE_RAW_MAX_TOKENS_LIMIT
        } else {
            v
        },
        None => if setting < GENERATE_RAW_MIN_TOKENS {
            GENERATE_RAW_MIN_TOKENS
        } else if setting > GENERATE_RAW_MAX_TOKENS_LIMIT {
            GENERATE_RAW_MAX_TOKENS_LIMIT
        } else {
            setting
        },
    }
}

/// The output budget of a free generation is never below 1 nor above 131072,
/// and is at least 8192 where the caller names none.
pub proof fn law_raw_budget_range(requested: Option<u32>, setting: u32)
    ensures
        1 <= raw_budget(requested, setting) <= GENERATE_RAW_MAX_TOKENS_LIMIT,
        requested is None ==> raw_budget(requested, setting) >= GENERATE_RAW_MIN_TOKENS,
        requested matches Some(v) ==> (1 <= v <= GENERATE_RAW_MAX_TOKENS_LIMIT ==> raw_budget(requested, setting) == v),
{
}

/// The finish reason as the spec functions take it.
pub open spec fn opt_view(s: Option<&str>) -> Option<Seq<char>> {
    match s {
        Some(f) => Some(f@),
        None => None,
    }
}

/// The characters of an optional string.
pub open spec fn text_opt(s: Option<String>) -> Option<Seq<char>> {
    match s {
        Some(t) => Some(t@),
        None => None,
    }
}

/// The budget of a retry after a truncated free generation: doubled and
/// capped at 32768, only after a `length` finish, at most twice.
pub fn generate_raw_heal_budget(finish_reason: Option<&str>, used: u32, rounds: u32) -> (r: Option<u32>)
    ensures
        r == heal_budget(opt_view(finish_reason), used, rounds, GENERATE_RAW_RETRY_MAX_TOKENS, GENERATE_RAW_MAX_HEAL_ROUNDS),
{
    truncation_heal_budget(finish_reason, used, rounds, GENERATE_RAW_RETRY_MAX_TOKENS, GENERATE_RAW_MAX_HEAL_ROUNDS)
}

/// The number of UTF-8 bytes of a string's characters.
pub open spec fn byte_len(s: Seq<char>) -> nat {
    vstd::utf8::encode_utf8(s).len()
}

/// Whether a role may stand in a free generation.
pub open spec fn raw_role_ok(role: Seq<char>) -> bool {
    role == "system"@ || role == "user"@ || role == "assistant"@
}

/// The first message from position `i` on with a refused role or a content
/// over 64 KiB: the message of that refusal.
pub open spec fn raw_message_error_from(msgs: Seq<GenerateRawMessage>, i: int) -> Option<Seq<char>>
    decreases msgs.len() - i,
{
    if i < 0 || i >= msgs.len() {
        None
    } else if !raw_role_ok(msgs[i].role@) {
        Some("role 仅支持 system/user/assistant"@)
    } else if byte_len(msgs[i].content@) > RAW_MAX_MSG_LEN {
        Some("单条消息过长(上限 64KB)"@)
    } else {
        raw_message_error_from(msgs, i + 1)
    }
}

/// The number of bytes over all contents.
pub open spec fn raw_total(msgs: Seq<GenerateRawMessage>) -> nat
    decreases msgs.len(),
{
    if msgs.len() == 0 {
        0
    } else {
        raw_total(msgs.drop_last()) + byte_len(msgs.last().content@)
    }
}

/// Why a free generation request is refused, checked in this order: no
/// messages, more than 200, a refused role or an over-long message (the
/// first in order), more than 256 KiB in all, an explicit budget of 0.
pub open spec fn raw_request_error(msgs: Seq<GenerateRawMessage>, max_tokens: Option<u32>) -> Option<Seq<char>> {
    if msgs.len() == 0 {
        Some("messages 不能为空"@)
    } else if msgs.len() > RAW_MAX_MESSAGES {
        Some("messages 过多(上限 200)"@)
    } else if raw_message_error_from(msgs, 0) is Some {
        raw_message_error_from(msgs, 0)
    } else if raw_total(msgs) > RAW_MAX_TOTAL_LEN {
        Some("消息总长超限(256KB)"@)
    } else if max_tokens == Some(0u32) {
        Some("max_tokens 非法:必须 ≥ 1,或省略以使用默认预算"@)
    } else {
        None
    }
}

fn is_raw_role(role: &String) -> (r: bool)
    ensures
        r == raw_role_ok(role@),
{
    let c = chars_of(role.as_str());
    crate::json::eq_chars(&c, &lit("system")) || crate::json::eq_chars(&c, &lit("user"))
        || crate::json::eq_chars(&c, &lit("assistant"))
}

/// Checks a free generation request; a refusal is a 400 with its message.
pub fn check_raw_request(messages: &[GenerateRawMessage], max_tokens: Option<u32>) -> (r: Result<(), ErrorReply>)
    ensures
        match r {
            Ok(()) => raw_request_error(messages@, max_tokens) is None,
            Err(e) => raw_request_error(messages@, max_tokens) == Some(e.error@) && e.status == 400
                && e.code == ErrorCode::Validation,
        },
{
    if messages.len() == 0 {
        return Err(err_status("messages 不能为空", 400));
    }
    if messages.len() > RAW_MAX_MESSAGES {
        return Err(err_status("messages 过多(上限 200)", 400));
    }
    let mut total: usize = 0;
    for i in 0..messages.len()
        invariant
            messages@.len() <= RAW_MAX_MESSAGES,
            raw_message_error_from(messages@, 0) == raw_message_error_from(messages@, i as int),
            total as int == raw_total(messages@.take(i as int)),
            total <= i * RAW_MAX_MSG_LEN,
    {
        let m = &messages[i];
        if !is_raw_role(&m.role) {
            return Err(err_status("role 仅支持 system/user/assistant", 400));
        }
        let n = m.content.as_str().as_bytes().len();
        if n > RAW_MAX_MSG_LEN {
            return Err(err_status("单条消息过长(上限 64KB)", 400));
        }
        assert(messages@.take(i + 1).drop_last() =~= messages@.take(i as int));
        assert(messages@.take(i + 1).last() == messages@[i as int]);
        total = total + n;
    }
    assert(messages@.take(messages@.len() as int) =~= messages@);
    if total > RAW_MAX_TOTAL_LEN {
        return Err(err_status("消息总长超限(256KB)", 400));
    }
    if max_tokens == Some(0u32) {
        return Err(err_status("max_tokens 非法:必须 ≥ 1,或省略以使用默认预算", 400));
    }
    Ok(())
}

/// The text of a reply: its token chunks, concatenated in order.
pub open spec fn token_text(cs: Seq<ChunkModel>) -> Seq<char>
    decreases cs.len(),
{
    if cs.len() == 0 {
        seq![]
    } else {
        token_text(cs.drop_last()) + match cs.last() {
            ChunkModel::Token(t) => t,
            _ => seq![],
        }
    }
}

/// The reason of the last finish chunk of a reply, if any.
pub open spec fn last_finish(cs: Seq<ChunkModel>) -> Option<Seq<char>>
    decreases cs.len(),
{
    if cs.len() == 0 {
        None
    } else {
        match cs.last() {
            ChunkModel::Finish(r) => Some(r),
            _ => last_finish(cs.drop_last()),
        }
    }
}

/// The text of a reply and the reason of its last finish.
pub fn reply_text(chunks: &Vec<LlmStreamChunk>) -> (r: (String, Option<String>))
    ensures
        r.0@ == token_text(chunks_view(chunks@)),
        match r.1 {
            Some(f) => last_finish(chunks_view(chunks@)) == Some(f@),
            None => last_finish(chunks_view(chunks@)) is None,
        },
{
    let ghost cv = chunks_view(chunks@);
    let mut text: Vec<char> = Vec::new();
    let mut finish: Option<String> = None;
    for k in 0..chunks.len()
        invariant
            cv == chunks_view(chunks@),
            text@ == token_text(cv.take(k as int)),
            match finish {
                Some(f) => last_finish(cv.take(k as int)) == Some(f@),
                None => last_finish(cv.take(k as int)) is None,
            },
    {
        assert(cv.take(k + 1).drop_last() =~= cv.take(k as int));
        assert(cv.take(k + 1).last() == chunks@[k as int]@);
        match &chunks[k] {
            LlmStreamChunk::Token(t) => {
                crate::text::append_chars(&mut text, &chars_of(t.as_str()));
            },
            LlmStreamChunk::Finish { reason } => {
                finish = Some(reason.clone());
            },
            _ => {},
        }
    }
    assert(cv.take(chunks@.len() as int) =~= cv);
    (string_of(&text), finish)
}

/// The retry state of a free generation: the budget of the next attempt,
/// the retries made, and the text of the last truncated attempt.
#[derive(Debug)]
pub struct RawAttempts {
    pub budget: u32,
    pub heal_rounds: u32,
    pub last_text: Option<String>,
}

/// What follows an attempt of a free generation.
#[derive(Debug)]
pub enum RawNext {
    /// Send again with this state.
    Retry(RawAttempts),
    /// Answer with this text.
    Done(String),
    /// Answer with an upstream error.
    Fail,
}

/// The first attempt of a free generation with the given budget.
pub fn raw_attempts(budget: u32) -> (r: RawAttempts)
    ensures
        r.budget == budget,
        r.heal_rounds == 0,
        r.last_text is None,
{
    RawAttempts { budget, heal_rounds: 0, last_text: None }
}

/// The step after an attempt: a failed attempt answers with the last
/// truncated text when there is one and fails otherwise; a reply is
/// retried with the heal budget when there is one (keeping its text),
/// and answered with otherwise.
pub fn raw_after_attempt(state: RawAttempts, outcome: Result<Vec<LlmStreamChunk>, LlmError>) -> (r: RawNext)
    ensures
        match outcome {
            Err(_) => match state.last_text {
                Some(prev) => r matches RawNext::Done(t) && t@ == prev@,
                None => r is Fail,
            },
            Ok(chunks) => match heal_budget(
                last_finish(chunks_view(chunks@)),
                state.budget,
                state.heal_rounds,
                GENERATE_RAW_RETRY_MAX_TOKENS,
                GENERATE_RAW_MAX_HEAL_ROUNDS,
            ) {
                Some(next) => r matches RawNext::Retry(s) && {
                    &&& s.budget == next
                    &&& s.heal_rounds == state.heal_rounds + 1
                    &&& (s.last_text matches Some(t) && t@ == token_text(chunks_view(chunks@)))
                },
                None => r matches RawNext::Done(t) && t@ == token_text(chunks_view(chunks@)),
            },
        },
{
    match outcome {
        Err(_) => match state.last_text {
            Some(prev) => RawNext::Done(prev),
            None => RawNext::Fail,
        },
        Ok(chunks) => {
            let (text, finish) = reply_text(&chunks);
            let f: Option<&str> = match &finish {
                Some(s) => Some(s.as_str()),
                None => None,
            };
            match generate_raw_heal_budget(f, state.budget, state.heal_rounds) {
                Some(next) => {
                    assert(state.heal_rounds < GENERATE_RAW_MAX_HEAL_ROUNDS);
                    RawNext::Retry(RawAttempts { budget: next, heal_rounds: state.heal_rounds + 1, last_text: Some(text) })
                },
                None => RawNext::Done(text),
            }
        },
    }
}

/// A 400 reply with code `VALIDATION` and this message.
pub open spec fn bad_request(e: ErrorReply, msg: Seq<char>) -> bool {
    e.status == 400 && e.code == ErrorCode::Validation && e.error@ == msg
}

/// A 409 reply with code `CONFLICT` and this message.
pub open spec fn conflict_reply(e: ErrorReply, msg: Seq<char>) -> bool {
    e.status == 409 && e.code == ErrorCode::Conflict && e.error@ == msg
}

/// The characters of an optional string (none for an absent one).
pub open spec fn text_or_empty(s: Option<String>) -> Seq<char> {
    match s {
        Some(t) => t@,
        None => seq![],
    }
}

/// The message of a send request: the body's message, trimmed; a missing or
/// blank message is refused.
pub fn send_message(message: Option<String>) -> (r: Result<String, ErrorReply>)
    ensures
        match r {
            Ok(m) => m@ == trim(text_or_empty(message)) && m@.len() > 0,
            Err(e) => trim(text_or_empty(message)).len() == 0 && bad_request(e, "消息不能为空"@),
        },
{
    let raw = match &message {
        Some(m) => chars_of(m.as_str()),
        None => Vec::new(),
    };
    let t = trim_chars(&raw);
    if t.len() == 0 {
        Err(err_status("消息不能为空", 400))
    } else {
        Ok(string_of(&t))
    }
}

/// Where a send request goes: a named session, or the first session of a character.
#[derive(Debug)]
pub enum SessionTarget {
    Session(String),
    Character(String),
}

/// The session a send request names, else its character; with neither it is refused.
pub fn send_target(session_id: Option<String>, character_id: Option<String>) -> (r: Result<SessionTarget, ErrorReply>)
    ensures
        match session_id {
            Some(s) => r matches Ok(SessionTarget::Session(x)) && x@ == s@,
            None => match character_id {
                Some(c) => r matches Ok(SessionTarget::Character(x)) && x@ == c@,
                None => r matches Err(e) && bad_request(e, "缺少 session_id 或 character_id"@),
            },
        },
{
    match session_id {
        Some(s) => Ok(SessionTarget::Session(s)),
        None => match character_id {
            Some(c) => Ok(SessionTarget::Character(c)),
            None => Err(err_status("缺少 session_id 或 character_id", 400)),
        },
    }
}

/// The run mode a request names: `agent`, `deep` or `custom`, else `fast`.
pub open spec fn run_mode_of(mode: Option<Seq<char>>) -> Seq<char> {
    match mode {
        Some(m) => if m == "agent"@ || m == "deep"@ || m == "custom"@ {
            m
        } else {
            "fast"@
        },
        None => "fast"@,
    }
}

/// The run mode of a request (see `run_mode_of`).
pub fn run_mode(agent_mode: Option<&str>) -> (r: &'static str)
    ensures
        r@ == run_mode_of(opt_view(agent_mode)),
{
    match agent_mode {
        Some(m) => {
            let c = chars_of(m);
            if crate::json::eq_chars(&c, &lit("agent")) {
                "agent"
            } else if crate::json::eq_chars(&c, &lit("deep")) {
                "deep"
            } else if crate::json::eq_chars(&c, &lit("custom")) {
                "custom"
            } else {
                "fast"
            }
        },
        None => "fast",
    }
}

/// Whether a turn's budget and context window are within the safety limits:
/// an output budget in `[1, 65536]` and, when set, a context in `[1, 1048576]`.
pub open spec fn limits_ok(max_tokens: u32, max_context_tokens: Option<u32>) -> bool {
    &&& 1 <= max_tokens <= MAX_GENERATION_TOKENS
    &&& match max_context_tokens {
        Some(v) => 1 <= v <= MAX_CONTEXT_TOKENS,
        None => true,
    }
}

/// Checks a turn's generation limits; beyond them the request is refused.
pub fn check_generation_limits(max_tokens: u32, max_context_tokens: Option<u32>) -> (r: Result<(), ErrorReply>)
    ensures
        match r {
            Ok(()) => limits_ok(max_tokens, max_context_tokens),
            Err(e) => !limits_ok(max_tokens, max_context_tokens) && bad_request(e, "生成参数超出安全上限"@),
        },
{
    let context_bad = match max_context_tokens {
        Some(v) => v == 0 || v > MAX_CONTEXT_TOKENS,
        None => false,
    };
    if max_tokens == 0 || max_tokens > MAX_GENERATION_TOKENS || context_bad {
        Err(err_status("生成参数超出安全上限", 400))
    } else {
        Ok(())
    }
}

/// The last message of a session, as an anchor check reads it.
#[derive(Debug)]
pub struct LastMessage {
    pub id: i64,
    pub role: String,
    pub content: String,
}

/// How a send request writes the user's message.
#[derive(Debug)]
pub enum MessageWrite {
    /// A new version of this assistant message; no user message is written.
    Regenerate(i64),
    /// The generation reuses this user message; none is written.
    Resend(i64),
    /// A new user message is written.
    Append,
}

/// Whether the session's last message is the given anchor.
pub open spec fn anchor_is(last: Option<LastMessage>, id: i64, role: Seq<char>) -> bool {
    last matches Some(m) && m.id == id && m.role@ == role
}

/// Checks the anchors of a send request. A regeneration anchor must be the
/// session's last message and an assistant message, and excludes a resend
/// anchor; a resend anchor must be the last message, a user message with the
/// request's text.
pub fn message_write(regenerate: Option<i64>, resend: Option<i64>, last: Option<LastMessage>, message: &str) -> (r: Result<MessageWrite, ErrorReply>)
    ensures
        match regenerate {
            Some(id) => if resend is Some {
                r matches Err(e) && bad_request(e, "重生成与重发锚点互斥,不能同时指定"@)
            } else if anchor_is(last, id, "assistant"@) {
                r matches Ok(MessageWrite::Regenerate(x)) && x == id
            } else {
                r matches Err(e) && conflict_reply(e, "重生成锚点无效或已过期"@)
            },
            None => match resend {
                Some(id) => if anchor_is(last, id, "user"@) && last->Some_0.content@ == message@ {
                    r matches Ok(MessageWrite::Resend(x)) && x == id
                } else {
                    r matches Err(e) && conflict_reply(e, "重发消息锚点无效或已过期"@)
                },
                None => r matches Ok(MessageWrite::Append),
            },
        },
{
    match regenerate {
        Some(id) => {
            if resend.is_some() {
                return Err(err_status("重生成与重发锚点互斥,不能同时指定", 400));
            }
            let valid = match &last {
                Some(m) => m.id == id && crate::json::eq_chars(&chars_of(m.role.as_str()), &lit("assistant")),
                None => false,
            };
            if valid {
                Ok(MessageWrite::Regenerate(id))
            } else {
                Err(err_status("重生成锚点无效或已过期", 409))
            }
        },
        None => match resend {
            Some(id) => {
                let valid = match &last {
                    Some(m) => m.id == id && crate::json::eq_chars(&chars_of(m.role.as_str()), &lit("user"))
                        && crate::json::eq_chars(&chars_of(m.content.as_str()), &chars_of(message)),
                    None => false,
                };
                if valid {
                    Ok(MessageWrite::Resend(id))
                } else {
                    Err(err_status("重发消息锚点无效或已过期", 409))
                }
            },
            None => Ok(MessageWrite::Append),
        },
    }
}

/// The custom flow a send request in `custom` mode would run, as the flow
/// library reports it: whether one is selected, whether it is enabled with at
/// least one step, and why it is invalid, if it is.
#[derive(Debug)]
pub struct FlowFacts {
    pub selected: bool,
    pub enabled_with_steps: bool,
    pub invalid: Option<String>,
}

/// What a send request that passes its checks asks for: the trimmed message,
/// where it goes, the run mode and how the user's message is written.
#[derive(Debug)]
pub struct SendPlan {
    pub message: String,
    pub target: SessionTarget,
    pub mode: &'static str,
    pub write: MessageWrite,
}

/// The first check a send request fails, as its status and message, in the
/// order the endpoint checks: a blank message (400); neither a session nor a
/// character (400); an unknown session (404); a session already generating
/// (409); in `custom` mode, no flow selected, a flow not enabled or without
/// steps, an invalid flow (400 each); generation limits beyond the safety
/// caps (400); then the anchors (see `message_write`). None when all pass.
pub open spec fn send_failure(
    message: Option<String>,
    session_id: Option<String>,
    character_id: Option<String>,
    mode: Seq<char>,
    session_found: bool,
    generating: bool,
    flow: FlowFacts,
    max_tokens: u32,
    max_context_tokens: Option<u32>,
    regenerate: Option<i64>,
    resend: Option<i64>,
    last: Option<LastMessage>,
) -> Option<(u16, Seq<char>)> {
    let msg = trim(text_or_empty(message));
    if msg.len() == 0 {
        Some((400, "消息不能为空"@))
    } else if session_id is None && character_id is None {
        Some((400, "缺少 session_id 或 character_id"@))
    } else if !session_found {
        Some((404, "会话不存在"@))
    } else if generating {
        Some((409, "该会话正在生成中"@))
    } else if mode == "custom"@ && !flow.selected {
        Some((400, "未选择执行流程:请先在设置中新建或选择一个 Agent 执行流程"@))
    } else if mode == "custom"@ && !flow.enabled_with_steps {
        Some((400, "自定义模式需要先在设置中启用并保存执行流程"@))
    } else if mode == "custom"@ && flow.invalid is Some {
        Some((400, "执行流程配置无效:"@ + flow.invalid->Some_0@))
    } else if !limits_ok(max_tokens, max_context_tokens) {
        Some((400, "生成参数超出安全上限"@))
    } else {
        match regenerate {
            Some(id) => if resend is Some {
                Some((400, "重生成与重发锚点互斥,不能同时指定"@))
            } else if anchor_is(last, id, "assistant"@) {
                None
            } else {
                Some((409, "重生成锚点无效或已过期"@))
            },
            None => match resend {
                Some(id) => if anchor_is(last, id, "user"@) && last->Some_0.content@ == msg {
                    None
                } else {
                    Some((409, "重发消息锚点无效或已过期"@))
                },
                None => None,
            },
        }
    }
}

/// The target a send request names: its session, else its character.
pub open spec fn target_named(t: SessionTarget, session_id: Option<String>, character_id: Option<String>) -> bool {
    match session_id {
        Some(s) => t matches SessionTarget::Session(x) && x@ == s@,
        None => character_id matches Some(c) && (t matches SessionTarget::Character(x) && x@ == c@),
    }
}

/// How the user's message is written: a regeneration, a resend, or a new message.
pub open spec fn write_named(w: MessageWrite, regenerate: Option<i64>, resend: Option<i64>) -> bool {
    match regenerate {
        Some(id) => w == MessageWrite::Regenerate(id),
        None => match resend {
            Some(id) => w == MessageWrite::Resend(id),
            None => w == MessageWrite::Append,
        },
    }
}

/// The checks of a send request, in the endpoint's order (see
/// `send_failure`), over what the stores report: whether the session exists
/// (for a character, the session found or made for it), whether it is
/// generating, the custom flow, the turn's limits and the session's last
/// message. The first failing check decides the reply; when all pass, the
/// plan carries the trimmed message, the target, the mode and the write.
pub fn send_checks(
    message: Option<String>,
    session_id: Option<String>,
    character_id: Option<String>,
    agent_mode: Option<&str>,
    session_found: bool,
    generating: bool,
    flow: &FlowFacts,
    max_tokens: u32,
    max_context_tokens: Option<u32>,
    regenerate: Option<i64>,
    resend: Option<i64>,
    last: Option<LastMessage>,
) -> (r: Result<SendPlan, ErrorReply>)
    ensures
        ({
            let f = send_failure(
                message,
                session_id,
                character_id,
                run_mode_of(opt_view(agent_mode)),
                session_found,
                generating,
                *flow,
                max_tokens,
                max_context_tokens,
                regenerate,
                resend,
                last,
            );
            match r {
                Ok(plan) => {
                    &&& f is None
                    &&& plan.message@ == trim(text_or_empty(message))
                    &&& target_named(plan.target, session_id, character_id)
                    &&& plan.mode@ == run_mode_of(opt_view(agent_mode))
                    &&& write_named(plan.write, regenerate, resend)
                },
                Err(e) => f matches Some((st, m)) && e.status == st && e.error@ == m && e.code == status_code(st),
            }
        }),
{
    let ghost mode_v = run_mode_of(opt_view(agent_mode));
    let message = match send_message(message) {
        Ok(m) => m,
        Err(e) => {
            return Err(e);
        },
    };
    let target = match send_target(session_id, character_id) {
        Ok(t) => t,
        Err(e) => {
            return Err(e);
        },
    };
    if !session_found {
        return Err(err_status("会话不存在", 404));
    }
    if generating {
        return Err(err_status("该会话正在生成中", 409));
    }
    let mode = run_mode(agent_mode);
    proof {
        reveal_strlit("custom");
    }
    let custom = crate::json::eq_chars(&chars_of(mode), &lit("custom"));
    assert(custom == (mode_v == "custom"@));
    if custom {
        if !flow.selected {
            return Err(err_status("未选择执行流程:请先在设置中新建或选择一个 Agent 执行流程", 400));
        }
        if !flow.enabled_with_steps {
            return Err(err_status("自定义模式需要先在设置中启用并保存执行流程", 400));
        }
        match &flow.invalid {
            Some(why) => {
                let mut text = lit("执行流程配置无效:");
                crate::text::append_chars(&mut text, &chars_of(why.as_str()));
                let s = string_of(&text);
                return Err(err_status(s.as_str(), 400));
            },
            None => {},
        }
    }
    match check_generation_limits(max_tokens, max_context_tokens) {
        Ok(()) => {},
        Err(e) => {
            return Err(e);
        },
    }
    let write = match message_write(regenerate, resend, last, message.as_str()) {
        Ok(w) => w,
        Err(e) => {
            return Err(e);
        },
    };
    Ok(SendPlan { message, target, mode, write })
}

/// The session of a stop or compaction request; a missing or blank one is refused.
pub fn required_session_id(session_id: Option<String>) -> (r: Result<String, ErrorReply>)
    ensures
        match session_id {
            Some(s) => if trim(s@).len() > 0 {
                r matches Ok(x) && x@ == s@
            } else {
                r matches Err(e) && bad_request(e, "缺少 session_id"@)
            },
            None => r matches Err(e) && bad_request(e, "缺少 session_id"@),
        },
{
    match session_id {
        Some(s) => {
            if trim_chars(&chars_of(s.as_str())).len() == 0 {
                Err(err_status("缺少 session_id", 400))
            } else {
                Ok(s)
            }
        },
        None => Err(err_status("缺少 session_id", 400)),
    }
}

/// The most world-book entries injected into a free generation.
pub const MAX_INJECT: usize = 40;

/// The most bytes of entry text injected into a free generation.
pub const MAX_INJECT_BYTES: usize = 131072;

/// A message as role and content.
pub open spec fn raw_msg(m: GenerateRawMessage) -> (Seq<char>, Seq<char>) {
    (m.role@, m.content@)
}

/// Messages as roles and contents.
pub open spec fn raw_msgs(ms: Seq<GenerateRawMessage>) -> Seq<(Seq<char>, Seq<char>)> {
    ms.map_values(|m: GenerateRawMessage| raw_msg(m))
}

/// The text of an injected entry: `[title]` on a line of its own before the
/// content, or the content alone for an untitled entry.
pub open spec fn entry_text(comment: Seq<char>, content: Seq<char>) -> Seq<char> {
    if comment.len() > 0 {
        "["@ + comment + "]\n"@ + content
    } else {
        content
    }
}

/// What the injection has gathered: the titles of the injected entries, the
/// system messages of constant and of triggered entries, and the bytes left.
#[verifier::ext_equal]
pub struct InjectState {
    pub injected: Seq<Seq<char>>,
    pub constants: Seq<(Seq<char>, Seq<char>)>,
    pub triggered: Seq<(Seq<char>, Seq<char>)>,
    pub budget: int,
}

/// One entry's part: an enabled entry, while fewer than 40 are injected,
/// that is constant or fires, whose trimmed content is not empty and fits
/// in the bytes left, adds its message and title.
pub open spec fn inject_step(st: InjectState, e: WorldEntry, texts: Seq<Seq<char>>, roll: u32) -> InjectState {
    let c = trim(e.content@);
    if !e.enabled || st.injected.len() >= MAX_INJECT {
        st
    } else if !(e.constant || triggered_hits(e, texts, roll)) {
        st
    } else if c.len() == 0 || byte_len(c) > st.budget {
        st
    } else {
        let msg = ("system"@, entry_text(e.comment@, c));
        InjectState {
            injected: st.injected.push(e.comment@),
            constants: if e.constant { st.constants.push(msg) } else { st.constants },
            triggered: if e.constant { st.triggered } else { st.triggered.push(msg) },
            budget: st.budget - byte_len(c),
        }
    }
}

/// The entries' parts, in order.
pub open spec fn inject_fold(es: Seq<WorldEntry>, texts: Seq<Seq<char>>, roll: u32) -> InjectState
    decreases es.len(),
{
    if es.len() == 0 {
        InjectState { injected: seq![], constants: seq![], triggered: seq![], budget: MAX_INJECT_BYTES as int }
    } else {
        inject_step(inject_fold(es.drop_last(), texts, roll), es.last(), texts, roll)
    }
}

/// The position of the last user message among the first `k`, or the length when there is none.
pub open spec fn user_pos_before(ms: Seq<(Seq<char>, Seq<char>)>, k: int) -> int
    decreases k,
{
    if k <= 0 {
        ms.len() as int
    } else if ms[k - 1].0 == "user"@ {
        k - 1
    } else {
        user_pos_before(ms, k - 1)
    }
}

/// The messages after injection: constant entries first, triggered entries
/// right before the last user message (at the end when there is none).
pub open spec fn injected_messages(ms: Seq<(Seq<char>, Seq<char>)>, st: InjectState) -> Seq<(Seq<char>, Seq<char>)> {
    let pos = user_pos_before(ms, ms.len() as int);
    st.constants + ms.take(pos) + st.triggered + ms.skip(pos)
}

proof fn lemma_user_pos(ms: Seq<(Seq<char>, Seq<char>)>, k: int)
    requires
        0 <= k <= ms.len(),
    ensures
        0 <= user_pos_before(ms, k) <= ms.len(),
    decreases k,
{
    if k > 0 && ms[k - 1].0 != "user"@ {
        lemma_user_pos(ms, k - 1);
    }
}

fn entry_text_chars(comment: &String, content: &Vec<char>) -> (r: Vec<char>)
    ensures
        r@ == entry_text(comment@, content@),
{
    let c = chars_of(comment.as_str());
    if c.len() > 0 {
        let mut out = lit("[");
        crate::text::append_chars(&mut out, &c);
        crate::text::append_chars(&mut out, &lit("]\n"));
        crate::text::append_chars(&mut out, content);
        assert(out@ =~= entry_text(comment@, content@));
        out
    } else {
        crate::json::copy_of(content)
    }
}

/// The titles injected and the messages after injection, for chance roll `roll`.
pub open spec fn inject_result(entries: Seq<WorldEntry>, ms: Seq<GenerateRawMessage>, roll: u32) -> (Seq<Seq<char>>, Seq<(Seq<char>, Seq<char>)>) {
    let texts = ms.map_values(|m: GenerateRawMessage| m.content@);
    let st = inject_fold(entries, texts, roll);
    (st.injected, injected_messages(raw_msgs(ms), st))
}

fn last_user_position(messages: &Vec<GenerateRawMessage>) -> (r: usize)
    ensures
        r as int == user_pos_before(raw_msgs(messages@), messages@.len() as int),
        r <= messages@.len(),
{
    let ghost ms = raw_msgs(messages@);
    let mut j = messages.len();
    while j > 0
        invariant
            j <= messages@.len(),
            ms == raw_msgs(messages@),
            user_pos_before(ms, ms.len() as int) == user_pos_before(ms, j as int),
        decreases j,
    {
        assert(ms[j - 1].0 == messages@[j - 1].role@);
        if crate::json::eq_chars(&chars_of(messages[j - 1].role.as_str()), &lit("user")) {
            return j - 1;
        }
        j = j - 1;
    }
    messages.len()
}

/// Injects world-book entries into a free generation with chance roll `roll`
/// (see `inject_fold` and `injected_messages`); returns the injected titles.
pub fn inject_worldbook_with_roll(entries: &[WorldEntry], messages: &mut Vec<GenerateRawMessage>, roll: u32) -> (r: Vec<String>)
    ensures
        inject_result(entries@, old(messages)@, roll) == (r@.map_values(|s: String| s@), raw_msgs(final(messages)@)),
{
    let ghost orig = messages@;
    let ghost tv = orig.map_values(|m: GenerateRawMessage| m.content@);
    let mut all: Vec<Vec<char>> = Vec::new();
    for j in 0..messages.len()
        invariant
            messages@ == orig,
            all@.len() == j,
            forall|i: int| 0 <= i < j ==> (#[trigger] all@[i])@ == orig[i].content@,
    {
        all.push(chars_of(messages[j].content.as_str()));
    }
    assert(all@.map_values(|t: Vec<char>| t@) =~= tv);
    let scan = scan_texts(&all);
    let mut injected: Vec<String> = Vec::new();
    let mut constants: Vec<GenerateRawMessage> = Vec::new();
    let mut triggered: Vec<GenerateRawMessage> = Vec::new();
    let mut budget: usize = MAX_INJECT_BYTES;
    for k in 0..entries.len()
        invariant
            messages@ == orig,
            tv == orig.map_values(|m: GenerateRawMessage| m.content@),
            all@.map_values(|t: Vec<char>| t@) == tv,
            scan.plain@.len() == all@.len(),
            scan.lower@.len() == all@.len(),
            forall|j: int| 0 <= j < all@.len() ==> (#[trigger] scan.plain@[j])@ == all@[j]@,
            forall|j: int| 0 <= j < all@.len() ==> (#[trigger] scan.lower@[j])@ == lowercase(all@[j]@),
            ({
                let st = inject_fold(entries@.take(k as int), tv, roll);
                &&& injected@.map_values(|s: String| s@) == st.injected
                &&& raw_msgs(constants@) == st.constants
                &&& raw_msgs(triggered@) == st.triggered
                &&& budget as int == st.budget
            }),
    {
        let ghost before = inject_fold(entries@.take(k as int), tv, roll);
        assert(entries@.take(k + 1).drop_last() =~= entries@.take(k as int));
        assert(entries@.take(k + 1).last() == entries@[k as int]);
        let e = &entries[k];
        if e.enabled && injected.len() < MAX_INJECT {
            let hit = e.constant || entry_hits(e, &scan, &all, roll);
            if hit {
                let c = trim_chars(&chars_of(e.content.as_str()));
                let cs = string_of(&c);
                let n = cs.as_str().as_bytes().len();
                if c.len() > 0 && n <= budget {
                    budget = budget - n;
                    let msg = GenerateRawMessage { role: "system".to_owned(), content: string_of(&entry_text_chars(&e.comment, &c)) };
                    if e.constant {
                        constants.push(msg);
                    } else {
                        triggered.push(msg);
                    }
                    injected.push(e.comment.clone());
                    assert(raw_msgs(constants@) =~= inject_fold(entries@.take(k + 1), tv, roll).constants);
                    assert(raw_msgs(triggered@) =~= inject_fold(entries@.take(k + 1), tv, roll).triggered);
                    assert(injected@.map_values(|s: String| s@) =~= inject_fold(entries@.take(k + 1), tv, roll).injected);
                }
            }
        }
    }
    assert(entries@.take(entries@.len() as int) =~= entries@);
    let ghost st = inject_fold(entries@, tv, roll);
    let ghost ms = raw_msgs(orig);
    let pos = last_user_position(messages);
    assert(pos as int == user_pos_before(ms, ms.len() as int));
    let mut out: Vec<GenerateRawMessage> = constants;
    let mut rest: Vec<GenerateRawMessage> = Vec::new();
    std::mem::swap(&mut rest, messages);
    let mut idx: usize = 0;
    let mut head: Vec<GenerateRawMessage> = Vec::new();
    while idx < pos
        invariant
            idx <= pos <= orig.len(),
            rest@ == orig.skip(idx as int),
            head@.len() == idx,
            forall|i: int| 0 <= i < idx ==> raw_msg(#[trigger] head@[i]) == ms[i],
            ms == raw_msgs(orig),
        decreases pos - idx,
    {
        let m = rest.remove(0);
        assert(m == orig[idx as int]);
        assert(raw_msg(m) == ms[idx as int]);
        head.push(m);
        idx = idx + 1;
        assert(rest@ =~= orig.skip(idx as int));
    }
    assert(raw_msgs(head@) =~= ms.take(pos as int));
    out.append(&mut head);
    out.append(&mut triggered);
    out.append(&mut rest);
    assert(raw_msgs(out@) =~= injected_messages(ms, st));
    *messages = out;
    injected
}

/// A chance roll in `0..100`: the clock's sub-second nanoseconds modulo 100.
fn world_entry_roll() -> (r: u32)
    ensures
        r < 100,
{
    crate::utils::clock::clock_subsec_nanos() % 100
}

/// Injects the world-book entries that apply into a free generation, with a
/// chance roll taken from the clock; returns the injected titles. What holds
/// for every roll is stated by `inject_worldbook_with_roll`.
pub fn inject_worldbook_for_raw(entries: &[WorldEntry], messages: &mut Vec<GenerateRawMessage>) -> (r: Vec<String>)
    ensures
        exists|roll: u32|
            roll < 100 && #[trigger] inject_result(entries@, old(messages)@, roll) == (
                r@.map_values(|s: String| s@),
                raw_msgs(final(messages)@),
            ),
{
    let roll = world_entry_roll();
    inject_worldbook_with_roll(entries, messages, roll)
}

/// Whether every message of `ms` is a system message.
pub open spec fn all_system(ms: Seq<(Seq<char>, Seq<char>)>) -> bool {
    forall|i: int| 0 <= i < ms.len() ==> (#[trigger] ms[i]).0 == "system"@
}

proof fn lemma_inject_fold_shape(es: Seq<WorldEntry>, texts: Seq<Seq<char>>, roll: u32)
    ensures
        ({
            let st = inject_fold(es, texts, roll);
            &&& st.injected.len() == st.constants.len() + st.triggered.len()
            &&& st.injected.len() <= MAX_INJECT
            &&& 0 <= st.budget <= MAX_INJECT_BYTES
            &&& all_system(st.constants)
            &&& all_system(st.triggered)
        }),
    decreases es.len(),
{
    if es.len() > 0 {
        lemma_inject_fold_shape(es.drop_last(), texts, roll);
    }
}

/// Injection only adds: at most 40 entries, together at most 128 KiB of
/// content, each as a system message; the messages of the request all stay,
/// in their order, with the constant entries before them and the triggered
/// ones right before the last user message (at the end when there is none).
pub proof fn law_inject_only_adds(entries: Seq<WorldEntry>, ms: Seq<GenerateRawMessage>, roll: u32)
    ensures
        ({
            let texts = ms.map_values(|m: GenerateRawMessage| m.content@);
            let st = inject_fold(entries, texts, roll);
            let (titles, out) = inject_result(entries, ms, roll);
            let orig = raw_msgs(ms);
            let pos = user_pos_before(orig, orig.len() as int);
            &&& titles.len() <= MAX_INJECT
            &&& 0 <= st.budget
            &&& out.len() == orig.len() + titles.len()
            &&& 0 <= pos <= orig.len()
            &&& (pos < orig.len() ==> orig[pos].0 == "user"@)
            &&& out == st.constants + orig.take(pos) + st.triggered + orig.skip(pos)
            &&& orig.take(pos) + orig.skip(pos) == orig
            &&& all_system(st.constants)
            &&& all_system(st.triggered)
        }),
{
    let texts = ms.map_values(|m: GenerateRawMessage| m.content@);
    lemma_inject_fold_shape(entries, texts, roll);
    let orig = raw_msgs(ms);
    lemma_user_pos_is_user(orig, orig.len() as int);
    lemma_user_pos(orig, orig.len() as int);
    let pos = user_pos_before(orig, orig.len() as int);
    assert(orig.take(pos) + orig.skip(pos) =~= orig);
}

proof fn lemma_user_pos_is_user(ms: Seq<(Seq<char>, Seq<char>)>, k: int)
    requires
        0 <= k <= ms.len(),
    ensures
        user_pos_before(ms, k) < ms.len() ==> ms[user_pos_before(ms, k)].0 == "user"@,
    decreases k,
{
    if k > 0 && ms[k - 1].0 != "user"@ {
        lemma_user_pos_is_user(ms, k - 1);
    }
}

/// Where no entry is injected the request goes out exactly as it came.
pub proof fn law_inject_nothing_keeps_messages(entries: Seq<WorldEntry>, ms: Seq<GenerateRawMessage>, roll: u32)
    ensures
        inject_result(entries, ms, roll).0.len() == 0 ==> inject_result(entries, ms, roll).1 == raw_msgs(ms),
{
    law_inject_only_adds(entries, ms, roll);
    let texts = ms.map_values(|m: GenerateRawMessage| m.content@);
    let st = inject_fold(entries, texts, roll);
    if st.injected.len() == 0 {
        let orig = raw_msgs(ms);
        let pos = user_pos_before(orig, orig.len() as int);
        assert(st.constants =~= Seq::<(Seq<char>, Seq<char>)>::empty());
        assert(st.triggered =~= Seq::<(Seq<char>, Seq<char>)>::empty());
        assert(st.constants + orig.take(pos) + st.triggered + orig.skip(pos) =~= orig);
    }
}

/// The entries that injection takes, in order.
pub open spec fn chosen_entries(es: Seq<WorldEntry>, texts: Seq<Seq<char>>, roll: u32) -> Seq<WorldEntry>
    decreases es.len(),
{
    if es.len() == 0 {
        seq![]
    } else {
        let before = inject_fold(es.drop_last(), texts, roll);
        let after = inject_step(before, es.last(), texts, roll);
        let prev = chosen_entries(es.drop_last(), texts, roll);
        if after.injected.len() > before.injected.len() {
            prev.push(es.last())
        } else {
            prev
        }
    }
}

/// The bytes of the trimmed contents of entries, together.
pub open spec fn content_bytes(es: Seq<WorldEntry>) -> int
    decreases es.len(),
{
    if es.len() == 0 {
        0
    } else {
        content_bytes(es.drop_last()) + byte_len(trim(es.last().content@))
    }
}

/// Injection takes only enabled entries with content that is not blank, each
/// constant or fired, and titles them in the order taken; their trimmed
/// contents together take at most 128 KiB, exactly what is gone from the
/// byte budget.
pub proof fn law_inject_takes_enabled_within_bytes(entries: Seq<WorldEntry>, texts: Seq<Seq<char>>, roll: u32)
    ensures
        ({
            let st = inject_fold(entries, texts, roll);
            let ch = chosen_entries(entries, texts, roll);
            &&& ch.len() == st.injected.len()
            &&& forall|i: int| 0 <= i < ch.len() ==> st.injected[i] == (#[trigger] ch[i]).comment@
            &&& forall|i: int| 0 <= i < ch.len() ==> (#[trigger] ch[i]).enabled && trim(ch[i].content@).len() > 0
            &&& forall|i: int| 0 <= i < ch.len() ==> (#[trigger] ch[i]).constant || triggered_hits(ch[i], texts, roll)
            &&& content_bytes(ch) + st.budget == MAX_INJECT_BYTES
            &&& content_bytes(ch) <= MAX_INJECT_BYTES
        }),
    decreases entries.len(),
{
    lemma_inject_fold_shape(entries, texts, roll);
    if entries.len() > 0 {
        let init = entries.drop_last();
        law_inject_takes_enabled_within_bytes(init, texts, roll);
        let before = inject_fold(init, texts, roll);
        let after = inject_step(before, entries.last(), texts, roll);
        let prev = chosen_entries(init, texts, roll);
        if after.injected.len() > before.injected.len() {
            let ch = prev.push(entries.last());
            assert(ch.drop_last() =~= prev);
            assert forall|i: int| 0 <= i < ch.len() implies after.injected[i] == (#[trigger] ch[i]).comment@ by {
                if i < prev.len() {
                    assert(ch[i] == prev[i]);
                }
            }
        }
    }
}

/// The system message of an injected entry.
pub open spec fn entry_message(e: WorldEntry) -> (Seq<char>, Seq<char>) {
    ("system"@, entry_text(e.comment@, trim(e.content@)))
}

/// The messages of the entries that are (or are not) constant, in order.
pub open spec fn messages_where(ch: Seq<WorldEntry>, constant: bool) -> Seq<(Seq<char>, Seq<char>)>
    decreases ch.len(),
{
    if ch.len() == 0 {
        seq![]
    } else {
        let prev = messages_where(ch.drop_last(), constant);
        if ch.last().constant == constant {
            prev.push(entry_message(ch.last()))
        } else {
            prev
        }
    }
}

/// The injected messages carry exactly the taken entries' texts: the
/// constant ones' messages, in order, are the messages put first, and the
/// others' messages, in order, are those put before the last user message;
/// each reads `[title]` and the trimmed content (the content alone when
/// untitled).
pub proof fn law_inject_messages_are_chosen_texts(entries: Seq<WorldEntry>, texts: Seq<Seq<char>>, roll: u32)
    ensures
        ({
            let st = inject_fold(entries, texts, roll);
            let ch = chosen_entries(entries, texts, roll);
            &&& st.constants == messages_where(ch, true)
            &&& st.triggered == messages_where(ch, false)
        }),
    decreases entries.len(),
{
    if entries.len() > 0 {
        let init = entries.drop_last();
        law_inject_messages_are_chosen_texts(init, texts, roll);
        let before = inject_fold(init, texts, roll);
        let after = inject_step(before, entries.last(), texts, roll);
        let prev = chosen_entries(init, texts, roll);
        if after.injected.len() > before.injected.len() {
            let ch = prev.push(entries.last());
            assert(ch.drop_last() =~= prev);
        }
    }
}

} // verus!
