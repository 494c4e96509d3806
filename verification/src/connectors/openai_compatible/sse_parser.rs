//! Incremental parser of an OpenAI-compatible server-sent-event stream:
//! splits the byte stream into events, reads the `data:` payload of each,
//! turns content, reasoning, usage and finish reasons into stream chunks,
//! gathers tool-call deltas by index and checks them when they are flushed.
use vstd::prelude::*;
use crate::json::{
    array_of, as_array, as_i64, as_str, as_u64, i64_of, json_parse, member, member_of, obj_get,
    opt_val, parse_json, pointer_step, step, str_of, u64_of, Json,
};
use crate::llm::{
    chunks_view, CallModel, ChunkModel, ErrorModel, LlmError, LlmErrorKind, LlmStreamChunk,
    ToolCallArgs, UsageCounts,
};
use crate::text::{
    append_chars, blank, chars_of, contains, contains_chars, decimal, decimal_chars,
    decode_utf8_chars, find, find_bytes_from, is_blank, lemma_find_extend, lemma_find_from, lemma_occurs_prefix, lit, lowercase,
    lowercase_chars, slice_bytes, slice_chars, starts_with, starts_with_chars, string_of, take_chars, trim,
    trim_chars, trim_start, trim_start_chars, utf8_error_text,
};

verus! {

broadcast use vstd::string::group_string_axioms;

/// Non-JSON `data` events tolerated in a row before the stream is declared broken.
pub const MAX_BAD_JSON_EVENTS: usize = 20;

// ---------------------------------------------------------------------------
// Event boundaries
// ---------------------------------------------------------------------------

/// The end of the first complete event in `buf` and the length of its
/// separator: the earlier of the first `\n\n` and the first `\r\n\r\n`
/// (the blank-line form when both start at the same place).
pub open spec fn event_end(buf: Seq<u8>) -> Option<(int, int)> {
    let lf = find(buf, seq![10u8, 10u8]);
    let crlf = find(buf, seq![13u8, 10u8, 13u8, 10u8]);
    match (lf, crlf) {
        (Some(a), Some(b)) => Some(if a <= b { (a, 2int) } else { (b, 4int) }),
        (Some(a), None) => Some((a, 2int)),
        (None, Some(b)) => Some((b, 4int)),
        (None, None) => None,
    }
}

/// Where the first complete event of `buffer` ends, and its separator length.
pub fn find_event_end(buffer: &[u8]) -> (r: Option<(usize, usize)>)
    ensures
        match r {
            Some((e, s)) => event_end(buffer@) == Some((e as int, s as int)),
            None => event_end(buffer@) is None,
        },
{
    let lf_pat: [u8; 2] = [10u8, 10u8];
    let crlf_pat: [u8; 4] = [13u8, 10u8, 13u8, 10u8];
    assert(lf_pat@ =~= seq![10u8, 10u8]);
    assert(crlf_pat@ =~= seq![13u8, 10u8, 13u8, 10u8]);
    let lf = find_bytes_from(buffer, lf_pat.as_slice(), 0);
    let crlf = find_bytes_from(buffer, crlf_pat.as_slice(), 0);
    match (lf, crlf) {
        (Some(a), Some(b)) => Some(if a <= b { (a, 2) } else { (b, 4) }),
        (Some(a), None) => Some((a, 2)),
        (None, Some(b)) => Some((b, 4)),
        (None, None) => None,
    }
}

proof fn lemma_event_end_bounds(buf: Seq<u8>)
    ensures
        event_end(buf) matches Some((e, s)) ==> 0 <= e && (s == 2 || s == 4) && e + s <= buf.len(),
{
    lemma_find_from(buf, seq![10u8, 10u8], 0);
    lemma_find_from(buf, seq![13u8, 10u8, 13u8, 10u8], 0);
}

// ---------------------------------------------------------------------------
// The data payload of an event
// ---------------------------------------------------------------------------

/// The pieces of `t` cut after each `\n` (the pieces of `split_inclusive('\n')`).
pub open spec fn pieces(t: Seq<char>) -> Seq<Seq<char>>
    decreases t.len(),
{
    if t.len() == 0 {
        seq![]
    } else {
        let p = pieces(t.drop_last());
        let c = t.last();
        if p.len() == 0 || p.last().len() == 0 || p.last().last() == '\n' {
            p.push(seq![c])
        } else {
            p.update(p.len() - 1, p.last().push(c))
        }
    }
}

/// `s` without one trailing `\r`.
pub open spec fn strip_cr(s: Seq<char>) -> Seq<char> {
    if s.len() > 0 && s.last() == '\r' {
        s.drop_last()
    } else {
        s
    }
}

/// The line a piece stands for: `str::lines` drops the `\n` and the `\r`
/// before it, and the parser then drops one more trailing `\r`.
pub open spec fn line_of(piece: Seq<char>) -> Seq<char> {
    if piece.len() > 0 && piece.last() == '\n' {
        strip_cr(strip_cr(piece.drop_last()))
    } else {
        strip_cr(piece)
    }
}

/// The payload that a `data:` line carries (without leading white space).
pub open spec fn data_of(line: Seq<char>) -> Option<Seq<char>> {
    if starts_with(line, "data:"@) {
        Some(trim_start(line.skip(5)))
    } else {
        None
    }
}

/// Adds one piece to a (payload, any-data-line-yet) pair: data lines are
/// joined with `\n`.
pub open spec fn payload_add(st: (Seq<char>, bool), piece: Seq<char>) -> (Seq<char>, bool) {
    match data_of(line_of(piece)) {
        Some(x) => (if st.1 { st.0 + seq!['\n'] + x } else { x }, true),
        None => st,
    }
}

/// The joined data payload of a sequence of pieces.
pub open spec fn payload_of(ps: Seq<Seq<char>>) -> (Seq<char>, bool)
    decreases ps.len(),
{
    if ps.len() == 0 {
        (seq![], false)
    } else {
        payload_add(payload_of(ps.drop_last()), ps.last())
    }
}

/// The data payload of an event's text: its `data:` lines, each without the
/// prefix and leading white space, joined with `\n`.
pub open spec fn data_payload(text: Seq<char>) -> Seq<char> {
    payload_of(pieces(text)).0
}

/// Adds the line of one piece to the payload being built.
fn add_piece(acc: &mut Vec<char>, any: &mut bool, piece: &Vec<char>)
    ensures
        (final(acc)@, *final(any)) == payload_add((old(acc)@, *old(any)), piece@),
{
    let n = piece.len();
    let mut end = n;
    if end > 0 && piece[end - 1] == '\n' {
        end = end - 1;
        if end > 0 && piece[end - 1] == '\r' {
            end = end - 1;
        }
        if end > 0 && piece[end - 1] == '\r' {
            end = end - 1;
        }
    } else if end > 0 && piece[end - 1] == '\r' {
        end = end - 1;
    }
    let line = slice_chars(piece, 0, end);
    assert(line@ =~= line_of(piece@)) by {
        if piece@.len() > 0 && piece@.last() == '\n' {
            let a = piece@.drop_last();
            assert(a =~= piece@.subrange(0, n - 1));
            if a.len() > 0 && a.last() == '\r' {
                let b = a.drop_last();
                assert(b =~= piece@.subrange(0, n - 2));
            }
        }
    }
    let prefix = lit("data:");
    if starts_with_chars(&line, &prefix) {
        assert(prefix@.len() == 5) by {
            reveal_strlit("data:");
        }
        let rest = slice_chars(&line, 5, line.len());
        assert(rest@ =~= line@.skip(5));
        let x = trim_start_chars(&rest);
        if *any {
            acc.push('\n');
            append_chars(acc, &x);
        } else {
            *acc = x;
        }
        *any = true;
    }
}

/// The data payload of an event's text.
pub fn event_payload(text: &Vec<char>) -> (r: Vec<char>)
    ensures
        r@ == data_payload(text@),
{
    let mut acc: Vec<char> = Vec::new();
    let mut any = false;
    let mut cur: Vec<char> = Vec::new();
    let ghost mut done_pieces: Seq<Seq<char>> = seq![];
    let mut i: usize = 0;
    while i < text.len()
        invariant
            i <= text.len(),
            pieces(text@.take(i as int)) == done_pieces + if cur@.len() == 0 {
                Seq::<Seq<char>>::empty()
            } else {
                seq![cur@]
            },
            forall|j: int|
                0 <= j < done_pieces.len() ==> (#[trigger] done_pieces[j]).len() > 0
                    && done_pieces[j].last() == '\n',
            cur@.len() > 0 ==> cur@.last() != '\n',
            (acc@, any) == payload_of(done_pieces),
        decreases text.len() - i,
    {
        let c = text[i];
        let ghost t1 = text@.take(i + 1);
        assert(t1.drop_last() =~= text@.take(i as int));
        assert(t1.last() == c);
        if c == '\n' {
            cur.push('\n');
            let ghost q = cur@;
            add_piece(&mut acc, &mut any, &cur);
            proof {
                let old_cur = q.drop_last();
                let p = pieces(text@.take(i as int));
                if old_cur.len() == 0 {
                    assert(q =~= seq!['\n']);
                } else {
                    assert(p.last() == old_cur);
                    assert(p.update(p.len() - 1, p.last().push(c)) =~= done_pieces.push(q));
                }
                assert(done_pieces.push(q).drop_last() =~= done_pieces);
                done_pieces = done_pieces.push(q);
                assert(pieces(t1) =~= done_pieces + Seq::<Seq<char>>::empty());
            }
            cur = Vec::new();
        } else {
            let ghost old_cur = cur@;
            cur.push(c);
            proof {
                let p = pieces(text@.take(i as int));
                if old_cur.len() == 0 {
                    assert(p =~= done_pieces);
                    assert(cur@ =~= seq![c]);
                    assert(pieces(t1) =~= done_pieces + seq![cur@]);
                } else {
                    assert(p.last() == old_cur);
                    assert(pieces(t1) =~= done_pieces + seq![cur@]);
                }
            }
        }
        i = i + 1;
    }
    assert(text@.take(text@.len() as int) =~= text@);
    if cur.len() > 0 {
        let ghost q = cur@;
        add_piece(&mut acc, &mut any, &cur);
        proof {
            let ps = done_pieces + seq![q];
            assert(ps.drop_last() =~= done_pieces);
            assert(ps.last() == q);
        }
    } else {
        assert(done_pieces + Seq::<Seq<char>>::empty() =~= done_pieces);
    }
    acc
}

} // verus!

verus! {

// ---------------------------------------------------------------------------
// Usage counters and upstream error objects
// ---------------------------------------------------------------------------

/// A count that is 0 when absent.
pub open spec fn or_zero(o: Option<i64>) -> i64 {
    match o {
        Some(x) => x,
        None => 0,
    }
}

/// The integer member `k` of `u` (0 when absent or not an integer).
pub open spec fn count_at(u: Json, k: Seq<char>) -> i64 {
    or_zero(as_i64(member_of(Some(u), k)))
}

/// The integer at `/a/b` in `u` (0 when absent or not an integer).
pub open spec fn count_at2(u: Json, a: Seq<char>, b: Seq<char>) -> i64 {
    or_zero(as_i64(pointer_step(pointer_step(Some(u), a), b)))
}

/// The counters of an OpenAI-compatible usage object. Cache hits and misses
/// come from DeepSeek's `prompt_cache_hit_tokens` / `prompt_cache_miss_tokens`
/// when either is positive; otherwise from OpenAI's
/// `prompt_tokens_details.cached_tokens` (the miss then being the rest of the
/// prompt, at least 0); otherwise both are 0.
pub open spec fn usage_of(u: Json) -> UsageCounts {
    let prompt = count_at(u, "prompt_tokens"@);
    let hit = count_at(u, "prompt_cache_hit_tokens"@);
    let miss = count_at(u, "prompt_cache_miss_tokens"@);
    let cached = count_at2(u, "prompt_tokens_details"@, "cached_tokens"@);
    let (h, m) = if hit > 0 || miss > 0 {
        (hit, miss)
    } else if cached > 0 {
        (cached, if prompt - cached > 0 { (prompt - cached) as i64 } else { 0i64 })
    } else {
        (0i64, 0i64)
    };
    UsageCounts {
        prompt_tokens: prompt,
        completion_tokens: count_at(u, "completion_tokens"@),
        total_tokens: count_at(u, "total_tokens"@),
        prompt_cache_hit_tokens: h,
        prompt_cache_miss_tokens: m,
        reasoning_tokens: count_at2(u, "completion_tokens_details"@, "reasoning_tokens"@),
    }
}

fn count_member(u: &Json, k: &str) -> (r: i64)
    ensures
        r == count_at(*u, k@),
{
    match i64_of(member(Some(u), &lit(k))) {
        Some(x) => x,
        None => 0,
    }
}

fn count_member2(u: &Json, a: &str, b: &str) -> (r: i64)
    ensures
        r == count_at2(*u, a@, b@),
{
    match i64_of(step(step(Some(u), &lit(a)), &lit(b))) {
        Some(x) => x,
        None => 0,
    }
}

/// Reads an OpenAI-compatible usage object as (prompt, completion, total,
/// cache hit, cache miss, reasoning) token counts.
pub fn parse_usage(u: &Json) -> (r: (i64, i64, i64, i64, i64, i64))
    ensures
        r == (
            usage_of(*u).prompt_tokens,
            usage_of(*u).completion_tokens,
            usage_of(*u).total_tokens,
            usage_of(*u).prompt_cache_hit_tokens,
            usage_of(*u).prompt_cache_miss_tokens,
            usage_of(*u).reasoning_tokens,
        ),
{
    let prompt_tokens = count_member(u, "prompt_tokens");
    let completion_tokens = count_member(u, "completion_tokens");
    let total_tokens = count_member(u, "total_tokens");
    let reasoning_tokens = count_member2(u, "completion_tokens_details", "reasoning_tokens");
    let deepseek_hit = count_member(u, "prompt_cache_hit_tokens");
    let deepseek_miss = count_member(u, "prompt_cache_miss_tokens");
    let openai_cached = count_member2(u, "prompt_tokens_details", "cached_tokens");
    let (hit, miss) = if deepseek_hit > 0 || deepseek_miss > 0 {
        (deepseek_hit, deepseek_miss)
    } else if openai_cached > 0 {
        let d: i128 = prompt_tokens as i128 - openai_cached as i128;
        (openai_cached, if d > 0 { d as i64 } else { 0 })
    } else {
        (0, 0)
    };
    (prompt_tokens, completion_tokens, total_tokens, hit, miss, reasoning_tokens)
}

/// The `type` and `code` strings of an error object, joined by a space.
pub open spec fn error_hint_raw(err: Json) -> Seq<char> {
    let t = as_str(member_of(Some(err), "type"@));
    let c = as_str(member_of(Some(err), "code"@));
    match (t, c) {
        (Some(a), Some(b)) => a + " "@ + b,
        (Some(a), None) => a,
        (None, Some(b)) => b,
        (None, None) => seq![],
    }
}

/// The class of an in-stream upstream error object, read from its enumerated
/// `type` / `code` fields (lower-cased): timeout, then rate limit, then
/// authentication, else a retryable upstream failure.
pub open spec fn classify_error(err: Json) -> LlmErrorKind {
    let hint = lowercase(error_hint_raw(err));
    if contains(hint, "timeout"@) {
        LlmErrorKind::Timeout
    } else if contains(hint, "rate_limit"@) || contains(hint, "too_many_requests"@) {
        LlmErrorKind::RateLimited
    } else if contains(hint, "authentication"@) || contains(hint, "permission"@) || contains(
        hint,
        "unauthorized"@,
    ) || contains(hint, "invalid_api_key"@) {
        LlmErrorKind::AuthFailed
    } else {
        LlmErrorKind::Upstream
    }
}

/// An in-stream error is classed by the lower-cased words of its `type` and
/// `code` strings (joined by a space when both are there): a timeout whenever
/// they mention `timeout`; otherwise rate-limited when they mention
/// `rate_limit` or `too_many_requests`; otherwise an authentication failure
/// when they mention `authentication`, `permission`, `unauthorized` or
/// `invalid_api_key`; otherwise a retryable upstream failure.
pub proof fn law_error_classes(err: Json)
    ensures
        ({
            let t = as_str(member_of(Some(err), "type"@));
            let c = as_str(member_of(Some(err), "code"@));
            let words = if t is Some && c is Some {
                t->Some_0 + " "@ + c->Some_0
            } else if t is Some {
                t->Some_0
            } else if c is Some {
                c->Some_0
            } else {
                seq![]
            };
            let h = lowercase(words);
            let timeout = contains(h, "timeout"@);
            let rate = contains(h, "rate_limit"@) || contains(h, "too_many_requests"@);
            let auth = contains(h, "authentication"@) || contains(h, "permission"@) || contains(h, "unauthorized"@)
                || contains(h, "invalid_api_key"@);
            &&& timeout ==> classify_error(err) == LlmErrorKind::Timeout
            &&& !timeout && rate ==> classify_error(err) == LlmErrorKind::RateLimited
            &&& !timeout && !rate && auth ==> classify_error(err) == LlmErrorKind::AuthFailed
            &&& !timeout && !rate && !auth ==> classify_error(err) == LlmErrorKind::Upstream
        }),
{
}

/// Classifies an in-stream upstream error object.
pub fn classify_upstream_error_object(err: &Json) -> (r: LlmErrorKind)
    ensures
        r == classify_error(*err),
{
    let t = str_of(member(Some(err), &lit("type")));
    let c = str_of(member(Some(err), &lit("code")));
    let mut joined: Vec<char> = Vec::new();
    match t {
        Some(a) => {
            append_chars(&mut joined, a);
            match c {
                Some(b) => {
                    append_chars(&mut joined, &lit(" "));
                    append_chars(&mut joined, b);
                },
                None => {},
            }
        },
        None => match c {
            Some(b) => {
                append_chars(&mut joined, b);
            },
            None => {},
        },
    }
    assert(joined@ =~= error_hint_raw(*err));
    let hint = lowercase_chars(&joined);
    if contains_chars(&hint, &lit("timeout")) {
        LlmErrorKind::Timeout
    } else if contains_chars(&hint, &lit("rate_limit")) || contains_chars(
        &hint,
        &lit("too_many_requests"),
    ) {
        LlmErrorKind::RateLimited
    } else if contains_chars(&hint, &lit("authentication")) || contains_chars(
        &hint,
        &lit("permission"),
    ) || contains_chars(&hint, &lit("unauthorized")) || contains_chars(
        &hint,
        &lit("invalid_api_key"),
    ) {
        LlmErrorKind::AuthFailed
    } else {
        LlmErrorKind::Upstream
    }
}

/// The message of an in-stream error object: its `message` (or a fixed
/// text), prefixed with its `type` when that is present and not empty.
pub open spec fn error_object_text(err: Json) -> Seq<char> {
    let message = match as_str(member_of(Some(err), "message"@)) {
        Some(m) => m,
        None => "未知上游错误"@,
    };
    let t = match as_str(member_of(Some(err), "type"@)) {
        Some(x) => x,
        None => seq![],
    };
    if t.len() == 0 {
        "上游返回错误: "@ + message
    } else {
        "上游返回错误 ["@ + t + "]: "@ + message
    }
}

fn error_object_message(err: &Json) -> (r: Vec<char>)
    ensures
        r@ == error_object_text(*err),
{
    let message = match str_of(member(Some(err), &lit("message"))) {
        Some(m) => slice_chars(m, 0, m.len()),
        None => lit("未知上游错误"),
    };
    let t = match str_of(member(Some(err), &lit("type"))) {
        Some(x) => slice_chars(x, 0, x.len()),
        None => Vec::new(),
    };
    assert(message@ =~= match as_str(member_of(Some(*err), "message"@)) {
        Some(m) => m,
        None => "未知上游错误"@,
    });
    if t.len() == 0 {
        let mut out = lit("上游返回错误: ");
        append_chars(&mut out, &message);
        out
    } else {
        let mut out = lit("上游返回错误 [");
        append_chars(&mut out, &t);
        append_chars(&mut out, &lit("]: "));
        append_chars(&mut out, &message);
        out
    }
}

} // verus!

verus! {

// ---------------------------------------------------------------------------
// Pending tool calls
// ---------------------------------------------------------------------------

/// The view of the pending tool calls, keyed by their stream index.
pub open spec fn pview(v: Seq<(u64, ToolCallArgs)>) -> Seq<(u64, CallModel)> {
    v.map_values(|e: (u64, ToolCallArgs)| (e.0, e.1@))
}

/// Pending calls are kept in strictly increasing index order (one per index).
pub open spec fn sorted(p: Seq<(u64, CallModel)>) -> bool {
    forall|i: int, j: int| 0 <= i < j < p.len() ==> p[i].0 < p[j].0
}

/// The first position at or after `i` whose index is not below `idx`.
pub open spec fn lb_from(p: Seq<(u64, CallModel)>, idx: u64, i: int) -> int
    decreases p.len() - i,
{
    if i < 0 || i >= p.len() {
        i
    } else if p[i].0 < idx {
        lb_from(p, idx, i + 1)
    } else {
        i
    }
}

proof fn lemma_lb(p: Seq<(u64, CallModel)>, idx: u64, i: int)
    requires
        0 <= i <= p.len(),
    ensures
        i <= lb_from(p, idx, i) <= p.len(),
        forall|k: int| i <= k < lb_from(p, idx, i) ==> p[k].0 < idx,
        lb_from(p, idx, i) < p.len() ==> p[lb_from(p, idx, i)].0 >= idx,
    decreases p.len() - i,
{
    if i < p.len() && p[i].0 < idx {
        lemma_lb(p, idx, i + 1);
    }
}

/// The stream index of a tool-call delta (0 when absent).
pub open spec fn call_index(call: Json) -> u64 {
    match as_u64(member_of(Some(call), "index"@)) {
        Some(i) => i,
        None => 0,
    }
}

/// A call first seen at index `idx`: id `call_<idx>`, no name, no arguments.
pub open spec fn fresh_call(idx: u64) -> CallModel {
    CallModel { id: "call_"@ + decimal(idx as nat), name: seq![], arguments: seq![] }
}

/// A delta applied to a call: a non-empty `id` or `function.name` replaces
/// the old one, `function.arguments` is appended.
pub open spec fn apply_delta(base: CallModel, call: Json) -> CallModel {
    let fun = pointer_step(Some(call), "function"@);
    let id = match as_str(member_of(Some(call), "id"@)) {
        Some(s) => if s.len() > 0 { s } else { base.id },
        None => base.id,
    };
    let name = match as_str(pointer_step(fun, "name"@)) {
        Some(s) => if s.len() > 0 { s } else { base.name },
        None => base.name,
    };
    let arguments = match as_str(pointer_step(fun, "arguments"@)) {
        Some(a) => base.arguments + a,
        None => base.arguments,
    };
    CallModel { id, name, arguments }
}

/// One tool-call delta merged into the pending calls (updating the call of
/// its index, or adding one in index order).
pub open spec fn merge_one(p: Seq<(u64, CallModel)>, call: Json) -> Seq<(u64, CallModel)> {
    let idx = call_index(call);
    let pos = lb_from(p, idx, 0);
    if pos < p.len() && p[pos].0 == idx {
        p.update(pos, (idx, apply_delta(p[pos].1, call)))
    } else {
        p.insert(pos, (idx, apply_delta(fresh_call(idx), call)))
    }
}

/// The deltas of one event merged in order.
pub open spec fn merge_all(p: Seq<(u64, CallModel)>, calls: Seq<Json>) -> Seq<(u64, CallModel)>
    decreases calls.len(),
{
    if calls.len() == 0 {
        p
    } else {
        merge_one(merge_all(p, calls.drop_last()), calls.last())
    }
}

fn string_clone(s: &String) -> (r: String)
    ensures
        r@ == s@,
{
    s.clone()
}

/// Merges one tool-call delta into the pending calls.
fn merge_call(pending: &mut Vec<(u64, ToolCallArgs)>, call: &Json)
    requires
        sorted(pview(old(pending)@)),
    ensures
        pview(final(pending)@) == merge_one(pview(old(pending)@), *call),
        sorted(pview(final(pending)@)),
{
    let ghost p0 = pview(pending@);
    let index = match u64_of(member(Some(call), &lit("index"))) {
        Some(i) => i,
        None => 0,
    };
    let mut pos: usize = 0;
    while pos < pending.len() && pending[pos].0 < index
        invariant
            pos <= pending@.len(),
            p0 == pview(pending@),
            lb_from(p0, index, 0) == lb_from(p0, index, pos as int),
        decreases pending.len() - pos,
    {
        pos = pos + 1;
    }
    proof {
        lemma_lb(p0, index, 0);
    }
    let exists = pos < pending.len() && pending[pos].0 == index;
    let mut id: String;
    let mut name: String;
    let mut arguments: String;
    if exists {
        id = string_clone(&pending[pos].1.id);
        name = string_clone(&pending[pos].1.name);
        arguments = string_clone(&pending[pos].1.arguments);
    } else {
        let mut cid = lit("call_");
        append_chars(&mut cid, &decimal_chars(index));
        id = string_of(&cid);
        name = String::new();
        arguments = String::new();
    }
    let ghost base = CallModel { id: id@, name: name@, arguments: arguments@ };
    match str_of(member(Some(call), &lit("id"))) {
        Some(s) => {
            if s.len() > 0 {
                id = string_of(s);
            }
        },
        None => {},
    }
    let fun = step(Some(call), &lit("function"));
    match str_of(step(fun, &lit("name"))) {
        Some(s) => {
            if s.len() > 0 {
                name = string_of(s);
            }
        },
        None => {},
    }
    match str_of(step(fun, &lit("arguments"))) {
        Some(a) => {
            let sa = string_of(a);
            arguments.append(sa.as_str());
        },
        None => {},
    }
    let entry = (index, ToolCallArgs { id, name, arguments });
    proof {
        if exists {
            assert(base == p0[pos as int].1);
        } else {
            assert(base == fresh_call(index));
        }
        assert(entry.1@ == apply_delta(base, *call));
    }
    if exists {
        pending.set(pos, entry);
        assert(pview(pending@) =~= p0.update(pos as int, (index, apply_delta(base, *call))));
    } else {
        pending.insert(pos, entry);
        assert(pview(pending@) =~= p0.insert(pos as int, (index, apply_delta(base, *call))));
    }
}

/// Merges the deltas of one event, in order.
fn merge_calls(pending: &mut Vec<(u64, ToolCallArgs)>, calls: &Vec<Json>)
    requires
        sorted(pview(old(pending)@)),
    ensures
        pview(final(pending)@) == merge_all(pview(old(pending)@), calls@),
        sorted(pview(final(pending)@)),
{
    let ghost p0 = pview(pending@);
    let mut i: usize = 0;
    while i < calls.len()
        invariant
            i <= calls@.len(),
            sorted(pview(pending@)),
            pview(pending@) == merge_all(p0, calls@.take(i as int)),
        decreases calls.len() - i,
    {
        merge_call(pending, &calls[i]);
        proof {
            let t = calls@.take(i + 1);
            assert(t.drop_last() =~= calls@.take(i as int));
        }
        i = i + 1;
    }
    assert(calls@.take(calls@.len() as int) =~= calls@);
}

// ---------------------------------------------------------------------------
// Flushing tool calls
// ---------------------------------------------------------------------------

/// The message of a duplicated tool-call id.
pub open spec fn duplicate_id_text(c: CallModel) -> Seq<char> {
    "上游返回重复工具调用 id:"@ + c.id + " (名称 "@ + c.name + ")"@
}

/// At most the first 200 characters of `s`.
pub open spec fn first200(s: Seq<char>) -> Seq<char> {
    if s.len() <= 200 {
        s
    } else {
        s.take(200)
    }
}

/// The message of tool-call arguments that are not JSON.
pub open spec fn bad_arguments_text(c: CallModel, e: Seq<char>) -> Seq<char> {
    "工具 \""@ + c.name + "\" 的 arguments 不是合法 JSON("@ + e + "): "@ + first200(c.arguments)
}

/// The first integrity failure among the calls from position `i` on, given the
/// ids already seen: a named call whose non-empty id was seen before, or a
/// named call whose non-blank arguments serde_json refuses. Unnamed calls are
/// not checked.
pub open spec fn check_from(calls: Seq<(u64, CallModel)>, i: int, seen: Seq<Seq<char>>) -> Option<
    ErrorModel,
>
    decreases calls.len() - i,
{
    if i < 0 || i >= calls.len() {
        None
    } else {
        let c = calls[i].1;
        if c.name.len() == 0 {
            check_from(calls, i + 1, seen)
        } else if c.id.len() > 0 && seen.contains(c.id) {
            Some(ErrorModel { kind: LlmErrorKind::Generation, message: duplicate_id_text(c) })
        } else {
            let seen2 = if c.id.len() > 0 {
                seen.push(c.id)
            } else {
                seen
            };
            if !blank(c.arguments) && json_parse(c.arguments) is Err {
                Some(
                    ErrorModel {
                        kind: LlmErrorKind::Generation,
                        message: bad_arguments_text(c, json_parse(c.arguments)->Err_0),
                    },
                )
            } else {
                check_from(calls, i + 1, seen2)
            }
        }
    }
}

/// The chunks of the named calls, in order.
pub open spec fn named_chunks(calls: Seq<(u64, CallModel)>) -> Seq<ChunkModel>
    decreases calls.len(),
{
    if calls.len() == 0 {
        seq![]
    } else {
        named_chunks(calls.drop_last()) + if calls.last().1.name.len() > 0 {
            seq![ChunkModel::ToolCall(calls.last().1)]
        } else {
            Seq::<ChunkModel>::empty()
        }
    }
}

/// Flushing the pending calls: their chunks in index order (unnamed ones
/// dropped), or the first integrity failure and no chunk.
pub open spec fn flush_result(p: Seq<(u64, CallModel)>) -> (Seq<ChunkModel>, Option<ErrorModel>) {
    match check_from(p, 0, seq![]) {
        Some(e) => (seq![], Some(e)),
        None => (named_chunks(p), None),
    }
}

/// Appends one chunk.
fn push_chunk(out: &mut Vec<LlmStreamChunk>, c: LlmStreamChunk)
    ensures
        chunks_view(final(out)@) == chunks_view(old(out)@).push(c@),
{
    out.push(c);
    assert(chunks_view(out@) =~= chunks_view(old(out)@).push(c@));
}

/// The views of a vector of character vectors.
pub open spec fn seen_view(v: Seq<Vec<char>>) -> Seq<Seq<char>> {
    v.map_values(|x: Vec<char>| x@)
}

fn seen_contains(seen: &Vec<Vec<char>>, id: &Vec<char>) -> (r: bool)
    ensures
        r == seen_view(seen@).contains(id@),
{
    let mut i: usize = 0;
    while i < seen.len()
        invariant
            i <= seen@.len(),
            forall|k: int| 0 <= k < i ==> seen@[k]@ != id@,
        decreases seen.len() - i,
    {
        if crate::json::eq_chars(&seen[i], id) {
            assert(seen_view(seen@)[i as int] == id@);
            return true;
        }
        i = i + 1;
    }
    assert(!seen_view(seen@).contains(id@)) by {
        if seen_view(seen@).contains(id@) {
            let k = choose|k: int| 0 <= k < seen_view(seen@).len() && seen_view(seen@)[k] == id@;
            assert(seen@[k]@ == id@);
        }
    }
    false
}

/// The first integrity failure among `calls`, if any.
fn check_calls(calls: &Vec<(u64, ToolCallArgs)>) -> (r: Option<LlmError>)
    ensures
        match r {
            Some(e) => check_from(pview(calls@), 0, seq![]) == Some(e@),
            None => check_from(pview(calls@), 0, seq![]) is None,
        },
{
    let ghost cv = pview(calls@);
    let mut seen: Vec<Vec<char>> = Vec::new();
    let mut i: usize = 0;
    assert(seen_view(seen@) =~= Seq::<Seq<char>>::empty());
    while i < calls.len()
        invariant
            i <= calls@.len(),
            cv == pview(calls@),
            check_from(cv, 0, seq![]) == check_from(cv, i as int, seen_view(seen@)),
        decreases calls.len() - i,
    {
        let c = &calls[i].1;
        let name = chars_of(c.name.as_str());
        let id = chars_of(c.id.as_str());
        if name.len() > 0 {
            if id.len() > 0 && seen_contains(&seen, &id) {
                let mut msg = lit("上游返回重复工具调用 id:");
                append_chars(&mut msg, &id);
                append_chars(&mut msg, &lit(" (名称 "));
                append_chars(&mut msg, &name);
                append_chars(&mut msg, &lit(")"));
                return Some(LlmError::generation(string_of(&msg)));
            }
            if id.len() > 0 {
                let ghost before = seen@;
                let ghost idv = id@;
                seen.push(id);
                assert(seen_view(seen@) =~= seen_view(before).push(idv));
            }
            let args = chars_of(c.arguments.as_str());
            if !is_blank(&args) {
                match parse_json(&args) {
                    Err(e) => {
                        let mut msg = lit("工具 \"");
                        append_chars(&mut msg, &name);
                        append_chars(&mut msg, &lit("\" 的 arguments 不是合法 JSON("));
                        append_chars(&mut msg, &chars_of(e.as_str()));
                        append_chars(&mut msg, &lit("): "));
                        append_chars(&mut msg, &take_chars(&args, 200));
                        return Some(LlmError::generation(string_of(&msg)));
                    },
                    Ok(_) => {},
                }
            }
        }
        i = i + 1;
    }
    None
}

} // verus!

verus! {

// ---------------------------------------------------------------------------
// The parser state and one event
// ---------------------------------------------------------------------------

/// The parser's state apart from its byte buffer.
#[verifier::ext_equal]
pub struct Core {
    pub pending: Seq<(u64, CallModel)>,
    pub done: bool,
    pub bad: nat,
}

/// The parser's whole state.
#[verifier::ext_equal]
pub struct ParserModel {
    pub buffer: Seq<u8>,
    pub core: Core,
}

/// What handling one event does: the new state, the chunks it emits (also
/// those emitted before a failure), and the failure if any.
pub struct Step {
    pub core: Core,
    pub out: Seq<ChunkModel>,
    pub err: Option<ErrorModel>,
}

/// One more non-JSON event (the counter stops at the largest `usize`).
pub open spec fn bump(bad: nat) -> nat {
    if bad < usize::MAX {
        bad + 1
    } else {
        bad
    }
}

/// `/choices/0/<key>` of an event.
pub open spec fn choice_at(v: Json, key: Seq<char>) -> Option<Json> {
    pointer_step(pointer_step(pointer_step(Some(v), "choices"@), "0"@), key)
}

/// A text chunk when the string is present and not empty.
pub open spec fn text_chunk(s: Option<Seq<char>>, reasoning: bool) -> Seq<ChunkModel> {
    match s {
        Some(t) => if t.len() > 0 {
            if reasoning {
                seq![ChunkModel::Reasoning(t)]
            } else {
                seq![ChunkModel::Token(t)]
            }
        } else {
            seq![]
        },
        None => seq![],
    }
}

/// The content, reasoning and usage chunks of a JSON event, in that order.
pub open spec fn body_base(v: Json) -> Seq<ChunkModel> {
    let delta = choice_at(v, "delta"@);
    text_chunk(as_str(pointer_step(delta, "content"@)), false) + text_chunk(
        as_str(pointer_step(delta, "reasoning_content"@)),
        true,
    ) + match member_of(Some(v), "usage"@) {
        Some(u) => seq![ChunkModel::Usage(usage_of(u))],
        None => Seq::<ChunkModel>::empty(),
    }
}

/// The pending calls after the tool-call deltas of a JSON event.
pub open spec fn body_pending(p: Seq<(u64, CallModel)>, v: Json) -> Seq<(u64, CallModel)> {
    match as_array(pointer_step(choice_at(v, "delta"@), "tool_calls"@)) {
        Some(calls) => merge_all(p, calls),
        None => p,
    }
}

/// The effect of a finish reason on the pending calls `p1`: a `tool_calls`
/// finish flushes them first; any non-empty reason is emitted as a finish chunk.
pub open spec fn finish_step(done: bool, p1: Seq<(u64, CallModel)>, reason: Option<Seq<char>>) -> Step {
    match reason {
        Some(r) => if r == "tool_calls"@ {
            let (fo, fe) = flush_result(p1);
            let c2 = Core { pending: seq![], done, bad: 0 };
            match fe {
                Some(e) => Step { core: c2, out: seq![], err: Some(e) },
                None => Step { core: c2, out: fo + seq![ChunkModel::Finish(r)], err: None },
            }
        } else {
            Step {
                core: Core { pending: p1, done, bad: 0 },
                out: if r.len() > 0 {
                    seq![ChunkModel::Finish(r)]
                } else {
                    Seq::<ChunkModel>::empty()
                },
                err: None,
            }
        },
        None => Step { core: Core { pending: p1, done, bad: 0 }, out: seq![], err: None },
    }
}

/// A JSON event that is not an error object: content, reasoning, tool-call
/// deltas, usage, then the finish reason.
pub open spec fn body_step(core: Core, v: Json) -> Step {
    let fs = finish_step(
        core.done,
        body_pending(core.pending, v),
        as_str(choice_at(v, "finish_reason"@)),
    );
    Step { core: fs.core, out: body_base(v) + fs.out, err: fs.err }
}

/// Handling a JSON event once parsed: an object with an `error` member fails
/// with that error's class and message; any other value is read by
/// `body_step`.
pub open spec fn json_step(core: Core, v: Json) -> Step {
    match member_of(Some(v), "error"@) {
        Some(e) => Step {
            core,
            out: seq![],
            err: Some(ErrorModel { kind: classify_error(e), message: error_object_text(e) }),
        },
        None => body_step(core, v),
    }
}

/// The message of too many non-JSON events.
pub open spec fn bad_json_text(bad: nat, payload: Seq<char>) -> Seq<char> {
    "上游返回过多非 JSON data 事件("@ + decimal(bad) + " 个),疑似协议损坏: "@ + first200(payload)
}

/// Handling one complete event. Bytes that are not UTF-8 fail; an event
/// without data changes nothing; `[DONE]` marks the stream done and flushes
/// the pending calls; a payload serde_json refuses is counted and fails the
/// stream once `MAX_BAD_JSON_EVENTS` such events came in a row; an object
/// with an `error` member fails with that error's class and message; any
/// other JSON value resets the count and is read by `body_step`.
pub open spec fn event_step(core: Core, event: Seq<u8>) -> Step {
    if !vstd::utf8::valid_utf8(event) {
        Step {
            core,
            out: seq![],
            err: Some(
                ErrorModel {
                    kind: LlmErrorKind::Generation,
                    message: "SSE 响应不是有效 UTF-8: "@ + utf8_error_text(event),
                },
            ),
        }
    } else {
        let payload = data_payload(vstd::utf8::decode_utf8(event));
        if payload.len() == 0 {
            Step { core, out: seq![], err: None }
        } else if trim(payload) == "[DONE]"@ {
            let (fo, fe) = flush_result(core.pending);
            let c2 = Core { pending: seq![], done: true, bad: core.bad };
            match fe {
                Some(e) => Step { core: c2, out: seq![], err: Some(e) },
                None => Step { core: c2, out: fo, err: None },
            }
        } else {
            match json_parse(payload) {
                Err(_) => {
                    let bad = bump(core.bad);
                    let c2 = Core { pending: core.pending, done: core.done, bad };
                    if bad >= MAX_BAD_JSON_EVENTS {
                        Step {
                            core: c2,
                            out: seq![],
                            err: Some(
                                ErrorModel {
                                    kind: LlmErrorKind::Generation,
                                    message: bad_json_text(bad, payload),
                                },
                            ),
                        }
                    } else {
                        Step { core: c2, out: seq![], err: None }
                    }
                },
                Ok(v) => json_step(core, v),
            }
        }
    }
}

/// Handles every complete event at the head of the buffer, in order,
/// stopping at the first failure (the failing event is already consumed).
pub open spec fn drain(m: ParserModel) -> (ParserModel, Seq<ChunkModel>, Option<ErrorModel>)
    decreases m.buffer.len(),
{
    match event_end(m.buffer) {
        Some((e, s)) => if 0 <= e && 0 < s && e + s <= m.buffer.len() {
            let st = event_step(m.core, m.buffer.subrange(0, e));
            let m1 = ParserModel { buffer: m.buffer.subrange(e + s, m.buffer.len() as int), core: st.core };
            if st.err is Some {
                (m1, st.out, st.err)
            } else {
                let r = drain(m1);
                (r.0, st.out + r.1, r.2)
            }
        } else {
            (m, seq![], None)
        },
        None => (m, seq![], None),
    }
}

/// Appending bytes to the buffer and handling every event that completes.
pub open spec fn push_result(m: ParserModel, bytes: Seq<u8>) -> (
    ParserModel,
    Seq<ChunkModel>,
    Option<ErrorModel>,
) {
    drain(ParserModel { buffer: m.buffer + bytes, core: m.core })
}

/// The end of the stream: a non-empty rest of the buffer is handled as a last
/// event, then the pending calls are flushed.
pub open spec fn finish_result(m: ParserModel) -> (ParserModel, Seq<ChunkModel>, Option<ErrorModel>) {
    let st = if m.buffer.len() > 0 {
        event_step(m.core, m.buffer)
    } else {
        Step { core: m.core, out: seq![], err: None }
    };
    if st.err is Some {
        (ParserModel { buffer: seq![], core: st.core }, st.out, st.err)
    } else {
        let (fo, fe) = flush_result(st.core.pending);
        let c2 = Core { pending: seq![], done: st.core.done, bad: st.core.bad };
        (
            ParserModel { buffer: seq![], core: c2 },
            st.out + if fe is Some {
                Seq::<ChunkModel>::empty()
            } else {
                fo
            },
            fe,
        )
    }
}

/// An event boundary already complete in `buf` stays where it is when more
/// bytes arrive.
proof fn lemma_event_end_extend(buf: Seq<u8>, x: Seq<u8>)
    ensures
        event_end(buf) is Some ==> event_end(buf + x) == event_end(buf),
{
    let lf = seq![10u8, 10u8];
    let crlf = seq![13u8, 10u8, 13u8, 10u8];
    lemma_find_extend(buf, x, lf);
    lemma_find_extend(buf, x, crlf);
    lemma_find_from(buf, lf, 0);
    lemma_find_from(buf, crlf, 0);
    lemma_find_from(buf + x, lf, 0);
    lemma_find_from(buf + x, crlf, 0);
    match (find(buf, lf), find(buf, crlf)) {
        (Some(a), None) => {
            if let Some(b) = find(buf + x, crlf) {
                if b < a {
                    if b + 4 <= buf.len() {
                        lemma_occurs_prefix(buf, x, b, crlf);
                    } else {
                        assert((buf + x).subrange(b, b + 4)[2] == crlf[2]);
                        assert(buf.subrange(a, a + 2)[1] == lf[1]);
                        assert((buf + x)[b + 2] == buf[a + 1]);
                    }
                }
            }
        },
        (None, Some(b)) => {
            if let Some(a) = find(buf + x, lf) {
                if a < b {
                    lemma_occurs_prefix(buf, x, a, lf);
                }
            }
        },
        _ => {},
    }
}

/// Draining a buffer that has grown by `x`: the events complete before the
/// growth come out first, then the rest is drained together with `x`.
pub open spec fn drain_then(m: ParserModel, x: Seq<u8>) -> (ParserModel, Seq<ChunkModel>, Option<ErrorModel>) {
    let d1 = drain(m);
    let m1 = ParserModel { buffer: d1.0.buffer + x, core: d1.0.core };
    if d1.2 is Some {
        (m1, d1.1, d1.2)
    } else {
        let d2 = drain(m1);
        (d2.0, d1.1 + d2.1, d2.2)
    }
}

proof fn lemma_drain_append(m: ParserModel, x: Seq<u8>)
    ensures
        drain(ParserModel { buffer: m.buffer + x, core: m.core }) == drain_then(m, x),
    decreases m.buffer.len(),
{
    let big = ParserModel { buffer: m.buffer + x, core: m.core };
    lemma_event_end_bounds(m.buffer);
    lemma_event_end_extend(m.buffer, x);
    match event_end(m.buffer) {
        Some((e, s)) => {
            assert((m.buffer + x).subrange(0, e) =~= m.buffer.subrange(0, e));
            let st = event_step(m.core, m.buffer.subrange(0, e));
            let rest = m.buffer.subrange(e + s, m.buffer.len() as int);
            let m1 = ParserModel { buffer: rest, core: st.core };
            assert((m.buffer + x).subrange(e + s, (m.buffer + x).len() as int) =~= rest + x);
            if st.err is None {
                lemma_drain_append(m1, x);
                let r = drain(m1);
                let d2 = drain(ParserModel { buffer: r.0.buffer + x, core: r.0.core });
                if r.2 is None {
                    assert(st.out + (r.1 + d2.1) =~= (st.out + r.1) + d2.1);
                }
            }
        },
        None => {
            let d2 = drain(big);
            assert(Seq::<ChunkModel>::empty() + d2.1 =~= d2.1);
        },
    }
}

/// A stream may be cut into pieces anywhere: feeding `a` and then `b` gives the
/// chunks, the failure and the parser state that feeding `a + b` at once gives.
/// Where the first piece already fails, feeding both at once fails the same way
/// and keeps the unread bytes of both.
pub proof fn law_push_split(m: ParserModel, a: Seq<u8>, b: Seq<u8>)
    ensures
        ({
            let r1 = push_result(m, a);
            let r2 = push_result(r1.0, b);
            if r1.2 is None {
                push_result(m, a + b) == (r2.0, r1.1 + r2.1, r2.2)
            } else {
                push_result(m, a + b) == (
                    ParserModel { buffer: r1.0.buffer + b, core: r1.0.core },
                    r1.1,
                    r1.2,
                )
            }
        }),
{
    let ma = ParserModel { buffer: m.buffer + a, core: m.core };
    lemma_drain_append(ma, b);
    assert(m.buffer + (a + b) =~= (m.buffer + a) + b);
}

/// The pieces of a stream put back together, in order.
pub open spec fn concat_pieces(ps: Seq<Seq<u8>>) -> Seq<u8>
    decreases ps.len(),
{
    if ps.len() == 0 {
        seq![]
    } else {
        concat_pieces(ps.drop_last()) + ps.last()
    }
}

/// Feeding the pieces one by one, as a caller does that stops at the first
/// failure: the state, every chunk emitted, and the failure if one came.
pub open spec fn push_all(m: ParserModel, ps: Seq<Seq<u8>>) -> (ParserModel, Seq<ChunkModel>, Option<ErrorModel>)
    decreases ps.len(),
{
    if ps.len() == 0 {
        (m, seq![], None)
    } else {
        let r = push_all(m, ps.drop_last());
        if r.2 is Some {
            r
        } else {
            let s = push_result(r.0, ps.last());
            (s.0, r.1 + s.1, s.2)
        }
    }
}

/// A stream may be cut into any number of pieces, anywhere (inside a line
/// separator or a UTF-8 character too): feeding the pieces one by one emits
/// the chunks and the failure that feeding them all at once emits; where no
/// piece fails the parser ends in the same state, so finishing it then gives
/// the same chunks and failure too.
pub proof fn law_push_pieces(m: ParserModel, ps: Seq<Seq<u8>>)
    requires
        ps.len() > 0,
    ensures
        ({
            let whole = push_result(m, concat_pieces(ps));
            let parts = push_all(m, ps);
            &&& whole.1 == parts.1
            &&& whole.2 == parts.2
            &&& parts.2 is None ==> whole.0 == parts.0
            &&& parts.2 is None ==> finish_result(whole.0) == finish_result(parts.0)
        }),
    decreases ps.len(),
{
    let init = ps.drop_last();
    let x = ps.last();
    if init.len() == 0 {
        assert(concat_pieces(ps) =~= x);
        let s = push_result(m, x);
        assert(Seq::<ChunkModel>::empty() + s.1 =~= s.1);
    } else {
        law_push_pieces(m, init);
        law_push_split(m, concat_pieces(init), x);
    }
}

/// The incremental parser of an OpenAI-compatible SSE stream.
pub struct SseParser {
    buffer: Vec<u8>,
    pending_calls: Vec<(u64, ToolCallArgs)>,
    done: bool,
    bad_json_count: usize,
}

impl View for SseParser {
    type V = ParserModel;

    closed spec fn view(&self) -> ParserModel {
        ParserModel {
            buffer: self.buffer@,
            core: Core {
                pending: pview(self.pending_calls@),
                done: self.done,
                bad: self.bad_json_count as nat,
            },
        }
    }
}

/// The state of a parser that has seen nothing.
pub open spec fn initial_model() -> ParserModel {
    ParserModel { buffer: seq![], core: Core { pending: seq![], done: false, bad: 0 } }
}

impl Default for SseParser {
    fn default() -> (r: Self)
        ensures
            r@ == initial_model(),
            r.wf(),
    {
        let r = SseParser {
            buffer: Vec::new(),
            pending_calls: Vec::new(),
            done: false,
            bad_json_count: 0,
        };
        assert(pview(r.pending_calls@) =~= Seq::<(u64, CallModel)>::empty());
        r
    }
}

impl SseParser {
    /// The parser's invariant: pending calls ordered by index, one per index.
    pub closed spec fn wf(&self) -> bool {
        sorted(pview(self.pending_calls@))
    }

    /// Whether `[DONE]` has been seen.
    pub fn is_done(&self) -> (r: bool)
        ensures
            r == self@.core.done,
    {
        self.done
    }

    /// Flushes the pending calls: checks them and emits the named ones in
    /// index order; the pending set is empty afterwards either way.
    fn flush_tool_calls(&mut self, out: &mut Vec<LlmStreamChunk>) -> (r: Result<(), LlmError>)
        requires
            old(self).wf(),
        ensures
            final(self).wf(),
            final(self)@ == (ParserModel {
                buffer: old(self)@.buffer,
                core: Core { pending: seq![], done: old(self)@.core.done, bad: old(self)@.core.bad },
            }),
            chunks_view(final(out)@) == chunks_view(old(out)@) + flush_result(
                old(self)@.core.pending,
            ).0,
            r is Err <==> flush_result(old(self)@.core.pending).1 is Some,
            r matches Err(e) ==> flush_result(old(self)@.core.pending).1 == Some(e@),
    {
        let mut calls: Vec<(u64, ToolCallArgs)> = Vec::new();
        std::mem::swap(&mut calls, &mut self.pending_calls);
        assert(pview(self.pending_calls@) =~= Seq::<(u64, CallModel)>::empty());
        match check_calls(&calls) {
            Some(e) => {
                return Err(e);
            },
            None => {},
        }
        let ghost cv = pview(calls@);
        let ghost out0 = chunks_view(out@);
        let mut i: usize = 0;
        while i < calls.len()
            invariant
                i <= calls@.len(),
                cv == pview(calls@),
                chunks_view(out@) == out0 + named_chunks(cv.take(i as int)),
            decreases calls.len() - i,
        {
            let c = &calls[i].1;
            let name = chars_of(c.name.as_str());
            proof {
                let t = cv.take(i + 1);
                assert(t.drop_last() =~= cv.take(i as int));
                assert(t.last() == cv[i as int]);
            }
            if name.len() > 0 {
                let call = ToolCallArgs {
                    id: string_clone(&c.id),
                    name: string_clone(&c.name),
                    arguments: string_clone(&c.arguments),
                };
                push_chunk(out, LlmStreamChunk::ToolCall(call));
                assert(chunks_view(out@) =~= out0 + named_chunks(cv.take(i + 1)));
            } else {
                assert(named_chunks(cv.take(i + 1)) =~= named_chunks(cv.take(i as int)));
            }
            i = i + 1;
        }
        assert(cv.take(cv.len() as int) =~= cv);
        Ok(())
    }
}

} // verus!

verus! {

impl SseParser {
    /// Emits the content, reasoning and usage chunks of a JSON event.
    fn emit_base(v: &Json, out: &mut Vec<LlmStreamChunk>)
        ensures
            chunks_view(final(out)@) == chunks_view(old(out)@) + body_base(*v),
    {
        let ghost out0 = chunks_view(out@);
        let choice = step(step(Some(v), &lit("choices")), &lit("0"));
        let delta = step(choice, &lit("delta"));
        match str_of(step(delta, &lit("content"))) {
            Some(c) => {
                if c.len() > 0 {
                    push_chunk(out, LlmStreamChunk::Token(string_of(c)));
                }
            },
            None => {},
        }
        let ghost o1 = chunks_view(out@);
        match str_of(step(delta, &lit("reasoning_content"))) {
            Some(c) => {
                if c.len() > 0 {
                    push_chunk(out, LlmStreamChunk::Reasoning(string_of(c)));
                }
            },
            None => {},
        }
        let ghost o2 = chunks_view(out@);
        match member(Some(v), &lit("usage")) {
            Some(u) => {
                let (a, b, c, d, e, f) = parse_usage(u);
                push_chunk(
                    out,
                    LlmStreamChunk::Usage(
                        UsageCounts {
                            prompt_tokens: a,
                            completion_tokens: b,
                            total_tokens: c,
                            prompt_cache_hit_tokens: d,
                            prompt_cache_miss_tokens: e,
                            reasoning_tokens: f,
                        },
                    ),
                );
            },
            None => {},
        }
        proof {
            let delta_s = choice_at(*v, "delta"@);
            let t1 = text_chunk(as_str(pointer_step(delta_s, "content"@)), false);
            let t2 = text_chunk(as_str(pointer_step(delta_s, "reasoning_content"@)), true);
            assert(o1 =~= out0 + t1);
            assert(o2 =~= out0 + t1 + t2);
            assert(chunks_view(out@) =~= out0 + body_base(*v));
        }
    }

    /// Applies a finish reason.
    fn apply_finish(&mut self, reason: Option<&Vec<char>>, out: &mut Vec<LlmStreamChunk>) -> (r: Result<(), LlmError>)
        requires
            old(self).wf(),
            old(self)@.core.bad == 0,
        ensures
            final(self).wf(),
            final(self)@.buffer == old(self)@.buffer,
            final(self)@.core == finish_step(old(self)@.core.done, old(self)@.core.pending, match reason {
                Some(x) => Some(x@),
                None => None,
            }).core,
            chunks_view(final(out)@) == chunks_view(old(out)@) + finish_step(old(self)@.core.done, old(self)@.core.pending, match reason {
                Some(x) => Some(x@),
                None => None,
            }).out,
            r is Err <==> finish_step(old(self)@.core.done, old(self)@.core.pending, match reason {
                Some(x) => Some(x@),
                None => None,
            }).err is Some,
            r matches Err(e) ==> finish_step(old(self)@.core.done, old(self)@.core.pending, match reason {
                Some(x) => Some(x@),
                None => None,
            }).err == Some(e@),
    {
        let ghost out0 = chunks_view(out@);
        match reason {
            Some(reason) => {
                proof {
                    reveal_strlit("tool_calls");
                }
                if crate::json::eq_chars(reason, &lit("tool_calls")) {
                    match self.flush_tool_calls(out) {
                        Err(e) => {
                            assert(chunks_view(out@) =~= out0 + Seq::<ChunkModel>::empty());
                            return Err(e);
                        },
                        Ok(()) => {},
                    }
                    let ghost mid = chunks_view(out@);
                    push_chunk(out, LlmStreamChunk::Finish { reason: string_of(reason) });
                    assert(chunks_view(out@) =~= mid.push(ChunkModel::Finish(reason@)));
                    assert(chunks_view(out@) =~= out0 + (flush_result(old(self)@.core.pending).0 + seq![ChunkModel::Finish(reason@)]));
                    Ok(())
                } else {
                    if reason.len() > 0 {
                        push_chunk(out, LlmStreamChunk::Finish { reason: string_of(reason) });
                        assert(chunks_view(out@) =~= out0 + seq![ChunkModel::Finish(reason@)]);
                    } else {
                        assert(chunks_view(out@) =~= out0 + Seq::<ChunkModel>::empty());
                    }
                    Ok(())
                }
            },
            None => {
                assert(chunks_view(out@) =~= out0 + Seq::<ChunkModel>::empty());
                Ok(())
            },
        }
    }

    /// Reads a JSON event that is not an error object.
    fn handle_body(&mut self, v: &Json, out: &mut Vec<LlmStreamChunk>) -> (r: Result<(), LlmError>)
        requires
            old(self).wf(),
        ensures
            final(self).wf(),
            final(self)@.buffer == old(self)@.buffer,
            final(self)@.core == body_step(old(self)@.core, *v).core,
            chunks_view(final(out)@) == chunks_view(old(out)@) + body_step(old(self)@.core, *v).out,
            r is Err <==> body_step(old(self)@.core, *v).err is Some,
            r matches Err(e) ==> body_step(old(self)@.core, *v).err == Some(e@),
    {
        let ghost out0 = chunks_view(out@);
        let ghost c0 = self@.core;
        self.bad_json_count = 0;
        Self::emit_base(v, out);
        let ghost mid = chunks_view(out@);
        let choice = step(step(Some(v), &lit("choices")), &lit("0"));
        let delta = step(choice, &lit("delta"));
        match array_of(step(delta, &lit("tool_calls"))) {
            Some(calls) => {
                merge_calls(&mut self.pending_calls, calls);
            },
            None => {},
        }
        assert(self@.core.pending == body_pending(c0.pending, *v));
        let reason = str_of(step(choice, &lit("finish_reason")));
        let r = self.apply_finish(reason, out);
        assert(chunks_view(out@) =~= out0 + body_step(c0, *v).out);
        r
    }

    /// Handles one complete event.
    fn parse_event(&mut self, event: &[u8], out: &mut Vec<LlmStreamChunk>) -> (r: Result<(), LlmError>)
        requires
            old(self).wf(),
        ensures
            final(self).wf(),
            final(self)@.buffer == old(self)@.buffer,
            final(self)@.core == event_step(old(self)@.core, event@).core,
            chunks_view(final(out)@) == chunks_view(old(out)@) + event_step(
                old(self)@.core,
                event@,
            ).out,
            r is Err <==> event_step(old(self)@.core, event@).err is Some,
            r matches Err(e) ==> event_step(old(self)@.core, event@).err == Some(e@),
    {
        let ghost out0 = chunks_view(out@);
        let text = match decode_utf8_chars(event) {
            Ok(t) => t,
            Err(e) => {
                let mut msg = lit("SSE 响应不是有效 UTF-8: ");
                append_chars(&mut msg, &e);
                assert(chunks_view(out@) =~= out0 + Seq::<ChunkModel>::empty());
                return Err(LlmError::generation(string_of(&msg)));
            },
        };
        let payload = event_payload(&text);
        if payload.len() == 0 {
            assert(chunks_view(out@) =~= out0 + Seq::<ChunkModel>::empty());
            return Ok(());
        }
        if crate::json::eq_chars(&trim_chars(&payload), &lit("[DONE]")) {
            self.done = true;
            let r = self.flush_tool_calls(out);
            proof {
                if r is Err {
                    assert(chunks_view(out@) =~= out0 + Seq::<ChunkModel>::empty());
                }
            }
            return r;
        }
        let v = match parse_json(&payload) {
            Ok(v) => v,
            Err(_) => {
                if self.bad_json_count < usize::MAX {
                    self.bad_json_count = self.bad_json_count + 1;
                }
                assert(chunks_view(out@) =~= out0 + Seq::<ChunkModel>::empty());
                if self.bad_json_count >= MAX_BAD_JSON_EVENTS {
                    let mut msg = lit("上游返回过多非 JSON data 事件(");
                    append_chars(&mut msg, &decimal_chars(self.bad_json_count as u64));
                    append_chars(&mut msg, &lit(" 个),疑似协议损坏: "));
                    append_chars(&mut msg, &take_chars(&payload, 200));
                    return Err(LlmError::generation(string_of(&msg)));
                }
                return Ok(());
            },
        };
        self.handle_json(&v, out)
    }

    /// Handles a JSON event once parsed (see `json_step`).
    pub fn handle_json(&mut self, v: &Json, out: &mut Vec<LlmStreamChunk>) -> (r: Result<(), LlmError>)
        requires
            old(self).wf(),
        ensures
            final(self).wf(),
            final(self)@.buffer == old(self)@.buffer,
            final(self)@.core == json_step(old(self)@.core, *v).core,
            chunks_view(final(out)@) == chunks_view(old(out)@) + json_step(old(self)@.core, *v).out,
            r is Err <==> json_step(old(self)@.core, *v).err is Some,
            r matches Err(e) ==> json_step(old(self)@.core, *v).err == Some(e@),
    {
        let ghost out0 = chunks_view(out@);
        match member(Some(v), &lit("error")) {
            Some(err) => {
                let kind = classify_upstream_error_object(err);
                let text = error_object_message(err);
                assert(chunks_view(out@) =~= out0 + Seq::<ChunkModel>::empty());
                return Err(LlmError::new(kind, string_of(&text)));
            },
            None => {},
        }
        self.handle_body(v, out)
    }

    /// Feeds bytes of the stream: appends them to the buffer and handles every
    /// event they complete, stopping at the first failure.
    pub fn push(&mut self, bytes: &[u8], out: &mut Vec<LlmStreamChunk>) -> (r: Result<(), LlmError>)
        requires
            old(self).wf(),
        ensures
            final(self).wf(),
            final(self)@ == push_result(old(self)@, bytes@).0,
            chunks_view(final(out)@) == chunks_view(old(out)@) + push_result(old(self)@, bytes@).1,
            r is Err <==> push_result(old(self)@, bytes@).2 is Some,
            r matches Err(e) ==> push_result(old(self)@, bytes@).2 == Some(e@),
    {
        let ghost m_old = self@;
        let mut i: usize = 0;
        while i < bytes.len()
            invariant
                i <= bytes@.len(),
                self.wf(),
                self@.core == m_old.core,
                self@.buffer == m_old.buffer + bytes@.take(i as int),
            decreases bytes@.len() - i,
        {
            self.buffer.push(bytes[i]);
            i = i + 1;
            assert(self@.buffer =~= m_old.buffer + bytes@.take(i as int));
        }
        assert(bytes@.take(bytes@.len() as int) =~= bytes@);
        let ghost target = push_result(m_old, bytes@);
        let ghost out0 = chunks_view(out@);
        assert(out0 + target.1 =~= chunks_view(out@) + drain(self@).1);
        loop
            invariant
                self.wf(),
                target == push_result(old(self)@, bytes@),
                out0 == chunks_view(old(out)@),
                target.0 == drain(self@).0,
                target.2 == drain(self@).2,
                out0 + target.1 == chunks_view(out@) + drain(self@).1,
            decreases self@.buffer.len(),
        {
            proof {
                lemma_event_end_bounds(self@.buffer);
            }
            match find_event_end(self.buffer.as_slice()) {
                None => {
                    assert(drain(self@) == (self@, Seq::<ChunkModel>::empty(), None::<ErrorModel>));
                    assert(chunks_view(out@) =~= out0 + target.1);
                    return Ok(());
                },
                Some((end, sep)) => {
                    let ghost prev = self@;
                    let ghost prev_out = chunks_view(out@);
                    let n = self.buffer.len();
                    let event = slice_bytes(self.buffer.as_slice(), 0, end);
                    let rest = slice_bytes(self.buffer.as_slice(), end + sep, n);
                    self.buffer = rest;
                    let r = self.parse_event(event.as_slice(), out);
                    proof {
                        let st = event_step(prev.core, prev.buffer.subrange(0, end as int));
                        assert(event@ == prev.buffer.subrange(0, end as int));
                        let m1 = ParserModel {
                            buffer: prev.buffer.subrange(end + sep, prev.buffer.len() as int),
                            core: st.core,
                        };
                        assert(self@ =~= m1);
                        if st.err is Some {
                            assert(chunks_view(out@) =~= out0 + target.1);
                        } else {
                            let d1 = drain(self@);
                            assert(out0 + target.1 =~= chunks_view(out@) + d1.1);
                        }
                    }
                    match r {
                        Err(e) => {
                            return Err(e);
                        },
                        Ok(()) => {},
                    }
                },
            }
        }
    }

    /// Ends the stream: a non-empty rest of the buffer is handled as a last
    /// event, then the pending calls are flushed.
    pub fn finish(&mut self, out: &mut Vec<LlmStreamChunk>) -> (r: Result<(), LlmError>)
        requires
            old(self).wf(),
        ensures
            final(self).wf(),
            final(self)@ == finish_result(old(self)@).0,
            chunks_view(final(out)@) == chunks_view(old(out)@) + finish_result(old(self)@).1,
            r is Err <==> finish_result(old(self)@).2 is Some,
            r matches Err(e) ==> finish_result(old(self)@).2 == Some(e@),
    {
        let ghost m_old = self@;
        let ghost out0 = chunks_view(out@);
        if self.buffer.len() > 0 {
            let mut event: Vec<u8> = Vec::new();
            std::mem::swap(&mut event, &mut self.buffer);
            assert(self@.buffer =~= Seq::<u8>::empty());
            match self.parse_event(event.as_slice(), out) {
                Err(e) => {
                    return Err(e);
                },
                Ok(()) => {},
            }
        } else {
            assert(chunks_view(out@) =~= out0 + Seq::<ChunkModel>::empty());
        }
        let ghost mid = chunks_view(out@);
        let r = self.flush_tool_calls(out);
        proof {
            if r is Err {
                assert(chunks_view(out@) =~= mid + Seq::<ChunkModel>::empty());
            }
        }
        r
    }
}

} // verus!
