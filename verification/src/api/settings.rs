//! Request bodies and query parameters of the settings endpoints.
use vstd::prelude::*;
use crate::text::{chars_of, lit, string_of, trim};
use crate::api::errors::bare_error;

verus! {

/// The model to switch to.
pub struct SwitchModelBody {
    pub model: String,
}

/// The mode whose settings are read or written.
pub struct ModeQuery {
    pub mode: Option<String>,
}

/// The new runtime agent prompt.
pub struct SaveAgentPromptBody {
    pub content: String,
}

/// What a prompt preview is built for: session, character and mode.
pub struct PromptPreviewQuery {
    pub session_id: Option<String>,
    pub character_id: Option<String>,
    pub mode: Option<String>,
}

broadcast use vstd::string::group_string_axioms;

/// The mode whose settings a request reads or writes.
#[derive(Debug, Clone, Copy, PartialEq, Eq, Structural)]
pub enum AppMode {
    Roleplay,
    Task,
}

/// The mode a query names: `task`, or role play for anything else or nothing.
pub open spec fn mode_of(mode: Option<Seq<char>>) -> AppMode {
    match mode {
        Some(m) => if m == "task"@ { AppMode::Task } else { AppMode::Roleplay },
        None => AppMode::Roleplay,
    }
}

impl ModeQuery {
    /// The mode the query names (see `mode_of`).
    pub fn app_mode(&self) -> (r: AppMode)
        ensures
            r == mode_of(crate::api::chat::text_opt(self.mode)),
    {
        match &self.mode {
            Some(m) => if crate::json::eq_chars(&chars_of(m.as_str()), &lit("task")) {
                AppMode::Task
            } else {
                AppMode::Roleplay
            },
            None => AppMode::Roleplay,
        }
    }
}

/// The FNV-1a offset basis.
pub const FNV_OFFSET: u64 = 0xcbf29ce484222325;

/// The FNV-1a prime.
pub const FNV_PRIME: u64 = 0x100000001b3;

/// The 64-bit FNV-1a hash of bytes.
pub open spec fn fnv1a(b: Seq<u8>) -> u64
    decreases b.len(),
{
    if b.len() == 0 {
        FNV_OFFSET
    } else {
        (fnv1a(b.drop_last()) ^ (b.last() as u64)).wrapping_mul(FNV_PRIME)
    }
}

/// A lower-case hexadecimal digit.
pub open spec fn hex_char(d: nat) -> char {
    if d < 10 { (('0' as u32) + d) as char } else { (('a' as u32) + d - 10) as char }
}

/// The last `width` hexadecimal digits of `n`, zero-padded.
pub open spec fn hex_fixed(n: nat, width: nat) -> Seq<char>
    decreases width,
{
    if width == 0 {
        seq![]
    } else {
        hex_fixed(n / 16, (width - 1) as nat) + seq![hex_char(n % 16)]
    }
}

fn hex_digit(d: u64) -> (r: char)
    requires
        d < 16,
    ensures
        r == hex_char(d as nat),
{
    match d {
        0 => '0',
        1 => '1',
        2 => '2',
        3 => '3',
        4 => '4',
        5 => '5',
        6 => '6',
        7 => '7',
        8 => '8',
        9 => '9',
        10 => 'a',
        11 => 'b',
        12 => 'c',
        13 => 'd',
        14 => 'e',
        _ => 'f',
    }
}

proof fn lemma_hex_fixed_step(n: nat, width: nat)
    requires
        width > 0,
    ensures
        hex_fixed(n, width) == hex_fixed(n / 16, (width - 1) as nat) + seq![hex_char(n % 16)],
{
}

/// A stable fingerprint of a text: the FNV-1a hash of its UTF-8 bytes as 16
/// lower-case hexadecimal digits. It tells whether a text changed without
/// showing it.
pub fn stable_history_hash(text: &str) -> (r: String)
    ensures
        r@ == hex_fixed(fnv1a(vstd::utf8::encode_utf8(text@)) as nat, 16),
{
    let bytes = text.as_bytes();
    let mut hash: u64 = FNV_OFFSET;
    for i in 0..bytes.len()
        invariant
            bytes@ == vstd::utf8::encode_utf8(text@),
            hash == fnv1a(bytes@.take(i as int)),
    {
        assert(bytes@.take(i + 1).drop_last() =~= bytes@.take(i as int));
        assert(bytes@.take(i + 1).last() == bytes@[i as int]);
        hash = (hash ^ (bytes[i] as u64)).wrapping_mul(FNV_PRIME);
    }
    assert(bytes@.take(bytes@.len() as int) =~= bytes@);
    let mut digits: Vec<char> = Vec::new();
    let mut n: u64 = hash;
    let mut k: usize = 0;
    while k < 16
        invariant
            k <= 16,
            digits@.len() == k,
            hex_fixed(hash as nat, 16) == hex_fixed(n as nat, (16 - k) as nat) + digits@,
        decreases 16 - k,
    {
        proof {
            lemma_hex_fixed_step(n as nat, (16 - k) as nat);
        }
        let d = hex_digit(n % 16);
        let ghost old_digits = digits@;
        digits.insert(0, d);
        assert(digits@ =~= seq![hex_char((n % 16) as nat)] + old_digits);
        n = n / 16;
        k = k + 1;
    }
    assert(hex_fixed(n as nat, 0) =~= Seq::<char>::empty());
    assert(digits@ =~= hex_fixed(hash as nat, 16));
    string_of(&digits)
}

/// One layer of a prompt preview: its source, role, injection layer, its
/// position in the preview, and its content.
#[derive(Debug)]
pub struct PromptPreviewLayer {
    pub source: String,
    pub role: String,
    pub layer: u8,
    pub order: usize,
    pub content: String,
}

/// Adds a layer to a prompt preview, unless its content is blank; its
/// position is the number of layers before it.
pub fn push_preview_layer(layers: &mut Vec<PromptPreviewLayer>, source: String, role: String, layer: u8, content: String)
    ensures
        trim(content@).len() == 0 ==> final(layers)@ == old(layers)@,
        trim(content@).len() > 0 ==> {
            &&& final(layers)@.len() == old(layers)@.len() + 1
            &&& final(layers)@.take(old(layers)@.len() as int) == old(layers)@
            &&& final(layers)@.last().source@ == source@
            &&& final(layers)@.last().role@ == role@
            &&& final(layers)@.last().layer == layer
            &&& final(layers)@.last().order == old(layers)@.len()
            &&& final(layers)@.last().content@ == content@
        },
{
    if crate::text::trim_chars(&chars_of(content.as_str())).len() == 0 {
        return;
    }
    let order = layers.len();
    layers.push(PromptPreviewLayer { source, role, layer, order, content });
    assert(layers@.take(order as int) =~= old(layers)@);
}

/// The connector type to rebuild after the connection settings change: a
/// demonstration backend given a base URL or a key becomes OpenAI-compatible;
/// any other keeps its type.
pub fn connector_target(current: &str, base_url: &str, api_key: &str) -> (r: String)
    ensures
        r@ == if current@ == "mock"@ && (base_url@.len() > 0 || api_key@.len() > 0) {
            "openai-compatible"@
        } else {
            current@
        },
{
    if crate::json::eq_chars(&chars_of(current), &lit("mock")) && (base_url.unicode_len() > 0 || api_key.unicode_len() > 0) {
        "openai-compatible".to_owned()
    } else {
        current.to_owned()
    }
}

/// The connector type after a settings update that changed the base URL,
/// the key or the model (see `connector_target`); none when none of them
/// changed, and the backend is kept as it is.
pub fn connector_rebuild(
    current_type: &str,
    old_base: &str,
    old_key: &str,
    old_model: &str,
    new_base: &str,
    new_key: &str,
    new_model: &str,
) -> (r: Option<String>)
    ensures
        r is Some <==> (old_base@ != new_base@ || old_key@ != new_key@ || old_model@ != new_model@),
        r matches Some(t) ==> t@ == if current_type@ == "mock"@ && (new_base@.len() > 0 || new_key@.len() > 0) {
            "openai-compatible"@
        } else {
            current_type@
        },
{
    let changed = !crate::json::eq_chars(&chars_of(old_base), &chars_of(new_base))
        || !crate::json::eq_chars(&chars_of(old_key), &chars_of(new_key))
        || !crate::json::eq_chars(&chars_of(old_model), &chars_of(new_model));
    if changed {
        Some(connector_target(current_type, new_base, new_key))
    } else {
        None
    }
}

/// The model a switch request names: trimmed; a blank one is refused.
pub fn switch_model_name(model: &str) -> (r: Result<String, crate::api::errors::BareError>)
    ensures
        match r {
            Ok(m) => m@ == trim(model@) && m@.len() > 0,
            Err(e) => trim(model@).len() == 0 && e.status == 400 && e.error@ == "缺少 model"@,
        },
{
    let t = crate::text::trim_chars(&chars_of(model));
    if t.len() == 0 {
        Err(crate::api::errors::bare_error(400, "缺少 model"))
    } else {
        Ok(string_of(&t))
    }
}

/// The integer and text fields of a settings update that can refuse it (a
/// float threshold's range is checked by the caller and passed in).
pub struct SettingsLimits {
    pub embedding_dim: Option<u32>,
    pub default_max_tokens: Option<u32>,
    pub max_context_tokens: Option<u32>,
    pub authorization_mode: Option<String>,
    pub tool_authorization_timeout_secs: Option<u32>,
    pub task_tool_policy: Option<String>,
    pub max_tool_rounds: Option<u32>,
    pub compaction_threshold_in_range: Option<bool>,
    pub subagent_max_depth: Option<u32>,
    pub subagent_max_concurrency: Option<u32>,
    pub subagent_result_max_chars: Option<u32>,
    pub tool_history_keep_rounds: Option<u32>,
    pub tool_history_budget_tokens: Option<u32>,
}

/// Whether an optional value is absent or within `[lo, hi]`.
pub open spec fn in_range(v: Option<u32>, lo: int, hi: int) -> bool {
    match v {
        Some(x) => lo <= x <= hi,
        None => true,
    }
}

/// Why a settings update is refused, checked in the order the fields are
/// applied: the first field out of its range, or none.
pub open spec fn settings_error(l: SettingsLimits) -> Option<Seq<char>> {
    if !(l.embedding_dim matches Some(v) ==> (v == 0 || (16 <= v <= 8192))) {
        Some("embedding_dim 必须为 0(自动)或 16..=8192"@)
    } else if !in_range(l.default_max_tokens, 1, 65536) {
        Some("default_max_tokens 必须在 1..=65536"@)
    } else if !in_range(l.max_context_tokens, 65536, 1048576) {
        Some("max_context_tokens 必须在 65536..=1048576(64K~1M)"@)
    } else if l.authorization_mode matches Some(m) && !(trim(m@) == "strict"@ || trim(m@) == "loose"@ || trim(m@)
        == "bypass"@) {
        Some("authorization_mode 仅支持 strict / loose / bypass"@)
    } else if !in_range(l.tool_authorization_timeout_secs, 30, 1800) {
        Some("tool_authorization_timeout_secs 必须在 30..=1800"@)
    } else if l.task_tool_policy matches Some(p) && !(p@ == "all"@ || p@ == "deny_dangerous"@ || p@ == "allowlist"@) {
        Some("task_tool_policy 仅支持 all / deny_dangerous / allowlist"@)
    } else if !in_range(l.max_tool_rounds, 1, 200) {
        Some("max_tool_rounds 必须在 1..=200"@)
    } else if l.compaction_threshold_in_range == Some(false) {
        Some("compaction_threshold 必须在 0.5..=0.95"@)
    } else if !in_range(l.subagent_max_depth, 1, 4) {
        Some("subagent_max_depth 必须在 1..=4"@)
    } else if !in_range(l.subagent_max_concurrency, 1, 16) {
        Some("subagent_max_concurrency 必须在 1..=16"@)
    } else if !in_range(l.subagent_result_max_chars, 500, 8000) {
        Some("subagent_result_max_chars 必须在 500..=8000"@)
    } else if !in_range(l.tool_history_keep_rounds, 1, 32) {
        Some("tool_history_keep_rounds 必须在 1..=32"@)
    } else if l.tool_history_budget_tokens matches Some(v) && v != 0 && !(1024 <= v <= 1048576) {
        Some("tool_history_budget_tokens 须为 0(禁用)或 1024..=1048576"@)
    } else {
        None
    }
}

fn range_ok(v: Option<u32>, lo: u32, hi: u32) -> (r: bool)
    ensures
        r == in_range(v, lo as int, hi as int),
{
    match v {
        Some(x) => lo <= x && x <= hi,
        None => true,
    }
}

/// Checks a settings update (see `settings_error`); a refusal is a 400 with its message.
pub fn check_settings_limits(l: &SettingsLimits) -> (r: Result<(), crate::api::errors::BareError>)
    ensures
        match r {
            Ok(()) => settings_error(*l) is None,
            Err(e) => settings_error(*l) == Some(e.error@) && e.status == 400,
        },
{
    match l.embedding_dim {
        Some(v) => {
            if !(v == 0 || (16 <= v && v <= 8192)) {
                return Err(bare_error(400, "embedding_dim 必须为 0(自动)或 16..=8192"));
            }
        },
        None => {},
    }
    if !range_ok(l.default_max_tokens, 1, 65536) {
        return Err(bare_error(400, "default_max_tokens 必须在 1..=65536"));
    }
    if !range_ok(l.max_context_tokens, 65536, 1048576) {
        return Err(bare_error(400, "max_context_tokens 必须在 65536..=1048576(64K~1M)"));
    }
    match &l.authorization_mode {
        Some(m) => {
            let t = crate::text::trim_chars(&chars_of(m.as_str()));
            if !(crate::json::eq_chars(&t, &lit("strict")) || crate::json::eq_chars(&t, &lit("loose"))
                || crate::json::eq_chars(&t, &lit("bypass"))) {
                return Err(bare_error(400, "authorization_mode 仅支持 strict / loose / bypass"));
            }
        },
        None => {},
    }
    if !range_ok(l.tool_authorization_timeout_secs, 30, 1800) {
        return Err(bare_error(400, "tool_authorization_timeout_secs 必须在 30..=1800"));
    }
    match &l.task_tool_policy {
        Some(p) => {
            let c = chars_of(p.as_str());
            if !(crate::json::eq_chars(&c, &lit("all")) || crate::json::eq_chars(&c, &lit("deny_dangerous"))
                || crate::json::eq_chars(&c, &lit("allowlist"))) {
                return Err(bare_error(400, "task_tool_policy 仅支持 all / deny_dangerous / allowlist"));
            }
        },
        None => {},
    }
    if !range_ok(l.max_tool_rounds, 1, 200) {
        return Err(bare_error(400, "max_tool_rounds 必须在 1..=200"));
    }
    if l.compaction_threshold_in_range == Some(false) {
        return Err(bare_error(400, "compaction_threshold 必须在 0.5..=0.95"));
    }
    if !range_ok(l.subagent_max_depth, 1, 4) {
        return Err(bare_error(400, "subagent_max_depth 必须在 1..=4"));
    }
    if !range_ok(l.subagent_max_concurrency, 1, 16) {
        return Err(bare_error(400, "subagent_max_concurrency 必须在 1..=16"));
    }
    if !range_ok(l.subagent_result_max_chars, 500, 8000) {
        return Err(bare_error(400, "subagent_result_max_chars 必须在 500..=8000"));
    }
    if !range_ok(l.tool_history_keep_rounds, 1, 32) {
        return Err(bare_error(400, "tool_history_keep_rounds 必须在 1..=32"));
    }
    match l.tool_history_budget_tokens {
        Some(v) => {
            if v != 0 && !(1024 <= v && v <= 1048576) {
                return Err(bare_error(400, "tool_history_budget_tokens 须为 0(禁用)或 1024..=1048576"));
            }
        },
        None => {},
    }
    Ok(())
}

/// The note of a model refresh that got at most one model from an
/// OpenAI-compatible backend (its `/models` is likely missing): the current
/// model was kept.
pub fn refresh_models_note(connector_type: &str, models: &Vec<String>) -> (r: Option<String>)
    ensures
        connector_type@ == "openai-compatible"@ && models@.len() <= 1 ==> (r matches Some(m) && m@
            == "API 未返回完整模型列表(该服务可能不支持 /models 接口);已保留当前模型「"@ + (if models@.len() > 0 {
            models@[0]@
        } else {
            seq![]
        }) + "」"@),
        !(connector_type@ == "openai-compatible"@ && models@.len() <= 1) ==> r is None,
{
    if crate::json::eq_chars(&chars_of(connector_type), &lit("openai-compatible")) && models.len() <= 1 {
        let mut m = lit("API 未返回完整模型列表(该服务可能不支持 /models 接口);已保留当前模型「");
        if models.len() > 0 {
            crate::text::append_chars(&mut m, &chars_of(models[0].as_str()));
        }
        crate::text::append_chars(&mut m, &lit("」"));
        Some(string_of(&m))
    } else {
        None
    }
}

/// A text setting after an update that never blanks it: the trimmed new
/// value when it is not empty, else the current value.
pub open spec fn kept_unless_blank(current: Seq<char>, incoming: Option<Seq<char>>) -> Seq<char> {
    match incoming {
        Some(v) => if trim(v).len() > 0 { trim(v) } else { current },
        None => current,
    }
}

/// A text setting after an update (see `kept_unless_blank`).
pub fn patch_nonblank(current: &str, incoming: Option<&str>) -> (r: String)
    ensures
        r@ == kept_unless_blank(current@, crate::api::chat::opt_view(incoming)),
{
    match incoming {
        Some(v) => {
            let t = crate::text::trim_chars(&chars_of(v));
            if t.len() > 0 {
                string_of(&t)
            } else {
                current.to_owned()
            }
        },
        None => current.to_owned(),
    }
}

/// A text setting that may be cleared back to a default: the trimmed new
/// value, `default` for a blank one, the current value when none is given.
pub open spec fn or_default_patch(current: Seq<char>, incoming: Option<Seq<char>>, default: Seq<char>) -> Seq<char> {
    match incoming {
        Some(v) => if trim(v).len() > 0 { trim(v) } else { default },
        None => current,
    }
}

/// A text setting that may be cleared back to a default (see `or_default_patch`).
pub fn patch_or_default(current: &str, incoming: Option<&str>, default: &str) -> (r: String)
    ensures
        r@ == or_default_patch(current@, crate::api::chat::opt_view(incoming), default@),
{
    match incoming {
        Some(v) => {
            let t = crate::text::trim_chars(&chars_of(v));
            if t.len() > 0 {
                string_of(&t)
            } else {
                default.to_owned()
            }
        },
        None => current.to_owned(),
    }
}

/// An enumerated setting: the trimmed new value when it is one of `choices`,
/// else (unknown values are ignored) the current value.
pub open spec fn choice_patch(current: Seq<char>, incoming: Option<Seq<char>>, choices: Seq<Seq<char>>) -> Seq<char> {
    match incoming {
        Some(v) => if choices.contains(trim(v)) { trim(v) } else { current },
        None => current,
    }
}

/// The views of string slices.
pub open spec fn views(ss: Seq<&str>) -> Seq<Seq<char>> {
    ss.map_values(|x: &str| x@)
}

/// An enumerated setting after an update (see `choice_patch`).
pub fn patch_choice(current: &str, incoming: Option<&str>, choices: &[&str]) -> (r: String)
    ensures
        r@ == choice_patch(current@, crate::api::chat::opt_view(incoming), views(choices@)),
{
    match incoming {
        Some(v) => {
            let t = crate::text::trim_chars(&chars_of(v));
            let mut i: usize = 0;
            while i < choices.len()
                invariant
                    i <= choices@.len(),
                    t@ == trim(v@),
                    incoming == Some(v),
                    forall|k: int| 0 <= k < i ==> views(choices@)[k] != t@,
                decreases choices.len() - i,
            {
                if crate::json::eq_chars(&chars_of(choices[i]), &t) {
                    assert(views(choices@)[i as int] == t@);
                    assert(views(choices@).contains(t@));
                    return string_of(&t);
                }
                i = i + 1;
            }
            assert(!views(choices@).contains(t@));
            current.to_owned()
        },
        None => current.to_owned(),
    }
}

/// A numeric setting whose out-of-range values are ignored: the new value
/// when it lies in `[lo, hi]`, else the current value.
pub open spec fn bounded_patch(current: u32, incoming: Option<u32>, lo: u32, hi: u32) -> u32 {
    match incoming {
        Some(v) => if lo <= v && v <= hi { v } else { current },
        None => current,
    }
}

/// A numeric setting after an update (see `bounded_patch`).
pub fn patch_bounded(current: u32, incoming: Option<u32>, lo: u32, hi: u32) -> (r: u32)
    ensures
        r == bounded_patch(current, incoming, lo, hi),
{
    match incoming {
        Some(v) => if lo <= v && v <= hi {
            v
        } else {
            current
        },
        None => current,
    }
}

/// The authorization mode of the older bypass switch: on means `bypass`, off `strict`.
pub fn legacy_bypass_mode(bypass: bool) -> (r: &'static str)
    ensures
        r@ == if bypass { "bypass"@ } else { "strict"@ },
{
    if bypass { "bypass" } else { "strict" }
}

/// Applying the same update twice leaves a setting as applying it once does,
/// and an update never blanks a text setting that was set.
pub proof fn law_patches_idempotent(
    current: Seq<char>,
    incoming: Option<Seq<char>>,
    default: Seq<char>,
    choices: Seq<Seq<char>>,
    n: u32,
    v: Option<u32>,
    lo: u32,
    hi: u32,
)
    ensures
        kept_unless_blank(kept_unless_blank(current, incoming), incoming) == kept_unless_blank(current, incoming),
        or_default_patch(or_default_patch(current, incoming, default), incoming, default) == or_default_patch(
            current,
            incoming,
            default,
        ),
        choice_patch(choice_patch(current, incoming, choices), incoming, choices) == choice_patch(
            current,
            incoming,
            choices,
        ),
        bounded_patch(bounded_patch(n, v, lo, hi), v, lo, hi) == bounded_patch(n, v, lo, hi),
        current.len() > 0 ==> kept_unless_blank(current, incoming).len() > 0,
{
}

} // verus!
