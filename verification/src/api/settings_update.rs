//! Applying a settings update: which fields change, in which layer, and
//! which values refuse the whole update.
use vstd::prelude::*;
use crate::api::chat::text_opt;
use crate::api::errors::BareError;
use crate::api::settings::{
    check_settings_limits, kept_unless_blank, legacy_bypass_mode, patch_nonblank, patch_or_default, settings_error,
    views, AppMode, SettingsLimits,
};
use crate::text::{chars_of, string_of, trim, trim_chars};

verus! {

broadcast use vstd::string::group_string_axioms;

/// The settings that a mode may override: in role play they are written
/// directly, in task mode into the task overlay.
pub struct ModeSettings {
    pub default_max_tokens: u32,
    pub max_context_tokens: u32,
    pub agent_system_prompt: String,
    pub search_endpoint: String,
    pub mvu_vars_position: String,
    pub reflect_prompt: String,
    pub preset_tail_prompt: String,
    pub preset_tail_role: String,
    pub reflect_advice_prompt: String,
    pub reflect_advice_role: String,
    pub authorization_mode: String,
    pub bypass_blacklist: Vec<String>,
    pub tool_authorization_timeout_secs: u32,
    pub task_tool_policy: String,
    pub task_tool_allowlist: Vec<String>,
    pub max_tool_rounds: u32,
    pub render_html: bool,
    pub compaction_mode: String,
    pub compaction_keep_recent: u32,
    pub compaction_snip_bytes: u32,
    pub llm_request_log: bool,
    pub memory_distill_enabled: bool,
    pub memory_inject_limit: u32,
    pub memory_inject_char_budget: u32,
    pub memory_max_entries: u32,
    pub skill_progressive_disclosure: bool,
    pub undo_enabled: bool,
    pub subagent_max_depth: u32,
    pub subagent_max_concurrency: u32,
    pub subagent_result_max_chars: u32,
    pub mcp_enabled: bool,
    pub task_persona_full: bool,
    pub task_prompt_inject_enabled: bool,
}

/// The task mode's overrides of the mode settings: a field set here is what
/// task mode uses in place of the role-play value.
pub struct TaskOverlay {
    pub default_max_tokens: Option<u32>,
    pub max_context_tokens: Option<u32>,
    pub agent_system_prompt: Option<String>,
    pub search_endpoint: Option<String>,
    pub mvu_vars_position: Option<String>,
    pub reflect_prompt: Option<String>,
    pub preset_tail_prompt: Option<String>,
    pub preset_tail_role: Option<String>,
    pub reflect_advice_prompt: Option<String>,
    pub reflect_advice_role: Option<String>,
    pub authorization_mode: Option<String>,
    pub bypass_blacklist: Option<Vec<String>>,
    pub tool_authorization_timeout_secs: Option<u32>,
    pub task_tool_policy: Option<String>,
    pub task_tool_allowlist: Option<Vec<String>>,
    pub max_tool_rounds: Option<u32>,
    pub render_html: Option<bool>,
    pub compaction_mode: Option<String>,
    pub compaction_keep_recent: Option<u32>,
    pub compaction_snip_bytes: Option<u32>,
    pub llm_request_log: Option<bool>,
    pub memory_distill_enabled: Option<bool>,
    pub memory_inject_limit: Option<u32>,
    pub memory_inject_char_budget: Option<u32>,
    pub memory_max_entries: Option<u32>,
    pub skill_progressive_disclosure: Option<bool>,
    pub undo_enabled: Option<bool>,
    pub subagent_max_depth: Option<u32>,
    pub subagent_max_concurrency: Option<u32>,
    pub subagent_result_max_chars: Option<u32>,
    pub mcp_enabled: Option<bool>,
    pub task_persona_full: Option<bool>,
    pub task_prompt_inject_enabled: Option<bool>,
}

/// The runtime settings an update touches (sampling floats and the MCP
/// server list aside): the connection and embedding settings shared by both
/// modes, the tool-history limits, the role-play values and the task overlay.
pub struct SettingsRecord {
    pub openai_base_url: String,
    pub openai_api_key: String,
    pub model: String,
    pub embedding_enabled: bool,
    pub embedding_base_url: String,
    pub embedding_api_key: String,
    pub embedding_model: String,
    pub embedding_dim: u32,
    pub tool_history_keep_rounds: u32,
    pub tool_history_budget_tokens: u32,
    pub mode: ModeSettings,
    pub task: TaskOverlay,
}

/// A settings update: each given field asks for a change. Base URLs come
/// already normalised; `compaction_threshold_in_range` says whether a given
/// float threshold lies in its range.
pub struct SettingsPatch {
    pub openai_base_url: Option<String>,
    pub openai_api_key: Option<String>,
    pub model: Option<String>,
    pub embedding_enabled: Option<bool>,
    pub embedding_base_url: Option<String>,
    pub embedding_api_key: Option<String>,
    pub embedding_model: Option<String>,
    pub embedding_dim: Option<u32>,
    pub tool_history_keep_rounds: Option<u32>,
    pub tool_history_budget_tokens: Option<u32>,
    pub default_max_tokens: Option<u32>,
    pub max_context_tokens: Option<u32>,
    pub agent_system_prompt: Option<String>,
    pub search_endpoint: Option<String>,
    pub mvu_vars_position: Option<String>,
    pub reflect_prompt: Option<String>,
    pub preset_tail_prompt: Option<String>,
    pub preset_tail_role: Option<String>,
    pub reflect_advice_prompt: Option<String>,
    pub reflect_advice_role: Option<String>,
    pub authorization_mode: Option<String>,
    pub bypass_blacklist: Option<Vec<String>>,
    pub tool_authorization_timeout_secs: Option<u32>,
    pub task_tool_policy: Option<String>,
    pub task_tool_allowlist: Option<Vec<String>>,
    pub max_tool_rounds: Option<u32>,
    pub render_html: Option<bool>,
    pub compaction_mode: Option<String>,
    pub compaction_keep_recent: Option<u32>,
    pub compaction_snip_bytes: Option<u32>,
    pub llm_request_log: Option<bool>,
    pub memory_distill_enabled: Option<bool>,
    pub memory_inject_limit: Option<u32>,
    pub memory_inject_char_budget: Option<u32>,
    pub memory_max_entries: Option<u32>,
    pub skill_progressive_disclosure: Option<bool>,
    pub undo_enabled: Option<bool>,
    pub subagent_max_depth: Option<u32>,
    pub subagent_max_concurrency: Option<u32>,
    pub subagent_result_max_chars: Option<u32>,
    pub mcp_enabled: Option<bool>,
    pub task_persona_full: Option<bool>,
    pub task_prompt_inject_enabled: Option<bool>,
    pub bypass_mode: Option<bool>,
    pub compaction_threshold_in_range: Option<bool>,
}

/// The views of an optional list of strings.
pub open spec fn strings_opt(o: Option<Vec<String>>) -> Option<Seq<String>> {
    match o {
        Some(v) => Some(v@),
        None => None,
    }
}

/// A field of a mode after a write of `new`: in role play the new value, in
/// task mode unchanged (the overlay takes it).
pub open spec fn routed_flat<V>(is_task: bool, flat: V, new: Option<V>) -> V {
    match new {
        Some(x) => if is_task { flat } else { x },
        None => flat,
    }
}

/// The task overlay of a field after a write of `new`: set in task mode,
/// unchanged in role play.
pub open spec fn routed_over<V>(is_task: bool, over: Option<V>, new: Option<V>) -> Option<V> {
    match new {
        Some(x) => if is_task { Some(x) } else { over },
        None => over,
    }
}

/// A value that only a non-empty text replaces.
pub open spec fn nonempty_or(current: Seq<char>, incoming: Option<Seq<char>>) -> Seq<char> {
    match incoming {
        Some(x) => if x.len() > 0 { x } else { current },
        None => current,
    }
}

/// The write of an enumerated field: its trimmed value when it is one of
/// `choices`; nothing (the field is left alone) otherwise.
pub open spec fn choice_new(incoming: Option<Seq<char>>, choices: Seq<Seq<char>>) -> Option<Seq<char>> {
    match incoming {
        Some(x) => if choices.contains(trim(x)) { Some(trim(x)) } else { None },
        None => None,
    }
}

/// The write of a field with a default: its trimmed value, or the default
/// for a blank one.
pub open spec fn default_new(incoming: Option<Seq<char>>, default: Seq<char>) -> Option<Seq<char>> {
    match incoming {
        Some(x) => Some(if trim(x).len() > 0 { trim(x) } else { default }),
        None => None,
    }
}

/// The write of a number whose out-of-range values are ignored.
pub open spec fn bounded_new(incoming: Option<u32>, lo: u32, hi: u32) -> Option<u32> {
    match incoming {
        Some(x) => if lo <= x && x <= hi { Some(x) } else { None },
        None => None,
    }
}

/// The write of the authorization mode: the older bypass switch when given
/// (`bypass` or `strict`), else the trimmed mode.
pub open spec fn auth_new(mode: Option<Seq<char>>, bypass: Option<bool>) -> Option<Seq<char>> {
    match bypass {
        Some(b) => Some(if b { "bypass"@ } else { "strict"@ }),
        None => match mode {
            Some(m) => Some(trim(m)),
            None => None,
        },
    }
}

/// The fields of an update that can refuse it.
pub open spec fn limits_of(p: SettingsPatch) -> SettingsLimits {
    SettingsLimits {
        embedding_dim: p.embedding_dim,
        default_max_tokens: p.default_max_tokens,
        max_context_tokens: p.max_context_tokens,
        authorization_mode: p.authorization_mode,
        tool_authorization_timeout_secs: p.tool_authorization_timeout_secs,
        task_tool_policy: p.task_tool_policy,
        max_tool_rounds: p.max_tool_rounds,
        compaction_threshold_in_range: p.compaction_threshold_in_range,
        subagent_max_depth: p.subagent_max_depth,
        subagent_max_concurrency: p.subagent_max_concurrency,
        subagent_result_max_chars: p.subagent_result_max_chars,
        tool_history_keep_rounds: p.tool_history_keep_rounds,
        tool_history_budget_tokens: p.tool_history_budget_tokens,
    }
}

/// The write each mode field gets from an update (see the rules above).
/// Whether `r` is `cur` with the update applied in `mode`: shared fields as
/// their rules say, every mode field written into the role-play values or,
/// in task mode, into the task overlay.
pub open spec fn update_applied(cur: SettingsRecord, p: SettingsPatch, mode: AppMode, default_search: &str, r: SettingsRecord) -> bool {
    let is_task = mode == AppMode::Task;
    &&& r.openai_base_url@ == nonempty_or(cur.openai_base_url@, text_opt(p.openai_base_url))
    &&& r.openai_api_key@ == kept_unless_blank(cur.openai_api_key@, text_opt(p.openai_api_key))
    &&& r.model@ == kept_unless_blank(cur.model@, text_opt(p.model))
    &&& r.embedding_enabled == (match p.embedding_enabled { Some(x) => x, None => cur.embedding_enabled })
    &&& r.embedding_base_url@ == (match text_opt(p.embedding_base_url) { Some(x) => x, None => cur.embedding_base_url@ })
    &&& r.embedding_api_key@ == kept_unless_blank(cur.embedding_api_key@, text_opt(p.embedding_api_key))
    &&& r.embedding_model@ == (match text_opt(p.embedding_model) { Some(x) => trim(x), None => cur.embedding_model@ })
    &&& r.embedding_dim == (match p.embedding_dim { Some(x) => x, None => cur.embedding_dim })
    &&& r.tool_history_keep_rounds == (match p.tool_history_keep_rounds { Some(x) => x, None => cur.tool_history_keep_rounds })
    &&& r.tool_history_budget_tokens == (match p.tool_history_budget_tokens { Some(x) => x, None => cur.tool_history_budget_tokens })
    &&& r.mode.default_max_tokens == routed_flat(is_task, cur.mode.default_max_tokens, p.default_max_tokens)
    &&& r.task.default_max_tokens == routed_over(is_task, cur.task.default_max_tokens, p.default_max_tokens)
    &&& r.mode.max_context_tokens == routed_flat(is_task, cur.mode.max_context_tokens, p.max_context_tokens)
    &&& r.task.max_context_tokens == routed_over(is_task, cur.task.max_context_tokens, p.max_context_tokens)
    &&& r.mode.agent_system_prompt@ == routed_flat(is_task, cur.mode.agent_system_prompt@, text_opt(p.agent_system_prompt))
    &&& text_opt(r.task.agent_system_prompt) == routed_over(is_task, text_opt(cur.task.agent_system_prompt), text_opt(p.agent_system_prompt))
    &&& r.mode.search_endpoint@ == routed_flat(is_task, cur.mode.search_endpoint@, default_new(text_opt(p.search_endpoint), default_search@))
    &&& text_opt(r.task.search_endpoint) == routed_over(is_task, text_opt(cur.task.search_endpoint), default_new(text_opt(p.search_endpoint), default_search@))
    &&& r.mode.mvu_vars_position@ == routed_flat(is_task, cur.mode.mvu_vars_position@, choice_new(text_opt(p.mvu_vars_position), seq!["system"@, "user_tail"@]))
    &&& text_opt(r.task.mvu_vars_position) == routed_over(is_task, text_opt(cur.task.mvu_vars_position), choice_new(text_opt(p.mvu_vars_position), seq!["system"@, "user_tail"@]))
    &&& r.mode.reflect_prompt@ == routed_flat(is_task, cur.mode.reflect_prompt@, text_opt(p.reflect_prompt))
    &&& text_opt(r.task.reflect_prompt) == routed_over(is_task, text_opt(cur.task.reflect_prompt), text_opt(p.reflect_prompt))
    &&& r.mode.preset_tail_prompt@ == routed_flat(is_task, cur.mode.preset_tail_prompt@, text_opt(p.preset_tail_prompt))
    &&& text_opt(r.task.preset_tail_prompt) == routed_over(is_task, text_opt(cur.task.preset_tail_prompt), text_opt(p.preset_tail_prompt))
    &&& r.mode.preset_tail_role@ == routed_flat(is_task, cur.mode.preset_tail_role@, choice_new(text_opt(p.preset_tail_role), seq!["user"@, "assistant"@]))
    &&& text_opt(r.task.preset_tail_role) == routed_over(is_task, text_opt(cur.task.preset_tail_role), choice_new(text_opt(p.preset_tail_role), seq!["user"@, "assistant"@]))
    &&& r.mode.reflect_advice_prompt@ == routed_flat(is_task, cur.mode.reflect_advice_prompt@, text_opt(p.reflect_advice_prompt))
    &&& text_opt(r.task.reflect_advice_prompt) == routed_over(is_task, text_opt(cur.task.reflect_advice_prompt), text_opt(p.reflect_advice_prompt))
    &&& r.mode.reflect_advice_role@ == routed_flat(is_task, cur.mode.reflect_advice_role@, choice_new(text_opt(p.reflect_advice_role), seq!["user"@, "assistant"@]))
    &&& text_opt(r.task.reflect_advice_role) == routed_over(is_task, text_opt(cur.task.reflect_advice_role), choice_new(text_opt(p.reflect_advice_role), seq!["user"@, "assistant"@]))
    &&& r.mode.authorization_mode@ == routed_flat(is_task, cur.mode.authorization_mode@, auth_new(text_opt(p.authorization_mode), p.bypass_mode))
    &&& text_opt(r.task.authorization_mode) == routed_over(is_task, text_opt(cur.task.authorization_mode), auth_new(text_opt(p.authorization_mode), p.bypass_mode))
    &&& r.mode.bypass_blacklist@ == routed_flat(is_task, cur.mode.bypass_blacklist@, strings_opt(p.bypass_blacklist))
    &&& strings_opt(r.task.bypass_blacklist) == routed_over(is_task, strings_opt(cur.task.bypass_blacklist), strings_opt(p.bypass_blacklist))
    &&& r.mode.tool_authorization_timeout_secs == routed_flat(is_task, cur.mode.tool_authorization_timeout_secs, p.tool_authorization_timeout_secs)
    &&& r.task.tool_authorization_timeout_secs == routed_over(is_task, cur.task.tool_authorization_timeout_secs, p.tool_authorization_timeout_secs)
    &&& r.mode.task_tool_policy@ == routed_flat(is_task, cur.mode.task_tool_policy@, text_opt(p.task_tool_policy))
    &&& text_opt(r.task.task_tool_policy) == routed_over(is_task, text_opt(cur.task.task_tool_policy), text_opt(p.task_tool_policy))
    &&& r.mode.task_tool_allowlist@ == routed_flat(is_task, cur.mode.task_tool_allowlist@, strings_opt(p.task_tool_allowlist))
    &&& strings_opt(r.task.task_tool_allowlist) == routed_over(is_task, strings_opt(cur.task.task_tool_allowlist), strings_opt(p.task_tool_allowlist))
    &&& r.mode.max_tool_rounds == routed_flat(is_task, cur.mode.max_tool_rounds, p.max_tool_rounds)
    &&& r.task.max_tool_rounds == routed_over(is_task, cur.task.max_tool_rounds, p.max_tool_rounds)
    &&& r.mode.render_html == routed_flat(is_task, cur.mode.render_html, p.render_html)
    &&& r.task.render_html == routed_over(is_task, cur.task.render_html, p.render_html)
    &&& r.mode.compaction_mode@ == routed_flat(is_task, cur.mode.compaction_mode@, choice_new(text_opt(p.compaction_mode), seq!["off"@, "manual"@, "auto"@]))
    &&& text_opt(r.task.compaction_mode) == routed_over(is_task, text_opt(cur.task.compaction_mode), choice_new(text_opt(p.compaction_mode), seq!["off"@, "manual"@, "auto"@]))
    &&& r.mode.compaction_keep_recent == routed_flat(is_task, cur.mode.compaction_keep_recent, bounded_new(p.compaction_keep_recent, 2, 200))
    &&& r.task.compaction_keep_recent == routed_over(is_task, cur.task.compaction_keep_recent, bounded_new(p.compaction_keep_recent, 2, 200))
    &&& r.mode.compaction_snip_bytes == routed_flat(is_task, cur.mode.compaction_snip_bytes, bounded_new(p.compaction_snip_bytes, 0, 1048576))
    &&& r.task.compaction_snip_bytes == routed_over(is_task, cur.task.compaction_snip_bytes, bounded_new(p.compaction_snip_bytes, 0, 1048576))
    &&& r.mode.llm_request_log == routed_flat(is_task, cur.mode.llm_request_log, p.llm_request_log)
    &&& r.task.llm_request_log == routed_over(is_task, cur.task.llm_request_log, p.llm_request_log)
    &&& r.mode.memory_distill_enabled == routed_flat(is_task, cur.mode.memory_distill_enabled, p.memory_distill_enabled)
    &&& r.task.memory_distill_enabled == routed_over(is_task, cur.task.memory_distill_enabled, p.memory_distill_enabled)
    &&& r.mode.memory_inject_limit == routed_flat(is_task, cur.mode.memory_inject_limit, bounded_new(p.memory_inject_limit, 0, 50))
    &&& r.task.memory_inject_limit == routed_over(is_task, cur.task.memory_inject_limit, bounded_new(p.memory_inject_limit, 0, 50))
    &&& r.mode.memory_inject_char_budget == routed_flat(is_task, cur.mode.memory_inject_char_budget, bounded_new(p.memory_inject_char_budget, 0, 20000))
    &&& r.task.memory_inject_char_budget == routed_over(is_task, cur.task.memory_inject_char_budget, bounded_new(p.memory_inject_char_budget, 0, 20000))
    &&& r.mode.memory_max_entries == routed_flat(is_task, cur.mode.memory_max_entries, bounded_new(p.memory_max_entries, 0, 10000))
    &&& r.task.memory_max_entries == routed_over(is_task, cur.task.memory_max_entries, bounded_new(p.memory_max_entries, 0, 10000))
    &&& r.mode.skill_progressive_disclosure == routed_flat(is_task, cur.mode.skill_progressive_disclosure, p.skill_progressive_disclosure)
    &&& r.task.skill_progressive_disclosure == routed_over(is_task, cur.task.skill_progressive_disclosure, p.skill_progressive_disclosure)
    &&& r.mode.undo_enabled == routed_flat(is_task, cur.mode.undo_enabled, p.undo_enabled)
    &&& r.task.undo_enabled == routed_over(is_task, cur.task.undo_enabled, p.undo_enabled)
    &&& r.mode.subagent_max_depth == routed_flat(is_task, cur.mode.subagent_max_depth, p.subagent_max_depth)
    &&& r.task.subagent_max_depth == routed_over(is_task, cur.task.subagent_max_depth, p.subagent_max_depth)
    &&& r.mode.subagent_max_concurrency == routed_flat(is_task, cur.mode.subagent_max_concurrency, p.subagent_max_concurrency)
    &&& r.task.subagent_max_concurrency == routed_over(is_task, cur.task.subagent_max_concurrency, p.subagent_max_concurrency)
    &&& r.mode.subagent_result_max_chars == routed_flat(is_task, cur.mode.subagent_result_max_chars, p.subagent_result_max_chars)
    &&& r.task.subagent_result_max_chars == routed_over(is_task, cur.task.subagent_result_max_chars, p.subagent_result_max_chars)
    &&& r.mode.mcp_enabled == routed_flat(is_task, cur.mode.mcp_enabled, p.mcp_enabled)
    &&& r.task.mcp_enabled == routed_over(is_task, cur.task.mcp_enabled, p.mcp_enabled)
    &&& r.mode.task_persona_full == routed_flat(is_task, cur.mode.task_persona_full, p.task_persona_full)
    &&& r.task.task_persona_full == routed_over(is_task, cur.task.task_persona_full, p.task_persona_full)
    &&& r.mode.task_prompt_inject_enabled == routed_flat(is_task, cur.mode.task_prompt_inject_enabled, p.task_prompt_inject_enabled)
    &&& r.task.task_prompt_inject_enabled == routed_over(is_task, cur.task.task_prompt_inject_enabled, p.task_prompt_inject_enabled)
}

fn clone_strings(v: &Vec<String>) -> (r: Vec<String>)
    ensures
        r@ == v@,
{
    let mut r: Vec<String> = Vec::new();
    for i in 0..v.len()
        invariant
            r@ == v@.take(i as int),
    {
        r.push(v[i].clone());
        assert(r@ =~= v@.take(i + 1));
    }
    assert(v@.take(v@.len() as int) =~= v@);
    r
}

fn clone_strings_opt(o: &Option<Vec<String>>) -> (r: Option<Vec<String>>)
    ensures
        strings_opt(r) == strings_opt(*o),
{
    match o {
        Some(v) => Some(clone_strings(v)),
        None => None,
    }
}

fn clone_text_opt(o: &Option<String>) -> (r: Option<String>)
    ensures
        text_opt(r) == text_opt(*o),
{
    match o {
        Some(s) => Some(s.clone()),
        None => None,
    }
}

/// Writes `new`, when given, into the role-play value or, in task mode, the overlay.
fn route<T>(is_task: bool, flat: &mut T, over: &mut Option<T>, new: Option<T>)
    ensures
        match new {
            Some(x) => if is_task {
                *final(flat) == *old(flat) && *final(over) == Some(x)
            } else {
                *final(flat) == x && *final(over) == *old(over)
            },
            None => *final(flat) == *old(flat) && *final(over) == *old(over),
        },
{
    match new {
        Some(x) => {
            if is_task {
                *over = Some(x);
            } else {
                *flat = x;
            }
        },
        None => {},
    }
}

/// The write of an enumerated field (see `choice_new`).
fn pick_choice(incoming: Option<String>, choices: &[&str]) -> (r: Option<String>)
    ensures
        text_opt(r) == choice_new(text_opt(incoming), views(choices@)),
{
    match incoming {
        Some(x) => {
            let t = trim_chars(&chars_of(x.as_str()));
            let mut i: usize = 0;
            while i < choices.len()
                invariant
                    i <= choices@.len(),
                    t@ == trim(x@),
                    text_opt(incoming) == Some(x@),
                    forall|k: int| 0 <= k < i ==> views(choices@)[k] != t@,
                decreases choices.len() - i,
            {
                if crate::json::eq_chars(&chars_of(choices[i]), &t) {
                    assert(views(choices@)[i as int] == t@);
                    assert(views(choices@).contains(t@));
                    return Some(string_of(&t));
                }
                i = i + 1;
            }
            assert(!views(choices@).contains(t@));
            None
        },
        None => None,
    }
}

fn pick_bounded(incoming: Option<u32>, lo: u32, hi: u32) -> (r: Option<u32>)
    ensures
        r == bounded_new(incoming, lo, hi),
{
    match incoming {
        Some(x) => if lo <= x && x <= hi {
            Some(x)
        } else {
            None
        },
        None => None,
    }
}

fn clone_record(c: &SettingsRecord) -> (r: SettingsRecord)
    ensures
        r.openai_base_url@ == c.openai_base_url@,
        r.openai_api_key@ == c.openai_api_key@,
        r.model@ == c.model@,
        r.embedding_enabled == c.embedding_enabled,
        r.embedding_base_url@ == c.embedding_base_url@,
        r.embedding_api_key@ == c.embedding_api_key@,
        r.embedding_model@ == c.embedding_model@,
        r.embedding_dim == c.embedding_dim,
        r.tool_history_keep_rounds == c.tool_history_keep_rounds,
        r.tool_history_budget_tokens == c.tool_history_budget_tokens,
        r.mode.default_max_tokens == c.mode.default_max_tokens,
        r.task.default_max_tokens == c.task.default_max_tokens,
        r.mode.max_context_tokens == c.mode.max_context_tokens,
        r.task.max_context_tokens == c.task.max_context_tokens,
        r.mode.agent_system_prompt@ == c.mode.agent_system_prompt@,
        text_opt(r.task.agent_system_prompt) == text_opt(c.task.agent_system_prompt),
        r.mode.search_endpoint@ == c.mode.search_endpoint@,
        text_opt(r.task.search_endpoint) == text_opt(c.task.search_endpoint),
        r.mode.mvu_vars_position@ == c.mode.mvu_vars_position@,
        text_opt(r.task.mvu_vars_position) == text_opt(c.task.mvu_vars_position),
        r.mode.reflect_prompt@ == c.mode.reflect_prompt@,
        text_opt(r.task.reflect_prompt) == text_opt(c.task.reflect_prompt),
        r.mode.preset_tail_prompt@ == c.mode.preset_tail_prompt@,
        text_opt(r.task.preset_tail_prompt) == text_opt(c.task.preset_tail_prompt),
        r.mode.preset_tail_role@ == c.mode.preset_tail_role@,
        text_opt(r.task.preset_tail_role) == text_opt(c.task.preset_tail_role),
        r.mode.reflect_advice_prompt@ == c.mode.reflect_advice_prompt@,
        text_opt(r.task.reflect_advice_prompt) == text_opt(c.task.reflect_advice_prompt),
        r.mode.reflect_advice_role@ == c.mode.reflect_advice_role@,
        text_opt(r.task.reflect_advice_role) == text_opt(c.task.reflect_advice_role),
        r.mode.authorization_mode@ == c.mode.authorization_mode@,
        text_opt(r.task.authorization_mode) == text_opt(c.task.authorization_mode),
        r.mode.bypass_blacklist@ == c.mode.bypass_blacklist@,
        strings_opt(r.task.bypass_blacklist) == strings_opt(c.task.bypass_blacklist),
        r.mode.tool_authorization_timeout_secs == c.mode.tool_authorization_timeout_secs,
        r.task.tool_authorization_timeout_secs == c.task.tool_authorization_timeout_secs,
        r.mode.task_tool_policy@ == c.mode.task_tool_policy@,
        text_opt(r.task.task_tool_policy) == text_opt(c.task.task_tool_policy),
        r.mode.task_tool_allowlist@ == c.mode.task_tool_allowlist@,
        strings_opt(r.task.task_tool_allowlist) == strings_opt(c.task.task_tool_allowlist),
        r.mode.max_tool_rounds == c.mode.max_tool_rounds,
        r.task.max_tool_rounds == c.task.max_tool_rounds,
        r.mode.render_html == c.mode.render_html,
        r.task.render_html == c.task.render_html,
        r.mode.compaction_mode@ == c.mode.compaction_mode@,
        text_opt(r.task.compaction_mode) == text_opt(c.task.compaction_mode),
        r.mode.compaction_keep_recent == c.mode.compaction_keep_recent,
        r.task.compaction_keep_recent == c.task.compaction_keep_recent,
        r.mode.compaction_snip_bytes == c.mode.compaction_snip_bytes,
        r.task.compaction_snip_bytes == c.task.compaction_snip_bytes,
        r.mode.llm_request_log == c.mode.llm_request_log,
        r.task.llm_request_log == c.task.llm_request_log,
        r.mode.memory_distill_enabled == c.mode.memory_distill_enabled,
        r.task.memory_distill_enabled == c.task.memory_distill_enabled,
        r.mode.memory_inject_limit == c.mode.memory_inject_limit,
        r.task.memory_inject_limit == c.task.memory_inject_limit,
        r.mode.memory_inject_char_budget == c.mode.memory_inject_char_budget,
        r.task.memory_inject_char_budget == c.task.memory_inject_char_budget,
        r.mode.memory_max_entries == c.mode.memory_max_entries,
        r.task.memory_max_entries == c.task.memory_max_entries,
        r.mode.skill_progressive_disclosure == c.mode.skill_progressive_disclosure,
        r.task.skill_progressive_disclosure == c.task.skill_progressive_disclosure,
        r.mode.undo_enabled == c.mode.undo_enabled,
        r.task.undo_enabled == c.task.undo_enabled,
        r.mode.subagent_max_depth == c.mode.subagent_max_depth,
        r.task.subagent_max_depth == c.task.subagent_max_depth,
        r.mode.subagent_max_concurrency == c.mode.subagent_max_concurrency,
        r.task.subagent_max_concurrency == c.task.subagent_max_concurrency,
        r.mode.subagent_result_max_chars == c.mode.subagent_result_max_chars,
        r.task.subagent_result_max_chars == c.task.subagent_result_max_chars,
        r.mode.mcp_enabled == c.mode.mcp_enabled,
        r.task.mcp_enabled == c.task.mcp_enabled,
        r.mode.task_persona_full == c.mode.task_persona_full,
        r.task.task_persona_full == c.task.task_persona_full,
        r.mode.task_prompt_inject_enabled == c.mode.task_prompt_inject_enabled,
        r.task.task_prompt_inject_enabled == c.task.task_prompt_inject_enabled,
{
    SettingsRecord {
        openai_base_url: c.openai_base_url.clone(),
        openai_api_key: c.openai_api_key.clone(),
        model: c.model.clone(),
        embedding_enabled: c.embedding_enabled,
        embedding_base_url: c.embedding_base_url.clone(),
        embedding_api_key: c.embedding_api_key.clone(),
        embedding_model: c.embedding_model.clone(),
        embedding_dim: c.embedding_dim,
        tool_history_keep_rounds: c.tool_history_keep_rounds,
        tool_history_budget_tokens: c.tool_history_budget_tokens,
        mode: ModeSettings {
            default_max_tokens: c.mode.default_max_tokens,
            max_context_tokens: c.mode.max_context_tokens,
            agent_system_prompt: c.mode.agent_system_prompt.clone(),
            search_endpoint: c.mode.search_endpoint.clone(),
            mvu_vars_position: c.mode.mvu_vars_position.clone(),
            reflect_prompt: c.mode.reflect_prompt.clone(),
            preset_tail_prompt: c.mode.preset_tail_prompt.clone(),
            preset_tail_role: c.mode.preset_tail_role.clone(),
            reflect_advice_prompt: c.mode.reflect_advice_prompt.clone(),
            reflect_advice_role: c.mode.reflect_advice_role.clone(),
            authorization_mode: c.mode.authorization_mode.clone(),
            bypass_blacklist: clone_strings(&c.mode.bypass_blacklist),
            tool_authorization_timeout_secs: c.mode.tool_authorization_timeout_secs,
            task_tool_policy: c.mode.task_tool_policy.clone(),
            task_tool_allowlist: clone_strings(&c.mode.task_tool_allowlist),
            max_tool_rounds: c.mode.max_tool_rounds,
            render_html: c.mode.render_html,
            compaction_mode: c.mode.compaction_mode.clone(),
            compaction_keep_recent: c.mode.compaction_keep_recent,
            compaction_snip_bytes: c.mode.compaction_snip_bytes,
            llm_request_log: c.mode.llm_request_log,
            memory_distill_enabled: c.mode.memory_distill_enabled,
            memory_inject_limit: c.mode.memory_inject_limit,
            memory_inject_char_budget: c.mode.memory_inject_char_budget,
            memory_max_entries: c.mode.memory_max_entries,
            skill_progressive_disclosure: c.mode.skill_progressive_disclosure,
            undo_enabled: c.mode.undo_enabled,
            subagent_max_depth: c.mode.subagent_max_depth,
            subagent_max_concurrency: c.mode.subagent_max_concurrency,
            subagent_result_max_chars: c.mode.subagent_result_max_chars,
            mcp_enabled: c.mode.mcp_enabled,
            task_persona_full: c.mode.task_persona_full,
            task_prompt_inject_enabled: c.mode.task_prompt_inject_enabled,
        },
        task: TaskOverlay {
            default_max_tokens: c.task.default_max_tokens,
            max_context_tokens: c.task.max_context_tokens,
            agent_system_prompt: clone_text_opt(&c.task.agent_system_prompt),
            search_endpoint: clone_text_opt(&c.task.search_endpoint),
            mvu_vars_position: clone_text_opt(&c.task.mvu_vars_position),
            reflect_prompt: clone_text_opt(&c.task.reflect_prompt),
            preset_tail_prompt: clone_text_opt(&c.task.preset_tail_prompt),
            preset_tail_role: clone_text_opt(&c.task.preset_tail_role),
            reflect_advice_prompt: clone_text_opt(&c.task.reflect_advice_prompt),
            reflect_advice_role: clone_text_opt(&c.task.reflect_advice_role),
            authorization_mode: clone_text_opt(&c.task.authorization_mode),
            bypass_blacklist: clone_strings_opt(&c.task.bypass_blacklist),
            tool_authorization_timeout_secs: c.task.tool_authorization_timeout_secs,
            task_tool_policy: clone_text_opt(&c.task.task_tool_policy),
            task_tool_allowlist: clone_strings_opt(&c.task.task_tool_allowlist),
            max_tool_rounds: c.task.max_tool_rounds,
            render_html: c.task.render_html,
            compaction_mode: clone_text_opt(&c.task.compaction_mode),
            compaction_keep_recent: c.task.compaction_keep_recent,
            compaction_snip_bytes: c.task.compaction_snip_bytes,
            llm_request_log: c.task.llm_request_log,
            memory_distill_enabled: c.task.memory_distill_enabled,
            memory_inject_limit: c.task.memory_inject_limit,
            memory_inject_char_budget: c.task.memory_inject_char_budget,
            memory_max_entries: c.task.memory_max_entries,
            skill_progressive_disclosure: c.task.skill_progressive_disclosure,
            undo_enabled: c.task.undo_enabled,
            subagent_max_depth: c.task.subagent_max_depth,
            subagent_max_concurrency: c.task.subagent_max_concurrency,
            subagent_result_max_chars: c.task.subagent_result_max_chars,
            mcp_enabled: c.task.mcp_enabled,
            task_persona_full: c.task.task_persona_full,
            task_prompt_inject_enabled: c.task.task_prompt_inject_enabled,
        },
    }
}

/// Applies the shared fields of an update.
fn apply_shared(r: &mut SettingsRecord, p: &SettingsPatch)
    ensures
        final(r).openai_base_url@ == nonempty_or(old(r).openai_base_url@, text_opt(p.openai_base_url)),
        final(r).openai_api_key@ == kept_unless_blank(old(r).openai_api_key@, text_opt(p.openai_api_key)),
        final(r).model@ == kept_unless_blank(old(r).model@, text_opt(p.model)),
        final(r).embedding_enabled == (match p.embedding_enabled { Some(x) => x, None => old(r).embedding_enabled }),
        final(r).embedding_base_url@ == (match text_opt(p.embedding_base_url) { Some(x) => x, None => old(r).embedding_base_url@ }),
        final(r).embedding_api_key@ == kept_unless_blank(old(r).embedding_api_key@, text_opt(p.embedding_api_key)),
        final(r).embedding_model@ == (match text_opt(p.embedding_model) { Some(x) => trim(x), None => old(r).embedding_model@ }),
        final(r).embedding_dim == (match p.embedding_dim { Some(x) => x, None => old(r).embedding_dim }),
        final(r).tool_history_keep_rounds == (match p.tool_history_keep_rounds { Some(x) => x, None => old(r).tool_history_keep_rounds }),
        final(r).tool_history_budget_tokens == (match p.tool_history_budget_tokens { Some(x) => x, None => old(r).tool_history_budget_tokens }),
        final(r).mode == old(r).mode,
        final(r).task == old(r).task,
{
    match &p.openai_base_url {
        Some(x) => {
            if chars_of(x.as_str()).len() > 0 {
                r.openai_base_url = x.clone();
            }
        },
        None => {},
    }
    let s = patch_nonblank(r.openai_api_key.as_str(), match &p.openai_api_key {
        Some(x) => Some(x.as_str()),
        None => None,
    });
    r.openai_api_key = s;
    let s = patch_nonblank(r.model.as_str(), match &p.model {
        Some(x) => Some(x.as_str()),
        None => None,
    });
    r.model = s;
    match p.embedding_enabled {
        Some(x) => {
            r.embedding_enabled = x;
        },
        None => {},
    }
    match &p.embedding_base_url {
        Some(x) => {
            r.embedding_base_url = x.clone();
        },
        None => {},
    }
    let s = patch_nonblank(r.embedding_api_key.as_str(), match &p.embedding_api_key {
        Some(x) => Some(x.as_str()),
        None => None,
    });
    r.embedding_api_key = s;
    match &p.embedding_model {
        Some(x) => {
            r.embedding_model = string_of(&trim_chars(&chars_of(x.as_str())));
        },
        None => {},
    }
    match p.embedding_dim {
        Some(x) => {
            r.embedding_dim = x;
        },
        None => {},
    }
    match p.tool_history_keep_rounds {
        Some(x) => {
            r.tool_history_keep_rounds = x;
        },
        None => {},
    }
    match p.tool_history_budget_tokens {
        Some(x) => {
            r.tool_history_budget_tokens = x;
        },
        None => {},
    }
}

/// Applies mode fields of an update (part 1).
fn apply_mode_1(m: &mut ModeSettings, o: &mut TaskOverlay, p: &SettingsPatch, is_task: bool, default_search: &str)
    ensures
        final(m).default_max_tokens == routed_flat(is_task, old(m).default_max_tokens, p.default_max_tokens),
        final(o).default_max_tokens == routed_over(is_task, old(o).default_max_tokens, p.default_max_tokens),
        final(m).max_context_tokens == routed_flat(is_task, old(m).max_context_tokens, p.max_context_tokens),
        final(o).max_context_tokens == routed_over(is_task, old(o).max_context_tokens, p.max_context_tokens),
        final(m).agent_system_prompt@ == routed_flat(is_task, old(m).agent_system_prompt@, text_opt(p.agent_system_prompt)),
        text_opt(final(o).agent_system_prompt) == routed_over(is_task, text_opt(old(o).agent_system_prompt), text_opt(p.agent_system_prompt)),
        final(m).search_endpoint@ == routed_flat(is_task, old(m).search_endpoint@, default_new(text_opt(p.search_endpoint), default_search@)),
        text_opt(final(o).search_endpoint) == routed_over(is_task, text_opt(old(o).search_endpoint), default_new(text_opt(p.search_endpoint), default_search@)),
        final(m).mvu_vars_position@ == routed_flat(is_task, old(m).mvu_vars_position@, choice_new(text_opt(p.mvu_vars_position), seq!["system"@, "user_tail"@])),
        text_opt(final(o).mvu_vars_position) == routed_over(is_task, text_opt(old(o).mvu_vars_position), choice_new(text_opt(p.mvu_vars_position), seq!["system"@, "user_tail"@])),
        final(m).reflect_prompt@ == routed_flat(is_task, old(m).reflect_prompt@, text_opt(p.reflect_prompt)),
        text_opt(final(o).reflect_prompt) == routed_over(is_task, text_opt(old(o).reflect_prompt), text_opt(p.reflect_prompt)),
        final(m).preset_tail_prompt == old(m).preset_tail_prompt,
        final(o).preset_tail_prompt == old(o).preset_tail_prompt,
        final(m).preset_tail_role == old(m).preset_tail_role,
        final(o).preset_tail_role == old(o).preset_tail_role,
        final(m).reflect_advice_prompt == old(m).reflect_advice_prompt,
        final(o).reflect_advice_prompt == old(o).reflect_advice_prompt,
        final(m).reflect_advice_role == old(m).reflect_advice_role,
        final(o).reflect_advice_role == old(o).reflect_advice_role,
        final(m).authorization_mode == old(m).authorization_mode,
        final(o).authorization_mode == old(o).authorization_mode,
        final(m).bypass_blacklist == old(m).bypass_blacklist,
        final(o).bypass_blacklist == old(o).bypass_blacklist,
        final(m).tool_authorization_timeout_secs == old(m).tool_authorization_timeout_secs,
        final(o).tool_authorization_timeout_secs == old(o).tool_authorization_timeout_secs,
        final(m).task_tool_policy == old(m).task_tool_policy,
        final(o).task_tool_policy == old(o).task_tool_policy,
        final(m).task_tool_allowlist == old(m).task_tool_allowlist,
        final(o).task_tool_allowlist == old(o).task_tool_allowlist,
        final(m).max_tool_rounds == old(m).max_tool_rounds,
        final(o).max_tool_rounds == old(o).max_tool_rounds,
        final(m).render_html == old(m).render_html,
        final(o).render_html == old(o).render_html,
        final(m).compaction_mode == old(m).compaction_mode,
        final(o).compaction_mode == old(o).compaction_mode,
        final(m).compaction_keep_recent == old(m).compaction_keep_recent,
        final(o).compaction_keep_recent == old(o).compaction_keep_recent,
        final(m).compaction_snip_bytes == old(m).compaction_snip_bytes,
        final(o).compaction_snip_bytes == old(o).compaction_snip_bytes,
        final(m).llm_request_log == old(m).llm_request_log,
        final(o).llm_request_log == old(o).llm_request_log,
        final(m).memory_distill_enabled == old(m).memory_distill_enabled,
        final(o).memory_distill_enabled == old(o).memory_distill_enabled,
        final(m).memory_inject_limit == old(m).memory_inject_limit,
        final(o).memory_inject_limit == old(o).memory_inject_limit,
        final(m).memory_inject_char_budget == old(m).memory_inject_char_budget,
        final(o).memory_inject_char_budget == old(o).memory_inject_char_budget,
        final(m).memory_max_entries == old(m).memory_max_entries,
        final(o).memory_max_entries == old(o).memory_max_entries,
        final(m).skill_progressive_disclosure == old(m).skill_progressive_disclosure,
        final(o).skill_progressive_disclosure == old(o).skill_progressive_disclosure,
        final(m).undo_enabled == old(m).undo_enabled,
        final(o).undo_enabled == old(o).undo_enabled,
        final(m).subagent_max_depth == old(m).subagent_max_depth,
        final(o).subagent_max_depth == old(o).subagent_max_depth,
        final(m).subagent_max_concurrency == old(m).subagent_max_concurrency,
        final(o).subagent_max_concurrency == old(o).subagent_max_concurrency,
        final(m).subagent_result_max_chars == old(m).subagent_result_max_chars,
        final(o).subagent_result_max_chars == old(o).subagent_result_max_chars,
        final(m).mcp_enabled == old(m).mcp_enabled,
        final(o).mcp_enabled == old(o).mcp_enabled,
        final(m).task_persona_full == old(m).task_persona_full,
        final(o).task_persona_full == old(o).task_persona_full,
        final(m).task_prompt_inject_enabled == old(m).task_prompt_inject_enabled,
        final(o).task_prompt_inject_enabled == old(o).task_prompt_inject_enabled,
{
    let new_default_max_tokens = p.default_max_tokens;
    route(is_task, &mut m.default_max_tokens, &mut o.default_max_tokens, new_default_max_tokens);
    let new_max_context_tokens = p.max_context_tokens;
    route(is_task, &mut m.max_context_tokens, &mut o.max_context_tokens, new_max_context_tokens);
    let new_agent_system_prompt = clone_text_opt(&p.agent_system_prompt);
    route(is_task, &mut m.agent_system_prompt, &mut o.agent_system_prompt, new_agent_system_prompt);
    let new_search_endpoint = match &p.search_endpoint {
        Some(x) => Some(patch_or_default("", Some(x.as_str()), default_search)),
        None => None,
    };
    route(is_task, &mut m.search_endpoint, &mut o.search_endpoint, new_search_endpoint);
    let choices: [&str; 2] = ["system", "user_tail"];
    proof {
        reveal_strlit("system");
        reveal_strlit("user_tail");
        assert(views(choices@) =~= seq!["system"@, "user_tail"@]);
    }
    let new_mvu_vars_position = pick_choice(clone_text_opt(&p.mvu_vars_position), &choices);
    route(is_task, &mut m.mvu_vars_position, &mut o.mvu_vars_position, new_mvu_vars_position);
    let new_reflect_prompt = clone_text_opt(&p.reflect_prompt);
    route(is_task, &mut m.reflect_prompt, &mut o.reflect_prompt, new_reflect_prompt);
}

/// Applies mode fields of an update (part 2).
fn apply_mode_2(m: &mut ModeSettings, o: &mut TaskOverlay, p: &SettingsPatch, is_task: bool, default_search: &str)
    ensures
        final(m).preset_tail_prompt@ == routed_flat(is_task, old(m).preset_tail_prompt@, text_opt(p.preset_tail_prompt)),
        text_opt(final(o).preset_tail_prompt) == routed_over(is_task, text_opt(old(o).preset_tail_prompt), text_opt(p.preset_tail_prompt)),
        final(m).preset_tail_role@ == routed_flat(is_task, old(m).preset_tail_role@, choice_new(text_opt(p.preset_tail_role), seq!["user"@, "assistant"@])),
        text_opt(final(o).preset_tail_role) == routed_over(is_task, text_opt(old(o).preset_tail_role), choice_new(text_opt(p.preset_tail_role), seq!["user"@, "assistant"@])),
        final(m).reflect_advice_prompt@ == routed_flat(is_task, old(m).reflect_advice_prompt@, text_opt(p.reflect_advice_prompt)),
        text_opt(final(o).reflect_advice_prompt) == routed_over(is_task, text_opt(old(o).reflect_advice_prompt), text_opt(p.reflect_advice_prompt)),
        final(m).reflect_advice_role@ == routed_flat(is_task, old(m).reflect_advice_role@, choice_new(text_opt(p.reflect_advice_role), seq!["user"@, "assistant"@])),
        text_opt(final(o).reflect_advice_role) == routed_over(is_task, text_opt(old(o).reflect_advice_role), choice_new(text_opt(p.reflect_advice_role), seq!["user"@, "assistant"@])),
        final(m).authorization_mode@ == routed_flat(is_task, old(m).authorization_mode@, auth_new(text_opt(p.authorization_mode), p.bypass_mode)),
        text_opt(final(o).authorization_mode) == routed_over(is_task, text_opt(old(o).authorization_mode), auth_new(text_opt(p.authorization_mode), p.bypass_mode)),
        final(m).bypass_blacklist@ == routed_flat(is_task, old(m).bypass_blacklist@, strings_opt(p.bypass_blacklist)),
        strings_opt(final(o).bypass_blacklist) == routed_over(is_task, strings_opt(old(o).bypass_blacklist), strings_opt(p.bypass_blacklist)),
        final(m).default_max_tokens == old(m).default_max_tokens,
        final(o).default_max_tokens == old(o).default_max_tokens,
        final(m).max_context_tokens == old(m).max_context_tokens,
        final(o).max_context_tokens == old(o).max_context_tokens,
        final(m).agent_system_prompt == old(m).agent_system_prompt,
        final(o).agent_system_prompt == old(o).agent_system_prompt,
        final(m).search_endpoint == old(m).search_endpoint,
        final(o).search_endpoint == old(o).search_endpoint,
        final(m).mvu_vars_position == old(m).mvu_vars_position,
        final(o).mvu_vars_position == old(o).mvu_vars_position,
        final(m).reflect_prompt == old(m).reflect_prompt,
        final(o).reflect_prompt == old(o).reflect_prompt,
        final(m).tool_authorization_timeout_secs == old(m).tool_authorization_timeout_secs,
        final(o).tool_authorization_timeout_secs == old(o).tool_authorization_timeout_secs,
        final(m).task_tool_policy == old(m).task_tool_policy,
        final(o).task_tool_policy == old(o).task_tool_policy,
        final(m).task_tool_allowlist == old(m).task_tool_allowlist,
        final(o).task_tool_allowlist == old(o).task_tool_allowlist,
        final(m).max_tool_rounds == old(m).max_tool_rounds,
        final(o).max_tool_rounds == old(o).max_tool_rounds,
        final(m).render_html == old(m).render_html,
        final(o).render_html == old(o).render_html,
        final(m).compaction_mode == old(m).compaction_mode,
        final(o).compaction_mode == old(o).compaction_mode,
        final(m).compaction_keep_recent == old(m).compaction_keep_recent,
        final(o).compaction_keep_recent == old(o).compaction_keep_recent,
        final(m).compaction_snip_bytes == old(m).compaction_snip_bytes,
        final(o).compaction_snip_bytes == old(o).compaction_snip_bytes,
        final(m).llm_request_log == old(m).llm_request_log,
        final(o).llm_request_log == old(o).llm_request_log,
        final(m).memory_distill_enabled == old(m).memory_distill_enabled,
        final(o).memory_distill_enabled == old(o).memory_distill_enabled,
        final(m).memory_inject_limit == old(m).memory_inject_limit,
        final(o).memory_inject_limit == old(o).memory_inject_limit,
        final(m).memory_inject_char_budget == old(m).memory_inject_char_budget,
        final(o).memory_inject_char_budget == old(o).memory_inject_char_budget,
        final(m).memory_max_entries == old(m).memory_max_entries,
        final(o).memory_max_entries == old(o).memory_max_entries,
        final(m).skill_progressive_disclosure == old(m).skill_progressive_disclosure,
        final(o).skill_progressive_disclosure == old(o).skill_progressive_disclosure,
        final(m).undo_enabled == old(m).undo_enabled,
        final(o).undo_enabled == old(o).undo_enabled,
        final(m).subagent_max_depth == old(m).subagent_max_depth,
        final(o).subagent_max_depth == old(o).subagent_max_depth,
        final(m).subagent_max_concurrency == old(m).subagent_max_concurrency,
        final(o).subagent_max_concurrency == old(o).subagent_max_concurrency,
        final(m).subagent_result_max_chars == old(m).subagent_result_max_chars,
        final(o).subagent_result_max_chars == old(o).subagent_result_max_chars,
        final(m).mcp_enabled == old(m).mcp_enabled,
        final(o).mcp_enabled == old(o).mcp_enabled,
        final(m).task_persona_full == old(m).task_persona_full,
        final(o).task_persona_full == old(o).task_persona_full,
        final(m).task_prompt_inject_enabled == old(m).task_prompt_inject_enabled,
        final(o).task_prompt_inject_enabled == old(o).task_prompt_inject_enabled,
{
    let new_preset_tail_prompt = clone_text_opt(&p.preset_tail_prompt);
    route(is_task, &mut m.preset_tail_prompt, &mut o.preset_tail_prompt, new_preset_tail_prompt);
    let choices: [&str; 2] = ["user", "assistant"];
    proof {
        reveal_strlit("user");
        reveal_strlit("assistant");
        assert(views(choices@) =~= seq!["user"@, "assistant"@]);
    }
    let new_preset_tail_role = pick_choice(clone_text_opt(&p.preset_tail_role), &choices);
    route(is_task, &mut m.preset_tail_role, &mut o.preset_tail_role, new_preset_tail_role);
    let new_reflect_advice_prompt = clone_text_opt(&p.reflect_advice_prompt);
    route(is_task, &mut m.reflect_advice_prompt, &mut o.reflect_advice_prompt, new_reflect_advice_prompt);
    let choices: [&str; 2] = ["user", "assistant"];
    proof {
        reveal_strlit("user");
        reveal_strlit("assistant");
        assert(views(choices@) =~= seq!["user"@, "assistant"@]);
    }
    let new_reflect_advice_role = pick_choice(clone_text_opt(&p.reflect_advice_role), &choices);
    route(is_task, &mut m.reflect_advice_role, &mut o.reflect_advice_role, new_reflect_advice_role);
    let new_authorization_mode = match p.bypass_mode {
        Some(b) => {
            proof {
                reveal_strlit("bypass");
                reveal_strlit("strict");
            }
            Some(legacy_bypass_mode(b).to_owned())
        },
        None => match &p.authorization_mode {
            Some(m) => Some(string_of(&trim_chars(&chars_of(m.as_str())))),
            None => None,
        },
    };
    route(is_task, &mut m.authorization_mode, &mut o.authorization_mode, new_authorization_mode);
    let new_bypass_blacklist = clone_strings_opt(&p.bypass_blacklist);
    route(is_task, &mut m.bypass_blacklist, &mut o.bypass_blacklist, new_bypass_blacklist);
}

/// Applies mode fields of an update (part 3).
fn apply_mode_3(m: &mut ModeSettings, o: &mut TaskOverlay, p: &SettingsPatch, is_task: bool, default_search: &str)
    ensures
        final(m).tool_authorization_timeout_secs == routed_flat(is_task, old(m).tool_authorization_timeout_secs, p.tool_authorization_timeout_secs),
        final(o).tool_authorization_timeout_secs == routed_over(is_task, old(o).tool_authorization_timeout_secs, p.tool_authorization_timeout_secs),
        final(m).task_tool_policy@ == routed_flat(is_task, old(m).task_tool_policy@, text_opt(p.task_tool_policy)),
        text_opt(final(o).task_tool_policy) == routed_over(is_task, text_opt(old(o).task_tool_policy), text_opt(p.task_tool_policy)),
        final(m).task_tool_allowlist@ == routed_flat(is_task, old(m).task_tool_allowlist@, strings_opt(p.task_tool_allowlist)),
        strings_opt(final(o).task_tool_allowlist) == routed_over(is_task, strings_opt(old(o).task_tool_allowlist), strings_opt(p.task_tool_allowlist)),
        final(m).max_tool_rounds == routed_flat(is_task, old(m).max_tool_rounds, p.max_tool_rounds),
        final(o).max_tool_rounds == routed_over(is_task, old(o).max_tool_rounds, p.max_tool_rounds),
        final(m).render_html == routed_flat(is_task, old(m).render_html, p.render_html),
        final(o).render_html == routed_over(is_task, old(o).render_html, p.render_html),
        final(m).compaction_mode@ == routed_flat(is_task, old(m).compaction_mode@, choice_new(text_opt(p.compaction_mode), seq!["off"@, "manual"@, "auto"@])),
        text_opt(final(o).compaction_mode) == routed_over(is_task, text_opt(old(o).compaction_mode), choice_new(text_opt(p.compaction_mode), seq!["off"@, "manual"@, "auto"@])),
        final(m).default_max_tokens == old(m).default_max_tokens,
        final(o).default_max_tokens == old(o).default_max_tokens,
        final(m).max_context_tokens == old(m).max_context_tokens,
        final(o).max_context_tokens == old(o).max_context_tokens,
        final(m).agent_system_prompt == old(m).agent_system_prompt,
        final(o).agent_system_prompt == old(o).agent_system_prompt,
        final(m).search_endpoint == old(m).search_endpoint,
        final(o).search_endpoint == old(o).search_endpoint,
        final(m).mvu_vars_position == old(m).mvu_vars_position,
        final(o).mvu_vars_position == old(o).mvu_vars_position,
        final(m).reflect_prompt == old(m).reflect_prompt,
        final(o).reflect_prompt == old(o).reflect_prompt,
        final(m).preset_tail_prompt == old(m).preset_tail_prompt,
        final(o).preset_tail_prompt == old(o).preset_tail_prompt,
        final(m).preset_tail_role == old(m).preset_tail_role,
        final(o).preset_tail_role == old(o).preset_tail_role,
        final(m).reflect_advice_prompt == old(m).reflect_advice_prompt,
        final(o).reflect_advice_prompt == old(o).reflect_advice_prompt,
        final(m).reflect_advice_role == old(m).reflect_advice_role,
        final(o).reflect_advice_role == old(o).reflect_advice_role,
        final(m).authorization_mode == old(m).authorization_mode,
        final(o).authorization_mode == old(o).authorization_mode,
        final(m).bypass_blacklist == old(m).bypass_blacklist,
        final(o).bypass_blacklist == old(o).bypass_blacklist,
        final(m).compaction_keep_recent == old(m).compaction_keep_recent,
        final(o).compaction_keep_recent == old(o).compaction_keep_recent,
        final(m).compaction_snip_bytes == old(m).compaction_snip_bytes,
        final(o).compaction_snip_bytes == old(o).compaction_snip_bytes,
        final(m).llm_request_log == old(m).llm_request_log,
        final(o).llm_request_log == old(o).llm_request_log,
        final(m).memory_distill_enabled == old(m).memory_distill_enabled,
        final(o).memory_distill_enabled == old(o).memory_distill_enabled,
        final(m).memory_inject_limit == old(m).memory_inject_limit,
        final(o).memory_inject_limit == old(o).memory_inject_limit,
        final(m).memory_inject_char_budget == old(m).memory_inject_char_budget,
        final(o).memory_inject_char_budget == old(o).memory_inject_char_budget,
        final(m).memory_max_entries == old(m).memory_max_entries,
        final(o).memory_max_entries == old(o).memory_max_entries,
        final(m).skill_progressive_disclosure == old(m).skill_progressive_disclosure,
        final(o).skill_progressive_disclosure == old(o).skill_progressive_disclosure,
        final(m).undo_enabled == old(m).undo_enabled,
        final(o).undo_enabled == old(o).undo_enabled,
        final(m).subagent_max_depth == old(m).subagent_max_depth,
        final(o).subagent_max_depth == old(o).subagent_max_depth,
        final(m).subagent_max_concurrency == old(m).subagent_max_concurrency,
        final(o).subagent_max_concurrency == old(o).subagent_max_concurrency,
        final(m).subagent_result_max_chars == old(m).subagent_result_max_chars,
        final(o).subagent_result_max_chars == old(o).subagent_result_max_chars,
        final(m).mcp_enabled == old(m).mcp_enabled,
        final(o).mcp_enabled == old(o).mcp_enabled,
        final(m).task_persona_full == old(m).task_persona_full,
        final(o).task_persona_full == old(o).task_persona_full,
        final(m).task_prompt_inject_enabled == old(m).task_prompt_inject_enabled,
        final(o).task_prompt_inject_enabled == old(o).task_prompt_inject_enabled,
{
    let new_tool_authorization_timeout_secs = p.tool_authorization_timeout_secs;
    route(is_task, &mut m.tool_authorization_timeout_secs, &mut o.tool_authorization_timeout_secs, new_tool_authorization_timeout_secs);
    let new_task_tool_policy = clone_text_opt(&p.task_tool_policy);
    route(is_task, &mut m.task_tool_policy, &mut o.task_tool_policy, new_task_tool_policy);
    let new_task_tool_allowlist = clone_strings_opt(&p.task_tool_allowlist);
    route(is_task, &mut m.task_tool_allowlist, &mut o.task_tool_allowlist, new_task_tool_allowlist);
    let new_max_tool_rounds = p.max_tool_rounds;
    route(is_task, &mut m.max_tool_rounds, &mut o.max_tool_rounds, new_max_tool_rounds);
    let new_render_html = p.render_html;
    route(is_task, &mut m.render_html, &mut o.render_html, new_render_html);
    let choices: [&str; 3] = ["off", "manual", "auto"];
    proof {
        reveal_strlit("off");
        reveal_strlit("manual");
        reveal_strlit("auto");
        assert(views(choices@) =~= seq!["off"@, "manual"@, "auto"@]);
    }
    let new_compaction_mode = pick_choice(clone_text_opt(&p.compaction_mode), &choices);
    route(is_task, &mut m.compaction_mode, &mut o.compaction_mode, new_compaction_mode);
}

/// Applies mode fields of an update (part 4).
fn apply_mode_4(m: &mut ModeSettings, o: &mut TaskOverlay, p: &SettingsPatch, is_task: bool, default_search: &str)
    ensures
        final(m).compaction_keep_recent == routed_flat(is_task, old(m).compaction_keep_recent, bounded_new(p.compaction_keep_recent, 2, 200)),
        final(o).compaction_keep_recent == routed_over(is_task, old(o).compaction_keep_recent, bounded_new(p.compaction_keep_recent, 2, 200)),
        final(m).compaction_snip_bytes == routed_flat(is_task, old(m).compaction_snip_bytes, bounded_new(p.compaction_snip_bytes, 0, 1048576)),
        final(o).compaction_snip_bytes == routed_over(is_task, old(o).compaction_snip_bytes, bounded_new(p.compaction_snip_bytes, 0, 1048576)),
        final(m).llm_request_log == routed_flat(is_task, old(m).llm_request_log, p.llm_request_log),
        final(o).llm_request_log == routed_over(is_task, old(o).llm_request_log, p.llm_request_log),
        final(m).memory_distill_enabled == routed_flat(is_task, old(m).memory_distill_enabled, p.memory_distill_enabled),
        final(o).memory_distill_enabled == routed_over(is_task, old(o).memory_distill_enabled, p.memory_distill_enabled),
        final(m).memory_inject_limit == routed_flat(is_task, old(m).memory_inject_limit, bounded_new(p.memory_inject_limit, 0, 50)),
        final(o).memory_inject_limit == routed_over(is_task, old(o).memory_inject_limit, bounded_new(p.memory_inject_limit, 0, 50)),
        final(m).memory_inject_char_budget == routed_flat(is_task, old(m).memory_inject_char_budget, bounded_new(p.memory_inject_char_budget, 0, 20000)),
        final(o).memory_inject_char_budget == routed_over(is_task, old(o).memory_inject_char_budget, bounded_new(p.memory_inject_char_budget, 0, 20000)),
        final(m).default_max_tokens == old(m).default_max_tokens,
        final(o).default_max_tokens == old(o).default_max_tokens,
        final(m).max_context_tokens == old(m).max_context_tokens,
        final(o).max_context_tokens == old(o).max_context_tokens,
        final(m).agent_system_prompt == old(m).agent_system_prompt,
        final(o).agent_system_prompt == old(o).agent_system_prompt,
        final(m).search_endpoint == old(m).search_endpoint,
        final(o).search_endpoint == old(o).search_endpoint,
        final(m).mvu_vars_position == old(m).mvu_vars_position,
        final(o).mvu_vars_position == old(o).mvu_vars_position,
        final(m).reflect_prompt == old(m).reflect_prompt,
        final(o).reflect_prompt == old(o).reflect_prompt,
        final(m).preset_tail_prompt == old(m).preset_tail_prompt,
        final(o).preset_tail_prompt == old(o).preset_tail_prompt,
        final(m).preset_tail_role == old(m).preset_tail_role,
        final(o).preset_tail_role == old(o).preset_tail_role,
        final(m).reflect_advice_prompt == old(m).reflect_advice_prompt,
        final(o).reflect_advice_prompt == old(o).reflect_advice_prompt,
        final(m).reflect_advice_role == old(m).reflect_advice_role,
        final(o).reflect_advice_role == old(o).reflect_advice_role,
        final(m).authorization_mode == old(m).authorization_mode,
        final(o).authorization_mode == old(o).authorization_mode,
        final(m).bypass_blacklist == old(m).bypass_blacklist,
        final(o).bypass_blacklist == old(o).bypass_blacklist,
        final(m).tool_authorization_timeout_secs == old(m).tool_authorization_timeout_secs,
        final(o).tool_authorization_timeout_secs == old(o).tool_authorization_timeout_secs,
        final(m).task_tool_policy == old(m).task_tool_policy,
        final(o).task_tool_policy == old(o).task_tool_policy,
        final(m).task_tool_allowlist == old(m).task_tool_allowlist,
        final(o).task_tool_allowlist == old(o).task_tool_allowlist,
        final(m).max_tool_rounds == old(m).max_tool_rounds,
        final(o).max_tool_rounds == old(o).max_tool_rounds,
        final(m).render_html == old(m).render_html,
        final(o).render_html == old(o).render_html,
        final(m).compaction_mode == old(m).compaction_mode,
        final(o).compaction_mode == old(o).compaction_mode,
        final(m).memory_max_entries == old(m).memory_max_entries,
        final(o).memory_max_entries == old(o).memory_max_entries,
        final(m).skill_progressive_disclosure == old(m).skill_progressive_disclosure,
        final(o).skill_progressive_disclosure == old(o).skill_progressive_disclosure,
        final(m).undo_enabled == old(m).undo_enabled,
        final(o).undo_enabled == old(o).undo_enabled,
        final(m).subagent_max_depth == old(m).subagent_max_depth,
        final(o).subagent_max_depth == old(o).subagent_max_depth,
        final(m).subagent_max_concurrency == old(m).subagent_max_concurrency,
        final(o).subagent_max_concurrency == old(o).subagent_max_concurrency,
        final(m).subagent_result_max_chars == old(m).subagent_result_max_chars,
        final(o).subagent_result_max_chars == old(o).subagent_result_max_chars,
        final(m).mcp_enabled == old(m).mcp_enabled,
        final(o).mcp_enabled == old(o).mcp_enabled,
        final(m).task_persona_full == old(m).task_persona_full,
        final(o).task_persona_full == old(o).task_persona_full,
        final(m).task_prompt_inject_enabled == old(m).task_prompt_inject_enabled,
        final(o).task_prompt_inject_enabled == old(o).task_prompt_inject_enabled,
{
    let new_compaction_keep_recent = pick_bounded(p.compaction_keep_recent, 2, 200);
    route(is_task, &mut m.compaction_keep_recent, &mut o.compaction_keep_recent, new_compaction_keep_recent);
    let new_compaction_snip_bytes = pick_bounded(p.compaction_snip_bytes, 0, 1048576);
    route(is_task, &mut m.compaction_snip_bytes, &mut o.compaction_snip_bytes, new_compaction_snip_bytes);
    let new_llm_request_log = p.llm_request_log;
    route(is_task, &mut m.llm_request_log, &mut o.llm_request_log, new_llm_request_log);
    let new_memory_distill_enabled = p.memory_distill_enabled;
    route(is_task, &mut m.memory_distill_enabled, &mut o.memory_distill_enabled, new_memory_distill_enabled);
    let new_memory_inject_limit = pick_bounded(p.memory_inject_limit, 0, 50);
    route(is_task, &mut m.memory_inject_limit, &mut o.memory_inject_limit, new_memory_inject_limit);
    let new_memory_inject_char_budget = pick_bounded(p.memory_inject_char_budget, 0, 20000);
    route(is_task, &mut m.memory_inject_char_budget, &mut o.memory_inject_char_budget, new_memory_inject_char_budget);
}

/// Applies mode fields of an update (part 5).
fn apply_mode_5(m: &mut ModeSettings, o: &mut TaskOverlay, p: &SettingsPatch, is_task: bool, default_search: &str)
    ensures
        final(m).memory_max_entries == routed_flat(is_task, old(m).memory_max_entries, bounded_new(p.memory_max_entries, 0, 10000)),
        final(o).memory_max_entries == routed_over(is_task, old(o).memory_max_entries, bounded_new(p.memory_max_entries, 0, 10000)),
        final(m).skill_progressive_disclosure == routed_flat(is_task, old(m).skill_progressive_disclosure, p.skill_progressive_disclosure),
        final(o).skill_progressive_disclosure == routed_over(is_task, old(o).skill_progressive_disclosure, p.skill_progressive_disclosure),
        final(m).undo_enabled == routed_flat(is_task, old(m).undo_enabled, p.undo_enabled),
        final(o).undo_enabled == routed_over(is_task, old(o).undo_enabled, p.undo_enabled),
        final(m).subagent_max_depth == routed_flat(is_task, old(m).subagent_max_depth, p.subagent_max_depth),
        final(o).subagent_max_depth == routed_over(is_task, old(o).subagent_max_depth, p.subagent_max_depth),
        final(m).subagent_max_concurrency == routed_flat(is_task, old(m).subagent_max_concurrency, p.subagent_max_concurrency),
        final(o).subagent_max_concurrency == routed_over(is_task, old(o).subagent_max_concurrency, p.subagent_max_concurrency),
        final(m).subagent_result_max_chars == routed_flat(is_task, old(m).subagent_result_max_chars, p.subagent_result_max_chars),
        final(o).subagent_result_max_chars == routed_over(is_task, old(o).subagent_result_max_chars, p.subagent_result_max_chars),
        final(m).default_max_tokens == old(m).default_max_tokens,
        final(o).default_max_tokens == old(o).default_max_tokens,
        final(m).max_context_tokens == old(m).max_context_tokens,
        final(o).max_context_tokens == old(o).max_context_tokens,
        final(m).agent_system_prompt == old(m).agent_system_prompt,
        final(o).agent_system_prompt == old(o).agent_system_prompt,
        final(m).search_endpoint == old(m).search_endpoint,
        final(o).search_endpoint == old(o).search_endpoint,
        final(m).mvu_vars_position == old(m).mvu_vars_position,
        final(o).mvu_vars_position == old(o).mvu_vars_position,
        final(m).reflect_prompt == old(m).reflect_prompt,
        final(o).reflect_prompt == old(o).reflect_prompt,
        final(m).preset_tail_prompt == old(m).preset_tail_prompt,
        final(o).preset_tail_prompt == old(o).preset_tail_prompt,
        final(m).preset_tail_role == old(m).preset_tail_role,
        final(o).preset_tail_role == old(o).preset_tail_role,
        final(m).reflect_advice_prompt == old(m).reflect_advice_prompt,
        final(o).reflect_advice_prompt == old(o).reflect_advice_prompt,
        final(m).reflect_advice_role == old(m).reflect_advice_role,
        final(o).reflect_advice_role == old(o).reflect_advice_role,
        final(m).authorization_mode == old(m).authorization_mode,
        final(o).authorization_mode == old(o).authorization_mode,
        final(m).bypass_blacklist == old(m).bypass_blacklist,
        final(o).bypass_blacklist == old(o).bypass_blacklist,
        final(m).tool_authorization_timeout_secs == old(m).tool_authorization_timeout_secs,
        final(o).tool_authorization_timeout_secs == old(o).tool_authorization_timeout_secs,
        final(m).task_tool_policy == old(m).task_tool_policy,
        final(o).task_tool_policy == old(o).task_tool_policy,
        final(m).task_tool_allowlist == old(m).task_tool_allowlist,
        final(o).task_tool_allowlist == old(o).task_tool_allowlist,
        final(m).max_tool_rounds == old(m).max_tool_rounds,
        final(o).max_tool_rounds == old(o).max_tool_rounds,
        final(m).render_html == old(m).render_html,
        final(o).render_html == old(o).render_html,
        final(m).compaction_mode == old(m).compaction_mode,
        final(o).compaction_mode == old(o).compaction_mode,
        final(m).compaction_keep_recent == old(m).compaction_keep_recent,
        final(o).compaction_keep_recent == old(o).compaction_keep_recent,
        final(m).compaction_snip_bytes == old(m).compaction_snip_bytes,
        final(o).compaction_snip_bytes == old(o).compaction_snip_bytes,
        final(m).llm_request_log == old(m).llm_request_log,
        final(o).llm_request_log == old(o).llm_request_log,
        final(m).memory_distill_enabled == old(m).memory_distill_enabled,
        final(o).memory_distill_enabled == old(o).memory_distill_enabled,
        final(m).memory_inject_limit == old(m).memory_inject_limit,
        final(o).memory_inject_limit == old(o).memory_inject_limit,
        final(m).memory_inject_char_budget == old(m).memory_inject_char_budget,
        final(o).memory_inject_char_budget == old(o).memory_inject_char_budget,
        final(m).mcp_enabled == old(m).mcp_enabled,
        final(o).mcp_enabled == old(o).mcp_enabled,
        final(m).task_persona_full == old(m).task_persona_full,
        final(o).task_persona_full == old(o).task_persona_full,
        final(m).task_prompt_inject_enabled == old(m).task_prompt_inject_enabled,
        final(o).task_prompt_inject_enabled == old(o).task_prompt_inject_enabled,
{
    let new_memory_max_entries = pick_bounded(p.memory_max_entries, 0, 10000);
    route(is_task, &mut m.memory_max_entries, &mut o.memory_max_entries, new_memory_max_entries);
    let new_skill_progressive_disclosure = p.skill_progressive_disclosure;
    route(is_task, &mut m.skill_progressive_disclosure, &mut o.skill_progressive_disclosure, new_skill_progressive_disclosure);
    let new_undo_enabled = p.undo_enabled;
    route(is_task, &mut m.undo_enabled, &mut o.undo_enabled, new_undo_enabled);
    let new_subagent_max_depth = p.subagent_max_depth;
    route(is_task, &mut m.subagent_max_depth, &mut o.subagent_max_depth, new_subagent_max_depth);
    let new_subagent_max_concurrency = p.subagent_max_concurrency;
    route(is_task, &mut m.subagent_max_concurrency, &mut o.subagent_max_concurrency, new_subagent_max_concurrency);
    let new_subagent_result_max_chars = p.subagent_result_max_chars;
    route(is_task, &mut m.subagent_result_max_chars, &mut o.subagent_result_max_chars, new_subagent_result_max_chars);
}

/// Applies mode fields of an update (part 6).
fn apply_mode_6(m: &mut ModeSettings, o: &mut TaskOverlay, p: &SettingsPatch, is_task: bool, default_search: &str)
    ensures
        final(m).mcp_enabled == routed_flat(is_task, old(m).mcp_enabled, p.mcp_enabled),
        final(o).mcp_enabled == routed_over(is_task, old(o).mcp_enabled, p.mcp_enabled),
        final(m).task_persona_full == routed_flat(is_task, old(m).task_persona_full, p.task_persona_full),
        final(o).task_persona_full == routed_over(is_task, old(o).task_persona_full, p.task_persona_full),
        final(m).task_prompt_inject_enabled == routed_flat(is_task, old(m).task_prompt_inject_enabled, p.task_prompt_inject_enabled),
        final(o).task_prompt_inject_enabled == routed_over(is_task, old(o).task_prompt_inject_enabled, p.task_prompt_inject_enabled),
        final(m).default_max_tokens == old(m).default_max_tokens,
        final(o).default_max_tokens == old(o).default_max_tokens,
        final(m).max_context_tokens == old(m).max_context_tokens,
        final(o).max_context_tokens == old(o).max_context_tokens,
        final(m).agent_system_prompt == old(m).agent_system_prompt,
        final(o).agent_system_prompt == old(o).agent_system_prompt,
        final(m).search_endpoint == old(m).search_endpoint,
        final(o).search_endpoint == old(o).search_endpoint,
        final(m).mvu_vars_position == old(m).mvu_vars_position,
        final(o).mvu_vars_position == old(o).mvu_vars_position,
        final(m).reflect_prompt == old(m).reflect_prompt,
        final(o).reflect_prompt == old(o).reflect_prompt,
        final(m).preset_tail_prompt == old(m).preset_tail_prompt,
        final(o).preset_tail_prompt == old(o).preset_tail_prompt,
        final(m).preset_tail_role == old(m).preset_tail_role,
        final(o).preset_tail_role == old(o).preset_tail_role,
        final(m).reflect_advice_prompt == old(m).reflect_advice_prompt,
        final(o).reflect_advice_prompt == old(o).reflect_advice_prompt,
        final(m).reflect_advice_role == old(m).reflect_advice_role,
        final(o).reflect_advice_role == old(o).reflect_advice_role,
        final(m).authorization_mode == old(m).authorization_mode,
        final(o).authorization_mode == old(o).authorization_mode,
        final(m).bypass_blacklist == old(m).bypass_blacklist,
        final(o).bypass_blacklist == old(o).bypass_blacklist,
        final(m).tool_authorization_timeout_secs == old(m).tool_authorization_timeout_secs,
        final(o).tool_authorization_timeout_secs == old(o).tool_authorization_timeout_secs,
        final(m).task_tool_policy == old(m).task_tool_policy,
        final(o).task_tool_policy == old(o).task_tool_policy,
        final(m).task_tool_allowlist == old(m).task_tool_allowlist,
        final(o).task_tool_allowlist == old(o).task_tool_allowlist,
        final(m).max_tool_rounds == old(m).max_tool_rounds,
        final(o).max_tool_rounds == old(o).max_tool_rounds,
        final(m).render_html == old(m).render_html,
        final(o).render_html == old(o).render_html,
        final(m).compaction_mode == old(m).compaction_mode,
        final(o).compaction_mode == old(o).compaction_mode,
        final(m).compaction_keep_recent == old(m).compaction_keep_recent,
        final(o).compaction_keep_recent == old(o).compaction_keep_recent,
        final(m).compaction_snip_bytes == old(m).compaction_snip_bytes,
        final(o).compaction_snip_bytes == old(o).compaction_snip_bytes,
        final(m).llm_request_log == old(m).llm_request_log,
        final(o).llm_request_log == old(o).llm_request_log,
        final(m).memory_distill_enabled == old(m).memory_distill_enabled,
        final(o).memory_distill_enabled == old(o).memory_distill_enabled,
        final(m).memory_inject_limit == old(m).memory_inject_limit,
        final(o).memory_inject_limit == old(o).memory_inject_limit,
        final(m).memory_inject_char_budget == old(m).memory_inject_char_budget,
        final(o).memory_inject_char_budget == old(o).memory_inject_char_budget,
        final(m).memory_max_entries == old(m).memory_max_entries,
        final(o).memory_max_entries == old(o).memory_max_entries,
        final(m).skill_progressive_disclosure == old(m).skill_progressive_disclosure,
        final(o).skill_progressive_disclosure == old(o).skill_progressive_disclosure,
        final(m).undo_enabled == old(m).undo_enabled,
        final(o).undo_enabled == old(o).undo_enabled,
        final(m).subagent_max_depth == old(m).subagent_max_depth,
        final(o).subagent_max_depth == old(o).subagent_max_depth,
        final(m).subagent_max_concurrency == old(m).subagent_max_concurrency,
        final(o).subagent_max_concurrency == old(o).subagent_max_concurrency,
        final(m).subagent_result_max_chars == old(m).subagent_result_max_chars,
        final(o).subagent_result_max_chars == old(o).subagent_result_max_chars,
{
    let new_mcp_enabled = p.mcp_enabled;
    route(is_task, &mut m.mcp_enabled, &mut o.mcp_enabled, new_mcp_enabled);
    let new_task_persona_full = p.task_persona_full;
    route(is_task, &mut m.task_persona_full, &mut o.task_persona_full, new_task_persona_full);
    let new_task_prompt_inject_enabled = p.task_prompt_inject_enabled;
    route(is_task, &mut m.task_prompt_inject_enabled, &mut o.task_prompt_inject_enabled, new_task_prompt_inject_enabled);
}

/// Applies a settings update in `mode` to the current settings (see
/// `update_applied`), or refuses the whole update with the first field out
/// of its range (see `settings_error`); the current settings are left as
/// they were either way. `default_search` is the search endpoint a blank one
/// falls back to.
pub fn apply_settings_update(current: &SettingsRecord, patch: &SettingsPatch, mode: AppMode, default_search: &str) -> (r: Result<SettingsRecord, BareError>)
    ensures
        r is Err <==> settings_error(limits_of(*patch)) is Some,
        r matches Err(e) ==> settings_error(limits_of(*patch)) == Some(e.error@) && e.status == 400,
        r matches Ok(x) ==> update_applied(*current, *patch, mode, default_search, x),
{
    let limits = SettingsLimits {
        embedding_dim: patch.embedding_dim,
        default_max_tokens: patch.default_max_tokens,
        max_context_tokens: patch.max_context_tokens,
        authorization_mode: clone_text_opt(&patch.authorization_mode),
        tool_authorization_timeout_secs: patch.tool_authorization_timeout_secs,
        task_tool_policy: clone_text_opt(&patch.task_tool_policy),
        max_tool_rounds: patch.max_tool_rounds,
        compaction_threshold_in_range: patch.compaction_threshold_in_range,
        subagent_max_depth: patch.subagent_max_depth,
        subagent_max_concurrency: patch.subagent_max_concurrency,
        subagent_result_max_chars: patch.subagent_result_max_chars,
        tool_history_keep_rounds: patch.tool_history_keep_rounds,
        tool_history_budget_tokens: patch.tool_history_budget_tokens,
    };
    assert(settings_error(limits) == settings_error(limits_of(*patch)));
    match check_settings_limits(&limits) {
        Ok(()) => {},
        Err(e) => {
            return Err(e);
        },
    }
    let is_task = match mode {
        AppMode::Task => true,
        AppMode::Roleplay => false,
    };
    let mut r = clone_record(current);
    apply_shared(&mut r, patch);
    apply_mode_1(&mut r.mode, &mut r.task, patch, is_task, default_search);
    apply_mode_2(&mut r.mode, &mut r.task, patch, is_task, default_search);
    apply_mode_3(&mut r.mode, &mut r.task, patch, is_task, default_search);
    apply_mode_4(&mut r.mode, &mut r.task, patch, is_task, default_search);
    apply_mode_5(&mut r.mode, &mut r.task, patch, is_task, default_search);
    apply_mode_6(&mut r.mode, &mut r.task, patch, is_task, default_search);
    Ok(r)
}

} // verus!
