use kedai_server::api::settings::AppMode;
use kedai_server::api::settings_update::{apply_settings_update, ModeSettings, SettingsPatch, SettingsRecord, TaskOverlay};

fn record() -> SettingsRecord {
    SettingsRecord {
        openai_base_url: "https://api.example.com/v1".to_string(),
        openai_api_key: "k1".to_string(),
        model: "m1".to_string(),
        embedding_enabled: false,
        embedding_base_url: String::new(),
        embedding_api_key: String::new(),
        embedding_model: "e1".to_string(),
        embedding_dim: 0,
        tool_history_keep_rounds: 0,
        tool_history_budget_tokens: 0,
        mode: ModeSettings {
            default_max_tokens: 4096,
            max_context_tokens: 131072,
            agent_system_prompt: String::new(),
            search_endpoint: "https://search.example/".to_string(),
            mvu_vars_position: "system".to_string(),
            reflect_prompt: String::new(),
            preset_tail_prompt: String::new(),
            preset_tail_role: "user".to_string(),
            reflect_advice_prompt: String::new(),
            reflect_advice_role: "user".to_string(),
            authorization_mode: "strict".to_string(),
            bypass_blacklist: Vec::new(),
            tool_authorization_timeout_secs: 300,
            task_tool_policy: "all".to_string(),
            task_tool_allowlist: Vec::new(),
            max_tool_rounds: 32,
            render_html: false,
            compaction_mode: "off".to_string(),
            compaction_keep_recent: 10,
            compaction_snip_bytes: 0,
            llm_request_log: false,
            memory_distill_enabled: false,
            memory_inject_limit: 0,
            memory_inject_char_budget: 0,
            memory_max_entries: 0,
            skill_progressive_disclosure: false,
            undo_enabled: false,
            subagent_max_depth: 2,
            subagent_max_concurrency: 6,
            subagent_result_max_chars: 4000,
            mcp_enabled: false,
            task_persona_full: false,
            task_prompt_inject_enabled: false,
        },
        task: TaskOverlay {
            default_max_tokens: None,
            max_context_tokens: None,
            agent_system_prompt: None,
            search_endpoint: None,
            mvu_vars_position: None,
            reflect_prompt: None,
            preset_tail_prompt: None,
            preset_tail_role: None,
            reflect_advice_prompt: None,
            reflect_advice_role: None,
            authorization_mode: None,
            bypass_blacklist: None,
            tool_authorization_timeout_secs: None,
            task_tool_policy: None,
            task_tool_allowlist: None,
            max_tool_rounds: None,
            render_html: None,
            compaction_mode: None,
            compaction_keep_recent: None,
            compaction_snip_bytes: None,
            llm_request_log: None,
            memory_distill_enabled: None,
            memory_inject_limit: None,
            memory_inject_char_budget: None,
            memory_max_entries: None,
            skill_progressive_disclosure: None,
            undo_enabled: None,
            subagent_max_depth: None,
            subagent_max_concurrency: None,
            subagent_result_max_chars: None,
            mcp_enabled: None,
            task_persona_full: None,
            task_prompt_inject_enabled: None,
        },
    }
}

fn patch() -> SettingsPatch {
    SettingsPatch {
        openai_base_url: None,
        openai_api_key: None,
        model: None,
        embedding_enabled: None,
        embedding_base_url: None,
        embedding_api_key: None,
        embedding_model: None,
        embedding_dim: None,
        tool_history_keep_rounds: None,
        tool_history_budget_tokens: None,
        default_max_tokens: None,
        max_context_tokens: None,
        agent_system_prompt: None,
        search_endpoint: None,
        mvu_vars_position: None,
        reflect_prompt: None,
        preset_tail_prompt: None,
        preset_tail_role: None,
        reflect_advice_prompt: None,
        reflect_advice_role: None,
        authorization_mode: None,
        bypass_blacklist: None,
        tool_authorization_timeout_secs: None,
        task_tool_policy: None,
        task_tool_allowlist: None,
        max_tool_rounds: None,
        render_html: None,
        compaction_mode: None,
        compaction_keep_recent: None,
        compaction_snip_bytes: None,
        llm_request_log: None,
        memory_distill_enabled: None,
        memory_inject_limit: None,
        memory_inject_char_budget: None,
        memory_max_entries: None,
        skill_progressive_disclosure: None,
        undo_enabled: None,
        subagent_max_depth: None,
        subagent_max_concurrency: None,
        subagent_result_max_chars: None,
        mcp_enabled: None,
        task_persona_full: None,
        task_prompt_inject_enabled: None,
        bypass_mode: None,
        compaction_threshold_in_range: None,
    }
}

const DDG: &str = "https://html.duckduckgo.com/html/";

#[test]
fn settings_update_writes_role_play_fields() {
    let cur = record();
    let mut p = patch();
    p.model = Some("  m2 ".into());
    p.openai_api_key = Some("   ".into());
    p.default_max_tokens = Some(8192);
    p.mvu_vars_position = Some(" user_tail ".into());
    p.preset_tail_role = Some("narrator".into());
    p.search_endpoint = Some("  ".into());
    p.compaction_keep_recent = Some(1);
    p.memory_inject_limit = Some(20);
    p.authorization_mode = Some(" loose ".into());
    let r = apply_settings_update(&cur, &p, AppMode::Roleplay, DDG).unwrap();
    assert_eq!(r.model, "m2");
    assert_eq!(r.openai_api_key, "k1");
    assert_eq!(r.mode.default_max_tokens, 8192);
    assert_eq!(r.mode.mvu_vars_position, "user_tail");
    assert_eq!(r.mode.preset_tail_role, "user");
    assert_eq!(r.mode.search_endpoint, DDG);
    assert_eq!(r.mode.compaction_keep_recent, 10);
    assert_eq!(r.mode.memory_inject_limit, 20);
    assert_eq!(r.mode.authorization_mode, "loose");
    assert_eq!(r.task.default_max_tokens, None);
}

#[test]
fn settings_update_in_task_mode_writes_the_overlay() {
    let cur = record();
    let mut p = patch();
    p.default_max_tokens = Some(2048);
    p.reflect_prompt = Some("反思".into());
    p.bypass_mode = Some(true);
    p.authorization_mode = Some("strict".into());
    p.tool_history_keep_rounds = Some(8);
    let r = apply_settings_update(&cur, &p, AppMode::Task, DDG).unwrap();
    assert_eq!(r.mode.default_max_tokens, 4096);
    assert_eq!(r.task.default_max_tokens, Some(2048));
    assert_eq!(r.task.reflect_prompt.as_deref(), Some("反思"));
    // The older switch is applied after the mode and wins.
    assert_eq!(r.task.authorization_mode.as_deref(), Some("bypass"));
    assert_eq!(r.mode.authorization_mode, "strict");
    // Tool-history limits are shared by both modes.
    assert_eq!(r.tool_history_keep_rounds, 8);
}

#[test]
fn settings_update_refused_by_first_bad_field() {
    let cur = record();
    let mut p = patch();
    p.embedding_dim = Some(8);
    p.default_max_tokens = Some(0);
    let e = apply_settings_update(&cur, &p, AppMode::Roleplay, DDG).err().unwrap();
    assert_eq!(e.status, 400);
    assert_eq!(e.error, "embedding_dim 必须为 0(自动)或 16..=8192");
    p.embedding_dim = Some(0);
    let e = apply_settings_update(&cur, &p, AppMode::Roleplay, DDG).err().unwrap();
    assert_eq!(e.error, "default_max_tokens 必须在 1..=65536");
    let mut q = patch();
    q.authorization_mode = Some("open".into());
    let e = apply_settings_update(&cur, &q, AppMode::Task, DDG).err().unwrap();
    assert_eq!(e.error, "authorization_mode 仅支持 strict / loose / bypass");
    // The current settings are untouched by a refusal.
    assert_eq!(cur.mode.default_max_tokens, 4096);
}

