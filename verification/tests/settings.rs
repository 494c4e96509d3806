use kedai_server::api::settings::{
    legacy_bypass_mode, patch_bounded, patch_choice, patch_nonblank, patch_or_default,
    check_settings_limits, connector_target, push_preview_layer, refresh_models_note, stable_history_hash,
    switch_model_name, AppMode, ModeQuery, SettingsLimits,
};

fn limits() -> SettingsLimits {
    SettingsLimits {
        embedding_dim: None,
        default_max_tokens: None,
        max_context_tokens: None,
        authorization_mode: None,
        tool_authorization_timeout_secs: None,
        task_tool_policy: None,
        max_tool_rounds: None,
        compaction_threshold_in_range: None,
        subagent_max_depth: None,
        subagent_max_concurrency: None,
        subagent_result_max_chars: None,
        tool_history_keep_rounds: None,
        tool_history_budget_tokens: None,
    }
}

#[test]
fn mode_query_defaults_to_roleplay() {
    assert_eq!(ModeQuery { mode: Some("task".into()) }.app_mode(), AppMode::Task);
    assert_eq!(ModeQuery { mode: Some("roleplay".into()) }.app_mode(), AppMode::Roleplay);
    assert_eq!(ModeQuery { mode: Some("other".into()) }.app_mode(), AppMode::Roleplay);
    assert_eq!(ModeQuery { mode: None }.app_mode(), AppMode::Roleplay);
}

#[test]
fn history_hash_is_fnv1a_hex() {
    assert_eq!(stable_history_hash(""), "cbf29ce484222325");
    assert_eq!(stable_history_hash("a"), "af63dc4c8601ec8c");
    assert_eq!(stable_history_hash("foobar"), "85944171f73967e8");
    assert_eq!(stable_history_hash("你好").len(), 16);
}

#[test]
fn preview_layers_skip_blank_content() {
    let mut layers = Vec::new();
    push_preview_layer(&mut layers, "a".into(), "system".into(), 5, "  ".into());
    assert!(layers.is_empty());
    push_preview_layer(&mut layers, "a".into(), "system".into(), 5, "x".into());
    push_preview_layer(&mut layers, "b".into(), "user".into(), 4, "y".into());
    assert_eq!(layers.len(), 2);
    assert_eq!(layers[1].order, 1);
    assert_eq!(layers[1].source, "b");
}

#[test]
fn settings_limits_refuse_in_order() {
    assert!(check_settings_limits(&limits()).is_ok());
    let mut l = limits();
    l.embedding_dim = Some(8);
    l.max_tool_rounds = Some(0);
    assert_eq!(check_settings_limits(&l).unwrap_err().error, "embedding_dim 必须为 0(自动)或 16..=8192");
    let mut l = limits();
    l.authorization_mode = Some(" loose ".into());
    l.task_tool_policy = Some("some".into());
    assert_eq!(check_settings_limits(&l).unwrap_err().error, "task_tool_policy 仅支持 all / deny_dangerous / allowlist");
    let mut l = limits();
    l.compaction_threshold_in_range = Some(false);
    assert_eq!(check_settings_limits(&l).unwrap_err().error, "compaction_threshold 必须在 0.5..=0.95");
    let mut l = limits();
    l.tool_history_budget_tokens = Some(100);
    assert_eq!(check_settings_limits(&l).unwrap_err().status, 400);
    let mut l = limits();
    l.tool_history_budget_tokens = Some(0);
    l.default_max_tokens = Some(65536);
    l.max_context_tokens = Some(65536);
    assert!(check_settings_limits(&l).is_ok());
}

#[test]
fn connector_and_model_switch_decisions() {
    assert_eq!(connector_target("mock", "http://x", ""), "openai-compatible");
    assert_eq!(connector_target("mock", "", ""), "mock");
    assert_eq!(connector_target("openai-compatible", "", ""), "openai-compatible");
    assert_eq!(switch_model_name(" gpt ").unwrap(), "gpt");
    assert_eq!(switch_model_name(" ").unwrap_err().error, "缺少 model");
    assert_eq!(
        refresh_models_note("openai-compatible", &vec!["m".to_string()]).as_deref(),
        Some("API 未返回完整模型列表(该服务可能不支持 /models 接口);已保留当前模型「m」")
    );
    assert_eq!(refresh_models_note("mock", &vec![]), None);
    assert_eq!(refresh_models_note("openai-compatible", &vec!["a".into(), "b".into()]), None);
}

#[test]
fn update_patches_keep_ignore_or_clear() {
    assert_eq!(patch_nonblank("sk-old", Some("  sk-new ")), "sk-new");
    assert_eq!(patch_nonblank("sk-old", Some("   ")), "sk-old");
    assert_eq!(patch_nonblank("sk-old", None), "sk-old");
    assert_eq!(patch_or_default("https://a", Some(" "), "https://default"), "https://default");
    assert_eq!(patch_or_default("https://a", Some(" https://b "), "https://default"), "https://b");
    assert_eq!(patch_or_default("https://a", None, "https://default"), "https://a");
    let roles = ["user", "assistant"];
    assert_eq!(patch_choice("user", Some(" assistant "), &roles), "assistant");
    assert_eq!(patch_choice("user", Some("system"), &roles), "user");
    assert_eq!(patch_choice("auto", Some("manual"), &["off", "manual", "auto"]), "manual");
    assert_eq!(patch_bounded(20, Some(51), 0, 50), 20);
    assert_eq!(patch_bounded(20, Some(0), 0, 50), 0);
    assert_eq!(patch_bounded(8, Some(1), 2, 200), 8);
    assert_eq!(patch_bounded(8, None, 2, 200), 8);
    assert_eq!(legacy_bypass_mode(true), "bypass");
    assert_eq!(legacy_bypass_mode(false), "strict");
    let once = patch_nonblank("k", Some(" v "));
    assert_eq!(patch_nonblank(&once, Some(" v ")), once);
}

#[test]
fn backend_rebuilt_only_when_connection_changes() {
    let r = kedai_server::api::settings::connector_rebuild;
    assert_eq!(r("mock", "", "", "m", "", "", "m"), None);
    assert_eq!(r("mock", "", "", "m", "https://a/v1", "", "m").as_deref(), Some("openai-compatible"));
    assert_eq!(r("mock", "", "", "m", "", "", "m2").as_deref(), Some("mock"));
    assert_eq!(r("openai-compatible", "u", "k", "m", "u", "k2", "m").as_deref(), Some("openai-compatible"));
}
