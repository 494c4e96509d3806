use kedai_server::api::plugins::{is_json_file_name, plugin_config_complete, register_plugins, sanitize_plugin_filename};

#[test]
fn sanitize_rejects_traversal_and_illegal_chars() {
    assert_eq!(sanitize_plugin_filename("../evil.json"), None);
    assert_eq!(sanitize_plugin_filename("..\\evil.json"), None);
    assert_eq!(sanitize_plugin_filename("sub/tool.json"), None);
    assert_eq!(sanitize_plugin_filename("my tool.json"), None);
    assert_eq!(sanitize_plugin_filename("插件.json"), None);
    assert_eq!(sanitize_plugin_filename("a:b.json"), None);
    assert_eq!(sanitize_plugin_filename("a*.json"), None);
    assert_eq!(sanitize_plugin_filename("///"), None);
    assert_eq!(sanitize_plugin_filename(""), None);
}

#[test]
fn sanitize_accepts_legal_names() {
    assert_eq!(sanitize_plugin_filename("weather.json"), Some("weather.json".to_string()));
    assert_eq!(sanitize_plugin_filename("my-tool_v2.1.json"), Some("my-tool_v2.1.json".to_string()));
    assert_eq!(sanitize_plugin_filename("..json"), Some("..json".to_string()));
}

#[test]
fn builtin_names_are_refused_others_registered() {
    let names = vec!["bash".to_string(), "weather".to_string(), "write".to_string(), "dice".to_string()];
    let plan = register_plugins(&names, &vec![true, false, true, false]);
    assert_eq!(plan.register, vec![1, 3]);
    assert_eq!(
        plan.errors,
        vec![
            "bash: 与内置工具重名，已拒绝注册（插件不得劫持内置工具）".to_string(),
            "write: 与内置工具重名，已拒绝注册（插件不得劫持内置工具）".to_string(),
        ]
    );
}

#[test]
fn plugin_file_checks() {
    assert!(is_json_file_name("Tool.JSON"));
    assert!(!is_json_file_name("tool.js"));
    assert!(plugin_config_complete("t", "return 1"));
    assert!(!plugin_config_complete(" ", "return 1"));
    assert!(!plugin_config_complete("t", "\n"));
}
