use kedai_server::config::{env_config, fresh_api_token, EnvValues};

fn unset() -> EnvValues {
    EnvValues {
        host: None,
        port: None,
        connector: None,
        openai_base_url: None,
        openai_api_key: None,
        openai_model: None,
        default_max_tokens: None,
        default_max_context_tokens: None,
        log_level: None,
        allow_remote: None,
        strict_client_header: None,
        api_token: None,
    }
}

#[test]
fn defaults_when_nothing_is_set() {
    let c = env_config(&unset());
    assert_eq!(c.host, "127.0.0.1");
    assert_eq!(c.port, 3001);
    assert_eq!(c.connector, "openai-compatible");
    assert_eq!(c.openai_base_url, "https://api.openai.com/v1");
    assert_eq!(c.openai_api_key, "");
    assert_eq!(c.openai_model, "gpt-4o-mini");
    assert_eq!(c.default_max_tokens, 1024);
    assert_eq!(c.default_max_context_tokens, 65536);
    assert_eq!(c.log_level, "info");
    assert!(c.auth_required && c.bootstrap_enabled && !c.allow_remote && !c.strict_client_header);
    assert!(!c.api_token_injected);
    assert_eq!(c.api_token.len(), 64);
    assert!(c.api_token.chars().all(|ch| ch.is_ascii_hexdigit() && !ch.is_ascii_uppercase()));
}

#[test]
fn values_are_read_checked_and_fall_back() {
    let mut e = unset();
    e.host = Some("0.0.0.0".into());
    e.port = Some("+8080".into());
    e.connector = Some("llama".into());
    e.openai_base_url = Some("http://x/v1//".into());
    e.default_max_tokens = Some("200000".into());
    e.default_max_context_tokens = Some("131072".into());
    e.allow_remote = Some("true".into());
    e.strict_client_header = Some("yes".into());
    e.api_token = Some("secret".into());
    e.log_level = Some(String::new());
    let c = env_config(&e);
    assert_eq!(c.port, 8080);
    assert_eq!(c.connector, "mock");
    assert_eq!(c.openai_base_url, "http://x/v1");
    assert_eq!(c.default_max_tokens, 1024);
    assert_eq!(c.default_max_context_tokens, 131072);
    assert_eq!(c.log_level, "info");
    assert!(c.allow_remote && !c.strict_client_header && !c.bootstrap_enabled);
    assert!(c.api_token_injected);
    assert_eq!(c.api_token, "secret");
    e.port = Some("70000".into());
    e.connector = Some("mock".into());
    assert_eq!(env_config(&e).port, 3001);
    assert_eq!(env_config(&e).connector, "mock");
}

#[test]
fn fresh_tokens_differ() {
    assert_ne!(fresh_api_token(), fresh_api_token());
}

#[test]
fn saved_connection_settings_choose_the_startup_backend() {
    assert_eq!(kedai_server::config::startup_connector("mock", "https://api.x/v1", "sk"), "openai-compatible");
    assert_eq!(kedai_server::config::startup_connector("mock", "https://api.x/v1", "  "), "mock");
    assert_eq!(kedai_server::config::startup_connector("mock", "", "sk"), "mock");
}
