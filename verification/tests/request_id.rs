use kedai_server::api::request_id::{access_log, generate_id, request_id, sanitize_client_id, AccessLog, GENERATED_ID_CHARS, MAX_CLIENT_ID_LEN};

#[test]
fn client_ids_kept_or_replaced() {
    assert_eq!(sanitize_client_id(" trace-me-123 ").as_deref(), Some("trace-me-123"));
    let too_long = "a".repeat(MAX_CLIENT_ID_LEN + 1);
    for bad in ["", "  ", too_long.as_str(), "bad id", "中文"] {
        assert_eq!(sanitize_client_id(bad), None, "{bad:?}");
    }
    assert_eq!(request_id(Some("trace-me-123")), "trace-me-123");
    let made = request_id(Some("bad id"));
    assert!(made.starts_with("req-"));
    assert_eq!(made.len(), 4 + GENERATED_ID_CHARS);
}

#[test]
fn generated_ids_are_short_hex() {
    let id = generate_id();
    assert!(id.starts_with("req-"), "{id}");
    assert_eq!(id.len(), 4 + GENERATED_ID_CHARS);
    assert!(id[4..].chars().all(|c| c.is_ascii_hexdigit() && !c.is_ascii_uppercase()));
}

#[test]
fn access_log_fields_take_status_and_whole_milliseconds() {
    let entry = access_log("GET", "/api/health", 200, 7);
    assert_eq!(entry, AccessLog { method: "GET", path: "/api/health", status: 200, duration_ms: 7 });
    let unauthorized = access_log("GET", "/api/characters", 401, 0);
    assert_eq!(unauthorized.status, 401);
    assert_eq!(unauthorized.duration_ms, 0);
    let sub_ms = access_log("GET", "/ok", 200, std::time::Duration::from_micros(999).as_millis());
    assert_eq!(sub_ms.duration_ms, 0);
}

#[test]
fn echoed_ids_are_kept_when_sent_back() {
    let made = request_id(None);
    assert_eq!(sanitize_client_id(&made).as_deref(), Some(made.as_str()));
    let kept = request_id(Some("  client-abc_123  "));
    assert_eq!(kept, "client-abc_123");
    assert_eq!(sanitize_client_id(&kept).as_deref(), Some("client-abc_123"));
}
