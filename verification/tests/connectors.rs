use kedai_server::connectors::mock::{MockConnector, MOCK_READY_MESSAGE};
use kedai_server::connectors::{available_connector_types, build_connector, mock_test_report, with_model, Connector};
use kedai_server::json::Json;

#[test]
fn build_connector_and_switch_model() {
    let m = build_connector("mock", "http://x", "k", "gpt");
    assert_eq!(m.type_str(), "mock");
    assert_eq!(m.model(), "mock-demo");
    let o = build_connector("openai-compatible", "http://x", "k", "gpt");
    assert_eq!(o.type_str(), "openai-compatible");
    assert_eq!(o.model(), "gpt");
    let o2 = with_model(&o, "gpt-2");
    assert_eq!(o2.model(), "gpt-2");
    match &o2 {
        Connector::OpenAi(c) => assert_eq!(c.base_url(), "http://x"),
        _ => panic!(),
    }
    assert_eq!(with_model(&m, "x").model(), "mock-demo");
    assert_eq!(build_connector("unknown", "", "", "").type_str(), "mock");
}

#[test]
fn connector_types_and_mock_report() {
    let types = available_connector_types();
    assert_eq!(types.len(), 2);
    match &types[0] {
        Json::Object(es) => assert_eq!(es[0].1, Json::Str("openai-compatible".chars().collect())),
        _ => panic!(),
    }
    let m = MockConnector::new();
    assert_eq!(m.list_models(), vec!["mock-demo".to_string()]);
    assert_eq!(m.test(), (true, MOCK_READY_MESSAGE.to_string()));
    let r = mock_test_report(&m);
    assert!(r.ok && r.endpoint_reachable && r.authenticated && !r.fallback_used);
    assert_eq!(r.http_status, Some(200));
    assert_eq!(r.message, "Mock 连接器就绪(演示模式)");
}
