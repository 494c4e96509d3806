use kedai_server::api::security::{
    constant_time_eq, guard_check, header_policy, is_loopback_name, mutates, valid_content_type, valid_host,
    valid_origin, valid_token, BootstrapLimiter, GuardConfig, GuardRequest, HeaderPolicy,
};

fn req(path: &str, method: &str) -> GuardRequest {
    GuardRequest {
        path: path.into(),
        method: method.into(),
        host: Some("127.0.0.1:3000".into()),
        sec_fetch_site: None,
        origin: None,
        content_type: Some("application/json".into()),
        has_client_header: false,
        authorization: Some("Bearer tok".into()),
        peer: "127.0.0.1".into(),
        loopback_peer: true,
    }
}

fn cfg() -> GuardConfig {
    GuardConfig { auth_required: true, allow_remote: false, strict_client_header: false, bootstrap_enabled: true, api_token: "tok".into() }
}

fn status(q: &GuardRequest, c: &GuardConfig, l: &mut BootstrapLimiter) -> Option<(u16, String)> {
    guard_check(q, c, l, 1000).map(|r| (r.status, r.message))
}

#[test]
fn primitive_checks() {
    assert!(constant_time_eq(b"abc", b"abc"));
    assert!(!constant_time_eq(b"abc", b"abd"));
    assert!(!constant_time_eq(b"abc", b"ab"));
    assert!(is_loopback_name("LocalHost") && is_loopback_name("::1") && !is_loopback_name("example.com"));
    assert!(mutates("POST") && mutates("PATCH") && !mutates("GET"));
    assert!(valid_content_type(Some("Application/JSON; charset=utf-8")));
    assert!(valid_content_type(Some("multipart/form-data; boundary=x")));
    assert!(!valid_content_type(Some("text/plain")) && !valid_content_type(None));
    assert!(valid_token(Some("Bearer tok"), "tok"));
    assert!(!valid_token(Some("bearer tok"), "tok") && !valid_token(None, "tok"));
    assert!(valid_origin(None));
    assert!(valid_origin(Some("http://localhost:5173")));
    assert!(valid_origin(Some("tauri://localhost")));
    assert!(!valid_origin(Some("https://evil.example")));
    assert!(!valid_origin(Some("not a url")));
    assert!(valid_host(Some("127.0.0.1:3000"), false));
    assert!(valid_host(Some("[::1]:3000"), false));
    assert!(!valid_host(Some("lan-box:3000"), false));
    assert!(valid_host(Some("lan-box:3000"), true));
    assert!(!valid_host(None, true));
}

#[test]
fn guard_refuses_in_order() {
    let mut l = BootstrapLimiter::new();
    let c = cfg();
    assert_eq!(status(&req("/index.html", "GET"), &c, &mut l), None);
    assert_eq!(status(&req("/api/characters", "GET"), &c, &mut l), None);
    let mut q = req("/api/x", "GET");
    q.host = Some("evil.example".into());
    assert_eq!(status(&q, &c, &mut l), Some((400, "Host 不受信任".into())));
    let mut q = req("/api/x", "GET");
    q.sec_fetch_site = Some("Cross-Site".into());
    assert_eq!(status(&q, &c, &mut l).unwrap().0, 403);
    let mut q = req("/api/x", "POST");
    q.content_type = Some("text/plain".into());
    assert_eq!(status(&q, &c, &mut l).unwrap().0, 415);
    let mut q = req("/api/x", "GET");
    q.authorization = None;
    assert_eq!(status(&q, &c, &mut l), Some((401, "缺少或无效的 bearer token".into())));
    let mut q = req("/api/avatars/a.png", "GET");
    q.authorization = None;
    assert_eq!(status(&q, &c, &mut l), None);
    let mut strict = cfg();
    strict.strict_client_header = true;
    assert_eq!(status(&req("/api/x", "POST"), &strict, &mut l).unwrap().1, "缺少 X-Kedai-Client 头");
}

#[test]
fn bootstrap_is_rate_limited_per_peer() {
    let mut l = BootstrapLimiter::new();
    let c = cfg();
    for _ in 0..30 {
        assert_eq!(status(&req("/api/bootstrap", "GET"), &c, &mut l), None);
    }
    assert_eq!(status(&req("/api/bootstrap", "GET"), &c, &mut l).unwrap().0, 429);
    let mut other = req("/api/bootstrap", "GET");
    other.peer = "::1".into();
    assert_eq!(status(&other, &c, &mut l), None);
    assert_eq!(guard_check(&req("/api/bootstrap", "GET"), &c, &mut l, 61_000).map(|r| r.status), None);
    let mut remote = req("/api/bootstrap", "GET");
    remote.loopback_peer = false;
    assert_eq!(status(&remote, &c, &mut l).unwrap().0, 403);
    let mut off = cfg();
    off.bootstrap_enabled = false;
    assert_eq!(status(&req("/api/bootstrap", "GET"), &off, &mut l).unwrap().0, 404);
}

#[test]
fn header_policies_by_page() {
    assert!(matches!(header_policy("/sandbox.html"), HeaderPolicy::Sandbox));
    assert!(matches!(header_policy("/resource-frame.html"), HeaderPolicy::ResourceFrame));
    assert!(matches!(header_policy("/render-frame.html"), HeaderPolicy::RenderFrame));
    assert!(matches!(header_policy("/api/x"), HeaderPolicy::Site { api: true }));
    assert!(matches!(header_policy("/"), HeaderPolicy::Site { api: false }));
}

#[test]
fn limiter_lets_thirty_in_per_window_then_refuses() {
    let mut l = BootstrapLimiter::new();
    for k in 0..40u64 {
        let ok = l.hit("10.0.0.1", 5_000 + k * 1_000);
        assert_eq!(ok, k < 30, "request {k}");
    }
    assert!(l.hit("10.0.0.2", 44_000));
    assert!(l.hit("10.0.0.1", 65_000));
}
