use kedai_server::api::resource::{
    charset_from_content_type, decode_resource_html, proxy_base_url, proxy_failure, proxy_response_check,
    proxy_target, public_ipv4, public_ipv6, resource_charset_label, sniff_meta_charset, charset_of_head, ProxyFailure,
};

#[test]
fn parses_charset_from_content_type() {
    assert_eq!(charset_from_content_type("text/html; charset=gbk").as_deref(), Some("gbk"));
    assert_eq!(charset_from_content_type("text/html; charset=\"GB2312\"").as_deref(), Some("GB2312"));
    assert_eq!(charset_from_content_type("text/html"), None);
}

#[test]
fn charset_parameter_edge_cases() {
    assert_eq!(charset_from_content_type("text/html; Charset = 'utf-8' ").as_deref(), Some("utf-8"));
    assert_eq!(charset_from_content_type("text/html; foo; charset=gbk"), None);
    assert_eq!(charset_from_content_type("text/html; charset=\"\"; charset=big5").as_deref(), Some("big5"));
}

#[test]
fn sniffs_meta_charset() {
    let head = br#"<html><head><meta charset="gbk"></head>"#;
    assert_eq!(sniff_meta_charset(head).as_deref(), Some("gbk"));
    let equiv = br#"<meta http-equiv="Content-Type" content="text/html; charset=GB18030">"#;
    assert_eq!(sniff_meta_charset(equiv).as_deref(), Some("gb18030"));
    assert_eq!(sniff_meta_charset(b"<html><head></head>"), None);
}

#[test]
fn decodes_gbk_instead_of_lossy_mojibake() {
    let (gbk, _, _) = encoding_rs::GBK.encode("中文页面");
    assert_eq!(decode_resource_html(&gbk, Some("text/html; charset=gbk")).0, "中文页面");
    let mut html = b"<meta charset=gbk>".to_vec();
    html.extend_from_slice(&gbk);
    assert_eq!(decode_resource_html(&html, None).0, "<meta charset=gbk>中文页面");
    assert_eq!(decode_resource_html("中文页面".as_bytes(), None).0, "中文页面");
    assert_eq!(resource_charset_label(&html, Some("text/html")).as_deref(), Some("gbk"));
}

#[test]
fn proxy_checks() {
    let t = proxy_target("  https://author.example/page.html ").unwrap();
    assert_eq!(t.url, "https://author.example/page.html");
    assert_eq!(proxy_base_url(&t), "https://author.example");
    assert_eq!(proxy_target("http://author.example").unwrap_err().error, "仅支持 https 资源地址");
    assert_eq!(proxy_target("javascript:alert(1)").unwrap_err().status, 400);
    assert!(proxy_response_check(200, "200 OK", 10).is_ok());
    assert_eq!(proxy_response_check(302, "302 Found", 0).unwrap_err().error, "资源页重定向已禁用");
    assert_eq!(proxy_response_check(404, "404 Not Found", 0).unwrap_err().error, "资源页返回 404 Not Found");
    assert_eq!(proxy_response_check(200, "200 OK", 5 * 1024 * 1024 + 1).unwrap_err().error, "资源页过大(超过 5MB)");
    assert_eq!(proxy_failure(ProxyFailure::Request).status, 502);
    assert_eq!(proxy_failure(ProxyFailure::ClientBuild).status, 500);
}

#[test]
fn only_public_addresses_are_fetched() {
    assert!(public_ipv4([93, 184, 216, 34]));
    for a in [[127, 0, 0, 1], [10, 1, 2, 3], [172, 16, 0, 1], [172, 31, 255, 255], [192, 168, 1, 1], [169, 254, 169, 254], [0, 0, 0, 0], [100, 64, 0, 1], [224, 0, 0, 1], [255, 255, 255, 255]] {
        assert!(!public_ipv4(a), "{a:?}");
    }
    assert!(public_ipv4([172, 32, 0, 1]));
    assert!(public_ipv6([0x2606, 0x2800, 0x220, 1, 0x248, 0x1893, 0x25c8, 0x1946]));
    assert!(!public_ipv6([0, 0, 0, 0, 0, 0, 0, 1]));
    assert!(!public_ipv6([0, 0, 0, 0, 0, 0, 0, 0]));
    assert!(!public_ipv6([0xfd00, 0, 0, 0, 0, 0, 0, 1]));
    assert!(!public_ipv6([0xfe80, 0, 0, 0, 0, 0, 0, 1]));
    assert!(!public_ipv6([0xff02, 0, 0, 0, 0, 0, 0, 1]));
    assert!(!public_ipv6([0, 0, 0, 0, 0, 0xffff, 0x7f00, 1]));
    assert!(public_ipv6([0, 0, 0, 0, 0, 0xffff, 0x5db8, 0xd822]));
}

#[test]
fn charset_found_in_a_lowercased_head() {
    let head: Vec<char> = "<meta http-equiv=\"content-type\" content=\"text/html; charset = 'shift_jis'\">".chars().collect();
    assert_eq!(charset_of_head(&head).as_deref(), Some("shift_jis"));
    let none: Vec<char> = "<meta charset>".chars().collect();
    assert_eq!(charset_of_head(&none), None);
}

#[test]
fn unknown_or_missing_charset_decodes_as_utf8() {
    let (text, used) = decode_resource_html("页面".as_bytes(), Some("text/html; charset=no-such-charset"));
    assert_eq!(text, "页面");
    assert!(!used);
    let (text, used) = decode_resource_html(b"\xef\xbb\xbfabc", None);
    assert_eq!(text, "abc");
    assert!(!used);
    let (gbk, _, _) = encoding_rs::GBK.encode("汉字");
    let (text, used) = decode_resource_html(&gbk, Some("text/html; charset=GB2312"));
    assert_eq!(text, "汉字");
    assert!(used);
}
