use kedai_server::api::static_files::{
    avatar_mime, avatar_name_ok, embedded_key, guess_mime, looks_like_asset, serves_front_end,
    sniff_image_mime, static_cache_control, static_rel_path, static_target_path,
};

#[test]
fn sniffs_real_format_over_extension() {
    assert_eq!(sniff_image_mime(&[0x89, 0x50, 0x4E, 0x47, 0x0D]), Some("image/png"));
    assert_eq!(sniff_image_mime(&[0xFF, 0xD8, 0xFF, 0xE0]), Some("image/jpeg"));
    assert_eq!(sniff_image_mime(b"GIF89a.."), Some("image/gif"));
    assert_eq!(sniff_image_mime(b"RIFF\x00\x00\x00\x00WEBPVP8 "), Some("image/webp"));
    assert_eq!(sniff_image_mime(b"BMxxxx"), Some("image/bmp"));
    assert_eq!(sniff_image_mime(b"{\"json\":true}"), None);
    assert_eq!(sniff_image_mime(b""), None);
}

#[test]
fn mime_guess_and_avatar() {
    assert_eq!(guess_mime("index.HTML"), "text/html; charset=utf-8");
    assert_eq!(guess_mime("a/b.jpeg"), "image/jpeg");
    assert_eq!(guess_mime("x.woff2"), "font/woff2");
    assert_eq!(guess_mime("noext"), "application/octet-stream");
    assert_eq!(avatar_mime(&[0xFF, 0xD8, 0xFF], "a.png"), "image/jpeg");
    assert_eq!(avatar_mime(b"??", "a.png"), "image/png");
    assert!(avatar_name_ok("abc-1_2.png"));
    assert!(!avatar_name_ok("../x.png"));
}

#[test]
fn static_paths_stay_inside() {
    assert_eq!(static_rel_path("/../assets/./a.js"), "assets/a.js");
    assert_eq!(static_target_path("/"), "index.html");
    assert_eq!(static_target_path("//x//y/"), "x/y");
    assert!(looks_like_asset("assets/app"));
    assert!(looks_like_asset("dir/favicon.ico"));
    assert!(!looks_like_asset("chat/session"));
    assert!(!looks_like_asset(""));
    assert_eq!(static_cache_control("index.html"), "no-store, no-cache, must-revalidate, max-age=0");
    assert_eq!(static_cache_control("assets/a.js"), "no-cache, must-revalidate");
    assert!(serves_front_end(true, "/chat"));
    assert!(!serves_front_end(true, "/api/x"));
    assert!(!serves_front_end(false, "/chat"));
    assert_eq!(embedded_key("///"), "index.html");
    assert_eq!(embedded_key("/assets/a.js"), "assets/a.js");
}
