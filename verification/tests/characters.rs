use kedai_server::api::characters::{
    find_subsequence, multipart_in_bounds, parse_boundary, parse_multipart, parse_multipart_file, upload_check,
};

#[test]
fn boundary_from_content_type() {
    assert_eq!(parse_boundary("multipart/form-data; boundary=XyZ").as_deref(), Some("XyZ"));
    assert_eq!(parse_boundary("multipart/form-data; BOUNDARY=\"abc\"; charset=x").as_deref(), Some("abc\""));
    assert_eq!(parse_boundary("multipart/form-data; boundary=\"abc\"").as_deref(), Some("abc"));
    assert_eq!(parse_boundary("application/json"), None);
}

#[test]
fn multipart_parts_and_file() {
    let body = b"--B\r\nContent-Disposition: form-data; name=\"title\"\r\n\r\nhello\r\n--B\r\ncontent-disposition: form-data; name=\"file\"; filename=\"card.png\"\r\nContent-Type: image/png\r\n\r\nPNGDATA\r\n--B--\r\n";
    let parts = parse_multipart(body, "B");
    assert_eq!(parts.len(), 2);
    assert_eq!(parts[0].field, "title");
    assert_eq!(parts[0].filename, None);
    assert_eq!(parts[0].content, b"hello");
    assert_eq!(parts[1].field, "file");
    assert_eq!(parts[1].filename.as_deref(), Some("card.png"));
    assert_eq!(parts[1].content, b"PNGDATA");
    assert_eq!(parse_multipart_file(body, "B"), Some(("card.png".to_string(), b"PNGDATA".to_vec())));
    assert_eq!(parse_multipart(b"no parts here", "B").len(), 0);
    assert_eq!(find_subsequence(b"abcabc", b"ca"), Some(2));
    assert_eq!(find_subsequence(b"abc", b""), None);
    assert_eq!(find_subsequence(b"ab", b"abc"), None);
    assert!(upload_check(None).is_err());
    assert!(upload_check(Some(30 * 1024 * 1024 + 1)).is_err());
    assert!(upload_check(Some(10)).is_ok());
}

#[test]
fn multipart_bounds_are_checked_before_parsing() {
    let body = b"--B\r\nContent-Disposition: form-data; name=\"title\"\r\n\r\nhello\r\n--B--\r\n";
    assert!(multipart_in_bounds(body, "B"));
    assert!(multipart_in_bounds(b"no parts here", "B"));
    // A delimiter at the very end leaves no room for its line break.
    assert!(!multipart_in_bounds(b"x\r\n--B", "B"));
    assert!(!multipart_in_bounds(b"--B", "B"));
}
