use kedai_server::api::characters::MultipartPart;
use kedai_server::api::world_books::{upload_binding, UpdateBody};

fn part(field: &str, content: &[u8]) -> MultipartPart {
    MultipartPart { field: field.into(), filename: None, content: content.to_vec() }
}

#[test]
fn update_binding_changes() {
    let b = |c: Option<&str>| UpdateBody { enabled: None, character_id: c.map(Into::into), name: None }.binding();
    assert_eq!(b(None), None);
    assert_eq!(b(Some("  ")), Some(None));
    assert_eq!(b(Some(" c9 ")), Some(Some("c9".into())));
}

#[test]
fn upload_binding_from_first_character_field() {
    assert_eq!(upload_binding(&vec![part("file", b"{}"), part("character_id", b" c1 ")]), Some("c1".into()));
    assert_eq!(upload_binding(&vec![part("character_id", b"  "), part("character_id", b"c2")]), None);
    assert_eq!(upload_binding(&vec![part("file", b"{}")]), None);
}
