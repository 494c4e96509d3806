use kedai_server::api::audio::{audio_channel, AudioChannel};
use kedai_server::api::import_export::{ImportBody, SessionQuery};
use kedai_server::api::skills::ImportBody as SkillImports;

#[test]
fn export_and_import_need_a_session() {
    assert_eq!(SessionQuery { session_id: Some(" s1".into()) }.session().unwrap(), " s1");
    assert_eq!(SessionQuery { session_id: Some("  ".into()) }.session().unwrap_err().error, "缺少 session_id 查询参数");
    let body: ImportBody<u8> = ImportBody { session_id: None, messages: vec![1, 2] };
    let e = body.session().unwrap_err();
    assert_eq!((e.status, e.error.as_str()), (400, "缺少 session_id"));
}

#[test]
fn skill_imports_in_any_shape() {
    assert_eq!(SkillImports::One("a").into_items(), vec!["a"]);
    assert_eq!(SkillImports::Many(vec!["a", "b"]).into_items(), vec!["a", "b"]);
    assert_eq!(SkillImports::Wrapped { skills: vec!["c"] }.into_items(), vec!["c"]);
}

#[test]
fn audio_channels() {
    assert_eq!(audio_channel("bgm").unwrap(), AudioChannel::Bgm);
    assert_eq!(audio_channel("ambient").unwrap(), AudioChannel::Ambient);
    assert_eq!(audio_channel("voice").unwrap_err().error, "无效的音频通道");
}
