use kedai_server::api::sessions::{
    collect_greetings, required_character_id, seed_greeting_index, swipe_choice, variables_patch, ClearBody, MessageQuery,
    TruncateBody, UpdateMessageBody,
};
use kedai_server::json::parse_json;

#[test]
fn greetings_skip_blank_ones() {
    let alts = vec!["  ".to_string(), "第二".to_string(), "".to_string(), "第三".to_string()];
    assert_eq!(collect_greetings(Some("第一"), Some(&alts)), vec!["第一", "第二", "第三"]);
    assert_eq!(collect_greetings(Some(" \n"), None), Vec::<String>::new());
    assert_eq!(seed_greeting_index(0, 3), None);
    assert_eq!(seed_greeting_index(3, 1), Some(1));
    assert_eq!(seed_greeting_index(3, 9), Some(2));
}

#[test]
fn swipe_reads_the_chosen_version() {
    let extra = parse_json(&r#"{"swipes": [{"content": "a"}, {"x": 1}]}"#.chars().collect()).unwrap();
    assert_eq!(swipe_choice(&extra, 0).unwrap(), ("a".to_string(), 2));
    assert_eq!(swipe_choice(&extra, 1).unwrap(), (String::new(), 2));
    let e = swipe_choice(&extra, 2).unwrap_err();
    assert_eq!((e.status, e.error.as_str()), (400, "swipe_id 越界"));
    let none = parse_json(&r#"{"swipes": []}"#.chars().collect()).unwrap();
    assert_eq!(swipe_choice(&none, 0).unwrap_err().error, "该消息没有可切换的版本");
    assert!(required_character_id(" ", "缺少 character_id").is_err());
    assert!(required_character_id("c1", "缺少 character_id").is_ok());
}

#[test]
fn message_operations_name_their_session() {
    let q = |s: Option<&str>| MessageQuery { session_id: s.map(Into::into) };
    assert_eq!(q(Some("s1")).session().unwrap(), "s1");
    assert_eq!(q(Some(" ")).session().unwrap_err().error, "缺少 session_id 或 id");
    assert_eq!(q(None).history_session().unwrap_err().error, "缺少 session_id 查询参数");
    let edit = |s: Option<&str>, c: Option<&str>| q(s).edit(&UpdateMessageBody { content: c.map(Into::into) });
    assert_eq!(edit(Some("s"), Some("新内容")).unwrap(), ("s".into(), "新内容".into()));
    assert_eq!(edit(None, None).unwrap_err().error, "缺少 session_id 或 id");
    assert_eq!(edit(Some(" "), None).unwrap_err().error, "缺少 content");
    assert_eq!(edit(Some(" "), Some("x")).unwrap_err().error, "缺少 session_id 或 id");
    assert_eq!(ClearBody { session_id: None }.session().unwrap_err().error, "缺少 session_id");
    assert_eq!(TruncateBody { anchor_id: 7 }.anchor().unwrap(), 7);
    assert_eq!(TruncateBody { anchor_id: 0 }.anchor().unwrap_err().error, "截断锚点无效:必须是落库消息的正 id");
    assert!(variables_patch(true, false).is_ok());
    assert_eq!(variables_patch(false, false).unwrap_err().error, "缺少变量数据");
}
