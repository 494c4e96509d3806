use kedai_server::api::prompt_inject::{append_floor_ids, import_appends, preset_file_check, preset_floors_check, MAX_PRESET};

fn strings(v: &[&str]) -> Vec<String> {
    v.iter().map(|s| s.to_string()).collect()
}

#[test]
fn preset_checks() {
    assert_eq!(preset_file_check(false, 0).unwrap_err().error, "缺少文件字段(file)");
    assert_eq!(preset_file_check(true, MAX_PRESET + 1).unwrap_err().error, "预设文件超过 30MB 上限");
    assert!(preset_file_check(true, MAX_PRESET).is_ok());
    assert_eq!(preset_floors_check(0).unwrap_err().error, "预设中没有可导入的提示词条目");
    assert!(preset_floors_check(3).is_ok());
}

#[test]
fn import_mode_defaults_to_replace() {
    assert!(!import_appends(None));
    assert!(import_appends(Some(b" Append \n")));
    assert!(!import_appends(Some(b"replace")));
    assert!(!import_appends(Some(b"appendix")));
}

#[test]
fn appended_ids_avoid_taken_ones() {
    let existing = strings(&["main", "nsfw"]);
    let incoming = strings(&["intro", "main", "intro", "nsfw"]);
    assert_eq!(append_floor_ids(&existing, &incoming), strings(&["intro", "main-import1", "intro-import2", "nsfw-import3"]));
    assert_eq!(append_floor_ids(&Vec::new(), &strings(&["a", "b"])), strings(&["a", "b"]));
}
