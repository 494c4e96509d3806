use kedai_server::api::repo_index::{select_entries, RepoIndexQuery};
use kedai_server::json::{parse_json, Json};

fn items(text: &str) -> Vec<Json> {
    match parse_json(&text.chars().collect()).unwrap() {
        Json::Array(a) => a,
        _ => panic!("not an array"),
    }
}

#[test]
fn limit_defaults_and_clamps() {
    let q = |l| RepoIndexQuery { q: None, limit: l };
    assert_eq!(q(None).limit_size(), 300);
    assert_eq!(q(Some(0)).limit_size(), 1);
    assert_eq!(q(Some(5000)).limit_size(), 2000);
    assert_eq!(q(Some(42)).limit_size(), 42);
}

#[test]
fn keyword_filter_searches_path_summaries_and_symbols() {
    let it = items(
        r#"[{"path":"src/Engine.rs","summary":"runs agents"},
            {"path":"web/app.ts","deepSummary":"renders CHAT"},
            {"path":"lib.rs","symbols":[{"name":"parseCard"},{"kind":"fn"},{"name":"other"}]},
            {"path":"none.rs"}]"#,
    );
    assert_eq!(select_entries(&it, None, 10), (vec![0, 1, 2, 3], 4));
    assert_eq!(select_entries(&it, Some("  "), 2), (vec![0, 1], 4));
    assert_eq!(select_entries(&it, Some("ENGINE"), 10), (vec![0], 1));
    assert_eq!(select_entries(&it, Some(" chat "), 10), (vec![1], 1));
    assert_eq!(select_entries(&it, Some("parsecard other"), 10), (vec![2], 1));
    assert_eq!(select_entries(&it, Some(".rs"), 1), (vec![0], 3));
    assert_eq!(select_entries(&it, Some("missing"), 10), (vec![], 0));
}
