use kedai_server::api::prompt_preview::{
    agent_prompt_layer, assemble_prompt_preview, character_card_text, history_summary, injection_gated,
    step_instruction_layers, world_book_summary,
};
use kedai_server::api::settings::{stable_history_hash, AppMode};
use kedai_server::world_book::WorldEntry;

fn entry(comment: &str, content: &str, constant: bool, enabled: bool, role: Option<&str>) -> WorldEntry {
    WorldEntry {
        comment: comment.into(),
        keys: vec![],
        use_regex: false,
        content: content.into(),
        constant,
        enabled,
        depth: 4,
        scan_depth: None,
        case_sensitive: false,
        probability: 100,
        use_probability: false,
        role: role.map(Into::into),
    }
}

#[test]
fn agent_layer_and_gating() {
    assert_eq!(agent_prompt_layer(AppMode::Roleplay, "  ").0, "default_template");
    assert_eq!(agent_prompt_layer(AppMode::Roleplay, "  ").1, "内置默认角色扮演 / 文学创作模板（运行时按角色展开）");
    assert_eq!(
        agent_prompt_layer(AppMode::Task, "").1,
        "任务模式 Agent 系统提示词已显式清空,执行时仅注入下方三层固定提示词"
    );
    assert_eq!(agent_prompt_layer(AppMode::Task, "你是编辑"), ("custom_template".into(), "你是编辑".into()));
    assert!(injection_gated(AppMode::Task, false));
    assert!(!injection_gated(AppMode::Task, true));
    assert!(!injection_gated(AppMode::Roleplay, false));
    assert_eq!(character_card_text("艾拉", "旅人"), "角色名：艾拉\n角色描述：旅人");
}

#[test]
fn summaries_show_lengths_and_fingerprints_only() {
    let msgs = vec![("user".to_string(), "你好".to_string()), ("assistant".to_string(), "hi".to_string())];
    let want = format!("role=user length=2 hash={}\nrole=assistant length=2 hash={}", stable_history_hash("你好"), stable_history_hash("hi"));
    assert_eq!(history_summary(&msgs), want);
    assert_eq!(history_summary(&vec![]), "");
    let es = vec![
        entry("常驻", "abc", true, true, None),
        entry("关闭", "x", false, false, None),
        entry("触发", "de", false, true, None),
        entry("旁白", "f", false, true, Some("assistant")),
    ];
    let want = format!(
        "[常驻] kind=constant role=system length=3 hash={}\n[触发] kind=triggered role=user length=2 hash={}\n[旁白] kind=triggered role=assistant length=1 hash={}",
        stable_history_hash("abc"),
        stable_history_hash("de"),
        stable_history_hash("f")
    );
    assert_eq!(world_book_summary(&es), want);
}

#[test]
fn step_layers_number_enabled_steps() {
    let steps = vec![
        (true, Some("先规划".to_string())),
        (false, Some("停用".to_string())),
        (true, None),
        (true, Some("  ".to_string())),
        (true, Some("再润色".to_string())),
    ];
    assert_eq!(
        step_instruction_layers(&steps),
        vec![("step_instruction:1".to_string(), "先规划".to_string()), ("step_instruction:4".to_string(), "再润色".to_string())]
    );
}

fn inputs(mode: kedai_server::api::settings::AppMode) -> kedai_server::api::prompt_preview::PreviewInputs {
    kedai_server::api::prompt_preview::PreviewInputs {
        mode,
        runtime_prompt: None,
        agent_prompt: "  ".into(),
        task_prompts: ("规划".into(), "执行".into(), "汇总".into()),
        task_prompt_inject_enabled: false,
        inject: kedai_server::api::prompt_preview::InjectPreview::Complex(vec![
            ("开场".into(), "user".into(), "楼层一".into()),
            ("空".into(), "system".into(), "   ".into()),
        ]),
        character: None,
        history: Some(vec![("user".into(), "hi".into())]),
        flow_steps: Some(vec![(true, Some("步骤".into())), (false, Some("关".into()))]),
        reflect_prompt: String::new(),
        reflect_advice_prompt: "建议".into(),
        reflect_advice_role: "assistant".into(),
        preset_tail_prompt: " ".into(),
        preset_tail_role: "user".into(),
    }
}

#[test]
fn preview_assembles_nonblank_layers_in_order() {
    let ls = assemble_prompt_preview(inputs(AppMode::Roleplay));
    let sources: Vec<&str> = ls.iter().map(|l| l.source.as_str()).collect();
    assert_eq!(
        sources,
        vec!["default_template", "complex_floor:开场", "history_summary", "step_instruction:1", "reflection_advice"]
    );
    for (k, l) in ls.iter().enumerate() {
        assert_eq!(l.order, k);
    }
    assert_eq!(ls[1].role, "user");
    assert_eq!(ls[4].role, "assistant");
    // Task mode adds the fixed task prompts and gates injection off.
    let ls = assemble_prompt_preview(inputs(AppMode::Task));
    let sources: Vec<&str> = ls.iter().map(|l| l.source.as_str()).collect();
    assert_eq!(
        sources,
        vec![
            "default_template",
            "task_planner_prompt",
            "task_executor_prompt",
            "task_summarizer_prompt",
            "history_summary",
            "step_instruction:1",
            "reflection_advice"
        ]
    );
}
