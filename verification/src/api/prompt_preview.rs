//! The prompt preview's own logic: which agent prompt layer is shown, when
//! injection layers are left out, and the one-line summaries of world-book
//! entries, history messages and flow steps, which show lengths and
//! fingerprints but never the texts.
use vstd::prelude::*;
use crate::api::settings::{fnv1a, hex_fixed, push_preview_layer, stable_history_hash, AppMode, PromptPreviewLayer};
use crate::connectors::mock::joined;
use crate::text::{append_chars, chars_of, decimal, decimal_chars, lit, string_of, trim, trim_chars};
use crate::world_book::WorldEntry;

verus! {

broadcast use vstd::string::group_string_axioms;

/// A text's fingerprint: the FNV-1a hash of its UTF-8 bytes in 16 hexadecimal digits.
pub open spec fn fingerprint(t: Seq<char>) -> Seq<char> {
    hex_fixed(fnv1a(vstd::utf8::encode_utf8(t)) as nat, 16)
}

/// The agent prompt layer of a preview: the configured prompt as a custom
/// template, or, when it is blank, a note on what stands in its place (the
/// built-in template in role play; nothing in task mode, where it was cleared).
pub open spec fn agent_layer_of(mode: AppMode, prompt: Seq<char>) -> (Seq<char>, Seq<char>) {
    if trim(prompt).len() == 0 {
        (
            "default_template"@,
            match mode {
                AppMode::Task => "任务模式 Agent 系统提示词已显式清空,执行时仅注入下方三层固定提示词"@,
                AppMode::Roleplay => "内置默认角色扮演 / 文学创作模板（运行时按角色展开）"@,
            },
        )
    } else {
        ("custom_template"@, prompt)
    }
}

/// The agent prompt layer of a preview (see `agent_layer_of`): its source and content.
pub fn agent_prompt_layer(mode: AppMode, prompt: &str) -> (r: (String, String))
    ensures
        (r.0@, r.1@) == agent_layer_of(mode, prompt@),
{
    if trim_chars(&chars_of(prompt)).len() == 0 {
        let note = match mode {
            AppMode::Task => "任务模式 Agent 系统提示词已显式清空,执行时仅注入下方三层固定提示词".to_owned(),
            AppMode::Roleplay => "内置默认角色扮演 / 文学创作模板（运行时按角色展开）".to_owned(),
        };
        ("default_template".to_owned(), note)
    } else {
        ("custom_template".to_owned(), prompt.to_owned())
    }
}

/// Whether the injection layers are left out of a preview: in task mode
/// unless injection is switched on for tasks, as the real request does.
pub fn injection_gated(mode: AppMode, task_inject_enabled: bool) -> (r: bool)
    ensures
        r == (mode == AppMode::Task && !task_inject_enabled),
{
    match mode {
        AppMode::Task => !task_inject_enabled,
        AppMode::Roleplay => false,
    }
}

/// The character layer of a preview: its name and description.
pub fn character_card_text(name: &str, description: &str) -> (r: String)
    ensures
        r@ == "角色名："@ + name@ + "\n角色描述："@ + description@,
{
    let mut t = lit("角色名：");
    append_chars(&mut t, &chars_of(name));
    append_chars(&mut t, &lit("\n角色描述："));
    append_chars(&mut t, &chars_of(description));
    string_of(&t)
}

fn join_lines(lines: &Vec<Vec<char>>) -> (r: Vec<char>)
    ensures
        r@ == joined(lines@.map_values(|l: Vec<char>| l@), "\n"@),
{
    proof {
        reveal_strlit("\n");
    }
    let ghost ls = lines@.map_values(|l: Vec<char>| l@);
    let mut out: Vec<char> = Vec::new();
    for k in 0..lines.len()
        invariant
            ls == lines@.map_values(|l: Vec<char>| l@),
            out@ == joined(ls.take(k as int), "\n"@),
            "\n"@ == seq!['\n'],
    {
        assert(ls.take(k + 1).drop_last() =~= ls.take(k as int));
        assert(ls.take(k + 1).last() == ls[k as int]);
        if k > 0 {
            out.push('\n');
        }
        append_chars(&mut out, &lines[k]);
        proof {
            if k == 0 {
                assert(out@ =~= ls.take(1)[0]);
            } else {
                assert(out@ =~= joined(ls.take(k as int), "\n"@) + "\n"@ + ls[k as int]);
            }
        }
    }
    assert(ls.take(lines@.len() as int) =~= ls);
    out
}

/// The summary line of a history message: role, length in characters and fingerprint.
pub open spec fn history_line(role: Seq<char>, content: Seq<char>) -> Seq<char> {
    "role="@ + role + " length="@ + decimal(content.len()) + " hash="@ + fingerprint(content)
}

/// The history layer of a preview: one summary line per message, in order.
pub fn history_summary(messages: &Vec<(String, String)>) -> (r: String)
    ensures
        r@ == joined(messages@.map_values(|m: (String, String)| history_line(m.0@, m.1@)), "\n"@),
{
    let ghost want = messages@.map_values(|m: (String, String)| history_line(m.0@, m.1@));
    let mut lines: Vec<Vec<char>> = Vec::new();
    for k in 0..messages.len()
        invariant
            want == messages@.map_values(|m: (String, String)| history_line(m.0@, m.1@)),
            lines@.len() == k,
            forall|j: int| 0 <= j < k ==> (#[trigger] lines@[j])@ == want[j],
    {
        let (role, content) = &messages[k];
        let mut line = lit("role=");
        append_chars(&mut line, &chars_of(role.as_str()));
        append_chars(&mut line, &lit(" length="));
        let n = chars_of(content.as_str()).len();
        append_chars(&mut line, &decimal_chars(n as u64));
        append_chars(&mut line, &lit(" hash="));
        append_chars(&mut line, &chars_of(stable_history_hash(content.as_str()).as_str()));
        lines.push(line);
    }
    assert(lines@.map_values(|l: Vec<char>| l@) =~= want);
    string_of(&join_lines(&lines))
}

/// The role an entry is shown with: its own, else `system` for a constant
/// entry and `user` for a triggered one.
pub open spec fn entry_role(e: WorldEntry) -> Seq<char> {
    match e.role {
        Some(r) => r@,
        None => if e.constant { "system"@ } else { "user"@ },
    }
}

/// The summary line of a world-book entry: title, kind, role, length in
/// characters and fingerprint.
pub open spec fn entry_line(e: WorldEntry) -> Seq<char> {
    "["@ + e.comment@ + "] kind="@ + (if e.constant { "constant"@ } else { "triggered"@ }) + " role="@ + entry_role(e)
        + " length="@ + decimal(e.content@.len()) + " hash="@ + fingerprint(e.content@)
}

/// The summary lines of the enabled entries, in order.
pub open spec fn enabled_lines(es: Seq<WorldEntry>) -> Seq<Seq<char>>
    decreases es.len(),
{
    if es.len() == 0 {
        seq![]
    } else if es.last().enabled {
        enabled_lines(es.drop_last()).push(entry_line(es.last()))
    } else {
        enabled_lines(es.drop_last())
    }
}

/// The world-book layer of a preview: one summary line per enabled entry.
pub fn world_book_summary(entries: &Vec<WorldEntry>) -> (r: String)
    ensures
        r@ == joined(enabled_lines(entries@), "\n"@),
{
    let mut lines: Vec<Vec<char>> = Vec::new();
    for k in 0..entries.len()
        invariant
            lines@.map_values(|l: Vec<char>| l@) == enabled_lines(entries@.take(k as int)),
    {
        assert(entries@.take(k + 1).drop_last() =~= entries@.take(k as int));
        assert(entries@.take(k + 1).last() == entries@[k as int]);
        let e = &entries[k];
        if e.enabled {
            let mut line = lit("[");
            append_chars(&mut line, &chars_of(e.comment.as_str()));
            append_chars(&mut line, &lit("] kind="));
            append_chars(&mut line, &lit(if e.constant { "constant" } else { "triggered" }));
            append_chars(&mut line, &lit(" role="));
            match &e.role {
                Some(r) => append_chars(&mut line, &chars_of(r.as_str())),
                None => append_chars(&mut line, &lit(if e.constant { "system" } else { "user" })),
            }
            append_chars(&mut line, &lit(" length="));
            let n = chars_of(e.content.as_str()).len();
            append_chars(&mut line, &decimal_chars(n as u64));
            append_chars(&mut line, &lit(" hash="));
            append_chars(&mut line, &chars_of(stable_history_hash(e.content.as_str()).as_str()));
            let ghost before = lines@;
            lines.push(line);
            assert(lines@.map_values(|l: Vec<char>| l@) =~= before.map_values(|l: Vec<char>| l@).push(entry_line(*e)));
        }
    }
    assert(entries@.take(entries@.len() as int) =~= entries@);
    string_of(&join_lines(&lines))
}

/// The instruction layers of the selected flow's enabled steps, numbered
/// from 1 among the enabled steps; a step whose prompt is absent or blank
/// adds none.
pub open spec fn step_layers(steps: Seq<(bool, Option<String>)>) -> Seq<(Seq<char>, Seq<char>)>
    decreases steps.len(),
{
    if steps.len() == 0 {
        seq![]
    } else {
        let prev = step_layers(steps.drop_last());
        let s = steps.last();
        if s.0 && (s.1 matches Some(p) && trim(p@).len() > 0) {
            prev.push(("step_instruction:"@ + decimal(enabled_count(steps.drop_last()) + 1), s.1->Some_0@))
        } else {
            prev
        }
    }
}

/// The number of enabled steps.
pub open spec fn enabled_count(steps: Seq<(bool, Option<String>)>) -> nat
    decreases steps.len(),
{
    if steps.len() == 0 {
        0
    } else {
        enabled_count(steps.drop_last()) + if steps.last().0 { 1nat } else { 0nat }
    }
}

proof fn lemma_enabled_count_bound(steps: Seq<(bool, Option<String>)>)
    ensures
        enabled_count(steps) <= steps.len(),
    decreases steps.len(),
{
    if steps.len() > 0 {
        lemma_enabled_count_bound(steps.drop_last());
    }
}

/// The instruction layers of a flow's steps (see `step_layers`): sources and prompts.
pub fn step_instruction_layers(steps: &Vec<(bool, Option<String>)>) -> (r: Vec<(String, String)>)
    requires
        steps@.len() < u64::MAX,
    ensures
        r@.map_values(|x: (String, String)| (x.0@, x.1@)) == step_layers(steps@),
{
    let mut out: Vec<(String, String)> = Vec::new();
    let mut enabled: u64 = 0;
    for k in 0..steps.len()
        invariant
            steps@.len() < u64::MAX,
            enabled as nat == enabled_count(steps@.take(k as int)),
            out@.map_values(|x: (String, String)| (x.0@, x.1@)) == step_layers(steps@.take(k as int)),
    {
        proof {
            lemma_enabled_count_bound(steps@.take(k as int));
        }
        assert(steps@.take(k + 1).drop_last() =~= steps@.take(k as int));
        assert(steps@.take(k + 1).last() == steps@[k as int]);
        let (on, prompt) = &steps[k];
        if *on {
            match prompt {
                Some(p) => {
                    if trim_chars(&chars_of(p.as_str())).len() > 0 {
                        let mut src = lit("step_instruction:");
                        append_chars(&mut src, &decimal_chars(enabled + 1));
                        let ghost before = out@;
                        out.push((string_of(&src), p.clone()));
                        assert(out@.map_values(|x: (String, String)| (x.0@, x.1@)) =~= before.map_values(
                            |x: (String, String)| (x.0@, x.1@),
                        ).push(("step_instruction:"@ + decimal((enabled + 1) as nat), p@)));
                    }
                },
                None => {},
            }
            enabled = enabled + 1;
        }
    }
    assert(steps@.take(steps@.len() as int) =~= steps@);
    out
}

/// A candidate layer of a preview: source, role, injection layer and content.
pub type LayerSpec = (Seq<char>, Seq<char>, u8, Seq<char>);

/// How prompt injection stands, as the preview shows it: one simple text, or
/// the enabled floors in their order (name, role, content).
pub enum InjectPreview {
    Simple(String),
    Complex(Vec<(String, String, String)>),
}

/// The character a preview is built for: name, description and every
/// world-book entry of its card and its books.
pub struct CharacterPreview {
    pub name: String,
    pub description: String,
    pub entries: Vec<WorldEntry>,
}

/// What a prompt preview is assembled from, as the stores report it: the
/// mode; the runtime prompt, if one is saved; the mode's agent prompt; the
/// three fixed task prompts (planner, executor, summarizer); whether task
/// mode inherits injection; the injection; the character, if one is named and
/// found; the session's messages (role, content), if a session is named; the
/// steps of the selected flow (enabled, prompt), if it is enabled; and the
/// reflection, advice and preset-tail prompts with their roles.
pub struct PreviewInputs {
    pub mode: AppMode,
    pub runtime_prompt: Option<String>,
    pub agent_prompt: String,
    pub task_prompts: (String, String, String),
    pub task_prompt_inject_enabled: bool,
    pub inject: InjectPreview,
    pub character: Option<CharacterPreview>,
    pub history: Option<Vec<(String, String)>>,
    pub flow_steps: Option<Vec<(bool, Option<String>)>>,
    pub reflect_prompt: String,
    pub reflect_advice_prompt: String,
    pub reflect_advice_role: String,
    pub preset_tail_prompt: String,
    pub preset_tail_role: String,
}

/// The layers of the injection (none when it is gated off in task mode).
pub open spec fn inject_layers(mode: AppMode, task_inject_enabled: bool, inject: InjectPreview) -> Seq<LayerSpec> {
    if mode == AppMode::Task && !task_inject_enabled {
        seq![]
    } else {
        match inject {
            InjectPreview::Simple(t) => seq![("simple_inject"@, "system"@, 4u8, t@)],
            InjectPreview::Complex(fs) => fs@.map_values(
                |f: (String, String, String)| ("complex_floor:"@ + f.0@, f.1@, 4u8, f.2@),
            ),
        }
    }
}

/// The runtime prompt's layer, when one is saved.
pub open spec fn runtime_layers(runtime: Option<String>) -> Seq<LayerSpec> {
    match runtime {
        Some(t) => seq![("runtime_prompt"@, "system"@, 5u8, t@)],
        None => seq![],
    }
}

/// The agent prompt's layer (see `agent_layer_of`).
pub open spec fn agent_layers(mode: AppMode, prompt: String) -> Seq<LayerSpec> {
    let agent = agent_layer_of(mode, prompt@);
    seq![(agent.0, "system"@, 5u8, agent.1)]
}

/// The three fixed task prompts, in task mode.
pub open spec fn task_layers(mode: AppMode, prompts: (String, String, String)) -> Seq<LayerSpec> {
    if mode == AppMode::Task {
        seq![
            ("task_planner_prompt"@, "system"@, 5u8, prompts.0@),
            ("task_executor_prompt"@, "system"@, 5u8, prompts.1@),
            ("task_summarizer_prompt"@, "system"@, 5u8, prompts.2@),
        ]
    } else {
        seq![]
    }
}

/// The character card and its world book's summary, when a character is found.
pub open spec fn character_layers(character: Option<CharacterPreview>) -> Seq<LayerSpec> {
    match character {
        Some(c) => seq![
            ("character_card"@, "system"@, 3u8, "角色名："@ + c.name@ + "\n角色描述："@ + c.description@),
            ("world_book"@, "metadata"@, 3u8, joined(enabled_lines(c.entries@), "\n"@)),
        ],
        None => seq![],
    }
}

/// The history summary, when a session is named.
pub open spec fn history_layers(history: Option<Vec<(String, String)>>) -> Seq<LayerSpec> {
    match history {
        Some(h) => seq![
            ("history_summary"@, "metadata"@, 2u8, joined(h@.map_values(|m: (String, String)| history_line(m.0@, m.1@)), "\n"@)),
        ],
        None => seq![],
    }
}

/// The step instructions of the flow, when it is enabled.
pub open spec fn flow_layers(steps: Option<Vec<(bool, Option<String>)>>) -> Seq<LayerSpec> {
    match steps {
        Some(st) => step_layers(st@).map_values(|x: (Seq<char>, Seq<char>)| (x.0, "system"@, 0u8, x.1)),
        None => seq![],
    }
}

/// The reflection, advice and preset-tail prompts.
pub open spec fn tail_layers(i: PreviewInputs) -> Seq<LayerSpec> {
    seq![
        ("reflection"@, "system"@, 0u8, i.reflect_prompt@),
        ("reflection_advice"@, i.reflect_advice_role@, 0u8, i.reflect_advice_prompt@),
        ("preset_tail"@, i.preset_tail_role@, 0u8, i.preset_tail_prompt@),
    ]
}

/// Every candidate layer of a preview, in order: the runtime prompt, the
/// agent prompt, the task prompts in task mode, the injection, the character
/// card and its world book, the history summary, the flow's step
/// instructions, then the reflection, advice and preset-tail prompts.
pub open spec fn preview_candidates(i: PreviewInputs) -> Seq<LayerSpec> {
    runtime_layers(i.runtime_prompt) + agent_layers(i.mode, i.agent_prompt) + task_layers(i.mode, i.task_prompts)
        + inject_layers(i.mode, i.task_prompt_inject_enabled, i.inject) + character_layers(i.character)
        + history_layers(i.history) + flow_layers(i.flow_steps) + tail_layers(i)
}

/// The candidates that are shown: those whose content is not blank.
pub open spec fn kept_layers(cs: Seq<LayerSpec>) -> Seq<LayerSpec>
    decreases cs.len(),
{
    if cs.len() == 0 {
        seq![]
    } else if trim(cs.last().3).len() > 0 {
        kept_layers(cs.drop_last()).push(cs.last())
    } else {
        kept_layers(cs.drop_last())
    }
}

/// Whether the preview's layers are the given ones, each numbered by its position.
pub open spec fn layers_are(ls: Seq<PromptPreviewLayer>, ks: Seq<LayerSpec>) -> bool {
    &&& ls.len() == ks.len()
    &&& forall|j: int|
        0 <= j < ls.len() ==> {
            &&& (#[trigger] ls[j]).source@ == ks[j].0
            &&& ls[j].role@ == ks[j].1
            &&& ls[j].layer == ks[j].2
            &&& ls[j].content@ == ks[j].3
            &&& ls[j].order == j
        }
}

/// The views of candidate layers.
pub open spec fn cand_view(v: Seq<(String, String, u8, String)>) -> Seq<LayerSpec> {
    v.map_values(|c: (String, String, u8, String)| (c.0@, c.1@, c.2, c.3@))
}

fn push_candidate(
    layers: &mut Vec<PromptPreviewLayer>,
    source: String,
    role: String,
    layer: u8,
    content: String,
    Ghost(cs): Ghost<Seq<LayerSpec>>,
)
    requires
        layers_are(old(layers)@, kept_layers(cs)),
    ensures
        layers_are(final(layers)@, kept_layers(cs.push((source@, role@, layer, content@)))),
{
    let ghost c = (source@, role@, layer, content@);
    assert(cs.push(c).drop_last() =~= cs);
    let ghost before = layers@;
    push_preview_layer(layers, source, role, layer, content);
    proof {
        if trim(c.3).len() > 0 {
            let ks = kept_layers(cs.push(c));
            assert forall|j: int| 0 <= j < layers@.len() implies {
                &&& (#[trigger] layers@[j]).source@ == ks[j].0
                &&& layers@[j].role@ == ks[j].1
                &&& layers@[j].layer == ks[j].2
                &&& layers@[j].content@ == ks[j].3
                &&& layers@[j].order == j
            } by {
                if j < before.len() {
                    assert(layers@[j] == layers@.take(before.len() as int)[j]);
                }
            }
        }
    }
}

/// Pushes candidate layers in order; returns the candidates seen so far.
fn push_candidates(
    layers: &mut Vec<PromptPreviewLayer>,
    items: &Vec<(String, String, u8, String)>,
    Ghost(cs): Ghost<Seq<LayerSpec>>,
) -> (r: Ghost<Seq<LayerSpec>>)
    requires
        layers_are(old(layers)@, kept_layers(cs)),
    ensures
        r@ == cs + cand_view(items@),
        layers_are(final(layers)@, kept_layers(r@)),
{
    let ghost iv = cand_view(items@);
    let ghost mut seen = cs;
    for k in 0..items.len()
        invariant
            iv == cand_view(items@),
            seen == cs + iv.take(k as int),
            layers_are(layers@, kept_layers(seen)),
    {
        let (a, b, c, d) = &items[k];
        assert(iv[k as int] == (a@, b@, *c, d@));
        push_candidate(layers, a.clone(), b.clone(), *c, d.clone(), Ghost(seen));
        proof {
            seen = seen.push(iv[k as int]);
            assert(seen =~= cs + iv.take(k + 1));
        }
    }
    assert(iv.take(items@.len() as int) =~= iv);
    Ghost(seen)
}

fn runtime_candidates(runtime: Option<String>) -> (r: Vec<(String, String, u8, String)>)
    ensures
        cand_view(r@) == runtime_layers(runtime),
{
    let mut r: Vec<(String, String, u8, String)> = Vec::new();
    match runtime {
        Some(t) => {
            r.push(("runtime_prompt".to_owned(), "system".to_owned(), 5, t));
        },
        None => {},
    }
    assert(cand_view(r@) =~= runtime_layers(runtime));
    r
}

fn agent_candidates(mode: AppMode, prompt: &String) -> (r: Vec<(String, String, u8, String)>)
    ensures
        cand_view(r@) == agent_layers(mode, *prompt),
{
    let (src, content) = agent_prompt_layer(mode, prompt.as_str());
    let mut r: Vec<(String, String, u8, String)> = Vec::new();
    r.push((src, "system".to_owned(), 5, content));
    assert(cand_view(r@) =~= agent_layers(mode, *prompt));
    r
}

fn task_candidates(mode: AppMode, prompts: (String, String, String)) -> (r: Vec<(String, String, u8, String)>)
    ensures
        cand_view(r@) == task_layers(mode, prompts),
{
    let mut r: Vec<(String, String, u8, String)> = Vec::new();
    match mode {
        AppMode::Task => {
            let (p0, p1, p2) = prompts;
            r.push(("task_planner_prompt".to_owned(), "system".to_owned(), 5, p0));
            r.push(("task_executor_prompt".to_owned(), "system".to_owned(), 5, p1));
            r.push(("task_summarizer_prompt".to_owned(), "system".to_owned(), 5, p2));
        },
        AppMode::Roleplay => {},
    }
    assert(cand_view(r@) =~= task_layers(mode, prompts));
    r
}

fn inject_candidates(mode: AppMode, task_inject_enabled: bool, inject: InjectPreview) -> (r: Vec<(String, String, u8, String)>)
    ensures
        cand_view(r@) == inject_layers(mode, task_inject_enabled, inject),
{
    let mut r: Vec<(String, String, u8, String)> = Vec::new();
    if injection_gated(mode, task_inject_enabled) {
        assert(cand_view(r@) =~= inject_layers(mode, task_inject_enabled, inject));
        return r;
    }
    match inject {
        InjectPreview::Simple(t) => {
            r.push(("simple_inject".to_owned(), "system".to_owned(), 4, t));
            assert(cand_view(r@) =~= inject_layers(mode, task_inject_enabled, inject));
        },
        InjectPreview::Complex(floors) => {
            let ghost fv = floors@.map_values(
                |f: (String, String, String)| ("complex_floor:"@ + f.0@, f.1@, 4u8, f.2@),
            );
            for k in 0..floors.len()
                invariant
                    fv == floors@.map_values(
                        |f: (String, String, String)| ("complex_floor:"@ + f.0@, f.1@, 4u8, f.2@),
                    ),
                    cand_view(r@) == fv.take(k as int),
            {
                let (name, role, content) = &floors[k];
                let mut src = lit("complex_floor:");
                append_chars(&mut src, &chars_of(name.as_str()));
                let item = (string_of(&src), role.clone(), 4u8, content.clone());
                assert(fv[k as int] == ("complex_floor:"@ + name@, role@, 4u8, content@));
                assert((item.0@, item.1@, item.2, item.3@) == fv[k as int]);
                let ghost before = r@;
                r.push(item);
                assert(cand_view(r@) =~= cand_view(before).push(fv[k as int]));
                assert(fv.take(k + 1) =~= fv.take(k as int).push(fv[k as int]));
            }
            assert(fv.take(floors@.len() as int) =~= fv);
        },
    }
    r
}

fn character_candidates(character: Option<CharacterPreview>) -> (r: Vec<(String, String, u8, String)>)
    ensures
        cand_view(r@) == character_layers(character),
{
    let mut r: Vec<(String, String, u8, String)> = Vec::new();
    match &character {
        Some(c) => {
            r.push((
                "character_card".to_owned(),
                "system".to_owned(),
                3,
                character_card_text(c.name.as_str(), c.description.as_str()),
            ));
            r.push(("world_book".to_owned(), "metadata".to_owned(), 3, world_book_summary(&c.entries)));
        },
        None => {},
    }
    assert(cand_view(r@) =~= character_layers(character));
    r
}

fn history_candidates(history: Option<Vec<(String, String)>>) -> (r: Vec<(String, String, u8, String)>)
    ensures
        cand_view(r@) == history_layers(history),
{
    let mut r: Vec<(String, String, u8, String)> = Vec::new();
    match &history {
        Some(h) => {
            r.push(("history_summary".to_owned(), "metadata".to_owned(), 2, history_summary(h)));
        },
        None => {},
    }
    assert(cand_view(r@) =~= history_layers(history));
    r
}

fn flow_candidates(steps: Option<Vec<(bool, Option<String>)>>) -> (r: Vec<(String, String, u8, String)>)
    requires
        steps matches Some(s) ==> s@.len() < u64::MAX,
    ensures
        cand_view(r@) == flow_layers(steps),
{
    let mut r: Vec<(String, String, u8, String)> = Vec::new();
    match &steps {
        Some(st) => {
            let sl = step_instruction_layers(st);
            let ghost sv = step_layers(st@).map_values(|x: (Seq<char>, Seq<char>)| (x.0, "system"@, 0u8, x.1));
            let ghost slv = sl@.map_values(|x: (String, String)| (x.0@, x.1@));
            assert(slv.len() == sl@.len());
            for k in 0..sl.len()
                invariant
                    sv == step_layers(st@).map_values(|x: (Seq<char>, Seq<char>)| (x.0, "system"@, 0u8, x.1)),
                    slv == sl@.map_values(|x: (String, String)| (x.0@, x.1@)),
                    slv == step_layers(st@),
                    cand_view(r@) == sv.take(k as int),
            {
                let (src, content) = &sl[k];
                assert(slv[k as int] == (src@, content@));
                assert(sv[k as int] == (src@, "system"@, 0u8, content@));
                let item = (src.clone(), "system".to_owned(), 0u8, content.clone());
                proof {
                    reveal_strlit("system");
                }
                assert((item.0@, item.1@, item.2, item.3@) == sv[k as int]);
                let ghost before = r@;
                r.push(item);
                assert(cand_view(r@) =~= cand_view(before).push(sv[k as int]));
                assert(sv.take(k + 1) =~= sv.take(k as int).push(sv[k as int]));
            }
            assert(sv.take(sl@.len() as int) =~= sv);
        },
        None => {
            assert(cand_view(r@) =~= flow_layers(steps));
        },
    }
    r
}

/// Assembles a prompt preview from what the stores report (see
/// `preview_candidates`): every candidate layer whose content is not blank,
/// in order, numbered by position.
pub fn assemble_prompt_preview(i: PreviewInputs) -> (r: Vec<PromptPreviewLayer>)
    requires
        i.flow_steps matches Some(s) ==> s@.len() < u64::MAX,
    ensures
        layers_are(r@, kept_layers(preview_candidates(i))),
{
    let ghost gi = i;
    let PreviewInputs {
        mode,
        runtime_prompt,
        agent_prompt,
        task_prompts,
        task_prompt_inject_enabled,
        inject,
        character,
        history,
        flow_steps,
        reflect_prompt,
        reflect_advice_prompt,
        reflect_advice_role,
        preset_tail_prompt,
        preset_tail_role,
    } = i;
    let mut layers: Vec<PromptPreviewLayer> = Vec::new();
    let g: Ghost<Seq<LayerSpec>> = Ghost(Seq::empty());
    let g = push_candidates(&mut layers, &runtime_candidates(runtime_prompt), g);
    let g = push_candidates(&mut layers, &agent_candidates(mode, &agent_prompt), g);
    let g = push_candidates(&mut layers, &task_candidates(mode, task_prompts), g);
    let g = push_candidates(&mut layers, &inject_candidates(mode, task_prompt_inject_enabled, inject), g);
    let g = push_candidates(&mut layers, &character_candidates(character), g);
    let g = push_candidates(&mut layers, &history_candidates(history), g);
    let g = push_candidates(&mut layers, &flow_candidates(flow_steps), g);
    let mut tail: Vec<(String, String, u8, String)> = Vec::new();
    tail.push(("reflection".to_owned(), "system".to_owned(), 0, reflect_prompt));
    tail.push(("reflection_advice".to_owned(), reflect_advice_role, 0, reflect_advice_prompt));
    tail.push(("preset_tail".to_owned(), preset_tail_role, 0, preset_tail_prompt));
    assert(cand_view(tail@) =~= tail_layers(gi));
    let g = push_candidates(&mut layers, &tail, g);
    assert(g@ =~= preview_candidates(gi));
    layers
}

} // verus!
