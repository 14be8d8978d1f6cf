//! The state of the client: messages, models, settings, spaces and sessions.

use nexus_chat::app::{App, Startup};
use nexus_chat::backends::{composite_id, Backend, BackendTag, Backends, Model};
use nexus_chat::chat::{
    code_blocks, human_size, pick_flavor, pick_greeting, split_inline_reasoning, spinner_glyph,
    thinking_now, thinking_then, title_from, verbosity_clause, web_mode_clause,
};
use nexus_chat::clipboard::{copy_message, copy_text};
use nexus_chat::commands::{
    AllDefaults, CommandName, CommandStep, DefaultModels, Submitted,
};
use nexus_chat::compaction::compaction_tail;
use nexus_chat::effects::Effect;
use nexus_chat::login::LoginMsg;
use nexus_chat::memory::{parse_memory_ops, MemoryOp};
use nexus_chat::naming::{parse_topic, session_score, slugify};
use nexus_chat::ordering::fuzzy_filter_sorted;
use nexus_chat::prompts::{
    extension_of, files_section, scripts_section, skills_section, space_images_message,
    system_prompt, PromptInputs, SpaceImage,
};
use nexus_chat::provider::{StreamEvent, Usage};
use nexus_chat::sending::{MessageToStore, NewChat, SendNext, StreamInputs};
use nexus_chat::searcher::known_excerpts;
use nexus_chat::settings::{
    cycle_ocr_engine, ocr_local_install, settings_row, settings_rows, toggle_reasoning_view,
};
use nexus_chat::startup::Setting;
use nexus_chat::state::{SavedKeys, DEFAULT_SPACE};
use nexus_chat::store::{
    FileRow, FloatBits, Message, ModelPref, ScriptRow, Session, Skill, Space,
};
use nexus_chat::stream::{answer_to_store, error_is_stored, TaskWrites};
use nexus_chat::ui::{
    ModelPanel, ModelPickTarget, Popup, SessionMode, SettingsField, SettingsRow, SpaceMode,
};
use nexus_chat::writes::cleared_model;
use std::collections::HashSet;

const BASE_PROMPT: &str = "You are a helpful client. {{verbosity}} It is {{datetime}}.";

fn backend(tag: BackendTag, key: &str) -> Backend {
    Backend {
        tag,
        key: key.to_string(),
        utility_model: "utility".to_string(),
        research_model: "research".to_string(),
    }
}

fn model(id: &str, name: &str) -> Model {
    Model {
        id: id.to_string(),
        name: name.to_string(),
        backend: BackendTag::OpenRouter,
        supports_reasoning: false,
        supports_images: false,
        supports_image_generation: false,
        supports_video_generation: false,
        context_length: None,
    }
}

fn space(id: &str, name: &str) -> Space {
    Space { id: id.to_string(), name: name.to_string(), created_at: "2026-01-01".to_string() }
}

fn no_keys() -> SavedKeys {
    SavedKeys { openrouter_key: None, openai_key: None, opencode_key: None, codex: None }
}

fn app(key: Option<&str>) -> App {
    let mut backends = Backends::default();
    if let Some(k) = key {
        backends.set(BackendTag::OpenRouter, backend(BackendTag::OpenRouter, k));
    }
    App::new(Startup {
        backends,
        saved: no_keys(),
        default_space: Some(space("space-0", DEFAULT_SPACE)),
        now: "2026-01-01T00:00:00Z".to_string(),
        skills: Vec::new(),
        base_system_prompt: BASE_PROMPT.to_string(),
        banner: "banner".to_string(),
        seed: 3,
        home: "/home/me".to_string(),
        max_chat_tasks: 4,
    })
}

fn app_with_key() -> App {
    let mut a = app(Some("test-key"));
    a.catalog.models = vec![model("a/one", "One"), model("b/two", "Two")];
    a
}

fn session(id: &str, title: &str) -> Session {
    Session {
        id: id.to_string(),
        title: title.to_string(),
        model: "a/one".to_string(),
        slug: None,
        created_at: "2026-01-01T00:00:00Z".to_string(),
        compact_summary: None,
        compact_through: 0,
        web_mode: false,
        swarm_mode: false,
        kind: "chat".to_string(),
        research_parent_id: None,
    }
}

fn row(role: &str, content: &str) -> Message {
    Message::plain(role, content.to_string())
}

fn new_chat(id: &str) -> NewChat {
    NewChat {
        created: Some(session(id, "created")),
        id: format!("private-{id}"),
        now: "2026-02-02T00:00:00Z".to_string(),
    }
}

fn stream_inputs() -> StreamInputs {
    StreamInputs {
        prompt: "system".to_string(),
        images: None,
        body: "search instructions".to_string(),
        known: Vec::new(),
        accepted: true,
        cleared: true,
        seed: 5,
    }
}

fn stored() -> TaskWrites {
    TaskWrites { answer: true, error: true }
}

fn prompt_inputs() -> PromptInputs {
    PromptInputs {
        now: "2026-01-01 10:00 UTC, Thursday".to_string(),
        today: "2026-01-01".to_string(),
        instructions: None,
        memory: String::new(),
        apps: Vec::new(),
        research: false,
    }
}

fn prompt_of(a: &App, i: &PromptInputs) -> String {
    system_prompt(
        &a.config,
        a.incognito,
        a.app_server,
        a.web_mode,
        &a.files.cache,
        &a.scripts,
        &a.skills.list,
        i,
    )
}

/// How well `needle` matches as a subsequence.
fn fuzzy(text: &str, needle: &str) -> Option<i32> {
    let hay: Vec<char> = text.to_lowercase().chars().collect();
    let mut at = 0;
    for c in needle.trim().to_lowercase().chars() {
        match hay[at..].iter().position(|h| *h == c) {
            Some(k) => at += k + 1,
            None => return None,
        }
    }
    Some(1000 - at as i32)
}

fn session_scores(a: &App) -> Vec<Option<i32>> {
    let needle = a.sessions.filter.clone();
    a.sessions
        .cache
        .iter()
        .map(|s| {
            session_score(
                fuzzy(&s.title, &needle),
                s.slug.as_ref().and_then(|t| fuzzy(t, &needle)),
                fuzzy(&s.id, &needle),
            )
        })
        .collect()
}

fn space_scores(a: &App) -> Vec<Option<i32>> {
    let needle = a.spaces.filter.clone();
    a.spaces.cache.iter().map(|s| fuzzy(&s.name, &needle)).collect()
}

fn stored_value(effects: &[Effect], wanted: &str) -> Option<String> {
    effects.iter().find_map(|e| match e {
        Effect::SetSetting { key, value } if key == wanted => Some(value.clone()),
        _ => None,
    })
}

fn commands() -> Vec<CommandName> {
    let with = |name: &str, aliases: &[&str]| CommandName {
        name: name.to_string(),
        aliases: aliases.iter().map(|s| s.to_string()).collect(),
    };
    vec![
        with("quit", &["exit"]),
        with("new", &["clear"]),
        with("session", &["history"]),
        with("help", &[]),
        with("edit", &[]),
    ]
}

#[test]
fn code_blocks_split_by_fence_with_lang() {
    let md = "intro\n```rust\nfn a() {}\n```\ntext\n```\nplain\n```";
    let blocks = code_blocks(md);
    assert_eq!(blocks.len(), 2);
    assert_eq!(blocks[0].0.as_deref(), Some("rust"));
    assert_eq!(blocks[0].1, "fn a() {}\n");
    assert_eq!(blocks[1].0, None);
    assert_eq!(blocks[1].1, "plain\n");
}

#[test]
fn split_inline_reasoning_strips_think_tags() {
    let (content, reasoning) = split_inline_reasoning("plain answer, no tags");
    assert_eq!(content, "plain answer, no tags");
    assert_eq!(reasoning, None);

    let (content, reasoning) =
        split_inline_reasoning("<think>let me work this out</think>the actual answer");
    assert_eq!(content, "the actual answer");
    assert_eq!(reasoning.as_deref(), Some("let me work this out"));

    let (content, reasoning) =
        split_inline_reasoning("intro <think>step one</think>middle<think>step two</think> outro");
    assert_eq!(content, "intro middle outro");
    assert_eq!(reasoning.as_deref(), Some("step one\nstep two"));

    let (content, reasoning) = split_inline_reasoning("<think>still thinking...");
    assert_eq!(content, "");
    assert_eq!(reasoning.as_deref(), Some("still thinking..."));
}

#[test]
fn compaction_tail_skips_rows_that_must_never_reach_the_model() {
    let mut msgs = vec![
        row("user", "what should we research?"),
        row("research_stage", "planner: working"),
        row("survey", "For \"x\":\n 1. Depth?"),
        row("gate_reply", "drop Q2"),
        row("research_plan", "Research plan: …"),
        row("error", "request failed"),
        row("session_link", "sess-1\n↩ from: x"),
        row("compaction", "folded-away digest"),
        row("user", "the final question"),
        row("tool_call", r#"{"name":"search"}"#),
    ];
    let mut persona = row("assistant", "round reply");
    persona.persona = Some("Optimist".into());
    msgs.push(persona);

    let tail = compaction_tail(&msgs, 0);
    assert!(tail.contains("what should we research?"), "{tail}");
    assert!(tail.contains("the final question"), "{tail}");
    for banned in [
        "planner: working",
        "Depth?",
        "drop Q2",
        "Research plan",
        "request failed",
        "sess-1",
        "folded-away digest",
        "round reply",
        "tool_call",
    ] {
        assert!(!tail.contains(banned), "digest must not contain {banned:?}: {tail}");
    }
    let partial = compaction_tail(&msgs, 1);
    assert!(!partial.contains("what should we research?"), "{partial}");
    assert!(partial.contains("the final question"), "{partial}");
}

#[test]
fn parse_topic_extracts_and_slugifies() {
    let (t, s) = parse_topic(r#"{"topic": "Rust Async Runtimes", "id": "rust async!"}"#).unwrap();
    assert_eq!(t, "Rust Async Runtimes");
    assert_eq!(s, "rust-async");
    let (t, s) = parse_topic("sure:\n```json\n{\"topic\":\"Hi There\",\"id\":\"hi\"}\n```").unwrap();
    assert_eq!(t, "Hi There");
    assert_eq!(s, "hi");
    assert!(parse_topic("no json here").is_none());
}

#[test]
fn session_filter_matches_title_and_slug() {
    let mut a = app(Some("k"));
    let mut s1 = session("s1", "Rust async runtimes");
    s1.slug = Some("rust-async".to_string());
    let s2 = session("s2", "Cooking pasta");
    a.sessions.cache = vec![s1, s2];

    a.sessions.filter = "rust".into();
    let scores = session_scores(&a);
    let hits = a.sessions.filtered_sessions(&scores);
    assert_eq!(hits.len(), 1);
    assert_eq!(hits[0].id, "s1");

    a.sessions.filter = "pasta".into();
    let scores = session_scores(&a);
    assert_eq!(a.sessions.filtered_sessions(&scores)[0].id, "s2");
}

#[test]
fn delete_removes_session_and_clears_if_active() {
    let mut a = app(Some("k"));
    let s = session("s1", "doomed");
    a.sessions.cache = vec![s.clone()];
    a.talk.session = Some(s);
    a.talk.messages.push(row("user", "hi"));
    a.sessions.selected = 0;
    let effects = a.confirm_delete(&vec![None], true);
    assert!(a.sessions.cache.is_empty());
    assert!(a.talk.session.is_none());
    assert!(a.talk.messages.is_empty());
    assert_eq!(effects.len(), 1);
    assert!(a.screen.popup == Popup::Closed);
    assert_eq!(a.screen.status, "deleted: doomed");
}

#[test]
fn message_without_model_is_rejected() {
    let mut a = app_with_key();
    a.screen.input = "hello".to_string();
    let text = match a.submit() {
        Submitted::Text(t) => t,
        _ => panic!("expected a message"),
    };
    let (next, _) = a.send_message(text, new_chat("s1"), true);
    assert!(next == SendNext::Refused);
    assert!(a.talk.session.is_none());
    assert!(a.screen.status.contains("pick a model"));
    assert_eq!(a.screen.input, "hello");
}

#[test]
fn message_without_backend_is_rejected() {
    let mut a = app(None);
    a.catalog.current = Some("a/one".into());
    let (next, _) = a.send_message("hello".to_string(), new_chat("s1"), true);
    assert!(next == SendNext::Refused);
    assert!(a.talk.session.is_none());
    assert_eq!(a.screen.status, "set your API key first with /login");
    assert_eq!(a.screen.input, "hello");
}

#[test]
fn message_with_model_creates_session_and_streams() {
    let mut a = app_with_key();
    a.catalog.current = Some("a/one".into());
    a.screen.input = "hello world".to_string();
    let text = match a.submit() {
        Submitted::Text(t) => t,
        _ => panic!("expected a message"),
    };
    let (next, _) = a.send_message(text, new_chat("s1"), true);
    assert!(next == SendNext::Stream);
    let request = a.start_stream(stream_inputs()).unwrap();
    assert!(a.talk.session.is_some());
    assert!(a.is_streaming());
    assert_eq!(a.talk.messages.len(), 1);
    assert_eq!(a.talk.messages[0].role, "user");
    assert_eq!(request.model, "a/one");
    assert_eq!(request.history.len(), 2);
    assert_eq!(request.history[1].content, "hello world");
}

#[test]
fn panels_split_favorites_from_available_by_recency() {
    let mut a = app(Some("k"));
    a.catalog.models = vec![model("a/one", "One"), model("b/two", "Two"), model("c/three", "Three")];
    a.catalog.favorites.insert("c/three".into());
    a.catalog.last_used.insert("a/one".into(), "2026-01-01T00:00:00Z".into());
    a.catalog.last_used.insert("b/two".into(), "2026-02-01T00:00:00Z".into());

    let favs: Vec<&str> = a.catalog.favorite_models().iter().map(|m| m.id.as_str()).collect();
    assert_eq!(favs, vec!["c/three"]);
    let avail: Vec<&str> = a.catalog.available_models().iter().map(|m| m.id.as_str()).collect();
    assert_eq!(avail, vec!["b/two", "a/one"]);
}

#[test]
fn toggle_favorite_persists_and_moves_panel() {
    let mut a = app(Some("k"));
    a.catalog.models = vec![model("a/one", "One")];
    a.catalog.focus = ModelPanel::Available;
    a.catalog.avail_state = Some(0);
    a.toggle_favorite_focused(Some(true));
    assert!(a.catalog.favorites.contains("a/one"));
    assert_eq!(a.catalog.favorite_models().len(), 1);
    assert_eq!(a.catalog.available_models().len(), 0);

    a.catalog.focus = ModelPanel::Favorites;
    a.catalog.fav_state = Some(0);
    a.toggle_favorite_focused(Some(false));
    assert!(!a.catalog.favorites.contains("a/one"));
}

#[test]
fn filter_narrows_available() {
    let mut a = app_with_key();
    a.catalog.filter = "two".into();
    let f = a.catalog.available_models();
    assert_eq!(f.len(), 1);
    assert_eq!(f[0].id, "b/two");
}

#[test]
fn reasoning_cycles_only_for_supporting_models() {
    let mut a = app(Some("k"));
    let mut r = model("r/model", "R");
    r.supports_reasoning = true;
    r.context_length = Some(1000);
    a.catalog.models = vec![r];
    a.catalog.focus = ModelPanel::Available;
    a.catalog.avail_state = Some(0);
    a.cycle_reasoning_focused(true);
    assert_eq!(a.catalog.reasoning_of("r/model").map(|s| s.as_str()), Some("low"));
    a.cycle_reasoning_focused(true);
    a.cycle_reasoning_focused(true);
    assert_eq!(a.catalog.reasoning_of("r/model").map(|s| s.as_str()), Some("high"));
    a.cycle_reasoning_focused(true);
    assert_eq!(a.catalog.reasoning_of("r/model"), None);

    let mut b = app_with_key();
    b.catalog.focus = ModelPanel::Available;
    b.catalog.avail_state = Some(0);
    b.cycle_reasoning_focused(true);
    assert_eq!(b.catalog.reasoning_of("a/one"), None);
    assert_eq!(b.screen.status, "a/one has no reasoning setting");
}

#[test]
fn settings_edit_and_save_persists() {
    let mut a = app(Some("k"));
    a.screen.popup = Popup::Settings;
    a.settings_popup.selected = 0;
    a.settings_popup.toggle_settings_field(&mut a.config);
    assert!(a.config.settings.show_stats);
    a.settings_popup.selected = 3;
    for c in "0.7".chars() {
        a.settings_popup.settings_input_char(c);
    }
    let typed = Some(FloatBits { bits: 0.7f64.to_bits() });
    let effects = a.settings_popup.settings_to_store(&a.config, typed, None);
    let n = effects.len();
    a.settings_popup.save_settings(&mut a.config, &mut a.screen, typed, None, n);
    assert_eq!(a.config.settings.temperature, Some(FloatBits { bits: 0.7f64.to_bits() }));

    assert_eq!(stored_value(&effects, "temperature").as_deref(), Some("0.7"));
    assert_eq!(stored_value(&effects, "show_stats").as_deref(), Some("1"));
    assert_eq!(a.screen.status, "settings saved");
}

#[test]
fn base_system_prompt_is_always_present_and_resolves_verbosity() {
    let a = app_with_key();
    assert!(!a.config.base_system_prompt.is_empty());
    assert!(a.config.base_system_prompt.contains("{{verbosity}}"));
    let resolved = prompt_of(&a, &prompt_inputs());
    assert!(!resolved.contains("{{verbosity}}"));
    assert!(resolved.contains(verbosity_clause("concise")));
    assert!(resolved.contains("It is 2026-01-01 10:00 UTC, Thursday."));
}

#[test]
fn verbosity_cycles_through_all_three_levels() {
    let mut a = app_with_key();
    a.screen.popup = Popup::Settings;
    a.settings_popup.selected = 9;
    assert_eq!(a.config.verbosity, "concise");
    a.settings_popup.toggle_settings_field(&mut a.config);
    assert_eq!(a.config.verbosity, "caveman");
    a.settings_popup.toggle_settings_field(&mut a.config);
    assert_eq!(a.config.verbosity, "normal");
    a.settings_popup.toggle_settings_field(&mut a.config);
    assert_eq!(a.config.verbosity, "concise");
}

#[test]
fn verbosity_setting_persists_and_changes_the_prompt() {
    let mut a = app_with_key();
    a.screen.popup = Popup::Settings;
    a.settings_popup.selected = 9;
    a.settings_popup.toggle_settings_field(&mut a.config);
    let effects = a.settings_popup.settings_to_store(&a.config, None, None);
    let n = effects.len();
    a.settings_popup.save_settings(&mut a.config, &mut a.screen, None, None, n);
    assert!(prompt_of(&a, &prompt_inputs()).contains(verbosity_clause("caveman")));
    assert_eq!(stored_value(&effects, "verbosity").as_deref(), Some("caveman"));
}

#[test]
fn searxng_url_setting_persists_and_enables_web_search_tool() {
    let mut a = app(Some("k"));
    assert!(a.toolbox_config().searxng_url.is_none());

    a.screen.popup = Popup::Settings;
    a.settings_popup.selected = 8;
    for c in "http://localhost:8080/".chars() {
        a.settings_popup.settings_input_char(c);
    }
    let effects = a.settings_popup.settings_to_store(&a.config, None, None);
    let n = effects.len();
    a.settings_popup.save_settings(&mut a.config, &mut a.screen, None, None, n);

    assert_eq!(a.config.searxng_url, "http://localhost:8080");
    assert_eq!(a.toolbox_config().searxng_url.as_deref(), Some("http://localhost:8080"));
    assert!(effects.iter().any(|e| matches!(e, Effect::RefreshToolbox)));
    assert_eq!(stored_value(&effects, "searxng_url").as_deref(), Some("http://localhost:8080"));

    let mut b = app(Some("k"));
    b.load_settings(&vec![Setting {
        key: "searxng_url".to_string(),
        value: "http://localhost:8080".to_string(),
        number: None,
    }]);
    assert_eq!(b.config.searxng_url, "http://localhost:8080");
}

#[test]
fn last_used_model_restored_on_startup() {
    let mut a = app(Some("k"));
    let pref = |id: &str, when: &str| ModelPref {
        id: id.to_string(),
        favorite: false,
        last_used: Some(when.to_string()),
        reasoning: None,
    };
    a.load_prefs(&vec![pref("a/one", "2026-01-01T00:00:00Z"), pref("b/two", "2026-01-02T00:00:00Z")]);
    assert_eq!(a.catalog.current.as_deref(), Some("b/two"));
}

#[test]
fn context_used_and_limit() {
    let mut a = app_with_key();
    a.catalog.models[0].context_length = Some(1000);
    a.catalog.current = Some("a/one".into());
    assert_eq!(a.catalog.context_limit(), Some(1000));
    a.talk.messages.push(row("user", &"x".repeat(40)));
    assert_eq!(a.context_used("", ""), 10);
    assert_eq!(a.context_used("12345678", "1234"), 13);
}

#[test]
fn compaction_narrows_effective_messages_and_context_used() {
    let mut a = app_with_key();
    a.catalog.models[0].context_length = Some(1000);
    a.catalog.current = Some("a/one".into());
    let mut s = session("s1", "t");
    for i in 0..4 {
        a.talk.messages.push(row(if i % 2 == 0 { "user" } else { "assistant" }, &"x".repeat(40)));
    }
    s.compact_summary = Some("y".repeat(80));
    s.compact_through = 2;
    a.talk.session = Some(s);

    assert_eq!(a.talk.effective_messages().len(), 2);
    assert_eq!(a.context_used("", ""), 40);
}

#[test]
fn on_compact_result_persists_and_clears_stale_total() {
    let mut a = app_with_key();
    a.catalog.models[0].context_length = Some(1000);
    a.catalog.current = Some("a/one".into());
    a.talk.session = Some(session("s1", "t"));
    a.talk.context_total = Some(999);

    let effects = a.on_compact_result(Some(("s1".to_string(), "digest".into(), 3, 61)), "", "");

    assert_eq!(a.talk.session.as_ref().unwrap().compact_summary.as_deref(), Some("digest"));
    assert_eq!(a.talk.session.as_ref().unwrap().compact_through, 3);
    assert!(a.talk.context_total.is_none());
    assert!(a.screen.status.contains("compacted: 61%"));
    assert!(effects.iter().any(|e| matches!(
        e,
        Effect::SetCompaction { session_id, summary, through: 3 }
            if session_id == "s1" && summary == "digest"
    )));
}

#[test]
fn maybe_compact_noop_when_disabled_or_under_threshold() {
    let mut a = app_with_key();
    a.catalog.models[0].context_length = Some(1000);
    a.catalog.current = Some("a/one".into());
    a.config.settings.compact_threshold = 0;
    assert!(a.maybe_compact(a.talk.messages.len(), "", "").is_none());
    assert!(!a.jobs.compact);

    a.config.settings.compact_threshold = 60;
    assert!(a.maybe_compact(a.talk.messages.len(), "", "").is_none());
    assert!(!a.jobs.compact);
}

#[test]
fn force_compact_reports_why_it_no_ops() {
    let mut a = app_with_key();
    a.catalog.current = Some("a/one".into());

    assert!(a.force_compact("", "").is_none());
    assert!(!a.jobs.compact);
    assert!(a.screen.status.contains("no active session"));

    a.talk.session = Some(session("s1", "t"));
    assert!(a.force_compact("", "").is_none());
    assert!(!a.jobs.compact);
    assert!(a.screen.status.contains("nothing new"));

    a.talk.messages.push(row("user", "hi"));
    let request = a.force_compact("", "").unwrap();
    assert!(a.jobs.compact);
    assert_eq!(request.through, 1);
    assert!(request.prompt.starts_with("New messages since that summary:\nuser: hi\n\nCompress ALL"));
    assert!(a.force_compact("", "").is_none());
    assert_eq!(a.screen.status, "already compacting…");
}

#[test]
fn compaction_starts_at_the_threshold() {
    let mut a = app_with_key();
    a.catalog.models[0].context_length = Some(100);
    a.catalog.current = Some("a/one".into());
    a.talk.session = Some(session("s1", "t"));
    a.talk.messages.push(row("user", &"x".repeat(240)));
    a.talk.context_total = Some(59);
    assert!(a.maybe_compact(a.talk.messages.len(), "", "").is_none());
    a.talk.context_total = Some(60);
    let request = a.maybe_compact(a.talk.messages.len(), "", "").unwrap();
    assert_eq!(request.before_pct, 60);
    assert_eq!(request.session_id, "s1");
    assert_eq!(request.model, "google/gemini-2.5-flash-lite");
}

#[test]
fn context_breakdown_reports_system_memory_conversation() {
    let mut a = app_with_key();
    a.catalog.models[0].context_length = Some(1000);
    a.catalog.current = Some("a/one".into());
    a.talk.messages.push(row("user", &"x".repeat(40)));
    let b = a.context_breakdown(&prompt_of(&a, &prompt_inputs()), "", "12345678", "");
    assert_eq!(b.conversation_tokens, 10);
    assert!(b.system_tokens > 0);
    assert_eq!(b.memory_tokens, 2);
    assert_eq!(b.limit, Some(1000));
    assert!(!b.compacted);
}

#[test]
fn compact_summary_view_and_edit_roundtrip() {
    let mut a = app_with_key();
    assert!(a.edited_digest("anything").is_none());
    let mut s = session("s1", "t");
    s.compact_summary = Some("original digest".into());
    s.compact_through = 2;
    a.talk.session = Some(s);
    assert_eq!(a.talk.summary_text(), Some("original digest"));
    assert!(a.edited_digest("original digest\n").is_none());

    assert_eq!(a.edited_digest("hand-edited digest\n").as_deref(), Some("hand-edited digest"));
    a.reload_compact_summary("hand-edited digest\n", true);
    let s = a.talk.session.as_ref().unwrap();
    assert_eq!(s.compact_summary.as_deref(), Some("hand-edited digest"));
    assert_eq!(s.compact_through, 2);
    assert_eq!(a.screen.status, "compaction digest updated");
}

fn session_with_rows(n: usize) -> App {
    let mut a = app(Some("k"));
    a.talk.session = Some(session("s1", "t"));
    for i in 0..n {
        let mut u = row("user", &format!("u{i}"));
        u.created_at = Some(format!("time-u{i}"));
        let mut r = row("assistant", &format!("a{i}"));
        r.created_at = Some(format!("time-a{i}"));
        a.talk.messages.push(u);
        a.talk.messages.push(r);
    }
    a
}

#[test]
fn on_compact_result_surfaces_the_digest_at_the_boundary() {
    let mut a = session_with_rows(2);
    let effects = a.on_compact_result(Some(("s1".to_string(), "digest text".to_string(), 3, 42)), "", "");

    assert_eq!(a.talk.messages.len(), 5);
    assert_eq!(a.talk.messages[3].role, "compaction");
    assert_eq!(a.talk.messages[3].content, "digest text");
    assert_eq!(a.talk.messages[2].content, "u1");
    assert_eq!(a.talk.session.as_ref().unwrap().compact_through, 3);
    assert_eq!(
        a.talk.session.as_ref().unwrap().compact_summary.as_deref(),
        Some("digest text")
    );
    assert_eq!(a.talk.messages[3].created_at, a.talk.messages[2].created_at);
    assert!(effects.iter().any(|e| matches!(
        e,
        Effect::PutDigestRow { summary, anchor, .. }
            if summary == "digest text" && anchor.as_deref() == Some("time-u1")
    )));
    assert!(a.screen.status.contains("compacted"), "{}", a.screen.status);
}

#[test]
fn re_compaction_updates_the_digest_row_in_place() {
    let mut a = session_with_rows(5);
    let digests = |a: &App| a.talk.messages.iter().filter(|m| m.role == "compaction").count();

    a.on_compact_result(Some(("s1".to_string(), "digest one".to_string(), 4, 50)), "", "");
    assert_eq!(digests(&a), 1);

    a.on_compact_result(Some(("s1".to_string(), "digest two".to_string(), 10, 60)), "", "");
    assert_eq!(digests(&a), 1);
    let digest = a.talk.messages.iter().find(|m| m.role == "compaction").unwrap();
    assert_eq!(digest.content, "digest two");
}

#[test]
fn backfill_surfaces_a_legacy_digest_at_the_boundary_and_is_idempotent() {
    let mut a = session_with_rows(1);
    if let Some(s) = a.talk.session.as_mut() {
        s.compact_summary = Some("legacy digest".to_string());
        s.compact_through = 2;
    }

    let effects = a.backfill_compaction_row("now");
    assert_eq!(a.talk.messages.len(), 3);
    assert_eq!(a.talk.messages[2].role, "compaction");
    assert_eq!(a.talk.messages[2].content, "legacy digest");
    assert!(matches!(
        &effects[0],
        Effect::AddDigestRow { anchor, .. } if anchor == "time-a0"
    ));

    assert!(a.backfill_compaction_row("later").is_empty());
    assert_eq!(a.talk.messages.len(), 3);
}

#[test]
fn digest_of_another_session_changes_no_rows() {
    let mut a = session_with_rows(1);
    let effects = a.on_compact_result(Some(("other".to_string(), "d".to_string(), 1, 5)), "", "");
    assert_eq!(a.talk.messages.len(), 2);
    assert!(a.talk.session.as_ref().unwrap().compact_summary.is_none());
    assert!(matches!(&effects[1], Effect::PutDigestRow { anchor: None, .. }));
}

#[test]
fn pick_model_at_sets_current_and_closes() {
    let mut a = app_with_key();
    a.screen.popup = Popup::Model;
    a.pick_model_at(ModelPanel::Available, 0, "now".to_string(), true);
    assert!(a.catalog.current.is_some());
    assert!(a.screen.popup == Popup::Closed);
}

#[test]
fn picking_memory_model_sets_it_and_returns_to_settings() {
    let mut a = app_with_key();
    let original_model = a.catalog.current.clone();
    a.open_model_picker_for(ModelPickTarget::Memory);
    assert!(a.screen.popup == Popup::Model);
    assert!(a.catalog.target == ModelPickTarget::Memory);

    let effects = a.pick_effects("a/one");
    a.pick_model_at(ModelPanel::Available, 0, "now".to_string(), true);
    assert_eq!(a.config.memory_model, "a/one");
    assert!(a.screen.popup == Popup::Settings);
    assert_eq!(a.catalog.current, original_model);
    assert_eq!(stored_value(&effects, "memory_model"), Some("a/one".to_string()));
}

#[test]
fn clear_memory_model_disables_extraction() {
    let mut a = app_with_key();
    a.config.memory_model = "some/model".into();
    a.clear_memory_model(true);
    assert!(a.config.memory_model.is_empty());
    a.talk.messages = vec![row("user", "hi"), row("assistant", "ho")];
    assert!(a.maybe_extract_memory(2, "").is_none());
}

#[test]
fn finish_stream_persists_assistant_message() {
    let mut a = app_with_key();
    a.catalog.current = Some("a/one".into());
    a.send_message("hi".to_string(), new_chat("s1"), true);
    let id = a.start_stream(stream_inputs()).unwrap().task_id.unwrap();
    let secs = FloatBits { bits: 1.5f64.to_bits() };
    a.on_chat_event(id, StreamEvent::Token("pong".into()), stored(), secs, "now");
    let effects = a.on_chat_event(id, StreamEvent::Done, stored(), secs, "now");
    assert!(!a.is_streaming());
    assert_eq!(a.talk.messages.last().unwrap().content, "pong");
    assert_eq!(a.talk.messages.len(), 2);
    assert_eq!(a.talk.messages[1].tokens, Some(1));
    assert_eq!(a.screen.status, "response complete");
    assert!(matches!(&effects[0], Effect::FollowUp { rows: 2 }));
}

#[test]
fn finish_stream_strips_inline_think_tags_into_reasoning() {
    let mut a = app_with_key();
    a.catalog.current = Some("a/one".into());
    a.send_message("hi".to_string(), new_chat("s1"), true);
    let id = a.start_stream(stream_inputs()).unwrap().task_id.unwrap();
    let secs = FloatBits { bits: 0 };
    a.on_chat_event(id, StreamEvent::Token("<think>pondering</think>".into()), stored(), secs, "now");
    a.on_chat_event(id, StreamEvent::Token("the real answer".into()), stored(), secs, "now");
    a.on_chat_event(id, StreamEvent::Done, stored(), secs, "now");

    let msg = a.talk.messages.last().unwrap();
    assert_eq!(msg.content, "the real answer");
    assert_eq!(msg.reasoning.as_deref(), Some("pondering"));

    a.screen.status = "sentinel".into();
    let text = copy_message(&a.talk, None, 1, "the real answer").unwrap();
    copy_text(&mut a.screen, &text, true);
    assert_eq!(a.screen.status, "copied 15 chars");
}

#[test]
fn a_response_in_another_session_is_noted() {
    let mut a = app_with_key();
    a.catalog.current = Some("a/one".into());
    a.send_message("hi".to_string(), new_chat("s1"), true);
    let id = a.start_stream(stream_inputs()).unwrap().task_id.unwrap();
    a.talk.session = Some(session("s2", "elsewhere"));
    a.talk.messages.clear();
    let secs = FloatBits { bits: 0 };
    a.on_chat_event(id, StreamEvent::Token("pong".into()), stored(), secs, "now");
    a.on_chat_event(
        id,
        StreamEvent::Usage(Usage { prompt_tokens: 1, completion_tokens: 2, total_tokens: 0 }),
        stored(),
        secs,
        "now",
    );
    let effects = a.on_chat_event(id, StreamEvent::Done, stored(), secs, "now");
    assert!(a.talk.messages.is_empty());
    assert!(a.talk.context_total.is_none());
    assert!(a.notices.unread.contains("s1"));
    assert_eq!(a.notices.list.len(), 1);
    assert!(a.notices.list[0].success);
    assert_eq!(a.screen.status, "✓ response ready in: created");
    assert!(matches!(&effects[0], Effect::Notify { text, .. } if text == "response complete"));
}

#[test]
fn a_failed_response_shows_its_error() {
    let mut a = app_with_key();
    a.catalog.current = Some("a/one".into());
    a.send_message("hi".to_string(), new_chat("s1"), true);
    let id = a.start_stream(stream_inputs()).unwrap().task_id.unwrap();
    let secs = FloatBits { bits: 0 };
    a.on_chat_event(id, StreamEvent::Error("boom".into()), stored(), secs, "now");
    assert_eq!(a.talk.messages.last().unwrap().role, "error");
    assert_eq!(a.talk.messages.last().unwrap().content, "boom");
    assert_eq!(a.screen.status, "stream error: boom");
    assert!(!a.is_streaming());
}

#[test]
fn an_incognito_response_stores_nothing() {
    let mut a = app_with_key();
    a.catalog.current = Some("a/one".into());
    a.toggle_incognito();
    assert!(a.incognito);
    let (next, effects) = a.send_message("hi".to_string(), new_chat("s1"), false);
    assert!(next == SendNext::Stream);
    assert!(effects.is_empty());
    assert_eq!(a.talk.session.as_ref().unwrap().id, "private-s1");
    let id = a.start_stream(stream_inputs()).unwrap().task_id.unwrap();
    let secs = FloatBits { bits: 0 };
    a.on_chat_event(id, StreamEvent::Token("pong".into()), stored(), secs, "now");
    let effects = a.on_chat_event(id, StreamEvent::Done, stored(), secs, "now");
    assert!(effects.is_empty());
    assert_eq!(a.talk.messages.last().unwrap().content, "pong");
}

#[test]
fn tool_calls_are_kept_and_replayed() {
    let mut a = app_with_key();
    a.catalog.current = Some("a/one".into());
    a.send_message("draw".to_string(), new_chat("s1"), true);
    let id = a.start_stream(stream_inputs()).unwrap().task_id.unwrap();
    let secs = FloatBits { bits: 0 };
    let effects = a.on_chat_event(
        id,
        StreamEvent::ToolCall {
            name: "generate_image".into(),
            arguments: "{\"prompt\":\"a cat\"}".into(),
            result: "cat.png".into(),
        },
        stored(),
        secs,
        "now",
    );
    assert!(matches!(&effects[0], Effect::AddMessage { role, .. } if role == "tool_call"));
    assert!(matches!(&effects[1], Effect::RescanFiles));
    a.on_chat_event(id, StreamEvent::Token("done".into()), stored(), secs, "now");
    a.on_chat_event(id, StreamEvent::Done, stored(), secs, "now");
    let request = a.start_stream(stream_inputs()).unwrap();
    let history = &request.history;
    assert_eq!(history.len(), 5);
    let calls = history[2].tool_calls.as_ref().unwrap();
    assert_eq!(calls[0].name, "generate_image");
    assert_eq!(calls[0].arguments, "{\"prompt\":\"a cat\"}");
    assert_eq!(history[3].role, "tool");
    assert_eq!(history[3].content, "cat.png");
    assert_eq!(history[3].tool_call_id.as_deref(), Some(calls[0].id.as_str()));
}

#[test]
fn images_in_messages_reach_models_that_see_them() {
    let mut a = app_with_key();
    a.catalog.models[0].supports_images = true;
    a.catalog.current = Some("a/one".into());
    a.send_message("look ![x](one.png) and ![y](two.png)".to_string(), new_chat("s1"), true);
    let mut i = stream_inputs();
    i.known.push(nexus_chat::history::LinkedImage {
        file: "two.png".to_string(),
        url: "data:two".to_string(),
    });
    let request = a.start_stream(i).unwrap();
    assert_eq!(request.history[1].images, vec!["data:two".to_string()]);
}

#[test]
fn a_stale_effort_is_cleared() {
    let mut a = app_with_key();
    a.catalog.current = Some("a/one".into());
    a.catalog.reasoning.insert("a/one".to_string(), "high".to_string());
    a.send_message("hi".to_string(), new_chat("s1"), true);
    let mut i = stream_inputs();
    i.accepted = false;
    let request = a.start_stream(i).unwrap();
    assert!(request.params.reasoning_effort.is_none());
    assert!(a.catalog.reasoning_of("a/one").is_none());
    assert_eq!(a.screen.status, "cleared unsupported reasoning high: a/one");
}

#[test]
fn stopping_a_response_keeps_what_came_in() {
    let mut a = app_with_key();
    a.catalog.current = Some("a/one".into());
    a.send_message("hi".to_string(), new_chat("s1"), true);
    let id = a.start_stream(stream_inputs()).unwrap().task_id.unwrap();
    let secs = FloatBits { bits: 0 };
    a.on_chat_event(id, StreamEvent::Token("par".into()), stored(), secs, "now");
    assert!(a.toggle_incognito().is_none());
    let effects = a.stop_stream(stored(), secs, "now");
    assert!(matches!(&effects[0], Effect::AbortChatTask { task_id } if *task_id == id));
    assert_eq!(a.talk.messages.last().unwrap().content, "par");
    assert_eq!(a.screen.status, "response stopped");
    let (next, _) = a.send_message("more".to_string(), new_chat("s1"), true);
    assert!(next == SendNext::Stream);
    a.start_stream(stream_inputs()).unwrap();
    let (next, _) = a.send_message("too soon".to_string(), new_chat("s1"), true);
    assert!(next == SendNext::Refused);
    assert_eq!(a.screen.status, "wait — response still streaming in: created");
}

#[test]
fn forced_skill_with_trailing_text_sends_immediately() {
    let mut a = app_with_key();
    a.catalog.current = Some("a/one".into());
    a.skills.list.push(Skill {
        name: "web-search".into(),
        description: "Search the web".into(),
        dir: "/skills/web-search".into(),
    });
    a.screen.input = "/web-search rust news".to_string();
    let cmd = match a.submit() {
        Submitted::Command(c) => c,
        _ => panic!("expected a command"),
    };
    let text = match a.run_command(&cmd, &commands()) {
        CommandStep::Send(t) => t,
        _ => panic!("expected a message"),
    };
    a.send_message(text, new_chat("s1"), true);
    let request = a.start_stream(stream_inputs()).unwrap();
    assert!(a.skills.forced.is_none());
    assert_eq!(a.talk.messages.last().unwrap().content, "rust news");
    assert!(a.is_streaming());
    assert_eq!(
        request.history[1].content,
        "The user invoked the skill 'web-search'. Follow these instructions:\nsearch instructions"
    );
}

#[test]
fn forced_skill_without_text_arms_for_next_message() {
    let mut a = app_with_key();
    a.skills.list.push(Skill {
        name: "web-search".into(),
        description: "Search the web".into(),
        dir: "/skills/web-search".into(),
    });
    a.screen.input = "/web-search".to_string();
    let cmd = match a.submit() {
        Submitted::Command(c) => c,
        _ => panic!("expected a command"),
    };
    assert!(matches!(a.run_command(&cmd, &commands()), CommandStep::Done));
    assert_eq!(a.skills.forced.as_deref(), Some("web-search"));
    assert!(a.screen.status.contains("armed"));
}

#[test]
fn commands_resolve_their_aliases() {
    let mut a = app_with_key();
    assert!(matches!(a.run_command("history", &commands()), CommandStep::SessionPicker));
    assert!(matches!(a.run_command("clear", &commands()), CommandStep::NewSession));
    assert!(matches!(a.run_command("nope", &commands()), CommandStep::Done));
    assert_eq!(a.screen.status, "unknown command: /nope");
    assert!(matches!(a.run_command("help", &commands()), CommandStep::Done));
    assert_eq!(a.screen.status, "/quit  /new  /session  /help  /edit");
    match a.run_command("edit deck/index.html", &commands()) {
        CommandStep::Edit(arg) => assert_eq!(arg, "deck/index.html"),
        _ => panic!("expected an edit"),
    }
    a.run_command("exit", &commands());
    assert!(a.screen.should_quit);
}

#[test]
fn app_files_are_named_by_plain_paths() {
    let mut a = app_with_key();
    a.request_app_file_edit("deck", true);
    assert!(a.screen.status.starts_with("usage: /edit"));
    for bad in ["/etc/passwd", "deck/../x", "deck//x", "./x", "deck/"] {
        a.request_app_file_edit(bad, true);
        assert_eq!(a.screen.status, format!("invalid path: {bad}"));
    }
    a.request_app_file_edit("deck/gone.html", false);
    assert_eq!(a.screen.status, "no such app file: deck/gone.html");
    assert!(a.screen.pending_editor.is_none());
    a.request_app_file_edit("deck/index.html", true);
    assert!(a.screen.pending_editor.is_some());
}

#[test]
fn parse_memory_ops_reads_add_update_delete() {
    let ops = parse_memory_ops(
        r#"sure, here:
            [{"op":"add","text":"likes rust"}, {"op":"update","id":2,"text":"deadline moved"}, {"op":"delete","id":5}, {"bogus":true}]"#,
    );
    assert_eq!(ops.len(), 3);
    assert!(matches!(&ops[0], MemoryOp::Add(t) if t == "likes rust"));
    assert!(matches!(&ops[1], MemoryOp::Update(2, t) if t == "deadline moved"));
    assert!(matches!(&ops[2], MemoryOp::Delete(5)));
    assert!(parse_memory_ops("no json here").is_empty());
}

#[test]
fn memory_ops_apply_and_renumber() {
    let mut a = app_with_key();
    let ops = vec![
        MemoryOp::Delete(1),
        MemoryOp::Update(2, "updated fact".into()),
        MemoryOp::Add("new fact".into()),
    ];
    let effects = a.on_memory_result(
        Some((DEFAULT_SPACE.to_string(), ops)),
        "1. likes rust\n2. old fact\n",
    );
    match &effects[0] {
        Effect::WriteMemory { text } => assert_eq!(text, "1. updated fact\n2. new fact\n"),
        _ => panic!("expected the memory"),
    }
}

#[test]
fn memory_ops_dropped_if_space_switched_meanwhile() {
    let mut a = app_with_key();
    let effects = a.on_memory_result(
        Some(("some-other-space".into(), vec![MemoryOp::Delete(1)])),
        "1. keep me\n",
    );
    assert!(effects.is_empty());
}

#[test]
fn follow_up_jobs_ask_about_the_last_exchange() {
    let mut a = app_with_key();
    a.catalog.current = Some("a/one".into());
    a.talk.session = Some(session("s1", "t"));
    a.talk.messages =
        vec![row("user", "hi"), row("tool_call", "{}"), row("user", "again"), row("assistant", "ho")];
    let title = a.maybe_generate_title(4).unwrap();
    assert_eq!(title.about, "s1");
    assert!(title.prompt.ends_with("user: hi\nuser: again\nassistant: ho"));
    assert!(a.jobs.title);
    let memory = a.maybe_extract_memory(4, "1. fact\n").unwrap();
    assert_eq!(memory.about, DEFAULT_SPACE);
    assert!(memory.prompt.starts_with("Stored facts (numbered, may be empty):\n1. fact\n\n\nLatest exchange:\nuser: again\nassistant: ho"));
    a.on_title_result(Some(("s1".to_string(), "Topic".to_string(), "slug".to_string())));
    assert!(!a.jobs.title);
    assert_eq!(a.talk.session.as_ref().unwrap().title, "Topic");
    assert!(a.maybe_generate_title(4).is_none());
}

#[test]
fn resolve_routes_prefixed_models_to_their_backend_even_with_openrouter_configured() {
    let mut backends = Backends::default();
    backends.set(BackendTag::OpenRouter, backend(BackendTag::OpenRouter, "or"));
    backends.set(BackendTag::OpenAi, backend(BackendTag::OpenAi, "oa"));
    backends.set(BackendTag::OpencodeGo, backend(BackendTag::OpencodeGo, "go"));
    backends.set(BackendTag::Codex, backend(BackendTag::Codex, "codex"));

    let (provider, raw) = backends.resolve("openai:gpt-4.1-mini").unwrap();
    assert_eq!(provider.backend_tag(), BackendTag::OpenAi);
    assert_eq!(raw, "gpt-4.1-mini");

    let (provider, raw) = backends.resolve("opencode:deepseek-v4-flash").unwrap();
    assert_eq!(provider.backend_tag(), BackendTag::OpencodeGo);
    assert_eq!(raw, "deepseek-v4-flash");

    let (provider, raw) = backends.resolve("codex:gpt-5.4-mini").unwrap();
    assert_eq!(provider.backend_tag(), BackendTag::Codex);
    assert_eq!(raw, "gpt-5.4-mini");
}

#[test]
fn resolve_keeps_bare_ids_on_openrouter_for_legacy_settings() {
    let mut backends = Backends::default();
    backends.set(BackendTag::OpenRouter, backend(BackendTag::OpenRouter, "or"));
    backends.set(BackendTag::OpenAi, backend(BackendTag::OpenAi, "oa"));

    let (provider, raw) = backends.resolve("google/gemini-2.5-flash-lite").unwrap();
    assert_eq!(provider.backend_tag(), BackendTag::OpenRouter);
    assert_eq!(raw, "google/gemini-2.5-flash-lite");
}

#[test]
fn composite_ids_route_back() {
    let mut backends = Backends::default();
    backends.set(BackendTag::Codex, backend(BackendTag::Codex, "c"));
    let mut m = model("gpt", "G");
    m.backend = BackendTag::Codex;
    assert_eq!(composite_id(&m), "codex:gpt");
    let (p, raw) = backends.resolve(&composite_id(&m)).unwrap();
    assert_eq!(p.backend_tag(), BackendTag::Codex);
    assert_eq!(raw, "gpt");
}

#[test]
fn backends_are_rebuilt_from_the_stored_keys() {
    let defaults = |u: &str| DefaultModels { utility: u.to_string(), research: format!("{u}-r") };
    let mut a = app(Some("gone"));
    a.saved.openai_key = Some("oa".to_string());
    a.rebuild_all_backends(&AllDefaults {
        openrouter: defaults("or"),
        openai: defaults("oai"),
        opencode: defaults("oc"),
        codex: defaults("cx"),
    });
    assert_eq!(a.backends.configured_tags(), vec![BackendTag::OpenAi]);
    let (p, raw) = a.resolve_utility_model_backend("").unwrap();
    assert_eq!(p.key, "oa");
    assert_eq!(raw, "oai");
}

#[test]
fn models_result_opens_the_picker_on_first_login() {
    let mut a = app(Some("k"));
    a.on_models_result(Some(Ok(vec![model("a/one", "One")])));
    assert_eq!(a.screen.status, "loaded 1 models");
    assert!(a.screen.popup == Popup::Model);
    let mut b = app(Some("k"));
    b.catalog.current = Some("a/one".into());
    b.on_models_result(Some(Err("offline".to_string())));
    assert_eq!(b.screen.status, "model fetch failed: offline");
    b.on_models_result(None);
    assert_eq!(b.screen.status, "model fetch failed: model fetch cancelled");
    assert!(b.screen.popup == Popup::Closed);
}

/// The spaces that are stored.
struct Spaces {
    rows: Vec<Space>,
}

impl Spaces {
    fn of(a: &App) -> Spaces {
        Spaces { rows: vec![a.active_space.clone()] }
    }

    fn create(&mut self, name: &str) -> Space {
        let s = space(&format!("space-{}", self.rows.len()), name);
        self.rows.push(s.clone());
        s
    }
}

fn confirm_create(a: &mut App, db: &mut Spaces) {
    let created = a.spaces.space_to_create().map(|name| db.create(&name));
    a.spaces.confirm_space_create(created);
}

#[test]
fn space_crud_via_app_methods() {
    let mut a = app_with_key();
    let mut db = Spaces::of(&a);
    a.spaces.cache = db.rows.clone();
    a.spaces.edit = "work".into();
    confirm_create(&mut a, &mut db);
    assert!(a.spaces.cache.iter().any(|s| s.name == "work"));

    a.spaces.selected = a.spaces.cache.iter().position(|s| s.name == "work").unwrap();
    a.spaces.edit = "work-2".into();
    a.confirm_space_rename(&vec![], true);
    assert!(a.spaces.cache.iter().any(|s| s.name == "work-2"));

    let list = db.rows.clone();
    assert!(a.confirm_space_delete(&vec![], true, &list, "space-0").is_ok());
    assert!(!a.spaces.cache.iter().any(|s| s.name == "work-2"));
    assert_eq!(a.active_space.name, DEFAULT_SPACE);
}

#[test]
fn switching_space_clears_open_conversation() {
    let mut a = app_with_key();
    a.catalog.current = Some("a/one".into());
    a.send_message("hello".to_string(), new_chat("s1"), true);
    assert!(a.talk.session.is_some());

    let other = space("space-1", "other");
    a.spaces.cache = vec![other.clone()];
    a.spaces.selected = 0;
    a.confirm_space(&vec![]);

    assert_eq!(a.active_space.id, other.id);
    assert!(a.talk.session.is_none());
    assert!(a.talk.messages.is_empty());
}

#[test]
fn open_space_picker_selects_the_active_space() {
    let mut a = app(Some("k"));
    let mut db = Spaces::of(&a);
    let extra = db.create("other");
    let active = a.active_space.id.clone();
    a.open_space_picker(db.rows.clone());
    assert_eq!(a.screen.popup, Popup::Space);
    assert!(matches!(a.spaces.mode, SpaceMode::Browse));
    assert_eq!(a.spaces.cache.len(), 2);
    assert_eq!(a.spaces.selected_space(&vec![]).unwrap().id, active);
    assert_ne!(extra.id, active);
}

#[test]
fn filtered_spaces_matches_by_fuzzy_name_and_keeps_db_order() {
    let mut a = app(Some("k"));
    let mut db = Spaces::of(&a);
    db.create("docs");
    db.create("notes");
    a.open_space_picker(db.rows.clone());

    let scores = vec![];
    let all = a.spaces.filtered_spaces(&scores);
    assert_eq!(all.len(), 3);
    assert_eq!(all[0].name, DEFAULT_SPACE);

    a.spaces.space_filter_push('n');
    let scores = space_scores(&a);
    let hits = a.spaces.filtered_spaces(&scores);
    assert!(hits.iter().all(|s| s.name.contains('n')));
    assert_eq!(hits.len(), 1);
    assert_eq!(a.spaces.selected, 0);
}

#[test]
fn move_space_selection_clamps_at_both_ends() {
    let mut a = app(Some("k"));
    let mut db = Spaces::of(&a);
    db.create("docs");
    a.open_space_picker(db.rows.clone());
    a.spaces.move_space_selection(&vec![], 100);
    assert_eq!(a.spaces.selected, a.spaces.cache.len() - 1);
    a.spaces.move_space_selection(&vec![], -100);
    assert_eq!(a.spaces.selected, 0);
}

#[test]
fn rename_is_refused_for_the_default_space() {
    let mut a = app(Some("k"));
    let db = Spaces::of(&a);
    a.open_space_picker(db.rows.clone());
    a.spaces.start_space_rename(&vec![]);
    assert!(matches!(a.spaces.mode, SpaceMode::Browse));
}

#[test]
fn create_skips_empty_and_duplicate_names() {
    let mut a = app(Some("k"));
    let mut db = Spaces::of(&a);
    db.create("docs");
    a.open_space_picker(db.rows.clone());

    a.spaces.edit = "docs".into();
    confirm_create(&mut a, &mut db);
    assert_eq!(a.spaces.cache.len(), 2);

    a.spaces.edit = "  ".into();
    confirm_create(&mut a, &mut db);
    assert_eq!(a.spaces.cache.len(), 2);

    a.spaces.edit = "new-space".into();
    confirm_create(&mut a, &mut db);
    assert_eq!(a.spaces.cache.len(), 3);
    assert!(matches!(a.spaces.mode, SpaceMode::Browse));
    assert!(a
        .spaces
        .cache
        .iter()
        .any(|s| s.name == "new-space" && s.id == a.spaces.selected_space(&vec![]).unwrap().id));
}

#[test]
fn rename_updates_row_and_active_space_in_place() {
    let mut a = app(Some("k"));
    let mut db = Spaces::of(&a);
    let s = db.create("old-name");
    a.open_space_picker(db.rows.clone());
    a.spaces.selected = a.spaces.cache.iter().position(|c| c.id == s.id).unwrap();
    a.spaces.start_space_rename(&vec![]);
    assert!(matches!(a.spaces.mode, SpaceMode::Rename));
    a.spaces.edit = "new-name".into();
    a.confirm_space_rename(&vec![], true);
    assert!(matches!(a.spaces.mode, SpaceMode::Browse));
    assert!(a.spaces.cache.iter().any(|c| c.name == "new-name"));
    assert!(!a.spaces.cache.iter().any(|c| c.name == "old-name"));
}

#[test]
fn deleting_the_active_space_switches_to_default() {
    let mut a = app(Some("k"));
    let mut db = Spaces::of(&a);
    let extra = db.create("doomed");
    a.open_space_picker(db.rows.clone());
    a.spaces.selected = a.spaces.cache.iter().position(|c| c.id == extra.id).unwrap();
    a.confirm_space(&vec![]);
    assert_eq!(a.active_space.id, extra.id);

    a.open_space_picker(db.rows.clone());
    a.spaces.selected = a.spaces.cache.iter().position(|c| c.id == extra.id).unwrap();
    db.rows.retain(|s| s.id != extra.id);
    assert!(a.confirm_space_delete(&vec![], true, &db.rows, "space-0").is_ok());
    assert_ne!(a.active_space.id, extra.id);
    assert_eq!(a.active_space.name, DEFAULT_SPACE);
    assert!(!a.spaces.cache.iter().any(|c| c.id == extra.id));
}

#[test]
fn delete_refuses_the_default_space() {
    let mut a = app(Some("k"));
    let mut db = Spaces::of(&a);
    let extra = db.create("keep-me");
    a.open_space_picker(db.rows.clone());
    a.spaces.selected = a.spaces.cache.iter().position(|c| c.id == extra.id).unwrap();
    db.rows.retain(|s| s.id != extra.id);
    assert!(a.confirm_space_delete(&vec![], true, &db.rows, "space-0").is_ok());
    assert_eq!(a.spaces.cache.len(), 1);

    a.spaces.selected = a.spaces.cache.iter().position(|c| c.name == DEFAULT_SPACE).unwrap();
    assert!(a.confirm_space_delete(&vec![], true, &db.rows, "space-0").is_ok());
    assert_eq!(a.spaces.cache.len(), 1);
    assert!(a.spaces.cache.iter().any(|c| c.name == DEFAULT_SPACE));
}

#[test]
fn missing_default_space_is_an_error_not_a_panic() {
    let mut a = app(Some("k"));
    assert!(a.switch_to_default_space(&vec![], "space-0").is_err());
}

#[test]
fn copy_message_uses_exact_original_content() {
    let mut a = app_with_key();
    a.talk.messages.push(row("user", "raw *user* text"));
    a.talk.messages.push(row("assistant", "**bold** reply"));

    assert_eq!(copy_message(&a.talk, None, 0, "unused").as_deref(), Some("raw *user* text"));
    assert_eq!(copy_message(&a.talk, None, 1, "bold reply").as_deref(), Some("bold reply"));
    assert_eq!(
        copy_message(&a.talk, Some("live tokens"), 2, "").as_deref(),
        Some("live tokens")
    );
    assert_eq!(copy_message(&a.talk, None, 2, ""), None);

    a.screen.status = "sentinel".into();
    copy_text(&mut a.screen, "raw *user* text", true);
    assert_ne!(a.screen.status, "sentinel");
    a.screen.status = "sentinel".into();
    copy_text(&mut a.screen, "bold reply", false);
    assert_eq!(a.screen.status, "clipboard unavailable");
    a.screen.status = "sentinel".into();
    copy_text(&mut a.screen, "", true);
    assert_eq!(a.screen.status, "sentinel");
}

#[test]
fn copy_menu_lists_the_reply_and_its_code() {
    let mut a = app_with_key();
    a.copy.open_copy_menu(&a.talk, &mut a.screen, "");
    assert_eq!(a.screen.status, "no response to copy");
    a.talk.messages.push(row("assistant", "see\n```rust\nlet x = 1;\n```\nand\n```\nls\n```"));
    a.talk.messages.push(row("error", "late"));
    a.copy.open_copy_menu(&a.talk, &mut a.screen, "see and");
    assert!(a.screen.popup == Popup::Copy);
    let labels: Vec<&str> = a.copy.options.iter().map(|o| o.label.as_str()).collect();
    assert_eq!(labels, vec!["Entire response", "Code block 1 (rust)", "Code block 2"]);
    a.copy.move_copy_selection(9);
    assert_eq!(a.copy.confirm_copy(&mut a.screen).as_deref(), Some("ls\n"));
    assert!(a.screen.popup == Popup::Closed);
}

#[test]
fn sizes_read_as_a_float_would_round_them() {
    for n in [
        0u64, 1, 1023, 1024, 1025, 1075, 1126, 1127, 1535, 1536, 2047, 10_240, 102_399, 1_048_575,
        1_048_576, 1_100_000, 1_572_864, 5_000_000_000, 123_456_789_012,
    ] {
        let expected = if n < 1024 {
            format!("{n} B")
        } else if n < 1024 * 1024 {
            format!("{:.1} KB", n as f64 / 1024.0)
        } else {
            format!("{:.1} MB", n as f64 / (1024.0 * 1024.0))
        };
        assert_eq!(human_size(n), expected, "{n}");
    }
}

#[test]
fn prompt_sections_list_what_there_is() {
    assert!(skills_section(&vec![]).is_none());
    let skills = vec![Skill {
        name: "pdf".into(),
        description: "reads pdfs".into(),
        dir: "d".into(),
    }];
    assert!(skills_section(&skills).unwrap().ends_with("- pdf: reads pdfs"));
    let scripts = vec![ScriptRow { name: "run.py".into(), size: 2048 }];
    assert!(scripts_section(&scripts).unwrap().ends_with("- run.py (2.0 KB)"));
    let files = vec![FileRow {
        id: "f".into(),
        name: "Report.PDF".into(),
        hash: "h".into(),
        size: 10,
        status: "ok".into(),
        mtime: 0,
    }];
    assert!(files_section(&files).unwrap().ends_with("- Report.PDF (pdf, 10 B, ok)"));
}

#[test]
fn prompt_layers_come_in_order_and_incognito_knows_no_space() {
    let mut a = app_with_key();
    a.web_mode = true;
    a.app_server = true;
    let mut i = prompt_inputs();
    i.instructions = Some("  be kind \n".to_string());
    i.memory = "1. likes rust\n".to_string();
    i.apps = vec![("deck".to_string(), Some("u-1".to_string())), ("old".to_string(), None)];
    i.research = true;
    let p = prompt_of(&a, &i);
    let at = |s: &str| p.find(s).unwrap_or_else(|| panic!("{s} is missing"));
    assert!(at("\n\nbe kind\n\n") < at("## Apps"));
    assert!(at("- deck (uuid u-1)\n- old") < at("## Memory\n1. likes rust\n"));
    assert!(at("## Memory") < at("Web answer mode is ON"));
    assert!(at("Today's date is 2026-01-01") < at("This session came from /research"));
    a.incognito = true;
    let q = prompt_of(&a, &i);
    assert!(!q.contains("be kind") && !q.contains("## Apps") && !q.contains("likes rust"));
    assert!(q.contains("This session came from /research"));
}

#[test]
fn space_images_are_shown_as_data_urls() {
    assert!(space_images_message(&vec![]).is_none());
    let m = space_images_message(&vec![
        SpaceImage { name: "a.jpg".into(), bytes: Some(vec![1, 2, 3]) },
        SpaceImage { name: "b.png".into(), bytes: None },
        SpaceImage { name: "c.webp".into(), bytes: Some(b"hello".to_vec()) },
    ])
    .unwrap();
    assert_eq!(
        m.images,
        vec!["data:image/jpeg;base64,AQID".to_string(), "data:image/webp;base64,aGVsbG8=".to_string()]
    );
    assert!(m.content.ends_with("a.jpg, b.png, c.webp"));
}

#[test]
fn extensions_follow_the_last_dot() {
    for name in ["a.txt", "a.tar.gz", ".bashrc", "..", "noext", "a.", ".a.b", "x.JPG", ""] {
        let expected = std::path::Path::new(name).extension().and_then(|e| e.to_str());
        assert_eq!(extension_of(name), expected, "{name}");
    }
}

#[test]
fn titles_slugs_and_phrases() {
    assert_eq!(title_from("  "), "new chat");
    assert_eq!(title_from(&"x".repeat(50)), "x".repeat(40));
    assert_eq!(slugify("Hello, World of Rust Async Runtimes"), "hello-world-of-rust-async");
    assert_eq!(pick_flavor(17).0, 1);
    assert_eq!(thinking_now(0), "Thinking");
    assert_eq!(thinking_then(0), "Thought");
    assert_eq!(spinner_glyph(0), spinner_glyph(10));
    assert_eq!(pick_greeting(1), pick_greeting(9));
    assert!(web_mode_clause("2026-01-01").contains("2026-01-01"));
    assert_eq!(SettingsField::at(9).label(), SettingsField::Verbosity.label());
}

#[test]
fn web_mode_is_carried_onto_the_session_it_creates() {
    let mut a = app_with_key();
    a.catalog.current = Some("a/one".into());
    assert!(a.toggle_web_mode().is_empty());
    assert_eq!(a.screen.status, "🌐 web mode on");
    let (_, effects) = a.send_message("hi".to_string(), new_chat("s1"), true);
    assert!(a.talk.session.as_ref().unwrap().web_mode);
    assert!(matches!(&effects[0], Effect::SetWebMode { on: true, .. }));
    let effects = a.toggle_web_mode();
    assert!(matches!(&effects[0], Effect::SetWebMode { on: false, .. }));
    assert!(!a.talk.session.as_ref().unwrap().web_mode);
}

#[test]
fn session_picker_renames_in_place() {
    let mut a = app(Some("k"));
    a.open_session_picker(vec![session("s1", "one"), session("s2", "two")]);
    assert!(a.screen.popup == Popup::Session);
    a.sessions.move_session_selection(&vec![], 1);
    a.sessions.start_rename(&vec![]);
    assert!(matches!(a.sessions.mode, SessionMode::Rename));
    assert_eq!(a.sessions.edit, "two");
    a.sessions.edit = "renamed".to_string();
    a.confirm_rename(&vec![], true);
    assert_eq!(a.sessions.cache[1].title, "renamed");
}

#[test]
fn logging_in_with_a_key() {
    let mut a = app(None);
    a.open_login_popup();
    assert!(a.screen.popup == Popup::Login);
    a.move_login_selection(2);
    a.confirm_login_selection(&None, "u".to_string(), "r".to_string());
    assert!(a.screen.popup == Popup::Key);
    assert_eq!(a.key_target_label(), "OpenAI");
    assert_eq!(a.screen.status, "paste your OpenAI API key, then Enter");
    a.login.key_input = "  sk-test \n".to_string();
    let effects = a.confirm_key("u".to_string(), "r".to_string());
    assert!(matches!(
        &effects[0],
        Effect::SaveKey { backend, key } if backend == "openai" && key == "sk-test"
    ));
    assert_eq!(a.saved.openai_key.as_deref(), Some("sk-test"));
    assert!(a.resolve_model_backend("openai:gpt").is_some());
    a.login.key_input = "  ".to_string();
    a.confirm_key("u".to_string(), "r".to_string());
    assert_eq!(a.screen.status, "no key entered");

    a.login.selected = 0;
    let env = Some(" sk-env ".to_string());
    a.confirm_login_selection(&env, "u".to_string(), "r".to_string());
    assert_eq!(a.saved.openrouter_key.as_deref(), Some("sk-env"));
    assert_eq!(a.screen.status, "key saved, loading models…");
    a.open_key_prompt();
    assert_eq!(a.screen.status, "paste your OpenRouter key, then Enter");
}

#[test]
fn the_device_login_ends_with_a_backend_or_an_error() {
    let mut a = app(None);
    a.login.selected = 3;
    a.confirm_login_selection(&None, "u".to_string(), "r".to_string());
    assert!(a.jobs.login);
    let step = |a: &mut App, m: Option<LoginMsg>| {
        a.on_login_result(m, "u".to_string(), "r".to_string())
    };
    step(&mut a, Some(LoginMsg::Status("open the page".to_string())));
    assert_eq!(a.screen.status, "open the page");
    step(&mut a, Some(LoginMsg::Done(Err("denied".to_string()))));
    assert_eq!(a.screen.status, "OpenAI Codex login failed: denied");
    assert!(!a.jobs.login);
    let effects = step(&mut a, Some(LoginMsg::Done(Ok("token".to_string()))));
    assert!(matches!(&effects[0], Effect::FetchModels));
    assert!(a.backends.get(BackendTag::Codex).is_some());
    assert!(step(&mut a, None).is_empty());
}

#[test]
fn the_model_picker_moves_and_filters() {
    let mut a = app_with_key();
    a.backends.set(BackendTag::OpenAi, backend(BackendTag::OpenAi, "oa"));
    let mut gpt = model("gpt", "GPT");
    gpt.backend = BackendTag::OpenAi;
    a.catalog.models.push(gpt);
    a.open_model_picker();
    assert!(a.catalog.focus == ModelPanel::Available);
    a.catalog.move_model_selection(1);
    assert_eq!(a.catalog.avail_state, Some(1));
    a.confirm_model("now".to_string(), true);
    assert_eq!(a.catalog.current.as_deref(), Some("b/two"));
    a.cycle_model_backend_filter();
    assert_eq!(a.catalog.backend_filter, Some(BackendTag::OpenRouter));
    assert_eq!(a.catalog.available_models().len(), 2);
    a.cycle_model_backend_filter();
    assert_eq!(a.catalog.available_models().len(), 1);
    a.cycle_model_backend_filter();
    assert_eq!(a.catalog.backend_filter, None);
    a.catalog.toggle_model_focus();
    assert!(a.catalog.focus == ModelPanel::Favorites);
    a.catalog.reset_model_selection();
    assert_eq!(a.catalog.fav_state, None);
}

#[test]
fn models_for_features_are_cleared() {
    let mut a = app_with_key();
    a.clear_transcriber_model(true);
    assert_eq!(a.screen.status, "image model cleared — image descriptions disabled");
    a.clear_ocr_model(true);
    assert_eq!(a.screen.status, "OCR model cleared — scanned PDFs use tesseract");
    a.clear_research_model(true);
    assert_eq!(a.screen.status, "research model cleared — /research disabled");
    a.clear_escalation_model(true);
    assert_eq!(a.screen.status, "escalation model cleared — falls back to research model");
    a.clear_image_gen_model(true);
    assert_eq!(a.screen.status, "image gen model cleared — generation disabled");
    a.clear_video_gen_model(false);
    assert_eq!(a.screen.status, "image gen model cleared — generation disabled");
    assert!(a.config.transcriber_model.is_empty());
}

#[test]
fn sessions_are_opened_and_left() {
    let mut a = app_with_key();
    a.open_session_picker(vec![]);
    assert_eq!(a.screen.status, "no sessions yet — send a message to start one");
    a.open_session_picker(vec![session("s1", "one"), session("s2", "two")]);
    a.sessions.session_filter_push('t');
    assert_eq!(a.sessions.filter, "t");
    a.sessions.session_filter_pop();
    a.sessions.selected = 1;
    a.confirm_session(&vec![], Some(vec![row("user", "hi")]));
    assert_eq!(a.talk.session.as_ref().unwrap().id, "s2");
    assert_eq!(a.talk.messages.len(), 1);
    assert!(!a.is_welcome());
    let effects = a.new_session();
    assert!(matches!(&effects[0], Effect::DropImages));
    assert!(a.talk.session.is_none());
    assert!(a.is_welcome());
    assert_eq!(a.screen.status, "new chat — send a message to start it");
}

#[test]
fn settings_rows_fold_by_group() {
    let groups = vec![
        vec![SettingsField::ShowStats, SettingsField::HideHints],
        vec![SettingsField::Temperature],
    ];
    let none = HashSet::new();
    let rows = settings_rows(&groups, &none);
    assert_eq!(rows.len(), 5);
    assert!(rows[0] == SettingsRow::Group(0));
    assert!(rows[4] == SettingsRow::Field(SettingsField::Temperature));
    let folded = HashSet::from([0usize]);
    let rows = settings_rows(&groups, &folded);
    assert_eq!(rows.len(), 3);
    assert!(rows[1] == SettingsRow::Group(1));
    assert!(settings_row(&groups, &folded, 2) == SettingsRow::Field(SettingsField::Temperature));
}

#[test]
fn settings_are_opened_typed_and_toggled() {
    let mut a = app_with_key();
    a.config.settings.max_tokens = Some(77);
    a.settings_popup.open_settings(
        &a.config,
        &mut a.screen,
        "0.5".to_string(),
        String::new(),
        "x.com".to_string(),
    );
    assert!(a.screen.popup == Popup::Settings);
    assert_eq!(a.settings_popup.inputs[2], "77");
    assert_eq!(a.settings_popup.inputs[3], "60");
    a.settings_popup.move_settings_selection(3);
    assert_eq!(a.settings_popup.text_index(), Some(0));
    a.settings_popup.settings_input_backspace();
    assert_eq!(a.settings_popup.inputs[0], "0.");
    toggle_reasoning_view(&mut a.config, &mut a.screen, true);
    assert_eq!(a.screen.status, "reasoning expanded");
    a.config.ocr_engine = "auto".to_string();
    let mut seen = Vec::new();
    for _ in 0..4 {
        cycle_ocr_engine(&mut a.config, &mut a.jobs, &mut a.screen);
        seen.push(a.config.ocr_engine.clone());
    }
    assert!(seen.contains(&"tesseract".to_string()));
    assert!(a.jobs.ocr_pull);
    assert_eq!(a.config.local_ocr_model, "glm-ocr");
    ocr_local_install(&mut a.config, &mut a.jobs, &mut a.screen, "other");
    assert_eq!(a.screen.status, "an /ocr-local pull is already running");
}

#[test]
fn the_spinner_turns_and_tasks_are_discarded() {
    let mut a = app_with_key();
    a.catalog.current = Some("a/one".into());
    a.send_message("hi".to_string(), new_chat("s1"), true);
    let id = a.start_stream(stream_inputs()).unwrap().task_id.unwrap();
    assert_eq!(a.thinking_phrase(), thinking_now(5));
    let glyph = a.spinner_char();
    a.tick_spinner();
    assert_ne!(a.spinner_char(), glyph);
    a.on_chat_event(
        id,
        StreamEvent::Reasoning("hm".into()),
        stored(),
        FloatBits { bits: 0 },
        "now",
    );
    assert_eq!(a.thinking_text(), Some("hm"));
    assert_eq!(a.chats.chat_task_count(), 1);
    let effects = a.chats.discard_chat_task("s1");
    assert!(matches!(&effects[0], Effect::AbortChatTask { .. }));
    assert_eq!(a.chats.chat_task_count(), 0);
    assert!(a.chats.discard_chat_task("s1").is_empty());
}

#[test]
fn the_client_begins_with_what_there_is() {
    let mut a = app(None);
    assert_eq!(a.screen.status, "no API key — set it with /key (or $OPENROUTER_API_KEY)");
    assert_eq!(a.init().len(), 1);
    let mut b = app(Some("k"));
    assert_eq!(b.init().len(), 2);
    assert!(b.jobs.models);
    b.reload_base_system_prompt(None);
    assert_eq!(b.config.base_system_prompt, BASE_PROMPT);
    b.reload_base_system_prompt(Some("new".to_string()));
    assert_eq!(b.config.base_system_prompt, "new");
    assert_eq!(b.screen.status, "system prompt reloaded");
}

#[test]
fn lists_are_ranked_and_excerpts_quoted() {
    let items = vec!["a", "b", "c", "d"];
    let ranked = fuzzy_filter_sorted(&items, &vec![Some(1), None, Some(5), Some(1)]);
    assert_eq!(ranked, vec![&"c", &"a", &"d"]);
    let hits = vec![("f.md".to_string(), "lines 1-2".to_string(), "text".to_string())];
    let lines = known_excerpts(&hits);
    assert!(lines[0].contains("f.md") && lines[0].contains("text"));
    let mut s = app(Some("k"));
    s.spaces.start_space_create();
    assert!(matches!(s.spaces.mode, SpaceMode::Create));
    s.spaces.space_filter_push('x');
    s.spaces.space_filter_pop();
    assert!(s.spaces.filter.is_empty());
}

#[test]
fn the_whole_state_answers_for_its_parts() {
    let mut a = app_with_key();
    a.open_space_picker(vec![space("space-0", DEFAULT_SPACE), space("space-1", "docs")]);
    a.move_space_selection(&vec![], 1);
    assert_eq!(a.selected_space(&vec![]).unwrap().name, "docs");
    assert_eq!(a.filtered_spaces(&vec![]).len(), 2);
    a.open_skills_popup();
    assert!(a.screen.popup == Popup::Skills);
    a.open_model_picker_for_memory();
    assert!(a.catalog.target == ModelPickTarget::Memory);
    assert_eq!(a.available_models().len(), 2);
    a.copy_text("abc", true);
    assert_eq!(a.screen.status, "copied 3 chars");
    a.talk.messages.push(row("user", "x"));
    assert_eq!(a.copy_message(0, "").as_deref(), Some("x"));
    a.settings_popup.selected = 9;
    a.toggle_settings_field();
    assert_eq!(a.config.verbosity, "caveman");
    let effects = a.rescan_files(&vec![], &vec![]);
    assert_eq!(effects.len(), 2);
    a.start_files_add();
    a.files.edit = "nowhere".to_string();
    assert!(a.confirm_files_add(false).is_none());
    assert_eq!(a.screen.status, "not a file: nowhere");
}

#[test]
fn prose_with_brackets_around_a_reply_is_skipped() {
    let ops = parse_memory_ops(r#"[{"op":"delete","id":1}] (ids as in [the list])"#);
    assert_eq!(ops.len(), 1);
    assert!(matches!(&ops[0], MemoryOp::Delete(1)));
    let ops = parse_memory_ops(r#"ok [{"op":"add","text":"a ] \" b"}] done]"#);
    assert!(matches!(&ops[0], MemoryOp::Add(t) if t == "a ] \" b"));
    let (topic, slug) =
        parse_topic(r#"Sure: {"topic":"A {b}","id":"a b"} — {as asked}"#).unwrap();
    assert_eq!((topic.as_str(), slug.as_str()), ("A {b}", "a-b"));
    assert!(parse_topic("{ never closed").is_none());
}

#[test]
fn a_slug_is_its_own_slug() {
    for s in ["Hello, World", "--a--B--", "ÀÉ", "", "one two three four five six", "İstanbul 9"] {
        let slug = slugify(s);
        assert!(!slug.is_empty());
        assert!(slug.split('-').all(|w| !w.is_empty()));
        assert!(slug.split('-').count() <= 5);
        assert_eq!(slugify(&slug), slug);
    }
    assert_eq!(slugify("--a--B--"), "a-b");
    assert_eq!(slugify("ÀÉ"), "chat");
}

#[test]
fn what_a_response_ends_with_is_stored_where_due() {
    let mut a = app_with_key();
    a.catalog.current = Some("a/one".to_string());
    a.talk.session = Some(session("s", "t"));
    let inputs = || StreamInputs {
        prompt: String::new(),
        images: None,
        body: String::new(),
        known: Vec::new(),
        accepted: true,
        cleared: false,
        seed: 0,
    };
    assert!(a.start_stream(inputs()).is_some());
    let secs = FloatBits { bits: 0 };
    let failed = Some("boom".to_string());
    assert!(answer_to_store(&a.chats.tasks[0], secs, "now").is_none());
    assert!(error_is_stored(&a.chats.tasks[0], &failed, false));
    a.chats.tasks[0].buffer = "<think>hm</think>answer".to_string();
    let row = answer_to_store(&a.chats.tasks[0], secs, "now").unwrap();
    assert_eq!(row.content, "answer");
    assert_eq!(row.reasoning.as_deref(), Some("hm"));
    assert!(!error_is_stored(&a.chats.tasks[0], &failed, false));
    assert!(error_is_stored(&a.chats.tasks[0], &failed, true));
    assert!(!error_is_stored(&a.chats.tasks[0], &None, true));
    a.chats.tasks[0].incognito = true;
    assert!(answer_to_store(&a.chats.tasks[0], secs, "now").is_none());
    assert!(!error_is_stored(&a.chats.tasks[0], &failed, true));
}

#[test]
fn a_message_is_stored_before_it_is_sent() {
    let mut a = app_with_key();
    assert!(matches!(a.message_to_store("hi"), MessageToStore::Nothing));
    a.catalog.current = Some("a/one".to_string());
    match a.message_to_store("hi") {
        MessageToStore::Session { title, model, text } => {
            assert_eq!((title.as_str(), model.as_str(), text.as_str()), ("hi", "a/one", "hi"))
        }
        _ => panic!("expected a new session"),
    }
    a.talk.session = Some(session("s", "t"));
    assert!(matches!(
        a.message_to_store("hi"),
        MessageToStore::Message { session_id, .. } if session_id == "s"
    ));
    a.incognito = true;
    assert!(matches!(a.message_to_store("hi"), MessageToStore::Nothing));
    a.incognito = false;
    a.chats.limit = 0;
    assert!(matches!(a.message_to_store("hi"), MessageToStore::Nothing));
}

#[test]
fn an_effort_that_is_not_accepted_is_cleared_first() {
    let mut a = app_with_key();
    assert!(a.effort_to_clear(false).is_none());
    a.catalog.current = Some("a/one".to_string());
    assert!(a.effort_to_clear(false).is_none());
    a.catalog.reasoning.insert("a/one".to_string(), "low".to_string());
    assert_eq!(a.effort_to_clear(false).as_deref(), Some("a/one"));
    assert!(a.effort_to_clear(true).is_none());
}

#[test]
fn writes_come_before_the_changes() {
    let mut a = app_with_key();
    a.sessions.cache = vec![session("s1", "one"), session("s2", "two")];
    a.sessions.selected = 1;
    assert_eq!(a.session_to_delete(&vec![]).as_deref(), Some("s2"));
    a.sessions.edit = "  new  ".to_string();
    match &a.session_rename(&vec![])[0] {
        Effect::SetSessionTitle { session_id, title, slug } => {
            assert_eq!((session_id.as_str(), title.as_str()), ("s2", "new"));
            assert!(slug.is_none());
        }
        _ => panic!("expected a title"),
    }
    a.sessions.edit = "  ".to_string();
    assert!(a.session_rename(&vec![]).is_empty());

    a.spaces.cache = vec![space("space-0", DEFAULT_SPACE), space("space-1", "work")];
    a.spaces.edit = "play".to_string();
    assert!(a.space_to_delete(&vec![]).is_none());
    a.spaces.selected = 1;
    assert_eq!(a.space_to_delete(&vec![]).unwrap().id, "space-1");
    let (s, name) = a.space_to_rename(&vec![]).unwrap();
    assert_eq!((s.name.as_str(), name.as_str()), ("work", "play"));

    match &cleared_model(ModelPickTarget::Ocr)[0] {
        Effect::SetSetting { key, value } => {
            assert_eq!((key.as_str(), value.as_str()), ("ocr_model", ""))
        }
        _ => panic!("expected a setting"),
    }

    assert!(a.swarm_mode_to_store().is_none());
    assert!(a.roster_after_removal().is_empty());
    a.talk.session = Some(session("s", "t"));
    assert_eq!(a.swarm_mode_to_store(), Some(("s".to_string(), true)));
    assert!(matches!(
        &a.roster_after_removal()[0],
        Effect::SaveRoster { personas, .. } if personas.is_empty()
    ));

    a.catalog.models[0].supports_reasoning = true;
    a.catalog.focus = ModelPanel::Available;
    a.catalog.reset_model_selection();
    match &a.next_effort_write()[0] {
        Effect::SetReasoning { model, effort } => {
            assert_eq!(model, "a/one");
            assert_eq!(effort.as_deref(), Some("low"));
        }
        _ => panic!("expected an effort"),
    }
    assert!(a.files.file_to_delete().is_none());
    assert!(a.images.image_to_delete().is_none());
}

#[test]
fn without_a_session_a_request_begins_no_response() {
    let mut a = app_with_key();
    a.catalog.current = Some("a/one".into());
    a.screen.status = "as before".to_string();
    let request = a.start_stream(stream_inputs()).unwrap();
    assert!(request.task_id.is_none());
    assert_eq!(request.model, "a/one");
    assert_eq!(request.history.len(), 1);
    assert!(a.chats.tasks.is_empty());
    assert_eq!(a.chats.next_id, 0);
    assert_eq!(a.screen.status, "as before");
}

#[test]
fn the_rest_of_a_command_is_cut_by_bytes() {
    let mut a = app_with_key();
    for name in ["web", "über"] {
        a.skills.list.push(Skill {
            name: name.to_string(),
            description: String::new(),
            dir: String::new(),
        });
    }
    let mut rest = |cmd: &str| match a.run_command(cmd, &commands()) {
        CommandStep::Edit(arg) => arg,
        CommandStep::Send(text) => text,
        _ => String::new(),
    };
    assert_eq!(rest("edit  deck/a.html "), "deck/a.html");
    assert_eq!(rest("über alles"), "alles");
    assert_eq!(rest("web"), "");
    assert_eq!(rest(" edit a/b"), "t a/b");
    assert_eq!(rest("  web now"), "eb now");
    assert_eq!(rest(" über alles"), "r alles");
    assert_eq!(rest("\u{3000}edit a/b"), "dit a/b");
    assert_eq!(a.skills.forced.as_deref(), Some("über"));
}

#[test]
fn grouped_settings_fold_and_move() {
    let mut a = app_with_key();
    let groups = vec![
        vec![SettingsField::ShowStats, SettingsField::HideHints],
        vec![SettingsField::Verbosity],
    ];
    let shown = &mut a.settings_popup.grouped;
    assert!(shown.settings_field(&groups).is_none());
    shown.move_settings_selection(&groups, -1);
    assert_eq!(shown.selected, 4);
    assert!(shown.settings_field(&groups) == Some(SettingsField::Verbosity));
    let before = a.config.verbosity.clone();
    shown.toggle_settings_field(&groups, &mut a.config);
    assert!(a.config.verbosity != before);
    shown.move_settings_selection(&groups, 6);
    assert_eq!(shown.selected, 0);
    shown.toggle_settings_field(&groups, &mut a.config);
    assert!(shown.collapsed.contains(&0));
    assert!(shown.settings_field(&groups).is_none());
    shown.move_settings_selection(&groups, 2);
    assert!(shown.settings_field(&groups) == Some(SettingsField::Verbosity));
    shown.move_settings_selection(&groups, 1);
    shown.toggle_settings_field(&groups, &mut a.config);
    assert!(shown.collapsed.is_empty());
    shown.move_settings_selection(&groups, 1);
    let stats = a.config.settings.show_stats;
    shown.toggle_settings_field(&groups, &mut a.config);
    assert_eq!(a.config.settings.show_stats, !stats);
    shown.move_settings_selection(&Vec::new(), 1);
    assert_eq!(shown.selected, 1);
    shown.selected = 9;
    assert!(shown.settings_field(&groups) == Some(SettingsField::Verbosity));
    a.settings_popup.open_settings(
        &a.config,
        &mut a.screen,
        String::new(),
        String::new(),
        String::new(),
    );
    assert_eq!(a.settings_popup.grouped.selected, 0);
}
