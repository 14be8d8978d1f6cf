//! Research jobs and swarm turns as the client runs them.

use nexus_chat::app::{App, Startup};
use nexus_chat::backends::{Backend, BackendTag, Backends};
use nexus_chat::effects::Effect;
use nexus_chat::history::build_history;
use nexus_chat::modes::{Citation, LinkStep};
use nexus_chat::pipeline::{ResearchAction, ResearchEvent, ResearchJob, ResearchUpdate};
use nexus_chat::research::PlanQuestion;
use nexus_chat::research_job::{ReplyEvent, ReplyStage, MAX_QUEUED_STEERS};
use nexus_chat::research_start::{ResearchStart, TopicStep};
use nexus_chat::research_updates::{artifact_of, prompt_to_store, ResearchMsg, UpdateOutcome};
use nexus_chat::roundtable::SwarmUpdate;
use nexus_chat::searcher::Searcher;
use nexus_chat::state::{SavedKeys, DEFAULT_SPACE};
use nexus_chat::store::{Message, Persona, Session, Space};
use nexus_chat::swarm_session::TurnInputs;
use nexus_chat::ui::{Popup, SwarmPopupMode};
use nexus_chat::writes::reply_to_store;

fn test_app() -> App {
    let mut backends = Backends::default();
    backends.set(
        BackendTag::OpenRouter,
        Backend {
            tag: BackendTag::OpenRouter,
            key: "k".to_string(),
            utility_model: "utility".to_string(),
            research_model: "research".to_string(),
        },
    );
    App::new(Startup {
        backends,
        saved: SavedKeys { openrouter_key: None, openai_key: None, opencode_key: None, codex: None },
        default_space: Some(Space {
            id: "space-0".to_string(),
            name: DEFAULT_SPACE.to_string(),
            created_at: "2026-01-01".to_string(),
        }),
        now: "2026-01-01".to_string(),
        skills: Vec::new(),
        base_system_prompt: "base".to_string(),
        banner: String::new(),
        seed: 0,
        home: "/".to_string(),
        max_chat_tasks: 4,
    })
}

fn session(id: &str, title: &str) -> Session {
    Session {
        id: id.to_string(),
        title: title.to_string(),
        model: "m".to_string(),
        slug: None,
        created_at: "2026-01-01".to_string(),
        compact_summary: None,
        compact_through: 0,
        web_mode: false,
        swarm_mode: false,
        kind: "research".to_string(),
        research_parent_id: None,
    }
}

/// The rows of sessions, as they are stored.
#[derive(Default)]
struct Store {
    rows: Vec<(String, String, String)>,
    files: Vec<(String, String)>,
    fail: bool,
}

impl Store {
    fn perform(&mut self, effects: &[Effect]) {
        for e in effects {
            match e {
                Effect::AddMessage { session_id, role, content } => {
                    self.rows.push((session_id.clone(), role.clone(), content.clone()));
                }
                Effect::UpsertStage { session_id, label, detail } => {
                    let text =
                        if detail.is_empty() { label.clone() } else { format!("{label}: {detail}") };
                    let prefix = format!("{label}:");
                    match self.rows.iter_mut().rev().find(|r| {
                        r.0 == *session_id
                            && r.1 == "research_stage"
                            && (r.2 == *label || r.2.starts_with(&prefix))
                    }) {
                        Some(r) => r.2 = text,
                        None => self.rows.push((session_id.clone(), "research_stage".into(), text)),
                    }
                }
                _ => {}
            }
        }
    }

    fn load(&self, id: &str) -> Vec<Message> {
        self.rows
            .iter()
            .filter(|r| r.0 == id)
            .map(|r| Message::plain(&r.1, r.2.clone()))
            .collect()
    }

    fn has(&self, id: &str, role: &str) -> bool {
        self.rows.iter().any(|r| r.0 == id && r.1 == role)
    }
}

fn start(a: &mut App, db: &mut Store, topic: &str, gated: bool) -> Option<String> {
    a.config.research_model = "openai/gpt-5-mini".to_string();
    match a.start_research(topic) {
        ResearchStart::Refused => None,
        ResearchStart::Create { topic, title, model: _, models: _ } => {
            let id = format!("research-{}", db.rows.len());
            let effects = a.research_rows(&id, &topic, &None);
            db.perform(&effects);
            let rows = db.load(&id);
            a.start_research_with_gate(&topic, gated, Ok(session(&id, &title)), rows);
            Some(id)
        }
    }
}

fn update(a: &mut App, db: &mut Store, id: &str, space: &str, u: ResearchUpdate) -> Vec<Effect> {
    let mut o = UpdateOutcome {
        prompt_error: None,
        file: Ok(String::new()),
        urls: Vec::new(),
        changes: None,
    };
    if let Some((role, content)) = prompt_to_store(&a.research, &u) {
        if db.fail {
            o.prompt_error = Some("disk full".to_string());
        } else {
            db.rows.push((id.to_string(), role, content));
        }
    }
    let kept = o.prompt_error.is_none();
    if let Some(f) = artifact_of(&a.research, &u, kept, &o.changes, "20260101-000000") {
        if let ResearchUpdate::Done(Ok(report)) = &u {
            o.urls = report
                .lines()
                .filter_map(|l| l.split_once(". ").map(|p| p.1.to_string()))
                .filter(|l| l.starts_with("http"))
                .collect();
        }
        o.file = Ok(f.name.clone());
        db.files.push((f.name, f.body));
    }
    let effects = a.on_research_done(
        Some(ResearchMsg { session_id: id.to_string(), space_id: space.to_string(), update: u }),
        &o,
    );
    db.perform(&effects);
    effects
}

fn reply(a: &mut App, db: &mut Store, text: &str, delivered: bool) {
    let gate = match &a.research.gate {
        Some(g) => g.session_id.clone(),
        None => String::new(),
    };
    let mut run = a.research.start_reply(text);
    loop {
        let event = match run.stage {
            ReplyStage::Storing => ReplyEvent::Stored(if db.fail {
                Err("locked".to_string())
            } else {
                db.rows.push((gate.clone(), "gate_reply".to_string(), text.to_string()));
                Ok(())
            }),
            ReplyStage::PassingOn => ReplyEvent::PassedOn(delivered),
            ReplyStage::TakingBack => {
                db.rows.pop();
                ReplyEvent::TakenBack(Ok(()))
            }
            ReplyStage::Over => break,
        };
        run.step(event);
    }
    a.reply_to_survey_gate(text, run.outcome);
}

fn stage(label: &str, detail: &str) -> ResearchUpdate {
    ResearchUpdate::Stage { label: label.to_string(), detail: detail.to_string() }
}

fn plan(questions: &[&str], rework: bool) -> ResearchUpdate {
    ResearchUpdate::PlanReady {
        questions: questions.iter().map(|q| PlanQuestion::bare(q.to_string())).collect(),
        rework,
    }
}

fn survey(questions: &[&str], round: u8) -> ResearchUpdate {
    ResearchUpdate::SurveyReady {
        questions: questions.iter().map(|q| q.to_string()).collect(),
        round,
    }
}

#[test]
fn start_research_rejects_blank_topic_and_missing_model() {
    let mut a = test_app();
    a.config.research_model = "openai/gpt-5-mini".to_string();
    a.start_research("  ");
    assert!(a.screen.status.contains("usage:"));
    assert!(!a.jobs.research);

    a.config.research_model.clear();
    a.start_research("rust async runtimes");
    assert!(a.screen.status.contains("no research model configured"));
    assert!(!a.jobs.research);
}

#[test]
fn start_research_creates_and_switches_into_a_new_session() {
    let mut a = test_app();
    let mut db = Store::default();
    start(&mut a, &mut db, "rust async runtimes", true);
    assert!(a.jobs.research);
    assert!(a.research.running.is_some());
    let s = a.talk.session.as_ref().expect("switched into the research session");
    assert!(s.title.contains("rust async runtimes"));
    assert!(a.talk.messages.iter().any(|m| m.content.contains("/research rust async runtimes")));
}

#[test]
fn start_research_refuses_a_second_concurrent_job() {
    let mut a = test_app();
    let mut db = Store::default();
    start(&mut a, &mut db, "topic one", true);
    assert!(a.jobs.research);
    assert!(start(&mut a, &mut db, "topic two", true).is_none());
    assert!(a.screen.status.contains("already running"));
    assert!(a.talk.session.as_ref().unwrap().title.contains("topic one"));
}

#[test]
fn a_job_takes_the_conversation_it_comes_from_along() {
    let mut a = test_app();
    let mut s = session("chat-1", "chat");
    s.compact_summary = Some("we spoke of X".to_string());
    s.compact_through = 1;
    a.talk.session = Some(s);
    a.talk.messages = vec![
        Message::plain("user", "old".to_string()),
        Message::plain("assistant", "new reply".to_string()),
        Message::plain("error", "not this".to_string()),
    ];
    let effects = a.research_rows("r1", "topic", &Some("My chat".to_string()));
    assert_eq!(effects.len(), 4);
    match &effects[1] {
        Effect::AddMessage { content, .. } => assert_eq!(
            content,
            "/research topic\n\nPrevious conversation summary:\nwe spoke of X\n\nRecent messages:\nassistant: new reply\n"
        ),
        _ => panic!("expected the first row"),
    }
    match &effects[2] {
        Effect::AddMessage { session_id, content, .. } => {
            assert_eq!(session_id, "chat-1");
            assert_eq!(content, "r1\n🔗 Research session started for: topic");
        }
        _ => panic!("expected the link"),
    }
    match &effects[3] {
        Effect::AddMessage { content, .. } => {
            assert_eq!(content, "chat-1\n↩ Originally from: My chat")
        }
        _ => panic!("expected the link back"),
    }
}

#[test]
fn on_research_done_stage_update_persists_and_shows_when_viewing() {
    let mut a = test_app();
    let mut db = Store::default();
    let id = start(&mut a, &mut db, "rust async runtimes", true).unwrap();
    update(&mut a, &mut db, &id, "space-0", stage("planning", ""));
    assert!(a.talk.messages.iter().any(|m| m.role == "research_stage" && m.content == "planning"));
    assert!(db.load(&id).iter().any(|m| m.role == "research_stage" && m.content == "planning"));
    assert!(a.screen.status.contains("planning"));

    update(&mut a, &mut db, &id, "space-0", stage("planning", "revised"));
    let stored = db.load(&id);
    let rows: Vec<_> = stored.iter().filter(|m| m.role == "research_stage").collect();
    assert_eq!(rows.len(), 1, "one row per label, updated in place");
    assert_eq!(rows[0].content, "planning: revised");
    let visible: Vec<_> = a.talk.messages.iter().filter(|m| m.role == "research_stage").collect();
    assert_eq!(visible.len(), 1);
    assert_eq!(visible[0].content, "planning: revised");
    assert!(a.screen.status.contains("Ctrl+↑ agents"));
}

#[test]
fn multiple_drained_steers_each_keep_their_own_stage_row() {
    let mut a = test_app();
    let mut db = Store::default();
    let id = start(&mut a, &mut db, "rust async runtimes", true).unwrap();
    for (i, steer) in ["look into X", "also Y"].iter().enumerate() {
        update(&mut a, &mut db, &id, "space-0", stage(&format!("steer #{}", i + 1), steer));
    }
    assert_eq!(a.research.steer_acked, vec![1, 2]);
    let stored = db.load(&id);
    assert_eq!(stored.iter().filter(|m| m.content.starts_with("steer #")).count(), 2);
    assert_eq!(a.talk.messages.iter().filter(|m| m.content.starts_with("steer #")).count(), 2);
}

#[test]
fn steer_rows_do_not_collide_on_duplicate_prefix_or_wildcard_text() {
    let mut a = test_app();
    let mut db = Store::default();
    let id = start(&mut a, &mut db, "rust async runtimes", true).unwrap();
    let steers = ["a: b", "a", "same", "same", "100% done"];
    for (i, steer) in steers.iter().enumerate() {
        update(&mut a, &mut db, &id, "space-0", stage(&format!("steer #{}", i + 1), steer));
    }
    let rows: Vec<_> = a
        .talk
        .messages
        .iter()
        .filter(|m| m.role == "research_stage" && m.content.starts_with("steer #"))
        .collect();
    assert_eq!(rows.len(), steers.len());
    for (i, steer) in steers.iter().enumerate() {
        let want = format!("steer #{}: {steer}", i + 1);
        assert!(rows.iter().any(|m| m.content == want), "missing row for {want}");
    }
    assert_eq!(a.research.steer_acked, vec![1, 2, 3, 4, 5]);
}

#[test]
fn steer_log_drops_acknowledged_entries_and_clears_on_stop() {
    let mut a = test_app();
    a.research.steer_open = true;

    a.steer_research("first", true);
    a.steer_research("second", true);
    a.steer_research("third", true);
    assert_eq!(
        a.research.steer_log,
        vec![(1, "first".to_string()), (2, "second".to_string()), (3, "third".to_string())]
    );

    a.research.steer_acked = vec![1, 2];
    a.steer_research("fourth", true);
    assert_eq!(a.research.steer_log, vec![(3, "third".to_string()), (4, "fourth".to_string())]);

    a.research.steer_acked.push(3);
    let mut db = Store::default();
    update(&mut a, &mut db, "s", "sp", stage("steer #3", "third"));
    assert_eq!(a.research.steer_log, vec![(4, "fourth".to_string())]);

    a.jobs.research = true;
    a.research.running = Some(("s".to_string(), "t".to_string()));
    a.stop_research();
    assert!(a.research.steer_log.is_empty());
    assert!(a.research.steer_acked.is_empty());
}

#[test]
fn steer_queue_is_hard_bound() {
    let mut a = test_app();
    a.research.steer_open = true;
    for i in 0..MAX_QUEUED_STEERS {
        a.steer_research(&format!("steer {i}"), true);
    }
    assert_eq!(a.research.steer_log.len(), MAX_QUEUED_STEERS);
    assert!(!a.research.takes_steer("overflow"));
    a.steer_research("overflow", true);
    assert_eq!(a.research.steer_log.len(), MAX_QUEUED_STEERS);
    assert!(a.screen.status.contains("steer queue full"), "{}", a.screen.status);
}

#[test]
fn steers_need_a_job_and_a_text() {
    let mut a = test_app();
    a.steer_research("x", true);
    assert_eq!(a.screen.status, "no research job is running");
    a.steer_research("", true);
    assert!(a.screen.status.starts_with("usage: /steer"));
    a.research.steer_open = true;
    a.steer_research("x", false);
    assert_eq!(a.screen.status, "no research job is running");
}

#[test]
fn plan_ready_arms_the_gate_and_reply_routes_into_the_pipeline() {
    let mut a = test_app();
    let mut db = Store::default();
    let id = start(&mut a, &mut db, "rust async runtimes", true).unwrap();
    update(&mut a, &mut db, &id, "space-0", plan(&["q1", "q2"], false));
    assert!(a.research.gate.is_some());
    assert!(a.survey_gate_targets_current_session());
    assert!(db.has(&id, "research_plan"));
    let shown = a.talk.messages.iter().find(|m| m.role == "research_plan").unwrap();
    assert!(shown.content.contains("1. q1"));

    reply(&mut a, &mut db, "drop q2", true);
    assert!(a.research.gate.is_none());
    assert!(!a.survey_gate_targets_current_session());
    assert!(a.talk.messages.iter().any(|m| m.role == "gate_reply" && m.content == "drop q2"));
    assert!(db.has(&id, "gate_reply"));
    let history =
        build_history(&a.talk, &mut a.skills, "p".to_string(), None, false, "", &vec![]);
    assert!(!history.iter().any(|m| m.content == "drop q2"));
    assert!(!history.iter().any(|m| m.content.contains("1. q1")));
}

#[test]
fn plan_ready_saves_a_plan_file_record_in_the_space() {
    let mut a = test_app();
    let mut db = Store::default();
    let id = start(&mut a, &mut db, "rust async runtimes", true).unwrap();
    let effects = update(&mut a, &mut db, &id, "space-0", plan(&["q1"], false));
    assert_eq!(db.files.len(), 1);
    assert_eq!(db.files[0].0, "plan-rust-async-runtimes-20260101-000000.md");
    assert!(db.files[0].1.contains("Research plan: rust async runtimes"));
    assert!(db.files[0].1.contains("1. q1"));
    assert!(matches!(&effects[0], Effect::RescanFiles));
}

#[test]
fn a_plan_file_that_fails_shows_as_a_stage() {
    let mut a = test_app();
    let mut db = Store::default();
    let id = start(&mut a, &mut db, "t", true).unwrap();
    let o = UpdateOutcome {
        prompt_error: None,
        file: Err("read-only".to_string()),
        urls: Vec::new(),
        changes: None,
    };
    a.on_research_done(
        Some(ResearchMsg {
            session_id: id.clone(),
            space_id: "space-0".to_string(),
            update: plan(&["q1"], false),
        }),
        &o,
    );
    let rows: Vec<_> = a.talk.messages.iter().map(|m| m.role.as_str()).collect();
    assert_eq!(rows, vec!["user", "research_stage", "research_plan"]);
    assert_eq!(
        a.research.stage_rows,
        vec!["plan record: error — could not save plan record: read-only".to_string()]
    );
}

#[test]
fn survey_ready_arms_the_gate_and_renders_a_survey_section() {
    let mut a = test_app();
    let mut db = Store::default();
    let id = start(&mut a, &mut db, "fine-tuning LLMs", true).unwrap();
    update(&mut a, &mut db, &id, "space-0", survey(&["Depth or breadth?"], 1));
    assert!(a.survey_gate_targets_current_session());
    let shown = a.talk.messages.iter().find(|m| m.role == "survey").unwrap();
    assert!(shown.content.contains("For \"fine-tuning LLMs\":"));
    assert!(shown.content.contains("1. Depth or breadth?"));
    assert!(shown.content.contains("I approve"));
    assert!(db.has(&id, "survey"));

    reply(&mut a, &mut db, "depth first", true);
    assert!(a.research.gate.is_none());
    assert!(a.screen.status.contains("follow-ups"));
}

#[test]
fn a_gate_that_cannot_be_stored_stops_the_job() {
    let mut a = test_app();
    let mut db = Store::default();
    let id = start(&mut a, &mut db, "t", true).unwrap();
    db.fail = true;
    let effects = update(&mut a, &mut db, &id, "space-0", survey(&["q?"], 1));
    assert!(a.research.gate.is_none());
    assert!(!a.jobs.research);
    assert_eq!(a.screen.status, "couldn't persist the survey — research stopped: disk full");
    assert!(matches!(&effects[0], Effect::AbortResearch));

    let mut b = test_app();
    let mut db = Store::default();
    let id = start(&mut b, &mut db, "t", false).unwrap();
    update(&mut b, &mut db, &id, "space-0", plan(&["q"], false));
    assert_eq!(b.screen.status, "plan approval channel unavailable — research stopped");
}

#[test]
fn gate_only_targets_the_viewed_gated_session() {
    let mut a = test_app();
    let mut db = Store::default();
    let id = start(&mut a, &mut db, "topic one", true).unwrap();
    update(&mut a, &mut db, &id, "space-0", survey(&["q?"], 1));
    assert!(a.survey_gate_targets_current_session());

    a.talk.session = Some(session("other", "other"));
    a.talk.messages.clear();
    assert!(!a.survey_gate_targets_current_session());
    assert!(a.research.gate.is_some(), "gate stays armed for its session");
}

#[test]
fn plan_ready_in_incognito_mode_writes_no_plan_file() {
    let mut a = test_app();
    let mut db = Store::default();
    a.incognito = true;
    let id = start(&mut a, &mut db, "rust async runtimes", true).unwrap();
    update(&mut a, &mut db, &id, "space-0", plan(&["q1"], false));
    assert!(db.files.is_empty());
    assert!(!db.has(&id, "research_plan"));
    assert!(a.talk.messages.iter().any(|m| m.role == "research_plan"));
}

#[test]
fn incognito_gate_rows_follow_the_mode_captured_at_job_start() {
    let mut a = test_app();
    let mut db = Store::default();
    a.incognito = true;
    let id = start(&mut a, &mut db, "private topic", true).unwrap();
    assert!(a.research.incognito);

    a.incognito = false;
    update(&mut a, &mut db, &id, "space-0", survey(&["Which confidential product?"], 1));
    reply(&mut a, &mut db, "Project Juniper", true);
    assert!(!db.has(&id, "survey"));
    assert!(!db.has(&id, "gate_reply"));
    assert!(a.talk.messages.iter().any(|m| m.role == "gate_reply"));
}

#[test]
fn off_screen_incognito_plan_is_restored_when_its_session_opens() {
    let mut a = test_app();
    let mut db = Store::default();
    a.incognito = true;
    let id = start(&mut a, &mut db, "private topic", true).unwrap();
    a.talk.session = Some(session("other", "other"));
    a.talk.messages.clear();
    update(&mut a, &mut db, &id, "space-0", plan(&["private question"], true));
    assert!(!a.survey_gate_targets_current_session());
    assert!(!db.has(&id, "research_plan"));

    a.talk.session = Some(session(&id, "private topic"));
    a.talk.messages = db.load(&id);
    a.restore_survey_gate_prompt();
    a.restore_survey_gate_prompt();

    assert!(a.survey_gate_targets_current_session());
    let plans: Vec<_> = a.talk.messages.iter().filter(|m| m.role == "research_plan").collect();
    assert_eq!(plans.len(), 1);
    assert!(plans[0].content.contains("private question"));
    assert!(plans[0].content.contains("reply \"approve\""));
    assert!(!plans[0].content.contains("tell me what to change"));
}

#[test]
fn undelivered_gate_reply_is_rolled_back_and_restored_to_composer() {
    let mut a = test_app();
    let mut db = Store::default();
    let id = start(&mut a, &mut db, "rust async runtimes", true).unwrap();
    update(&mut a, &mut db, &id, "space-0", plan(&["q1"], false));
    assert!(a.research.gate.is_some());

    reply(&mut a, &mut db, "drop q2", false);

    assert!(a.research.gate.is_none());
    assert!(a.screen.input.contains("drop q2"), "{}", a.screen.input);
    assert!(!db.has(&id, "gate_reply"));
    assert!(!a.talk.messages.iter().any(|m| m.role == "gate_reply"));
}

#[test]
fn a_reply_that_cannot_be_stored_leaves_the_gate_armed() {
    let mut a = test_app();
    let mut db = Store::default();
    let id = start(&mut a, &mut db, "t", true).unwrap();
    update(&mut a, &mut db, &id, "space-0", plan(&["q1"], false));
    db.fail = true;
    reply(&mut a, &mut db, "drop q2", true);
    assert!(a.research.gate.is_some());
    assert_eq!(a.screen.status, "couldn't save your reply — locked");
    assert_eq!(a.screen.input, "drop q2");
    assert!(!db.has(&id, "gate_reply"));
}

#[test]
fn a_reply_goes_its_way_in_order() {
    let mut a = test_app();
    let mut db = Store::default();
    assert_eq!(a.research.start_reply("x").stage, ReplyStage::Over);
    let id = start(&mut a, &mut db, "t", true).unwrap();
    update(&mut a, &mut db, &id, "space-0", plan(&["q1"], false));

    let mut run = a.research.start_reply("drop q2");
    assert_eq!(run.stage, ReplyStage::Storing);
    run.step(ReplyEvent::PassedOn(true));
    assert_eq!(run.stage, ReplyStage::Storing);
    run.step(ReplyEvent::Stored(Ok(())));
    assert_eq!(run.stage, ReplyStage::PassingOn);
    run.step(ReplyEvent::PassedOn(false));
    assert_eq!(run.stage, ReplyStage::TakingBack);
    run.step(ReplyEvent::TakenBack(Err("locked".to_string())));
    assert_eq!(run.stage, ReplyStage::Over);
    a.reply_to_survey_gate("drop q2", run.outcome);
    assert!(a.screen.status.contains("could not be rolled back: locked"));

    update(&mut a, &mut db, &id, "space-0", plan(&["q1"], false));
    let mut blank = a.research.start_reply("  ");
    assert_eq!(blank.stage, ReplyStage::PassingOn);
    blank.step(ReplyEvent::PassedOn(false));
    assert_eq!(blank.stage, ReplyStage::Over);
    a.research.incognito = true;
    assert_eq!(a.research.start_reply("secret").stage, ReplyStage::PassingOn);
}

#[test]
fn a_reply_that_was_taken_is_stored_once() {
    let mut a = test_app();
    let mut db = Store::default();
    let id = start(&mut a, &mut db, "t", true).unwrap();
    update(&mut a, &mut db, &id, "space-0", plan(&["q1"], false));
    reply(&mut a, &mut db, "drop q2", false);
    update(&mut a, &mut db, &id, "space-0", plan(&["q1"], false));
    reply(&mut a, &mut db, "drop q2", true);
    assert_eq!(db.rows.iter().filter(|r| r.1 == "gate_reply").count(), 1);
}

#[test]
fn a_plan_whose_prompt_is_lost_leaves_no_file() {
    let mut a = test_app();
    let mut db = Store::default();
    let id = start(&mut a, &mut db, "t", true).unwrap();
    db.fail = true;
    update(&mut a, &mut db, &id, "space-0", plan(&["q1"], false));
    assert!(db.files.is_empty());
    assert!(a.research.gate.is_none());
}

#[test]
fn steer_positions_grow_past_what_was_taken_up() {
    let mut a = test_app();
    let mut db = Store::default();
    a.research.steer_open = true;
    a.research.steer_acked = vec![7];
    a.steer_research("one", true);
    a.steer_research("two", true);
    assert_eq!(a.research.steer_log[0].0, 8);
    assert_eq!(a.research.steer_log[1].0, 9);
    update(&mut a, &mut db, "s", "sp", stage("steer #9", "taken up"));
    a.steer_research("three", true);
    let positions: Vec<usize> = a.research.steer_log.iter().map(|e| e.0).collect();
    assert_eq!(positions, [8, 10]);
}

#[test]
fn off_screen_gate_marks_the_session_unread_and_notifies() {
    let mut a = test_app();
    let mut db = Store::default();
    let id = start(&mut a, &mut db, "rust async runtimes", true).unwrap();
    a.talk.session = Some(session("other", "other"));
    a.talk.messages.clear();
    update(&mut a, &mut db, &id, "space-0", survey(&["Depth or breadth?"], 1));
    assert!(a.research.gate.is_some());
    assert!(!a.survey_gate_targets_current_session());
    assert!(a.notices.unread.contains(&id), "session must be marked unread");
    assert!(a.screen.status.contains("waiting on you"), "{}", a.screen.status);
    assert!(a.screen.status.contains("survey round 1"), "{}", a.screen.status);
}

#[test]
fn on_research_done_final_report_populates_citation_index() {
    let mut a = test_app();
    let mut db = Store::default();
    let id = start(&mut a, &mut db, "rust async runtimes", true).unwrap();
    let report = "# Report\n\nBody [1].\n\n## Sources\n1. https://example.com/a\n";
    let effects =
        update(&mut a, &mut db, &id, "space-0", ResearchUpdate::Done(Ok(report.to_string())));
    assert!(effects.iter().any(|e| matches!(
        e,
        Effect::IndexCitations { space_id, urls, .. }
            if space_id == "space-0" && *urls == vec!["https://example.com/a".to_string()]
    )));
    let last = a.talk.messages.last().unwrap();
    assert_eq!(last.content, report);
    assert_eq!(last.phrase.as_deref(), Some("Researched"));
}

#[test]
fn on_research_done_final_report_posts_message_saves_file_and_notifies_when_away() {
    let mut a = test_app();
    let mut db = Store::default();
    let id = start(&mut a, &mut db, "rust async runtimes", true).unwrap();
    a.talk.session = None;
    a.talk.messages.clear();
    let report = "# Rust Async Runtimes\n\nBody text. [1]\n\n## Sources\n1. https://a";
    update(&mut a, &mut db, &id, "space-0", ResearchUpdate::Done(Ok(report.to_string())));
    assert!(a.notices.unread.contains(&id));
    assert!(db
        .load(&id)
        .iter()
        .any(|m| m.role == "assistant" && m.content.contains("Rust Async Runtimes")));
    assert_eq!(db.files.len(), 1);
    assert_eq!(db.files[0].0, "research-rust-async-runtimes-20260101-000000.md");
    assert_eq!(a.screen.status, "✓ research ready: rust async runtimes");
}

#[test]
fn on_research_done_saves_report_to_original_space_even_if_user_switched() {
    let mut a = test_app();
    let mut db = Store::default();
    let id = start(&mut a, &mut db, "rust async runtimes", true).unwrap();
    a.active_space = Space {
        id: "space-2".to_string(),
        name: "research-test-space-2".to_string(),
        created_at: String::new(),
    };
    a.talk.session = None;
    a.talk.messages.clear();
    let report = "# Rust Async Runtimes\n\nBody text. [1]\n\n## Sources\n1. https://a";
    let effects =
        update(&mut a, &mut db, &id, "space-0", ResearchUpdate::Done(Ok(report.to_string())));
    assert_eq!(db.files.len(), 1);
    assert!(!effects.iter().any(|e| matches!(e, Effect::RescanFiles)));
    assert!(effects.iter().any(|e| matches!(
        e,
        Effect::IndexCitations { space_id, .. } if space_id == "space-0"
    )));
}

#[test]
fn a_watched_topic_reports_what_changed_first() {
    let mut a = test_app();
    let mut db = Store::default();
    let id = start(&mut a, &mut db, "t", true).unwrap();
    let o = UpdateOutcome {
        prompt_error: None,
        file: Ok("f.md".to_string()),
        urls: Vec::new(),
        changes: Some("## What changed".to_string()),
    };
    a.on_research_done(
        Some(ResearchMsg {
            session_id: id,
            space_id: "space-0".to_string(),
            update: ResearchUpdate::Done(Ok("report".to_string())),
        }),
        &o,
    );
    assert_eq!(a.talk.messages.last().unwrap().content, "## What changed\n\nreport");
}

#[test]
fn on_research_done_failure_posts_error_message() {
    let mut a = test_app();
    let mut db = Store::default();
    let id = start(&mut a, &mut db, "rust async runtimes", true).unwrap();
    update(
        &mut a,
        &mut db,
        &id,
        "space-0",
        ResearchUpdate::Done(Err("planner: network down".to_string())),
    );
    assert!(a.screen.status.contains("network down"));
    assert!(db
        .load(&id)
        .iter()
        .any(|m| m.role == "assistant" && m.content.contains("network down")));
}

#[test]
fn on_research_done_none_clears_state_and_closes_the_live_popup() {
    let mut a = test_app();
    let mut db = Store::default();
    start(&mut a, &mut db, "t", true);
    assert!(a.jobs.research);
    a.open_research_live();
    assert_eq!(a.screen.popup, Popup::ResearchLive);
    a.research.live_input = "late steer".to_string();
    a.research.stage_rows = vec!["writer: done".to_string()];

    a.on_research_done(
        None,
        &UpdateOutcome {
            prompt_error: None,
            file: Ok(String::new()),
            urls: Vec::new(),
            changes: None,
        },
    );

    assert!(!a.jobs.research);
    assert!(a.research.running.is_none());
    assert_eq!(a.screen.popup, Popup::Closed);
    assert!(a.research.live_input.is_empty());
    assert!(a.research.stage_rows.is_empty());
}

#[test]
fn a_topic_is_scoped_from_the_chat() {
    let mut a = test_app();
    assert!(a.start_research_from_chat().is_none());
    assert!(a.screen.status.contains("no model configured"));
    a.catalog.current = Some("a/one".to_string());
    assert!(a.start_research_from_chat().is_none());
    assert!(a.screen.status.contains("nothing to scope yet"));
    for i in 0..25 {
        a.talk.messages.push(Message::plain("user", format!("m{i}")));
    }
    let request = a.start_research_from_chat().unwrap();
    assert!(a.jobs.research_topic);
    assert!(!request.prompt.contains("m4\n"));
    assert!(request.prompt.contains("user: m5\nuser: m6"));
    assert!(a.start_research_from_chat().is_none());
    assert!(matches!(
        a.on_research_topic_derived(Some(Ok("a topic".to_string()))),
        TopicStep::Research(t) if t == "a topic"
    ));
    assert!(matches!(a.on_research_topic_derived(Some(Ok(String::new()))), TopicStep::Nothing));
    assert_eq!(a.screen.status, "couldn't derive a topic — try /research <topic>");
    a.on_research_topic_derived(Some(Err("offline".to_string())));
    assert_eq!(a.screen.status, "topic scoping failed: offline");
}

#[test]
fn closed_reply_channel_fails_plan_approval_closed() {
    let (mut job, _) = ResearchJob::start("topic", true);
    job.step(ResearchEvent::Reply { result: Ok("COMPLETE".to_string()), objects: None });
    job.step(ResearchEvent::Gathered(Ok((Vec::new(), String::new()))));
    let actions =
        job.step(ResearchEvent::Reply { result: Ok("- q1".to_string()), objects: None });
    assert!(actions
        .iter()
        .any(|a| matches!(a, ResearchAction::Update(ResearchUpdate::PlanReady { .. }))));
    let actions = job.step(ResearchEvent::UserReply(None));
    match actions.last().unwrap() {
        ResearchAction::Update(ResearchUpdate::Done(Err(e))) => {
            assert!(e.contains("cancelled"), "{e}")
        }
        _ => panic!("closed channel must fail closed, not approve"),
    }
    assert!(!actions.iter().any(|a| matches!(a, ResearchAction::Search { .. })));
}

#[test]
fn an_ungated_job_runs_to_its_report() {
    let (mut job, actions) = ResearchJob::start("topic", false);
    assert!(actions.iter().any(|a| matches!(a, ResearchAction::Gather { .. })));
    let say = |s: &str| ResearchEvent::Reply { result: Ok(s.to_string()), objects: None };
    job.step(ResearchEvent::Gathered(Ok((Vec::new(), "survey".to_string()))));
    job.step(say("- q1\n- q2"));
    let actions = job.step(ResearchEvent::Pinned(Vec::new()));
    let items = actions
        .iter()
        .find_map(|a| match a {
            ResearchAction::Search { items, .. } => Some(items.len()),
            _ => None,
        })
        .unwrap();
    assert_eq!(items, 2);
    job.step(ResearchEvent::Found(vec!["f1".to_string(), "f2".to_string()]));
    job.step(ResearchEvent::Steers(Vec::new()));
    job.step(ResearchEvent::Deduped(vec!["f1".to_string(), "f2".to_string()]));
    job.step(say("a draft"));
    job.step(say("SATISFIED"));
    job.step(ResearchEvent::Verified("checked draft".to_string()));
    let actions = job.step(say("the report"));
    match actions.last().unwrap() {
        ResearchAction::Update(ResearchUpdate::Done(Ok(r))) => assert_eq!(r, "the report"),
        _ => panic!("expected the report"),
    }
    assert!(job.step(say("more")).is_empty());
}

#[test]
fn a_searcher_reports_what_it_does() {
    let (mut s, first) = Searcher::start("round 1", "q1", 0, 2);
    assert!(matches!(first, ResearchUpdate::Stage { .. }));
    assert_eq!(Searcher::messages("find X").len(), 2);
    s.on_event(Some(nexus_chat::provider::StreamEvent::Token("found".to_string())));
}

#[test]
fn links_lead_to_their_sessions() {
    let mut a = test_app();
    a.talk.messages.push(Message::plain("session_link", " s9 \nResearch".to_string()));
    a.talk.messages.push(Message::plain("session_link", "no end".to_string()));
    a.talk.messages.push(Message::plain("user", "hi".to_string()));
    assert!(matches!(a.open_session_link(Some(0)), LinkStep::Open(id) if id == "s9"));
    assert!(matches!(a.open_session_link(Some(1)), LinkStep::Nothing));
    assert_eq!(a.screen.status, "malformed session link");
    a.open_session_link(Some(2));
    assert!(a.screen.status.starts_with("select text on a session link"));
    a.open_session_link(None);
    assert!(a.screen.status.starts_with("select text on a session link"));
}

#[test]
fn sources_are_flagged_by_their_number() {
    let mut a = test_app();
    let c = |selected: bool, number: Option<u64>, sources: Option<Vec<(u64, String)>>| Citation {
        selected,
        number,
        sources,
    };
    a.flag_source_under_selection(&c(false, None, None), None, Ok(()));
    assert_eq!(a.screen.status, "select a [n] citation, then press x");
    a.flag_source_under_selection(&c(true, None, None), None, Ok(()));
    assert_eq!(a.screen.status, "no [n] citation in the current selection");
    let sources = vec![(1, "https://a".to_string())];
    a.flag_source_under_selection(&c(true, Some(2), Some(sources.clone())), None, Ok(()));
    assert_eq!(a.screen.status, "no source [2] in this message");
    a.flag_source_under_selection(&c(true, Some(1), Some(sources.clone())), None, Ok(()));
    assert_eq!(a.screen.status, "no active session");
    a.talk.session = Some(session("s", "t"));
    let effects = a.flag_source_under_selection(
        &c(true, Some(1), Some(sources.clone())),
        Some("discarded"),
        Ok(()),
    );
    assert_eq!(a.screen.status, "discarded [1]: https://a");
    assert!(matches!(&effects[0], Effect::RefreshToolbox));
    a.flag_source_under_selection(&c(true, Some(1), Some(sources)), None, Err("locked".to_string()));
    assert_eq!(a.screen.status, "flag failed: locked");
}

fn persona(name: &str) -> Persona {
    Persona { name: name.to_string(), model: "m".to_string(), blurb: "b".to_string() }
}

#[test]
fn swarm_updates_show_in_their_session() {
    let mut a = test_app();
    a.talk.session = Some(session("s", "t"));
    let msg = |u: SwarmUpdate| Some(("s".to_string(), u));
    a.on_swarm_update(msg(SwarmUpdate::Progress("round 1".to_string())), true, &vec![]);
    a.on_swarm_update(msg(SwarmUpdate::Progress("round 2".to_string())), true, &vec![]);
    assert_eq!(a.talk.messages.len(), 1);
    assert_eq!(a.talk.messages[0].content, "swarm: round 2");
    let spoken = |content: &str| SwarmUpdate::Reply {
        persona: "Skeptic".to_string(),
        model: "m".to_string(),
        content: content.to_string(),
    };
    let row = reply_to_store(&spoken("row")).unwrap();
    assert_eq!((row.role.as_str(), row.content.as_str()), ("assistant", "row"));
    assert_eq!(row.persona.as_deref(), Some("Skeptic"));
    assert!(reply_to_store(&SwarmUpdate::Error("x".to_string())).is_none());
    a.on_swarm_update(msg(spoken("lost")), false, &vec![]);
    assert_eq!(a.talk.messages.len(), 1);
    a.on_swarm_update(msg(spoken("kept")), true, &vec![]);
    assert_eq!(a.talk.messages[1].persona.as_deref(), Some("Skeptic"));
    let effects =
        a.on_swarm_update(msg(SwarmUpdate::PersonaJoined(persona("New"))), true, &vec![persona("Old")]);
    match &effects[0] {
        Effect::SaveRoster { personas, .. } => assert_eq!(personas.len(), 2),
        _ => panic!("expected the roster"),
    }
    let again =
        a.on_swarm_update(msg(SwarmUpdate::PersonaJoined(persona("New"))), true, &vec![persona("New")]);
    assert!(again.is_empty());
    assert_eq!(a.swarm.cache.len(), 1);
    let effects = a.on_swarm_update(msg(SwarmUpdate::Synthesis("sum".to_string())), true, &vec![]);
    assert!(matches!(&effects[1], Effect::FollowUp { rows: 3 }));
    assert_eq!(a.talk.messages[2].phrase.as_deref(), Some("Discussed"));
    a.on_swarm_update(msg(SwarmUpdate::Error("boom".to_string())), true, &vec![]);
    assert_eq!(a.talk.messages[3].role, "error");
    a.on_swarm_update(
        Some(("elsewhere".to_string(), SwarmUpdate::Error("x".to_string()))),
        true,
        &vec![],
    );
    assert_eq!(a.talk.messages.len(), 4);
}

#[test]
fn swarm_turns_start_and_stop() {
    let mut a = test_app();
    a.catalog.current = Some("a/one".to_string());
    a.talk.session = Some(session("s", "t"));
    a.talk.messages.push(Message::plain("user", "discuss".to_string()));
    let inputs = || TurnInputs {
        personas: vec![persona("Skeptic")],
        prompt: "p".to_string(),
        images: None,
        body: String::new(),
        known: Vec::new(),
    };
    let q = a.start_swarm_turn(inputs()).unwrap();
    assert_eq!(q.user_message, "discuss");
    assert_eq!(q.personas[0].name, "Skeptic");
    assert_eq!(q.default.1, "a/one");
    assert_eq!(q.meta.1, "research");
    assert!(a.start_swarm_turn(inputs()).is_none());
    assert_eq!(a.screen.status, "a swarm turn is already running");
    let effects = a.stop_swarm();
    assert_eq!(effects.len(), 2);
    assert_eq!(a.screen.status, "swarm stopped");
    a.stop_swarm();
    assert_eq!(a.screen.status, "no swarm is running");
}

#[test]
fn the_roster_is_edited_as_files() {
    let mut a = test_app();
    a.open_swarm_popup(vec![]);
    assert_eq!(a.screen.status, "start a chat first, then /swarm");
    a.talk.session = Some(session("s", "t"));
    a.open_swarm_popup(vec![persona("One")]);
    assert_eq!(a.screen.popup, Popup::Swarm);
    a.toggle_swarm_mode(true);
    assert_eq!(a.screen.status, "swarm mode: ON");
    a.queue_swarm_persona_editor(true, Some("/tmp/p.md".to_string()));
    assert_eq!(a.swarm.cache.len(), 2);
    assert_eq!(a.swarm.selected, 1);
    assert!(matches!(a.swarm.mode, SwarmPopupMode::Browse));
    a.apply_swarm_persona_editor("name: \nmodel: m\n---\n", true);
    assert_eq!(a.swarm.cache.len(), 1);
    assert!(a.screen.status.starts_with("persona edit ignored: "));
    a.apply_swarm_persona_editor("name: Two\nmodel: m\n---\nhi\n", true);
    assert_eq!(a.swarm.cache[0].name, "Two");
    assert_eq!(a.screen.status, "persona saved");
    a.swarm_remove_row(true);
    assert!(a.swarm.cache.is_empty());
}

#[test]
fn a_loaded_session_shows_its_digest_and_what_is_asked() {
    let mut a = test_app();
    let mut db = Store::default();
    a.incognito = true;
    let id = start(&mut a, &mut db, "t", true).unwrap();
    update(&mut a, &mut db, &id, "space-0", plan(&["q1"], false));
    let mut s = session(&id, "t");
    s.compact_summary = Some("digest".to_string());
    s.compact_through = 1;
    a.talk.session = Some(s);
    a.talk.messages = vec![Message::plain("user", "hi".to_string())];
    let effects = a.session_loaded("now");
    assert!(matches!(&effects[0], Effect::AddDigestRow { anchor, .. } if anchor == "now"));
    let roles: Vec<&str> = a.talk.messages.iter().map(|m| m.role.as_str()).collect();
    assert_eq!(roles, vec!["user", "compaction", "research_plan"]);
    assert!(a.session_loaded("later").is_empty());
    assert_eq!(a.talk.messages.len(), 3);
}
