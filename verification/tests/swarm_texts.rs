//! The texts of the swarm: persona files, rosters and verdicts.

use nexus_chat::backends::{Backend, BackendTag, Backends};
use nexus_chat::roundtable::{SwarmAction, SwarmEvent, SwarmTurn, SwarmUpdate};
use nexus_chat::store::Persona;
use nexus_chat::swarm::{
    all_personas_answered, parse_moderator_verdict, parse_persona_editor, parse_suggested_personas,
    persona_editor_text, render_discussion, ModeratorVerdict,
};
use nexus_chat::text::bracketed_of;
use std::collections::HashSet;

/// What the array part of a reply reads as names and blurbs.
fn items(raw: &str) -> Result<Vec<(String, String)>, String> {
    let part = bracketed_of(raw, '[', ']').ok_or_else(String::new)?;
    let v: serde_json::Value = serde_json::from_str(part).map_err(|e| e.to_string())?;
    let mut out = Vec::new();
    for item in v.as_array().ok_or("no list")? {
        let name = item.get("name").and_then(|s| s.as_str()).ok_or("no name")?;
        let blurb = item.get("blurb").and_then(|s| s.as_str()).ok_or("no blurb")?;
        out.push((name.to_string(), blurb.to_string()));
    }
    Ok(out)
}

fn suggested(raw: &str, model: &str) -> Result<Vec<Persona>, String> {
    parse_suggested_personas(raw, items(raw), model)
}

#[test]
fn persona_editor_round_trips_name_model_and_multiline_blurb() {
    let persona = parse_persona_editor(
        "name: Skeptic\nmodel: codex:gpt-5.4-mini\n---\npokes holes\nand checks evidence\n",
    )
    .unwrap();
    assert_eq!(persona.name, "Skeptic");
    assert_eq!(persona.model, "codex:gpt-5.4-mini");
    assert_eq!(persona.blurb, "pokes holes\nand checks evidence");
    assert!(parse_persona_editor("name: \nmodel: m\n---\n").is_err());
}

#[test]
fn persona_file_reads_back_as_written() {
    let p = Persona { name: "A b".into(), model: "m/x".into(), blurb: "one\ntwo".into() };
    let q = parse_persona_editor(&persona_editor_text(&p)).unwrap();
    assert_eq!((q.name, q.model, q.blurb), (p.name, p.model, p.blurb));
}

#[test]
fn parse_suggested_personas_tolerates_prose_and_fences() {
    let raw = "sure, here you go:\n```json\n[{\"name\":\"Skeptic\",\"blurb\":\"pokes holes\"},\
               {\"name\":\"Advocate\",\"blurb\":\"user-first\"}]\n```";
    let personas = suggested(raw, "a/one").unwrap();
    assert_eq!(personas.len(), 2);
    assert_eq!(personas[0].name, "Skeptic");
    assert_eq!(personas[0].model, "a/one");
    assert_eq!(personas[1].blurb, "user-first");
}

#[test]
fn parse_suggested_personas_drops_blank_names() {
    let raw = r#"[{"name":"","blurb":"nameless"},{"name":"Real","blurb":"ok"}]"#;
    let personas = suggested(raw, "a/one").unwrap();
    assert_eq!(personas.len(), 1);
    assert_eq!(personas[0].name, "Real");
}

#[test]
fn parse_suggested_personas_errors_without_an_array() {
    assert!(suggested("no json here", "a/one").is_err());
}

#[test]
fn moderator_gate_requires_every_current_persona_row_to_have_answered() {
    let mut answered = HashSet::from([0usize]);
    assert!(!all_personas_answered(2, &answered));

    answered.insert(1);
    assert!(all_personas_answered(2, &answered));
    assert!(
        !all_personas_answered(3, &answered),
        "a newly joined persona must get a round before moderation"
    );
}

#[test]
fn render_discussion_none_when_empty_some_when_not() {
    assert!(render_discussion(&vec![]).is_none());
    let d = vec![("Skeptic".to_string(), "wait, really?".to_string())];
    let rendered = render_discussion(&d).unwrap();
    assert!(rendered.contains("**Skeptic**"));
    assert!(rendered.contains("wait, really?"));
}

#[test]
fn parse_moderator_verdict_recognizes_converged() {
    assert!(matches!(parse_moderator_verdict("CONVERGED"), ModeratorVerdict::Converged));
    assert!(matches!(parse_moderator_verdict("  converged.\n"), ModeratorVerdict::Converged));
}

#[test]
fn parse_moderator_verdict_defaults_to_continue() {
    assert!(matches!(parse_moderator_verdict("CONTINUE"), ModeratorVerdict::Continue));
    assert!(matches!(parse_moderator_verdict("something unexpected"), ModeratorVerdict::Continue));
}

#[test]
fn parse_moderator_verdict_extracts_name_and_blurb_for_add() {
    match parse_moderator_verdict("ADD: Realist | grounds the discussion in constraints") {
        ModeratorVerdict::AddPersona { name, blurb } => {
            assert_eq!(name, "Realist");
            assert_eq!(blurb, "grounds the discussion in constraints");
        }
        _ => panic!("expected AddPersona"),
    }
}

#[test]
fn parse_moderator_verdict_falls_back_to_continue_on_malformed_add() {
    assert!(matches!(
        parse_moderator_verdict("ADD: no separator here"),
        ModeratorVerdict::Continue
    ));
}

#[test]
fn prose_behind_the_array_is_skipped() {
    let raw = "Here: [{\"name\":\"A\",\"blurb\":\"b ] c\"}] (as in [the list])";
    let personas = suggested(raw, "m").unwrap();
    assert_eq!(personas.len(), 1);
    assert_eq!(personas[0].blurb, "b ] c");
}

fn turn(names: &[&str]) -> (SwarmTurn, Vec<SwarmAction>) {
    let backend = Backend {
        tag: BackendTag::OpenRouter,
        key: "k".to_string(),
        utility_model: String::new(),
        research_model: String::new(),
    };
    let mut backends = Backends::default();
    backends.set(BackendTag::OpenRouter, backend.clone());
    let roster = names
        .iter()
        .map(|n| Persona { name: n.to_string(), model: "m".into(), blurb: "b".into() })
        .collect();
    SwarmTurn::start(roster, "topic".into(), "m".into(), backends, backend, "m".into())
}

#[test]
fn a_turn_has_four_rounds_and_one_summary() {
    let (mut t, first) = turn(&["A", "B"]);
    let mut todo: std::collections::VecDeque<SwarmAction> = first.into();
    let mut told = Vec::new();
    while let Some(action) = todo.pop_front() {
        let event = match action {
            SwarmAction::Update(SwarmUpdate::Reply { persona, .. }) => {
                told.push(persona);
                continue;
            }
            SwarmAction::Update(SwarmUpdate::Synthesis(s)) => {
                told.push(s);
                continue;
            }
            SwarmAction::Update(_) => continue,
            SwarmAction::Suggest { .. } => unreachable!(),
            SwarmAction::Speak { .. } => SwarmEvent::Spoke(Ok("said".into())),
            SwarmAction::Moderate { .. } => SwarmEvent::Moderated(Ok("CONTINUE".into())),
            SwarmAction::Synthesize { .. } => SwarmEvent::Synthesized(Ok("sum".into())),
        };
        todo.extend(t.step(event));
    }
    assert_eq!(told, ["A", "B", "A", "B", "A", "B", "A", "B", "sum"]);
    assert!(t.step(SwarmEvent::Synthesized(Ok("again".into()))).is_empty());
    assert!(t.step(SwarmEvent::Spoke(Ok("again".into()))).is_empty());
}

#[test]
fn a_persona_that_fails_keeps_the_moderator_waiting() {
    let (mut t, _) = turn(&["A", "B"]);
    t.step(SwarmEvent::Spoke(Err("down".into())));
    let next = t.step(SwarmEvent::Spoke(Ok("said".into())));
    assert!(!next.iter().any(|a| matches!(a, SwarmAction::Moderate { .. })));
    assert_eq!(t.round, 2);
}
