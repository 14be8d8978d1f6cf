//! The texts of the research pipeline: what is asked, and how replies read.

use nexus_chat::research::{
    critic_messages, escalation_messages, parse_approval, parse_critique, parse_plan_blocks,
    parse_subquestions, parse_survey_reply, plan_approval_messages, plan_candidate, plan_text,
    planner_messages_with_context, strip_list_prefix, survey_messages, synthesizer_messages,
    verifier_messages, writer_messages, Approval, Critique, PlanQuestion, SurveyReply,
    MAX_SUBQUESTIONS, MAX_SURVEY_QUESTIONS, VERIFIER_PROMPT,
};
use serde_json::Value;

fn text_of(v: &Value, key: &str) -> Option<String> {
    match v.get(key) {
        None => Some(String::new()),
        Some(s) => s.as_str().map(|s| s.to_string()),
    }
}

fn texts_of(v: &Value, key: &str) -> Option<Vec<String>> {
    match v.get(key) {
        None => Some(Vec::new()),
        Some(list) => list.as_array()?.iter().map(|s| s.as_str().map(|s| s.to_string())).collect(),
    }
}

/// What the JSON part of a reply reads as a list of plan questions.
fn objects(text: &str) -> Option<Vec<PlanQuestion>> {
    let list: Value = serde_json::from_str(plan_candidate(text)?).ok()?;
    let mut out = Vec::new();
    for v in list.as_array()? {
        v.as_object()?;
        out.push(PlanQuestion {
            question: text_of(v, "question")?,
            why: text_of(v, "why")?,
            angles: texts_of(v, "angles")?,
            sources: texts_of(v, "sources")?,
        });
    }
    Some(out)
}

fn plan_blocks(text: &str) -> Vec<PlanQuestion> {
    parse_plan_blocks(text, &objects(text))
}

fn approval(text: &str) -> Approval {
    parse_approval(text, &objects(text))
}

fn list(items: &[&str]) -> Vec<String> {
    items.iter().map(|s| s.to_string()).collect()
}

#[test]
fn planner_messages_with_context_includes_known_chunks_as_gap_guidance() {
    let msgs = planner_messages_with_context(
        "rust async runtimes",
        &vec![],
        &vec!["Rust's async model uses a Future trait.".to_string()],
    );
    assert_eq!(msgs[0].role, "system");
    assert!(msgs[1].content.contains("rust async runtimes"));
    assert!(msgs[1].content.contains("Already known"));
    assert!(msgs[1].content.contains("Future trait"));
}

#[test]
fn planner_messages_with_context_falls_back_to_plain_prompt_when_empty() {
    let msgs = planner_messages_with_context("topic", &vec![], &vec![]);
    assert!(!msgs[1].content.contains("Already known"));
    assert_eq!(msgs[1].content, "topic");
}

#[test]
fn planner_messages_with_context_folds_user_answers_into_the_prompt() {
    let msgs = planner_messages_with_context(
        "topic",
        &vec![
            ("q1".to_string(), "depth first".to_string()),
            ("q2".to_string(), "current state only".to_string()),
        ],
        &vec![],
    );
    let user = &msgs[1].content;
    assert!(user.contains("answered clarifying questions"));
    assert!(user.contains("depth first"));
    assert!(user.contains("current state only"));
    assert!(user.contains("topic"));
}

#[test]
fn verifier_prompt_mentions_quote_checking() {
    assert!(VERIFIER_PROMPT.to_lowercase().contains("quote"));
}

#[test]
fn parse_plan_blocks_reads_json_objects_with_all_fields() {
    let qs = plan_blocks(
        r#"[{"question":"what is X","why":"definitions matter","angles":["a1","a2"],"sources":["s1","s2"]}]"#,
    );
    assert_eq!(qs.len(), 1);
    assert_eq!(qs[0].question, "what is X");
    assert_eq!(qs[0].why, "definitions matter");
    assert_eq!(qs[0].angles, vec!["a1".to_string(), "a2".to_string()]);
    assert_eq!(qs[0].sources, vec!["s1".to_string(), "s2".to_string()]);
}

#[test]
fn parse_plan_blocks_defaults_missing_fields_and_strips_fences() {
    let qs = plan_blocks("```json\n[{\"question\": \"what is X\"}]\n```");
    assert_eq!(qs.len(), 1);
    assert_eq!(qs[0].question, "what is X");
    assert!(qs[0].why.is_empty());
    assert!(qs[0].angles.is_empty());
    assert!(qs[0].sources.is_empty());
}

#[test]
fn parse_plan_blocks_falls_back_to_bare_questions_on_non_json() {
    let qs = plan_blocks("- what is X\n2. how does Y work");
    assert_eq!(qs.len(), 2);
    assert_eq!(qs[0].question, "what is X");
    assert!(qs[0].why.is_empty());
    assert_eq!(qs[1].question, "how does Y work");
}

#[test]
fn parse_plan_blocks_filters_empty_questions_and_caps_at_max() {
    let qs = plan_blocks(
        r#"[{"question":""},{"question":"q1"},{"question":"q2"},{"question":"q3"}]"#,
    );
    assert_eq!(qs.len(), 3);
    assert_eq!(qs[0].question, "q1");
    let lines: Vec<String> = (0..10).map(|i| format!("q{i}")).collect();
    assert_eq!(plan_blocks(&lines.join("\n")).len(), MAX_SUBQUESTIONS);
}

#[test]
fn parse_plan_blocks_rejects_malformed_json_without_line_fallback() {
    assert!(plan_blocks("[{}]").is_empty(), "[{{}}] must fail");
    assert!(plan_blocks(r#"[{"question":""}]"#).is_empty(), "empty questions must fail");
    assert!(plan_blocks(r#"[{"question": 5}]"#).is_empty(), "wrong field types must fail");
    assert!(
        plan_blocks(r#"{"question":"q1"}"#).is_empty(),
        "a bare object is not the required array and must fail"
    );
    assert_eq!(plan_blocks("- what is X").len(), 1);
    let prose = plan_blocks("Here is the plan:\n[{\"question\":\"q1\"}]");
    assert_eq!(prose.len(), 1, "prose-prefixed JSON must parse as JSON");
    assert_eq!(prose[0].question, "q1");
    let legacy = plan_blocks(r#"["what is X", "how does Y work"]"#);
    assert_eq!(legacy.len(), 2);
    assert_eq!(legacy[0].question, "what is X");
}

#[test]
fn parse_survey_reply_recognizes_complete_markers() {
    assert_eq!(parse_survey_reply("COMPLETE"), SurveyReply::Complete);
    assert_eq!(parse_survey_reply("  complete  "), SurveyReply::Complete);
    assert_eq!(parse_survey_reply("COMPLETE: I have enough"), SurveyReply::Complete);
    assert_eq!(parse_survey_reply("COMPLETE — proceed"), SurveyReply::Complete);
    assert_eq!(parse_survey_reply("COMPLETE."), SurveyReply::Complete);
    assert_eq!(parse_survey_reply("COMPLETE!"), SurveyReply::Complete);
}

#[test]
fn parse_survey_reply_reads_numbered_questions() {
    assert_eq!(
        parse_survey_reply("1. Depth or breadth?\n2. History too?"),
        SurveyReply::Questions(vec![
            "Depth or breadth?".to_string(),
            "History too?".to_string()
        ])
    );
    assert_eq!(
        parse_survey_reply("- just one angle"),
        SurveyReply::Questions(vec!["just one angle".to_string()])
    );
}

#[test]
fn parse_survey_reply_marks_output_contract_violations_and_caps_questions() {
    assert_eq!(parse_survey_reply(""), SurveyReply::Malformed);
    assert_eq!(parse_survey_reply("\n\n"), SurveyReply::Malformed);
    assert_eq!(
        parse_survey_reply("I couldn't understand your last answer, please retry"),
        SurveyReply::Malformed
    );
    assert_eq!(
        parse_survey_reply("The model encountered an error processing the request."),
        SurveyReply::Malformed
    );
    assert_eq!(parse_survey_reply("No further questions are needed"), SurveyReply::Malformed);
    assert_eq!(
        parse_survey_reply("Depth or breadth?"),
        SurveyReply::Questions(vec!["Depth or breadth?".to_string()])
    );
    let mixed = "1. Depth or breadth?\nPlease be specific.\n2. History too?";
    assert_eq!(
        parse_survey_reply(mixed),
        SurveyReply::Questions(vec![
            "Depth or breadth?".to_string(),
            "History too?".to_string()
        ])
    );
    let lines: Vec<String> = (0..8).map(|i| format!("{}. q{i}?", i + 1)).collect();
    match parse_survey_reply(&lines.join("\n")) {
        SurveyReply::Questions(qs) => assert_eq!(qs.len(), MAX_SURVEY_QUESTIONS),
        _ => panic!("expected questions"),
    }
}

#[test]
fn parse_approval_recognizes_approved_and_revised_plans() {
    assert_eq!(approval("APPROVED"), Approval::Approved);
    assert_eq!(approval("  approved  "), Approval::Approved);
    assert_eq!(approval("APPROVED: run it"), Approval::Approved);
    let revised = approval("[{\"question\": \"revised q\"}]");
    assert_eq!(revised, Approval::Revised(vec![PlanQuestion::bare("revised q".to_string())]));
    assert_eq!(approval("huh?"), Approval::Malformed);
    assert_eq!(approval(""), Approval::Malformed);
    assert_eq!(approval("Here is the revised plan I prepared for you"), Approval::Malformed);
    assert_eq!(approval("[{}]"), Approval::Malformed);
    assert_eq!(approval("[{\"question\": 5}]"), Approval::Malformed);
    assert_eq!(
        approval("Here is my revised plan:\n[{\"question\":\"q\"}]\n"),
        Approval::Revised(vec![PlanQuestion::bare("q".to_string())])
    );
    assert_eq!(
        approval("- drop q2"),
        Approval::Revised(vec![PlanQuestion::bare("drop q2".to_string())])
    );
}

#[test]
fn plan_question_prompt_includes_topic_and_full_brief() {
    let q = PlanQuestion {
        question: "how does X work".to_string(),
        why: "mechanism matters".to_string(),
        angles: vec!["internals".to_string(), "benchmarks".to_string()],
        sources: vec!["papers".to_string()],
    };
    let p = q.prompt("rust async");
    assert!(p.contains("rust async"));
    assert!(p.contains("how does X work"));
    assert!(p.contains("mechanism matters"));
    assert!(p.contains("internals; benchmarks"));
    assert!(p.contains("papers"));
    assert!(PlanQuestion::bare("q".into()).prompt("t").contains("q"));
}

#[test]
fn plan_text_renders_numbered_questions_with_indented_briefs() {
    let qs = vec![
        PlanQuestion::bare("q1".to_string()),
        PlanQuestion {
            question: "q2".to_string(),
            why: "why2".to_string(),
            angles: vec!["a".to_string()],
            sources: vec!["s".to_string()],
        },
    ];
    let t = plan_text(&qs);
    assert!(t.contains("1. q1"));
    assert!(t.contains("2. q2"));
    assert!(t.contains("\n   Why: why2"));
    assert!(t.contains("\n   Angles: a"));
    assert!(t.contains("\n   Sources: s"));
}

#[test]
fn survey_messages_include_topic_and_rounds() {
    let msgs = survey_messages("t", &vec![]);
    assert_eq!(msgs[0].role, "system");
    assert!(msgs[1].content.contains("t"));
    let msgs = survey_messages("t", &vec![("q".to_string(), "a".to_string())]);
    assert!(msgs[1].content.contains("q"));
    assert!(msgs[1].content.contains("a"));
}

#[test]
fn plan_approval_messages_include_plan_and_user_reply() {
    let msgs = plan_approval_messages("topic", &vec![PlanQuestion::bare("q1".to_string())], "drop q2");
    assert!(msgs[1].content.contains("topic"));
    assert!(msgs[1].content.contains("1. q1"));
    assert!(msgs[1].content.contains("drop q2"));
}

#[test]
fn parse_subquestions_reads_a_clean_json_array() {
    let qs = parse_subquestions(r#"["what is X", "how does Y work"]"#);
    assert_eq!(qs, list(&["what is X", "how does Y work"]));
}

#[test]
fn parse_subquestions_strips_markdown_fences() {
    let qs = parse_subquestions("```json\n[\"a\", \"b\"]\n```");
    assert_eq!(qs, list(&["a", "b"]));
}

#[test]
fn parse_subquestions_falls_back_to_bullet_lines() {
    let qs = parse_subquestions("- what is X\n- how does Y work\n* a third one");
    assert_eq!(qs, list(&["what is X", "how does Y work", "a third one"]));
}

#[test]
fn parse_subquestions_falls_back_to_numbered_lines() {
    let qs = parse_subquestions("1. what is X\n2) how does Y work");
    assert_eq!(qs, list(&["what is X", "how does Y work"]));
}

#[test]
fn parse_subquestions_caps_at_max() {
    let lines: Vec<String> = (0..10).map(|i| format!("- q{i}")).collect();
    let qs = parse_subquestions(&lines.join("\n"));
    assert_eq!(qs.len(), MAX_SUBQUESTIONS);
}

#[test]
fn parse_critique_recognizes_satisfied() {
    assert_eq!(parse_critique("SATISFIED"), Critique::Satisfied);
    assert_eq!(parse_critique("  satisfied  "), Critique::Satisfied);
}

#[test]
fn parse_critique_recognizes_gaps() {
    let c = parse_critique("GAPS:\n- what about pricing?\n- any recent incidents?");
    assert_eq!(
        c,
        Critique::Gaps(vec![
            "what about pricing?".to_string(),
            "any recent incidents?".to_string()
        ])
    );
}

#[test]
fn parse_critique_recognizes_contradiction() {
    let c = parse_critique("CONTRADICTION: source A says X, source B says not-X");
    assert_eq!(c, Critique::Contradiction("source A says X, source B says not-X".to_string()));
}

#[test]
fn parse_critique_falls_back_to_satisfied_on_garbage() {
    assert_eq!(parse_critique("uh, looks fine I guess?"), Critique::Satisfied);
    assert_eq!(parse_critique("GAPS:\n"), Critique::Satisfied);
}

#[test]
fn synthesizer_messages_includes_topic_and_all_findings() {
    let msgs = synthesizer_messages(
        "rust async runtimes",
        &vec!["finding one".to_string(), "finding two".to_string()],
        &vec![],
    );
    assert_eq!(msgs[0].role, "system");
    assert!(msgs[1].content.contains("rust async runtimes"));
    assert!(msgs[1].content.contains("finding one"));
    assert!(msgs[1].content.contains("finding two"));
}

#[test]
fn synthesizer_messages_lists_pinned_sources_when_present() {
    let msgs = synthesizer_messages(
        "topic",
        &vec!["finding one".to_string()],
        &vec!["https://a.example".to_string()],
    );
    let user = msgs.iter().find(|m| m.role == "user").unwrap();
    assert!(user.content.contains("https://a.example"), "{}", user.content);
    assert!(user.content.to_lowercase().contains("prioritize"), "{}", user.content);
}

#[test]
fn synthesizer_messages_omits_pinned_section_when_empty() {
    let msgs = synthesizer_messages("topic", &vec!["finding one".to_string()], &vec![]);
    let user = msgs.iter().find(|m| m.role == "user").unwrap();
    assert!(!user.content.to_lowercase().contains("prioritize"), "{}", user.content);
}

#[test]
fn critic_messages_includes_topic_and_draft() {
    let msgs = critic_messages("topic X", "draft text");
    assert!(msgs[1].content.contains("topic X"));
    assert!(msgs[1].content.contains("draft text"));
}

#[test]
fn escalation_messages_includes_contradiction_description() {
    let msgs = escalation_messages("t", "draft", &vec!["f1".to_string()], "A vs B");
    assert!(msgs[1].content.contains("A vs B"));
    assert!(msgs[1].content.contains("f1"));
}

#[test]
fn writer_messages_includes_verified_draft() {
    let msgs = writer_messages("t", "verified content", &vec![]);
    assert!(msgs[1].content.contains("verified content"));
}

#[test]
fn verifier_messages_include_draft_and_findings() {
    let msgs = verifier_messages("t", "a draft", &vec!["f1".to_string()]);
    assert_eq!(msgs.len(), 2);
    assert_eq!(msgs[0].content, VERIFIER_PROMPT);
    assert!(msgs[1].content.contains("a draft"));
    assert!(msgs[1].content.contains("f1"));
}

#[test]
fn list_prefixes_are_stripped_once() {
    assert_eq!(strip_list_prefix("- a"), "a");
    assert_eq!(strip_list_prefix("* b"), "b");
    assert_eq!(strip_list_prefix("12) c"), "c");
    assert_eq!(strip_list_prefix("3. d"), "d");
    assert_eq!(strip_list_prefix("e - f"), "e - f");
}

#[test]
fn error_lines_with_a_number_are_no_questions() {
    assert_eq!(parse_survey_reply("503 Service Unavailable"), SurveyReply::Malformed);
    assert_eq!(parse_survey_reply("429: too many requests"), SurveyReply::Malformed);
    assert_eq!(
        parse_survey_reply("3 or 4 weeks?"),
        SurveyReply::Questions(vec!["3 or 4 weeks?".to_string()])
    );
    assert_eq!(
        parse_survey_reply("12) depth\n* breadth"),
        SurveyReply::Questions(vec!["depth".to_string(), "breadth".to_string()])
    );
    assert_eq!(parse_survey_reply("12"), SurveyReply::Malformed);
    assert_eq!(approval("404 page not found"), Approval::Malformed);
    assert_eq!(approval("2024 was the year"), Approval::Malformed);
    assert_eq!(
        approval("1) only this"),
        Approval::Revised(vec![PlanQuestion::bare("only this".to_string())])
    );
}

#[test]
fn approval_may_have_prose_behind_it() {
    assert_eq!(approval("APPROVED, run it as is"), Approval::Approved);
    assert_eq!(approval("approved. Go."), Approval::Approved);
    assert_eq!(approval("APPROVED — proceed"), Approval::Approved);
    assert_eq!(approval("APPROVED\nthanks"), Approval::Approved);
    assert_eq!(approval("Approved with thanks"), Approval::Approved);
    assert_eq!(approval("APPROVEDLY so"), Approval::Malformed);
    assert_eq!(approval("not APPROVED"), Approval::Malformed);
}
