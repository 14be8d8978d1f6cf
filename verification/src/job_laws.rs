//! What a client does with its research jobs and its swarm turns: what it
//! starts them with, what it shows and stores of them, and how they end.

use crate::backends::Backends;
use crate::effects::EffectView;
use crate::history::history;
use crate::pipeline::ResearchUpdate;
use crate::research::{rendered_plan, PlanQuestionView};
use crate::research_job::{highest, pending, replied, stopped, ReplyOutcome};
use crate::research_laws::every_question_is_rendered;
use crate::research_start::{
    ended_lines, job_begun, job_context, job_message, parent, recent_talk, research_refusal,
    start_rows, start_step, topic_step, turn_lines, ResearchStart, TopicStep,
};
use crate::research_updates::{
    acknowledged, artifact_in, asked_lines, file_failure, full_report, plan_prompt, staged,
    steer_number, survey_prompt, topic, update_step, JobParts, ResearchMsg, UpdateOutcome,
};
use crate::roundtable::SwarmUpdate;
use crate::state::{
    Catalog, Config, Conversation, Jobs, LoginPopup, ResearchState, Screen, SwarmState,
};
use crate::store::{Message, MessageView, Persona, PersonaView, Session};
use crate::swarm::{dashes_from, persona_in};
use crate::stages::stage_text;
use crate::swarm_session::{
    edited_roster, joined_roster, named_only, swarm_effects, swarm_step, swarm_stopped, turn_start,
    SwarmTurnOptions, TurnInputs, TurnParts,
};
use crate::text::{
    decimal, decimal_reads_back, first_chars, join, lines, opt_text, parse_number, trim, views,
};
use crate::text_laws::{
    blank, joined_parts_stand, stands_between, stands_first, stands_last, trimming_cuts_whitespace,
    within, within_carries,
};
use vstd::prelude::*;

verus! {

/// A report that came in is shown whole as the last row of its session, where
/// that is viewed, and stored there; elsewhere the session is marked. Nothing
/// else of the conversation changes.
pub proof fn a_report_is_shown_and_stored(
    before: JobParts,
    after: JobParts,
    effects: Seq<EffectView>,
    active_space: Seq<char>,
    m: ResearchMsg,
    o: UpdateOutcome,
    report: String,
)
    requires
        update_step(before, after, effects, active_space, Some(m), o),
        m.update == ResearchUpdate::Done(Ok(report)),
    ensures
        effects.len() > 0,
        effects[0] matches EffectView::AddMessage { session_id, role, content } && session_id
            == m.session_id@ && role == "assistant"@ && report@.is_suffix_of(content)
            && (o.changes is None ==> content == report@),
        before.talk.is_of(m.session_id@) ==> ({
            let rows = views(after.talk.messages@);
            &&& rows.len() > 0
            &&& rows.last().role == "assistant"@
            &&& report@.is_suffix_of(rows.last().content)
            &&& o.changes is None ==> rows.last().content == report@
            &&& after.talk.session == before.talk.session
        }),
        !before.talk.is_of(m.session_id@) ==> after.talk == before.talk
            && after.notices.unread@.contains(m.session_id@),
        after.jobs == before.jobs,
{
    let full = full_report(opt_text(o.changes), report@);
    assert(full.skip(full.len() - report@.len()) =~= report@);
    assert(effects[0] == (EffectView::AddMessage {
        session_id: m.session_id@,
        role: "assistant"@,
        content: full,
    }));
}

/// A report of a job that is not incognito is written to a file whole, under a
/// name that says what it is; an incognito job writes none.
pub proof fn a_report_is_written_whole(
    job: ResearchState,
    report: String,
    kept: bool,
    changes: Option<Seq<char>>,
    stamp: Seq<char>,
)
    ensures
        job.incognito ==> artifact_in(
            job,
            ResearchUpdate::Done(Ok(report)),
            kept,
            changes,
            stamp,
        ) is None,
        !job.incognito ==> (artifact_in(
            job,
            ResearchUpdate::Done(Ok(report)),
            kept,
            changes,
            stamp,
        ) matches Some((name, body)) && report@.is_suffix_of(body) && (changes matches Some(c)
            ==> c.is_prefix_of(body)) && "research-"@.is_prefix_of(name) && (stamp
            + ".md"@).is_suffix_of(name)),
{
    let full = full_report(changes, report@);
    assert(full.skip(full.len() - report@.len()) =~= report@);
    if let Some(c) = changes {
        assert(full.take(c.len() as int) =~= c);
    }
    let name = crate::research_updates::artifact_name("research"@, topic(job), stamp);
    reveal_strlit("research-");
    reveal_strlit("research");
    reveal_strlit("-");
    assert(name.take(9) =~= "research-"@);
    let end = stamp + ".md"@;
    assert(name.skip(name.len() - end.len()) =~= end);
}

/// A file that could not be written is told with the reason, unless the job
/// writes none.
pub proof fn an_unwritten_file_is_told(what: Seq<char>, e: String, path: String)
    ensures
        file_failure(false, what, Err(e)) matches Some(t) && e@.is_suffix_of(t) && within(what, t),
        file_failure(true, what, Err(e)) is None,
        file_failure(false, what, Ok(path)) is None,
{
    let t = "error — could not save "@ + what + ": "@ + e@;
    assert(t.skip(t.len() - e@.len()) =~= e@);
    assert(t =~= "error — could not save "@ + what + (": "@ + e@));
    stands_between("error — could not save "@, what, ": "@ + e@);
}

/// A job that failed tells the reason, in its session and on the screen.
pub proof fn a_failed_job_tells_why(
    before: JobParts,
    after: JobParts,
    effects: Seq<EffectView>,
    active_space: Seq<char>,
    m: ResearchMsg,
    o: UpdateOutcome,
    error: String,
)
    requires
        update_step(before, after, effects, active_space, Some(m), o),
        m.update == ResearchUpdate::Done(Err(error)),
    ensures
        effects.len() == 1,
        effects[0] matches EffectView::AddMessage { session_id, content, .. } && session_id
            == m.session_id@ && error@.is_suffix_of(content),
        error@.is_suffix_of(after.screen.status@),
        before.talk.is_of(m.session_id@) ==> views(after.talk.messages@).len() == views(
            before.talk.messages@,
        ).len() + 1 && views(after.talk.messages@).drop_last() == views(before.talk.messages@)
            && error@.is_suffix_of(views(after.talk.messages@).last().content),
        !before.talk.is_of(m.session_id@) ==> after.talk == before.talk,
{
    let words = "research failed: "@ + error@;
    assert(words.skip(words.len() - error@.len()) =~= error@);
    if before.talk.is_of(m.session_id@) {
        let rows = views(after.talk.messages@);
        assert(rows.drop_last() =~= views(before.talk.messages@));
    }
}

/// What a survey asks is shown whole: the topic, and every question with its
/// number.
pub proof fn a_survey_shows_every_question(
    topic: Seq<char>,
    questions: Seq<Seq<char>>,
    round: u8,
    i: int,
)
    requires
        0 <= i < questions.len(),
    ensures
        within(topic, survey_prompt(topic, questions, round)),
        within(
            decimal((i + 1) as nat) + ". "@ + questions[i],
            survey_prompt(topic, questions, round),
        ),
{
    let p = survey_prompt(topic, questions, round);
    let list = join(asked_lines(questions), "\n"@);
    let end = crate::research_updates::ANSWER_HINT@;
    let (a, b) = if round <= 1 {
        ("For \""@, "\":"@)
    } else {
        ("Follow-up (round "@ + decimal(round as nat) + " of 3) for \""@, "\":"@)
    };
    assert(p =~= a + topic + (b + "\n"@ + list + end));
    stands_between(a, topic, b + "\n"@ + list + end);
    assert(p =~= (a + topic + b + "\n"@) + list + end);
    stands_between(a + topic + b + "\n"@, list, end);
    asked_line_stands(questions, i);
    let line = asked_lines(questions)[i];
    joined_parts_stand(asked_lines(questions), "\n"@, i);
    let q = decimal((i + 1) as nat) + ". "@ + questions[i];
    assert(line =~= " "@ + q);
    stands_last(" "@, q);
    within_carries(q, line, list);
    within_carries(q, list, p);
}

proof fn asked_line_stands(questions: Seq<Seq<char>>, i: int)
    requires
        0 <= i < questions.len(),
    ensures
        asked_lines(questions).len() == questions.len(),
        asked_lines(questions)[i] == " "@ + decimal((i + 1) as nat) + ". "@ + questions[i],
    decreases questions.len(),
{
    if i < questions.len() - 1 {
        asked_line_stands(questions.drop_last(), i);
    } else if questions.len() > 1 {
        asked_line_stands(questions.drop_last(), 0);
    } else {
        assert(asked_lines(questions.drop_last()).len() == 0);
    }
}

/// A plan that awaits approval is shown whole.
pub proof fn a_plan_is_shown_whole(plan: Seq<PlanQuestionView>, rework: bool, i: int)
    requires
        0 <= i < plan.len(),
    ensures
        within(rendered_plan(plan), plan_prompt(plan, rework)),
        within(plan[i].question, plan_prompt(plan, rework)),
{
    let head = if rework {
        "Research plan (revised with your feedback) — reply \"approve\" to continue:"@
    } else {
        "Research plan — reply to approve, or tell me what to change (\"drop Q2\", \"also look into X\"):"@
    };
    stands_last(head + "\n"@, rendered_plan(plan));
    every_question_is_rendered(plan, i);
    within_carries(plan[i].question, rendered_plan(plan), plan_prompt(plan, rework));
}

/// A question to the user waits in its session, with what was asked;
/// there it shows as the last row, and elsewhere the session is marked.
pub proof fn a_question_waits_in_its_session(
    before: JobParts,
    after: JobParts,
    effects: Seq<EffectView>,
    active_space: Seq<char>,
    m: ResearchMsg,
    o: UpdateOutcome,
    questions: Vec<String>,
    round: u8,
)
    requires
        update_step(before, after, effects, active_space, Some(m), o),
        m.update == (ResearchUpdate::SurveyReady { questions, round }),
        before.job.reply_open,
        before.job.incognito || o.prompt_error is None,
    ensures
        ({
            let asked = survey_prompt(topic(before.job), crate::text::texts(questions@), round);
            &&& after.job.gate matches Some(g) && g.session_id@ == m.session_id@
                && g.prompt_content@ == asked && g.prompt_role@ == "survey"@
            &&& before.talk.is_of(m.session_id@) ==> views(after.talk.messages@).drop_last()
                == views(before.talk.messages@) && views(after.talk.messages@).len() == views(
                before.talk.messages@,
            ).len() + 1 && views(after.talk.messages@).last().content == asked
            &&& !before.talk.is_of(m.session_id@) ==> after.talk == before.talk
                && after.notices.unread@.contains(m.session_id@)
        }),
        after.jobs == before.jobs,
        effects.len() == 0,
{
    if before.talk.is_of(m.session_id@) {
        let rows = views(after.talk.messages@);
        assert(rows.drop_last() =~= views(before.talk.messages@));
    }
}

/// A question that could not be stored, or that nobody can answer, stops the
/// job.
pub proof fn a_question_without_an_answer_stops_the_job(
    before: JobParts,
    after: JobParts,
    effects: Seq<EffectView>,
    active_space: Seq<char>,
    m: ResearchMsg,
    o: UpdateOutcome,
)
    requires
        update_step(before, after, effects, active_space, Some(m), o),
        m.update is SurveyReady || m.update is PlanReady,
        before.jobs.research,
        !before.job.reply_open || (!before.job.incognito && o.prompt_error is Some),
    ensures
        !after.jobs.research,
        after.job.gate is None,
        after.job.running is None,
        after.talk == before.talk,
        effects.len() > 0 && effects[0] is AbortResearch,
{
}

/// The end of the channel of a job ends the job for the client: nothing of it
/// is left to wait for.
pub proof fn a_closed_job_leaves_nothing(
    before: JobParts,
    after: JobParts,
    effects: Seq<EffectView>,
    active_space: Seq<char>,
    o: UpdateOutcome,
)
    requires
        update_step(before, after, effects, active_space, None, o),
    ensures
        !after.jobs.research,
        after.job.running is None && after.job.gate is None,
        !after.job.reply_open && !after.job.steer_open,
        after.job.steer_log@.len() == 0 && after.job.steer_acked@.len() == 0,
        after.job.stage_rows@.len() == 0,
        after.talk == before.talk && after.notices == before.notices,
        effects.len() == 0,
{
}

/// Of the queued instructions those stay that were not taken up, in their
/// order.
pub proof fn only_what_was_taken_up_leaves_the_queue(
    log: Seq<(usize, String)>,
    acked: Seq<usize>,
    entry: (usize, String),
)
    ensures
        pending(Seq::empty(), acked).len() == 0,
        acked.contains(entry.0) ==> pending(log.push(entry), acked) == pending(log, acked),
        !acked.contains(entry.0) ==> pending(log.push(entry), acked) == pending(log, acked).push(
            entry,
        ),
{
    assert(log.push(entry).drop_last() =~= log);
}

/// A stage that names an instruction by its number takes that one up, and no
/// other: it leaves the queue, and the others stay.
pub proof fn a_numbered_stage_takes_one_up(
    before: ResearchState,
    after: ResearchState,
    n: usize,
)
    requires
        acknowledged(before, after, "steer #"@ + decimal(n as nat)),
    ensures
        after.steer_acked@.contains(n),
        forall|k: usize|
            after.steer_acked@.contains(k) ==> k == n || #[trigger] before.steer_acked@.contains(k),
        after.steer_log@ == pending(before.steer_log@, after.steer_acked@),
{
    let label = "steer #"@ + decimal(n as nat);
    decimal_reads_back(n as nat);
    let rest = label.skip("steer #"@.len() as int);
    assert(rest =~= decimal(n as nat));
    assert("steer #"@.is_prefix_of(label));
    let d = decimal(n as nat);
    assert(crate::text::is_digit(d[0]));
    assert(parse_number(rest, usize::MAX as nat) == Some(n as nat));
    let a = before.steer_acked@;
    let b = after.steer_acked@;
    assert(steer_number(label) == Some(n as nat));
    if !a.contains(n) {
        assert(b[a.len() as int] == n);
        assert forall|k: usize| b.contains(k) implies k == n || #[trigger] a.contains(k) by {
            let j = choose|j: int| 0 <= j < b.len() && b[j] == k;
            if j < a.len() {
                assert(a[j] == k);
            }
        }
    }
}

/// The highest number is at least that of every instruction.
pub proof fn the_highest_number_is_the_highest(
    log: Seq<(usize, String)>,
    acked: Seq<usize>,
    i: int,
    j: int,
)
    requires
        0 <= i < log.len() || 0 <= j < acked.len(),
    ensures
        0 <= i < log.len() ==> log[i].0 <= highest(log, acked),
        0 <= j < acked.len() ==> acked[j] <= highest(log, acked),
    decreases log.len() + acked.len(),
{
    if log.len() > 0 {
        if 0 <= i < log.len() - 1 || 0 <= j < acked.len() {
            the_highest_number_is_the_highest(log.drop_last(), acked, i, j);
        }
    } else if 0 <= j < acked.len() - 1 {
        the_highest_number_is_the_highest(log, acked.drop_last(), i, j);
    }
}

/// A job that is stopped runs no more, waits for nothing, and is aborted
/// outside; its session says so.
pub proof fn a_stopped_job_is_over(
    before: (ResearchState, Jobs, Screen),
    after: (ResearchState, Jobs, Screen),
    effects: Seq<EffectView>,
    status: Seq<char>,
)
    requires
        stopped(before, after, effects, status),
    ensures
        !after.1.research,
        after.0.gate is None,
        effects.len() > 0 && effects[0] is AbortResearch,
        before.1.research ==> after.0.running is None && !after.0.reply_open
            && !after.0.steer_open && after.0.steer_log@.len() == 0,
        before.1.research ==> (before.0.running matches Some(p) ==> effects.len() == 2 && (
        effects[1] matches EffectView::UpsertStage { session_id, .. } && session_id == p.0@)),
        after.2.status@ == status,
{
}

/// A reply that was delivered answers the question, and shows as a row where its
/// session is viewed and it says something.
pub proof fn a_delivered_reply_answers_the_question(
    before: (ResearchState, Conversation, Screen),
    after: (ResearchState, Conversation, Screen),
    text: Seq<char>,
    o: ReplyOutcome,
)
    requires
        replied(before, after, text, o),
        before.0.gate is Some,
        o.saved is Ok,
        o.delivered,
    ensures
        after.0.gate is None,
        !blank(text) && before.1.is_of(before.0.gate->0.session_id@) ==> views(
            after.1.messages@,
        ).len() == views(before.1.messages@).len() + 1 && views(after.1.messages@).drop_last()
            == views(before.1.messages@) && views(after.1.messages@).last().role == "gate_reply"@
            && views(after.1.messages@).last().content == text,
        blank(text) || !before.1.is_of(before.0.gate->0.session_id@) ==> views(after.1.messages@)
            == views(before.1.messages@),
        after.2.input == before.2.input,
{
    trimming_cuts_whitespace(text);
    if !blank(text) && before.1.is_of(before.0.gate->0.session_id@) {
        let rows = views(after.1.messages@);
        assert(rows.drop_last() =~= views(before.1.messages@));
    }
}

/// A reply that could not be saved is given back, and the question stays open.
pub proof fn an_unsaved_reply_is_given_back(
    before: (ResearchState, Conversation, Screen),
    after: (ResearchState, Conversation, Screen),
    text: Seq<char>,
    o: ReplyOutcome,
    e: String,
)
    requires
        replied(before, after, text, o),
        before.0.gate is Some,
        !before.0.incognito,
        !blank(text),
        o.saved == Err::<(), String>(e),
    ensures
        after.0 == before.0,
        after.1 == before.1,
        after.2.input@ == text,
        e@.is_suffix_of(after.2.status@),
{
    trimming_cuts_whitespace(text);
    let status = "couldn't save your reply — "@ + e@;
    assert(status.skip(status.len() - e@.len()) =~= e@);
}

/// A job is refused without a topic, without a model for research, and while
/// another runs, and for no other reason.
pub proof fn a_job_is_refused_for_a_reason(text: Seq<char>, config: Config, jobs: Jobs)
    ensures
        research_refusal(text, config, jobs) is Some <==> blank(text) || blank(
            config.research_model@,
        ) || jobs.research,
{
    trimming_cuts_whitespace(text);
    trimming_cuts_whitespace(config.research_model@);
}

/// A job that is taken researches the topic that was typed, with the model
/// that is set for it.
pub proof fn a_job_has_its_topic_and_model(
    backends: Backends,
    config: Config,
    jobs: Jobs,
    before: (LoginPopup, ResearchState, Screen),
    after: (LoginPopup, ResearchState, Screen),
    text: Seq<char>,
    r: ResearchStart,
)
    requires
        start_step(backends, config, jobs, before, after, text, r),
        !blank(text),
        !blank(config.research_model@),
        !jobs.research,
        backends.route(trim(config.research_model@)) is Some,
    ensures
        r matches ResearchStart::Create { topic: t, model, models, .. } && t@ == trim(text)
            && model@ == trim(config.research_model@) && backends.route(
            trim(config.research_model@),
        ) == Some((models.research.0, models.research.1@)),
        after.1.gate is None,
        after.2 == before.2,
{
    trimming_cuts_whitespace(text);
    trimming_cuts_whitespace(config.research_model@);
}

/// A job that began runs in its own session, which is the one that is viewed;
/// it can be steered, and replied to where it is gated.
pub proof fn a_job_runs_in_its_session(
    before: (ResearchState, Jobs, Conversation, Screen),
    after: (ResearchState, Jobs, Conversation, Screen),
    session: Session,
    messages: Vec<Message>,
    topic: Seq<char>,
    gated: bool,
    incognito: bool,
)
    requires
        job_begun(before, after, session, messages, topic, gated, incognito),
    ensures
        after.1.research,
        after.0.running matches Some(p) && p.0@ == session.id@ && p.1@ == topic,
        after.0.steer_open,
        gated ==> after.0.reply_open,
        after.0.incognito == incognito,
        after.0.steer_log@.len() == 0,
        after.0.stage_rows@.len() == 0,
        after.2.session == Some(session),
        after.2.messages == messages,
        within(topic, after.3.status@),
{
    stands_between("researching: "@, topic, " · Ctrl+↑ agents"@);
}

/// What a job is told of the chat that it comes from: the digest, and every
/// one of the lines.
pub proof fn a_job_knows_the_chat(summary: Option<Seq<char>>, tail: Seq<Seq<char>>, i: int)
    ensures
        summary matches Some(s) ==> within(s, job_context(summary, tail)),
        0 <= i < tail.len() ==> within(tail[i], job_context(summary, tail)),
{
    let c = job_context(summary, tail);
    let head = match summary {
        Some(s) => Seq::<char>::empty() + "Previous conversation summary:\n"@ + s,
        None => Seq::empty(),
    };
    if tail.len() > 0 {
        let lead = if head.len() > 0 { head + "\n\n"@ } else { head };
        let rest = "Recent messages:\n"@ + ended_lines(tail);
        assert(c =~= lead + rest);
        if 0 <= i < tail.len() {
            ended_line_stands(tail, i);
            stands_last(lead + "Recent messages:\n"@, ended_lines(tail));
            within_carries(tail[i], ended_lines(tail), c);
        }
        if let Some(s) = summary {
            reveal_strlit("Previous conversation summary:\n");
            assert(head.len() > 0);
            stands_last("Previous conversation summary:\n"@, s);
            assert(head =~= "Previous conversation summary:\n"@ + s);
            assert(c =~= head + ("\n\n"@ + rest));
            stands_first(head, "\n\n"@ + rest);
            within_carries(s, head, c);
        }
    } else if let Some(s) = summary {
        stands_last("Previous conversation summary:\n"@, s);
        assert(head =~= "Previous conversation summary:\n"@ + s);
    }
}

proof fn ended_line_stands(ls: Seq<Seq<char>>, i: int)
    requires
        0 <= i < ls.len(),
    ensures
        within(ls[i], ended_lines(ls)),
    decreases ls.len(),
{
    let before = ended_lines(ls.drop_last());
    if i == ls.len() - 1 {
        stands_between(before, ls.last(), "\n"@);
    } else {
        ended_line_stands(ls.drop_last(), i);
        assert(ended_lines(ls) =~= before + (ls.last() + "\n"@));
        stands_first(before, ls.last() + "\n"@);
        within_carries(ls[i], before, ended_lines(ls));
    }
}

/// The first row of a job's session asks for the topic; a chat that it comes
/// from is told along, and the two sessions link each other.
pub proof fn a_job_is_linked_to_its_chat(
    talk: Conversation,
    session_id: Seq<char>,
    topic: Seq<char>,
    parent_title: Option<Seq<char>>,
)
    ensures
        ({
            let rows = start_rows(talk, session_id, topic, parent_title);
            match parent(talk) {
                None => rows == seq![
                    EffectView::AddMessage {
                        session_id,
                        role: "user"@,
                        content: "/research "@ + topic,
                    },
                ],
                Some(pid) => {
                    &&& rows.len() == 4
                    &&& rows[0] == (EffectView::SetResearchParent { session_id, parent_id: pid })
                    &&& rows[1] matches EffectView::AddMessage { session_id: id, role, content }
                        && id == session_id && role == "user"@ && ("/research "@
                        + topic).is_prefix_of(content)
                    &&& rows[2] matches EffectView::AddMessage { session_id: id, role, content }
                        && id == pid && role == "session_link"@ && session_id.is_prefix_of(content)
                    &&& rows[3] matches EffectView::AddMessage { session_id: id, role, content }
                        && id == session_id && role == "session_link"@ && pid.is_prefix_of(
                        content,
                    )
                },
            }
        }),
{
    if let Some(pid) = parent(talk) {
        let told = crate::research_start::told(talk);
        let content = job_message(topic, told);
        let head = "/research "@ + topic;
        assert(content.take(head.len() as int) =~= head);
        let link = session_id + "\n🔗 Research session started for: "@ + topic;
        assert(link.take(session_id.len() as int) =~= session_id);
        let back = pid + "\n↩ Originally from: "@ + (match parent_title {
            Some(t) => t,
            None => "previous chat"@,
        });
        assert(back.take(pid.len() as int) =~= pid);
    }
}

/// What is told along of a chat stands in the first row of the job's session.
pub proof fn what_is_told_along_stands_in_the_row(topic: Seq<char>, context: Seq<char>)
    ensures
        within(topic, job_message(topic, context)),
        within(context, job_message(topic, context)),
{
    let m = job_message(topic, context);
    if context.len() == 0 {
        stands_last("/research "@, topic);
        assert(m =~= Seq::<char>::empty() + context + m);
        stands_between(Seq::empty(), context, m);
    } else {
        assert(m =~= "/research "@ + topic + ("\n\n"@ + context));
        stands_between("/research "@, topic, "\n\n"@ + context);
        stands_last("/research "@ + topic + "\n\n"@, context);
    }
}

/// What was said lately are the turns of the user and the assistant, in their
/// order and by their start, up to the last twenty.
pub proof fn lately_said_are_the_last_turns(rows: Seq<MessageView>, m: MessageView, n: int)
    ensures
        turn_lines(Seq::empty(), n).len() == 0,
        m.role == "user"@ || m.role == "assistant"@ ==> turn_lines(rows.push(m), n) == turn_lines(
            rows,
            n,
        ).push(m.role + ": "@ + first_chars(m.content, n)),
        m.role != "user"@ && m.role != "assistant"@ ==> turn_lines(rows.push(m), n) == turn_lines(
            rows,
            n,
        ),
        turn_lines(rows, 500).len() <= 20 ==> recent_talk(rows) == join(
            turn_lines(rows, 500),
            "\n"@,
        ),
        turn_lines(rows, 500).len() > 20 ==> recent_talk(rows) == join(
            turn_lines(rows, 500).skip(turn_lines(rows, 500).len() - 20),
            "\n"@,
        ),
{
    assert(rows.push(m).drop_last() =~= rows);
}

/// A topic that was derived is researched; without one the screen says why.
pub proof fn a_derived_topic_is_researched(
    before: Screen,
    after: Screen,
    t: String,
    r: TopicStep,
)
    requires
        topic_step(before, after, Some(Ok(t)), r),
    ensures
        t@.len() > 0 ==> r == TopicStep::Research(t) && after == before,
        t@.len() == 0 ==> r is Nothing,
{
}

/// A reply of a persona that was stored shows under its name, where the
/// session is viewed, behind what was said; it never becomes a plain row.
pub proof fn a_personas_reply_shows_under_its_name(
    before: (SwarmState, Jobs, Conversation, Screen),
    after: (SwarmState, Jobs, Conversation, Screen),
    effects: Seq<EffectView>,
    id: String,
    persona: String,
    model: String,
    content: String,
    stored: Seq<PersonaView>,
)
    requires
        swarm_step(
            before,
            after,
            effects,
            Some((id, SwarmUpdate::Reply { persona, model, content })),
            true,
            stored,
        ),
        before.2.is_of(id@),
    ensures
        ({
            let rows = views(after.2.messages@);
            &&& rows.len() == views(before.2.messages@).len() + 1
            &&& rows.drop_last() == views(before.2.messages@)
            &&& rows.last().role == "assistant"@
            &&& rows.last().content == content@
            &&& rows.last().persona == Some(persona@)
            &&& rows.last().model == Some(model@)
        }),
{
    let rows = views(after.2.messages@);
    assert(rows.drop_last() =~= views(before.2.messages@));
}

/// The reply that sums up a turn is stored with its session, and shows there
/// as the assistant's own, so that the next request carries it.
pub proof fn the_summary_is_the_assistants(
    before: (SwarmState, Jobs, Conversation, Screen),
    after: (SwarmState, Jobs, Conversation, Screen),
    effects: Seq<EffectView>,
    id: String,
    content: String,
    kept: bool,
    stored: Seq<PersonaView>,
)
    requires
        swarm_step(
            before,
            after,
            effects,
            Some((id, SwarmUpdate::Synthesis(content))),
            kept,
            stored,
        ),
    ensures
        effects.len() > 0,
        effects[0] == (EffectView::AddMessage {
            session_id: id@,
            role: "assistant"@,
            content: content@,
        }),
        before.2.is_of(id@) ==> ({
            let rows = views(after.2.messages@);
            &&& rows.len() == views(before.2.messages@).len() + 1
            &&& rows.drop_last() == views(before.2.messages@)
            &&& rows.last().role == "assistant"@ && rows.last().content == content@
            &&& rows.last().persona is None
            &&& effects.len() == 2 && effects[1] is FollowUp
        }),
        !before.2.is_of(id@) ==> after.2 == before.2 && effects.len() == 1,
{
    if before.2.is_of(id@) {
        let rows = views(after.2.messages@);
        assert(rows.drop_last() =~= views(before.2.messages@));
    }
}

/// A turn that failed tells why, where its session is viewed.
pub proof fn a_failed_turn_tells_why(
    before: (SwarmState, Jobs, Conversation, Screen),
    after: (SwarmState, Jobs, Conversation, Screen),
    effects: Seq<EffectView>,
    id: String,
    e: String,
    kept: bool,
    stored: Seq<PersonaView>,
)
    requires
        swarm_step(before, after, effects, Some((id, SwarmUpdate::Error(e))), kept, stored),
        before.2.is_of(id@),
    ensures
        ({
            let rows = views(after.2.messages@);
            &&& rows.len() == views(before.2.messages@).len() + 1
            &&& rows.drop_last() == views(before.2.messages@)
            &&& rows.last().role == "error"@
            &&& e@.is_suffix_of(rows.last().content)
        }),
{
    let rows = views(after.2.messages@);
    assert(rows.drop_last() =~= views(before.2.messages@));
    let s = "swarm: "@ + e@;
    assert(s.skip(s.len() - e@.len()) =~= e@);
}

/// The end of the channel of a turn ends the turn for the client.
pub proof fn a_closed_turn_is_over(
    before: (SwarmState, Jobs, Conversation, Screen),
    after: (SwarmState, Jobs, Conversation, Screen),
    effects: Seq<EffectView>,
    kept: bool,
    stored: Seq<PersonaView>,
)
    requires
        swarm_step(before, after, effects, None, kept, stored),
    ensures
        !after.1.swarm,
        after.0.session is None,
        after.0.cache == before.0.cache,
        after.2 == before.2,
        effects.len() == 0,
{
}

/// A persona that joins stands behind the others, unless its name is there.
pub proof fn a_persona_joins_behind_the_others(roster: Seq<PersonaView>, p: PersonaView)
    ensures
        (forall|i: int| 0 <= i < roster.len() ==> (#[trigger] roster[i]).name != p.name)
            ==> joined_roster(roster, p) == roster.push(p),
        (exists|i: int| 0 <= i < roster.len() && (#[trigger] roster[i]).name == p.name)
            ==> joined_roster(roster, p) == roster,
{
}

/// A turn answers the last row of the conversation, with the roster that is
/// stored, and carries the whole history to every persona.
pub proof fn a_turn_answers_what_was_said(
    backends: Backends,
    catalog: Catalog,
    research_model: Seq<char>,
    talk: Conversation,
    before: TurnParts,
    after: TurnParts,
    q: SwarmTurnOptions,
    i: TurnInputs,
)
    requires
        turn_start(backends, catalog, research_model, talk, before, after, Some(q), i),
        talk.messages@.len() > 0,
    ensures
        talk.session matches Some(s) && q.session_id@ == s.id@,
        q.user_message@ == views(talk.messages@).last().content,
        q.personas == i.personas,
        views(q.history@) == history(
            talk,
            before.skills,
            i.prompt@,
            match i.images {
                Some(m) => Some(m@),
                None => None,
            },
            catalog.sees_images(),
            i.body@,
            i.known@,
        ),
        after.jobs.swarm,
        after.skills.forced is None,
{
    assert(views(talk.messages@).len() > 0);
}

/// There is one turn at a time.
pub proof fn one_turn_at_a_time(
    backends: Backends,
    catalog: Catalog,
    research_model: Seq<char>,
    talk: Conversation,
    before: TurnParts,
    after: TurnParts,
    r: Option<SwarmTurnOptions>,
    i: TurnInputs,
)
    requires
        turn_start(backends, catalog, research_model, talk, before, after, r, i),
        before.jobs.swarm || talk.session is None,
    ensures
        r is None,
        after.jobs == before.jobs,
        after.swarm == before.swarm,
{
}

/// A turn that is stopped runs no more, and is aborted outside.
pub proof fn a_stopped_turn_is_over(
    before: (SwarmState, Jobs, Screen),
    after: (SwarmState, Jobs, Screen),
    effects: Seq<EffectView>,
)
    requires
        swarm_stopped(before, after, effects),
    ensures
        !after.1.swarm,
        effects.len() > 0 && effects[0] is AbortSwarm,
        before.1.swarm ==> after.0.session is None,
        after.0.cache == before.0.cache,
{
}

/// Personas without a name are not kept, and all others are, in their order.
pub proof fn named_personas_are_kept(roster: Seq<PersonaView>, p: PersonaView)
    ensures
        named_only(Seq::empty()).len() == 0,
        blank(p.name) ==> named_only(roster.push(p)) == named_only(roster),
        !blank(p.name) ==> named_only(roster.push(p)) == named_only(roster).push(p),
{
    trimming_cuts_whitespace(p.name);
    assert(roster.push(p).drop_last() =~= roster);
}

/// An edited persona takes the place of the one that was selected, and no
/// other changes; an edit that cannot be read leaves a named persona as it is.
pub proof fn an_edit_changes_one_persona(
    roster: Seq<PersonaView>,
    selected: int,
    text: Seq<char>,
    p: PersonaView,
)
    requires
        0 <= selected < roster.len(),
    ensures
        persona_in(text) == Ok::<PersonaView, Seq<char>>(p) ==> edited_roster(
            roster,
            selected,
            text,
        ) == roster.update(selected, p),
        persona_in(text) is Err && !blank(roster[selected].name) ==> edited_roster(
            roster,
            selected,
            text,
        ) == roster,
{
    trimming_cuts_whitespace(roster[selected].name);
}

/// A persona that joined is stored behind the stored ones, unless its name is
/// among them; a roster that was suggested is stored as it is.
pub proof fn a_joined_persona_is_stored(
    id: Seq<char>,
    p: Persona,
    v: Vec<Persona>,
    stored: Seq<PersonaView>,
)
    ensures
        (forall|i: int| 0 <= i < stored.len() ==> (#[trigger] stored[i]).name != p.name@)
            ==> swarm_effects(id, SwarmUpdate::PersonaJoined(p), stored) == seq![
            EffectView::SaveRoster { session_id: id, personas: stored.push(p@) },
        ],
        (exists|i: int| 0 <= i < stored.len() && (#[trigger] stored[i]).name == p.name@)
            ==> swarm_effects(id, SwarmUpdate::PersonaJoined(p), stored).len() == 0,
        swarm_effects(id, SwarmUpdate::RosterSuggested(v), stored) == seq![
            EffectView::SaveRoster { session_id: id, personas: views(v@) },
        ],
{
}

proof fn the_first_dashes(ls: Seq<Seq<char>>, i: int, k: int)
    requires
        0 <= i <= k < ls.len(),
        trim(ls[k]) == "---"@,
        forall|j: int| i <= j < k ==> trim(#[trigger] ls[j]) != "---"@,
    ensures
        dashes_from(ls, i) == Some(k),
    decreases k - i,
{
    if i < k {
        assert(trim(ls[i]) != "---"@);
        the_first_dashes(ls, i + 1, k);
    }
}

/// A persona is read as it was written: its name and its model from the first
/// two lines, and what it is like from all that stands behind the dashes.
pub proof fn a_persona_is_read_as_written(
    text: Seq<char>,
    name: Seq<char>,
    model: Seq<char>,
    k: int,
)
    requires
        2 <= k < lines(text).len(),
        lines(text)[0] == "name:"@ + name,
        lines(text)[1] == "model:"@ + model,
        trim(lines(text)[k]) == "---"@,
        forall|j: int| 2 <= j < k ==> trim(#[trigger] lines(text)[j]) != "---"@,
    ensures
        !blank(name) && !blank(model) ==> persona_in(text) == Ok::<PersonaView, Seq<char>>(
            PersonaView {
                name: trim(name),
                model: trim(model),
                blurb: trim(join(lines(text).skip(k + 1), "\n"@)),
            },
        ),
        blank(name) || blank(model) ==> persona_in(text) is Err,
{
    let ls = lines(text);
    trimming_cuts_whitespace(name);
    trimming_cuts_whitespace(model);
    assert(ls[0].skip("name:"@.len() as int) =~= name);
    assert(ls[0].take("name:"@.len() as int) =~= "name:"@);
    assert(ls[1].skip("model:"@.len() as int) =~= model);
    assert(ls[1].take("model:"@.len() as int) =~= "model:"@);
    the_first_dashes(ls, 2, k);
}

/// A stage of a job is stored with its session, and shows only where that is
/// viewed.
pub proof fn a_stage_shows_in_its_session(
    before: (ResearchState, Conversation, Screen),
    after: (ResearchState, Conversation, Screen),
    effects: Seq<EffectView>,
    session_id: Seq<char>,
    label: Seq<char>,
    detail: Seq<char>,
)
    requires
        staged(before, after, effects, session_id, label, detail),
    ensures
        effects == seq![EffectView::UpsertStage { session_id, label, detail }],
        !before.1.is_of(session_id) ==> after.1 == before.1 && after.2 == before.2,
        before.1.is_of(session_id) ==> within(stage_text(label, detail), after.2.status@)
            && after.1.session == before.1.session,
{
    stands_between("research: "@, stage_text(label, detail), " · Ctrl+↑ agents"@);
}

} // verus!
