//! What the updates of a research job change, and what is kept of its plan and
//! its report.

use crate::app::App;
use crate::effects::{and_effects, no_effects, one_effect, Effect, EffectView};
use crate::naming::{slug, slugify};
use crate::pipeline::{concat, ResearchUpdate};
use crate::research::{plan_text, rendered_plan, PlanQuestion, PlanQuestionView};
use crate::research_job::{
    has_position, increasing, no_steers, pending, pending_increases, pending_of, stop_job, stopped,
};
use crate::stages::{note_stage, stage_content, stage_text, with_stage, with_stage_row};
use crate::state::{rows_are, says, Conversation, Jobs, Notices, ResearchState, Screen};
use crate::store::{plain_row, Message, MessageView, SurveyGate, SurveyGateView, SurveyPhase};
use crate::text::{
    after_prefix, copied, decimal, decimal_of, join, joined, number_in, parse_number, same, texts,
    texts_push, views,
};
use crate::ui::Popup;
use vstd::prelude::*;
use vstd::string::*;

verus! {

/// The position of the instruction that a stage row says was taken up.
pub open spec fn steer_number(label: Seq<char>) -> Option<nat> {
    if "steer #"@.is_prefix_of(label) {
        parse_number(label.skip("steer #"@.len() as int), usize::MAX as nat)
    } else {
        None
    }
}

/// The positions that were taken up, with one more.
pub open spec fn acked_with(acked: Seq<usize>, n: usize) -> Seq<usize> {
    if acked.contains(n) { acked } else { acked.push(n) }
}

/// What a stage row does to the instructions that wait: the one that it says
/// was taken up is not kept.
pub open spec fn acknowledged(before: ResearchState, after: ResearchState, label: Seq<char>) -> bool {
    match steer_number(label) {
        Some(n) => {
            &&& after.steer_acked@ == acked_with(before.steer_acked@, n as usize)
            &&& after.steer_log@ == pending(before.steer_log@, after.steer_acked@)
        },
        None => after.steer_acked == before.steer_acked && after.steer_log == before.steer_log,
    }
}

fn acknowledge(job: &mut ResearchState, label: &str)
    ensures
        *final(job) == (ResearchState {
            steer_log: final(job).steer_log,
            steer_acked: final(job).steer_acked,
            ..*old(job)
        }),
        acknowledged(*old(job), *final(job), label@),
{
    if let Some(rest) = after_prefix(label, "steer #") {
        if let Some(n) = number_in(rest, usize::MAX as u64) {
            let n: usize = n as usize;
            if !has_position(&job.steer_acked, n) {
                job.steer_acked.push(n);
            }
            job.steer_log = pending_of(&job.steer_log, &job.steer_acked);
        }
    }
}

/// Taking an instruction up keeps the others in their order.
pub proof fn taking_up_keeps_the_order(
    before: ResearchState,
    after: ResearchState,
    label: Seq<char>,
)
    requires
        acknowledged(before, after, label),
        increasing(before.steer_log@),
    ensures
        increasing(after.steer_log@),
{
    pending_increases(before.steer_log@, after.steer_acked@);
}

/// What the progress of a stage does to the stage rows of the job and to the
/// conversation, where its session is viewed.
pub open spec fn mirrored(
    before: (ResearchState, Conversation),
    after: (ResearchState, Conversation),
    session_id: Seq<char>,
    label: Seq<char>,
    detail: Seq<char>,
) -> bool {
    &&& after.0 == (ResearchState { stage_rows: after.0.stage_rows, ..before.0 })
    &&& texts(after.0.stage_rows@) == with_stage(texts(before.0.stage_rows@), label, detail)
    &&& if before.1.is_of(session_id) {
        rows_are(before.1, after.1, with_stage_row(views(before.1.messages@), label, detail))
    } else {
        after.1 == before.1
    }
}

/// What storing the progress of a stage asks for.
pub open spec fn stage_effect(session_id: Seq<char>, label: Seq<char>, detail: Seq<char>) -> EffectView {
    EffectView::UpsertStage { session_id, label, detail }
}

fn mirror_stage(
    job: &mut ResearchState,
    talk: &mut Conversation,
    session_id: &str,
    label: &str,
    detail: &str,
) -> (r: Effect)
    ensures
        mirrored(
            (*old(job), *old(talk)),
            (*final(job), *final(talk)),
            session_id@,
            label@,
            detail@,
        ),
        r@ == stage_effect(session_id@, label@, detail@),
{
    note_stage(&mut job.stage_rows, label, detail);
    if talk.views_session(session_id) {
        talk.show_stage(label, detail);
    }
    Effect::UpsertStage {
        session_id: session_id.to_owned(),
        label: label.to_owned(),
        detail: detail.to_owned(),
    }
}

/// What the progress of a stage of the job changes, and what it asks for.
pub open spec fn staged(
    before: (ResearchState, Conversation, Screen),
    after: (ResearchState, Conversation, Screen),
    effects: Seq<EffectView>,
    session_id: Seq<char>,
    label: Seq<char>,
    detail: Seq<char>,
) -> bool {
    &&& after.0 == (ResearchState {
        steer_log: after.0.steer_log,
        steer_acked: after.0.steer_acked,
        stage_rows: after.0.stage_rows,
        ..before.0
    })
    &&& acknowledged(before.0, after.0, label)
    &&& texts(after.0.stage_rows@) == with_stage(texts(before.0.stage_rows@), label, detail)
    &&& if before.1.is_of(session_id) {
        rows_are(before.1, after.1, with_stage_row(views(before.1.messages@), label, detail))
    } else {
        after.1 == before.1
    }
    &&& if before.1.is_of(session_id) {
        says(
            before.2,
            after.2,
            "research: "@ + stage_text(label, detail) + " · Ctrl+↑ agents"@,
        )
    } else {
        after.2 == before.2
    }
    &&& effects == seq![stage_effect(session_id, label, detail)]
}

fn take_stage(
    job: &mut ResearchState,
    talk: &mut Conversation,
    screen: &mut Screen,
    session_id: &str,
    label: &str,
    detail: &str,
) -> (r: Vec<Effect>)
    ensures
        staged(
            (*old(job), *old(talk), *old(screen)),
            (*final(job), *final(talk), *final(screen)),
            views(r@),
            session_id@,
            label@,
            detail@,
        ),
{
    acknowledge(job, label);
    let viewed = talk.views_session(session_id);
    let e = mirror_stage(job, talk, session_id, label, detail);
    if viewed {
        let mut s = "research: ".to_owned();
        s.append(stage_content(label, detail).as_str());
        s.append(" · Ctrl+↑ agents");
        screen.status = s;
    }
    one_effect(e)
}

/// The topic of the job that runs.
pub open spec fn topic(job: ResearchState) -> Seq<char> {
    match job.running {
        Some(p) => p.1@,
        None => Seq::empty(),
    }
}

fn topic_of(job: &ResearchState) -> (r: String)
    ensures
        r@ == topic(*job),
{
    match &job.running {
        Some((_, t)) => t.clone(),
        None => String::new(),
    }
}

/// Questions with their numbers.
pub open spec fn asked_lines(questions: Seq<Seq<char>>) -> Seq<Seq<char>>
    decreases questions.len(),
{
    if questions.len() == 0 {
        Seq::empty()
    } else {
        asked_lines(questions.drop_last()).push(
            " "@ + decimal(questions.len()) + ". "@ + questions.last(),
        )
    }
}

/// How the user is asked to answer.
pub const ANSWER_HINT: &'static str = "\n\nAnswer in chat — I may ask follow-ups (up to 3 rounds), then say \"I approve\". (Enter on an empty input skips ahead.)";

/// What the job asks the user in a round of the survey.
pub open spec fn survey_prompt(topic: Seq<char>, questions: Seq<Seq<char>>, round: u8) -> Seq<char> {
    (if round <= 1 {
        "For \""@ + topic + "\":"@
    } else {
        "Follow-up (round "@ + decimal(round as nat) + " of 3) for \""@ + topic + "\":"@
    }) + "\n"@ + join(asked_lines(questions), "\n"@) + ANSWER_HINT@
}

fn asked(questions: &Vec<String>) -> (r: String)
    ensures
        r@ == join(asked_lines(texts(questions@)), "\n"@),
{
    let ghost all = texts(questions@);
    let mut out: Vec<String> = Vec::new();
    let mut i: usize = 0;
    assert(all.take(0) =~= Seq::empty());
    assert(texts(out@) =~= Seq::empty());
    while i < questions.len()
        invariant
            i <= questions@.len(),
            all == texts(questions@),
            texts(out@) == asked_lines(all.take(i as int)),
        decreases questions@.len() - i,
    {
        proof {
            let t = all.take(i + 1);
            assert(t.drop_last() =~= all.take(i as int));
            assert(t.last() == questions@[i as int]@);
        }
        let mut line = " ".to_owned();
        line.append(decimal_of((i + 1) as u64).as_str());
        line.append(". ");
        line.append(questions[i].as_str());
        proof {
            texts_push(out@, line);
        }
        out.push(line);
        i += 1;
    }
    assert(all.take(i as int) =~= all);
    joined(&out, "\n")
}

fn survey_prompt_of(topic: &str, questions: &Vec<String>, round: u8) -> (r: String)
    ensures
        r@ == survey_prompt(topic@, texts(questions@), round),
{
    let mut s = if round <= 1 {
        let mut h = "For \"".to_owned();
        h.append(topic);
        h.append("\":");
        h
    } else {
        let mut h = "Follow-up (round ".to_owned();
        h.append(decimal_of(round as u64).as_str());
        h.append(" of 3) for \"");
        h.append(topic);
        h.append("\":");
        h
    };
    s.append("\n");
    s.append(asked(questions).as_str());
    s.append(ANSWER_HINT);
    s
}

/// What the job asks the user about a plan.
pub open spec fn plan_prompt(questions: Seq<PlanQuestionView>, rework: bool) -> Seq<char> {
    (if rework {
        "Research plan (revised with your feedback) — reply \"approve\" to continue:"@
    } else {
        "Research plan — reply to approve, or tell me what to change (\"drop Q2\", \"also look into X\"):"@
    }) + "\n"@ + rendered_plan(questions)
}

fn plan_prompt_of(questions: &Vec<PlanQuestion>, rework: bool) -> (r: String)
    ensures
        r@ == plan_prompt(views(questions@), rework),
{
    let mut s = if rework {
        "Research plan (revised with your feedback) — reply \"approve\" to continue:".to_owned()
    } else {
        "Research plan — reply to approve, or tell me what to change (\"drop Q2\", \"also look into X\"):".to_owned()
    };
    s.append("\n");
    s.append(plan_text(questions).as_str());
    s
}

/// What a job asks the user: the role of the row, its text, and what a reply
/// to it is.
pub struct Ask {
    pub role: String,
    pub content: String,
    pub phase: SurveyPhase,
}

/// What an update asks the user.
pub open spec fn ask_in(job: ResearchState, update: ResearchUpdate) -> Option<(
    Seq<char>,
    Seq<char>,
    SurveyPhase,
)> {
    match update {
        ResearchUpdate::SurveyReady { questions, round } => Some(
            (
                "survey"@,
                survey_prompt(topic(job), texts(questions@), round),
                SurveyPhase::Clarify { round },
            ),
        ),
        ResearchUpdate::PlanReady { questions, rework } => Some(
            (
                "research_plan"@,
                plan_prompt(views(questions@), rework),
                SurveyPhase::Approve { rework },
            ),
        ),
        _ => None,
    }
}

/// What an update asks the user.
pub fn ask_of(job: &ResearchState, update: &ResearchUpdate) -> (r: Option<Ask>)
    ensures
        match r {
            Some(a) => ask_in(*job, *update) == Some((a.role@, a.content@, a.phase)),
            None => ask_in(*job, *update) is None,
        },
{
    match update {
        ResearchUpdate::SurveyReady { questions, round } => Some(
            Ask {
                role: "survey".to_owned(),
                content: survey_prompt_of(topic_of(job).as_str(), questions, *round),
                phase: SurveyPhase::Clarify { round: *round },
            },
        ),
        ResearchUpdate::PlanReady { questions, rework } => Some(
            Ask {
                role: "research_plan".to_owned(),
                content: plan_prompt_of(questions, *rework),
                phase: SurveyPhase::Approve { rework: *rework },
            },
        ),
        _ => None,
    }
}

/// The row that is stored of what an update asks the user, its role and its
/// text: none for a job that began in incognito mode.
pub open spec fn prompt_stored(job: ResearchState, update: ResearchUpdate) -> Option<(
    Seq<char>,
    Seq<char>,
)> {
    match ask_in(job, update) {
        Some(ask) if !job.incognito => Some((ask.0, ask.1)),
        _ => None,
    }
}

/// The row that is to be stored of what an update asks the user, before the job
/// waits for a reply.
pub fn prompt_to_store(job: &ResearchState, update: &ResearchUpdate) -> (r: Option<
    (String, String),
>)
    ensures
        match r {
            Some(p) => prompt_stored(*job, *update) == Some((p.0@, p.1@)),
            None => prompt_stored(*job, *update) is None,
        },
{
    if job.incognito {
        return None;
    }
    match ask_of(job, update) {
        Some(ask) => Some((ask.role, ask.content)),
        None => None,
    }
}

/// The name of the file that keeps a plan or a report.
pub open spec fn artifact_name(prefix: Seq<char>, topic: Seq<char>, stamp: Seq<char>) -> Seq<char> {
    prefix + "-"@ + slug(topic) + "-"@ + stamp + ".md"@
}

/// A file of a space.
pub struct Artifact {
    pub name: String,
    pub body: String,
}

/// The report with what changed since the last run before it.
pub open spec fn full_report(changes: Option<Seq<char>>, report: Seq<char>) -> Seq<char> {
    match changes {
        Some(c) => c + "\n\n"@ + report,
        None => report,
    }
}

/// The file that keeps the plan or the report of an update: none for a job
/// that began in incognito mode, nor for a plan that nobody can approve or
/// whose prompt could not be stored.
pub open spec fn artifact_in(
    job: ResearchState,
    update: ResearchUpdate,
    prompt_kept: bool,
    changes: Option<Seq<char>>,
    stamp: Seq<char>,
) -> Option<(Seq<char>, Seq<char>)> {
    if job.incognito {
        None
    } else {
        match update {
            ResearchUpdate::PlanReady { questions, rework } if job.reply_open && prompt_kept => Some(
                (
                    artifact_name("plan"@, topic(job), stamp),
                    "# Research plan: "@ + topic(job) + "\n\n"@ + rendered_plan(views(questions@))
                        + "\n"@,
                ),
            ),
            ResearchUpdate::Done(Ok(report)) => Some(
                (artifact_name("research"@, topic(job), stamp), full_report(changes, report@)),
            ),
            _ => None,
        }
    }
}

fn artifact_name_of(prefix: &str, topic: &str, stamp: &str) -> (r: String)
    ensures
        r@ == artifact_name(prefix@, topic@, stamp@),
{
    let mut s = prefix.to_owned();
    s.append("-");
    s.append(slugify(topic).as_str());
    s.append("-");
    s.append(stamp);
    s.append(".md");
    s
}

fn full_report_of(changes: &Option<String>, report: &str) -> (r: String)
    ensures
        r@ == full_report(crate::text::opt_text(*changes), report@),
{
    match changes {
        Some(c) => {
            let mut s = c.clone();
            s.append("\n\n");
            s.append(report);
            s
        },
        None => report.to_owned(),
    }
}

/// The file that is to keep the plan or the report of an update. `prompt_kept`
/// says whether what `prompt_to_store` gives was stored, `changes` is what
/// changed since the last run, and `stamp` the time in the file's name.
pub fn artifact_of(
    job: &ResearchState,
    update: &ResearchUpdate,
    prompt_kept: bool,
    changes: &Option<String>,
    stamp: &str,
) -> (r: Option<Artifact>)
    ensures
        match r {
            Some(a) => artifact_in(
                *job,
                *update,
                prompt_kept,
                crate::text::opt_text(*changes),
                stamp@,
            ) == Some((a.name@, a.body@)),
            None => artifact_in(
                *job,
                *update,
                prompt_kept,
                crate::text::opt_text(*changes),
                stamp@,
            ) is None,
        },
{
    if job.incognito {
        return None;
    }
    let about = topic_of(job);
    match update {
        ResearchUpdate::PlanReady { questions, rework: _ } => {
            if !job.reply_open || !prompt_kept {
                return None;
            }
            let mut body = "# Research plan: ".to_owned();
            body.append(about.as_str());
            body.append("\n\n");
            body.append(plan_text(questions).as_str());
            body.append("\n");
            Some(Artifact { name: artifact_name_of("plan", about.as_str(), stamp), body })
        },
        ResearchUpdate::Done(Ok(report)) => Some(
            Artifact {
                name: artifact_name_of("research", about.as_str(), stamp),
                body: full_report_of(changes, report.as_str()),
            },
        ),
        _ => None,
    }
}

/// How the writes that go with an update came out: why the prompt (see
/// `prompt_to_store`) could not be stored; the name of the file that keeps the
/// plan or the report (see `artifact_of`), or why it could not be written; the sources that the report cites;
/// and what changed since the last run, for a topic that is watched.
pub struct UpdateOutcome {
    pub prompt_error: Option<String>,
    pub file: Result<String, String>,
    pub urls: Vec<String>,
    pub changes: Option<String>,
}

/// What the stage row says of a file that could not be written. A job that
/// began in incognito mode writes none.
pub open spec fn file_failure(incognito: bool, what: Seq<char>, file: Result<String, String>) -> Option<
    Seq<char>,
> {
    match file {
        Err(e) if !incognito => Some("error — could not save "@ + what + ": "@ + e@),
        _ => None,
    }
}

/// What a file asks for: the index of files brought up to date where the space
/// is active, or the failure stored.
pub open spec fn file_effects(
    incognito: bool,
    active: bool,
    session_id: Seq<char>,
    label: Seq<char>,
    what: Seq<char>,
    file: Result<String, String>,
) -> Seq<EffectView> {
    match file_failure(incognito, what, file) {
        Some(detail) => seq![stage_effect(session_id, label, detail)],
        None => if active && !incognito {
            seq![EffectView::RescanFiles]
        } else {
            Seq::empty()
        },
    }
}

/// The stage rows of the job once a file could not be written.
pub open spec fn failure_rows(
    rows: Seq<Seq<char>>,
    label: Seq<char>,
    failure: Option<Seq<char>>,
) -> Seq<Seq<char>> {
    match failure {
        Some(detail) => with_stage(rows, label, detail),
        None => rows,
    }
}

/// The rows of the conversation that is viewed once a file could not be
/// written.
pub open spec fn failure_shown(
    rows: Seq<MessageView>,
    label: Seq<char>,
    failure: Option<Seq<char>>,
) -> Seq<MessageView> {
    match failure {
        Some(detail) => with_stage_row(rows, label, detail),
        None => rows,
    }
}

fn take_file(
    job: &mut ResearchState,
    talk: &mut Conversation,
    active: bool,
    session_id: &str,
    label: &str,
    what: &str,
    file: &Result<String, String>,
) -> (r: Vec<Effect>)
    ensures
        *final(job) == (ResearchState { stage_rows: final(job).stage_rows, ..*old(job) }),
        texts(final(job).stage_rows@) == failure_rows(
            texts(old(job).stage_rows@),
            label@,
            file_failure(old(job).incognito, what@, *file),
        ),
        *final(talk) == (Conversation { messages: final(talk).messages, ..*old(talk) }),
        if old(talk).is_of(session_id@) {
            views(final(talk).messages@) == failure_shown(
                views(old(talk).messages@),
                label@,
                file_failure(old(job).incognito, what@, *file),
            )
        } else {
            *final(talk) == *old(talk)
        },
        views(r@) == file_effects(old(job).incognito, active, session_id@, label@, what@, *file),
{
    if job.incognito {
        return no_effects();
    }
    match file {
        Ok(_) => {
            if active {
                one_effect(Effect::RescanFiles)
            } else {
                no_effects()
            }
        },
        Err(e) => {
            let mut detail = "error — could not save ".to_owned();
            detail.append(what);
            detail.append(": ");
            detail.append(e.as_str());
            one_effect(mirror_stage(job, talk, session_id, label, detail.as_str()))
        },
    }
}

/// What the screen says once the job waits in the session that is viewed.
pub open spec fn gate_words_here(phase: SurveyPhase) -> Seq<char> {
    match phase {
        SurveyPhase::Clarify { round } => "survey round "@ + decimal(round as nat)
            + " — answer in chat · Ctrl+↑ agents"@,
        SurveyPhase::Approve { rework } => if rework {
            "revised plan ready — reply to approve"@
        } else {
            "research plan ready — reply to approve or change · Ctrl+↑ agents"@
        },
    }
}

/// What the screen says once the job waits in another session.
pub open spec fn gate_words_away(phase: SurveyPhase, topic: Seq<char>) -> Seq<char> {
    match phase {
        SurveyPhase::Clarify { round } => "research is waiting on you — survey round "@ + decimal(
            round as nat,
        ) + " for \""@ + topic + "\": open that session and answer in chat"@,
        SurveyPhase::Approve { rework } => "research is waiting on you — plan approval for \""@
            + topic + "\": open that session and reply \"approve\""@,
    }
}

fn gate_status_here(phase: SurveyPhase) -> (r: String)
    ensures
        r@ == gate_words_here(phase),
{
    match phase {
        SurveyPhase::Clarify { round } => {
            let mut s = "survey round ".to_owned();
            s.append(decimal_of(round as u64).as_str());
            s.append(" — answer in chat · Ctrl+↑ agents");
            s
        },
        SurveyPhase::Approve { rework } => {
            if rework {
                "revised plan ready — reply to approve".to_owned()
            } else {
                "research plan ready — reply to approve or change · Ctrl+↑ agents".to_owned()
            }
        },
    }
}

fn gate_status_away(phase: SurveyPhase, topic: &str) -> (r: String)
    ensures
        r@ == gate_words_away(phase, topic@),
{
    match phase {
        SurveyPhase::Clarify { round } => {
            let mut s = "research is waiting on you — survey round ".to_owned();
            s.append(decimal_of(round as u64).as_str());
            s.append(" for \"");
            s.append(topic);
            s.append("\": open that session and answer in chat");
            s
        },
        SurveyPhase::Approve { rework: _ } => {
            let mut s = "research is waiting on you — plan approval for \"".to_owned();
            s.append(topic);
            s.append("\": open that session and reply \"approve\"");
            s
        },
    }
}

/// What shows an update of the job: a row in the session that is viewed, after
/// the failure of its file, or the other session marked unread.
pub open spec fn announced(
    before: (Conversation, Screen, Notices),
    after: (Conversation, Screen, Notices),
    session_id: Seq<char>,
    label: Seq<char>,
    failure: Option<Seq<char>>,
    row: MessageView,
    here: Seq<char>,
    away: Option<Seq<char>>,
) -> bool {
    if before.0.is_of(session_id) {
        &&& rows_are(
            before.0,
            after.0,
            failure_shown(views(before.0.messages@), label, failure).push(row),
        )
        &&& says(before.1, after.1, here)
        &&& after.2 == before.2
    } else {
        &&& after.0 == before.0
        &&& match away {
            Some(words) => says(before.1, after.1, words),
            None => after.1 == before.1,
        }
        &&& after.2.list == before.2.list
        &&& after.2.unread.wf()
        &&& after.2.unread@ == before.2.unread@.insert(session_id)
    }
}

fn announce(
    talk: &mut Conversation,
    screen: &mut Screen,
    notices: &mut Notices,
    session_id: &str,
    row: Message,
    here: String,
    away: Option<String>,
)
    requires
        old(notices).unread.wf(),
    ensures
        announced(
            (*old(talk), *old(screen), *old(notices)),
            (*final(talk), *final(screen), *final(notices)),
            session_id@,
            Seq::empty(),
            None,
            row@,
            here@,
            crate::text::opt_text(away),
        ),
        final(notices).unread.wf(),
{
    if talk.views_session(session_id) {
        talk.add_row(row);
        screen.status = here;
    } else {
        notices.unread.insert(session_id.to_owned());
        if let Some(words) = away {
            screen.status = words;
        }
    }
}

/// The parts of the state that an update of the job changes.
pub struct JobParts {
    pub job: ResearchState,
    pub jobs: Jobs,
    pub talk: Conversation,
    pub screen: Screen,
    pub notices: Notices,
}

/// Whether the job was stopped because a gate could not be put up.
pub open spec fn gate_failed(
    before: JobParts,
    after: JobParts,
    effects: Seq<EffectView>,
    status: Seq<char>,
) -> bool {
    &&& after == (JobParts { job: after.job, jobs: after.jobs, screen: after.screen, ..before })
    &&& stopped(
        (before.job, before.jobs, before.screen),
        (after.job, after.jobs, after.screen),
        effects,
        status,
    )
}

/// The word for what is asked at a gate.
pub open spec fn gate_subject(phase: SurveyPhase) -> Seq<char> {
    match phase {
        SurveyPhase::Clarify { round } => "survey"@,
        SurveyPhase::Approve { rework } => "plan"@,
    }
}

/// What the screen says where no reply can come.
pub open spec fn no_reply_words(phase: SurveyPhase) -> Seq<char> {
    match phase {
        SurveyPhase::Clarify { round } =>
            "survey reply channel unavailable — research stopped"@,
        SurveyPhase::Approve { rework } =>
            "plan approval channel unavailable — research stopped"@,
    }
}

/// What an update that asks the user changes, and what it asks for. What is
/// asked is stored first, unless the job began in incognito mode; where that
/// fails, or no reply can come, the job is stopped. Otherwise the job waits,
/// and a plan is kept in a file too.
pub open spec fn gate_step(
    before: JobParts,
    after: JobParts,
    effects: Seq<EffectView>,
    session_id: Seq<char>,
    active: bool,
    ask: (Seq<char>, Seq<char>, SurveyPhase),
    o: UpdateOutcome,
) -> bool {
    let (role, content, phase) = ask;
    match o.prompt_error {
        Some(e) if !before.job.incognito => gate_failed(
            before,
            after,
            effects,
            "couldn't persist the "@ + gate_subject(phase) + " — research stopped: "@ + e@,
        ),
        _ => if !before.job.reply_open {
            gate_failed(before, after, effects, no_reply_words(phase))
        } else {
            let plan = phase is Approve;
            let failure = if plan {
                file_failure(before.job.incognito, "plan record"@, o.file)
            } else {
                None
            };
            &&& after.jobs == before.jobs
            &&& after.job == (ResearchState {
                gate: after.job.gate,
                stage_rows: after.job.stage_rows,
                ..before.job
            })
            &&& after.job.gate matches Some(g) && g@ == (SurveyGateView {
                session_id,
                phase,
                prompt_role: role,
                prompt_content: content,
            })
            &&& texts(after.job.stage_rows@) == failure_rows(
                texts(before.job.stage_rows@),
                "plan record"@,
                failure,
            )
            &&& announced(
                (before.talk, before.screen, before.notices),
                (after.talk, after.screen, after.notices),
                session_id,
                "plan record"@,
                failure,
                plain_row(role, content),
                gate_words_here(phase),
                Some(gate_words_away(phase, topic(before.job))),
            )
            &&& effects == (if plan {
                file_effects(
                    before.job.incognito,
                    active,
                    session_id,
                    "plan record"@,
                    "plan record"@,
                    o.file,
                )
            } else {
                Seq::<EffectView>::empty()
            })
        },
    }
}

fn refuse_gate(
    job: &mut ResearchState,
    jobs: &mut Jobs,
    screen: &mut Screen,
    phase: SurveyPhase,
    error: Option<&str>,
) -> (r: Vec<Effect>)
    ensures
        stopped(
            (*old(job), *old(jobs), *old(screen)),
            (*final(job), *final(jobs), *final(screen)),
            views(r@),
            match error {
                Some(e) => "couldn't persist the "@ + gate_subject(phase)
                    + " — research stopped: "@ + e@,
                None => no_reply_words(phase),
            },
        ),
{
    let status = match error {
        Some(e) => {
            let mut s = "couldn't persist the ".to_owned();
            match phase {
                SurveyPhase::Clarify { round: _ } => {
                    s.append("survey");
                },
                SurveyPhase::Approve { rework: _ } => {
                    s.append("plan");
                },
            }
            s.append(" — research stopped: ");
            s.append(e);
            s
        },
        None => match phase {
            SurveyPhase::Clarify { round: _ } =>
                "survey reply channel unavailable — research stopped".to_owned(),
            SurveyPhase::Approve { rework: _ } =>
                "plan approval channel unavailable — research stopped".to_owned(),
        },
    };
    stop_job(job, jobs, screen, status)
}

fn take_gate(
    job: &mut ResearchState,
    jobs: &mut Jobs,
    talk: &mut Conversation,
    screen: &mut Screen,
    notices: &mut Notices,
    session_id: &str,
    active: bool,
    ask: Ask,
    o: &UpdateOutcome,
) -> (r: Vec<Effect>)
    requires
        old(notices).unread.wf(),
    ensures
        gate_step(
            (JobParts {
                job: *old(job),
                jobs: *old(jobs),
                talk: *old(talk),
                screen: *old(screen),
                notices: *old(notices),
            }),
            (JobParts {
                job: *final(job),
                jobs: *final(jobs),
                talk: *final(talk),
                screen: *final(screen),
                notices: *final(notices),
            }),
            views(r@),
            session_id@,
            active,
            (ask.role@, ask.content@, ask.phase),
            *o,
        ),
        final(notices).unread.wf(),
{
    let phase = ask.phase;
    if let Some(e) = &o.prompt_error {
        if !job.incognito {
            return refuse_gate(job, jobs, screen, phase, Some(e.as_str()));
        }
    }
    if !job.reply_open {
        return refuse_gate(job, jobs, screen, phase, None);
    }
    let about = topic_of(job);
    job.gate =
    Some(
        SurveyGate {
            session_id: session_id.to_owned(),
            phase,
            prompt_role: ask.role.clone(),
            prompt_content: ask.content.clone(),
        },
    );
    let r = match phase {
        SurveyPhase::Approve { rework: _ } => take_file(
            job,
            talk,
            active,
            session_id,
            "plan record",
            "plan record",
            &o.file,
        ),
        SurveyPhase::Clarify { round: _ } => no_effects(),
    };
    let row = Message::plain(ask.role.as_str(), ask.content);
    announce(
        talk,
        screen,
        notices,
        session_id,
        row,
        gate_status_here(phase),
        Some(gate_status_away(phase, about.as_str())),
    );
    r
}

/// The row of a report.
pub open spec fn report_row(report: Seq<char>) -> MessageView {
    MessageView { phrase: Some("Researched"@), ..plain_row("assistant"@, report) }
}

/// What a report changes, and what it asks for: it is stored and kept in a
/// file, whose sources are indexed.
pub open spec fn report_step(
    before: JobParts,
    after: JobParts,
    effects: Seq<EffectView>,
    session_id: Seq<char>,
    space_id: Seq<char>,
    active: bool,
    report: Seq<char>,
    o: UpdateOutcome,
) -> bool {
    let full = full_report(crate::text::opt_text(o.changes), report);
    let failure = file_failure(before.job.incognito, "report file"@, o.file);
    &&& after.jobs == before.jobs
    &&& after.job == (ResearchState { stage_rows: after.job.stage_rows, ..before.job })
    &&& texts(after.job.stage_rows@) == failure_rows(
        texts(before.job.stage_rows@),
        "report file"@,
        failure,
    )
    &&& announced(
        (before.talk, before.screen, before.notices),
        (after.talk, after.screen, after.notices),
        session_id,
        "report file"@,
        failure,
        report_row(full),
        "research complete"@,
        match before.job.running {
            Some(p) => Some("✓ research ready: "@ + p.1@),
            None => None,
        },
    )
    &&& effects == seq![
        EffectView::AddMessage { session_id, role: "assistant"@, content: full },
    ] + file_effects(
        before.job.incognito,
        active,
        session_id,
        "report file"@,
        "report file"@,
        o.file,
    ) + citation_effects(before.job.incognito, space_id, o)
}

/// That the sources of a report are indexed, where it was kept and cites any.
pub open spec fn citation_effects(incognito: bool, space_id: Seq<char>, o: UpdateOutcome) -> Seq<
    EffectView,
> {
    match o.file {
        Ok(name) if !incognito && o.urls@.len() > 0 => seq![
            EffectView::IndexCitations { space_id, file: name@, urls: texts(o.urls@) },
        ],
        _ => Seq::empty(),
    }
}

fn cite(incognito: bool, space_id: &str, o: &UpdateOutcome) -> (r: Vec<Effect>)
    ensures
        views(r@) == citation_effects(incognito, space_id@, *o),
{
    match &o.file {
        Ok(name) if !incognito && o.urls.len() > 0 => one_effect(
            Effect::IndexCitations {
                space_id: space_id.to_owned(),
                file: name.clone(),
                urls: copied(&o.urls),
            },
        ),
        _ => no_effects(),
    }
}

fn take_report(
    job: &mut ResearchState,
    talk: &mut Conversation,
    screen: &mut Screen,
    notices: &mut Notices,
    session_id: &str,
    space_id: &str,
    active: bool,
    report: &str,
    o: &UpdateOutcome,
    Ghost(jobs): Ghost<Jobs>,
) -> (r: Vec<Effect>)
    requires
        old(notices).unread.wf(),
    ensures
        report_step(
            (JobParts {
                job: *old(job),
                jobs,
                talk: *old(talk),
                screen: *old(screen),
                notices: *old(notices),
            }),
            (JobParts {
                job: *final(job),
                jobs,
                talk: *final(talk),
                screen: *final(screen),
                notices: *final(notices),
            }),
            views(r@),
            session_id@,
            space_id@,
            active,
            report@,
            *o,
        ),
        final(notices).unread.wf(),
{
    let full = full_report_of(&o.changes, report);
    let first = one_effect(
        Effect::AddMessage {
            session_id: session_id.to_owned(),
            role: "assistant".to_owned(),
            content: full.clone(),
        },
    );
    let file = take_file(job, talk, active, session_id, "report file", "report file", &o.file);
    let mut row = Message::plain("assistant", full);
    row.phrase = Some("Researched".to_owned());
    let away = match &job.running {
        Some((_, t)) => Some(concat("✓ research ready: ", t.as_str())),
        None => None,
    };
    announce(talk, screen, notices, session_id, row, "research complete".to_owned(), away);
    and_effects(and_effects(first, file), cite(job.incognito, space_id, o))
}

/// What the failure of the job changes, and what it asks for.
pub open spec fn failure_step(
    before: JobParts,
    after: JobParts,
    effects: Seq<EffectView>,
    session_id: Seq<char>,
    error: Seq<char>,
) -> bool {
    let words = "research failed: "@ + error;
    &&& after == (JobParts { talk: after.talk, screen: after.screen, ..before })
    &&& if before.talk.is_of(session_id) {
        rows_are(
            before.talk,
            after.talk,
            views(before.talk.messages@).push(plain_row("assistant"@, words)),
        )
    } else {
        after.talk == before.talk
    }
    &&& says(before.screen, after.screen, words)
    &&& effects == seq![
        EffectView::AddMessage { session_id, role: "assistant"@, content: words },
    ]
}

fn take_failure(talk: &mut Conversation, screen: &mut Screen, session_id: &str, error: &str) -> (r:
    Vec<Effect>)
    ensures
        ({
            let words = "research failed: "@ + error@;
            &&& if old(talk).is_of(session_id@) {
                rows_are(
                    *old(talk),
                    *final(talk),
                    views(old(talk).messages@).push(plain_row("assistant"@, words)),
                )
            } else {
                *final(talk) == *old(talk)
            }
            &&& says(*old(screen), *final(screen), words)
            &&& views(r@) == seq![
                EffectView::AddMessage {
                    session_id: session_id@,
                    role: "assistant"@,
                    content: words,
                },
            ]
        }),
{
    let words = concat("research failed: ", error);
    if talk.views_session(session_id) {
        talk.add_row(Message::plain("assistant", words.clone()));
    }
    screen.status = words.clone();
    one_effect(
        Effect::AddMessage {
            session_id: session_id.to_owned(),
            role: "assistant".to_owned(),
            content: words,
        },
    )
}

/// What the end of the job changes.
pub open spec fn closed_step(before: JobParts, after: JobParts) -> bool {
    &&& after == (JobParts { job: after.job, jobs: after.jobs, screen: after.screen, ..before })
    &&& after.jobs == (Jobs { research: false, ..before.jobs })
    &&& after.job.running is None && after.job.gate is None && !after.job.reply_open
        && !after.job.steer_open && no_steers(after.job) && after.job.stage_rows@.len() == 0
        && !after.job.incognito && after.job.live_input@.len() == 0
    &&& after.screen == (Screen {
        popup: if before.screen.popup == Popup::ResearchLive {
            Popup::Closed
        } else {
            before.screen.popup
        },
        ..before.screen
    })
}

fn close_job(job: &mut ResearchState, jobs: &mut Jobs, screen: &mut Screen)
    ensures
        *final(jobs) == (Jobs { research: false, ..*old(jobs) }),
        final(job).running is None && final(job).gate is None && !final(job).reply_open
            && !final(job).steer_open && no_steers(*final(job)) && final(job).stage_rows@.len() == 0
            && !final(job).incognito && final(job).live_input@.len() == 0,
        *final(screen) == (Screen {
            popup: if old(screen).popup == Popup::ResearchLive {
                Popup::Closed
            } else {
                old(screen).popup
            },
            ..*old(screen)
        }),
{
    jobs.research = false;
    *job =
    ResearchState {
        running: None,
        gate: None,
        reply_open: false,
        steer_open: false,
        steer_log: Vec::new(),
        steer_acked: Vec::new(),
        stage_rows: Vec::new(),
        incognito: false,
        live_input: String::new(),
    };
    if screen.popup == Popup::ResearchLive {
        screen.popup = Popup::Closed;
    }
}

/// An update of the job, with the session and the space that it belongs to.
pub struct ResearchMsg {
    pub session_id: String,
    pub space_id: String,
    pub update: ResearchUpdate,
}

/// What an update of the job, or its end, changes and asks for.
pub open spec fn update_step(
    before: JobParts,
    after: JobParts,
    effects: Seq<EffectView>,
    active_space: Seq<char>,
    msg: Option<ResearchMsg>,
    o: UpdateOutcome,
) -> bool {
    match msg {
        None => closed_step(before, after) && effects == Seq::<EffectView>::empty(),
        Some(m) => {
            let id = m.session_id@;
            let active = m.space_id@ == active_space;
            match m.update {
                ResearchUpdate::Stage { label, detail } => {
                    &&& after == (JobParts {
                        job: after.job,
                        talk: after.talk,
                        screen: after.screen,
                        ..before
                    })
                    &&& staged(
                        (before.job, before.talk, before.screen),
                        (after.job, after.talk, after.screen),
                        effects,
                        id,
                        label@,
                        detail@,
                    )
                },
                ResearchUpdate::Done(Ok(report)) => report_step(
                    before,
                    after,
                    effects,
                    id,
                    m.space_id@,
                    active,
                    report@,
                    o,
                ),
                ResearchUpdate::Done(Err(e)) => failure_step(before, after, effects, id, e@),
                _ => gate_step(
                    before,
                    after,
                    effects,
                    id,
                    active,
                    ask_in(before.job, m.update)->0,
                    o,
                ),
            }
        },
    }
}

fn take_update(
    job: &mut ResearchState,
    jobs: &mut Jobs,
    talk: &mut Conversation,
    screen: &mut Screen,
    notices: &mut Notices,
    active_space: &str,
    msg: Option<ResearchMsg>,
    o: &UpdateOutcome,
) -> (r: Vec<Effect>)
    requires
        old(notices).unread.wf(),
    ensures
        update_step(
            (JobParts {
                job: *old(job),
                jobs: *old(jobs),
                talk: *old(talk),
                screen: *old(screen),
                notices: *old(notices),
            }),
            (JobParts {
                job: *final(job),
                jobs: *final(jobs),
                talk: *final(talk),
                screen: *final(screen),
                notices: *final(notices),
            }),
            views(r@),
            active_space@,
            msg,
            *o,
        ),
        final(notices).unread.wf(),
{
    let m = match msg {
        None => {
            close_job(job, jobs, screen);
            return no_effects();
        },
        Some(m) => m,
    };
    let id = m.session_id.as_str();
    let active = same(m.space_id.as_str(), active_space);
    match &m.update {
        ResearchUpdate::Stage { label, detail } => take_stage(
            job,
            talk,
            screen,
            id,
            label.as_str(),
            detail.as_str(),
        ),
        ResearchUpdate::Done(Ok(report)) => take_report(
            job,
            talk,
            screen,
            notices,
            id,
            m.space_id.as_str(),
            active,
            report.as_str(),
            o,
            Ghost(*jobs),
        ),
        ResearchUpdate::Done(Err(e)) => take_failure(talk, screen, id, e.as_str()),
        _ => match ask_of(job, &m.update) {
            Some(ask) => take_gate(job, jobs, talk, screen, notices, id, active, ask, o),
            None => no_effects(),
        },
    }
}

impl App {
    /// Takes an update of the research job, or its end. What the update needs
    /// stored or written before is in `o`, with how that came out.
    pub fn on_research_done(&mut self, msg: Option<ResearchMsg>, o: &UpdateOutcome) -> (r: Vec<
        Effect,
    >)
        requires
            old(self).wf(),
        ensures
            final(self).wf(),
            *final(self) == (App {
                research: final(self).research,
                jobs: final(self).jobs,
                talk: final(self).talk,
                screen: final(self).screen,
                notices: final(self).notices,
                ..*old(self)
            }),
            update_step(
                (JobParts {
                    job: old(self).research,
                    jobs: old(self).jobs,
                    talk: old(self).talk,
                    screen: old(self).screen,
                    notices: old(self).notices,
                }),
                (JobParts {
                    job: final(self).research,
                    jobs: final(self).jobs,
                    talk: final(self).talk,
                    screen: final(self).screen,
                    notices: final(self).notices,
                }),
                views(r@),
                old(self).active_space.id@,
                msg,
                *o,
            ),
    {
        take_update(
            &mut self.research,
            &mut self.jobs,
            &mut self.talk,
            &mut self.screen,
            &mut self.notices,
            self.active_space.id.as_str(),
            msg,
            o,
        )
    }
}

/// A job that began in incognito mode keeps neither its plan nor its report in
/// a file, and asks for no write of a file's sources or of the index. What it
/// asks the user is not stored: it is kept in memory alone, and nothing else is
/// asked for while it waits.
pub proof fn incognito_job_writes_no_file(
    before: JobParts,
    after: JobParts,
    effects: Seq<EffectView>,
    active_space: Seq<char>,
    m: ResearchMsg,
    o: UpdateOutcome,
    prompt_kept: bool,
    stamp: Seq<char>,
)
    requires
        before.job.incognito,
        update_step(before, after, effects, active_space, Some(m), o),
    ensures
        artifact_in(before.job, m.update, prompt_kept, crate::text::opt_text(o.changes), stamp)
            is None,
        prompt_stored(before.job, m.update) is None,
        match ask_in(before.job, m.update) {
            Some(ask) => before.job.reply_open ==> {
                &&& effects == Seq::<EffectView>::empty()
                &&& after.job.gate matches Some(g) && g.prompt_role@ == ask.0
                    && g.prompt_content@ == ask.1
            },
            None => true,
        },
        forall|i: int|
            0 <= i < effects.len() ==> !(#[trigger] effects[i] is RescanFiles) && !(
            effects[i] is IndexCitations),
{
}

/// What a job asks is stored before its gate is up, unless the job began in
/// incognito mode; and where no reply can come, no gate is put up.
pub proof fn gate_is_stored_first(
    before: JobParts,
    after: JobParts,
    effects: Seq<EffectView>,
    active_space: Seq<char>,
    msg: Option<ResearchMsg>,
    o: UpdateOutcome,
)
    requires
        update_step(before, after, effects, active_space, msg, o),
        before.job.gate is None,
        after.job.gate is Some,
    ensures
        before.job.reply_open,
        before.job.incognito || o.prompt_error is None,
{
}

} // verus!
