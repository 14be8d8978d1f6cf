//! The research pipeline as a state machine: a job takes one event at a time
//! and answers with what is to be done next.

use crate::provider::{request, ChatMessage, ChatMessageView};
use crate::research::{
    approval, approval_text, critic_messages, critique, duplicate_plan, escalation_messages,
    escalation_text, opt_plan, parse_approval, parse_critique, parse_plan_blocks,
    parse_survey_reply, plan_approval_messages, plan_blocks, planner_messages_with_context,
    planner_text, question_prompt, survey_messages, survey_reply, survey_text, synthesis_text,
    synthesizer_messages, verifier_messages, verifier_text, writer_messages, writer_text, Approval,
    ApprovalView, Critique, CritiqueView, PlanQuestion, PlanQuestionView, SurveyReply,
    SurveyReplyView, CRITIC_PROMPT, ESCALATION_PROMPT, MAX_SURVEY_ROUNDS, PLANNER_PROMPT,
    PLAN_APPROVAL_PROMPT, SURVEY_AGENT_PROMPT, SYNTHESIZER_PROMPT, VERIFIER_PROMPT, WRITER_PROMPT,
};
use crate::text::{
    chars_of, clipped, copied, decimal, decimal_of, first_chars, join, joined, pairs, texts,
    texts_push, trim, trimmed, views, views_push,
};
use vstd::prelude::*;
use vstd::string::*;

verus! {

/// What the pipeline tells the screens: the progress of a stage, questions
/// that await an answer, a plan that awaits approval, or the outcome.
#[allow(inconsistent_fields)]
pub enum ResearchUpdate {
    Stage { label: String, detail: String },
    SurveyReady { questions: Vec<String>, round: u8 },
    PlanReady { questions: Vec<PlanQuestion>, rework: bool },
    Done(Result<String, String>),
}

/// What a `ResearchUpdate` stands for.
#[allow(inconsistent_fields)]
pub enum ResearchUpdateView {
    Stage { label: Seq<char>, detail: Seq<char> },
    SurveyReady { questions: Seq<Seq<char>>, round: u8 },
    PlanReady { questions: Seq<PlanQuestionView>, rework: bool },
    Done(Result<Seq<char>, Seq<char>>),
}

/// What the outcome of a call stands for.
pub open spec fn outcome(r: Result<String, String>) -> Result<Seq<char>, Seq<char>> {
    match r {
        Ok(s) => Ok(s@),
        Err(e) => Err(e@),
    }
}

impl View for ResearchUpdate {
    type V = ResearchUpdateView;

    open spec fn view(&self) -> ResearchUpdateView {
        match *self {
            ResearchUpdate::Stage { label, detail } => ResearchUpdateView::Stage {
                label: label@,
                detail: detail@,
            },
            ResearchUpdate::SurveyReady { questions, round } => ResearchUpdateView::SurveyReady {
                questions: texts(questions@),
                round,
            },
            ResearchUpdate::PlanReady { questions, rework } => ResearchUpdateView::PlanReady {
                questions: views(questions@),
                rework,
            },
            ResearchUpdate::Done(r) => ResearchUpdateView::Done(outcome(r)),
        }
    }
}

/// What is to be done next.
pub enum ResearchAction {
    /// Pass the update on to the screens.
    Update(ResearchUpdate),
    /// Start gathering local excerpts and a web survey on this question.
    Gather { survey_question: String },
    /// Wait for the gathering: answered by `Gathered`.
    JoinGather,
    /// Ask a model: answered by `Reply`. Contradictions go to the stronger one.
    Ask { escalate: bool, messages: Vec<ChatMessage> },
    /// Wait for the user: answered by `UserReply`.
    AwaitUser,
    /// Read the pinned sources of the session: answered by `Pinned`.
    ReadPinned,
    /// Run one searcher per (prompt, label): answered by `Found`.
    Search { batch: String, items: Vec<(String, String)> },
    /// Link the sources that these findings cite to the session.
    Persist { findings: Vec<String> },
    /// Take what the user queued meanwhile: answered by `Steers`.
    DrainSteers,
    /// Merge the source lines of these findings: answered by `Deduped`.
    Dedup { findings: Vec<String> },
    /// Run the verifier: answered by `Verified`.
    Verify { messages: Vec<ChatMessage> },
}

/// What a `ResearchAction` stands for.
pub enum ResearchActionView {
    Update(ResearchUpdateView),
    Gather { survey_question: Seq<char> },
    JoinGather,
    Ask { escalate: bool, messages: Seq<ChatMessageView> },
    AwaitUser,
    ReadPinned,
    Search { batch: Seq<char>, items: Seq<(Seq<char>, Seq<char>)> },
    Persist { findings: Seq<Seq<char>> },
    DrainSteers,
    Dedup { findings: Seq<Seq<char>> },
    Verify { messages: Seq<ChatMessageView> },
}

impl View for ResearchAction {
    type V = ResearchActionView;

    open spec fn view(&self) -> ResearchActionView {
        match *self {
            ResearchAction::Update(u) => ResearchActionView::Update(u@),
            ResearchAction::Gather { survey_question } => ResearchActionView::Gather {
                survey_question: survey_question@,
            },
            ResearchAction::JoinGather => ResearchActionView::JoinGather,
            ResearchAction::Ask { escalate, messages } => ResearchActionView::Ask {
                escalate,
                messages: views(messages@),
            },
            ResearchAction::AwaitUser => ResearchActionView::AwaitUser,
            ResearchAction::ReadPinned => ResearchActionView::ReadPinned,
            ResearchAction::Search { batch, items } => ResearchActionView::Search {
                batch: batch@,
                items: pairs(items@),
            },
            ResearchAction::Persist { findings } => ResearchActionView::Persist {
                findings: texts(findings@),
            },
            ResearchAction::DrainSteers => ResearchActionView::DrainSteers,
            ResearchAction::Dedup { findings } => ResearchActionView::Dedup {
                findings: texts(findings@),
            },
            ResearchAction::Verify { messages } => ResearchActionView::Verify {
                messages: views(messages@),
            },
        }
    }
}

/// Why the gathering ended without a result.
pub struct GatherFailure {
    pub panicked: bool,
    pub error: String,
}

/// What came back from the outside.
pub enum ResearchEvent {
    /// A model's reply. Where a plan was asked for, `objects` is what the
    /// reply's JSON part reads as a list of plan questions.
    Reply { result: Result<String, String>, objects: Option<Vec<PlanQuestion>> },
    /// The user's reply, or `None` where no reply can come any more.
    UserReply(Option<String>),
    /// Local excerpts and the web survey.
    Gathered(Result<(Vec<String>, String), GatherFailure>),
    Pinned(Vec<String>),
    Found(Vec<String>),
    Steers(Vec<String>),
    Deduped(Vec<String>),
    Verified(String),
}

/// What a `ResearchEvent` stands for.
pub enum ResearchEventView {
    Reply { result: Result<Seq<char>, Seq<char>>, objects: Option<Seq<PlanQuestionView>> },
    UserReply(Option<Seq<char>>),
    Gathered(Result<(Seq<Seq<char>>, Seq<char>), (bool, Seq<char>)>),
    Pinned(Seq<Seq<char>>),
    Found(Seq<Seq<char>>),
    Steers(Seq<Seq<char>>),
    Deduped(Seq<Seq<char>>),
    Verified(Seq<char>),
}

impl View for ResearchEvent {
    type V = ResearchEventView;

    open spec fn view(&self) -> ResearchEventView {
        match *self {
            ResearchEvent::Reply { result, objects } => ResearchEventView::Reply {
                result: outcome(result),
                objects: opt_plan(objects),
            },
            ResearchEvent::UserReply(r) => ResearchEventView::UserReply(
                match r {
                    Some(s) => Some(s@),
                    None => None,
                },
            ),
            ResearchEvent::Gathered(r) => ResearchEventView::Gathered(
                match r {
                    Ok(p) => Ok((texts(p.0@), p.1@)),
                    Err(e) => Err((e.panicked, e.error@)),
                },
            ),
            ResearchEvent::Pinned(v) => ResearchEventView::Pinned(texts(v@)),
            ResearchEvent::Found(v) => ResearchEventView::Found(texts(v@)),
            ResearchEvent::Steers(v) => ResearchEventView::Steers(texts(v@)),
            ResearchEvent::Deduped(v) => ResearchEventView::Deduped(texts(v@)),
            ResearchEvent::Verified(s) => ResearchEventView::Verified(s@),
        }
    }
}

/// What the job waits for. The stages that a second round repeats come in a
/// first and a second form.
#[derive(Clone, Copy, PartialEq, Eq, Structural)]
pub enum ResearchPhase {
    /// The scoping agent's questions.
    Scoping,
    /// The user's answer to them.
    Answering,
    /// The gathered context.
    Gathering,
    /// The planner's plan.
    Planning,
    /// The user's word on the plan.
    Approving,
    /// The approval agent's reading of that word.
    Judging,
    /// The pinned sources.
    Pinning,
    /// The findings of a round of searchers.
    Searching { second: bool },
    /// What the user queued during the round.
    Draining { second: bool },
    /// The findings on what the user queued.
    Steering { second: bool },
    /// The findings with their source lines merged.
    Merging { second: bool },
    /// The draft.
    Synthesizing { second: bool },
    /// The critic's verdict.
    Criticizing { second: bool },
    /// The paragraph that settles a contradiction.
    Resolving,
    /// The verified draft.
    Verifying,
    /// The report.
    Writing,
    /// Nothing: the outcome was told.
    Finished,
}

/// One research job.
pub struct ResearchJob {
    pub topic: String,
    /// Whether the user is surveyed and has to approve the plan.
    pub gated: bool,
    pub phase: ResearchPhase,
    /// The survey rounds so far: what was asked, and the answer.
    pub answers: Vec<(String, String)>,
    /// The number of the survey round, from one.
    pub round: u8,
    /// The questions that the user is asked now.
    pub asked: Vec<String>,
    pub web_survey: String,
    pub questions: Vec<PlanQuestion>,
    /// Whether the plan shown is one that was revised already.
    pub rework: bool,
    pub pinned: Vec<String>,
    pub findings: Vec<String>,
    /// How many instructions of the user were taken up so far.
    pub steer_seq: usize,
    pub draft: String,
}

/// What a `ResearchJob` stands for.
#[verifier::ext_equal]
pub struct ResearchJobView {
    pub topic: Seq<char>,
    pub gated: bool,
    pub phase: ResearchPhase,
    pub answers: Seq<(Seq<char>, Seq<char>)>,
    pub round: u8,
    pub asked: Seq<Seq<char>>,
    pub web_survey: Seq<char>,
    pub questions: Seq<PlanQuestionView>,
    pub rework: bool,
    pub pinned: Seq<Seq<char>>,
    pub findings: Seq<Seq<char>>,
    pub steer_seq: usize,
    pub draft: Seq<char>,
}

impl View for ResearchJob {
    type V = ResearchJobView;

    open spec fn view(&self) -> ResearchJobView {
        ResearchJobView {
            topic: self.topic@,
            gated: self.gated,
            phase: self.phase,
            answers: pairs(self.answers@),
            round: self.round,
            asked: texts(self.asked@),
            web_survey: self.web_survey@,
            questions: views(self.questions@),
            rework: self.rework,
            pinned: texts(self.pinned@),
            findings: texts(self.findings@),
            steer_seq: self.steer_seq,
            draft: self.draft@,
        }
    }
}

/// A new state and what is to be done.
pub type Transition = (ResearchJobView, Seq<ResearchActionView>);

/// The update on the progress of a stage.
pub open spec fn stage_update(label: Seq<char>, detail: Seq<char>) -> ResearchActionView {
    ResearchActionView::Update(ResearchUpdateView::Stage { label, detail })
}

/// The update on the outcome.
pub open spec fn done_update(r: Result<Seq<char>, Seq<char>>) -> ResearchActionView {
    ResearchActionView::Update(ResearchUpdateView::Done(r))
}

/// The question to a model.
pub open spec fn ask_action(escalate: bool, system: Seq<char>, user: Seq<char>) -> ResearchActionView {
    ResearchActionView::Ask { escalate, messages: request(system, user) }
}

pub open spec fn in_phase(s: ResearchJobView, phase: ResearchPhase) -> ResearchJobView {
    ResearchJobView { phase, ..s }
}

/// The job fails.
pub open spec fn failed(s: ResearchJobView, e: Seq<char>) -> Transition {
    (in_phase(s, ResearchPhase::Finished), seq![done_update(Err(e))])
}

/// The job fails, and its stage shows why.
pub open spec fn failed_in(s: ResearchJobView, label: Seq<char>, e: Seq<char>) -> Transition {
    (
        in_phase(s, ResearchPhase::Finished),
        seq![stage_update(label, "error — "@ + e), done_update(Err(e))],
    )
}

/// What the web survey asks.
pub open spec fn survey_question(topic: Seq<char>) -> Seq<char> {
    "Conduct a broad preliminary survey of this research topic before planning: "@ + topic
        + ". Identify the major concepts, current debates, useful source types, and important evidence gaps."@
}

/// The first state of a job and what it does first.
pub open spec fn started(topic: Seq<char>, gated: bool) -> Transition {
    let s = ResearchJobView {
        topic,
        gated,
        phase: if gated { ResearchPhase::Scoping } else { ResearchPhase::Gathering },
        answers: Seq::empty(),
        round: 1,
        asked: Seq::empty(),
        web_survey: Seq::empty(),
        questions: Seq::empty(),
        rework: false,
        pinned: Seq::empty(),
        findings: Seq::empty(),
        steer_seq: 0,
        draft: Seq::empty(),
    };
    let gathering = seq![
        stage_update(
            "web survey"@,
            "working — mapping the topic, debates, evidence, and source landscape"@,
        ),
        ResearchActionView::Gather { survey_question: survey_question(topic) },
    ];
    if gated {
        (
            s,
            gathering.push(
                ask_action(false, SURVEY_AGENT_PROMPT@, survey_text(topic, Seq::empty())),
            ),
        )
    } else {
        (s, gathering.push(ResearchActionView::JoinGather))
    }
}

/// The survey ends: the gathered context is next.
pub open spec fn survey_over(s: ResearchJobView) -> Transition {
    (in_phase(s, ResearchPhase::Gathering), seq![ResearchActionView::JoinGather])
}

/// The scoping agent replied.
pub open spec fn scoped(s: ResearchJobView, r: Result<Seq<char>, Seq<char>>) -> Transition {
    match r {
        Err(e) => {
            let head = if s.answers.len() == 0 {
                "survey agent failed: "@
            } else {
                "survey follow-up failed: "@
            };
            failed_in(s, "survey"@, head + e)
        },
        Ok(text) => match survey_reply(trim(text)) {
            SurveyReplyView::Complete => survey_over(s),
            SurveyReplyView::Malformed => failed_in(
                s,
                "survey"@,
                "survey agent returned unusable output (raw reply: "@ + first_chars(
                    trim(text),
                    200,
                ) + ")"@,
            ),
            SurveyReplyView::Questions(qs) => if s.round > MAX_SURVEY_ROUNDS {
                survey_over(s)
            } else {
                (
                    ResearchJobView { phase: ResearchPhase::Answering, asked: qs, ..s },
                    seq![
                        ResearchActionView::Update(
                            ResearchUpdateView::SurveyReady { questions: qs, round: s.round },
                        ),
                        ResearchActionView::AwaitUser,
                    ],
                )
            },
        },
    }
}

/// The user answered the questions of a survey round.
pub open spec fn answered(s: ResearchJobView, r: Option<Seq<char>>) -> Transition {
    match r {
        None => failed_in(s, "survey"@, "survey cancelled — the reply channel closed"@),
        Some(text) => if trim(text).len() == 0 {
            survey_over(s)
        } else {
            let t = ResearchJobView {
                answers: s.answers.push((join(s.asked, "\n"@), trim(text))),
                round: (s.round + 1) as u8,
                ..s
            };
            if t.round > MAX_SURVEY_ROUNDS {
                survey_over(t)
            } else {
                (
                    in_phase(t, ResearchPhase::Scoping),
                    seq![
                        ask_action(
                            false,
                            SURVEY_AGENT_PROMPT@,
                            survey_text(t.topic, t.answers),
                        ),
                    ],
                )
            }
        },
    }
}

/// Whether the web survey gave something to plan from.
pub open spec fn survey_usable(survey: Seq<char>) -> bool {
    survey.len() > 0 && survey[0] != '['
}

/// The gathering ended.
pub open spec fn gathered(
    s: ResearchJobView,
    r: Result<(Seq<Seq<char>>, Seq<char>), (bool, Seq<char>)>,
) -> Transition {
    match r {
        Err(e) => failed(
            s,
            (if e.0 {
                "context gathering panicked: "@
            } else {
                "context gathering was cancelled: "@
            }) + e.1,
        ),
        Ok(p) => {
            let usable = survey_usable(p.1);
            let known = if usable {
                p.0.push("Preliminary web survey:\n"@ + p.1)
            } else {
                p.0
            };
            let detail = if usable {
                "done — landscape mapped for planning"@
            } else {
                "error — survey failed; planning from local context only"@
            };
            (
                ResearchJobView { phase: ResearchPhase::Planning, web_survey: p.1, ..s },
                seq![
                    stage_update("web survey"@, detail),
                    stage_update(
                        "planner"@,
                        "working — decomposing the surveyed landscape into focused questions"@,
                    ),
                    ask_action(
                        false,
                        PLANNER_PROMPT@,
                        planner_text(s.topic, s.answers, known),
                    ),
                ],
            )
        },
    }
}

/// The planner replied.
pub open spec fn planned(
    s: ResearchJobView,
    r: Result<Seq<char>, Seq<char>>,
    objects: Option<Seq<PlanQuestionView>>,
) -> Transition {
    match r {
        Err(e) => failed_in(s, "planner"@, e),
        Ok(text) => {
            let qs = plan_blocks(trim(text), objects);
            if qs.len() == 0 {
                failed_in(
                    s,
                    "planner"@,
                    "planner returned no usable sub-questions (raw reply: "@ + first_chars(
                        trim(text),
                        200,
                    ) + ")"@,
                )
            } else {
                let t = ResearchJobView { questions: qs, ..s };
                let shown = stage_update(
                    "planner"@,
                    "done — proposed "@ + decimal(qs.len()) + " questions"@,
                );
                if s.gated {
                    (
                        ResearchJobView { phase: ResearchPhase::Approving, rework: false, ..t },
                        seq![shown, plan_update(qs, false), ResearchActionView::AwaitUser],
                    )
                } else {
                    (
                        in_phase(t, ResearchPhase::Pinning),
                        seq![shown, ResearchActionView::ReadPinned],
                    )
                }
            }
        },
    }
}

/// The plan is shown for approval.
pub open spec fn plan_update(questions: Seq<PlanQuestionView>, rework: bool) -> ResearchActionView {
    ResearchActionView::Update(ResearchUpdateView::PlanReady { questions, rework })
}

/// The plan was approved: the searchers come after the pinned sources.
pub open spec fn approved(s: ResearchJobView) -> Transition {
    (in_phase(s, ResearchPhase::Pinning), seq![ResearchActionView::ReadPinned])
}

/// The user gave their word on the plan. Nothing typed approves it.
pub open spec fn plan_answered(s: ResearchJobView, r: Option<Seq<char>>) -> Transition {
    match r {
        None => failed(
            s,
            "plan approval cancelled — the reply channel closed before the plan was approved"@,
        ),
        Some(text) => if trim(text).len() == 0 {
            approved(s)
        } else {
            (
                in_phase(s, ResearchPhase::Judging),
                seq![
                    ask_action(
                        false,
                        PLAN_APPROVAL_PROMPT@,
                        approval_text(s.topic, s.questions, text),
                    ),
                ],
            )
        },
    }
}

/// The approval agent read the user's word. A plan is revised once at most.
pub open spec fn judged(
    s: ResearchJobView,
    r: Result<Seq<char>, Seq<char>>,
    objects: Option<Seq<PlanQuestionView>>,
) -> Transition {
    match r {
        Err(e) => failed(s, "plan approval agent failed: "@ + e),
        Ok(text) => match approval(trim(text), objects) {
            ApprovalView::Approved => approved(s),
            ApprovalView::Revised(qs) => if s.rework {
                failed(
                    s,
                    "plan was revised twice — rework cap reached; re-run /research with the final plan"@,
                )
            } else {
                (
                    ResearchJobView {
                        phase: ResearchPhase::Approving,
                        questions: qs,
                        rework: true,
                        ..s
                    },
                    seq![plan_update(qs, true), ResearchActionView::AwaitUser],
                )
            },
            ApprovalView::Malformed => failed(
                s,
                "plan approval agent returned an unusable verdict (raw reply: "@ + first_chars(
                    trim(text),
                    200,
                ) + ")"@,
            ),
        },
    }
}

/// What each searcher of the first round is given: its prompt and its label.
pub open spec fn plan_items(
    topic: Seq<char>,
    qs: Seq<PlanQuestionView>,
) -> Seq<(Seq<char>, Seq<char>)> {
    qs.map_values(|q: PlanQuestionView| (question_prompt(q, topic), q.question))
}

/// Texts that are their own labels.
pub open spec fn plain_items(qs: Seq<Seq<char>>) -> Seq<(Seq<char>, Seq<char>)> {
    qs.map_values(|q: Seq<char>| (q, q))
}

/// The pinned sources were read: the first round starts.
pub open spec fn pinned(s: ResearchJobView, urls: Seq<Seq<char>>) -> Transition {
    let findings = if survey_usable(s.web_survey) {
        seq!["--- Survey overview ---\n"@ + s.web_survey]
    } else {
        Seq::empty()
    };
    (
        ResearchJobView {
            phase: ResearchPhase::Searching { second: false },
            pinned: urls,
            findings,
            ..s
        },
        seq![
            ResearchActionView::Search {
                batch: "round 1"@,
                items: plan_items(s.topic, s.questions),
            },
        ],
    )
}

/// A round of searchers ended. The first round links the sources of all
/// findings, the second those of its own.
pub open spec fn searched(s: ResearchJobView, second: bool, found: Seq<Seq<char>>) -> Transition {
    let findings = s.findings + found;
    (
        ResearchJobView { phase: ResearchPhase::Draining { second }, findings, ..s },
        seq![
            ResearchActionView::Persist { findings: if second { found } else { findings } },
            ResearchActionView::DrainSteers,
        ],
    )
}

/// The label of the synthesis stage.
pub open spec fn synthesizer_label(second: bool) -> Seq<char> {
    if second { "synthesizer r2"@ } else { "synthesizer"@ }
}

/// The label of the critic's stage.
pub open spec fn critic_label(second: bool) -> Seq<char> {
    if second { "critic r2"@ } else { "critic"@ }
}

/// The draft is next; `before` was to be done already.
pub open spec fn synthesis_next(
    s: ResearchJobView,
    second: bool,
    before: Seq<ResearchActionView>,
) -> Transition {
    let detail = if second {
        "working — merging follow-up findings"@
    } else {
        "working — combining "@ + decimal(s.findings.len()) + " agent findings"@
    };
    (
        in_phase(s, ResearchPhase::Merging { second }),
        before + seq![
            stage_update(synthesizer_label(second), detail),
            ResearchActionView::Dedup { findings: s.findings },
        ],
    )
}

/// One stage per instruction taken up, under its number in the job.
pub open spec fn steer_stages(seq: nat, steers: Seq<Seq<char>>) -> Seq<ResearchActionView> {
    Seq::new(
        steers.len(),
        |i: int| stage_update("steer #"@ + decimal((seq + i + 1) as nat), steers[i]),
    )
}

/// What the user queued was taken up.
pub open spec fn drained(s: ResearchJobView, second: bool, steers: Seq<Seq<char>>) -> Transition {
    if steers.len() == 0 {
        synthesis_next(s, second, Seq::empty())
    } else {
        (
            ResearchJobView {
                phase: ResearchPhase::Steering { second },
                steer_seq: (s.steer_seq + steers.len()) as usize,
                ..s
            },
            steer_stages(s.steer_seq as nat, steers).push(
                ResearchActionView::Search {
                    batch: if second { "round 2 steer"@ } else { "round 1 steer"@ },
                    items: plain_items(steers),
                },
            ),
        )
    }
}

/// The findings on the user's instructions came in.
pub open spec fn steered(s: ResearchJobView, second: bool, found: Seq<Seq<char>>) -> Transition {
    synthesis_next(
        ResearchJobView { findings: s.findings + found, ..s },
        second,
        seq![ResearchActionView::Persist { findings: found }],
    )
}

/// The findings were merged: the draft is asked for.
pub open spec fn merged(s: ResearchJobView, second: bool, findings: Seq<Seq<char>>) -> Transition {
    (
        in_phase(s, ResearchPhase::Synthesizing { second }),
        seq![
            ask_action(
                false,
                SYNTHESIZER_PROMPT@,
                synthesis_text(s.topic, findings, s.pinned),
            ),
        ],
    )
}

/// The draft came in: the critic is next.
pub open spec fn synthesized(
    s: ResearchJobView,
    second: bool,
    r: Result<Seq<char>, Seq<char>>,
) -> Transition {
    match r {
        Err(e) => failed_in(s, synthesizer_label(second), e),
        Ok(text) => (
            ResearchJobView {
                phase: ResearchPhase::Criticizing { second },
                draft: trim(text),
                ..s
            },
            seq![
                stage_update(
                    synthesizer_label(second),
                    if second {
                        "done — revised draft assembled"@
                    } else {
                        "done — draft assembled"@
                    },
                ),
                stage_update(
                    critic_label(second),
                    if second {
                        "working — reviewing the revised draft"@
                    } else {
                        "working — checking coverage and contradictions"@
                    },
                ),
                ask_action(
                    false,
                    CRITIC_PROMPT@,
                    "Topic: "@ + s.topic + "\n\nDraft:\n"@ + trim(text),
                ),
            ],
        ),
    }
}

/// The items numbered from one.
pub open spec fn numbered_items(items: Seq<Seq<char>>) -> Seq<Seq<char>> {
    Seq::new(items.len(), |i: int| decimal((i + 1) as nat) + ". "@ + items[i])
}

/// What the critic's stage shows of the verdict.
pub open spec fn critic_detail(second: bool, c: CritiqueView) -> Seq<char> {
    match c {
        CritiqueView::Satisfied => if second {
            "done — revised draft is complete"@
        } else {
            "done — draft is sufficiently complete"@
        },
        CritiqueView::Gaps(gaps) => if second {
            "done — "@ + decimal(gaps.len()) + " gaps remain:\n"@ + join(
                numbered_items(gaps),
                "\n"@,
            )
        } else {
            "done — found "@ + decimal(gaps.len()) + " coverage gaps:\n"@ + join(
                numbered_items(gaps),
                "\n"@,
            )
        },
        CritiqueView::Contradiction(_) => if second {
            "done — contradiction remains"@
        } else {
            "done — found a source contradiction"@
        },
    }
}

/// The verifier is next; `before` was to be done already.
pub open spec fn verification_next(
    s: ResearchJobView,
    before: Seq<ResearchActionView>,
) -> Transition {
    (
        in_phase(s, ResearchPhase::Verifying),
        before + seq![
            stage_update(
                "verifier"@,
                "working — checking claims, citations, and direct quotes"@,
            ),
            ResearchActionView::Verify {
                messages: request(
                    VERIFIER_PROMPT@,
                    verifier_text(s.topic, s.draft, s.findings),
                ),
            },
        ],
    )
}

/// The critic's verdict came in. Gaps lead to one more round; a contradiction
/// goes to the resolver.
pub open spec fn criticized(
    s: ResearchJobView,
    second: bool,
    r: Result<Seq<char>, Seq<char>>,
) -> Transition {
    match r {
        Err(e) => failed_in(s, critic_label(second), e),
        Ok(text) => {
            let c = critique(trim(text));
            let shown = seq![stage_update(critic_label(second), critic_detail(second, c))];
            match c {
                CritiqueView::Contradiction(desc) => (
                    in_phase(s, ResearchPhase::Resolving),
                    shown + seq![
                        stage_update(
                            "resolver"@,
                            "working — reconciling conflicting source claims"@,
                        ),
                        ask_action(
                            true,
                            ESCALATION_PROMPT@,
                            escalation_text(s.topic, s.draft, s.findings, desc),
                        ),
                    ],
                ),
                CritiqueView::Gaps(gaps) => if second {
                    verification_next(s, shown)
                } else {
                    (
                        in_phase(s, ResearchPhase::Searching { second: true }),
                        shown + seq![
                            ResearchActionView::Search {
                                batch: "round 2"@,
                                items: plain_items(gaps),
                            },
                        ],
                    )
                },
                CritiqueView::Satisfied => verification_next(s, shown),
            }
        },
    }
}

/// The contradiction was settled: the paragraph joins the draft.
pub open spec fn resolved(s: ResearchJobView, r: Result<Seq<char>, Seq<char>>) -> Transition {
    match r {
        Err(e) => failed_in(s, "resolver"@, e),
        Ok(text) => verification_next(
            ResearchJobView { draft: s.draft + "\n\n"@ + trim(text), ..s },
            seq![stage_update("resolver"@, "done — contradiction reconciled"@)],
        ),
    }
}

/// The verified draft came in. A blank one leaves the draft as it was.
pub open spec fn verified(s: ResearchJobView, text: Seq<char>) -> Transition {
    let draft = if trim(text).len() == 0 { s.draft } else { text };
    (
        in_phase(s, ResearchPhase::Writing),
        seq![
            stage_update("writer"@, "working — polishing structure and citations"@),
            ask_action(false, WRITER_PROMPT@, writer_text(s.topic, draft, s.pinned)),
        ],
    )
}

/// The report came in.
pub open spec fn written(s: ResearchJobView, r: Result<Seq<char>, Seq<char>>) -> Transition {
    match r {
        Err(e) => failed_in(s, "writer"@, e),
        Ok(text) => (
            in_phase(s, ResearchPhase::Finished),
            seq![
                stage_update("writer"@, "done — final report ready"@),
                done_update(Ok(trim(text))),
            ],
        ),
    }
}

/// What a job does on an event. An event that it does not wait for changes
/// nothing.
pub open spec fn next(s: ResearchJobView, ev: ResearchEventView) -> Transition {
    match (s.phase, ev) {
        (ResearchPhase::Scoping, ResearchEventView::Reply { result, .. }) => scoped(s, result),
        (ResearchPhase::Answering, ResearchEventView::UserReply(r)) => answered(s, r),
        (ResearchPhase::Gathering, ResearchEventView::Gathered(r)) => gathered(s, r),
        (ResearchPhase::Planning, ResearchEventView::Reply { result, objects }) => planned(
            s,
            result,
            objects,
        ),
        (ResearchPhase::Approving, ResearchEventView::UserReply(r)) => plan_answered(s, r),
        (ResearchPhase::Judging, ResearchEventView::Reply { result, objects }) => judged(
            s,
            result,
            objects,
        ),
        (ResearchPhase::Pinning, ResearchEventView::Pinned(urls)) => pinned(s, urls),
        (ResearchPhase::Searching { second }, ResearchEventView::Found(f)) => searched(
            s,
            second,
            f,
        ),
        (ResearchPhase::Draining { second }, ResearchEventView::Steers(f)) => drained(
            s,
            second,
            f,
        ),
        (ResearchPhase::Steering { second }, ResearchEventView::Found(f)) => steered(
            s,
            second,
            f,
        ),
        (ResearchPhase::Merging { second }, ResearchEventView::Deduped(f)) => merged(
            s,
            second,
            f,
        ),
        (ResearchPhase::Synthesizing { second }, ResearchEventView::Reply { result, .. }) =>
            synthesized(s, second, result),
        (ResearchPhase::Criticizing { second }, ResearchEventView::Reply { result, .. }) =>
            criticized(s, second, result),
        (ResearchPhase::Resolving, ResearchEventView::Reply { result, .. }) => resolved(s, result),
        (ResearchPhase::Verifying, ResearchEventView::Verified(t)) => verified(s, t),
        (ResearchPhase::Writing, ResearchEventView::Reply { result, .. }) => written(s, result),
        _ => (s, Seq::empty()),
    }
}

/// Whether a phase comes after the plan was made.
pub open spec fn has_plan(phase: ResearchPhase) -> bool {
    match phase {
        ResearchPhase::Scoping
        | ResearchPhase::Answering
        | ResearchPhase::Gathering
        | ResearchPhase::Planning
        | ResearchPhase::Finished => false,
        _ => true,
    }
}

/// What holds of every job: the survey rounds are counted and bounded, only a
/// gated job waits for the user, and a plan holds one to six questions.
pub open spec fn job_inv(s: ResearchJobView) -> bool {
    &&& s.round == s.answers.len() + 1
    &&& s.round <= MAX_SURVEY_ROUNDS + 1
    &&& (s.phase is Scoping || s.phase is Answering) ==> s.round <= MAX_SURVEY_ROUNDS
    &&& (s.phase is Scoping || s.phase is Answering || s.phase is Approving
        || s.phase is Judging) ==> s.gated
    &&& has_plan(s.phase) ==> 0 < s.questions.len() <= 6
}

pub(crate) fn stage(label: &str, detail: String) -> (r: ResearchAction)
    ensures
        r@ == stage_update(label@, detail@),
{
    ResearchAction::Update(ResearchUpdate::Stage { label: label.to_owned(), detail })
}

fn note(label: &str, detail: &str) -> (r: ResearchAction)
    ensures
        r@ == stage_update(label@, detail@),
{
    stage(label, detail.to_owned())
}

fn one(a: ResearchAction) -> (r: Vec<ResearchAction>)
    ensures
        views(r@) == seq![a@],
{
    let mut r: Vec<ResearchAction> = Vec::new();
    r.push(a);
    assert(views(r@) =~= seq![a@]);
    r
}

fn two(a: ResearchAction, b: ResearchAction) -> (r: Vec<ResearchAction>)
    ensures
        views(r@) == seq![a@, b@],
{
    let mut r: Vec<ResearchAction> = Vec::new();
    r.push(a);
    r.push(b);
    assert(views(r@) =~= seq![a@, b@]);
    r
}

fn three(a: ResearchAction, b: ResearchAction, c: ResearchAction) -> (r: Vec<ResearchAction>)
    ensures
        views(r@) == seq![a@, b@, c@],
{
    let mut r: Vec<ResearchAction> = Vec::new();
    r.push(a);
    r.push(b);
    r.push(c);
    assert(views(r@) =~= seq![a@, b@, c@]);
    r
}

/// The text `head`, `reply` up to its first 200 characters, and `)`.
fn with_reply(head: &str, reply: &str) -> (r: String)
    ensures
        r@ == head@ + first_chars(reply@, 200) + ")"@,
{
    let mut r = head.to_owned();
    r.append(clipped(reply, 200));
    r.append(")");
    r
}

pub(crate) fn concat(a: &str, b: &str) -> (r: String)
    ensures
        r@ == a@ + b@,
{
    let mut r = a.to_owned();
    r.append(b);
    r
}

/// A reply without surrounding whitespace.
fn settled(r: Result<String, String>) -> (t: Result<String, String>)
    ensures
        match r {
            Ok(s) => t is Ok && (t->Ok_0)@ == trim(s@),
            Err(e) => t == r,
        },
{
    match r {
        Ok(s) => Ok(trimmed(s.as_str()).to_owned()),
        Err(e) => Err(e),
    }
}

fn plain(qs: &Vec<String>) -> (r: Vec<(String, String)>)
    ensures
        pairs(r@) == plain_items(texts(qs@)),
{
    let ghost all = plain_items(texts(qs@));
    let mut out: Vec<(String, String)> = Vec::new();
    let mut i: usize = 0;
    assert(pairs(out@) =~= all.take(0));
    while i < qs.len()
        invariant
            i <= qs@.len(),
            all == plain_items(texts(qs@)),
            pairs(out@) == all.take(i as int),
        decreases qs@.len() - i,
    {
        let ghost before = out@;
        out.push((qs[i].clone(), qs[i].clone()));
        assert(pairs(out@) =~= pairs(before).push((qs@[i as int]@, qs@[i as int]@)));
        assert(pairs(out@) =~= all.take(i + 1));
        i += 1;
    }
    assert(all.take(i as int) =~= all);
    out
}

fn prompts(topic: &str, qs: &Vec<PlanQuestion>) -> (r: Vec<(String, String)>)
    ensures
        pairs(r@) == plan_items(topic@, views(qs@)),
{
    let ghost all = plan_items(topic@, views(qs@));
    let mut out: Vec<(String, String)> = Vec::new();
    let mut i: usize = 0;
    assert(pairs(out@) =~= all.take(0));
    while i < qs.len()
        invariant
            i <= qs@.len(),
            all == plan_items(topic@, views(qs@)),
            pairs(out@) == all.take(i as int),
        decreases qs@.len() - i,
    {
        let ghost before = out@;
        let prompt = qs[i].prompt(topic);
        out.push((prompt, qs[i].question.clone()));
        assert(pairs(out@) =~= pairs(before).push((prompt@, qs@[i as int]@.question)));
        assert(pairs(out@) =~= all.take(i + 1));
        i += 1;
    }
    assert(all.take(i as int) =~= all);
    out
}

/// The items numbered from one, one per line.
fn numbered_list(items: &Vec<String>) -> (r: String)
    ensures
        r@ == join(numbered_items(texts(items@)), "\n"@),
{
    let ghost all = numbered_items(texts(items@));
    let mut out: Vec<String> = Vec::new();
    let mut i: usize = 0;
    assert(texts(out@) =~= all.take(0));
    while i < items.len()
        invariant
            i <= items@.len(),
            all == numbered_items(texts(items@)),
            texts(out@) == all.take(i as int),
        decreases items@.len() - i,
    {
        let mut line = decimal_of(i as u64 + 1);
        line.append(". ");
        line.append(items[i].as_str());
        proof {
            texts_push(out@, line);
            assert(all.take(i as int).push(line@) =~= all.take(i + 1));
        }
        out.push(line);
        i += 1;
    }
    assert(all.take(i as int) =~= all);
    joined(&out, "\n")
}

fn critic_note(second: bool, c: &Critique) -> (r: String)
    ensures
        r@ == critic_detail(second, c@),
{
    match c {
        Critique::Satisfied => if second {
            "done — revised draft is complete".to_owned()
        } else {
            "done — draft is sufficiently complete".to_owned()
        },
        Critique::Gaps(gaps) => {
            assert(texts(gaps@).len() == gaps@.len());
            let mut s = if second { "done — ".to_owned() } else { "done — found ".to_owned() };
            s.append(decimal_of(gaps.len() as u64).as_str());
            if second {
                s.append(" gaps remain:\n");
            } else {
                s.append(" coverage gaps:\n");
            }
            s.append(numbered_list(gaps).as_str());
            s
        },
        Critique::Contradiction(_) => if second {
            "done — contradiction remains".to_owned()
        } else {
            "done — found a source contradiction".to_owned()
        },
    }
}

fn synthesizer_name(second: bool) -> (r: &'static str)
    ensures
        r@ == synthesizer_label(second),
{
    if second { "synthesizer r2" } else { "synthesizer" }
}

fn critic_name(second: bool) -> (r: &'static str)
    ensures
        r@ == critic_label(second),
{
    if second { "critic r2" } else { "critic" }
}

/// Whether the web survey gave something to plan from.
fn usable_survey(survey: &str) -> (r: bool)
    ensures
        r == survey_usable(survey@),
{
    let cs = chars_of(survey);
    cs.len() > 0 && cs[0] != '['
}

impl ResearchJob {
    /// A new job on a topic. A gated one surveys the user and has its plan
    /// approved.
    pub fn start(topic: &str, gated: bool) -> (r: (ResearchJob, Vec<ResearchAction>))
        ensures
            (r.0@, views(r.1@)) == started(topic@, gated),
            job_inv(r.0@),
    {
        let job = ResearchJob {
            topic: topic.to_owned(),
            gated,
            phase: if gated { ResearchPhase::Scoping } else { ResearchPhase::Gathering },
            answers: Vec::new(),
            round: 1,
            asked: Vec::new(),
            web_survey: String::new(),
            questions: Vec::new(),
            rework: false,
            pinned: Vec::new(),
            findings: Vec::new(),
            steer_seq: 0,
            draft: String::new(),
        };
        let mut question =
            "Conduct a broad preliminary survey of this research topic before planning: ".to_owned();
        question.append(topic);
        question.append(
            ". Identify the major concepts, current debates, useful source types, and important evidence gaps.",
        );
        let none: Vec<(String, String)> = Vec::new();
        assert(pairs(none@) =~= Seq::empty());
        let last = if gated {
            ResearchAction::Ask { escalate: false, messages: survey_messages(topic, &none) }
        } else {
            ResearchAction::JoinGather
        };
        let actions = three(
            note(
                "web survey",
                "working — mapping the topic, debates, evidence, and source landscape",
            ),
            ResearchAction::Gather { survey_question: question },
            last,
        );
        assert(job@ =~= started(topic@, gated).0);
        assert(views(actions@) =~= started(topic@, gated).1);
        (job, actions)
    }

    fn fail(&mut self, e: String) -> (r: Vec<ResearchAction>)
        ensures
            (final(self)@, views(r@)) == failed(old(self)@, e@),
    {
        self.phase = ResearchPhase::Finished;
        one(ResearchAction::Update(ResearchUpdate::Done(Err(e))))
    }

    fn fail_in(&mut self, label: &str, e: String) -> (r: Vec<ResearchAction>)
        ensures
            (final(self)@, views(r@)) == failed_in(old(self)@, label@, e@),
    {
        self.phase = ResearchPhase::Finished;
        let shown = stage(label, concat("error — ", e.as_str()));
        two(shown, ResearchAction::Update(ResearchUpdate::Done(Err(e))))
    }

    fn end_survey(&mut self) -> (r: Vec<ResearchAction>)
        ensures
            (final(self)@, views(r@)) == survey_over(old(self)@),
    {
        self.phase = ResearchPhase::Gathering;
        one(ResearchAction::JoinGather)
    }

    fn on_scoped(&mut self, result: Result<String, String>) -> (r: Vec<ResearchAction>)
        ensures
            (final(self)@, views(r@)) == scoped(old(self)@, outcome(result)),
    {
        assert(pairs(self.answers@).len() == self.answers@.len());
        match settled(result) {
            Err(e) => {
                if self.answers.len() == 0 {
                    self.fail_in("survey", concat("survey agent failed: ", e.as_str()))
                } else {
                    self.fail_in("survey", concat("survey follow-up failed: ", e.as_str()))
                }
            },
            Ok(text) => match parse_survey_reply(text.as_str()) {
                SurveyReply::Complete => self.end_survey(),
                SurveyReply::Malformed => self.fail_in(
                    "survey",
                    with_reply(
                        "survey agent returned unusable output (raw reply: ",
                        text.as_str(),
                    ),
                ),
                SurveyReply::Questions(qs) => {
                    if self.round > MAX_SURVEY_ROUNDS {
                        self.end_survey()
                    } else {
                        let shown = copied(&qs);
                        self.asked = qs;
                        self.phase = ResearchPhase::Answering;
                        two(
                            ResearchAction::Update(
                                ResearchUpdate::SurveyReady { questions: shown, round: self.round },
                            ),
                            ResearchAction::AwaitUser,
                        )
                    }
                },
            },
        }
    }

    fn on_answered(&mut self, reply: Option<String>) -> (r: Vec<ResearchAction>)
        requires
            old(self).round <= MAX_SURVEY_ROUNDS,
        ensures
            (final(self)@, views(r@)) == answered(
                old(self)@,
                match reply {
                    Some(s) => Some(s@),
                    None => None,
                },
            ),
    {
        match reply {
            None => self.fail_in(
                "survey",
                "survey cancelled — the reply channel closed".to_owned(),
            ),
            Some(text) => {
                let reply = trimmed(text.as_str()).to_owned();
                if reply.as_str().is_empty() {
                    return self.end_survey();
                }
                let asked = joined(&self.asked, "\n");
                let ghost before = self.answers@;
                self.answers.push((asked, reply));
                assert(pairs(self.answers@) =~= pairs(before).push((asked@, reply@)));
                self.round = self.round + 1;
                if self.round > MAX_SURVEY_ROUNDS {
                    self.end_survey()
                } else {
                    self.phase = ResearchPhase::Scoping;
                    one(
                        ResearchAction::Ask {
                            escalate: false,
                            messages: survey_messages(self.topic.as_str(), &self.answers),
                        },
                    )
                }
            },
        }
    }

    fn on_gathered(&mut self, result: Result<(Vec<String>, String), GatherFailure>) -> (r: Vec<
        ResearchAction,
    >)
        ensures
            (final(self)@, views(r@)) == gathered(
                old(self)@,
                match result {
                    Ok(p) => Ok((texts(p.0@), p.1@)),
                    Err(e) => Err((e.panicked, e.error@)),
                },
            ),
    {
        match result {
            Err(e) => {
                if e.panicked {
                    self.fail(concat("context gathering panicked: ", e.error.as_str()))
                } else {
                    self.fail(concat("context gathering was cancelled: ", e.error.as_str()))
                }
            },
            Ok((known, survey)) => {
                let mut known = known;
                let usable = usable_survey(survey.as_str());
                if usable {
                    let excerpt = concat("Preliminary web survey:\n", survey.as_str());
                    proof {
                        texts_push(known@, excerpt);
                    }
                    known.push(excerpt);
                }
                let messages = planner_messages_with_context(
                    self.topic.as_str(),
                    &self.answers,
                    &known,
                );
                self.web_survey = survey;
                self.phase = ResearchPhase::Planning;
                three(
                    note(
                        "web survey",
                        if usable {
                            "done — landscape mapped for planning"
                        } else {
                            "error — survey failed; planning from local context only"
                        },
                    ),
                    note(
                        "planner",
                        "working — decomposing the surveyed landscape into focused questions",
                    ),
                    ResearchAction::Ask { escalate: false, messages },
                )
            },
        }
    }

    fn on_planned(
        &mut self,
        result: Result<String, String>,
        objects: &Option<Vec<PlanQuestion>>,
    ) -> (r: Vec<ResearchAction>)
        ensures
            (final(self)@, views(r@)) == planned(old(self)@, outcome(result), opt_plan(*objects)),
    {
        match settled(result) {
            Err(e) => self.fail_in("planner", e),
            Ok(text) => {
                let qs = parse_plan_blocks(text.as_str(), objects);
                assert(views(qs@).len() == qs@.len());
                if qs.len() == 0 {
                    return self.fail_in(
                        "planner",
                        with_reply(
                            "planner returned no usable sub-questions (raw reply: ",
                            text.as_str(),
                        ),
                    );
                }
                let mut detail = "done — proposed ".to_owned();
                detail.append(decimal_of(qs.len() as u64).as_str());
                detail.append(" questions");
                let shown = stage("planner", detail);
                let copy = duplicate_plan(&qs);
                self.questions = qs;
                if self.gated {
                    self.phase = ResearchPhase::Approving;
                    self.rework = false;
                    three(
                        shown,
                        ResearchAction::Update(
                            ResearchUpdate::PlanReady { questions: copy, rework: false },
                        ),
                        ResearchAction::AwaitUser,
                    )
                } else {
                    self.phase = ResearchPhase::Pinning;
                    two(shown, ResearchAction::ReadPinned)
                }
            },
        }
    }

    fn approve(&mut self) -> (r: Vec<ResearchAction>)
        ensures
            (final(self)@, views(r@)) == approved(old(self)@),
    {
        self.phase = ResearchPhase::Pinning;
        one(ResearchAction::ReadPinned)
    }

    fn on_plan_answered(&mut self, reply: Option<String>) -> (r: Vec<ResearchAction>)
        ensures
            (final(self)@, views(r@)) == plan_answered(
                old(self)@,
                match reply {
                    Some(s) => Some(s@),
                    None => None,
                },
            ),
    {
        match reply {
            None => self.fail(
                "plan approval cancelled — the reply channel closed before the plan was approved".to_owned(),
            ),
            Some(text) => {
                if trimmed(text.as_str()).is_empty() {
                    return self.approve();
                }
                self.phase = ResearchPhase::Judging;
                one(
                    ResearchAction::Ask {
                        escalate: false,
                        messages: plan_approval_messages(
                            self.topic.as_str(),
                            &self.questions,
                            text.as_str(),
                        ),
                    },
                )
            },
        }
    }

    fn on_judged(
        &mut self,
        result: Result<String, String>,
        objects: &Option<Vec<PlanQuestion>>,
    ) -> (r: Vec<ResearchAction>)
        ensures
            (final(self)@, views(r@)) == judged(old(self)@, outcome(result), opt_plan(*objects)),
    {
        match settled(result) {
            Err(e) => self.fail(concat("plan approval agent failed: ", e.as_str())),
            Ok(text) => match parse_approval(text.as_str(), objects) {
                Approval::Approved => self.approve(),
                Approval::Revised(revised) => {
                    if self.rework {
                        return self.fail(
                            "plan was revised twice — rework cap reached; re-run /research with the final plan".to_owned(),
                        );
                    }
                    let copy = duplicate_plan(&revised);
                    self.questions = revised;
                    self.rework = true;
                    self.phase = ResearchPhase::Approving;
                    two(
                        ResearchAction::Update(
                            ResearchUpdate::PlanReady { questions: copy, rework: true },
                        ),
                        ResearchAction::AwaitUser,
                    )
                },
                Approval::Malformed => self.fail(
                    with_reply(
                        "plan approval agent returned an unusable verdict (raw reply: ",
                        text.as_str(),
                    ),
                ),
            },
        }
    }

    fn on_pinned(&mut self, urls: Vec<String>) -> (r: Vec<ResearchAction>)
        ensures
            (final(self)@, views(r@)) == pinned(old(self)@, texts(urls@)),
    {
        let mut findings: Vec<String> = Vec::new();
        assert(texts(findings@) =~= Seq::empty());
        if usable_survey(self.web_survey.as_str()) {
            let overview = concat("--- Survey overview ---\n", self.web_survey.as_str());
            findings.push(overview);
            assert(texts(findings@) =~= seq![overview@]);
        }
        let items = prompts(self.topic.as_str(), &self.questions);
        self.findings = findings;
        self.pinned = urls;
        self.phase = ResearchPhase::Searching { second: false };
        one(ResearchAction::Search { batch: "round 1".to_owned(), items })
    }

    fn extend_findings(&mut self, found: &Vec<String>)
        ensures
            final(self)@ == (ResearchJobView {
                findings: old(self)@.findings + texts(found@),
                ..old(self)@
            }),
    {
        let mut more = copied(found);
        let ghost before = self.findings@;
        self.findings.append(&mut more);
        assert(texts(self.findings@) =~= texts(before) + texts(found@));
        assert(self@ =~= ResearchJobView {
            findings: old(self)@.findings + texts(found@),
            ..old(self)@
        });
    }

    fn on_searched(&mut self, second: bool, found: Vec<String>) -> (r: Vec<ResearchAction>)
        ensures
            (final(self)@, views(r@)) == searched(old(self)@, second, texts(found@)),
    {
        self.extend_findings(&found);
        self.phase = ResearchPhase::Draining { second };
        let findings = if second { found } else { copied(&self.findings) };
        two(ResearchAction::Persist { findings }, ResearchAction::DrainSteers)
    }

    fn synthesize_next(&mut self, second: bool, before: Vec<ResearchAction>) -> (r: Vec<
        ResearchAction,
    >)
        ensures
            (final(self)@, views(r@)) == synthesis_next(old(self)@, second, views(before@)),
    {
        let ghost earlier = views(before@);
        assert(texts(self.findings@).len() == self.findings@.len());
        let detail = if second {
            "working — merging follow-up findings".to_owned()
        } else {
            let mut s = "working — combining ".to_owned();
            s.append(decimal_of(self.findings.len() as u64).as_str());
            s.append(" agent findings");
            s
        };
        self.phase = ResearchPhase::Merging { second };
        let mut r = before;
        let mut more = two(
            stage(synthesizer_name(second), detail),
            ResearchAction::Dedup { findings: copied(&self.findings) },
        );
        let ghost later = views(more@);
        let ghost (a, b) = (r@, more@);
        r.append(&mut more);
        assert(views(a + b) =~= earlier + later);
        r
    }

    fn on_drained(&mut self, second: bool, steers: Vec<String>) -> (r: Vec<ResearchAction>)
        requires
            old(self).steer_seq + steers@.len() <= usize::MAX,
        ensures
            (final(self)@, views(r@)) == drained(old(self)@, second, texts(steers@)),
    {
        assert(texts(steers@).len() == steers@.len());
        let mut r: Vec<ResearchAction> = Vec::new();
        if steers.len() == 0 {
            assert(views(r@) =~= Seq::empty());
            return self.synthesize_next(second, r);
        }
        let start: usize = self.steer_seq;
        let ghost all = steer_stages(start as nat, texts(steers@));
        let mut i: usize = 0;
        assert(views(r@) =~= all.take(0));
        while i < steers.len()
            invariant
                i <= steers@.len(),
                start + steers@.len() <= usize::MAX,
                all == steer_stages(start as nat, texts(steers@)),
                views(r@) == all.take(i as int),
            decreases steers@.len() - i,
        {
            let n: usize = start + i + 1;
            let label = concat("steer #", decimal_of(n as u64).as_str());
            let a = stage(label.as_str(), steers[i].clone());
            proof {
                views_push(r@, a);
                assert(all.take(i as int).push(a@) =~= all.take(i + 1));
            }
            r.push(a);
            i += 1;
        }
        assert(all.take(i as int) =~= all);
        let search = ResearchAction::Search {
            batch: if second { "round 2 steer".to_owned() } else { "round 1 steer".to_owned() },
            items: plain(&steers),
        };
        proof {
            views_push(r@, search);
        }
        r.push(search);
        self.steer_seq = start + steers.len();
        self.phase = ResearchPhase::Steering { second };
        r
    }

    fn on_steered(&mut self, second: bool, found: Vec<String>) -> (r: Vec<ResearchAction>)
        ensures
            (final(self)@, views(r@)) == steered(old(self)@, second, texts(found@)),
    {
        self.extend_findings(&found);
        self.synthesize_next(second, one(ResearchAction::Persist { findings: found }))
    }

    fn on_merged(&mut self, second: bool, findings: Vec<String>) -> (r: Vec<ResearchAction>)
        ensures
            (final(self)@, views(r@)) == merged(old(self)@, second, texts(findings@)),
    {
        self.phase = ResearchPhase::Synthesizing { second };
        one(
            ResearchAction::Ask {
                escalate: false,
                messages: synthesizer_messages(self.topic.as_str(), &findings, &self.pinned),
            },
        )
    }

    fn on_synthesized(&mut self, second: bool, result: Result<String, String>) -> (r: Vec<
        ResearchAction,
    >)
        ensures
            (final(self)@, views(r@)) == synthesized(old(self)@, second, outcome(result)),
    {
        match settled(result) {
            Err(e) => self.fail_in(synthesizer_name(second), e),
            Ok(text) => {
                let messages = critic_messages(self.topic.as_str(), text.as_str());
                self.draft = text;
                self.phase = ResearchPhase::Criticizing { second };
                three(
                    note(
                        synthesizer_name(second),
                        if second {
                            "done — revised draft assembled"
                        } else {
                            "done — draft assembled"
                        },
                    ),
                    note(
                        critic_name(second),
                        if second {
                            "working — reviewing the revised draft"
                        } else {
                            "working — checking coverage and contradictions"
                        },
                    ),
                    ResearchAction::Ask { escalate: false, messages },
                )
            },
        }
    }

    fn verify_next(&mut self, before: ResearchAction) -> (r: Vec<ResearchAction>)
        ensures
            (final(self)@, views(r@)) == verification_next(old(self)@, seq![before@]),
    {
        self.phase = ResearchPhase::Verifying;
        let r = three(
            before,
            note("verifier", "working — checking claims, citations, and direct quotes"),
            ResearchAction::Verify {
                messages: verifier_messages(
                    self.topic.as_str(),
                    self.draft.as_str(),
                    &self.findings,
                ),
            },
        );
        assert(views(r@) =~= verification_next(old(self)@, seq![before@]).1);
        r
    }

    fn on_criticized(&mut self, second: bool, result: Result<String, String>) -> (r: Vec<
        ResearchAction,
    >)
        ensures
            (final(self)@, views(r@)) == criticized(old(self)@, second, outcome(result)),
    {
        match settled(result) {
            Err(e) => self.fail_in(critic_name(second), e),
            Ok(text) => {
                let c = parse_critique(text.as_str());
                let shown = stage(critic_name(second), critic_note(second, &c));
                match c {
                    Critique::Contradiction(desc) => {
                        self.phase = ResearchPhase::Resolving;
                        let r = three(
                            shown,
                            note("resolver", "working — reconciling conflicting source claims"),
                            ResearchAction::Ask {
                                escalate: true,
                                messages: escalation_messages(
                                    self.topic.as_str(),
                                    self.draft.as_str(),
                                    &self.findings,
                                    desc.as_str(),
                                ),
                            },
                        );
                        assert(views(r@) =~= criticized(old(self)@, second, outcome(result)).1);
                        r
                    },
                    Critique::Gaps(gaps) => {
                        if second {
                            self.verify_next(shown)
                        } else {
                            self.phase = ResearchPhase::Searching { second: true };
                            let r = two(
                                shown,
                                ResearchAction::Search {
                                    batch: "round 2".to_owned(),
                                    items: plain(&gaps),
                                },
                            );
                            assert(views(r@) =~= criticized(
                                old(self)@,
                                second,
                                outcome(result),
                            ).1);
                            r
                        }
                    },
                    Critique::Satisfied => self.verify_next(shown),
                }
            },
        }
    }

    fn on_resolved(&mut self, result: Result<String, String>) -> (r: Vec<ResearchAction>)
        ensures
            (final(self)@, views(r@)) == resolved(old(self)@, outcome(result)),
    {
        match settled(result) {
            Err(e) => self.fail_in("resolver", e),
            Ok(text) => {
                let mut draft = self.draft.clone();
                draft.append("\n\n");
                draft.append(text.as_str());
                self.draft = draft;
                self.verify_next(note("resolver", "done — contradiction reconciled"))
            },
        }
    }

    fn on_verified(&mut self, text: String) -> (r: Vec<ResearchAction>)
        ensures
            (final(self)@, views(r@)) == verified(old(self)@, text@),
    {
        let draft = if trimmed(text.as_str()).is_empty() { self.draft.clone() } else { text };
        self.phase = ResearchPhase::Writing;
        two(
            note("writer", "working — polishing structure and citations"),
            ResearchAction::Ask {
                escalate: false,
                messages: writer_messages(self.topic.as_str(), draft.as_str(), &self.pinned),
            },
        )
    }

    fn on_written(&mut self, result: Result<String, String>) -> (r: Vec<ResearchAction>)
        ensures
            (final(self)@, views(r@)) == written(old(self)@, outcome(result)),
    {
        match settled(result) {
            Err(e) => self.fail_in("writer", e),
            Ok(text) => {
                self.phase = ResearchPhase::Finished;
                two(
                    note("writer", "done — final report ready"),
                    ResearchAction::Update(ResearchUpdate::Done(Ok(text))),
                )
            },
        }
    }

    /// Takes one event and says what is to be done next.
    pub fn step(&mut self, ev: ResearchEvent) -> (r: Vec<ResearchAction>)
        requires
            job_inv(old(self)@),
            ev matches ResearchEvent::Steers(steers) ==> old(self).steer_seq + steers@.len()
                <= usize::MAX,
        ensures
            (final(self)@, views(r@)) == next(old(self)@, ev@),
            job_inv(final(self)@),
    {
        proof {
            next_keeps_inv(self@, ev@);
        }
        match (self.phase, ev) {
            (ResearchPhase::Scoping, ResearchEvent::Reply { result, .. }) => self.on_scoped(result),
            (ResearchPhase::Answering, ResearchEvent::UserReply(reply)) => self.on_answered(reply),
            (ResearchPhase::Gathering, ResearchEvent::Gathered(result)) => self.on_gathered(result),
            (ResearchPhase::Planning, ResearchEvent::Reply { result, objects }) =>
                self.on_planned(result, &objects),
            (ResearchPhase::Approving, ResearchEvent::UserReply(reply)) =>
                self.on_plan_answered(reply),
            (ResearchPhase::Judging, ResearchEvent::Reply { result, objects }) =>
                self.on_judged(result, &objects),
            (ResearchPhase::Pinning, ResearchEvent::Pinned(urls)) => self.on_pinned(urls),
            (ResearchPhase::Searching { second }, ResearchEvent::Found(found)) =>
                self.on_searched(second, found),
            (ResearchPhase::Draining { second }, ResearchEvent::Steers(steers)) =>
                self.on_drained(second, steers),
            (ResearchPhase::Steering { second }, ResearchEvent::Found(found)) =>
                self.on_steered(second, found),
            (ResearchPhase::Merging { second }, ResearchEvent::Deduped(findings)) =>
                self.on_merged(second, findings),
            (ResearchPhase::Synthesizing { second }, ResearchEvent::Reply { result, .. }) =>
                self.on_synthesized(second, result),
            (ResearchPhase::Criticizing { second }, ResearchEvent::Reply { result, .. }) =>
                self.on_criticized(second, result),
            (ResearchPhase::Resolving, ResearchEvent::Reply { result, .. }) =>
                self.on_resolved(result),
            (ResearchPhase::Verifying, ResearchEvent::Verified(text)) => self.on_verified(text),
            (ResearchPhase::Writing, ResearchEvent::Reply { result, .. }) =>
                self.on_written(result),
            _ => {
                let none: Vec<ResearchAction> = Vec::new();
                assert(views(none@) =~= Seq::empty());
                none
            },
        }
    }
}

/// What holds of a job before an event holds after it.
pub proof fn next_keeps_inv(s: ResearchJobView, ev: ResearchEventView)
    requires
        job_inv(s),
    ensures
        job_inv(next(s, ev).0),
{
}

} // verus!
