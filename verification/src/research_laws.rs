//! What a research job carries from one stage to the next.

use crate::pipeline::{
    next, started, ResearchActionView, ResearchEventView, ResearchJobView, ResearchPhase,
    ResearchUpdateView,
};
use crate::provider::ChatMessageView;
use crate::research::{
    headed_findings, numbered_questions, planner_rounds, question_prompt, rendered_plan,
    survey_rounds, PlanQuestionView, CRITIC_PROMPT, ESCALATION_PROMPT, PLANNER_PROMPT,
    PLAN_APPROVAL_PROMPT, SURVEY_AGENT_PROMPT, SYNTHESIZER_PROMPT, VERIFIER_PROMPT, WRITER_PROMPT,
};
use crate::text::{ascii_upper, decimal, join, trim};
use crate::text_laws::{
    blank, joined_parts_stand, stands_between, stands_first, stands_last, trimming_cuts_whitespace,
    within, within_carries,
};
use vstd::prelude::*;

verus! {

/// What the user message of a request says, where the request is one of a
/// system prompt and a user message.
pub open spec fn told(messages: Seq<ChatMessageView>, system: Seq<char>) -> Option<Seq<char>> {
    if messages.len() == 2 && messages[0].role == "system"@ && messages[0].content == system
        && messages[1].role == "user"@ {
        Some(messages[1].content)
    } else {
        None
    }
}

/// What a model is told by the last of the actions, where that asks the model
/// for a reply.
pub open spec fn asked(
    actions: Seq<ResearchActionView>,
    escalate: bool,
    system: Seq<char>,
) -> Option<Seq<char>> {
    match actions.last() {
        ResearchActionView::Ask { escalate: e, messages } if e == escalate => told(
            messages,
            system,
        ),
        _ => None,
    }
}

/// What the verifier is told by the last of the actions.
pub open spec fn handed_to_verifier(actions: Seq<ResearchActionView>) -> Option<Seq<char>> {
    match actions.last() {
        ResearchActionView::Verify { messages } => told(messages, VERIFIER_PROMPT@),
        _ => None,
    }
}

/// The outcome that the actions tell last.
pub open spec fn outcome_told(actions: Seq<ResearchActionView>) -> Option<
    Result<Seq<char>, Seq<char>>,
> {
    match actions.last() {
        ResearchActionView::Update(ResearchUpdateView::Done(r)) => Some(r),
        _ => None,
    }
}

/// What the searchers are sent out for by the last of the actions: a prompt
/// and a label for each.
pub open spec fn sent_out(actions: Seq<ResearchActionView>) -> Option<
    Seq<(Seq<char>, Seq<char>)>,
> {
    match actions.last() {
        ResearchActionView::Search { items, .. } => Some(items),
        _ => None,
    }
}

/// The writer works from the verified text: its request ends with exactly the
/// text that the verifier gave, and does not depend on the draft that the job
/// held.
pub proof fn the_writer_gets_the_verified_text(
    s: ResearchJobView,
    text: Seq<char>,
    other_draft: Seq<char>,
)
    requires
        s.phase is Verifying,
        !blank(text),
    ensures
        ({
            let step = next(s, ResearchEventView::Verified(text));
            let other = ResearchJobView { draft: other_draft, ..s };
            &&& step.0.phase is Writing
            &&& asked(step.1, false, WRITER_PROMPT@) matches Some(user) && ("Verified draft:\n"@
                + text).is_suffix_of(user)
            &&& next(other, ResearchEventView::Verified(text)).1 == step.1
        }),
{
    trimming_cuts_whitespace(text);
    let user = asked(next(s, ResearchEventView::Verified(text)).1, false, WRITER_PROMPT@)->0;
    let end = "Verified draft:\n"@ + text;
    assert(user.skip(user.len() - end.len()) =~= end);
}

/// Where the verifier gives nothing, the writer works from the draft.
pub proof fn blank_verification_leaves_the_draft(s: ResearchJobView, text: Seq<char>)
    requires
        s.phase is Verifying,
        blank(text),
    ensures
        ({
            let step = next(s, ResearchEventView::Verified(text));
            &&& step.0.phase is Writing
            &&& asked(step.1, false, WRITER_PROMPT@) matches Some(user) && ("Verified draft:\n"@
                + s.draft).is_suffix_of(user)
        }),
{
    trimming_cuts_whitespace(text);
    let user = asked(next(s, ResearchEventView::Verified(text)).1, false, WRITER_PROMPT@)->0;
    let end = "Verified draft:\n"@ + s.draft;
    assert(user.skip(user.len() - end.len()) =~= end);
}

/// The writer knows the topic and every pinned source.
pub proof fn the_writer_knows_topic_and_pins(s: ResearchJobView, text: Seq<char>, i: int)
    requires
        s.phase is Verifying,
        0 <= i < s.pinned.len(),
    ensures
        ({
            let user = asked(
                next(s, ResearchEventView::Verified(text)).1,
                false,
                WRITER_PROMPT@,
            );
            user is Some && within(s.topic, user->0) && within(s.pinned[i], user->0)
        }),
{
    let user = asked(next(s, ResearchEventView::Verified(text)).1, false, WRITER_PROMPT@)->0;
    let heading = "Prioritize these pinned sources in the final report if their content is present in the verified draft below:\n"@;
    let draft = if trim(text).len() == 0 { s.draft } else { text };
    pins_stand(s.topic, heading, s.pinned, "Verified draft:\n"@ + draft, i);
}

proof fn pins_stand(
    topic: Seq<char>,
    heading: Seq<char>,
    pinned: Seq<Seq<char>>,
    rest: Seq<char>,
    i: int,
)
    requires
        0 <= i < pinned.len(),
    ensures
        within(topic, crate::research::with_pinned(topic, heading, pinned, rest)),
        within(pinned[i], crate::research::with_pinned(topic, heading, pinned, rest)),
        within(rest, crate::research::with_pinned(topic, heading, pinned, rest)),
{
    let all = crate::research::with_pinned(topic, heading, pinned, rest);
    let list = join(pinned, "\n"@);
    assert(all =~= "Topic: "@ + topic + ("\n\n"@ + heading + list + "\n\n"@ + rest));
    stands_between("Topic: "@, topic, "\n\n"@ + heading + list + "\n\n"@ + rest);
    assert(all =~= ("Topic: "@ + topic + "\n\n"@ + heading) + list + ("\n\n"@ + rest));
    stands_between("Topic: "@ + topic + "\n\n"@ + heading, list, "\n\n"@ + rest);
    joined_parts_stand(pinned, "\n"@, i);
    within_carries(pinned[i], list, all);
    stands_last("Topic: "@ + topic + "\n\n"@ + heading + list + "\n\n"@, rest);
}

/// The report is what the writer gave, without whitespace around it, and ends
/// the job.
pub proof fn the_report_is_what_the_writer_gave(
    s: ResearchJobView,
    text: Seq<char>,
    objects: Option<Seq<PlanQuestionView>>,
)
    requires
        s.phase is Writing,
    ensures
        ({
            let step = next(s, ResearchEventView::Reply { result: Ok(text), objects });
            &&& step.0.phase is Finished
            &&& outcome_told(step.1) == Some(Ok::<Seq<char>, Seq<char>>(trim(text)))
        }),
{
}

/// A failed call of a model ends the job, wherever it stands, and the outcome
/// gives the reason.
pub proof fn a_failed_call_ends_the_job(
    s: ResearchJobView,
    e: Seq<char>,
    objects: Option<Seq<PlanQuestionView>>,
)
    requires
        s.phase is Scoping || s.phase is Planning || s.phase is Judging || s.phase is Synthesizing
            || s.phase is Criticizing || s.phase is Resolving || s.phase is Writing,
    ensures
        ({
            let step = next(s, ResearchEventView::Reply { result: Err(e), objects });
            &&& step.0.phase is Finished
            &&& outcome_told(step.1) matches Some(Err(reason)) && e.is_suffix_of(reason)
        }),
{
    let step = next(s, ResearchEventView::Reply { result: Err(e), objects });
    let reason = outcome_told(step.1)->0->Err_0;
    assert(reason.skip(reason.len() - e.len()) =~= e);
}

/// The draft is what the synthesizer gave, without whitespace around it. The
/// critic is told the topic, and its request ends with that draft.
pub proof fn the_critic_gets_the_draft(
    s: ResearchJobView,
    second: bool,
    text: Seq<char>,
    objects: Option<Seq<PlanQuestionView>>,
)
    requires
        s.phase == (ResearchPhase::Synthesizing { second }),
    ensures
        ({
            let step = next(s, ResearchEventView::Reply { result: Ok(text), objects });
            &&& step.0.phase == (ResearchPhase::Criticizing { second })
            &&& step.0.draft == trim(text)
            &&& step.0.findings == s.findings
            &&& asked(step.1, false, CRITIC_PROMPT@) matches Some(user) && within(s.topic, user)
                && ("Draft:\n"@ + trim(text)).is_suffix_of(user)
        }),
{
    let step = next(s, ResearchEventView::Reply { result: Ok(text), objects });
    let user = asked(step.1, false, CRITIC_PROMPT@)->0;
    assert(user =~= "Topic: "@ + s.topic + ("\n\nDraft:\n"@ + trim(text)));
    stands_between("Topic: "@, s.topic, "\n\nDraft:\n"@ + trim(text));
    reveal_strlit("\n\nDraft:\n");
    reveal_strlit("Draft:\n");
    let end = "Draft:\n"@ + trim(text);
    assert(user.skip(user.len() - end.len()) =~= end);
}

/// A critic that is satisfied sends the draft, the topic and every finding to
/// the verifier.
pub proof fn a_satisfied_critic_leads_to_the_verifier(
    s: ResearchJobView,
    second: bool,
    text: Seq<char>,
    objects: Option<Seq<PlanQuestionView>>,
)
    requires
        s.phase == (ResearchPhase::Criticizing { second }),
        ascii_upper(trim(trim(text))) == "SATISFIED"@,
    ensures
        ({
            let step = next(s, ResearchEventView::Reply { result: Ok(text), objects });
            &&& step.0 == (ResearchJobView { phase: ResearchPhase::Verifying, ..s })
            &&& verifier_is_told(step.1, s.topic, s.draft, s.findings)
        }),
{
    verifier_text_holds(s.topic, s.draft, s.findings);
}

/// Whether the verifier is told the topic and every finding, and its request
/// ends with the draft.
pub open spec fn verifier_is_told(
    actions: Seq<ResearchActionView>,
    topic: Seq<char>,
    draft: Seq<char>,
    findings: Seq<Seq<char>>,
) -> bool {
    handed_to_verifier(actions) matches Some(user) && within(topic, user) && ("Draft:\n"@
        + draft).is_suffix_of(user) && forall|i: int|
        0 <= i < findings.len() ==> within(#[trigger] findings[i], user)
}

proof fn verifier_text_holds(topic: Seq<char>, draft: Seq<char>, findings: Seq<Seq<char>>)
    ensures
        ({
            let user = crate::research::verifier_text(topic, draft, findings);
            &&& within(topic, user)
            &&& ("Draft:\n"@ + draft).is_suffix_of(user)
            &&& forall|i: int| 0 <= i < findings.len() ==> within(#[trigger] findings[i], user)
        }),
{
    let user = crate::research::verifier_text(topic, draft, findings);
    let list = join(findings, "\n\n"@);
    let tail = "\n\nDraft:\n"@ + draft;
    assert(user =~= "Topic: "@ + topic + ("\n\nSource findings:\n"@ + list + tail));
    stands_between("Topic: "@, topic, "\n\nSource findings:\n"@ + list + tail);
    assert(user =~= ("Topic: "@ + topic + "\n\nSource findings:\n"@) + list + tail);
    stands_between("Topic: "@ + topic + "\n\nSource findings:\n"@, list, tail);
    assert forall|i: int| 0 <= i < findings.len() implies within(#[trigger] findings[i], user) by {
        joined_parts_stand(findings, "\n\n"@, i);
        within_carries(findings[i], list, user);
    }
    reveal_strlit("\n\nDraft:\n");
    reveal_strlit("Draft:\n");
    let end = "Draft:\n"@ + draft;
    assert(user.skip(user.len() - end.len()) =~= end);
}

/// A contradiction that the critic names goes to the stronger model, with the
/// topic, the draft and every finding.
pub proof fn a_contradiction_goes_to_the_resolver(
    s: ResearchJobView,
    second: bool,
    desc: Seq<char>,
    text: Seq<char>,
    objects: Option<Seq<PlanQuestionView>>,
)
    requires
        s.phase == (ResearchPhase::Criticizing { second }),
        !blank(desc),
        trim(trim(text)) == "CONTRADICTION:"@ + desc,
    ensures
        ({
            let step = next(s, ResearchEventView::Reply { result: Ok(text), objects });
            &&& step.0 == (ResearchJobView { phase: ResearchPhase::Resolving, ..s })
            &&& asked(step.1, true, ESCALATION_PROMPT@) matches Some(user) && within(s.topic, user)
                && within(s.draft, user) && within(trim(desc), user) && forall|i: int|
                0 <= i < s.findings.len() ==> within(#[trigger] s.findings[i], user)
        }),
{
    let t = trim(trim(text));
    reveal_strlit("CONTRADICTION:");
    reveal_strlit("SATISFIED");
    assert(t[13] == ':');
    assert(ascii_upper(t)[13] == ':');
    assert(ascii_upper(t).len() > 9);
    assert(t.skip("CONTRADICTION:"@.len() as int) =~= desc);
    assert("CONTRADICTION:"@.is_prefix_of(t));
    trimming_cuts_whitespace(desc);
    let d = trim(desc);
    let user = crate::research::escalation_text(s.topic, s.draft, s.findings, d);
    let list = join(s.findings, "\n\n"@);
    let (a, b, c) = (
        "Topic: "@ + s.topic + "\n\nContradiction: "@,
        "\n\nDraft:\n"@,
        "\n\nSource findings:\n"@,
    );
    assert(user =~= "Topic: "@ + s.topic + ("\n\nContradiction: "@ + d + b + s.draft + c + list));
    stands_between("Topic: "@, s.topic, "\n\nContradiction: "@ + d + b + s.draft + c + list);
    assert(user =~= a + d + (b + s.draft + c + list));
    stands_between(a, d, b + s.draft + c + list);
    assert(user =~= (a + d + b) + s.draft + (c + list));
    stands_between(a + d + b, s.draft, c + list);
    stands_last(a + d + b + s.draft + c, list);
    assert forall|i: int| 0 <= i < s.findings.len() implies within(
        #[trigger] s.findings[i],
        user,
    ) by {
        joined_parts_stand(s.findings, "\n\n"@, i);
        within_carries(s.findings[i], list, user);
    }
}

/// The paragraph that settles a contradiction joins the draft, and both go to
/// the verifier.
pub proof fn the_settling_paragraph_joins_the_draft(
    s: ResearchJobView,
    text: Seq<char>,
    objects: Option<Seq<PlanQuestionView>>,
)
    requires
        s.phase is Resolving,
    ensures
        ({
            let step = next(s, ResearchEventView::Reply { result: Ok(text), objects });
            &&& step.0.phase is Verifying
            &&& step.0.draft == s.draft + "\n\n"@ + trim(text)
            &&& verifier_is_told(step.1, s.topic, s.draft + "\n\n"@ + trim(text), s.findings)
        }),
{
    verifier_text_holds(s.topic, s.draft + "\n\n"@ + trim(text), s.findings);
}

/// The findings of a round join those that are there, none is lost, and the
/// sources that the new ones cite are linked. The user's instructions are
/// taken up next.
pub proof fn findings_of_a_round_are_kept(
    s: ResearchJobView,
    second: bool,
    found: Seq<Seq<char>>,
)
    requires
        s.phase == (ResearchPhase::Searching { second }),
    ensures
        ({
            let step = next(s, ResearchEventView::Found(found));
            &&& step.0.phase == (ResearchPhase::Draining { second })
            &&& step.0.findings == s.findings + found
            &&& step.1.len() == 2 && step.1.last() is DrainSteers
            &&& step.1[0] matches ResearchActionView::Persist { findings } && found.is_suffix_of(
                findings,
            ) && findings.is_suffix_of(s.findings + found)
        }),
{
    let all = s.findings + found;
    assert(all.skip(all.len() - found.len()) =~= found);
    assert(all.skip(0) =~= all);
    assert(found.skip(0) =~= found);
}

/// Every instruction of the user is searched for, one searcher for each, and
/// shown under a number of its own.
pub proof fn every_instruction_is_searched(
    s: ResearchJobView,
    second: bool,
    steers: Seq<Seq<char>>,
)
    requires
        s.phase == (ResearchPhase::Draining { second }),
        steers.len() > 0,
        s.steer_seq + steers.len() <= usize::MAX,
    ensures
        ({
            let step = next(s, ResearchEventView::Steers(steers));
            &&& step.0.phase == (ResearchPhase::Steering { second })
            &&& step.0.findings == s.findings
            &&& sent_out(step.1) matches Some(items) && items.len() == steers.len() && forall|i: int|
                0 <= i < steers.len() ==> (#[trigger] items[i]) == (steers[i], steers[i])
            &&& step.1.len() == steers.len() + 1
            &&& forall|i: int|
                0 <= i < steers.len() ==> #[trigger] step.1[i] == ResearchActionView::Update(
                    ResearchUpdateView::Stage {
                        label: "steer #"@ + decimal((s.steer_seq + i + 1) as nat),
                        detail: steers[i],
                    },
                )
        }),
{
}

/// Without instructions the findings are merged as they are; with them, those
/// of their searchers join first.
pub proof fn all_findings_are_merged(
    s: ResearchJobView,
    second: bool,
    found: Seq<Seq<char>>,
)
    ensures
        s.phase == (ResearchPhase::Draining { second }) ==> ({
            let step = next(s, ResearchEventView::Steers(Seq::empty()));
            &&& step.0 == (ResearchJobView { phase: ResearchPhase::Merging { second }, ..s })
            &&& step.1.last() == (ResearchActionView::Dedup { findings: s.findings })
        }),
        s.phase == (ResearchPhase::Steering { second }) ==> ({
            let step = next(s, ResearchEventView::Found(found));
            &&& step.0.phase == (ResearchPhase::Merging { second })
            &&& step.0.findings == s.findings + found
            &&& step.1[0] == (ResearchActionView::Persist { findings: found })
            &&& step.1.last() == (ResearchActionView::Dedup { findings: s.findings + found })
        }),
{
}

/// The synthesizer is told the topic, every merged finding and every pinned
/// source.
pub proof fn the_synthesizer_gets_every_finding(
    s: ResearchJobView,
    second: bool,
    findings: Seq<Seq<char>>,
)
    requires
        s.phase == (ResearchPhase::Merging { second }),
    ensures
        ({
            let step = next(s, ResearchEventView::Deduped(findings));
            &&& step.0 == (ResearchJobView { phase: ResearchPhase::Synthesizing { second }, ..s })
            &&& asked(step.1, false, SYNTHESIZER_PROMPT@) matches Some(user) && within(
                s.topic,
                user,
            ) && (forall|i: int|
                0 <= i < findings.len() ==> within(#[trigger] findings[i], user)) && (forall|i: int|
                0 <= i < s.pinned.len() ==> within(#[trigger] s.pinned[i], user))
        }),
{
    let user = crate::research::synthesis_text(s.topic, findings, s.pinned);
    let heading = "Prioritize these pinned sources in the synthesis if their content is present in the findings below:\n"@;
    let body = join(headed_findings(findings), "\n\n"@);
    if s.pinned.len() > 0 {
        assert forall|i: int| 0 <= i < s.pinned.len() implies within(
            #[trigger] s.pinned[i],
            user,
        ) by {
            pins_stand(s.topic, heading, s.pinned, body, i);
        }
        pins_stand(s.topic, heading, s.pinned, body, 0);
    } else {
        assert(user =~= "Topic: "@ + s.topic + ("\n\n"@ + body));
        stands_between("Topic: "@, s.topic, "\n\n"@ + body);
        stands_last("Topic: "@ + s.topic + "\n\n"@, body);
    }
    assert forall|i: int| 0 <= i < findings.len() implies within(#[trigger] findings[i], user) by {
        let h = headed_findings(findings)[i];
        joined_parts_stand(headed_findings(findings), "\n\n"@, i);
        stands_last("--- Searcher "@ + decimal((i + 1) as nat) + " findings ---\n"@, findings[i]);
        within_carries(findings[i], h, body);
        within_carries(findings[i], body, user);
    }
}

/// One searcher goes out for each question of the plan, under the question's
/// own label, and knows the topic and the question's whole brief. The pinned
/// sources are kept.
pub proof fn every_question_is_searched(s: ResearchJobView, urls: Seq<Seq<char>>)
    requires
        s.phase is Pinning,
    ensures
        ({
            let step = next(s, ResearchEventView::Pinned(urls));
            &&& step.0.phase == (ResearchPhase::Searching { second: false })
            &&& step.0.pinned == urls
            &&& step.0.questions == s.questions
            &&& sent_out(step.1) matches Some(items) && items.len() == s.questions.len()
                && forall|i: int|
                0 <= i < s.questions.len() ==> (#[trigger] items[i]).1 == s.questions[i].question
                    && briefed(items[i].0, s.questions[i], s.topic)
        }),
{
    let items = sent_out(next(s, ResearchEventView::Pinned(urls)).1)->0;
    assert forall|i: int| 0 <= i < s.questions.len() implies (#[trigger] items[i]).1
        == s.questions[i].question && briefed(items[i].0, s.questions[i], s.topic) by {
        prompt_briefs(s.questions[i], s.topic);
    }
}

/// Whether a prompt holds the topic, the question and all of its brief.
pub open spec fn briefed(prompt: Seq<char>, q: PlanQuestionView, topic: Seq<char>) -> bool {
    &&& within(topic, prompt)
    &&& within(q.question, prompt)
    &&& within(q.why, prompt)
    &&& forall|k: int| 0 <= k < q.angles.len() ==> within(#[trigger] q.angles[k], prompt)
    &&& forall|k: int| 0 <= k < q.sources.len() ==> within(#[trigger] q.sources[k], prompt)
}

proof fn prompt_briefs(q: PlanQuestionView, topic: Seq<char>)
    ensures
        briefed(question_prompt(q, topic), q, topic),
{
    let t = question_prompt(q, topic);
    let head = "Research topic: "@ + topic + "\n\nSub-question: "@ + q.question + "\n"@;
    let why = if q.why.len() == 0 {
        Seq::empty()
    } else {
        "\nWhy this angle matters: "@ + q.why + "\n"@
    };
    let angles = if q.angles.len() == 0 {
        Seq::empty()
    } else {
        "\nAngles to cover: "@ + join(q.angles, "; "@) + "\n"@
    };
    let sources = if q.sources.len() == 0 {
        Seq::empty()
    } else {
        "\nSource leads: "@ + join(q.sources, "; "@) + "\n"@
    };
    assert(t =~= head + why + angles + sources);
    let (a, b) = ("Research topic: "@, "\n\nSub-question: "@);
    assert(head =~= a + topic + (b + q.question + "\n"@));
    stands_between(a, topic, b + q.question + "\n"@);
    assert(head =~= (a + topic + b) + q.question + "\n"@);
    stands_between(a + topic + b, q.question, "\n"@);
    assert(t =~= head + (why + angles + sources));
    stands_first(head, why + angles + sources);
    within_carries(topic, head, t);
    within_carries(q.question, head, t);
    if q.why.len() == 0 {
        assert(t =~= Seq::<char>::empty() + q.why + t);
        stands_between(Seq::empty(), q.why, t);
    } else {
        stands_between("\nWhy this angle matters: "@, q.why, "\n"@);
        assert(t =~= head + why + (angles + sources));
        stands_between(head, why, angles + sources);
        within_carries(q.why, why, t);
    }
    assert forall|k: int| 0 <= k < q.angles.len() implies within(#[trigger] q.angles[k], t) by {
        let list = join(q.angles, "; "@);
        joined_parts_stand(q.angles, "; "@, k);
        stands_between("\nAngles to cover: "@, list, "\n"@);
        within_carries(q.angles[k], list, angles);
        assert(t =~= (head + why) + angles + sources);
        stands_between(head + why, angles, sources);
        within_carries(q.angles[k], angles, t);
    }
    assert forall|k: int| 0 <= k < q.sources.len() implies within(#[trigger] q.sources[k], t) by {
        let list = join(q.sources, "; "@);
        joined_parts_stand(q.sources, "; "@, k);
        stands_between("\nSource leads: "@, list, "\n"@);
        within_carries(q.sources[k], list, sources);
        stands_last(head + why + angles, sources);
        within_carries(q.sources[k], sources, t);
    }
}

/// A usable web survey is the first finding; one that failed is none.
pub proof fn a_usable_survey_is_a_finding(s: ResearchJobView, urls: Seq<Seq<char>>)
    requires
        s.phase is Pinning,
    ensures
        ({
            let findings = next(s, ResearchEventView::Pinned(urls)).0.findings;
            if s.web_survey.len() > 0 && s.web_survey[0] != '[' {
                findings.len() == 1 && within(s.web_survey, findings[0])
            } else {
                findings.len() == 0
            }
        }),
{
    stands_last("--- Survey overview ---\n"@, s.web_survey);
}

/// The gaps that the critic of the first round names are searched for, one
/// searcher for each, in a second round.
pub proof fn named_gaps_are_searched(
    s: ResearchJobView,
    text: Seq<char>,
    objects: Option<Seq<PlanQuestionView>>,
    gaps: Seq<Seq<char>>,
)
    requires
        s.phase == (ResearchPhase::Criticizing { second: false }),
        0 < gaps.len() <= 6,
        crate::research::critique(trim(text)) == crate::research::CritiqueView::Gaps(gaps),
    ensures
        ({
            let step = next(s, ResearchEventView::Reply { result: Ok(text), objects });
            &&& step.0 == (ResearchJobView {
                phase: ResearchPhase::Searching { second: true },
                ..s
            })
            &&& sent_out(step.1) matches Some(items) && items.len() == gaps.len() && forall|i: int|
                0 <= i < gaps.len() ==> (#[trigger] items[i]) == (gaps[i], gaps[i])
        }),
{
}

/// A second round is the last: whatever gaps remain, the draft goes to the
/// verifier.
pub proof fn there_is_no_third_round(
    s: ResearchJobView,
    text: Seq<char>,
    objects: Option<Seq<PlanQuestionView>>,
)
    requires
        s.phase == (ResearchPhase::Criticizing { second: true }),
        !(crate::research::critique(trim(text)) is Contradiction),
    ensures
        ({
            let step = next(s, ResearchEventView::Reply { result: Ok(text), objects });
            &&& step.0 == (ResearchJobView { phase: ResearchPhase::Verifying, ..s })
            &&& verifier_is_told(step.1, s.topic, s.draft, s.findings)
        }),
{
    verifier_text_holds(s.topic, s.draft, s.findings);
}

/// The user's answer to a survey round is kept with what was asked, and the
/// agent that scopes, or the planner, is told of it.
pub proof fn an_answer_is_kept(s: ResearchJobView, text: Seq<char>)
    requires
        s.phase is Answering,
        s.round < 255,
        !blank(text),
    ensures
        ({
            let step = next(s, ResearchEventView::UserReply(Some(text)));
            &&& step.0.answers == s.answers.push((join(s.asked, "\n"@), trim(text)))
            &&& step.0.round == s.round + 1
            &&& s.round < 3 ==> (asked(step.1, false, SURVEY_AGENT_PROMPT@) matches Some(user)
                && within(s.topic, user) && within(trim(text), user) && forall|i: int|
                0 <= i < s.answers.len() ==> within((#[trigger] s.answers[i]).1, user))
            &&& s.round >= 3 ==> step.1.last() is JoinGather && step.0.phase is Gathering
        }),
{
    trimming_cuts_whitespace(text);
    let step = next(s, ResearchEventView::UserReply(Some(text)));
    if s.round < 3 {
        let answers = step.0.answers;
        let user = crate::research::survey_text(s.topic, answers);
        let head = "Research topic: "@ + s.topic + "\n"@;
        let rounds = survey_rounds(answers);
        assert(user =~= "Research topic: "@ + s.topic + ("\n"@ + "\nSo far:\n"@ + rounds));
        stands_between("Research topic: "@, s.topic, "\n"@ + "\nSo far:\n"@ + rounds);
        stands_last(head + "\nSo far:\n"@, rounds);
        survey_round_stands(answers, answers.len() - 1);
        within_carries(trim(text), rounds, user);
        assert forall|i: int| 0 <= i < s.answers.len() implies within(
            (#[trigger] s.answers[i]).1,
            user,
        ) by {
            survey_round_stands(answers, i);
            assert(answers[i] == s.answers[i]);
            within_carries(answers[i].1, rounds, user);
        }
    }
}

proof fn survey_round_stands(rounds: Seq<(Seq<char>, Seq<char>)>, i: int)
    requires
        0 <= i < rounds.len(),
    ensures
        within(rounds[i].0, survey_rounds(rounds)),
        within(rounds[i].1, survey_rounds(rounds)),
    decreases rounds.len(),
{
    let before = survey_rounds(rounds.drop_last());
    let all = survey_rounds(rounds);
    let (a, b) = (
        before + "Round "@ + decimal(rounds.len()) + " — I asked:\n"@,
        "\nThe user answered: "@,
    );
    let last = rounds.last();
    if i == rounds.len() - 1 {
        assert(all =~= a + last.0 + (b + last.1 + "\n"@));
        stands_between(a, last.0, b + last.1 + "\n"@);
        assert(all =~= (a + last.0 + b) + last.1 + "\n"@);
        stands_between(a + last.0 + b, last.1, "\n"@);
    } else {
        survey_round_stands(rounds.drop_last(), i);
        let rest = "Round "@ + decimal(rounds.len()) + " — I asked:\n"@ + last.0 + b + last.1
            + "\n"@;
        assert(all =~= before + rest);
        stands_first(before, rest);
        within_carries(rounds[i].0, before, all);
        within_carries(rounds[i].1, before, all);
    }
}

proof fn planner_round_stands(rounds: Seq<(Seq<char>, Seq<char>)>, i: int)
    requires
        0 <= i < rounds.len(),
    ensures
        within(rounds[i].0, planner_rounds(rounds)),
        within(rounds[i].1, planner_rounds(rounds)),
    decreases rounds.len(),
{
    let before = planner_rounds(rounds.drop_last());
    let all = planner_rounds(rounds);
    let (a, b) = (
        before + "Round "@ + decimal(rounds.len()) + " — asked: "@,
        "\nAnswered: "@,
    );
    let last = rounds.last();
    if i == rounds.len() - 1 {
        assert(all =~= a + last.0 + (b + last.1 + "\n"@));
        stands_between(a, last.0, b + last.1 + "\n"@);
        assert(all =~= (a + last.0 + b) + last.1 + "\n"@);
        stands_between(a + last.0 + b, last.1, "\n"@);
    } else {
        planner_round_stands(rounds.drop_last(), i);
        let rest = "Round "@ + decimal(rounds.len()) + " — asked: "@ + last.0 + b + last.1 + "\n"@;
        assert(all =~= before + rest);
        stands_first(before, rest);
        within_carries(rounds[i].0, before, all);
        within_carries(rounds[i].1, before, all);
    }
}

/// Nothing typed ends the survey, without an answer being kept; a closed
/// channel ends the job.
pub proof fn a_survey_can_be_skipped(s: ResearchJobView, text: Seq<char>)
    requires
        s.phase is Answering,
        blank(text),
    ensures
        ({
            let step = next(s, ResearchEventView::UserReply(Some(text)));
            step.0 == (ResearchJobView { phase: ResearchPhase::Gathering, ..s }) && step.1
                == seq![ResearchActionView::JoinGather]
        }),
        next(s, ResearchEventView::UserReply(None)).0.phase is Finished,
        outcome_told(next(s, ResearchEventView::UserReply(None)).1) matches Some(Err(_)),
{
    trimming_cuts_whitespace(text);
}

/// The planner is told the topic, the user's answers, every local excerpt, and
/// the web survey where it is usable.
pub proof fn the_planner_knows_what_was_gathered(
    s: ResearchJobView,
    excerpts: Seq<Seq<char>>,
    survey: Seq<char>,
)
    requires
        s.phase is Gathering,
    ensures
        ({
            let step = next(s, ResearchEventView::Gathered(Ok((excerpts, survey))));
            &&& step.0 == (ResearchJobView {
                phase: ResearchPhase::Planning,
                web_survey: survey,
                ..s
            })
            &&& asked(step.1, false, PLANNER_PROMPT@) matches Some(user) && {
                &&& within(s.topic, user)
                &&& forall|i: int| 0 <= i < excerpts.len() ==> within(#[trigger] excerpts[i], user)
                &&& survey.len() > 0 && survey[0] != '[' ==> within(survey, user)
                &&& forall|i: int|
                    0 <= i < s.answers.len() ==> within((#[trigger] s.answers[i]).0, user)
                        && within(s.answers[i].1, user)
            }
        }),
{
    let usable = survey.len() > 0 && survey[0] != '[';
    let known = if usable {
        excerpts.push("Preliminary web survey:\n"@ + survey)
    } else {
        excerpts
    };
    let user = crate::research::planner_text(s.topic, s.answers, known);
    let rounds = planner_rounds(s.answers);
    let head = if s.answers.len() == 0 {
        Seq::empty()
    } else {
        "The user answered clarifying questions before planning:\n"@ + rounds + "\n"@
    };
    let list = join(known, "\n\n"@);
    let mid = "\n\nAlready known (from local files and/or a preliminary web survey) — plan sub-questions for the gaps, not what's already covered:\n"@;
    let rest = if known.len() == 0 { s.topic } else { "Topic: "@ + s.topic + mid + list };
    assert(user =~= head + rest);
    stands_first(head, rest);
    stands_last(head, rest);
    if known.len() > 0 {
        assert(rest =~= "Topic: "@ + s.topic + (mid + list));
        stands_between("Topic: "@, s.topic, mid + list);
        within_carries(s.topic, rest, user);
        stands_last("Topic: "@ + s.topic + mid, list);
        within_carries(list, rest, user);
    }
    assert forall|i: int| 0 <= i < excerpts.len() implies within(#[trigger] excerpts[i], user) by {
        joined_parts_stand(known, "\n\n"@, i);
        assert(known[i] == excerpts[i]);
        within_carries(excerpts[i], list, user);
    }
    if usable {
        joined_parts_stand(known, "\n\n"@, known.len() - 1);
        stands_last("Preliminary web survey:\n"@, survey);
        within_carries(survey, known.last(), list);
        within_carries(survey, list, user);
    }
    assert forall|i: int| 0 <= i < s.answers.len() implies within(
        (#[trigger] s.answers[i]).0,
        user,
    ) && within(s.answers[i].1, user) by {
        planner_round_stands(s.answers, i);
        stands_between(
            "The user answered clarifying questions before planning:\n"@,
            rounds,
            "\n"@,
        );
        within_carries(s.answers[i].0, rounds, head);
        within_carries(s.answers[i].1, rounds, head);
        within_carries(s.answers[i].0, head, user);
        within_carries(s.answers[i].1, head, user);
    }
}

/// The plan that a gated job shows is the plan that it holds; one that is not
/// gated goes on with it at once.
pub proof fn the_plan_shown_is_the_plan_held(
    s: ResearchJobView,
    text: Seq<char>,
    objects: Option<Seq<PlanQuestionView>>,
)
    requires
        s.phase is Planning,
    ensures
        ({
            let step = next(s, ResearchEventView::Reply { result: Ok(text), objects });
            if step.0.phase is Finished {
                outcome_told(step.1) matches Some(Err(_))
            } else if s.gated {
                &&& step.0.phase is Approving
                &&& step.1.last() is AwaitUser
                &&& step.1[step.1.len() - 2] == ResearchActionView::Update(
                    ResearchUpdateView::PlanReady { questions: step.0.questions, rework: false },
                )
            } else {
                step.0.phase is Pinning && step.1.last() is ReadPinned
            }
        }),
{
}

/// Nothing typed approves the plan as it is. A word on it goes to the approval
/// agent, with the topic and every question of the plan, and changes nothing
/// yet.
pub proof fn a_word_on_the_plan_is_read(s: ResearchJobView, text: Seq<char>)
    requires
        s.phase is Approving,
    ensures
        ({
            let step = next(s, ResearchEventView::UserReply(Some(text)));
            if blank(text) {
                step.0 == (ResearchJobView { phase: ResearchPhase::Pinning, ..s }) && step.1
                    == seq![ResearchActionView::ReadPinned]
            } else {
                &&& step.0 == (ResearchJobView { phase: ResearchPhase::Judging, ..s })
                &&& asked(step.1, false, PLAN_APPROVAL_PROMPT@) matches Some(user) && within(
                    s.topic,
                    user,
                ) && ("User reply: "@ + text).is_suffix_of(user) && forall|i: int|
                    0 <= i < s.questions.len() ==> within(
                        (#[trigger] s.questions[i]).question,
                        user,
                    )
            }
        }),
        next(s, ResearchEventView::UserReply(None)).0.phase is Finished,
        outcome_told(next(s, ResearchEventView::UserReply(None)).1) matches Some(Err(_)),
{
    trimming_cuts_whitespace(text);
    let user = crate::research::approval_text(s.topic, s.questions, text);
    let plan = rendered_plan(s.questions);
    let tail = "\n\nUser reply: "@ + text;
    assert(user =~= "Topic: "@ + s.topic + ("\n\nPlan:\n"@ + plan + tail));
    stands_between("Topic: "@, s.topic, "\n\nPlan:\n"@ + plan + tail);
    assert(user =~= ("Topic: "@ + s.topic + "\n\nPlan:\n"@) + plan + tail);
    stands_between("Topic: "@ + s.topic + "\n\nPlan:\n"@, plan, tail);
    reveal_strlit("\n\nUser reply: ");
    reveal_strlit("User reply: ");
    let end = "User reply: "@ + text;
    assert(user.skip(user.len() - end.len()) =~= end);
    assert forall|i: int| 0 <= i < s.questions.len() implies within(
        (#[trigger] s.questions[i]).question,
        user,
    ) by {
        every_question_is_rendered(s.questions, i);
        within_carries(s.questions[i].question, plan, user);
    }
}

/// A plan is rendered whole: every question stands in it, with its number and
/// its brief.
pub proof fn every_question_is_rendered(plan: Seq<PlanQuestionView>, i: int)
    requires
        0 <= i < plan.len(),
    ensures
        within(plan[i].question, rendered_plan(plan)),
        within(decimal((i + 1) as nat) + ". "@ + plan[i].question, rendered_plan(plan)),
        within(plan[i].why, rendered_plan(plan)),
        forall|k: int|
            0 <= k < plan[i].angles.len() ==> within(
                #[trigger] plan[i].angles[k],
                rendered_plan(plan),
            ),
        forall|k: int|
            0 <= k < plan[i].sources.len() ==> within(
                #[trigger] plan[i].sources[k],
                rendered_plan(plan),
            ),
{
    let q = plan[i];
    let all = rendered_plan(plan);
    let row = numbered_questions(plan)[i];
    joined_parts_stand(numbered_questions(plan), "\n"@, i);
    let head = decimal((i + 1) as nat) + ". "@ + q.question;
    let why = if q.why.len() == 0 { Seq::empty() } else { "\n   Why: "@ + q.why };
    let angles = if q.angles.len() == 0 {
        Seq::empty()
    } else {
        "\n   Angles: "@ + join(q.angles, "; "@)
    };
    let sources = if q.sources.len() == 0 {
        Seq::empty()
    } else {
        "\n   Sources: "@ + join(q.sources, "; "@)
    };
    assert(row =~= head + why + angles + sources);
    assert(row =~= head + (why + angles + sources));
    stands_first(head, why + angles + sources);
    within_carries(head, row, all);
    stands_last(decimal((i + 1) as nat) + ". "@, q.question);
    within_carries(q.question, head, all);
    if q.why.len() == 0 {
        assert(all =~= Seq::<char>::empty() + q.why + all);
        stands_between(Seq::empty(), q.why, all);
    } else {
        stands_last("\n   Why: "@, q.why);
        assert(row =~= head + why + (angles + sources));
        stands_between(head, why, angles + sources);
        within_carries(q.why, why, row);
        within_carries(q.why, row, all);
    }
    assert forall|k: int| 0 <= k < q.angles.len() implies within(#[trigger] q.angles[k], all) by {
        let list = join(q.angles, "; "@);
        joined_parts_stand(q.angles, "; "@, k);
        stands_last("\n   Angles: "@, list);
        within_carries(q.angles[k], list, angles);
        assert(row =~= (head + why) + angles + sources);
        stands_between(head + why, angles, sources);
        within_carries(q.angles[k], angles, row);
        within_carries(q.angles[k], row, all);
    }
    assert forall|k: int| 0 <= k < q.sources.len() implies within(#[trigger] q.sources[k], all) by {
        let list = join(q.sources, "; "@);
        joined_parts_stand(q.sources, "; "@, k);
        stands_last("\n   Sources: "@, list);
        within_carries(q.sources[k], list, sources);
        stands_last(head + why + angles, sources);
        within_carries(q.sources[k], sources, row);
        within_carries(q.sources[k], row, all);
    }
}

/// A reply of the approval agent that reads APPROVED lets the plan run as it
/// is.
pub proof fn an_approved_plan_runs_unchanged(
    s: ResearchJobView,
    text: Seq<char>,
    objects: Option<Seq<PlanQuestionView>>,
)
    requires
        s.phase is Judging,
        ascii_upper(trim(trim(text))) == "APPROVED"@,
    ensures
        ({
            let step = next(s, ResearchEventView::Reply { result: Ok(text), objects });
            step.0 == (ResearchJobView { phase: ResearchPhase::Pinning, ..s }) && step.1
                == seq![ResearchActionView::ReadPinned]
        }),
{
    assert("APPROVED"@.take("APPROVED"@.len() as int) =~= "APPROVED"@);
}

/// A revised plan takes the place of the one before and is shown again, once;
/// a second revision ends the job.
pub proof fn a_revised_plan_is_shown_again(
    s: ResearchJobView,
    text: Seq<char>,
    objects: Option<Seq<PlanQuestionView>>,
    plan: Seq<PlanQuestionView>,
)
    requires
        s.phase is Judging,
        crate::research::approval(trim(text), objects) == crate::research::ApprovalView::Revised(
            plan,
        ),
    ensures
        ({
            let step = next(s, ResearchEventView::Reply { result: Ok(text), objects });
            if s.rework {
                step.0.phase is Finished && outcome_told(step.1) matches Some(Err(_))
            } else {
                &&& step.0 == (ResearchJobView {
                    phase: ResearchPhase::Approving,
                    questions: plan,
                    rework: true,
                    ..s
                })
                &&& step.1 == seq![
                    ResearchActionView::Update(
                        ResearchUpdateView::PlanReady { questions: plan, rework: true },
                    ),
                    ResearchActionView::AwaitUser,
                ]
            }
        }),
{
}

/// A job starts with a web survey on its topic. A gated one asks the scoping
/// agent, who is told the topic; one that is not waits for what is gathered.
pub proof fn a_job_starts_from_its_topic(topic: Seq<char>, gated: bool)
    ensures
        ({
            let t = started(topic, gated);
            &&& t.0.topic == topic && t.0.gated == gated
            &&& t.0.answers.len() == 0 && t.0.findings.len() == 0 && t.0.questions.len() == 0
            &&& exists|i: int|
                0 <= i < t.1.len() && (#[trigger] t.1[i] matches ResearchActionView::Gather {
                    survey_question,
                } && within(topic, survey_question))
            &&& if gated {
                t.0.phase is Scoping && (asked(t.1, false, SURVEY_AGENT_PROMPT@) matches Some(user)
                    && within(topic, user))
            } else {
                t.0.phase is Gathering && t.1.last() is JoinGather
            }
        }),
{
    let t = started(topic, gated);
    let q = crate::pipeline::survey_question(topic);
    let (a, b) = (
        "Conduct a broad preliminary survey of this research topic before planning: "@,
        ". Identify the major concepts, current debates, useful source types, and important evidence gaps."@,
    );
    stands_between(a, topic, b);
    assert(t.1[1] == (ResearchActionView::Gather { survey_question: q }));
    if gated {
        stands_between("Research topic: "@, topic, "\n"@);
    }
}

/// The topic stays what it is, and the findings only grow once the searchers
/// are out.
pub proof fn nothing_found_is_lost(s: ResearchJobView, ev: ResearchEventView)
    ensures
        next(s, ev).0.topic == s.topic,
        next(s, ev).0.gated == s.gated,
        !(s.phase is Pinning) ==> s.findings.is_prefix_of(next(s, ev).0.findings),
        !(s.phase is Pinning) ==> next(s, ev).0.pinned == s.pinned,
        !(s.phase is Planning || s.phase is Judging) ==> next(s, ev).0.questions == s.questions,
{
    let t = next(s, ev).0.findings;
    assert(s.findings.is_prefix_of(s.findings));
    if let ResearchEventView::Found(found) = ev {
        assert((s.findings + found).take(s.findings.len() as int) =~= s.findings);
    }
}

} // verus!
