//! The prompts of the research stages and how the replies to them are read.

use crate::json::{json_strings, string_array};
use crate::provider::{request, request_of, ChatMessage};
use crate::text::{
    after_prefix, alphanumeric, ascii_upper, cap, capped_nonempty, chars_of, copied, count, decimal,
    decimal_of, first_word, first_word_of, has_prefix, is_alphanumeric, is_digit, join, joined,
    lines, lines_of, nonempty, pairs, rest_of, same, texts, texts_push, trim, trim_end_marks,
    trim_end_text, trim_start_text, trimmed, trimmed_all, trimmed_end_marks, trimmed_end_text,
    trimmed_start_text, trims, upper_of, views, views_push,
};
use vstd::prelude::*;
use vstd::string::*;

verus! {

/// The most sub-questions that a plan or a list of gaps holds.
pub const MAX_SUBQUESTIONS: usize = 6;

/// The most clarifying questions of one survey round.
pub const MAX_SURVEY_QUESTIONS: usize = 4;

/// The most survey rounds before the survey is taken as complete.
pub const MAX_SURVEY_ROUNDS: u8 = 3;

/// The tool calls that one searcher may make.
pub const RESEARCH_SEARCHER_MAX_ITERS: usize = 6;

/// What the planning stage is told.
pub const PLANNER_PROMPT: &'static str = "You are the planning stage of an automated research pipeline. Given a research topic, decompose it into 3 to 6 focused sub-questions that together cover the topic thoroughly (different angles: definitions, current state, evidence/data, controversies, practical implications — whichever apply). For each sub-question include: 'question' (the sub-question itself), 'why' (one short sentence on the angle it covers), 'angles' (2-5 specific facets to investigate), and 'sources' (1-4 source types or leads likely to answer it). Respond with ONLY a JSON array of objects, no prose, no markdown fences. Example: [{\"question\": \"...\", \"why\": \"...\", \"angles\": [\"...\", \"...\"], \"sources\": [\"...\", \"...\"]}]. Note: searcher agents handling scholarly sub-questions can call search(mode=academic) in addition to search(mode=web), so peer-reviewed angles are fair game.";

/// What the scoping stage is told.
pub const SURVEY_AGENT_PROMPT: &'static str = "You are the scoping stage of a research pipeline. You'll be given a research topic and, on later rounds, the user's answers so far. Ask 1 to 4 focused clarifying questions that would meaningfully change the research plan — scope, depth, angles, constraints — and skip anything you can infer. When you have enough to plan, reply with exactly the single word COMPLETE. Otherwise reply with your numbered questions only, one per line, no preamble, no markdown.";

/// What the approval stage is told.
pub const PLAN_APPROVAL_PROMPT: &'static str = "You are the approval stage of a research pipeline. The user was shown a plan of sub-questions (each with why/angles/sources). If the user's reply approves it — phrases like 'approve', 'looks good', 'go', 'ok', 'yes', or a bare affirmation — reply with exactly the single word APPROVED. Otherwise fold their feedback into the plan: apply the requested changes (drop questions, add angles, reword, add new questions up to 6 total) and reply with ONLY the revised JSON array of plan objects, no prose, no markdown fences. Example: [{\"question\": \"...\", \"why\": \"...\", \"angles\": [\"...\", \"...\"], \"sources\": [\"...\", \"...\"]}]";

/// What a searcher is told.
pub const SEARCHER_PROMPT: &'static str = "You are a research searcher agent. You will be given one focused sub-question. Use search(mode=web) and fetch_url to investigate it thoroughly: search, then fetch and read the most promising pages, and search again with new terms you learn from them if needed. When you have enough to answer well, write a concise findings summary (a few paragraphs, prose, no headers) that directly answers the sub-question, citing sources inline as [n]. End your answer with a line starting exactly with 'Sources:' followed by the numbered list of URLs you used, one per line, matching your [n] citations. Prefer sources from domains you have not already cited — diverse sources make a stronger report.";

/// What the synthesis stage is told.
pub const SYNTHESIZER_PROMPT: &'static str = "You are the synthesis stage of a research pipeline. You'll be given the original topic and findings from several searcher agents, each already citing their own sources. Combine them into a single coherent draft report on the topic: organize by theme (not by sub-question), resolve obvious overlaps, keep every citation but you may renumber them consistently as you merge. Do not invent facts not present in the findings. Output the draft report in markdown, no preamble.";

/// What the critic is told.
pub const CRITIC_PROMPT: &'static str = "You are the critic stage of a research pipeline. Given the original topic and a draft report, decide if it's ready. Respond in exactly one of these forms:\n- the single word SATISFIED, if the draft thoroughly covers the topic with no notable gaps or contradictions.\n- GAPS: followed by a newline-separated bullet list (each line starting with '- ') of specific missing sub-topics or unanswered angles, each phrased as a searchable question.\n- CONTRADICTION: followed by one line describing a specific factual contradiction between sources in the draft that isn't resolved.\nUse CONTRADICTION only for an actual conflict between sources, not a missing angle — missing angles are always GAPS. Respond with nothing else.";

/// What the stage that resolves a contradiction is told.
pub const ESCALATION_PROMPT: &'static str = "You are resolving a contradiction found in a research draft. You are given the topic, the draft, the full set of source findings gathered so far, and a description of the contradiction. Determine which claim the evidence better supports (or that both apply in different contexts) and write one paragraph resolving it, citing the [n] sources involved. Output only that paragraph.";

/// What the verifier is told.
pub const VERIFIER_PROMPT: &'static str = "You are the verifier stage. Given the topic, the gathered source findings (with their citations), and a draft report, check every factual claim in the draft against the source findings. Rewrite the draft unchanged except: (1) remove or mark with '⚠ unverifiable:' any claim not actually supported by the gathered findings; (2) immediately after a claim's citations, judge its confidence from citation count and cross-source agreement and, only for low or medium confidence, append the tag ‹low› or ‹med› right after the citation (high confidence is the default and stays untagged — do not tag it). Output the corrected draft in markdown, nothing else. You have a fetch_url tool restricted to already-cached pages: use it to check any direct quote in the draft against the cached source text, and mark a quote that doesn't actually match with '‹unverified quote›' immediately after it.";

/// What the final writer is told.
pub const WRITER_PROMPT: &'static str = "You are the final writer stage. Given the topic and a verified draft report (with inline [n] citations and prose from earlier stages, possibly including a contradiction-resolution paragraph to fold in), produce the final report: clean markdown, a short introductory paragraph, organized sections with headers, inline [n] citations preserved/renumbered consistently, and a trailing '## Sources' section listing every cited URL as 'n. url'. Output only the final report markdown, nothing else — it will be saved and shown to the user as-is.";

/// One sub-question of a plan with its brief: why it matters, the angles to
/// cover and the sources to look at.
#[derive(Debug, PartialEq, Eq)]
pub struct PlanQuestion {
    pub question: String,
    pub why: String,
    pub angles: Vec<String>,
    pub sources: Vec<String>,
}

/// What a `PlanQuestion` stands for.
#[verifier::ext_equal]
pub struct PlanQuestionView {
    pub question: Seq<char>,
    pub why: Seq<char>,
    pub angles: Seq<Seq<char>>,
    pub sources: Seq<Seq<char>>,
}

impl View for PlanQuestion {
    type V = PlanQuestionView;

    open spec fn view(&self) -> PlanQuestionView {
        PlanQuestionView {
            question: self.question@,
            why: self.why@,
            angles: texts(self.angles@),
            sources: texts(self.sources@),
        }
    }
}

/// A question without a brief.
pub open spec fn bare_question(question: Seq<char>) -> PlanQuestionView {
    PlanQuestionView { question, why: Seq::empty(), angles: Seq::empty(), sources: Seq::empty() }
}

/// The prompt of the searcher of one question.
pub open spec fn question_prompt(q: PlanQuestionView, topic: Seq<char>) -> Seq<char> {
    let head = "Research topic: "@ + topic + "\n\nSub-question: "@ + q.question + "\n"@;
    let why = if q.why.len() == 0 {
        head
    } else {
        head + "\nWhy this angle matters: "@ + q.why + "\n"@
    };
    let angles = if q.angles.len() == 0 {
        why
    } else {
        why + "\nAngles to cover: "@ + join(q.angles, "; "@) + "\n"@
    };
    if q.sources.len() == 0 {
        angles
    } else {
        angles + "\nSource leads: "@ + join(q.sources, "; "@) + "\n"@
    }
}

/// The `n`th question of a plan with its brief indented below it.
pub open spec fn numbered_question(n: nat, q: PlanQuestionView) -> Seq<char> {
    let head = decimal(n) + ". "@ + q.question;
    let why = if q.why.len() == 0 {
        head
    } else {
        head + "\n   Why: "@ + q.why
    };
    let angles = if q.angles.len() == 0 {
        why
    } else {
        why + "\n   Angles: "@ + join(q.angles, "; "@)
    };
    if q.sources.len() == 0 {
        angles
    } else {
        angles + "\n   Sources: "@ + join(q.sources, "; "@)
    }
}

/// The questions of a plan, numbered from one.
pub open spec fn numbered_questions(plan: Seq<PlanQuestionView>) -> Seq<Seq<char>> {
    Seq::new(plan.len(), |i: int| numbered_question((i + 1) as nat, plan[i]))
}

/// A plan as the transcript and the plan file show it.
pub open spec fn rendered_plan(plan: Seq<PlanQuestionView>) -> Seq<char> {
    join(numbered_questions(plan), "\n"@)
}

impl PlanQuestion {
    /// A question without a brief.
    pub fn bare(question: String) -> (r: PlanQuestion)
        ensures
            r@ == bare_question(question@),
    {
        let ghost text = question@;
        let r = PlanQuestion {
            question,
            why: String::new(),
            angles: Vec::new(),
            sources: Vec::new(),
        };
        assert(r@ =~= bare_question(text));
        r
    }

    /// The searcher's prompt: the topic and the question's whole brief.
    pub fn prompt(&self, topic: &str) -> (r: String)
        ensures
            r@ == question_prompt(self@, topic@),
    {
        let mut p = "Research topic: ".to_owned();
        p.append(topic);
        p.append("\n\nSub-question: ");
        p.append(self.question.as_str());
        p.append("\n");
        if !self.why.as_str().is_empty() {
            p.append("\nWhy this angle matters: ");
            p.append(self.why.as_str());
            p.append("\n");
        }
        if self.angles.len() > 0 {
            p.append("\nAngles to cover: ");
            p.append(joined(&self.angles, "; ").as_str());
            p.append("\n");
        }
        if self.sources.len() > 0 {
            p.append("\nSource leads: ");
            p.append(joined(&self.sources, "; ").as_str());
            p.append("\n");
        }
        p
    }

    /// A copy of the question.
    pub fn duplicate(&self) -> (r: PlanQuestion)
        ensures
            r@ == self@,
    {
        let r = PlanQuestion {
            question: self.question.clone(),
            why: self.why.clone(),
            angles: copied(&self.angles),
            sources: copied(&self.sources),
        };
        assert(r@ =~= self@);
        r
    }
}

/// A copy of a plan.
pub fn duplicate_plan(plan: &Vec<PlanQuestion>) -> (r: Vec<PlanQuestion>)
    ensures
        views(r@) == views(plan@),
{
    let mut out: Vec<PlanQuestion> = Vec::new();
    let mut i: usize = 0;
    assert(views(out@) =~= views(plan@).take(0));
    while i < plan.len()
        invariant
            i <= plan@.len(),
            views(out@) == views(plan@).take(i as int),
        decreases plan@.len() - i,
    {
        let q = plan[i].duplicate();
        proof {
            views_push(out@, q);
            assert(views(plan@).take(i as int).push(q@) =~= views(plan@).take(i + 1));
        }
        out.push(q);
        i += 1;
    }
    assert(views(plan@).take(i as int) =~= views(plan@));
    out
}

/// A plan as the transcript and the plan file show it: numbered questions,
/// each with its brief indented below it.
pub fn plan_text(questions: &Vec<PlanQuestion>) -> (r: String)
    ensures
        r@ == rendered_plan(views(questions@)),
{
    let ghost all = numbered_questions(views(questions@));
    let mut parts: Vec<String> = Vec::new();
    let mut i: usize = 0;
    assert(texts(parts@) =~= all.take(0));
    while i < questions.len()
        invariant
            i <= questions@.len(),
            all == numbered_questions(views(questions@)),
            texts(parts@) == all.take(i as int),
        decreases questions@.len() - i,
    {
        let q = &questions[i];
        let mut s = decimal_of(i as u64 + 1);
        s.append(". ");
        s.append(q.question.as_str());
        if !q.why.as_str().is_empty() {
            s.append("\n   Why: ");
            s.append(q.why.as_str());
        }
        if q.angles.len() > 0 {
            s.append("\n   Angles: ");
            s.append(joined(&q.angles, "; ").as_str());
        }
        if q.sources.len() > 0 {
            s.append("\n   Sources: ");
            s.append(joined(&q.sources, "; ").as_str());
        }
        proof {
            assert(s@ == numbered_question((i + 1) as nat, q@));
            texts_push(parts@, s);
            assert(all.take(i as int).push(s@) =~= all.take(i + 1));
        }
        parts.push(s);
        i += 1;
    }
    assert(all.take(i as int) =~= all);
    joined(&parts, "\n")
}

/// The scoping agent's reply: complete, a list of questions, or neither.
#[derive(Debug, PartialEq, Eq)]
pub enum SurveyReply {
    Complete,
    Questions(Vec<String>),
    Malformed,
}

/// The approval agent's verdict on a reply to the plan.
#[derive(Debug, PartialEq, Eq)]
pub enum Approval {
    Approved,
    Revised(Vec<PlanQuestion>),
    Malformed,
}

/// The critic's verdict on a draft.
#[derive(Debug, PartialEq, Eq)]
pub enum Critique {
    Satisfied,
    Gaps(Vec<String>),
    Contradiction(String),
}

/// What a `SurveyReply` stands for.
pub enum SurveyReplyView {
    Complete,
    Questions(Seq<Seq<char>>),
    Malformed,
}

/// What an `Approval` stands for.
pub enum ApprovalView {
    Approved,
    Revised(Seq<PlanQuestionView>),
    Malformed,
}

/// What a `Critique` stands for.
pub enum CritiqueView {
    Satisfied,
    Gaps(Seq<Seq<char>>),
    Contradiction(Seq<char>),
}

impl View for SurveyReply {
    type V = SurveyReplyView;

    open spec fn view(&self) -> SurveyReplyView {
        match *self {
            SurveyReply::Complete => SurveyReplyView::Complete,
            SurveyReply::Questions(qs) => SurveyReplyView::Questions(texts(qs@)),
            SurveyReply::Malformed => SurveyReplyView::Malformed,
        }
    }
}

impl View for Approval {
    type V = ApprovalView;

    open spec fn view(&self) -> ApprovalView {
        match *self {
            Approval::Approved => ApprovalView::Approved,
            Approval::Revised(qs) => ApprovalView::Revised(views(qs@)),
            Approval::Malformed => ApprovalView::Malformed,
        }
    }
}

impl View for Critique {
    type V = CritiqueView;

    open spec fn view(&self) -> CritiqueView {
        match *self {
            Critique::Satisfied => CritiqueView::Satisfied,
            Critique::Gaps(gs) => CritiqueView::Gaps(texts(gs@)),
            Critique::Contradiction(d) => CritiqueView::Contradiction(d@),
        }
    }
}

/// A reply without surrounding whitespace and Markdown fences.
pub open spec fn unfenced(text: Seq<char>) -> Seq<char> {
    trim(
        trim_end_text(
            trim_start_text(trim_start_text(trim(text), "```json"@), "```"@),
            "```"@,
        ),
    )
}

fn unfence<'a>(text: &'a str) -> (r: &'a str)
    ensures
        r@ == unfenced(text@),
{
    trimmed(
        trimmed_end_text(
            trimmed_start_text(trimmed_start_text(trimmed(text), "```json"), "```"),
            "```",
        ),
    )
}

pub open spec fn is_bullet(c: char) -> bool {
    c == '-' || c == '*'
}

/// `s` without its leading run of bullets.
pub open spec fn trim_bullets(s: Seq<char>) -> Seq<char>
    decreases s.len(),
{
    if s.len() > 0 && is_bullet(s[0]) {
        trim_bullets(s.skip(1))
    } else {
        s
    }
}

/// How many digits `s` begins with.
pub open spec fn digit_run(s: Seq<char>) -> nat
    decreases s.len(),
{
    if s.len() > 0 && is_digit(s[0]) {
        digit_run(s.skip(1)) + 1
    } else {
        0
    }
}

/// A line without its list marker: bullets, or a number and `.` or `)`.
pub open spec fn without_marker(line: Seq<char>) -> Seq<char> {
    let s = trim(trim_bullets(trim(line)));
    let n = digit_run(s) as int;
    if 0 < n < s.len() && (s[n] == '.' || s[n] == ')') {
        trim(s.skip(n + 1))
    } else {
        s
    }
}

/// A line without its list marker.
pub fn strip_list_prefix(line: &str) -> (r: String)
    ensures
        r@ == without_marker(line@),
{
    let t = trimmed(line);
    let cs = chars_of(t);
    let n: usize = cs.len();
    let mut i: usize = 0;
    assert(t@.skip(0) =~= t@);
    while i < n && (cs[i] == '-' || cs[i] == '*')
        invariant
            i <= n == cs@.len(),
            cs@ == t@,
            trim_bullets(t@) == trim_bullets(t@.skip(i as int)),
        decreases n - i,
    {
        assert(t@.skip(i as int).skip(1) =~= t@.skip(i + 1));
        i += 1;
    }
    let s = trimmed(rest_of(t, i));
    let ds = chars_of(s);
    let k: usize = leading_digits(s);
    if 0 < k && k < ds.len() && (ds[k] == '.' || ds[k] == ')') {
        trimmed(rest_of(s, k + 1)).to_owned()
    } else {
        s.to_owned()
    }
}

/// The lines without their list markers.
pub open spec fn without_markers(ls: Seq<Seq<char>>) -> Seq<Seq<char>> {
    ls.map_values(|l: Seq<char>| without_marker(l))
}

fn strip_all(ls: &Vec<String>) -> (r: Vec<String>)
    ensures
        texts(r@) == without_markers(texts(ls@)),
{
    let ghost all = without_markers(texts(ls@));
    let mut out: Vec<String> = Vec::new();
    let mut i: usize = 0;
    assert(texts(out@) =~= all.take(0));
    while i < ls.len()
        invariant
            i <= ls@.len(),
            all == without_markers(texts(ls@)),
            texts(out@) == all.take(i as int),
        decreases ls@.len() - i,
    {
        let item = strip_list_prefix(ls[i].as_str());
        proof {
            texts_push(out@, item);
            assert(all.take(i as int).push(item@) =~= all.take(i + 1));
        }
        out.push(item);
        i += 1;
    }
    assert(all.take(i as int) =~= all);
    out
}

/// The sub-questions that a reply lists, as a JSON array of strings or else
/// line by line.
pub open spec fn subquestions(text: Seq<char>) -> Seq<Seq<char>> {
    match json_strings(unfenced(text)) {
        Some(v) => listed(v),
        None => cap(
            nonempty(without_markers(lines(unfenced(text)))),
            MAX_SUBQUESTIONS as int,
        ),
    }
}

/// The strings of a list without surrounding whitespace, those that are not
/// empty, up to the most that a plan holds.
pub open spec fn listed(v: Seq<Seq<char>>) -> Seq<Seq<char>> {
    cap(nonempty(trims(v)), MAX_SUBQUESTIONS as int)
}

/// The sub-questions that a reply lists.
pub fn parse_subquestions(text: &str) -> (r: Vec<String>)
    ensures
        texts(r@) == subquestions(text@),
{
    let t = unfence(text);
    match string_array(t) {
        Some(v) => usable_strings(&v),
        None => usable_lines(t),
    }
}

/// The sub-questions in a list of strings that was read from a reply.
pub fn usable_strings(v: &Vec<String>) -> (r: Vec<String>)
    ensures
        texts(r@) == listed(texts(v@)),
{
    capped_nonempty(&trimmed_all(v), MAX_SUBQUESTIONS)
}

/// The sub-questions in a reply that lists them line by line.
pub fn usable_lines(text: &str) -> (r: Vec<String>)
    ensures
        texts(r@) == cap(nonempty(without_markers(lines(text@))), MAX_SUBQUESTIONS as int),
{
    capped_nonempty(&strip_all(&lines_of(text)), MAX_SUBQUESTIONS)
}

/// Whether a line begins with a list marker: a bullet, or a number and `.` or
/// `)`.
pub open spec fn is_marked(s: Seq<char>) -> bool {
    let n = digit_run(s) as int;
    s.len() > 0 && (is_bullet(s[0]) || (0 < n < s.len() && (s[n] == '.' || s[n] == ')')))
}

/// How many digits a text begins with.
fn leading_digits(s: &str) -> (r: usize)
    ensures
        r == digit_run(s@),
        r <= s@.len(),
{
    let ds = chars_of(s);
    let n: usize = ds.len();
    let mut k: usize = 0;
    assert(s@.skip(0) =~= s@);
    while k < n && '0' <= ds[k] && ds[k] <= '9'
        invariant
            k <= n == ds@.len(),
            ds@ == s@,
            digit_run(s@) == k + digit_run(s@.skip(k as int)),
        decreases n - k,
    {
        assert(s@.skip(k as int).skip(1) =~= s@.skip(k + 1));
        k += 1;
    }
    assert(digit_run(s@) == k);
    k
}

fn marked(s: &str) -> (r: bool)
    ensures
        r == is_marked(s@),
{
    let cs = chars_of(s);
    if cs.len() == 0 {
        return false;
    }
    let n: usize = leading_digits(s);
    cs[0] == '-' || cs[0] == '*' || (0 < n && n < cs.len() && (cs[n] == '.' || cs[n] == ')'))
}

/// The question that a line of a survey reply asks: a line with a list marker
/// or one that ends in a question mark.
pub open spec fn line_question(line: Seq<char>) -> Option<Seq<char>> {
    let s = trim(line);
    let q = without_marker(s);
    if q.len() == 0 || (!is_marked(s) && q.last() != '?') {
        None
    } else {
        Some(q)
    }
}

/// The questions of the lines of a survey reply.
pub open spec fn line_questions(ls: Seq<Seq<char>>) -> Seq<Seq<char>>
    decreases ls.len(),
{
    if ls.len() == 0 {
        Seq::empty()
    } else {
        match line_question(ls.last()) {
            Some(q) => line_questions(ls.drop_last()).push(q),
            None => line_questions(ls.drop_last()),
        }
    }
}

/// How a survey reply is read.
pub open spec fn survey_reply(text: Seq<char>) -> SurveyReplyView {
    let t = trim(text);
    let qs = cap(line_questions(lines(t)), MAX_SURVEY_QUESTIONS as int);
    if ascii_upper(trim_end_marks(first_word(t))) == "COMPLETE"@ {
        SurveyReplyView::Complete
    } else if qs.len() == 0 {
        SurveyReplyView::Malformed
    } else {
        SurveyReplyView::Questions(qs)
    }
}

/// Reads the scoping agent's reply. Its first word ends the survey where it is
/// COMPLETE; else its list-marked and question-shaped lines are the questions,
/// and a reply with neither is malformed.
pub fn parse_survey_reply(text: &str) -> (r: SurveyReply)
    ensures
        r@ == survey_reply(text@),
{
    let t = trimmed(text);
    let head = upper_of(trimmed_end_marks(first_word_of(t)));
    if same(head.as_str(), "COMPLETE") {
        return SurveyReply::Complete;
    }
    let ls = lines_of(t);
    let mut qs: Vec<String> = Vec::new();
    let mut i: usize = 0;
    let ghost max = MAX_SURVEY_QUESTIONS as int;
    assert(texts(ls@).take(0) =~= Seq::<Seq<char>>::empty());
    assert(texts(qs@) =~= Seq::<Seq<char>>::empty());
    while i < ls.len()
        invariant
            i <= ls@.len(),
            max == MAX_SURVEY_QUESTIONS,
            texts(qs@) == cap(line_questions(texts(ls@).take(i as int)), max),
        decreases ls@.len() - i,
    {
        let s = trimmed(ls[i].as_str());
        let q = strip_list_prefix(s);
        proof {
            let taken = texts(ls@).take(i + 1);
            assert(taken.drop_last() =~= texts(ls@).take(i as int));
            assert(taken.last() == ls@[i as int]@);
            let before = line_questions(taken.drop_last());
            assert(texts(qs@).len() == qs@.len());
            if before.len() >= max {
                assert(cap(before.push(q@), max) =~= cap(before, max));
            }
        }
        let n: usize = count(q.as_str());
        if n > 0 && qs.len() < MAX_SURVEY_QUESTIONS && (marked(s) || chars_of(q.as_str())[n - 1]
            == '?') {
            proof {
                texts_push(qs@, q);
            }
            qs.push(q);
        }
        i += 1;
    }
    assert(texts(ls@).take(i as int) =~= texts(ls@));
    assert(texts(qs@).len() == qs@.len());
    if qs.len() == 0 {
        SurveyReply::Malformed
    } else {
        SurveyReply::Questions(qs)
    }
}

/// The first position of `[` or `{` in `s`.
pub open spec fn json_position(s: Seq<char>) -> Option<int>
    decreases s.len(),
{
    if s.len() == 0 {
        None
    } else if s[0] == '[' || s[0] == '{' {
        Some(0int)
    } else {
        match json_position(s.skip(1)) {
            Some(k) => Some(k + 1),
            None => None,
        }
    }
}

/// The first position of `[` or `{` in `s`, counted in characters.
pub fn json_start(s: &str) -> (r: Option<usize>)
    ensures
        match r {
            Some(k) => json_position(s@) == Some(k as int) && k < s@.len(),
            None => json_position(s@) is None,
        },
{
    let cs = chars_of(s);
    let n: usize = cs.len();
    let mut i: usize = 0;
    assert(s@.skip(0) =~= s@);
    while i < n
        invariant
            i <= n == cs@.len(),
            cs@ == s@,
            json_position(s@) == (match json_position(s@.skip(i as int)) {
                Some(k) => Some(k + i),
                None => None::<int>,
            }),
        decreases n - i,
    {
        if cs[i] == '[' || cs[i] == '{' {
            return Some(i);
        }
        assert(s@.skip(i as int).skip(1) =~= s@.skip(i + 1));
        i += 1;
    }
    None
}

/// The part of a reply that is to be read as JSON: what stands from its first
/// `[` or `{` on, once fences are taken off.
pub open spec fn json_part(text: Seq<char>) -> Option<Seq<char>> {
    match json_position(unfenced(text)) {
        Some(k) => Some(unfenced(text).skip(k)),
        None => None,
    }
}

/// The part of a reply that is to be read as JSON.
pub fn plan_candidate<'a>(text: &'a str) -> (r: Option<&'a str>)
    ensures
        match r {
            Some(s) => json_part(text@) == Some(s@),
            None => json_part(text@) is None,
        },
{
    let t = unfence(text);
    match json_start(t) {
        Some(k) => Some(rest_of(t, k)),
        None => None,
    }
}

/// A question without whitespace around its text.
pub open spec fn trimmed_question(q: PlanQuestionView) -> PlanQuestionView {
    PlanQuestionView { question: trim(q.question), ..q }
}

/// The questions whose text is not blank, without whitespace around it.
pub open spec fn usable_questions(qs: Seq<PlanQuestionView>) -> Seq<PlanQuestionView>
    decreases qs.len(),
{
    if qs.len() == 0 {
        Seq::empty()
    } else if trim(qs.last().question).len() == 0 {
        usable_questions(qs.drop_last())
    } else {
        usable_questions(qs.drop_last()).push(trimmed_question(qs.last()))
    }
}

/// Questions without a brief.
pub open spec fn bare_questions(qs: Seq<Seq<char>>) -> Seq<PlanQuestionView> {
    qs.map_values(|q: Seq<char>| bare_question(q))
}

/// The plan that a reply proposes, where `objects` is what its JSON part reads
/// as a list of plan questions.
pub open spec fn plan_blocks(
    text: Seq<char>,
    objects: Option<Seq<PlanQuestionView>>,
) -> Seq<PlanQuestionView> {
    match json_part(text) {
        Some(part) => {
            let blocks = match objects {
                Some(qs) => cap(usable_questions(qs), MAX_SUBQUESTIONS as int),
                None => Seq::empty(),
            };
            if blocks.len() > 0 {
                blocks
            } else {
                match json_strings(part) {
                    Some(v) => bare_questions(listed(v)),
                    None => Seq::empty(),
                }
            }
        },
        None => bare_questions(subquestions(text)),
    }
}

/// What an optional list of plan questions stands for.
pub open spec fn opt_plan(o: Option<Vec<PlanQuestion>>) -> Option<Seq<PlanQuestionView>> {
    match o {
        Some(v) => Some(views(v@)),
        None => None,
    }
}

fn bare_all(qs: Vec<String>) -> (r: Vec<PlanQuestion>)
    ensures
        views(r@) == bare_questions(texts(qs@)),
{
    let ghost all = bare_questions(texts(qs@));
    let mut out: Vec<PlanQuestion> = Vec::new();
    let mut i: usize = 0;
    assert(views(out@) =~= all.take(0));
    while i < qs.len()
        invariant
            i <= qs@.len(),
            all == bare_questions(texts(qs@)),
            views(out@) == all.take(i as int),
        decreases qs@.len() - i,
    {
        let q = PlanQuestion::bare(qs[i].clone());
        proof {
            views_push(out@, q);
            assert(all.take(i as int).push(q@) =~= all.take(i + 1));
        }
        out.push(q);
        i += 1;
    }
    assert(all.take(i as int) =~= all);
    out
}

fn usable_objects(objects: &Vec<PlanQuestion>) -> (r: Vec<PlanQuestion>)
    ensures
        views(r@) == cap(usable_questions(views(objects@)), MAX_SUBQUESTIONS as int),
{
    let ghost max = MAX_SUBQUESTIONS as int;
    let mut out: Vec<PlanQuestion> = Vec::new();
    let mut i: usize = 0;
    assert(views(objects@).take(0) =~= Seq::<PlanQuestionView>::empty());
    assert(views(out@) =~= Seq::<PlanQuestionView>::empty());
    while i < objects.len()
        invariant
            i <= objects@.len(),
            max == MAX_SUBQUESTIONS,
            views(out@) == cap(usable_questions(views(objects@).take(i as int)), max),
        decreases objects@.len() - i,
    {
        let mut q = objects[i].duplicate();
        let question = trimmed(q.question.as_str()).to_owned();
        proof {
            let taken = views(objects@).take(i + 1);
            assert(taken.drop_last() =~= views(objects@).take(i as int));
            assert(taken.last() == q@);
            let before = usable_questions(taken.drop_last());
            assert(views(out@).len() == out@.len());
            if before.len() >= max {
                assert(cap(before.push(trimmed_question(q@)), max) =~= cap(before, max));
            }
        }
        if !question.as_str().is_empty() && out.len() < MAX_SUBQUESTIONS {
            let ghost whole = q@;
            q.question = question;
            proof {
                assert(q@ =~= trimmed_question(whole));
                views_push(out@, q);
            }
            out.push(q);
        }
        i += 1;
    }
    assert(views(objects@).take(i as int) =~= views(objects@));
    out
}

/// The plan that a reply proposes. `objects` is what the reply's JSON part
/// (see `plan_candidate`) reads as a list of plan questions, `None` where it
/// does not. JSON without a usable question gives an empty plan; only a reply
/// without any JSON is read line by line.
pub fn parse_plan_blocks(text: &str, objects: &Option<Vec<PlanQuestion>>) -> (r: Vec<PlanQuestion>)
    ensures
        views(r@) == plan_blocks(text@, opt_plan(*objects)),
{
    match plan_candidate(text) {
        Some(part) => {
            if let Some(qs) = objects {
                let blocks = usable_objects(qs);
                assert(views(blocks@).len() == blocks@.len());
                if blocks.len() > 0 {
                    return blocks;
                }
            }
            match string_array(part) {
                Some(v) => bare_all(usable_strings(&v)),
                None => {
                    let none: Vec<PlanQuestion> = Vec::new();
                    assert(views(none@) =~= Seq::empty());
                    none
                },
            }
        },
        None => bare_all(parse_subquestions(text)),
    }
}

/// Whether a reply, in upper case, says that the plan is approved: it begins
/// with the word APPROVED. Prose may follow.
pub open spec fn says_approved(upper: Seq<char>) -> bool {
    let n = "APPROVED"@.len() as int;
    "APPROVED"@.is_prefix_of(upper) && (upper.len() == n || !is_alphanumeric(upper[n]))
}

fn approves(upper: &str) -> (r: bool)
    ensures
        r == says_approved(upper@),
{
    proof {
        reveal_strlit("APPROVED");
    }
    if !has_prefix(upper, "APPROVED") {
        return false;
    }
    let cs = chars_of(upper);
    cs.len() == 8 || !alphanumeric(cs[8])
}

/// Whether some line of a reply has a list marker.
pub open spec fn has_marked_line(ls: Seq<Seq<char>>) -> bool {
    exists|i: int| 0 <= i < ls.len() && is_marked(trim(#[trigger] ls[i]))
}

/// How an approval reply is read.
pub open spec fn approval(
    text: Seq<char>,
    objects: Option<Seq<PlanQuestionView>>,
) -> ApprovalView {
    let blocks = plan_blocks(text, objects);
    if says_approved(ascii_upper(trim(text))) {
        ApprovalView::Approved
    } else if json_part(text) is None && !has_marked_line(lines(unfenced(text))) {
        ApprovalView::Malformed
    } else if blocks.len() == 0 {
        ApprovalView::Malformed
    } else {
        ApprovalView::Revised(blocks)
    }
}

fn any_marked(ls: &Vec<String>) -> (r: bool)
    ensures
        r == has_marked_line(texts(ls@)),
{
    let mut i: usize = 0;
    while i < ls.len()
        invariant
            i <= ls@.len(),
            forall|j: int| 0 <= j < i ==> !is_marked(trim(#[trigger] texts(ls@)[j])),
        decreases ls@.len() - i,
    {
        let s = trimmed(ls[i].as_str());
        assert(texts(ls@)[i as int] == ls@[i as int]@);
        if marked(s) {
            return true;
        }
        i += 1;
    }
    false
}

/// Reads the approval agent's reply: the word APPROVED, alone or with prose
/// behind it, accepts the plan, a plan array or a marked list is a revision,
/// and anything else is malformed, which never counts as approval. `objects`
/// is as for `parse_plan_blocks`.
pub fn parse_approval(text: &str, objects: &Option<Vec<PlanQuestion>>) -> (r: Approval)
    ensures
        r@ == approval(text@, opt_plan(*objects)),
{
    let upper = upper_of(trimmed(text));
    if approves(upper.as_str()) {
        return Approval::Approved;
    }
    if plan_candidate(text).is_none() && !any_marked(&lines_of(unfence(text))) {
        return Approval::Malformed;
    }
    let qs = parse_plan_blocks(text, objects);
    assert(views(qs@).len() == qs@.len());
    if qs.len() == 0 {
        Approval::Malformed
    } else {
        Approval::Revised(qs)
    }
}

/// The gap that a line of a critique names: a line that begins with a dash.
pub open spec fn line_gap(line: Seq<char>) -> Seq<char> {
    let s = trim(line);
    if s.len() > 0 && s[0] == '-' {
        trim(s.skip(1))
    } else {
        Seq::empty()
    }
}

/// The gaps that the lines of a critique name.
pub open spec fn line_gaps(ls: Seq<Seq<char>>) -> Seq<Seq<char>> {
    ls.map_values(|l: Seq<char>| line_gap(l))
}

/// How a critique is read.
pub open spec fn critique(text: Seq<char>) -> CritiqueView {
    let t = trim(text);
    let desc = trim(t.skip("CONTRADICTION:"@.len() as int));
    let gaps = cap(
        nonempty(line_gaps(lines(t.skip("GAPS:"@.len() as int)))),
        MAX_SUBQUESTIONS as int,
    );
    if ascii_upper(t) == "SATISFIED"@ {
        CritiqueView::Satisfied
    } else if "CONTRADICTION:"@.is_prefix_of(t) && desc.len() > 0 {
        CritiqueView::Contradiction(desc)
    } else if "GAPS:"@.is_prefix_of(t) && gaps.len() > 0 {
        CritiqueView::Gaps(gaps)
    } else {
        CritiqueView::Satisfied
    }
}

fn gaps_in(ls: &Vec<String>) -> (r: Vec<String>)
    ensures
        texts(r@) == line_gaps(texts(ls@)),
{
    let ghost all = line_gaps(texts(ls@));
    let mut out: Vec<String> = Vec::new();
    let mut i: usize = 0;
    assert(texts(out@) =~= all.take(0));
    while i < ls.len()
        invariant
            i <= ls@.len(),
            all == line_gaps(texts(ls@)),
            texts(out@) == all.take(i as int),
        decreases ls@.len() - i,
    {
        let s = trimmed(ls[i].as_str());
        let cs = chars_of(s);
        let gap = if cs.len() > 0 && cs[0] == '-' {
            trimmed(rest_of(s, 1)).to_owned()
        } else {
            String::new()
        };
        proof {
            texts_push(out@, gap);
            assert(all.take(i as int).push(gap@) =~= all.take(i + 1));
        }
        out.push(gap);
        i += 1;
    }
    assert(all.take(i as int) =~= all);
    out
}

/// Reads the critic's reply. What fits none of its three forms counts as
/// satisfied.
pub fn parse_critique(text: &str) -> (r: Critique)
    ensures
        r@ == critique(text@),
{
    let t = trimmed(text);
    if same(upper_of(t).as_str(), "SATISFIED") {
        return Critique::Satisfied;
    }
    if let Some(rest) = after_prefix(t, "CONTRADICTION:") {
        let desc = trimmed(rest);
        if !desc.is_empty() {
            return Critique::Contradiction(desc.to_owned());
        }
    }
    if let Some(rest) = after_prefix(t, "GAPS:") {
        let gaps = capped_nonempty(&gaps_in(&lines_of(rest)), MAX_SUBQUESTIONS);
        assert(texts(gaps@).len() == gaps@.len());
        if gaps.len() > 0 {
            return Critique::Gaps(gaps);
        }
    }
    Critique::Satisfied
}

/// The survey rounds as the planner is told of them.
pub open spec fn planner_rounds(answers: Seq<(Seq<char>, Seq<char>)>) -> Seq<char>
    decreases answers.len(),
{
    if answers.len() == 0 {
        Seq::empty()
    } else {
        planner_rounds(answers.drop_last()) + "Round "@ + decimal(answers.len()) + " — asked: "@
            + answers.last().0 + "\nAnswered: "@ + answers.last().1 + "\n"@
    }
}

/// The planner's request in words: the answers, then the topic, then what is
/// known already.
pub open spec fn planner_text(
    topic: Seq<char>,
    answers: Seq<(Seq<char>, Seq<char>)>,
    known: Seq<Seq<char>>,
) -> Seq<char> {
    let head = if answers.len() == 0 {
        Seq::empty()
    } else {
        "The user answered clarifying questions before planning:\n"@ + planner_rounds(answers)
            + "\n"@
    };
    if known.len() == 0 {
        head + topic
    } else {
        head + "Topic: "@ + topic
            + "\n\nAlready known (from local files and/or a preliminary web survey) — plan sub-questions for the gaps, not what's already covered:\n"@
            + join(known, "\n\n"@)
    }
}

fn planner_rounds_of(answers: &Vec<(String, String)>) -> (r: String)
    ensures
        r@ == planner_rounds(pairs(answers@)),
{
    let mut out = String::new();
    let mut i: usize = 0;
    assert(pairs(answers@).take(0) =~= Seq::<(Seq<char>, Seq<char>)>::empty());
    while i < answers.len()
        invariant
            i <= answers@.len(),
            out@ == planner_rounds(pairs(answers@).take(i as int)),
        decreases answers@.len() - i,
    {
        proof {
            let t = pairs(answers@).take(i + 1);
            assert(t.drop_last() =~= pairs(answers@).take(i as int));
        }
        out.append("Round ");
        out.append(decimal_of(i as u64 + 1).as_str());
        out.append(" — asked: ");
        out.append(answers[i].0.as_str());
        out.append("\nAnswered: ");
        out.append(answers[i].1.as_str());
        out.append("\n");
        i += 1;
    }
    assert(pairs(answers@).take(i as int) =~= pairs(answers@));
    out
}

/// The planner's request: the survey answers, the topic, and what is known
/// already.
pub fn planner_messages_with_context(
    topic: &str,
    answers: &Vec<(String, String)>,
    known: &Vec<String>,
) -> (r: Vec<ChatMessage>)
    ensures
        views(r@) == request(
            PLANNER_PROMPT@,
            planner_text(topic@, pairs(answers@), texts(known@)),
        ),
{
    let mut user = String::new();
    if answers.len() > 0 {
        user = "The user answered clarifying questions before planning:\n".to_owned();
        user.append(planner_rounds_of(answers).as_str());
        user.append("\n");
    }
    if known.len() == 0 {
        user.append(topic);
    } else {
        user.append("Topic: ");
        user.append(topic);
        user.append(
            "\n\nAlready known (from local files and/or a preliminary web survey) — plan sub-questions for the gaps, not what's already covered:\n",
        );
        user.append(joined(known, "\n\n").as_str());
    }
    request_of(PLANNER_PROMPT, user)
}

/// The survey rounds as the scoping agent is told of them.
pub open spec fn survey_rounds(rounds: Seq<(Seq<char>, Seq<char>)>) -> Seq<char>
    decreases rounds.len(),
{
    if rounds.len() == 0 {
        Seq::empty()
    } else {
        survey_rounds(rounds.drop_last()) + "Round "@ + decimal(rounds.len()) + " — I asked:\n"@
            + rounds.last().0 + "\nThe user answered: "@ + rounds.last().1 + "\n"@
    }
}

/// The scoping agent's request in words: the topic and the rounds so far.
pub open spec fn survey_text(topic: Seq<char>, rounds: Seq<(Seq<char>, Seq<char>)>) -> Seq<char> {
    let head = "Research topic: "@ + topic + "\n"@;
    if rounds.len() == 0 {
        head
    } else {
        head + "\nSo far:\n"@ + survey_rounds(rounds)
    }
}

fn survey_rounds_of(rounds: &Vec<(String, String)>) -> (r: String)
    ensures
        r@ == survey_rounds(pairs(rounds@)),
{
    let mut out = String::new();
    let mut i: usize = 0;
    assert(pairs(rounds@).take(0) =~= Seq::<(Seq<char>, Seq<char>)>::empty());
    while i < rounds.len()
        invariant
            i <= rounds@.len(),
            out@ == survey_rounds(pairs(rounds@).take(i as int)),
        decreases rounds@.len() - i,
    {
        proof {
            let t = pairs(rounds@).take(i + 1);
            assert(t.drop_last() =~= pairs(rounds@).take(i as int));
        }
        out.append("Round ");
        out.append(decimal_of(i as u64 + 1).as_str());
        out.append(" — I asked:\n");
        out.append(rounds[i].0.as_str());
        out.append("\nThe user answered: ");
        out.append(rounds[i].1.as_str());
        out.append("\n");
        i += 1;
    }
    assert(pairs(rounds@).take(i as int) =~= pairs(rounds@));
    out
}

/// The scoping agent's request: the topic and the rounds so far.
pub fn survey_messages(topic: &str, rounds: &Vec<(String, String)>) -> (r: Vec<ChatMessage>)
    ensures
        views(r@) == request(SURVEY_AGENT_PROMPT@, survey_text(topic@, pairs(rounds@))),
{
    let mut user = "Research topic: ".to_owned();
    user.append(topic);
    user.append("\n");
    if rounds.len() > 0 {
        user.append("\nSo far:\n");
        user.append(survey_rounds_of(rounds).as_str());
    }
    request_of(SURVEY_AGENT_PROMPT, user)
}

/// The approval agent's request in words.
pub open spec fn approval_text(
    topic: Seq<char>,
    plan: Seq<PlanQuestionView>,
    reply: Seq<char>,
) -> Seq<char> {
    "Topic: "@ + topic + "\n\nPlan:\n"@ + rendered_plan(plan) + "\n\nUser reply: "@ + reply
}

/// The approval agent's request: the plan and the user's reply to it.
pub fn plan_approval_messages(
    topic: &str,
    questions: &Vec<PlanQuestion>,
    user_reply: &str,
) -> (r: Vec<ChatMessage>)
    ensures
        views(r@) == request(
            PLAN_APPROVAL_PROMPT@,
            approval_text(topic@, views(questions@), user_reply@),
        ),
{
    let mut user = "Topic: ".to_owned();
    user.append(topic);
    user.append("\n\nPlan:\n");
    user.append(plan_text(questions).as_str());
    user.append("\n\nUser reply: ");
    user.append(user_reply);
    request_of(PLAN_APPROVAL_PROMPT, user)
}

/// The findings under numbered headings.
pub open spec fn headed_findings(findings: Seq<Seq<char>>) -> Seq<Seq<char>> {
    Seq::new(
        findings.len(),
        |i: int|
            "--- Searcher "@ + decimal((i + 1) as nat) + " findings ---\n"@ + findings[i],
    )
}

fn headed(findings: &Vec<String>) -> (r: Vec<String>)
    ensures
        texts(r@) == headed_findings(texts(findings@)),
{
    let ghost all = headed_findings(texts(findings@));
    let mut out: Vec<String> = Vec::new();
    let mut i: usize = 0;
    assert(texts(out@) =~= all.take(0));
    while i < findings.len()
        invariant
            i <= findings@.len(),
            all == headed_findings(texts(findings@)),
            texts(out@) == all.take(i as int),
        decreases findings@.len() - i,
    {
        let mut s = "--- Searcher ".to_owned();
        s.append(decimal_of(i as u64 + 1).as_str());
        s.append(" findings ---\n");
        s.append(findings[i].as_str());
        proof {
            texts_push(out@, s);
            assert(all.take(i as int).push(s@) =~= all.take(i + 1));
        }
        out.push(s);
        i += 1;
    }
    assert(all.take(i as int) =~= all);
    out
}

/// The topic, the pinned sources under `heading` where there are any, and the
/// rest.
pub open spec fn with_pinned(
    topic: Seq<char>,
    heading: Seq<char>,
    pinned: Seq<Seq<char>>,
    rest: Seq<char>,
) -> Seq<char> {
    let head = "Topic: "@ + topic + "\n\n"@;
    if pinned.len() == 0 {
        head + rest
    } else {
        head + heading + join(pinned, "\n"@) + "\n\n"@ + rest
    }
}

fn with_pinned_of(topic: &str, heading: &str, pinned: &Vec<String>, rest: &str) -> (r: String)
    ensures
        r@ == with_pinned(topic@, heading@, texts(pinned@), rest@),
{
    let mut user = "Topic: ".to_owned();
    user.append(topic);
    user.append("\n\n");
    if pinned.len() > 0 {
        user.append(heading);
        user.append(joined(pinned, "\n").as_str());
        user.append("\n\n");
    }
    user.append(rest);
    user
}

/// The synthesizer's request in words.
pub open spec fn synthesis_text(
    topic: Seq<char>,
    findings: Seq<Seq<char>>,
    pinned: Seq<Seq<char>>,
) -> Seq<char> {
    with_pinned(
        topic,
        "Prioritize these pinned sources in the synthesis if their content is present in the findings below:\n"@,
        pinned,
        join(headed_findings(findings), "\n\n"@),
    )
}

/// The synthesizer's request: the topic, the pinned sources and the findings.
pub fn synthesizer_messages(
    topic: &str,
    findings: &Vec<String>,
    pinned: &Vec<String>,
) -> (r: Vec<ChatMessage>)
    ensures
        views(r@) == request(
            SYNTHESIZER_PROMPT@,
            synthesis_text(topic@, texts(findings@), texts(pinned@)),
        ),
{
    let body = joined(&headed(findings), "\n\n");
    request_of(
        SYNTHESIZER_PROMPT,
        with_pinned_of(
            topic,
            "Prioritize these pinned sources in the synthesis if their content is present in the findings below:\n",
            pinned,
            body.as_str(),
        ),
    )
}

/// The critic's request: the topic and the draft.
pub fn critic_messages(topic: &str, draft: &str) -> (r: Vec<ChatMessage>)
    ensures
        views(r@) == request(CRITIC_PROMPT@, "Topic: "@ + topic@ + "\n\nDraft:\n"@ + draft@),
{
    let mut user = "Topic: ".to_owned();
    user.append(topic);
    user.append("\n\nDraft:\n");
    user.append(draft);
    request_of(CRITIC_PROMPT, user)
}

/// The resolver's request in words.
pub open spec fn escalation_text(
    topic: Seq<char>,
    draft: Seq<char>,
    findings: Seq<Seq<char>>,
    contradiction: Seq<char>,
) -> Seq<char> {
    "Topic: "@ + topic + "\n\nContradiction: "@ + contradiction + "\n\nDraft:\n"@ + draft
        + "\n\nSource findings:\n"@ + join(findings, "\n\n"@)
}

/// The resolver's request: the topic, the contradiction, the draft and the
/// findings.
pub fn escalation_messages(
    topic: &str,
    draft: &str,
    findings: &Vec<String>,
    contradiction: &str,
) -> (r: Vec<ChatMessage>)
    ensures
        views(r@) == request(
            ESCALATION_PROMPT@,
            escalation_text(topic@, draft@, texts(findings@), contradiction@),
        ),
{
    let mut user = "Topic: ".to_owned();
    user.append(topic);
    user.append("\n\nContradiction: ");
    user.append(contradiction);
    user.append("\n\nDraft:\n");
    user.append(draft);
    user.append("\n\nSource findings:\n");
    user.append(joined(findings, "\n\n").as_str());
    request_of(ESCALATION_PROMPT, user)
}

/// The verifier's request in words.
pub open spec fn verifier_text(
    topic: Seq<char>,
    draft: Seq<char>,
    findings: Seq<Seq<char>>,
) -> Seq<char> {
    "Topic: "@ + topic + "\n\nSource findings:\n"@ + join(findings, "\n\n"@) + "\n\nDraft:\n"@
        + draft
}

/// The verifier's request: the topic, the findings and the draft.
pub fn verifier_messages(topic: &str, draft: &str, findings: &Vec<String>) -> (r: Vec<ChatMessage>)
    ensures
        views(r@) == request(VERIFIER_PROMPT@, verifier_text(topic@, draft@, texts(findings@))),
{
    let mut user = "Topic: ".to_owned();
    user.append(topic);
    user.append("\n\nSource findings:\n");
    user.append(joined(findings, "\n\n").as_str());
    user.append("\n\nDraft:\n");
    user.append(draft);
    request_of(VERIFIER_PROMPT, user)
}

/// The writer's request in words.
pub open spec fn writer_text(
    topic: Seq<char>,
    verified: Seq<char>,
    pinned: Seq<Seq<char>>,
) -> Seq<char> {
    with_pinned(
        topic,
        "Prioritize these pinned sources in the final report if their content is present in the verified draft below:\n"@,
        pinned,
        "Verified draft:\n"@ + verified,
    )
}

/// The writer's request: the topic, the pinned sources and the verified draft.
pub fn writer_messages(
    topic: &str,
    verified_draft: &str,
    pinned: &Vec<String>,
) -> (r: Vec<ChatMessage>)
    ensures
        views(r@) == request(
            WRITER_PROMPT@,
            writer_text(topic@, verified_draft@, texts(pinned@)),
        ),
{
    let mut body = "Verified draft:\n".to_owned();
    body.append(verified_draft);
    request_of(
        WRITER_PROMPT,
        with_pinned_of(
            topic,
            "Prioritize these pinned sources in the final report if their content is present in the verified draft below:\n",
            pinned,
            body.as_str(),
        ),
    )
}

} // verus!
