//! How the replies of the agents of a research job are read.

use crate::json::json_strings;
use crate::research::{
    approval, critique, is_bullet, is_marked, json_part, json_position, line_gap, line_gaps,
    line_question, line_questions, listed, plan_blocks, subquestions, survey_reply, trim_bullets,
    trimmed_question, unfenced, usable_questions, without_marker, without_markers, ApprovalView,
    CritiqueView, PlanQuestionView, SurveyReplyView,
};
use crate::text::{
    ascii_upper, bracketed, closing, find_char, find_char_found, first_word, is_digit, lines,
    nonempty, trim, trim_end_marks, trims,
};
use crate::text_laws::{blank, stands_between, trimming_cuts_whitespace, within};
use vstd::prelude::*;

verus! {

/// A list holds every text of another that is not empty, where the first is
/// what is left of it.
proof fn nonempty_holds(items: Seq<Seq<char>>, i: int)
    requires
        0 <= i < items.len(),
        items[i].len() > 0,
    ensures
        nonempty(items).contains(items[i]),
        nonempty(items).len() <= items.len(),
    decreases items.len(),
{
    nonempty_is_shorter(items);
    let before = nonempty(items.drop_last());
    if i == items.len() - 1 {
        assert(nonempty(items)[before.len() as int] == items[i]);
    } else {
        nonempty_holds(items.drop_last(), i);
        let k = choose|k: int| 0 <= k < before.len() && before[k] == items[i];
        assert(nonempty(items)[k] == items[i]);
    }
}

proof fn nonempty_is_shorter(items: Seq<Seq<char>>)
    ensures
        nonempty(items).len() <= items.len(),
    decreases items.len(),
{
    if items.len() > 0 {
        nonempty_is_shorter(items.drop_last());
    }
}

proof fn nonempty_comes_from(items: Seq<Seq<char>>, k: int)
    requires
        0 <= k < nonempty(items).len(),
    ensures
        nonempty(items)[k].len() > 0,
        items.contains(nonempty(items)[k]),
    decreases items.len(),
{
    let before = nonempty(items.drop_last());
    if k < before.len() {
        nonempty_comes_from(items.drop_last(), k);
        let i = choose|i: int|
            0 <= i < items.drop_last().len() && items.drop_last()[i] == before[k];
        assert(items[i] == before[k]);
    } else {
        assert(items[items.len() - 1] == nonempty(items)[k]);
    }
}

/// What stands behind the head of a critique is never read as satisfaction.
proof fn head_is_no_satisfaction(t: Seq<char>, n: int)
    requires
        0 <= n < t.len(),
        t[n] == ':',
    ensures
        ascii_upper(t) != "SATISFIED"@,
{
    reveal_strlit("SATISFIED");
    assert(ascii_upper(t)[n] == ':');
    if ascii_upper(t) == "SATISFIED"@ {
        assert(ascii_upper(t).len() == t.len());
        assert("SATISFIED"@.len() == 9);
        assert("SATISFIED"@[n] == ':');
    }
}

/// Every line behind `GAPS:` that begins with a dash and names something is a
/// gap, where there are no more lines than a round takes.
pub proof fn every_named_gap_is_read(text: Seq<char>, rest: Seq<char>, i: int, gap: Seq<char>)
    requires
        trim(text) == "GAPS:"@ + rest,
        0 <= i < lines(rest).len() <= 6,
        trim(lines(rest)[i]) == "-"@ + gap,
        !blank(gap),
    ensures
        critique(text) matches CritiqueView::Gaps(gaps) && gaps.contains(trim(gap)),
{
    reveal_strlit("GAPS:");
    reveal_strlit("CONTRADICTION:");
    reveal_strlit("-");
    let t = trim(text);
    assert(t[4] == ':');
    head_is_no_satisfaction(t, 4);
    assert(t[0] == 'G' && "CONTRADICTION:"@[0] == 'C');
    assert(!"CONTRADICTION:"@.is_prefix_of(t)) by {
        if "CONTRADICTION:"@.is_prefix_of(t) {
            assert(t.take(14)[0] == t[0]);
        }
    }
    assert("GAPS:"@.is_prefix_of(t));
    assert(t.skip(5) =~= rest);
    let ls = lines(rest);
    let s = trim(ls[i]);
    assert(s[0] == '-');
    assert(s.skip(1) =~= gap);
    trimming_cuts_whitespace(gap);
    assert(line_gaps(ls)[i] == trim(gap));
    nonempty_holds(line_gaps(ls), i);
}

/// Gaps are read from such lines alone, and are no more than a round takes.
pub proof fn gaps_are_named(text: Seq<char>, gaps: Seq<Seq<char>>, k: int) -> (i: int)
    requires
        critique(text) == CritiqueView::Gaps(gaps),
        0 <= k < gaps.len(),
    ensures
        0 < gaps.len() <= 6,
        "GAPS:"@.is_prefix_of(trim(text)),
        gaps[k].len() > 0,
        ({
            let ls = lines(trim(text).skip(5));
            &&& 0 <= i < ls.len()
            &&& trim(ls[i]).len() > 0 && trim(ls[i])[0] == '-'
            &&& gaps[k] == trim(trim(ls[i]).skip(1))
        }),
{
    reveal_strlit("GAPS:");
    let ls = lines(trim(text).skip(5));
    let all = line_gaps(ls);
    assert(nonempty(all)[k] == gaps[k]);
    nonempty_comes_from(all, k);
    let i = choose|i: int| 0 <= i < all.len() && all[i] == gaps[k];
    assert(all[i] == line_gap(ls[i]));
    i
}

/// A contradiction is what follows its head; a draft is only held back by a
/// contradiction or by gaps that are named.
pub proof fn a_contradiction_is_named(text: Seq<char>, desc: Seq<char>)
    requires
        trim(text) == "CONTRADICTION:"@ + desc,
    ensures
        !blank(desc) ==> critique(text) == CritiqueView::Contradiction(trim(desc)),
        blank(desc) ==> critique(text) is Satisfied,
{
    reveal_strlit("GAPS:");
    reveal_strlit("CONTRADICTION:");
    let t = trim(text);
    assert(t[13] == ':');
    head_is_no_satisfaction(t, 13);
    assert("CONTRADICTION:"@.is_prefix_of(t));
    assert(t.skip(14) =~= desc);
    trimming_cuts_whitespace(desc);
    if "GAPS:"@.is_prefix_of(t) {
        assert(t.take(5)[0] == t[0]);
        assert("GAPS:"@[0] == 'G' && "CONTRADICTION:"@[0] == 'C');
    }
}

/// A reply without either head is satisfied, however it is worded.
pub proof fn other_words_are_satisfied(text: Seq<char>)
    requires
        !"GAPS:"@.is_prefix_of(trim(text)),
        !"CONTRADICTION:"@.is_prefix_of(trim(text)),
    ensures
        critique(text) is Satisfied,
{
}

/// Only a reply that begins with APPROVED, in whatever case, approves a plan.
pub proof fn only_approved_approves(text: Seq<char>, objects: Option<Seq<PlanQuestionView>>)
    ensures
        approval(text, objects) is Approved <==> ({
            let u = ascii_upper(trim(text));
            "APPROVED"@.is_prefix_of(u) && (u.len() == 8 || !('A' <= u[8] <= 'Z' || 'a' <= u[8]
                <= 'z' || '0' <= u[8] <= '9'))
        }),
{
    reveal_strlit("APPROVED");
}

/// A reply that is neither an approval nor a list is malformed, and a revised
/// plan is never empty nor longer than a plan may be.
pub proof fn a_revision_is_a_plan(text: Seq<char>, objects: Option<Seq<PlanQuestionView>>)
    ensures
        approval(text, objects) matches ApprovalView::Revised(plan) ==> 0 < plan.len() <= 6 && plan
            == plan_blocks(text, objects),
        !(approval(text, objects) is Approved) && plan_blocks(text, objects).len() == 0
            ==> approval(text, objects) is Malformed,
        !(approval(text, objects) is Approved) && plan_blocks(text, objects).len() > 0 && (
        json_part(text) is Some || (exists|i: int|
            0 <= i < lines(unfenced(text)).len() && is_marked(
                trim(#[trigger] lines(unfenced(text))[i]),
            ))) ==> approval(text, objects) is Revised,
        !(approval(text, objects) is Approved) && json_part(text) is None && (forall|i: int|
            0 <= i < lines(unfenced(text)).len() ==> !is_marked(
                trim(#[trigger] lines(unfenced(text))[i]),
            )) ==> approval(text, objects) is Malformed,
{
}

proof fn usable_hold(qs: Seq<PlanQuestionView>, i: int)
    requires
        0 <= i < qs.len(),
        trim(qs[i].question).len() > 0,
    ensures
        usable_questions(qs).contains(trimmed_question(qs[i])),
    decreases qs.len(),
{
    let before = usable_questions(qs.drop_last());
    if i == qs.len() - 1 {
        assert(usable_questions(qs)[before.len() as int] == trimmed_question(qs[i]));
    } else {
        usable_hold(qs.drop_last(), i);
        let k = choose|k: int| 0 <= k < before.len() && before[k] == trimmed_question(qs[i]);
        assert(usable_questions(qs)[k] == trimmed_question(qs[i]));
    }
}

proof fn usable_come_from(qs: Seq<PlanQuestionView>, k: int) -> (i: int)
    requires
        0 <= k < usable_questions(qs).len(),
    ensures
        0 <= i < qs.len(),
        trim(qs[i].question).len() > 0,
        usable_questions(qs)[k] == trimmed_question(qs[i]),
    decreases qs.len(),
{
    let before = usable_questions(qs.drop_last());
    if k < before.len() {
        let i = usable_come_from(qs.drop_last(), k);
        assert(qs.drop_last()[i] == qs[i]);
        i
    } else {
        qs.len() - 1
    }
}

proof fn usable_are_fewer(qs: Seq<PlanQuestionView>)
    ensures
        usable_questions(qs).len() <= qs.len(),
    decreases qs.len(),
{
    if qs.len() > 0 {
        usable_are_fewer(qs.drop_last());
    }
}

/// Every question that the planner gives as an object, and that is not blank,
/// is in the plan with its whole brief, where they are no more than a plan
/// holds.
pub proof fn every_planned_question_is_kept(
    text: Seq<char>,
    objects: Seq<PlanQuestionView>,
    i: int,
)
    requires
        json_part(text) is Some,
        0 <= i < objects.len() <= 6,
        !blank(objects[i].question),
    ensures
        exists|k: int|
            0 <= k < plan_blocks(text, Some(objects)).len() && ({
                let q = #[trigger] plan_blocks(text, Some(objects))[k];
                q.question == trim(objects[i].question) && q.why == objects[i].why && q.angles
                    == objects[i].angles && q.sources == objects[i].sources
            }),
{
    trimming_cuts_whitespace(objects[i].question);
    usable_hold(objects, i);
    usable_are_fewer(objects);
    let plan = plan_blocks(text, Some(objects));
    let k = choose|k: int|
        0 <= k < usable_questions(objects).len() && usable_questions(objects)[k]
            == trimmed_question(objects[i]);
    assert(plan[k] == trimmed_question(objects[i]));
}

/// Where the planner gives objects, the plan holds nothing else, and no blank
/// question.
pub proof fn a_plan_holds_what_was_planned(
    text: Seq<char>,
    objects: Seq<PlanQuestionView>,
    k: int,
) -> (i: int)
    requires
        json_part(text) is Some,
        exists|j: int| 0 <= j < objects.len() && !blank(#[trigger] objects[j].question),
        0 <= k < plan_blocks(text, Some(objects)).len(),
    ensures
        plan_blocks(text, Some(objects)).len() <= 6,
        0 <= i < objects.len(),
        ({
            let q = plan_blocks(text, Some(objects))[k];
            &&& q.question == trim(objects[i].question)
            &&& !blank(q.question)
            &&& q.why == objects[i].why && q.angles == objects[i].angles && q.sources
                == objects[i].sources
        }),
{
    let j = choose|j: int| 0 <= j < objects.len() && !blank(#[trigger] objects[j].question);
    trimming_cuts_whitespace(objects[j].question);
    usable_hold(objects, j);
    let q = plan_blocks(text, Some(objects))[k];
    let i = usable_come_from(objects, k);
    trimming_cuts_whitespace(objects[i].question);
    let t = trim(objects[i].question);
    assert(!crate::text::is_space(t[0]));
    i
}

/// A line with a bullet is read without it.
pub proof fn a_bullet_is_taken_off(line: Seq<char>, c: char, item: Seq<char>)
    requires
        c == '-' || c == '*',
        trim(line) == seq![c] + item,
        item.len() > 0,
        !is_bullet(item[0]),
        trim(item).len() > 0 ==> !is_digit(trim(item)[0]),
    ensures
        without_marker(line) == trim(item),
{
    let s = trim(line);
    assert(s.skip(1) =~= item);
    assert(trim_bullets(s) == trim_bullets(s.skip(1)));
    assert(trim_bullets(item) == item);
}

/// A line without a marker is read as it is, without whitespace around it.
pub proof fn an_unmarked_line_stays(line: Seq<char>)
    requires
        trim(line).len() > 0,
        !is_bullet(trim(line)[0]),
        !is_digit(trim(line)[0]),
    ensures
        without_marker(line) == trim(line),
{
    let s = trim(line);
    trimming_cuts_whitespace(line);
    assert(trim_bullets(s) == s);
    crate::text_laws::trimmed_text_stays(s);
}

proof fn line_questions_hold(ls: Seq<Seq<char>>, i: int)
    requires
        0 <= i < ls.len(),
        line_question(ls[i]) is Some,
    ensures
        line_questions(ls).contains(line_question(ls[i])->0),
    decreases ls.len(),
{
    let before = line_questions(ls.drop_last());
    if i == ls.len() - 1 {
        assert(line_questions(ls)[before.len() as int] == line_question(ls[i])->0);
    } else {
        line_questions_hold(ls.drop_last(), i);
        let k = choose|k: int| 0 <= k < before.len() && before[k] == line_question(ls[i])->0;
        assert(line_questions(ls)[k] == line_question(ls[i])->0);
    }
}

proof fn line_questions_are_fewer(ls: Seq<Seq<char>>)
    ensures
        line_questions(ls).len() <= ls.len(),
    decreases ls.len(),
{
    if ls.len() > 0 {
        line_questions_are_fewer(ls.drop_last());
    }
}

/// Every line of a survey reply that ends in a question mark is asked, where
/// the reply has no more lines than a round may ask and does not end the
/// survey.
pub proof fn every_question_line_is_asked(text: Seq<char>, i: int)
    requires
        ascii_upper(trim_end_marks(first_word(trim(text)))) != "COMPLETE"@,
        0 <= i < lines(trim(text)).len() <= 4,
        ({
            let q = without_marker(trim(lines(trim(text))[i]));
            q.len() > 0 && q.last() == '?'
        }),
    ensures
        survey_reply(text) matches SurveyReplyView::Questions(qs) && qs.contains(
            without_marker(trim(lines(trim(text))[i])),
        ),
{
    line_questions_hold(lines(trim(text)), i);
    line_questions_are_fewer(lines(trim(text)));
}

/// A survey reply whose first word is COMPLETE, in whatever case and with
/// whatever mark behind it, ends the survey; no other does.
pub proof fn only_complete_ends_the_survey(text: Seq<char>)
    ensures
        survey_reply(text) is Complete <==> ascii_upper(trim_end_marks(first_word(trim(text))))
            == "COMPLETE"@,
        survey_reply(text) matches SurveyReplyView::Questions(qs) ==> 0 < qs.len()
            <= 4,
{
}

/// The strings of a list are the questions: each that is not blank, where they
/// are no more than a plan holds.
pub proof fn every_listed_string_is_a_question(v: Seq<Seq<char>>, i: int)
    requires
        0 <= i < v.len() <= 6,
        !blank(v[i]),
    ensures
        listed(v).contains(trim(v[i])),
{
    trimming_cuts_whitespace(v[i]);
    assert(trims(v)[i] == trim(v[i]));
    nonempty_holds(trims(v), i);
}

/// A reply that is no list of strings is read line by line: each line that
/// holds something, without its marker, is a question, where they are no more
/// than a plan holds.
pub proof fn every_line_is_a_question(text: Seq<char>, i: int)
    requires
        json_strings(unfenced(text)) is None,
        0 <= i < lines(unfenced(text)).len() <= 6,
        without_marker(lines(unfenced(text))[i]).len() > 0,
    ensures
        subquestions(text).contains(without_marker(lines(unfenced(text))[i])),
{
    let ls = lines(unfenced(text));
    assert(without_markers(ls)[i] == without_marker(ls[i]));
    nonempty_holds(without_markers(ls), i);
}

/// The JSON part of a reply begins at its first bracket or brace.
pub proof fn json_begins_at_a_bracket(s: Seq<char>)
    ensures
        match json_position(s) {
            Some(k) => 0 <= k < s.len() && (s[k] == '[' || s[k] == '{') && forall|j: int|
                0 <= j < k ==> s[j] != '[' && s[j] != '{',
            None => forall|j: int| 0 <= j < s.len() ==> s[j] != '[' && s[j] != '{',
        },
    decreases s.len(),
{
    if s.len() > 0 && s[0] != '[' && s[0] != '{' {
        json_begins_at_a_bracket(s.skip(1));
        assert forall|j: int| 0 < j < s.len() implies s[j] == s.skip(1)[j - 1] by {}
    }
}

/// A reply without JSON gives plain questions, each without a brief.
pub proof fn plain_lines_make_plain_questions(
    text: Seq<char>,
    objects: Option<Seq<PlanQuestionView>>,
    k: int,
)
    requires
        json_part(text) is None,
        0 <= k < subquestions(text).len(),
    ensures
        plan_blocks(text, objects).len() == subquestions(text).len(),
        ({
            let q = plan_blocks(text, objects)[k];
            q.question == subquestions(text)[k] && q.why.len() == 0 && q.angles.len() == 0
                && q.sources.len() == 0
        }),
{
}

proof fn a_closing_bracket_is_one(
    s: Seq<char>,
    open: char,
    close: char,
    i: int,
    depth: nat,
    quoted: bool,
)
    ensures
        closing(s, open, close, i, depth, quoted) matches Some(e) ==> i <= e < s.len() && s[e]
            == close,
    decreases s.len() + 1 - i,
{
    if 0 <= i < s.len() {
        if quoted {
            if s[i] == '\\' {
                a_closing_bracket_is_one(s, open, close, i + 2, depth, true);
            } else {
                a_closing_bracket_is_one(s, open, close, i + 1, depth, s[i] != '"');
            }
        } else if s[i] == '"' {
            a_closing_bracket_is_one(s, open, close, i + 1, depth, true);
        } else if s[i] == open {
            a_closing_bracket_is_one(s, open, close, i + 1, depth + 1, false);
        } else if s[i] == close {
            if depth > 1 {
                a_closing_bracket_is_one(s, open, close, i + 1, (depth - 1) as nat, false);
            }
        } else {
            a_closing_bracket_is_one(s, open, close, i + 1, depth, false);
        }
    }
}

/// What is found between brackets begins and ends with them, and stands in the
/// text as it is.
pub proof fn what_is_found_is_bracketed(s: Seq<char>, open: char, close: char)
    ensures
        bracketed(s, open, close) matches Some(t) ==> t.len() >= 2 && t[0] == open && t.last()
            == close && within(t, s),
{
    if let Some(t) = bracketed(s, open, close) {
        find_char_found(s, open);
        let a = find_char(s, open)->0;
        a_closing_bracket_is_one(s, open, close, a + 1, 1, false);
        let e = closing(s, open, close, a + 1, 1, false)->0;
        assert(s =~= s.take(a) + t + s.skip(e + 1));
        stands_between(s.take(a), t, s.skip(e + 1));
    }
}

/// Whether none of the characters opens, closes or quotes.
pub open spec fn is_plain(s: Seq<char>, open: char, close: char) -> bool {
    forall|i: int|
        0 <= i < s.len() ==> #[trigger] s[i] != open && s[i] != close && s[i] != '"'
}

proof fn plain_text_is_passed(
    s: Seq<char>,
    open: char,
    close: char,
    i: int,
    k: int,
    depth: nat,
)
    requires
        0 <= i <= k <= s.len(),
        forall|j: int| i <= j < k ==> #[trigger] s[j] != open && s[j] != close && s[j] != '"',
    ensures
        closing(s, open, close, i, depth, false) == closing(s, open, close, k, depth, false),
    decreases k - i,
{
    if i < k {
        assert(s[i] != open && s[i] != close && s[i] != '"');
        plain_text_is_passed(s, open, close, i + 1, k, depth);
    }
}

proof fn quoted_text_is_passed(
    s: Seq<char>,
    open: char,
    close: char,
    i: int,
    k: int,
    depth: nat,
)
    requires
        0 <= i <= k < s.len(),
        forall|j: int| i <= j < k ==> #[trigger] s[j] != '"' && s[j] != '\\',
        s[k] == '"',
    ensures
        closing(s, open, close, i, depth, true) == closing(s, open, close, k + 1, depth, false),
    decreases k - i,
{
    if i < k {
        assert(s[i] != '"' && s[i] != '\\');
        quoted_text_is_passed(s, open, close, i + 1, k, depth);
    }
}

/// The part between the first bracket and the one that closes it is found,
/// whatever stands around it and however deep it nests once.
pub proof fn a_nested_part_is_found_whole(
    a: Seq<char>,
    x: Seq<char>,
    y: Seq<char>,
    z: Seq<char>,
    b: Seq<char>,
    open: char,
    close: char,
)
    requires
        open != close && open != '"' && close != '"',
        !a.contains(open),
        is_plain(x, open, close) && is_plain(y, open, close) && is_plain(z, open, close),
    ensures
        ({
            let part = seq![open] + x + seq![open] + y + seq![close] + z + seq![close];
            bracketed(a + part + b, open, close) == Some(part)
        }),
{
    let part = seq![open] + x + seq![open] + y + seq![close] + z + seq![close];
    let s = a + part + b;
    let p0 = a.len() as int;
    let p1 = p0 + 1 + x.len();
    let p2 = p1 + 1 + y.len();
    let p3 = p2 + 1 + z.len();
    first_is_found(a, open, part + b);
    assert(s =~= a + (part + b));
    assert(s[p0] == open && s[p1] == open && s[p2] == close && s[p3] == close);
    assert forall|j: int| p0 + 1 <= j < p1 implies #[trigger] s[j] != open && s[j] != close && s[j]
        != '"' by {
        assert(s[j] == x[j - p0 - 1]);
    }
    assert forall|j: int| p1 + 1 <= j < p2 implies #[trigger] s[j] != open && s[j] != close && s[j]
        != '"' by {
        assert(s[j] == y[j - p1 - 1]);
    }
    assert forall|j: int| p2 + 1 <= j < p3 implies #[trigger] s[j] != open && s[j] != close && s[j]
        != '"' by {
        assert(s[j] == z[j - p2 - 1]);
    }
    plain_text_is_passed(s, open, close, p0 + 1, p1, 1);
    plain_text_is_passed(s, open, close, p1 + 1, p2, 2);
    plain_text_is_passed(s, open, close, p2 + 1, p3, 1);
    assert(closing(s, open, close, p1, 1, false) == closing(s, open, close, p1 + 1, 2, false));
    assert(closing(s, open, close, p2, 2, false) == closing(s, open, close, p2 + 1, 1, false));
    assert(closing(s, open, close, p3, 1, false) == Some(p3));
    assert(s.subrange(p0, p3 + 1) =~= part);
}

/// Brackets within quotes do not count.
pub proof fn a_quoted_bracket_does_not_count(
    a: Seq<char>,
    x: Seq<char>,
    q: Seq<char>,
    y: Seq<char>,
    b: Seq<char>,
    open: char,
    close: char,
)
    requires
        open != close && open != '"' && close != '"',
        !a.contains(open),
        is_plain(x, open, close) && is_plain(y, open, close),
        !q.contains('"') && !q.contains('\\'),
    ensures
        ({
            let part = seq![open] + x + seq!['"'] + q + seq!['"'] + y + seq![close];
            bracketed(a + part + b, open, close) == Some(part)
        }),
{
    let part = seq![open] + x + seq!['"'] + q + seq!['"'] + y + seq![close];
    let s = a + part + b;
    let p0 = a.len() as int;
    let p1 = p0 + 1 + x.len();
    let p2 = p1 + 1 + q.len();
    let p3 = p2 + 1 + y.len();
    first_is_found(a, open, part + b);
    assert(s =~= a + (part + b));
    assert(s[p0] == open && s[p1] == '"' && s[p2] == '"' && s[p3] == close);
    assert forall|j: int| p0 + 1 <= j < p1 implies #[trigger] s[j] != open && s[j] != close && s[j]
        != '"' by {
        assert(s[j] == x[j - p0 - 1]);
    }
    assert forall|j: int| p1 + 1 <= j < p2 implies #[trigger] s[j] != '"' && s[j] != '\\' by {
        assert(s[j] == q[j - p1 - 1]);
    }
    assert forall|j: int| p2 + 1 <= j < p3 implies #[trigger] s[j] != open && s[j] != close && s[j]
        != '"' by {
        assert(s[j] == y[j - p2 - 1]);
    }
    plain_text_is_passed(s, open, close, p0 + 1, p1, 1);
    quoted_text_is_passed(s, open, close, p1 + 1, p2, 1);
    plain_text_is_passed(s, open, close, p2 + 1, p3, 1);
    assert(closing(s, open, close, p1, 1, false) == closing(s, open, close, p1 + 1, 1, true));
    assert(closing(s, open, close, p3, 1, false) == Some(p3));
    assert(s.subrange(p0, p3 + 1) =~= part);
}

proof fn first_is_found(a: Seq<char>, c: char, rest: Seq<char>)
    requires
        !a.contains(c),
        rest.len() > 0 && rest[0] == c,
    ensures
        find_char(a + rest, c) == Some(a.len() as int),
{
    let s = a + rest;
    find_char_found(s, c);
    assert(s[a.len() as int] == c);
    let k = find_char(s, c)->0;
    if k < a.len() {
        assert(a[k] == c);
    }
}

} // verus!
