//! What becomes of a response: its thoughts and its answer, its tool calls,
//! its rows, and what is told of it.

use crate::chat::{
    answer_part, blocks_of, fence_lang, gathered_thoughts, inline_split, is_fence, nearest,
    one_decimal, session_title, shown_size, think_block, think_blocks, Blocks,
};
use crate::effects::EffectView;
use crate::followup::{named, session_at, title_lines, titled};
use crate::json::{get_list, Json};
use crate::naming::{runs, slug_of, words};
use crate::provider::{StreamEvent, Usage};
use crate::state::{ChatTasks, Conversation, Notices, Screen, SessionPicker};
use crate::store::{ChatTask, FloatBits, MessageView, Session};
use crate::stream::{
    answer, answer_row, call_effects, event_step, failed, finished, grown_task, total_tokens,
    TaskWrites,
};
use crate::text::{
    contains, decimal, find, find_found, first_chars, is_alphanumeric, join, lines, occurs_at, trim,
    views,
};
use crate::text_laws::{
    blank, joined_parts_stand, stands_between, stands_first, stands_last, trimming_cuts_whitespace,
    within, within_carries,
};
use crate::tools::{call_args, call_summary, head_line, hits, item_texts, text_arg};
use vstd::prelude::*;
use vstd::utf8::encode_utf8;

verus! {

proof fn first_mark(a: Seq<char>, mark: Seq<char>, b: Seq<char>)
    requires
        mark.len() > 0,
        forall|i: int| 0 <= i < a.len() ==> #[trigger] a[i] != mark[0],
    ensures
        find(a + mark + b, mark) == Some(a.len() as int),
{
    let s = a + mark + b;
    let i = a.len() as int;
    find_found(s, mark);
    assert(s.subrange(i, i + mark.len()) =~= mark);
    assert(occurs_at(s, mark, i));
    assert forall|j: int| 0 <= j < i implies !occurs_at(s, mark, j) by {
        assert(s[j] == a[j]);
        if occurs_at(s, mark, j) {
            assert(s.subrange(j, j + mark.len())[0] == s[j]);
        }
    }
}

proof fn no_mark(a: Seq<char>, mark: Seq<char>)
    requires
        mark.len() > 0,
        forall|i: int| 0 <= i < a.len() ==> #[trigger] a[i] != mark[0],
    ensures
        find(a, mark) is None,
{
    find_found(a, mark);
    if let Some(k) = find(a, mark) {
        assert(a.subrange(k, k + mark.len())[0] == a[k]);
    }
}

/// A thought between its marks is no part of the answer, and the answer goes
/// on behind it; the thought is kept, without whitespace around it.
pub proof fn a_thought_is_parted_from_the_answer(a: Seq<char>, t: Seq<char>, b: Seq<char>)
    requires
        forall|i: int| 0 <= i < a.len() ==> #[trigger] a[i] != '<',
        forall|i: int| 0 <= i < t.len() ==> #[trigger] t[i] != '<',
    ensures
        answer_part(a + "<think>"@ + t + "</think>"@ + b) == a + answer_part(b),
        think_blocks(a + "<think>"@ + t + "</think>"@ + b) == seq![trim(t)] + think_blocks(b),
{
    reveal_strlit("<think>");
    reveal_strlit("</think>");
    let s = a + "<think>"@ + t + "</think>"@ + b;
    let rest = t + "</think>"@ + b;
    assert(s =~= a + "<think>"@ + rest);
    first_mark(a, "<think>"@, rest);
    let k = a.len() as int;
    assert(s.skip(k + "<think>"@.len()) =~= rest);
    first_mark(t, "</think>"@, b);
    assert(rest.take(t.len() as int) =~= t);
    assert(rest.skip(t.len() as int + "</think>"@.len()) =~= b);
    assert(think_block(rest) == (t, b));
    assert(s.take(k) =~= a);
}

/// A thought that is not closed yet takes all that follows.
pub proof fn an_open_thought_takes_the_rest(a: Seq<char>, t: Seq<char>)
    requires
        forall|i: int| 0 <= i < a.len() ==> #[trigger] a[i] != '<',
        forall|i: int| 0 <= i < t.len() ==> #[trigger] t[i] != '<',
    ensures
        answer_part(a + "<think>"@ + t) == a,
        think_blocks(a + "<think>"@ + t) == seq![trim(t)],
{
    reveal_strlit("<think>");
    reveal_strlit("</think>");
    let s = a + "<think>"@ + t;
    first_mark(a, "<think>"@, t);
    let k = a.len() as int;
    assert(s.skip(k + "<think>"@.len()) =~= t);
    no_mark(t, "</think>"@);
    let none = Seq::<char>::empty();
    no_mark(none, "<think>"@);
    assert(s.take(k) =~= a);
    assert(answer_part(none) == none);
    assert(a + none =~= a);
    assert(think_blocks(none) =~= Seq::empty());
    assert(seq![trim(t)] + Seq::<Seq<char>>::empty() =~= seq![trim(t)]);
}

/// Every thought is kept.
pub proof fn every_thought_is_kept(blocks: Seq<Seq<char>>, i: int)
    requires
        0 <= i < blocks.len(),
    ensures
        within(blocks[i], gathered_thoughts(blocks)),
    decreases blocks.len(),
{
    let before = gathered_thoughts(blocks.drop_last());
    let all = gathered_thoughts(blocks);
    if i == blocks.len() - 1 {
        stands_last(before + "\n"@, blocks.last());
        stands_last(Seq::empty(), blocks.last());
        assert(Seq::<char>::empty() + blocks.last() =~= blocks.last());
    } else {
        every_thought_is_kept(blocks.drop_last(), i);
        if before.len() == 0 {
            let (a, b) = choose|a: Seq<char>, b: Seq<char>| before == #[trigger] (a + blocks[i] + b);
            assert(blocks[i] =~= Seq::empty());
            assert(all =~= Seq::<char>::empty() + blocks[i] + all);
            crate::text_laws::stands_between(Seq::empty(), blocks[i], all);
        } else {
            assert(all =~= before + ("\n"@ + blocks.last()));
            stands_first(before, "\n"@ + blocks.last());
            within_carries(blocks[i], before, all);
        }
    }
}

/// A response is split into what answers and what was thought, and there are
/// thoughts only where there was something between the marks.
pub proof fn a_response_is_split(text: Seq<char>)
    ensures
        inline_split(text).0 == trim(answer_part(text)),
        inline_split(text).1 matches Some(t) ==> t.len() > 0 && forall|i: int|
            0 <= i < think_blocks(text).len() ==> within(#[trigger] think_blocks(text)[i], t),
        inline_split(text).1 is None ==> forall|i: int|
            0 <= i < think_blocks(text).len() ==> (#[trigger] think_blocks(text)[i]).len() == 0,
{
    let blocks = think_blocks(text);
    assert forall|i: int| 0 <= i < blocks.len() implies within(
        #[trigger] blocks[i],
        gathered_thoughts(blocks),
    ) by {
        every_thought_is_kept(blocks, i);
    }
    if inline_split(text).1 is None {
        assert forall|i: int| 0 <= i < blocks.len() implies (#[trigger] blocks[i]).len() == 0 by {
            every_thought_is_kept(blocks, i);
            let (a, b) = choose|a: Seq<char>, b: Seq<char>|
                gathered_thoughts(blocks) == #[trigger] (a + blocks[i] + b);
        }
    }
}

/// A chat is named by the start of its first message, up to forty characters.
pub proof fn a_chat_is_named_by_its_first_message(text: Seq<char>)
    ensures
        session_title(text).len() <= 40,
        !blank(first_chars(text, 40)) ==> session_title(text).is_prefix_of(text) && (text.len()
            <= 40 ==> session_title(text) == text) && (text.len() > 40 ==> session_title(
            text,
        ).len() == 40),
        blank(first_chars(text, 40)) ==> session_title(text) == "new chat"@,
{
    trimming_cuts_whitespace(first_chars(text, 40));
    reveal_strlit("new chat");
}

proof fn code_grows(ls: Seq<Seq<char>>, body: Seq<Seq<char>>)
    requires
        blocks_of(ls).inside,
        forall|i: int| 0 <= i < body.len() ==> !is_fence(#[trigger] body[i]),
    ensures
        ({
            let b = blocks_of(ls + body);
            &&& b == (Blocks { code: b.code, ..blocks_of(ls) })
            &&& b.code == blocks_of(ls).code + lined(body)
        }),
    decreases body.len(),
{
    if body.len() == 0 {
        assert(ls + body =~= ls);
        assert(blocks_of(ls).code + lined(body) =~= blocks_of(ls).code);
    } else {
        assert((ls + body).drop_last() =~= ls + body.drop_last());
        assert(!is_fence(body[body.len() - 1]));
        code_grows(ls, body.drop_last());
        let c = blocks_of(ls).code;
        assert(c + lined(body.drop_last()) + body.last() + "\n"@ =~= c + (lined(body.drop_last())
            + body.last() + "\n"@));
    }
}

/// The lines, each with its line feed.
pub open spec fn lined(ls: Seq<Seq<char>>) -> Seq<char>
    decreases ls.len(),
{
    if ls.len() == 0 {
        Seq::empty()
    } else {
        lined(ls.drop_last()) + ls.last() + "\n"@
    }
}

/// The lines between two fences are one block of code, with the language that
/// the first fence names; the blocks before it stay.
pub proof fn code_between_fences_is_a_block(
    ls: Seq<Seq<char>>,
    open: Seq<char>,
    body: Seq<Seq<char>>,
    close: Seq<char>,
)
    requires
        !blocks_of(ls).inside,
        blocks_of(ls).code.len() == 0,
        is_fence(open),
        is_fence(close),
        forall|i: int| 0 <= i < body.len() ==> !is_fence(#[trigger] body[i]),
    ensures
        ({
            let b = blocks_of(ls.push(open) + body + seq![close]);
            &&& b.done == blocks_of(ls).done.push((fence_lang(open), lined(body)))
            &&& !b.inside
            &&& b.code.len() == 0
        }),
{
    assert(ls.push(open).drop_last() =~= ls);
    code_grows(ls.push(open), body);
    let all = ls.push(open) + body;
    assert((all + seq![close]).drop_last() =~= all);
    assert(blocks_of(ls).code + lined(body) =~= lined(body));
}

/// Lines outside of fences are no code.
pub proof fn lines_outside_are_no_code(ls: Seq<Seq<char>>, line: Seq<char>)
    requires
        !blocks_of(ls).inside,
        !is_fence(line),
    ensures
        blocks_of(ls.push(line)) == blocks_of(ls),
{
    assert(ls.push(line).drop_last() =~= ls);
}

/// A rounded number is the nearest one.
pub proof fn rounding_is_to_the_nearest(n: nat, d: nat)
    requires
        d > 0,
    ensures
        2 * n <= 2 * nearest(n, d) * d + d,
        2 * nearest(n, d) * d <= 2 * n + d,
{
    vstd::arithmetic::div_mod::lemma_fundamental_div_mod(n as int, d as int);
    let q = n / d;
    let rest = n % d;
    let r = nearest(n, d);
    assert(2 * n <= 2 * r * d + d && 2 * r * d <= 2 * n + d) by (nonlinear_arith)
        requires
            n == d * q + rest,
            0 <= rest < d,
            r == q && 2 * rest <= d || r == q + 1 && 2 * rest >= d,
    ;
}

/// Small sizes are told in bytes, larger ones in kilobytes and megabytes.
pub proof fn sizes_are_told_in_their_unit(bytes: nat)
    ensures
        bytes < 1024 ==> shown_size(bytes) == decimal(bytes) + " B"@,
        1024 <= bytes < 1048576 ==> " KB"@.is_suffix_of(shown_size(bytes)),
        1048576 <= bytes ==> " MB"@.is_suffix_of(shown_size(bytes)),
{
    let s = shown_size(bytes);
    if 1024 <= bytes < 1048576 {
        let head = one_decimal(bytes, 1024);
        assert(s.skip(s.len() - " KB"@.len()) =~= " KB"@);
    } else if 1048576 <= bytes {
        assert(s.skip(s.len() - " MB"@.len()) =~= " MB"@);
    }
}

/// What streams in grows the response: tokens its text, thoughts its thinking,
/// and neither anything else.
pub proof fn a_response_grows_by_what_streams_in(t: ChatTask, s: String, u: Usage)
    ensures
        grown_task(t, StreamEvent::Token(s)).buffer == t.buffer@ + s@,
        grown_task(t, StreamEvent::Token(s)).thinking == t.thinking@,
        grown_task(t, StreamEvent::Reasoning(s)).thinking == t.thinking@ + s@,
        grown_task(t, StreamEvent::Reasoning(s)).buffer == t.buffer@,
        grown_task(t, StreamEvent::Usage(u)).usage == Some(u),
        grown_task(t, StreamEvent::Usage(u)).buffer == t.buffer@,
        grown_task(t, StreamEvent::Status(s)).tool_status == Some(s@),
        grown_task(t, StreamEvent::Status(s)).buffer == t.buffer@,
        grown_task(t, StreamEvent::Token(s)).session_id == t.session_id@,
{
}

/// A token reaches the response that it belongs to, and no other; neither the
/// conversation nor the screen changes yet.
pub proof fn a_token_reaches_its_response(
    active_space: Seq<char>,
    before: (ChatTasks, Conversation, Screen, Notices),
    after: (ChatTasks, Conversation, Screen, Notices),
    effects: Seq<EffectView>,
    id: u64,
    s: String,
    writes: TaskWrites,
    secs: FloatBits,
    now: Seq<char>,
    i: int,
)
    requires
        event_step(
            active_space,
            before,
            after,
            effects,
            id,
            StreamEvent::Token(s),
            writes,
            secs,
            now,
        ),
        before.0.at(id) == Some(i),
        0 <= i < before.0.tasks@.len(),
    ensures
        ({
            let old_tasks = views(before.0.tasks@);
            let tasks = views(after.0.tasks@);
            &&& tasks.len() == old_tasks.len()
            &&& tasks[i].buffer == old_tasks[i].buffer + s@
            &&& tasks[i].session_id == old_tasks[i].session_id
            &&& forall|k: int| 0 <= k < tasks.len() && k != i ==> #[trigger] tasks[k] == old_tasks[k]
        }),
        after.1 == before.1,
        effects.len() == 0,
{
}

/// The answer of a response is what it said outside of its thoughts; what it
/// thought is kept beside it.
pub proof fn an_answer_is_what_was_said(t: ChatTask, secs: FloatBits, now: Seq<char>)
    ensures
        ({
            let row = answer_row(t, secs, now);
            &&& row.role == "assistant"@
            &&& row.content == trim(answer_part(t.buffer@))
            &&& row.model == Some(t.model@)
            &&& row.persona is None
            &&& row.secs == Some(secs)
            &&& row.created_at == Some(now)
            &&& t.thinking@.len() > 0 ==> (row.reasoning matches Some(r) && within(
                t.thinking@,
                r,
            ))
            &&& inline_split(t.buffer@).1 matches Some(s) ==> (row.reasoning matches Some(r)
                && within(s, r))
            &&& t.usage matches Some(u) ==> (u.completion_tokens <= i64::MAX ==> row.tokens == Some(
                u.completion_tokens as i64,
            ))
        }),
{
    a_response_is_split(t.buffer@);
    let row = answer_row(t, secs, now);
    if let Some(s) = inline_split(t.buffer@).1 {
        stands_last(t.thinking@ + "\n"@, s);
        assert(t.thinking@ + "\n"@ + s =~= t.thinking@ + ("\n"@ + s));
        stands_first(t.thinking@, "\n"@ + s);
        stands_last(Seq::empty(), s);
        assert(Seq::<char>::empty() + s =~= s);
    } else {
        stands_last(Seq::empty(), t.thinking@);
        assert(Seq::<char>::empty() + t.thinking@ =~= t.thinking@);
    }
}

/// The context takes what the provider counts: the total where it is given,
/// and else the prompt and the completion.
pub proof fn the_context_is_as_counted(u: Usage)
    ensures
        u.total_tokens > 0 ==> total_tokens(u) == u.total_tokens,
        u.total_tokens == 0 ==> total_tokens(u) == u.prompt_tokens + u.completion_tokens,
{
}

/// A response that is complete joins the conversation that is viewed, as the
/// assistant's row behind the others, and the jobs that follow are started,
/// except incognito.
pub proof fn a_complete_response_joins_the_conversation(
    before: (Conversation, Screen, Notices),
    after: (Conversation, Screen, Notices),
    effects: Seq<EffectView>,
    t: ChatTask,
    writes: TaskWrites,
    secs: FloatBits,
    now: Seq<char>,
)
    requires
        finished(before, after, effects, t, None, false, writes, secs, now),
        before.0.is_of(t.session_id@),
        trim(answer_part(t.buffer@)).len() > 0,
        t.incognito || writes.answer,
    ensures
        after.0.session == before.0.session,
        views(after.0.messages@).len() == views(before.0.messages@).len() + 1,
        views(after.0.messages@).drop_last() == views(before.0.messages@),
        views(after.0.messages@).last().role == "assistant"@,
        views(after.0.messages@).last().content == trim(answer_part(t.buffer@)),
        after.2 == before.2,
        t.incognito ==> effects.len() == 0,
        !t.incognito ==> effects.len() == 1 && effects[0] is FollowUp,
{
    an_answer_is_what_was_said(t, secs, now);
    assert(answer(t).0 == trim(answer_part(t.buffer@)));
    let rows = views(before.0.messages@).push(answer_row(t, secs, now));
    assert(rows.drop_last() =~= views(before.0.messages@));
}

/// A response in a session that is not viewed leaves what is viewed alone, and
/// is told of, except incognito.
pub proof fn a_response_elsewhere_is_told_of(
    before: (Conversation, Screen, Notices),
    after: (Conversation, Screen, Notices),
    effects: Seq<EffectView>,
    t: ChatTask,
    writes: TaskWrites,
    secs: FloatBits,
    now: Seq<char>,
)
    requires
        finished(before, after, effects, t, None, false, writes, secs, now),
        !before.0.is_of(t.session_id@),
        trim(answer_part(t.buffer@)).len() > 0,
        t.incognito || writes.answer,
    ensures
        views(after.0.messages@) == views(before.0.messages@),
        after.0.session == before.0.session,
        t.incognito ==> after.2 == before.2 && after.1 == before.1 && effects.len() == 0,
        !t.incognito ==> after.2.unread@ == before.2.unread@.insert(t.session_id@) && views(
            after.2.list@,
        ).len() == views(before.2.list@).len() + 1 && views(after.2.list@).last().session_id
            == t.session_id@ && views(after.2.list@).last().success && effects.len() == 1
            && effects[0] is Notify && t.session_title@.is_suffix_of(after.1.status@),
{
    let told = "✓ response ready in: "@ + t.session_title@;
    assert(told.skip(told.len() - t.session_title@.len()) =~= t.session_title@);
    assert(answer(t).0 == trim(answer_part(t.buffer@)));
}

/// A response that failed keeps what it had said, and the reason shows behind
/// it, where it is viewed.
pub proof fn a_failed_response_keeps_what_came_in(
    before: (Conversation, Screen, Notices),
    after: (Conversation, Screen, Notices),
    effects: Seq<EffectView>,
    t: ChatTask,
    error: Seq<char>,
    writes: TaskWrites,
    secs: FloatBits,
    now: Seq<char>,
)
    requires
        finished(before, after, effects, t, Some(error), false, writes, secs, now),
        before.0.is_of(t.session_id@),
        t.incognito || (writes.answer && writes.error),
    ensures
        ({
            let rows = views(after.0.messages@);
            let n = views(before.0.messages@).len();
            let said = trim(answer_part(t.buffer@));
            &&& rows.len() == (if said.len() > 0 { n + 2 } else { n + 1 })
            &&& rows.take(n as int) == views(before.0.messages@)
            &&& rows.last().role == "error"@ && rows.last().content == error
            &&& said.len() > 0 ==> rows[n as int].role == "assistant"@ && rows[n as int].content
                == said
            &&& error.is_suffix_of(after.1.status@)
        }),
{
    an_answer_is_what_was_said(t, secs, now);
    assert(answer(t).0 == trim(answer_part(t.buffer@)));
    let n = views(before.0.messages@).len();
    let rows = views(after.0.messages@);
    assert(rows.take(n as int) =~= views(before.0.messages@));
    let status = "stream error: "@ + error;
    assert(status.skip(status.len() - error.len()) =~= error);
}

/// A response that was stopped keeps what it had said.
pub proof fn a_stopped_response_keeps_what_came_in(
    before: (Conversation, Screen, Notices),
    after: (Conversation, Screen, Notices),
    effects: Seq<EffectView>,
    t: ChatTask,
    writes: TaskWrites,
    secs: FloatBits,
    now: Seq<char>,
)
    requires
        finished(before, after, effects, t, None, true, writes, secs, now),
        before.0.is_of(t.session_id@),
        t.incognito || writes.answer,
    ensures
        ({
            let rows = views(after.0.messages@);
            let said = trim(answer_part(t.buffer@));
            if said.len() > 0 {
                rows.drop_last() == views(before.0.messages@) && rows.len() == views(
                    before.0.messages@,
                ).len() + 1 && rows.last().role == "assistant"@ && rows.last().content == said
            } else {
                rows == views(before.0.messages@)
            }
        }),
        after.1.status@ == "response stopped"@,
{
    an_answer_is_what_was_said(t, secs, now);
    assert(answer(t).0 == trim(answer_part(t.buffer@)));
    let rows = views(before.0.messages@).push(answer_row(t, secs, now));
    assert(rows.drop_last() =~= views(before.0.messages@));
}

/// The end of a stream removes its response, and no other.
pub proof fn an_ended_response_is_gone(
    active_space: Seq<char>,
    before: (ChatTasks, Conversation, Screen, Notices),
    after: (ChatTasks, Conversation, Screen, Notices),
    effects: Seq<EffectView>,
    id: u64,
    ev: StreamEvent,
    writes: TaskWrites,
    secs: FloatBits,
    now: Seq<char>,
    i: int,
)
    requires
        event_step(active_space, before, after, effects, id, ev, writes, secs, now),
        ev is Done || ev is Error,
        before.0.at(id) == Some(i),
    ensures
        after.0.tasks@ == before.0.tasks@.remove(i),
        after.0.limit == before.0.limit,
        finished(
            (before.1, before.2, before.3),
            (after.1, after.2, after.3),
            effects,
            before.0.tasks@[i],
            match ev {
                StreamEvent::Error(e) => Some(e@),
                _ => None,
            },
            false,
            writes,
            secs,
            now,
        ),
{
}

/// An event of a response that is not there changes nothing of what is shown.
pub proof fn a_stray_event_changes_nothing(
    active_space: Seq<char>,
    before: (ChatTasks, Conversation, Screen, Notices),
    after: (ChatTasks, Conversation, Screen, Notices),
    effects: Seq<EffectView>,
    id: u64,
    ev: StreamEvent,
    writes: TaskWrites,
    secs: FloatBits,
    now: Seq<char>,
)
    requires
        event_step(active_space, before, after, effects, id, ev, writes, secs, now),
        before.0.at(id) is None,
    ensures
        views(after.0.tasks@) == views(before.0.tasks@),
        after.1 == before.1,
        after.2 == before.2,
        after.3 == before.3,
{
}

/// A tool call of a response is stored with its session, except incognito; the
/// files are looked at again where it made some in the active space.
pub proof fn a_tool_call_is_stored(
    t: ChatTask,
    active_space: Seq<char>,
    name: Seq<char>,
    result: Seq<char>,
    row: Seq<char>,
)
    ensures
        ({
            let e = call_effects(Some(t), active_space, name, result, row);
            let stored = EffectView::AddMessage {
                session_id: t.session_id@,
                role: "tool_call"@,
                content: row,
            };
            &&& !t.incognito ==> e.contains(stored)
            &&& t.incognito ==> forall|i: int|
                0 <= i < e.len() ==> !(#[trigger] e[i] is AddMessage)
            &&& e.contains(EffectView::RescanFiles) <==> (t.space_id@ == active_space && (name
                == "generate_image"@ || name == "generate_video"@ || name == "video_transform"@
                || name == "edit_video"@ || name == "extract_frame"@ || name
                == "stitch_videos"@))
        }),
{
    let e = call_effects(Some(t), active_space, name, result, row);
    let stored = EffectView::AddMessage {
        session_id: t.session_id@,
        role: "tool_call"@,
        content: row,
    };
    let n: int = if crate::stream::changes_skills(name, result) { 1 } else { 0 };
    if !t.incognito {
        assert(e[n] == stored);
    }
    if t.space_id@ == active_space && crate::stream::makes_files(name) {
        assert(e[e.len() - 1] == EffectView::RescanFiles);
    }
}

/// A row of a tool call shows in the conversation that is viewed.
pub proof fn a_tool_call_shows(
    active_space: Seq<char>,
    before: (ChatTasks, Conversation, Screen, Notices),
    after: (ChatTasks, Conversation, Screen, Notices),
    effects: Seq<EffectView>,
    id: u64,
    name: String,
    arguments: String,
    result: String,
    writes: TaskWrites,
    secs: FloatBits,
    now: Seq<char>,
    i: int,
)
    requires
        event_step(
            active_space,
            before,
            after,
            effects,
            id,
            StreamEvent::ToolCall { name, arguments, result },
            writes,
            secs,
            now,
        ),
        before.0.at(id) == Some(i),
    ensures
        after.0 == before.0,
        before.1.is_of(before.0.tasks@[i].session_id@) ==> views(after.1.messages@).len() == views(
            before.1.messages@,
        ).len() + 1 && views(after.1.messages@).drop_last() == views(before.1.messages@) && views(
            after.1.messages@,
        ).last().role == "tool_call"@,
        !before.1.is_of(before.0.tasks@[i].session_id@) ==> after.1 == before.1,
{
    if before.1.is_of(before.0.tasks@[i].session_id@) {
        let rows = views(after.1.messages@);
        assert(rows.drop_last() =~= views(before.1.messages@));
    }
}

/// A call is summed up by what it was called with: any call that has no words
/// of its own by its name and its arguments, clipped where they are long.
pub proof fn a_plain_call_is_summed_up(name: Seq<char>, args: Seq<char>, result: Seq<char>)
    requires
        name != "skill"@ && name != "install_skill"@ && name != "run_script"@ && name
            != "run_python"@ && name != "grep_app"@ && name != "install_packages"@ && name
            != "web_search"@ && name != "search_files"@ && name != "read_file"@ && name
            != "read_app_file"@ && name != "write_file"@ && name != "edit_file"@,
    ensures
        args.len() <= 60 ==> call_summary(name, args, result) == name + " "@ + args,
        args.len() > 60 ==> call_summary(name, args, result) == name + " "@ + args.take(60) + "…"@,
{
    if args.len() > 60 {
        assert(call_summary(name, args, result) =~= name + " "@ + args.take(60) + "…"@);
    }
}

/// The jobs that follow name a session once: its title and its slug are stored
/// and taken over, where it is viewed and where it is listed, and no other
/// session is renamed.
pub proof fn a_session_gets_its_name(
    before: (Conversation, SessionPicker),
    after: (Conversation, SessionPicker),
    effects: Seq<EffectView>,
    id: String,
    topic: String,
    slug: String,
    k: int,
)
    requires
        titled(before, after, effects, Some((id, topic, slug))),
        0 <= k < before.1.cache@.len(),
    ensures
        effects == seq![
            EffectView::SetSessionTitle { session_id: id@, title: topic@, slug: Some(slug@) },
        ],
        before.0.session matches Some(s) ==> (if s.id@ == id@ {
            after.0.session matches Some(t) && t.title == topic && t.slug == Some(slug) && t.id
                == s.id
        } else {
            after.0.session == before.0.session
        }),
        after.0.messages == before.0.messages,
        after.1.cache@.len() == before.1.cache@.len(),
        before.1.cache@[k].id@ != id@ ==> after.1.cache@[k] == before.1.cache@[k],
        before.1.cache@[k].id@ == id@ && (forall|j: int|
            0 <= j < k ==> (#[trigger] before.1.cache@[j]).id@ != id@) ==> after.1.cache@[k].title
            == topic && after.1.cache@[k].slug == Some(slug) && after.1.cache@[k].id
            == before.1.cache@[k].id,
{
    listed_at(before.1.cache@, id@, 0);
}

proof fn listed_at(list: Seq<Session>, id: Seq<char>, i: int)
    requires
        0 <= i,
    ensures
        match session_at(list, id, i) {
            Some(k) => i <= k < list.len() && list[k].id@ == id && forall|j: int|
                i <= j < k ==> (#[trigger] list[j]).id@ != id,
            None => forall|j: int| i <= j < list.len() ==> (#[trigger] list[j]).id@ != id,
        },
    decreases list.len() - i,
{
    if i < list.len() && list[i].id@ != id {
        listed_at(list, id, i + 1);
    }
}

/// Every row but a tool call goes into naming a session, by its role and its
/// start.
pub proof fn rows_name_a_session(rows: Seq<MessageView>, m: MessageView)
    ensures
        title_lines(Seq::empty()).len() == 0,
        m.role == "tool_call"@ ==> title_lines(rows.push(m)) == title_lines(rows),
        m.role != "tool_call"@ ==> title_lines(rows.push(m)) == title_lines(rows).push(
            m.role + ": "@ + first_chars(m.content, 500),
        ),
{
    assert(rows.push(m).drop_last() =~= rows);
}

/// Behind a word and a mark a new word begins: the words of a text are its
/// runs of letters and digits, in their order.
pub proof fn words_are_runs_of_letters(s: Seq<char>, w: Seq<char>, c: char)
    requires
        w.len() > 0,
        forall|i: int| 0 <= i < w.len() ==> is_alphanumeric(#[trigger] w[i]),
        !is_alphanumeric(c),
    ensures
        words(s.push(c) + w) == words(s).push(w),
        words(s.push(c)) == words(s),
        words(Seq::empty()).len() == 0,
{
    assert(s.push(c).drop_last() =~= s);
    let (done, run) = runs(s.push(c));
    assert(run.len() == 0);
    run_grows(s.push(c), w);
    assert(words(s.push(c)) == done);
    assert(words(s) =~= done);
}

proof fn run_grows(s: Seq<char>, w: Seq<char>)
    requires
        forall|i: int| 0 <= i < w.len() ==> is_alphanumeric(#[trigger] w[i]),
    ensures
        runs(s + w).0 == runs(s).0,
        runs(s + w).1 == runs(s).1 + w,
    decreases w.len(),
{
    if w.len() == 0 {
        assert(s + w =~= s);
        assert(runs(s).1 + w =~= runs(s).1);
    } else {
        assert((s + w).drop_last() =~= s + w.drop_last());
        assert(is_alphanumeric(w[w.len() - 1]));
        run_grows(s, w.drop_last());
        assert(runs(s).1 + w =~= (runs(s).1 + w.drop_last()).push(w.last()));
    }
}

/// A slug is made of the first five words, with hyphens between them.
pub proof fn a_slug_is_made_of_words(ws: Seq<Seq<char>>)
    ensures
        ws.len() == 0 ==> slug_of(ws) == "chat"@,
        0 < ws.len() <= 5 ==> slug_of(ws) == join(ws, "-"@),
        ws.len() > 5 ==> slug_of(ws) == join(ws.take(5), "-"@),
{
}

/// The names of the tools whose calls have words of their own.
pub open spec fn known_tools() -> Seq<Seq<char>> {
    seq![
        "skill"@,
        "install_skill"@,
        "run_script"@,
        "run_python"@,
        "grep_app"@,
        "install_packages"@,
        "web_search"@,
        "search_files"@,
        "read_file"@,
        "read_app_file"@,
        "write_file"@,
        "edit_file"@,
    ]
}

proof fn known_tools_differ()
    ensures
        forall|a: int, b: int|
            0 <= a < b < known_tools().len() ==> known_tools()[a] != known_tools()[b],
{
    reveal_strlit("skill");
    reveal_strlit("install_skill");
    reveal_strlit("run_script");
    reveal_strlit("run_python");
    reveal_strlit("grep_app");
    reveal_strlit("install_packages");
    reveal_strlit("web_search");
    reveal_strlit("search_files");
    reveal_strlit("read_file");
    reveal_strlit("read_app_file");
    reveal_strlit("write_file");
    reveal_strlit("edit_file");
    let k = known_tools();
    assert(k[0].len() == 5 && k[1].len() == 13 && k[2].len() == 10 && k[3].len() == 10);
    assert(k[4].len() == 8 && k[5].len() == 16 && k[6].len() == 10 && k[7].len() == 12);
    assert(k[8].len() == 9 && k[9].len() == 13 && k[10].len() == 10 && k[11].len() == 9);
    assert(k[1][0] == 'i' && k[9][0] == 'r' && k[8][0] == 'r' && k[11][0] == 'e');
    assert(k[2][4] == 's' && k[3][4] == 'p' && k[2][0] == 'r' && k[3][0] == 'r');
    assert(k[6][0] == 'w' && k[10][0] == 'w' && k[6][1] == 'e' && k[10][1] == 'r');
}

/// A call about a skill names the skill, where it comes from, or the script.
#[verifier::rlimit(40)]
pub proof fn a_call_names_its_skill(args: Seq<char>, result: Seq<char>)
    ensures
        within(text_arg(call_args(args), "name"@), call_summary("skill"@, args, result)),
        within(text_arg(call_args(args), "source"@), call_summary("install_skill"@, args, result)),
        within(
            text_arg(call_args(args), "skill"@) + "/"@ + text_arg(call_args(args), "script"@),
            call_summary("run_script"@, args, result),
        ),
{
    let v = call_args(args);
    known_tools_differ();
    let k = known_tools();
    assert(k[0] != k[1] && k[0] != k[2] && k[1] != k[2]);
    stands_last("skill "@, text_arg(v, "name"@));
    let a = text_arg(v, "source"@);
    let rest = " → "@ + head_line(result);
    assert(call_summary("install_skill"@, args, result) =~= "install_skill "@ + a + rest);
    stands_between("install_skill "@, a, rest);
    let b = text_arg(v, "skill"@) + "/"@ + text_arg(v, "script"@);
    assert(call_summary("run_script"@, args, result) =~= "run_script "@ + b);
    stands_last("run_script "@, b);
}

/// A call that looks for something names what it looked for.
#[verifier::rlimit(40)]
pub proof fn a_call_names_what_it_looked_for(args: Seq<char>, result: Seq<char>)
    ensures
        within(text_arg(call_args(args), "app"@), call_summary("grep_app"@, args, result)),
        within(text_arg(call_args(args), "pattern"@), call_summary("grep_app"@, args, result)),
        within(text_arg(call_args(args), "query"@), call_summary("web_search"@, args, result)),
        within(text_arg(call_args(args), "query"@), call_summary("search_files"@, args, result)),
{
    let v = call_args(args);
    known_tools_differ();
    let k = known_tools();
    assert(k[0] != k[4] && k[1] != k[4] && k[2] != k[4] && k[3] != k[4]);
    assert(k[0] != k[6] && k[1] != k[6] && k[2] != k[6] && k[3] != k[6] && k[4] != k[6] && k[5]
        != k[6]);
    assert(k[0] != k[7] && k[1] != k[7] && k[2] != k[7] && k[3] != k[7] && k[4] != k[7] && k[5]
        != k[7]);
    let (a, p) = (text_arg(v, "app"@), text_arg(v, "pattern"@));
    let h = hits("no matches"@.is_prefix_of(result), result);
    let s = call_summary("grep_app"@, args, result);
    assert(s =~= "grep_app "@ + a + (" \""@ + p + "\" → "@ + h));
    stands_between("grep_app "@, a, " \""@ + p + "\" → "@ + h);
    assert(s =~= ("grep_app "@ + a + " \""@) + p + ("\" → "@ + h));
    stands_between("grep_app "@ + a + " \""@, p, "\" → "@ + h);
    let q = text_arg(v, "query"@);
    let g = hits(
        "no results"@.is_prefix_of(result) || "no matches"@.is_prefix_of(result) || contains(
            result,
            "failed"@,
        ),
        result,
    );
    assert(call_summary("web_search"@, args, result) =~= ("web_search"@ + " \""@) + q + ("\" → "@
        + g));
    stands_between("web_search"@ + " \""@, q, "\" → "@ + g);
    assert(call_summary("search_files"@, args, result) =~= ("search_files"@ + " \""@) + q + (
    "\" → "@ + g));
    stands_between("search_files"@ + " \""@, q, "\" → "@ + g);
}

/// A call that reads a file of the space names it.
#[verifier::rlimit(40)]
pub proof fn a_call_names_the_file_it_read(args: Seq<char>, result: Seq<char>)
    ensures
        within(
            text_arg(call_args(args), "name"@),
            call_summary("read_file"@, args, result),
        ),
{
    let v = call_args(args);
    known_tools_differ();
    let k = known_tools();
    assert(k[0] != k[8] && k[1] != k[8] && k[2] != k[8]);
    assert(k[3] != k[8] && k[4] != k[8] && k[5] != k[8]);
    assert(k[6] != k[8] && k[7] != k[8]);
    let a = text_arg(v, "name"@);
    let rest = " → "@ + head_line(result);
    assert(call_summary("read_file"@, args, result) =~= "read_file "@ + a + rest);
    stands_between("read_file "@, a, rest);
}

/// A call that reads a file of an app names it.
#[verifier::rlimit(40)]
pub proof fn a_call_names_the_app_file_it_read(args: Seq<char>, result: Seq<char>)
    ensures
        within(
            text_arg(call_args(args), "app"@) + "/"@ + text_arg(call_args(args), "path"@),
            call_summary("read_app_file"@, args, result),
        ),
{
    let v = call_args(args);
    known_tools_differ();
    let k = known_tools();
    assert(k[0] != k[9] && k[1] != k[9] && k[2] != k[9]);
    assert(k[3] != k[9] && k[4] != k[9] && k[5] != k[9]);
    assert(k[6] != k[9] && k[7] != k[9] && k[8] != k[9]);
    let b = text_arg(v, "app"@) + "/"@ + text_arg(v, "path"@);
    assert(call_summary("read_app_file"@, args, result) =~= "read_app_file "@ + b);
    stands_last("read_app_file "@, b);
}

/// A call that writes a file of an app names it.
#[verifier::rlimit(40)]
pub proof fn a_call_names_the_file_it_wrote(args: Seq<char>, result: Seq<char>)
    ensures
        within(
            text_arg(call_args(args), "app"@) + "/"@ + text_arg(call_args(args), "path"@),
            call_summary("write_file"@, args, result),
        ),
{
    let v = call_args(args);
    known_tools_differ();
    let k = known_tools();
    assert(k[0] != k[10] && k[1] != k[10] && k[2] != k[10]);
    assert(k[3] != k[10] && k[4] != k[10] && k[5] != k[10]);
    assert(k[6] != k[10] && k[7] != k[10] && k[8] != k[10]);
    assert(k[9] != k[10]);
    let b = text_arg(v, "app"@) + "/"@ + text_arg(v, "path"@);
    let more = " ("@ + decimal(
        (encode_utf8(text_arg(v, "content"@)).len() as usize) as nat,
    ) + " bytes)"@;
    assert(call_summary("write_file"@, args, result) =~= "write_file "@ + b + more);
    stands_between("write_file "@, b, more);
}

/// A call that edits a file of an app names it.
#[verifier::rlimit(40)]
pub proof fn a_call_names_the_file_it_edited(args: Seq<char>, result: Seq<char>)
    ensures
        within(
            text_arg(call_args(args), "app"@) + "/"@ + text_arg(call_args(args), "path"@),
            call_summary("edit_file"@, args, result),
        ),
{
    let v = call_args(args);
    known_tools_differ();
    let k = known_tools();
    assert(k[0] != k[11] && k[1] != k[11] && k[2] != k[11]);
    assert(k[3] != k[11] && k[4] != k[11] && k[5] != k[11]);
    assert(k[6] != k[11] && k[7] != k[11] && k[8] != k[11]);
    assert(k[9] != k[11] && k[10] != k[11]);
    let b = text_arg(v, "app"@) + "/"@ + text_arg(v, "path"@);
    assert(call_summary("edit_file"@, args, result) =~= "edit_file "@ + b);
    stands_last("edit_file "@, b);
}

/// A call that installs packages names each of them.
#[verifier::rlimit(40)]
pub proof fn a_call_names_its_packages(
    args: Seq<char>,
    result: Seq<char>,
    items: Seq<Json>,
    i: int,
)
    requires
        get_list(call_args(args), "packages"@) == Some(items),
        0 <= i < item_texts(items).len(),
    ensures
        within(item_texts(items)[i], call_summary("install_packages"@, args, result)),
{
    let v = call_args(args);
    known_tools_differ();
    let k = known_tools();
    assert(k[0] != k[5] && k[1] != k[5] && k[2] != k[5] && k[3] != k[5] && k[4] != k[5]);
    let s = call_summary("install_packages"@, args, result);
    let p = join(item_texts(items), " "@);
    let skill = text_arg(v, "skill"@);
    let target = if skill.len() > 0 { skill } else { text_arg(v, "app"@) };
    joined_parts_stand(item_texts(items), " "@, i);
    assert(s =~= "install_packages "@ + p + (" → "@ + target));
    stands_between("install_packages "@, p, " → "@ + target);
    within_carries(item_texts(items)[i], p, s);
}

/// Of a list only what is text is named, all of it, in its order.
pub proof fn only_texts_of_a_list_are_named(items: Seq<Json>, j: Json, t: Seq<char>)
    ensures
        item_texts(Seq::empty()).len() == 0,
        item_texts(items.push(Json::Text(t))) == item_texts(items).push(t),
        !(j is Text) ==> item_texts(items.push(j)) == item_texts(items),
{
    assert(items.push(Json::Text(t)).drop_last() =~= items);
    assert(items.push(j).drop_last() =~= items);
}

} // verus!
