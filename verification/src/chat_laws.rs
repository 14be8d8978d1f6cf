//! What a request carries of a conversation, and what a digest carries forward.

use crate::backends::Backends;
use crate::compaction::{
    boundary, compacted, compaction_start, content_len, digest_row, percent, skills_len, spoken_len,
    tail_lines, tail_text, time_before, with_digest, CompactRequest,
};
use crate::effects::EffectView;
use crate::history::{
    armed_skill, history, image_files, linked, opening, row_messages, rows_messages, url_of_file,
    urls_of, LinkedImage,
};
use crate::provider::ChatMessageView;
use crate::sending::{
    message_to_store, send_refusal, sent, stream_start, MessageToStoreView, NewChat, SendNext,
    StreamInputs, StreamParts, StreamRequest,
};
use crate::state::{Catalog, ChatTasks, Conversation, Jobs, Screen, Settings, SkillsPopup};
use crate::store::{MessageView, Session, Skill};
use crate::text::{find, find_char, find_char_found, find_found, occurs_at, opt_text, views};
use crate::text_laws::{
    blank, joined_parts_stand, stands_between, trimming_cuts_whitespace, within, within_carries,
};
use crate::tools::row_call;
use vstd::prelude::*;

verus! {

/// Whether a row is part of the conversation with a model: it is no single
/// persona's, and neither a note of a background job nor a failure, a link or
/// a digest.
pub open spec fn is_said(m: MessageView) -> bool {
    &&& m.persona is None
    &&& m.role != "compaction"@ && m.role != "research_stage"@ && m.role != "research_plan"@
    &&& m.role != "survey"@ && m.role != "gate_reply"@ && m.role != "session_link"@
    &&& m.role != "error"@
}

/// A row of the conversation is carried as one message: its own role, its own
/// content, and no tool call. Images go with a user's row alone, and only to a
/// model that sees them.
pub proof fn a_row_is_carried_as_it_is(m: MessageView, vision: bool, known: Seq<LinkedImage>)
    requires
        is_said(m),
        m.role != "tool_call"@,
    ensures
        ({
            let messages = row_messages(m, vision, known);
            &&& messages.len() == 1
            &&& messages[0].role == m.role
            &&& messages[0].content == m.content
            &&& messages[0].tool_calls is None
            &&& messages[0].tool_call_id is None
            &&& m.role != "user"@ || !vision ==> messages[0].images.len() == 0
            &&& m.role == "user"@ && vision ==> messages[0].images == urls_of(
                image_files(m.content),
                known,
            )
        }),
{
}

/// A row that is no part of the conversation is not carried.
pub proof fn other_rows_are_not_carried(m: MessageView, vision: bool, known: Seq<LinkedImage>)
    requires
        !is_said(m),
    ensures
        row_messages(m, vision, known).len() == 0,
{
}

/// A tool call is carried as the call of the assistant and the answer of the
/// tool, under one id; one that cannot be read is not carried.
pub proof fn a_tool_call_is_carried_with_its_answer(
    m: MessageView,
    vision: bool,
    known: Seq<LinkedImage>,
)
    requires
        is_said(m),
        m.role == "tool_call"@,
    ensures
        ({
            let messages = row_messages(m, vision, known);
            match row_call(m.content) {
                None => messages.len() == 0,
                Some((call, answer)) => {
                    &&& messages.len() == 2
                    &&& messages[0].role == "assistant"@ && messages[0].tool_calls == Some(
                        seq![call],
                    ) && messages[0].tool_call_id is None
                    &&& messages[1].role == "tool"@ && messages[1].content == answer
                        && messages[1].tool_call_id == Some(call.id)
                        && messages[1].tool_calls is None
                },
            }
        }),
{
}

/// Rows are carried in their order: a row that follows is carried behind those
/// before it, and changes nothing of them.
pub proof fn rows_are_carried_in_order(
    rows: Seq<MessageView>,
    m: MessageView,
    vision: bool,
    known: Seq<LinkedImage>,
)
    ensures
        rows_messages(Seq::empty(), vision, known).len() == 0,
        rows_messages(rows.push(m), vision, known) == rows_messages(rows, vision, known)
            + row_messages(m, vision, known),
{
    assert(rows.push(m).drop_last() =~= rows);
}

/// The request for a conversation with one more row is the request without it,
/// and the row: what was said stays where it stood.
pub proof fn what_is_said_is_sent(
    talk: Conversation,
    longer: Conversation,
    skills: SkillsPopup,
    prompt: Seq<char>,
    images: Option<ChatMessageView>,
    vision: bool,
    body: Seq<char>,
    known: Seq<LinkedImage>,
    m: MessageView,
)
    requires
        longer.session == talk.session,
        views(longer.messages@) == views(talk.messages@).push(m),
        talk.session matches Some(s) ==> 0 <= s.compact_through <= talk.messages@.len(),
        is_said(m),
        m.role != "tool_call"@,
    ensures
        ({
            let before = history(talk, skills, prompt, images, vision, body, known);
            let after = history(longer, skills, prompt, images, vision, body, known);
            &&& after.len() == before.len() + 1
            &&& after.drop_last() == before
            &&& after.last().role == m.role
            &&& after.last().content == m.content
        }),
{
    let rows = talk.effective();
    assert(longer.messages@.len() == views(longer.messages@).len());
    assert(talk.messages@.len() == views(talk.messages@).len());
    assert(longer.effective() =~= rows.push(m));
    rows_are_carried_in_order(rows, m, vision, known);
    a_row_is_carried_as_it_is(m, vision, known);
    let before = history(talk, skills, prompt, images, vision, body, known);
    let after = history(longer, skills, prompt, images, vision, body, known);
    assert(after =~= before + row_messages(m, vision, known));
    assert(after.drop_last() =~= before);
}

/// A request without rows holds the system prompt, then the images of the
/// space for a model that sees them, then the digest, then the armed skill,
/// and nothing else.
pub proof fn a_request_opens_with_what_is_known(
    prompt: Seq<char>,
    images: Option<ChatMessageView>,
    vision: bool,
    summary: Option<Seq<char>>,
    skill: Option<(Seq<char>, Seq<char>)>,
)
    ensures
        ({
            let o = opening(prompt, images, vision, summary, skill);
            let n: int = if images is Some && vision { 2 } else { 1 };
            let k: int = if summary is Some { n + 1 } else { n };
            &&& o[0].role == "system"@ && o[0].content == prompt
            &&& images is Some && vision ==> o[1] == images->0
            &&& summary matches Some(s) ==> o[n].role == "system"@ && s.is_suffix_of(o[n].content)
            &&& skill matches Some((name, body)) ==> o[k].role == "system"@ && within(
                name,
                o[k].content,
            ) && body.is_suffix_of(o[k].content)
            &&& o.len() == (if skill is Some { k + 1 } else { k })
        }),
{
    let o = opening(prompt, images, vision, summary, skill);
    let n: int = if images is Some && vision { 2 } else { 1 };
    let k: int = if summary is Some { n + 1 } else { n };
    if let Some(s) = summary {
        let t = "Summary of earlier conversation (auto-compacted for length):\n"@ + s;
        assert(o[n].content == t);
        assert(t.skip(t.len() - s.len()) =~= s);
    }
    if let Some((name, body)) = skill {
        let (a, b) = ("The user invoked the skill '"@, "'. Follow these instructions:\n"@);
        let t = a + name + b + body;
        assert(o[k].content == t);
        assert(t.skip(t.len() - body.len()) =~= body);
        assert(t =~= a + name + (b + body));
        stands_between(a, name, b + body);
    }
}

/// The digest of a session goes with every request, and the rows that it
/// covers do not: those that follow are carried from the boundary on.
pub proof fn the_digest_stands_for_what_it_covers(
    talk: Conversation,
    s: Session,
    skills: SkillsPopup,
    prompt: Seq<char>,
    vision: bool,
    body: Seq<char>,
    known: Seq<LinkedImage>,
)
    requires
        talk.session == Some(s),
        s.compact_summary is Some,
        0 <= s.compact_through <= talk.messages@.len(),
    ensures
        ({
            let h = history(talk, skills, prompt, None, vision, body, known);
            let rest = views(talk.messages@).skip(s.compact_through as int);
            &&& h.len() >= 2
            &&& h[1].role == "system"@ && s.compact_summary->0@.is_suffix_of(h[1].content)
            &&& rows_messages(rest, vision, known).is_suffix_of(h)
            &&& h.len() == rows_messages(rest, vision, known).len() + (if armed_skill(
                skills,
            ) is Some {
                3int
            } else {
                2
            })
        }),
{
    let skill = match armed_skill(skills) {
        Some(i) => Some((skills.forced->0@, body)),
        None => None,
    };
    a_request_opens_with_what_is_known(prompt, None, vision, talk.summary(), skill);
    let h = history(talk, skills, prompt, None, vision, body, known);
    let rest = views(talk.messages@).skip(s.compact_through as int);
    let tail = rows_messages(rest, vision, known);
    assert(h.skip(h.len() - tail.len()) =~= tail);
}

/// The first file that a text links as an image is what stands in the round
/// brackets of the link; the rest of the text is read on.
pub proof fn a_linked_image_is_found(
    before: Seq<char>,
    alt: Seq<char>,
    file: Seq<char>,
    after: Seq<char>,
)
    requires
        forall|i: int| 0 <= i < before.len() ==> #[trigger] before[i] != '!',
        !alt.contains(')'),
        !alt.contains(']'),
        !file.contains(')'),
    ensures
        image_files(before + "!["@ + alt + "]("@ + file + ")"@ + after) == seq![file]
            + image_files(after),
{
    reveal_strlit("![");
    reveal_strlit("](");
    reveal_strlit(")");
    let s = before + "!["@ + alt + "]("@ + file + ")"@ + after;
    let i = before.len() as int;
    find_found(s, "!["@);
    assert(s.subrange(i, i + 2) =~= "!["@);
    assert(occurs_at(s, "!["@, i));
    assert forall|j: int| 0 <= j < i implies !occurs_at(s, "!["@, j) by {
        assert(s[j] == before[j]);
        if occurs_at(s, "!["@, j) {
            assert(s.subrange(j, j + 2)[0] == s[j]);
            assert("!["@[0] == '!');
        }
    }
    assert(find(s, "!["@) == Some(i));
    let t = s.skip(i);
    let e = (2 + alt.len() + 2 + file.len()) as int;
    find_char_found(t, ')');
    assert(t[e] == ')');
    assert forall|j: int| 0 <= j < e implies t[j] != ')' by {
        if 2 <= j < 2 + alt.len() {
            assert(t[j] == alt[j - 2]);
            assert(alt.contains(alt[j - 2]));
        } else if j >= 4 + alt.len() {
            assert(t[j] == file[j - 4 - alt.len()]);
            assert(file.contains(file[j - 4 - alt.len()]));
        }
    }
    assert(find_char(t, ')') == Some(e));
    let inner = s.subrange(i + 2, i + e);
    assert(inner =~= alt + "]("@ + file);
    find_found(inner, "]("@);
    let k = alt.len() as int;
    assert(inner.subrange(k, k + 2) =~= "]("@);
    assert(occurs_at(inner, "]("@, k));
    assert forall|j: int| 0 <= j < k implies !occurs_at(inner, "]("@, j) by {
        assert(inner[j] == alt[j]);
        assert(alt.contains(alt[j]));
        if occurs_at(inner, "]("@, j) {
            assert(inner.subrange(j, j + 2)[0] == inner[j]);
            assert("]("@[0] == ']');
        }
    }
    assert(find(inner, "]("@) == Some(k));
    assert(inner.skip(k + 2) =~= file);
    assert(linked(inner) =~= seq![file]);
    assert(s.skip(i + e + 1) =~= after);
}

/// Text without an image mark links no image.
pub proof fn text_without_marks_links_nothing(s: Seq<char>)
    requires
        forall|i: int| 0 <= i < s.len() ==> #[trigger] s[i] != '!',
    ensures
        image_files(s).len() == 0,
{
    reveal_strlit("![");
    find_found(s, "!["@);
    if let Some(k) = find(s, "!["@) {
        assert(s.subrange(k, k + 2)[0] == s[k]);
        assert("!["@[0] == '!');
    }
}

/// The images of a row are those of the files that can be read, in the order
/// of the links; a file that cannot be read is left out.
pub proof fn readable_images_are_carried(
    files: Seq<Seq<char>>,
    file: Seq<char>,
    known: Seq<LinkedImage>,
    i: int,
)
    ensures
        urls_of(Seq::empty(), known).len() == 0,
        (forall|j: int| 0 <= j < known.len() ==> (#[trigger] known[j]).file@ != file) ==> urls_of(
            files.push(file),
            known,
        ) == urls_of(files, known),
        0 <= i < known.len() && known[i].file@ == file && (forall|j: int|
            0 <= j < i ==> (#[trigger] known[j]).file@ != file) ==> urls_of(
            files.push(file),
            known,
        ) == urls_of(files, known).push(known[i].url@),
{
    assert(files.push(file).drop_last() =~= files);
    if forall|j: int| 0 <= j < known.len() ==> (#[trigger] known[j]).file@ != file {
        url_is_first(known, file, 0, known.len() as int);
    }
    if 0 <= i < known.len() && known[i].file@ == file && (forall|j: int|
        0 <= j < i ==> (#[trigger] known[j]).file@ != file) {
        url_is_first(known, file, 0, i);
    }
}

proof fn url_is_first(known: Seq<LinkedImage>, file: Seq<char>, from: int, i: int)
    requires
        0 <= from <= i <= known.len(),
        forall|j: int| from <= j < i ==> (#[trigger] known[j]).file@ != file,
    ensures
        url_of_file(known, file, from) == url_of_file(known, file, i),
    decreases i - from,
{
    if from < i {
        url_is_first(known, file, from + 1, i);
    }
}

/// A message that is taken joins its session as the user's row, behind those
/// that are there, and a model or a swarm answers, as the session says.
pub proof fn a_taken_message_joins_its_session(
    before: (Conversation, Screen),
    after: (Conversation, Screen),
    next: SendNext,
    effects: Seq<EffectView>,
    text: Seq<char>,
    model: Seq<char>,
    incognito: bool,
    web_mode: bool,
    new: NewChat,
    stored: bool,
)
    requires
        sent(None, before, after, next, effects, text, model, incognito, web_mode, new, stored),
        before.0.session is Some,
        incognito || stored,
    ensures
        after.0.session == before.0.session,
        after.0.messages@.len() == before.0.messages@.len() + 1,
        views(after.0.messages@).drop_last() == views(before.0.messages@),
        views(after.0.messages@).last().role == "user"@,
        views(after.0.messages@).last().content == text,
        views(after.0.messages@).last().persona is None,
        next == (if before.0.session->0.swarm_mode { SendNext::Swarm } else { SendNext::Stream }),
        effects.len() == 0,
{
    let rows = views(after.0.messages@);
    assert(rows.len() == after.0.messages@.len());
    assert(views(before.0.messages@).len() == before.0.messages@.len());
    assert(rows.drop_last() =~= views(before.0.messages@));
}

/// A refused message is not lost: it stands in the composer again, the status
/// says why, and the conversation is as it was.
pub proof fn a_refused_message_is_given_back(
    why: Seq<char>,
    before: (Conversation, Screen),
    after: (Conversation, Screen),
    next: SendNext,
    effects: Seq<EffectView>,
    text: Seq<char>,
    model: Seq<char>,
    incognito: bool,
    web_mode: bool,
    new: NewChat,
    stored: bool,
)
    requires
        sent(
            Some(why),
            before,
            after,
            next,
            effects,
            text,
            model,
            incognito,
            web_mode,
            new,
            stored,
        ),
    ensures
        next == SendNext::Refused,
        after.0 == before.0,
        after.1.input@ == text,
        after.1.status@ == why,
        effects.len() == 0,
{
}

/// A message is refused exactly where a response streams in for its session,
/// where there are as many responses as may be, without a backend, and without
/// a model.
pub proof fn messages_are_refused_for_a_reason(
    chats: ChatTasks,
    talk: Conversation,
    backends: Backends,
    current: Option<String>,
)
    ensures
        send_refusal(chats, talk, backends, current) is Some <==> {
            ||| talk.session matches Some(s) && chats.of(s.id@) is Some
            ||| chats.tasks@.len() >= chats.limit
            ||| backends.first() is None
            ||| current is None
        },
{
}

/// Incognito, nothing of a message is stored; else what is stored is the text
/// itself, in the session that is viewed or in a new one with the model.
pub proof fn what_is_stored_is_what_is_sent(
    talk: Conversation,
    current: Option<String>,
    text: Seq<char>,
    refused: Option<Seq<char>>,
    incognito: bool,
)
    ensures
        refused is Some || incognito ==> message_to_store(refused, talk, current, incognito, text)
            is Nothing,
        refused is None && !incognito ==> match (
            message_to_store(refused, talk, current, incognito, text),
            talk.session,
        ) {
            (MessageToStoreView::Message { session_id, text: t }, Some(s)) => session_id == s.id@
                && t == text,
            (MessageToStoreView::Session { model, text: t, .. }, None) => current matches Some(m)
                && model == m@ && t == text,
            (MessageToStoreView::Nothing, None) => current is None,
            _ => false,
        },
{
}

/// A request that starts goes to the backend of the active model, carries the
/// whole history, and has the parameters of the settings.
pub proof fn a_request_carries_the_history(
    backends: Backends,
    settings: Settings,
    talk: Conversation,
    space_id: Seq<char>,
    incognito: bool,
    before: StreamParts,
    after: StreamParts,
    q: StreamRequest,
    i: StreamInputs,
)
    requires
        stream_start(
            backends,
            settings,
            talk,
            space_id,
            incognito,
            before,
            after,
            Some(q),
            i,
        ),
    ensures
        before.catalog.current matches Some(model) && backends.route(model@) == Some(
            (q.backend, q.model@),
        ),
        views(q.history@) == history(
            talk,
            before.skills,
            i.prompt@,
            match i.images {
                Some(m) => Some(m@),
                None => None,
            },
            before.catalog.sees_images(),
            i.body@,
            i.known@,
        ),
        q.params.temperature == settings.temperature,
        q.params.top_p == settings.top_p,
        q.params.max_tokens == settings.max_tokens,
        after.skills.forced is None,
        talk.session is Some ==> q.task_id == Some(before.chats.next_id),
        talk.session is None ==> q.task_id is None && after.chats == before.chats,
{
}

/// A response that begins belongs to the session that is viewed: it has its
/// id, the space, the model and the mode, and nothing has come in yet.
pub proof fn a_response_belongs_to_its_session(
    backends: Backends,
    settings: Settings,
    talk: Conversation,
    space_id: Seq<char>,
    incognito: bool,
    before: StreamParts,
    after: StreamParts,
    q: StreamRequest,
    i: StreamInputs,
    s: Session,
)
    requires
        stream_start(
            backends,
            settings,
            talk,
            space_id,
            incognito,
            before,
            after,
            Some(q),
            i,
        ),
        talk.session == Some(s),
    ensures
        ({
            let tasks = views(after.chats.tasks@);
            let t = tasks.last();
            &&& tasks.len() > 0
            &&& t.id == before.chats.next_id && q.task_id == Some(t.id)
            &&& t.session_id == s.id@ && t.session_title == s.title@
            &&& t.space_id == space_id && t.incognito == incognito
            &&& t.model == before.catalog.current->0@
            &&& t.buffer.len() == 0 && t.thinking.len() == 0 && t.usage is None
            &&& after.chats.next_id == (if before.chats.next_id == u64::MAX {
                0
            } else {
                before.chats.next_id + 1
            })
        }),
{
}

/// A model with a reasoning effort that it does not accept is asked without
/// one, and the effort is forgotten; one that it accepts is asked for.
pub proof fn only_an_accepted_effort_is_asked_for(
    backends: Backends,
    settings: Settings,
    talk: Conversation,
    space_id: Seq<char>,
    incognito: bool,
    before: StreamParts,
    after: StreamParts,
    q: StreamRequest,
    i: StreamInputs,
    model: String,
)
    requires
        stream_start(
            backends,
            settings,
            talk,
            space_id,
            incognito,
            before,
            after,
            Some(q),
            i,
        ),
        before.catalog.current == Some(model),
        before.catalog.reasoning@.contains_key(model@),
    ensures
        i.accepted ==> opt_text(q.params.reasoning_effort) == Some(
            before.catalog.reasoning@[model@],
        ) && after.catalog.reasoning@ == before.catalog.reasoning@,
        !i.accepted ==> q.params.reasoning_effort is None
            && !after.catalog.reasoning@.contains_key(model@),
{
}

proof fn tail_line_stands(rows: Seq<MessageView>, i: int)
    requires
        0 <= i < rows.len(),
        is_said(rows[i]),
        rows[i].role != "tool_call"@,
    ensures
        tail_lines(rows).contains(rows[i].role + ": "@ + rows[i].content),
    decreases rows.len(),
{
    let before = tail_lines(rows.drop_last());
    let line = rows[i].role + ": "@ + rows[i].content;
    if i == rows.len() - 1 {
        assert(tail_lines(rows)[before.len() as int] == line);
    } else {
        tail_line_stands(rows.drop_last(), i);
        let k = choose|k: int| 0 <= k < before.len() && before[k] == line;
        assert(tail_lines(rows)[k] == line);
    }
}

/// A digest is carried forward: where the session has one, the prompt of the
/// next compaction holds it and, behind it, the lines of the rows that it does
/// not cover. Gives what stands before the digest and behind it.
pub proof fn a_digest_is_carried_forward(
    backends: Backends,
    catalog: Catalog,
    memory_model: Seq<char>,
    talk: Conversation,
    n: nat,
    before: (Jobs, Screen),
    after: (Jobs, Screen),
    pct: u64,
    q: CompactRequest,
    s: Session,
) -> (r: (Seq<char>, Seq<char>))
    requires
        compaction_start(
            backends,
            catalog,
            memory_model,
            talk,
            n,
            before,
            after,
            pct,
            Some(q),
        ),
        n <= talk.messages@.len(),
        talk.session == Some(s),
    ensures
        q.prompt@ == r.0 + (match s.compact_summary {
            Some(old_digest) => old_digest@,
            None => Seq::empty(),
        }) + r.1,
        forall|i: int|
            boundary(s.compact_through, n) <= i < n && is_said(
                #[trigger] views(talk.messages@)[i],
            ) && views(talk.messages@)[i].role != "tool_call"@ ==> within(
                views(talk.messages@)[i].role + ": "@ + views(talk.messages@)[i].content,
                r.1,
            ),
        q.session_id@ == s.id@,
        q.through == n,
{
    let rows = views(talk.messages@).take(n as int);
    let from = s.compact_through as int;
    let tail = tail_text(rows, from);
    let lines = tail_lines(rows.skip(from));
    let mid = "New messages since that summary:\n"@;
    let end = crate::compaction::DIGEST_PROMPT@;
    let (a, b) = match s.compact_summary {
        Some(_) => ("Existing summary of earlier conversation:\n"@, "\n\n"@ + mid + tail + end),
        None => (Seq::empty(), mid + tail + end),
    };
    let d = match s.compact_summary {
        Some(x) => x@,
        None => Seq::empty(),
    };
    assert(q.prompt@ =~= a + d + b);
    let lead = if s.compact_summary is Some { "\n\n"@ + mid } else { mid };
    assert(b =~= lead + tail + end);
    stands_between(lead, tail, end);
    assert forall|i: int|
        boundary(s.compact_through, n) <= i < n && is_said(#[trigger] views(talk.messages@)[i])
            && views(talk.messages@)[i].role != "tool_call"@ implies within(
        views(talk.messages@)[i].role + ": "@ + views(talk.messages@)[i].content,
        b,
    ) by {
        let m = views(talk.messages@)[i];
        let kept = rows.skip(from);
        assert(kept[i - from] == m);
        tail_line_stands(kept, i - from);
        let line = m.role + ": "@ + m.content;
        let k = choose|k: int| 0 <= k < lines.len() && lines[k] == line;
        joined_parts_stand(lines, "\n\n"@, k);
        within_carries(line, tail, b);
    }
    (a, b)
}

/// Two sessions that differ in the stored digest alone are compacted with
/// different prompts.
pub proof fn different_digests_give_different_prompts(
    backends: Backends,
    catalog: Catalog,
    memory_model: Seq<char>,
    talk: Conversation,
    other: Conversation,
    n: nat,
    before: (Jobs, Screen),
    after: (Jobs, Screen),
    pct: u64,
    q: CompactRequest,
    p: CompactRequest,
    s: Session,
    t: Session,
)
    requires
        compaction_start(
            backends,
            catalog,
            memory_model,
            talk,
            n,
            before,
            after,
            pct,
            Some(q),
        ),
        compaction_start(
            backends,
            catalog,
            memory_model,
            other,
            n,
            before,
            after,
            pct,
            Some(p),
        ),
        talk.session == Some(s),
        other.session == Some(t),
        talk.messages == other.messages,
        s.compact_through == t.compact_through,
        opt_text(s.compact_summary) != opt_text(t.compact_summary),
    ensures
        q.prompt@ != p.prompt@,
{
    let tail = tail_text(views(talk.messages@).take(n as int), s.compact_through as int);
    let head = "Existing summary of earlier conversation:\n"@;
    let rest = "New messages since that summary:\n"@ + tail + crate::compaction::DIGEST_PROMPT@;
    reveal_strlit("Existing summary of earlier conversation:\n");
    reveal_strlit("New messages since that summary:\n");
    let text = |o: Option<String>| match o {
        Some(x) => head + x@ + "\n\n"@ + rest,
        None => rest,
    };
    assert(q.prompt@ =~= text(s.compact_summary));
    assert(p.prompt@ =~= text(t.compact_summary));
    if q.prompt@ == p.prompt@ {
        match (s.compact_summary, t.compact_summary) {
            (Some(x), Some(y)) => {
                assert(x@.len() == y@.len());
                assert(x@ =~= q.prompt@.subrange(head.len() as int, head.len() as int + x@.len()));
                assert(y@ =~= p.prompt@.subrange(head.len() as int, head.len() as int + y@.len()));
            },
            (Some(_), None) => {
                assert(q.prompt@[0] == 'E');
                assert(p.prompt@[0] == 'N');
            },
            (None, Some(_)) => {
                assert(q.prompt@[0] == 'N');
                assert(p.prompt@[0] == 'E');
            },
            _ => {},
        }
    }
}

/// A compaction asks the model for memory where one is set, and else the
/// active one, and only where there are rows that no digest covers.
pub proof fn a_compaction_asks_the_right_model(
    backends: Backends,
    catalog: Catalog,
    memory_model: Seq<char>,
    talk: Conversation,
    n: nat,
    before: (Jobs, Screen),
    after: (Jobs, Screen),
    pct: u64,
    r: Option<CompactRequest>,
)
    requires
        compaction_start(backends, catalog, memory_model, talk, n, before, after, pct, r),
    ensures
        r matches Some(q) ==> {
            &&& !blank(memory_model) ==> backends.route(memory_model) == Some(
                (q.backend, q.model@),
            )
            &&& blank(memory_model) ==> (catalog.current matches Some(m) && backends.route(m@)
                == Some((q.backend, q.model@)))
            &&& after.0.compact
            &&& talk.session matches Some(s) && 0 <= s.compact_through < n
        },
        r is None ==> after.0 == before.0,
{
    trimming_cuts_whitespace(memory_model);
}

/// A digest that came back is kept: it is the session's, it covers the rows
/// that it says, it is stored, and the next request carries it and what
/// follows.
pub proof fn a_digest_that_came_back_is_kept(
    before: (Conversation, Jobs, Screen),
    after: (Conversation, Jobs, Screen),
    effects: Seq<EffectView>,
    id: String,
    summary: String,
    through: i64,
    pct: u64,
    limit: Option<u64>,
    used: nat,
)
    requires
        compacted(
            before,
            after,
            effects,
            Some((id, summary, through, pct)),
            limit,
            used,
        ),
    ensures
        !after.1.compact,
        after.0.context_total is None,
        effects.len() == 2,
        effects[0] == (EffectView::SetCompaction {
            session_id: id@,
            summary: summary@,
            through,
        }),
        before.0.is_of(id@) ==> after.0.summary() == Some(summary@)
            && after.0.session->0.compact_through == through,
        !before.0.is_of(id@) ==> after.0.session == before.0.session && after.0.messages
            == before.0.messages,
{
}

/// A digest row takes nothing away: it is put in between the rows or takes the
/// text of the digest row that was there, and all others are as they were.
pub proof fn a_digest_row_takes_nothing_away(
    rows: Seq<MessageView>,
    summary: Seq<char>,
    through: i64,
) -> (at: int)
    ensures
        ({
            let now = with_digest(rows, summary, through);
            &&& 0 <= at < now.len()
            &&& now[at].role == "compaction"@ && now[at].content == summary
            &&& now.remove(at) == rows || (now.len() == rows.len() && now.remove(at) == rows.remove(
                at,
            ) && rows[at].role == "compaction"@)
        }),
{
    first_digest(rows, 0);
    let now = with_digest(rows, summary, through);
    match digest_row(rows, 0) {
        Some(i) => {
            assert(now.remove(i) =~= rows.remove(i));
            i
        },
        None => {
            let at = boundary(through, rows.len());
            assert(now.remove(at) =~= rows);
            at
        },
    }
}

proof fn first_digest(rows: Seq<MessageView>, i: int)
    requires
        0 <= i,
    ensures
        match digest_row(rows, i) {
            Some(k) => i <= k < rows.len() && rows[k].role == "compaction"@,
            None => forall|k: int|
                i <= k < rows.len() ==> (#[trigger] rows[k]).role != "compaction"@,
        },
    decreases rows.len() - i,
{
    if i < rows.len() && rows[i].role != "compaction"@ {
        first_digest(rows, i + 1);
    }
}

/// A boundary lies within the rows, at the number that is stored where that is
/// within them.
pub proof fn a_boundary_lies_within(through: i64, len: nat)
    ensures
        0 <= boundary(through, len) <= len,
        0 <= through <= len ==> boundary(through, len) == through,
        !(0 <= through <= len) ==> boundary(through, len) == len,
{
}

/// The share of the context is the part in a hundred, rounded down.
pub proof fn a_share_is_in_percent(used: nat, limit: nat)
    requires
        limit > 0,
        used * 100 <= u64::MAX,
    ensures
        percent(used, limit) * limit <= used * 100 < (percent(used, limit) + 1) * limit,
{
    let p = percent(used, limit);
    vstd::arithmetic::div_mod::lemma_fundamental_div_mod((used * 100) as int, limit as int);
    vstd::arithmetic::div_mod::lemma_mod_bound((used * 100) as int, limit as int);
    assert(p * limit <= used * 100 < (p + 1) * limit) by (nonlinear_arith)
        requires
            used * 100 == limit * p + (used * 100) % limit,
            0 <= (used * 100) % limit < limit,
    ;
}

/// Every character of every row counts.
pub proof fn every_character_counts(a: Seq<MessageView>, m: MessageView)
    ensures
        content_len(Seq::empty()) == 0,
        content_len(a.push(m)) == content_len(a) + m.content.len(),
{
    assert(a.push(m).drop_last() =~= a);
}

/// What is said counts with all its characters, but for the digest, and so do
/// the name and the description of every skill.
pub proof fn what_is_said_is_counted(
    rows: Seq<MessageView>,
    m: MessageView,
    list: Seq<Skill>,
    k: Skill,
)
    ensures
        spoken_len(Seq::empty()) == 0,
        m.role != "compaction"@ ==> spoken_len(rows.push(m)) == spoken_len(rows) + m.content.len(),
        m.role == "compaction"@ ==> spoken_len(rows.push(m)) == spoken_len(rows),
        skills_len(Seq::empty()) == 0,
        skills_len(list.push(k)) == skills_len(list) + k.name@.len() + k.description@.len(),
{
    assert(rows.push(m).drop_last() =~= rows);
    assert(list.push(k).drop_last() =~= list);
}

/// A conversation takes what is sent of it, four characters to a token: the
/// prompt, the digest, the skill, every row that the digest does not cover and
/// the reply that comes in. A count that the backend gave goes before, unless
/// a reply comes in.
pub proof fn a_conversation_takes_what_is_sent(
    talk: Conversation,
    n: nat,
    prompt: Seq<char>,
    skill: Seq<char>,
    streaming: Option<Seq<char>>,
    s: Session,
    total: u64,
)
    requires
        talk.session == Some(s),
        s.compact_through == 0,
        opt_text(s.compact_summary) is None,
        n <= talk.messages@.len(),
    ensures
        talk.context_total is None && streaming is None ==> talk.used_within(
            n,
            prompt,
            skill,
            streaming,
        ) == (prompt.len() + skill.len() + content_len(views(talk.messages@).take(n as int))) / 4,
        talk.context_total == Some(total) && streaming is None ==> talk.used_within(
            n,
            prompt,
            skill,
            streaming,
        ) == total,
        streaming matches Some(t) ==> talk.used_within(n, prompt, skill, streaming) == (
        prompt.len() + skill.len() + content_len(views(talk.messages@).take(n as int)) + t.len())
            / 4,
{
    let rows = views(talk.messages@).take(n as int);
    assert(rows.skip(0) =~= rows);
}

/// A request is made exactly where the active model can be reached, unless an
/// effort that it does not take could not be cleared; without one it is said
/// which model cannot be reached.
pub proof fn a_request_is_made_where_it_can_be(
    backends: Backends,
    settings: Settings,
    talk: Conversation,
    space_id: Seq<char>,
    incognito: bool,
    before: StreamParts,
    after: StreamParts,
    r: Option<StreamRequest>,
    i: StreamInputs,
)
    requires
        stream_start(backends, settings, talk, space_id, incognito, before, after, r, i),
    ensures
        r is Some <==> (before.catalog.current matches Some(m) && backends.route(m@) is Some && (
        i.accepted || i.cleared || !before.catalog.reasoning@.contains_key(m@))),
        before.catalog.current matches Some(m) && backends.route(m@) is None ==> within(
            before.catalog.current->0@,
            after.screen.status@,
        ),
        r is None ==> after.chats == before.chats,
{
    if let Some(m) = before.catalog.current {
        stands_between("model backend unavailable: "@, m@, " — pick another with /model"@);
    }
}

/// A digest that is shown takes the time of the row before it, or of the first
/// one where it comes first.
pub proof fn a_digest_has_the_time_before_it(rows: Seq<MessageView>, at: int)
    ensures
        0 < at <= rows.len() ==> time_before(rows, at) == rows[at - 1].created_at,
        at == 0 && rows.len() > 0 ==> time_before(rows, at) == rows[0].created_at,
        rows.len() == 0 && at >= 0 ==> time_before(rows, at) is None,
{
}

} // verus!
