//! The messages that a request to a model carries.

use crate::compaction::{excluded, excluded_from_model_history};
use crate::pipeline::concat;
use crate::provider::{text_message, ChatMessage, ChatMessageView, ToolCall, ToolCallView};
use crate::state::{Conversation, SkillsPopup};
use crate::store::{plain_row, Message, MessageView, Skill};
use crate::text::{
    find, find_char, find_char_found, find_found, found, found_char, opt_text, rest_of, same, texts,
    texts_push, views,
};
use crate::tools::{parse_tool_call_row, row_call};
use vstd::prelude::*;
use vstd::string::*;

verus! {

#[via_fn]
proof fn image_files_decreases(s: Seq<char>) {
    find_found(s, "!["@);
    if let Some(i) = find(s, "!["@) {
        find_char_found(s.skip(i), ')');
    }
}

/// The files that a text links as images, `![..](..)`, in their order.
pub open spec fn image_files(s: Seq<char>) -> Seq<Seq<char>>
    decreases s.len(),
    via image_files_decreases
{
    match find(s, "!["@) {
        None => Seq::empty(),
        Some(i) => match find_char(s.skip(i), ')') {
            None => Seq::empty(),
            Some(e) => linked(s.subrange(i + 2, i + e)) + image_files(s.skip(i + e + 1)),
        },
    }
}

/// The file of a link, given what stands between its first mark and its end.
pub open spec fn linked(inner: Seq<char>) -> Seq<Seq<char>> {
    match find(inner, "]("@) {
        Some(k) => seq![inner.skip(k + 2)],
        None => Seq::empty(),
    }
}

/// The files that a text links as images.
pub fn image_links(s: &str) -> (r: Vec<String>)
    ensures
        texts(r@) == image_files(s@),
{
    proof {
        reveal_strlit("![");
        reveal_strlit("](");
    }
    let mut out: Vec<String> = Vec::new();
    let mut rest: &str = s;
    let ghost len = s@.len();
    assert(texts(out@) + image_files(s@) =~= image_files(s@));
    loop
        invariant
            texts(out@) + image_files(rest@) == image_files(s@),
            "!["@.len() == 2,
            "!["@[0] == '!',
            "!["@[1] == '[',
            "]("@.len() == 2,
        decreases rest@.len(),
    {
        let i: usize = match found(rest, "![") {
            Some(i) => i,
            None => {
                assert(texts(out@) + Seq::<Seq<char>>::empty() =~= texts(out@));
                return out;
            },
        };
        let tail = rest_of(rest, i);
        let e: usize = match found_char(tail, ')') {
            Some(e) => e,
            None => {
                assert(texts(out@) + Seq::<Seq<char>>::empty() =~= texts(out@));
                return out;
            },
        };
        proof {
            find_found(rest@, "!["@);
            find_char_found(tail@, ')');
            let mark = rest@.subrange(i as int, i + 2);
            assert(mark[0] == '!' && mark[1] == '[');
            assert(tail@[0] == rest@[i as int] && tail@[1] == rest@[i + 1]);
            assert(mark[0] == rest@[i as int] && mark[1] == rest@[i + 1]);
            assert(e >= 2);
        }
        let inner = tail.substring_char(2, e);
        assert(inner@ =~= rest@.subrange(i + 2, i + e));
        let ghost before = texts(out@);
        if let Some(k) = found(inner, "](") {
            let file = rest_of(inner, k + 2).to_owned();
            proof {
                texts_push(out@, file);
            }
            out.push(file);
            assert(before.push(file@) =~= before + seq![file@]);
        } else {
            assert(before + Seq::<Seq<char>>::empty() =~= before);
        }
        assert(texts(out@) == before + linked(inner@));
        let next = rest_of(tail, e + 1);
        assert(next@ =~= rest@.skip(i + e + 1));
        assert(before + linked(inner@) + image_files(next@) =~= before + (linked(inner@)
            + image_files(next@)));
        rest = next;
    }
}

/// An image file of the space that can be read, and the URL that holds it.
pub struct LinkedImage {
    pub file: String,
    pub url: String,
}

/// The URL of a file, where it can be read.
pub open spec fn url_of_file(known: Seq<LinkedImage>, file: Seq<char>, i: int) -> Option<Seq<char>>
    decreases known.len() - i,
{
    if i < 0 || i >= known.len() {
        None
    } else if known[i].file@ == file {
        Some(known[i].url@)
    } else {
        url_of_file(known, file, i + 1)
    }
}

fn known_url(known: &Vec<LinkedImage>, file: &str) -> (r: Option<String>)
    ensures
        opt_text(r) == url_of_file(known@, file@, 0),
{
    let mut i: usize = 0;
    while i < known.len()
        invariant
            i <= known@.len(),
            url_of_file(known@, file@, 0) == url_of_file(known@, file@, i as int),
        decreases known@.len() - i,
    {
        if same(known[i].file.as_str(), file) {
            return Some(known[i].url.clone());
        }
        i += 1;
    }
    None
}

/// The URLs of the files that can be read.
pub open spec fn urls_of(files: Seq<Seq<char>>, known: Seq<LinkedImage>) -> Seq<Seq<char>>
    decreases files.len(),
{
    if files.len() == 0 {
        Seq::empty()
    } else {
        let before = urls_of(files.drop_last(), known);
        match url_of_file(known, files.last(), 0) {
            Some(u) => before.push(u),
            None => before,
        }
    }
}

fn image_urls_in(content: &str, known: &Vec<LinkedImage>) -> (r: Vec<String>)
    ensures
        texts(r@) == urls_of(image_files(content@), known@),
{
    let files = image_links(content);
    let ghost all = image_files(content@);
    let mut out: Vec<String> = Vec::new();
    let mut i: usize = 0;
    assert(all.take(0) =~= Seq::empty());
    assert(texts(out@) =~= Seq::empty());
    while i < files.len()
        invariant
            i <= files@.len(),
            all == texts(files@),
            texts(out@) == urls_of(all.take(i as int), known@),
        decreases files@.len() - i,
    {
        proof {
            let t = all.take(i + 1);
            assert(t.drop_last() =~= all.take(i as int));
            assert(t.last() == files@[i as int]@);
        }
        if let Some(u) = known_url(known, files[i].as_str()) {
            proof {
                texts_push(out@, u);
            }
            out.push(u);
        }
        i += 1;
    }
    assert(all.take(i as int) =~= all);
    out
}

/// The messages of a row: none where it must never reach a model, the call and
/// its result for a tool call, else one, with the images that it links where
/// the model sees images.
pub open spec fn row_messages(m: MessageView, vision: bool, known: Seq<LinkedImage>) -> Seq<
    ChatMessageView,
> {
    if excluded(m) {
        Seq::empty()
    } else if m.role == "tool_call"@ {
        match row_call(m.content) {
            None => Seq::empty(),
            Some((call, result)) => seq![
                ChatMessageView {
                    tool_calls: Some(seq![call]),
                    ..text_message("assistant"@, Seq::empty())
                },
                ChatMessageView {
                    tool_call_id: Some(call.id),
                    ..text_message("tool"@, result)
                },
            ],
        }
    } else {
        seq![
            ChatMessageView {
                images: if m.role == "user"@ && vision {
                    urls_of(image_files(m.content), known)
                } else {
                    Seq::empty()
                },
                ..text_message(m.role, m.content)
            },
        ]
    }
}

/// The messages of rows.
pub open spec fn rows_messages(
    rows: Seq<MessageView>,
    vision: bool,
    known: Seq<LinkedImage>,
) -> Seq<ChatMessageView>
    decreases rows.len(),
{
    if rows.len() == 0 {
        Seq::empty()
    } else {
        rows_messages(rows.drop_last(), vision, known) + row_messages(rows.last(), vision, known)
    }
}

fn messages_of_row(m: &Message, vision: bool, known: &Vec<LinkedImage>) -> (r: Vec<ChatMessage>)
    ensures
        views(r@) == row_messages(m@, vision, known@),
{
    let mut out: Vec<ChatMessage> = Vec::new();
    if excluded_from_model_history(m) {
        assert(views(out@) =~= row_messages(m@, vision, known@));
        return out;
    }
    if same(m.role.as_str(), "tool_call") {
        if let Some((call, result)) = parse_tool_call_row(m.content.as_str()) {
            let id = call.id.clone();
            let mut calls: Vec<ToolCall> = Vec::new();
            calls.push(call);
            let mut asked = ChatMessage::text("assistant", String::new());
            asked.tool_calls = Some(calls);
            let mut answered = ChatMessage::text("tool", result);
            answered.tool_call_id = Some(id);
            assert(views(calls@) =~= seq![call@]);
            out.push(asked);
            out.push(answered);
        }
        assert(views(out@) =~= row_messages(m@, vision, known@));
        return out;
    }
    let mut cm = ChatMessage::text(m.role.as_str(), m.content.clone());
    if same(m.role.as_str(), "user") && vision {
        let urls = image_urls_in(m.content.as_str(), known);
        assert(views(urls@) =~= texts(urls@));
        cm.images = urls;
    }
    out.push(cm);
    assert(views(out@) =~= row_messages(m@, vision, known@));
    out
}

/// The messages of rows that follow one another follow one another.
proof fn rows_messages_of_sum(
    a: Seq<MessageView>,
    b: Seq<MessageView>,
    vision: bool,
    known: Seq<LinkedImage>,
)
    ensures
        rows_messages(a + b, vision, known) == rows_messages(a, vision, known) + rows_messages(
            b,
            vision,
            known,
        ),
    decreases b.len(),
{
    if b.len() == 0 {
        assert(a + b =~= a);
        assert(rows_messages(a, vision, known) + Seq::<ChatMessageView>::empty() =~= rows_messages(
            a,
            vision,
            known,
        ));
    } else {
        rows_messages_of_sum(a, b.drop_last(), vision, known);
        assert((a + b).drop_last() =~= a + b.drop_last());
        assert((a + b).last() == b.last());
        assert(rows_messages(a + b, vision, known) =~= rows_messages(a, vision, known)
            + rows_messages(b, vision, known));
    }
}

/// A row that must never reach a model, wherever it stands, changes nothing in
/// what a request carries.
pub proof fn excluded_rows_never_reach_a_model(
    before: Seq<MessageView>,
    row: MessageView,
    after: Seq<MessageView>,
    vision: bool,
    known: Seq<LinkedImage>,
)
    requires
        excluded(row),
    ensures
        rows_messages(before + seq![row] + after, vision, known) == rows_messages(
            before + after,
            vision,
            known,
        ),
{
    rows_messages_of_sum(before + seq![row], after, vision, known);
    rows_messages_of_sum(before, seq![row], vision, known);
    rows_messages_of_sum(before, after, vision, known);
    assert(seq![row].drop_last() =~= Seq::empty());
    assert(rows_messages(seq![row].drop_last(), vision, known) =~= Seq::empty());
    assert(rows_messages(seq![row], vision, known) =~= Seq::empty());
    assert(rows_messages(before, vision, known) + Seq::<ChatMessageView>::empty() =~= rows_messages(
        before,
        vision,
        known,
    ));
}

/// The first skill of a name.
pub open spec fn skill_at(list: Seq<Skill>, name: Seq<char>, i: int) -> Option<int>
    decreases list.len() - i,
{
    if i < 0 || i >= list.len() {
        None
    } else if list[i].name@ == name {
        Some(i)
    } else {
        skill_at(list, name, i + 1)
    }
}

/// Where the skill stands that goes with the next message.
pub open spec fn armed_skill(skills: SkillsPopup) -> Option<int> {
    match skills.forced {
        Some(name) => skill_at(skills.list@, name@, 0),
        None => None,
    }
}

impl SkillsPopup {
    /// The skill that goes with the next message, where it is installed.
    pub fn forced_skill(&self) -> (r: Option<usize>)
        ensures
            match r {
                Some(i) => armed_skill(*self) == Some(i as int) && i < self.list@.len(),
                None => armed_skill(*self) is None,
            },
    {
        match &self.forced {
            None => None,
            Some(name) => {
                let mut i: usize = 0;
                while i < self.list.len()
                    invariant
                        i <= self.list@.len(),
                        self.forced == Some(*name),
                        armed_skill(*self) == skill_at(self.list@, name@, i as int),
                    decreases self.list@.len() - i,
                {
                    if same(self.list[i].name.as_str(), name.as_str()) {
                        return Some(i);
                    }
                    i += 1;
                }
                None
            },
        }
    }
}

/// What stands before the rows: the system prompt, the images of the space
/// where the model sees images, the digest, and the skill with its text.
pub open spec fn opening(
    prompt: Seq<char>,
    images: Option<ChatMessageView>,
    vision: bool,
    summary: Option<Seq<char>>,
    skill: Option<(Seq<char>, Seq<char>)>,
) -> Seq<ChatMessageView> {
    seq![text_message("system"@, prompt)] + (match images {
        Some(m) if vision => seq![m],
        _ => Seq::empty(),
    }) + (match summary {
        Some(s) => seq![
            text_message(
                "system"@,
                "Summary of earlier conversation (auto-compacted for length):\n"@ + s,
            ),
        ],
        None => Seq::empty(),
    }) + (match skill {
        Some((name, body)) => seq![
            text_message(
                "system"@,
                "The user invoked the skill '"@ + name + "'. Follow these instructions:\n"@ + body,
            ),
        ],
        None => Seq::empty(),
    })
}

/// The messages that the next request carries.
pub open spec fn history(
    talk: Conversation,
    skills: SkillsPopup,
    prompt: Seq<char>,
    images: Option<ChatMessageView>,
    vision: bool,
    body: Seq<char>,
    known: Seq<LinkedImage>,
) -> Seq<ChatMessageView> {
    opening(
        prompt,
        images,
        vision,
        talk.summary(),
        match armed_skill(skills) {
            Some(i) => Some((skills.forced->0@, body)),
            None => None,
        },
    ) + rows_messages(talk.effective(), vision, known)
}

fn open_history(
    prompt: String,
    images: Option<ChatMessage>,
    vision: bool,
    summary: Option<&str>,
    skill: Option<(&str, &str)>,
) -> (r: Vec<ChatMessage>)
    ensures
        views(r@) == opening(
            prompt@,
            match images {
                Some(m) => Some(m@),
                None => None,
            },
            vision,
            match summary {
                Some(s) => Some(s@),
                None => None,
            },
            match skill {
                Some((n, b)) => Some((n@, b@)),
                None => None,
            },
        ),
{
    let mut out: Vec<ChatMessage> = Vec::new();
    out.push(ChatMessage::text("system", prompt));
    if let Some(m) = images {
        if vision {
            out.push(m);
        }
    }
    if let Some(s) = summary {
        out.push(
            ChatMessage::text(
                "system",
                concat("Summary of earlier conversation (auto-compacted for length):\n", s),
            ),
        );
    }
    if let Some((name, body)) = skill {
        let mut s = "The user invoked the skill '".to_owned();
        s.append(name);
        s.append("'. Follow these instructions:\n");
        s.append(body);
        out.push(ChatMessage::text("system", s));
    }
    assert(views(out@) =~= opening(
        prompt@,
        match images {
            Some(m) => Some(m@),
            None => None,
        },
        vision,
        match summary {
            Some(s) => Some(s@),
            None => None,
        },
        match skill {
            Some((n, b)) => Some((n@, b@)),
            None => None,
        },
    ));
    out
}

/// The messages that the next request carries: the system prompt, the images
/// of the space, the digest of what was compacted, the skill that was armed,
/// which is armed no more, and the rows since. `images` is the message of the
/// images of the space, `body` the text of the skill, and `known` holds the
/// files that rows link and that can be read.
pub fn build_history(
    talk: &Conversation,
    skills: &mut SkillsPopup,
    prompt: String,
    images: Option<ChatMessage>,
    vision: bool,
    body: &str,
    known: &Vec<LinkedImage>,
) -> (r: Vec<ChatMessage>)
    ensures
        views(r@) == history(
            *talk,
            *old(skills),
            prompt@,
            match images {
                Some(m) => Some(m@),
                None => None,
            },
            vision,
            body@,
            known@,
        ),
        *final(skills) == (SkillsPopup { forced: None, ..*old(skills) }),
{
    let armed = skills.forced_skill();
    let name = match &skills.forced {
        Some(n) => n.clone(),
        None => String::new(),
    };
    let skill: Option<(&str, &str)> = match armed {
        Some(_) => Some((name.as_str(), body)),
        None => None,
    };
    let mut out = open_history(prompt, images, vision, talk.summary_text(), skill);
    skills.forced = None;
    let ghost head = views(out@);
    let ghost rows = talk.effective();
    let start = talk.effective_start();
    let mut i: usize = start;
    assert(rows.take(0) =~= Seq::empty());
    assert(head + Seq::<ChatMessageView>::empty() =~= head);
    while i < talk.messages.len()
        invariant
            start <= i <= talk.messages@.len(),
            rows == views(talk.messages@).skip(start as int),
            views(out@) == head + rows_messages(rows.take(i - start), vision, known@),
        decreases talk.messages@.len() - i,
    {
        proof {
            let t = rows.take(i - start + 1);
            assert(t.drop_last() =~= rows.take(i - start));
            assert(t.last() == talk.messages@[i as int]@);
        }
        let mut more = messages_of_row(&talk.messages[i], vision, known);
        let ghost a = out@;
        let ghost b = more@;
        out.append(&mut more);
        assert(views(out@) =~= views(a) + views(b));
        assert(head + rows_messages(rows.take(i - start), vision, known@) + views(b) =~= head + (
        rows_messages(rows.take(i - start), vision, known@) + views(b)));
        i += 1;
    }
    assert(rows.take(i - start) =~= rows);
    out
}

/// A request begins with the system prompt.
pub proof fn history_begins_with_the_prompt(
    talk: Conversation,
    skills: SkillsPopup,
    prompt: Seq<char>,
    images: Option<ChatMessageView>,
    vision: bool,
    body: Seq<char>,
    known: Seq<LinkedImage>,
)
    ensures
        history(talk, skills, prompt, images, vision, body, known).len() > 0,
        history(talk, skills, prompt, images, vision, body, known)[0] == text_message(
            "system"@,
            prompt,
        ),
{
}

/// A skill that was armed goes with one request: after it, none is armed.
pub proof fn armed_skill_is_used_once(before: SkillsPopup, after: SkillsPopup)
    requires
        after == (SkillsPopup { forced: None, ..before }),
    ensures
        armed_skill(after) is None,
{
}

/// A tool call that was kept is replayed as the call and its result, under one
/// id.
pub proof fn kept_call_is_replayed(
    row: Seq<char>,
    call: ToolCallView,
    result: Seq<char>,
    vision: bool,
    known: Seq<LinkedImage>,
)
    requires
        row_call(row) == Some((call, result)),
    ensures
        ({
            let messages = row_messages(plain_row("tool_call"@, row), vision, known);
            &&& messages.len() == 2
            &&& messages[0].role == "assistant"@ && messages[0].tool_calls == Some(seq![call])
            &&& messages[1] == (ChatMessageView {
                tool_call_id: Some(call.id),
                ..text_message("tool"@, result)
            })
        }),
{
    reveal_strlit("tool_call");
    reveal_strlit("compaction");
    reveal_strlit("research_stage");
    reveal_strlit("research_plan");
    reveal_strlit("survey");
    reveal_strlit("gate_reply");
    reveal_strlit("session_link");
    reveal_strlit("error");
    assert("tool_call"@.len() == 9 && "compaction"@.len() == 10 && "research_stage"@.len() == 14
        && "research_plan"@.len() == 13 && "survey"@.len() == 6 && "gate_reply"@.len() == 10
        && "session_link"@.len() == 12 && "error"@.len() == 5);
    assert(!excluded(plain_row("tool_call"@, row)));
}

} // verus!
