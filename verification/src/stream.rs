//! The responses that stream in: what each event changes, and what is kept of
//! a response that ended.

use crate::app::App;
use crate::chat::{inline_split, past_phrase, split_inline_reasoning, thinking_then};
use crate::effects::{and_effect, no_effects, one_effect, Effect, EffectView};
use crate::pipeline::concat;
use crate::provider::{StreamEvent, Usage};
use crate::state::{rows_are, says, ChatTasks, Conversation, Notices, Screen};
use crate::store::{
    plain_row, ChatNotification, ChatNotificationView, ChatTask, ChatTaskView, FloatBits, Message,
    MessageView,
};
use crate::text::{count, has_prefix, opt_text, same, views, views_push};
use crate::tools::{call_object, tool_call_row};
use vstd::prelude::*;
use vstd::string::*;

verus! {

/// The first response with an id at or after a position.
pub open spec fn task_at(tasks: Seq<ChatTask>, id: u64, i: int) -> Option<int>
    decreases tasks.len() - i,
{
    if i < 0 || i >= tasks.len() {
        None
    } else if tasks[i].id == id {
        Some(i)
    } else {
        task_at(tasks, id, i + 1)
    }
}

pub proof fn task_at_found(tasks: Seq<ChatTask>, id: u64, i: int)
    requires
        0 <= i,
    ensures
        match task_at(tasks, id, i) {
            Some(k) => i <= k < tasks.len() && tasks[k].id == id,
            None => forall|k: int| i <= k < tasks.len() ==> (#[trigger] tasks[k]).id != id,
        },
    decreases tasks.len() - i,
{
    if i < tasks.len() && tasks[i].id != id {
        task_at_found(tasks, id, i + 1);
    }
}

impl ChatTasks {
    /// Where the response with an id stands.
    pub open spec fn at(&self, id: u64) -> Option<int> {
        task_at(self.tasks@, id, 0)
    }

    fn position(&self, id: u64) -> (r: Option<usize>)
        ensures
            match r {
                Some(i) => self.at(id) == Some(i as int) && i < self.tasks@.len()
                    && self.tasks@[i as int].id == id,
                None => self.at(id) is None,
            },
    {
        let mut i: usize = 0;
        while i < self.tasks.len()
            invariant
                i <= self.tasks@.len(),
                self.at(id) == task_at(self.tasks@, id, i as int),
            decreases self.tasks@.len() - i,
        {
            if self.tasks[i].id == id {
                return Some(i);
            }
            i += 1;
        }
        None
    }

    /// Takes a response out of the list.
    fn take_out(&mut self, i: usize) -> (r: ChatTask)
        requires
            i < old(self).tasks@.len(),
        ensures
            *final(self) == (ChatTasks { tasks: final(self).tasks, ..*old(self) }),
            final(self).tasks@ == old(self).tasks@.remove(i as int),
            r == old(self).tasks@[i as int],
            old(self).wf() ==> final(self).wf(),
    {
        self.tasks.remove(i)
    }

    /// Takes the response with an id out of the list.
    pub fn take_task(&mut self, id: u64) -> (r: Option<ChatTask>)
        ensures
            *final(self) == (ChatTasks { tasks: final(self).tasks, ..*old(self) }),
            match old(self).at(id) {
                Some(i) => {
                    &&& 0 <= i < old(self).tasks@.len()
                    &&& r == Some(old(self).tasks@[i])
                    &&& final(self).tasks@ == old(self).tasks@.remove(i)
                },
                None => r is None && final(self).tasks@ == old(self).tasks@,
            },
            old(self).wf() ==> final(self).wf(),
    {
        match self.position(id) {
            Some(i) => Some(self.take_out(i)),
            None => None,
        }
    }

    /// Adds a response under the next id, in place of one that has it.
    pub fn insert_task(&mut self, task: ChatTask)
        requires
            old(self).wf(),
            task.thinking_idx < 16,
        ensures
            final(self).wf(),
            *final(self) == (ChatTasks { tasks: final(self).tasks, ..*old(self) }),
            final(self).tasks@ == (match old(self).at(task.id) {
                Some(i) => old(self).tasks@.remove(i),
                None => old(self).tasks@,
            }).push(task),
    {
        proof {
            task_at_found(self.tasks@, task.id, 0);
        }
        let gone = self.take_task(task.id);
        assert forall|k: int| 0 <= k < self.tasks@.len() implies (#[trigger] self.tasks@[k]).id
            != task.id by {
            match old(self).at(task.id) {
                Some(i) => {
                    assert(self.tasks@[k] == old(self).tasks@[if k < i { k } else { k + 1 }]);
                },
                None => {},
            }
        }
        self.tasks.push(task);
    }

    /// Drops the response for a session, whose request is to be aborted.
    pub fn discard_chat_task(&mut self, session_id: &str) -> (r: Vec<Effect>)
        ensures
            *final(self) == (ChatTasks { tasks: final(self).tasks, ..*old(self) }),
            match old(self).of(session_id@) {
                Some(i) => {
                    &&& 0 <= i < old(self).tasks@.len()
                    &&& final(self).tasks@ == old(self).tasks@.remove(i)
                    &&& views(r@) == seq![
                        EffectView::AbortChatTask { task_id: old(self).tasks@[i].id },
                    ]
                },
                None => final(self).tasks@ == old(self).tasks@ && views(r@) == Seq::<
                    EffectView,
                >::empty(),
            },
            old(self).wf() ==> final(self).wf(),
    {
        match self.chat_task_for_session(session_id) {
            Some(i) => {
                let task = self.take_out(i);
                one_effect(Effect::AbortChatTask { task_id: task.id })
            },
            None => no_effects(),
        }
    }
}

/// A response after an event that grows it.
pub open spec fn grown_task(t: ChatTask, ev: StreamEvent) -> ChatTaskView {
    match ev {
        StreamEvent::Token(s) => ChatTaskView { buffer: t.buffer@ + s@, ..t@ },
        StreamEvent::Reasoning(s) => ChatTaskView { thinking: t.thinking@ + s@, ..t@ },
        StreamEvent::Usage(u) => ChatTaskView { usage: Some(u), ..t@ },
        StreamEvent::Status(s) => ChatTaskView { tool_status: Some(s@), ..t@ },
        _ => t@,
    }
}

/// Whether the reply of a tool says that a skill was installed or changed.
pub open spec fn changes_skills(name: Seq<char>, result: Seq<char>) -> bool {
    let installed = "installed"@.is_prefix_of(result);
    let written = "created"@.is_prefix_of(result) || "updated"@.is_prefix_of(result);
    &&& name == "skill_admin"@ || (name == "install_skill"@ && installed) || (name
        == "create_skill"@ && written)
    &&& installed || written
}

fn skills_change(name: &str, result: &str) -> (r: bool)
    ensures
        r == changes_skills(name@, result@),
{
    let installed = has_prefix(result, "installed");
    let written = has_prefix(result, "created") || has_prefix(result, "updated");
    (same(name, "skill_admin") || (same(name, "install_skill") && installed) || (same(
        name,
        "create_skill",
    ) && written)) && (installed || written)
}

/// Whether a tool leaves files behind that are to be indexed.
pub open spec fn makes_files(name: Seq<char>) -> bool {
    ||| name == "generate_image"@
    ||| name == "generate_video"@
    ||| name == "video_transform"@
    ||| name == "edit_video"@
    ||| name == "extract_frame"@
    ||| name == "stitch_videos"@
}

fn files_made(name: &str) -> (r: bool)
    ensures
        r == makes_files(name@),
{
    same(name, "generate_image") || same(name, "generate_video") || same(name, "video_transform")
        || same(name, "edit_video") || same(name, "extract_frame") || same(name, "stitch_videos")
}

/// What a tool call of a response asks for: the skills anew where it changed
/// them, the call stored unless the response is incognito, and the index of
/// files brought up to date where the tool left files in the active space.
pub open spec fn call_effects(
    task: Option<ChatTask>,
    active_space: Seq<char>,
    name: Seq<char>,
    result: Seq<char>,
    row: Seq<char>,
) -> Seq<EffectView> {
    let first: Seq<EffectView> = if changes_skills(name, result) {
        seq![EffectView::ReloadSkills]
    } else {
        Seq::empty()
    };
    match task {
        None => first,
        Some(t) => {
            let second = if t.incognito {
                first
            } else {
                first.push(
                    EffectView::AddMessage {
                        session_id: t.session_id@,
                        role: "tool_call"@,
                        content: row,
                    },
                )
            };
            if t.space_id@ == active_space && makes_files(name) {
                second.push(EffectView::RescanFiles)
            } else {
                second
            }
        },
    }
}

fn take_call(
    chats: &ChatTasks,
    talk: &mut Conversation,
    active_space: &str,
    id: u64,
    name: &str,
    arguments: &str,
    result: &str,
) -> (r: Vec<Effect>)
    ensures
        ({
            let row = crate::json::json_text(call_object(name@, arguments@, result@));
            let task = match chats.at(id) {
                Some(i) => Some(chats.tasks@[i]),
                None => None,
            };
            &&& views(r@) == call_effects(task, active_space@, name@, result@, row)
            &&& match task {
                Some(t) if old(talk).is_of(t.session_id@) => rows_are(
                    *old(talk),
                    *final(talk),
                    views(old(talk).messages@).push(plain_row("tool_call"@, row)),
                ),
                _ => *final(talk) == *old(talk),
            }
        }),
{
    let mut r = if skills_change(name, result) {
        one_effect(Effect::ReloadSkills)
    } else {
        no_effects()
    };
    let i: usize = match chats.position(id) {
        Some(i) => i,
        None => {
            return r;
        },
    };
    let task = &chats.tasks[i];
    let row = tool_call_row(name, arguments, result);
    if !task.incognito {
        r = and_effect(
            r,
            Effect::AddMessage {
                session_id: task.session_id.clone(),
                role: "tool_call".to_owned(),
                content: row.clone(),
            },
        );
    }
    if talk.views_session(task.session_id.as_str()) {
        talk.add_row(Message::plain("tool_call", row));
    }
    if same(task.space_id.as_str(), active_space) && files_made(name) {
        r = and_effect(r, Effect::RescanFiles);
    }
    r
}

/// The answer of a response, and the reasoning that came with it: beside it,
/// and in blocks of the text itself.
pub open spec fn answer(t: ChatTask) -> (Seq<char>, Seq<char>) {
    let (text, inline) = inline_split(t.buffer@);
    (
        text,
        match inline {
            Some(s) => if t.thinking@.len() > 0 {
                t.thinking@ + "\n"@ + s
            } else {
                s
            },
            None => t.thinking@,
        },
    )
}

fn answer_of(t: &ChatTask) -> (r: (String, String))
    ensures
        (r.0@, r.1@) == answer(*t),
{
    let (text, inline) = split_inline_reasoning(t.buffer.as_str());
    match inline {
        Some(s) => {
            if t.thinking.as_str().is_empty() {
                (text, s)
            } else {
                let mut all = t.thinking.clone();
                all.append("\n");
                all.append(s.as_str());
                (text, all)
            }
        },
        None => (text, t.thinking.clone()),
    }
}

/// A count of tokens as it is stored.
pub open spec fn stored_count(n: u64) -> i64 {
    if n <= i64::MAX { n as i64 } else { (n - u64::MAX - 1) as i64 }
}

fn stored_count_of(n: u64) -> (r: i64)
    ensures
        r == stored_count(n),
{
    if n <= i64::MAX as u64 {
        n as i64
    } else {
        -((u64::MAX - n) as i64) - 1
    }
}

/// The tokens of an answer: as reported, or else one for four characters.
pub open spec fn answer_tokens(usage: Option<Usage>, text: Seq<char>) -> i64 {
    match usage {
        Some(u) => stored_count(u.completion_tokens),
        None => stored_count(((text.len() + 3) / 4) as u64),
    }
}

fn answer_tokens_of(usage: &Option<Usage>, text: &str) -> (r: i64)
    ensures
        r == answer_tokens(*usage, text@),
{
    match usage {
        Some(u) => stored_count_of(u.completion_tokens),
        None => {
            let n: usize = count(text);
            let quarter: usize = if n % 4 == 0 { n / 4 } else { n / 4 + 1 };
            stored_count_of(quarter as u64)
        },
    }
}

/// The row that is kept of a response that ended: its answer, the model, the
/// reasoning, how long it took, and in what mood.
pub open spec fn answer_row(t: ChatTask, secs: FloatBits, now: Seq<char>) -> MessageView {
    let (text, reasoning) = answer(t);
    MessageView {
        role: "assistant"@,
        content: text,
        model: Some(t.model@),
        reasoning: if reasoning.len() > 0 { Some(reasoning) } else { None },
        tokens: Some(answer_tokens(t.usage, text)),
        secs: Some(secs),
        cost: None,
        phrase: Some(past_phrase(t.thinking_idx as int)),
        persona: None,
        created_at: Some(now),
    }
}

/// The row that is kept of a response that ended. `secs` is how long it took
/// and `now` the time.
pub fn finished_row(t: &ChatTask, secs: FloatBits, now: &str) -> (r: Message)
    ensures
        r@ == answer_row(*t, secs, now@),
{
    let (text, reasoning) = answer_of(t);
    let tokens = answer_tokens_of(&t.usage, text.as_str());
    Message {
        role: "assistant".to_owned(),
        content: text,
        model: Some(t.model.clone()),
        reasoning: if reasoning.as_str().is_empty() {
            None
        } else {
            Some(reasoning)
        },
        tokens: Some(tokens),
        secs: Some(secs),
        cost: None,
        phrase: Some(thinking_then(t.thinking_idx).to_owned()),
        persona: None,
        created_at: Some(now.to_owned()),
    }
}

/// Whether the answer of a response that ended is stored: not in incognito
/// mode, and not where there is none.
pub open spec fn stores_answer(t: ChatTask) -> bool {
    !t.incognito && answer(t).0.len() > 0
}

/// Whether the error that a response ended with is stored: not in incognito
/// mode, and not where the answer had to be stored before and was not.
pub open spec fn stores_error(t: ChatTask, error: Option<Seq<char>>, answer_stored: bool) -> bool {
    error is Some && !t.incognito && (answer(t).0.len() > 0 ==> answer_stored)
}

/// The row that is to be stored of a response that ended. `secs` is how long
/// it took and `now` the time.
pub fn answer_to_store(t: &ChatTask, secs: FloatBits, now: &str) -> (r: Option<Message>)
    ensures
        match r {
            Some(m) => stores_answer(*t) && m@ == answer_row(*t, secs, now@),
            None => !stores_answer(*t),
        },
{
    if t.incognito {
        return None;
    }
    let row = finished_row(t, secs, now);
    if row.content.as_str().is_empty() {
        None
    } else {
        Some(row)
    }
}

/// Whether the error that a response ended with is to be stored, once its
/// answer was; `answer_stored` says how that came out.
pub fn error_is_stored(t: &ChatTask, error: &Option<String>, answer_stored: bool) -> (r: bool)
    ensures
        r == stores_error(*t, opt_text(*error), answer_stored),
{
    if error.is_none() || t.incognito {
        return false;
    }
    let (text, _reasoning) = answer_of(t);
    text.as_str().is_empty() || answer_stored
}

/// The tokens of the whole conversation, as reported with a response.
pub open spec fn total_tokens(u: Usage) -> nat {
    if u.total_tokens > 0 {
        u.total_tokens as nat
    } else {
        u.prompt_tokens as nat + u.completion_tokens as nat
    }
}

/// Whether the reported total can be counted.
pub open spec fn usage_fits(t: ChatTask) -> bool {
    t.usage matches Some(u) ==> total_tokens(u) <= u64::MAX
}

/// What a response that ended does to the rows and the token count of the
/// conversation that is viewed, before any failure is told. `kept` says
/// whether the answer goes on, which it does not where it had to be stored and
/// was not.
pub open spec fn answered(
    before: Conversation,
    after: Conversation,
    t: ChatTask,
    kept: bool,
    secs: FloatBits,
    now: Seq<char>,
) -> bool {
    &&& after == (Conversation {
        messages: after.messages,
        context_total: after.context_total,
        ..before
    })
    &&& after.context_total == (match t.usage {
        Some(u) if before.is_of(t.session_id@) => Some(total_tokens(u) as u64),
        _ => before.context_total,
    })
    &&& views(after.messages@) == (if kept && before.is_of(t.session_id@) && answer(t).0.len() > 0 {
        views(before.messages@).push(answer_row(t, secs, now))
    } else {
        views(before.messages@)
    })
}

/// The notice that a response in another session ended.
pub open spec fn notice(t: ChatTask, text: Seq<char>, success: bool) -> ChatNotificationView {
    ChatNotificationView { session_id: t.session_id@, title: t.session_title@, text, success }
}

/// Whether the session is marked unread and the notice kept.
pub open spec fn noted(before: Notices, after: Notices, n: ChatNotificationView) -> bool {
    &&& after.unread.wf()
    &&& after.unread@ == before.unread@.insert(n.session_id)
    &&& views(after.list@) == views(before.list@).push(n)
}

/// What a failure of a response changes and asks for.
pub open spec fn failed(
    before: (Conversation, Screen, Notices),
    after: (Conversation, Screen, Notices),
    effects: Seq<EffectView>,
    t: ChatTask,
    error: Seq<char>,
) -> bool {
    let (talk, screen, notices) = before;
    let message = "stream error: "@ + error;
    if talk.is_of(t.session_id@) {
        &&& rows_are(talk, after.0, views(talk.messages@).push(plain_row("error"@, error)))
        &&& says(screen, after.1, message)
        &&& after.2 == notices
        &&& effects == Seq::<EffectView>::empty()
    } else {
        &&& after.0 == talk
        &&& says(screen, after.1, "stream error in "@ + t.session_title@ + ": "@ + error)
        &&& if t.incognito {
            after.2 == notices && effects == Seq::<EffectView>::empty()
        } else {
            &&& noted(notices, after.2, notice(t, message, false))
            &&& effects == seq![
                EffectView::Notify { title: "Chat failed: "@ + t.session_title@, text: message },
            ]
        }
    }
}

/// What the good end of a response changes and asks for.
pub open spec fn succeeded(
    before: (Conversation, Screen, Notices),
    after: (Conversation, Screen, Notices),
    effects: Seq<EffectView>,
    t: ChatTask,
) -> bool {
    let (talk, screen, notices) = before;
    &&& after.0 == talk
    &&& if talk.is_of(t.session_id@) {
        &&& says(screen, after.1, "response complete"@)
        &&& after.2 == notices
        &&& effects == Seq::<EffectView>::empty()
    } else if t.incognito {
        after.1 == screen && after.2 == notices && effects == Seq::<EffectView>::empty()
    } else {
        &&& says(screen, after.1, "✓ response ready in: "@ + t.session_title@)
        &&& noted(notices, after.2, notice(t, "response complete"@, true))
        &&& effects == seq![
            EffectView::Notify {
                title: "Chat ready: "@ + t.session_title@,
                text: "response complete"@,
            },
        ]
    }
}

fn note(notices: &mut Notices, t: &ChatTask, text: &str, success: bool)
    requires
        old(notices).unread.wf(),
    ensures
        noted(*old(notices), *final(notices), notice(*t, text@, success)),
{
    notices.unread.insert(t.session_id.clone());
    let n = ChatNotification {
        session_id: t.session_id.clone(),
        title: t.session_title.clone(),
        text: text.to_owned(),
        success,
    };
    proof {
        views_push(notices.list@, n);
    }
    notices.list.push(n);
}

fn fail_task(
    talk: &mut Conversation,
    screen: &mut Screen,
    notices: &mut Notices,
    t: &ChatTask,
    error: &str,
) -> (r: Vec<Effect>)
    requires
        old(notices).unread.wf(),
    ensures
        failed(
            (*old(talk), *old(screen), *old(notices)),
            (*final(talk), *final(screen), *final(notices)),
            views(r@),
            *t,
            error@,
        ),
{
    let message = concat("stream error: ", error);
    if talk.views_session(t.session_id.as_str()) {
        talk.add_row(Message::plain("error", error.to_owned()));
        screen.status = message;
        no_effects()
    } else {
        let mut s = "stream error in ".to_owned();
        s.append(t.session_title.as_str());
        s.append(": ");
        s.append(error);
        screen.status = s;
        if t.incognito {
            no_effects()
        } else {
            note(notices, t, message.as_str(), false);
            one_effect(
                Effect::Notify {
                    title: concat("Chat failed: ", t.session_title.as_str()),
                    text: message,
                },
            )
        }
    }
}

fn succeed_task(
    talk: &Conversation,
    screen: &mut Screen,
    notices: &mut Notices,
    t: &ChatTask,
) -> (r: Vec<Effect>)
    requires
        old(notices).unread.wf(),
    ensures
        succeeded(
            (*talk, *old(screen), *old(notices)),
            (*talk, *final(screen), *final(notices)),
            views(r@),
            *t,
        ),
{
    if talk.views_session(t.session_id.as_str()) {
        screen.status = "response complete".to_owned();
        no_effects()
    } else if t.incognito {
        no_effects()
    } else {
        screen.status = concat("✓ response ready in: ", t.session_title.as_str());
        note(notices, t, "response complete", true);
        one_effect(
            Effect::Notify {
                title: concat("Chat ready: ", t.session_title.as_str()),
                text: "response complete".to_owned(),
            },
        )
    }
}

/// How the writes that go with the end of a response came out: whether the
/// answer (see `answer_to_store`) and the error (see `error_is_stored`) were
/// stored.
#[derive(Clone, Copy, PartialEq, Eq, Structural)]
pub struct TaskWrites {
    pub answer: bool,
    pub error: bool,
}

/// What the end of a response changes and asks for. Where the answer, or the
/// error, is to be stored and could not be, the rest is left undone.
pub open spec fn finished(
    before: (Conversation, Screen, Notices),
    after: (Conversation, Screen, Notices),
    effects: Seq<EffectView>,
    t: ChatTask,
    error: Option<Seq<char>>,
    stopped: bool,
    writes: TaskWrites,
    secs: FloatBits,
    now: Seq<char>,
) -> bool {
    let (talk, screen, notices) = before;
    let has_text = answer(t).0.len() > 0;
    let follow: Seq<EffectView> = if talk.is_of(t.session_id@) && has_text && !t.incognito {
        seq![EffectView::FollowUp { rows: (talk.messages@.len() + 1) as u64 }]
    } else {
        Seq::empty()
    };
    if !has_text && error is None {
        &&& after.0 == talk && after.2 == notices
        &&& says(
            screen,
            after.1,
            if stopped {
                "response stopped"@
            } else {
                "response finished without text"@
            },
        )
        &&& effects == Seq::<EffectView>::empty()
    } else if stores_answer(t) && !writes.answer {
        &&& answered(talk, after.0, t, false, secs, now)
        &&& after.1 == screen && after.2 == notices
        &&& effects == Seq::<EffectView>::empty()
    } else {
        exists|middle: Conversation, more: Seq<EffectView>|
            {
                &&& #[trigger] answered(talk, middle, t, true, secs, now)
                &&& #[trigger] ended(
                    (middle, screen, notices),
                    after,
                    more,
                    t,
                    error,
                    stopped,
                    writes,
                )
                &&& effects == follow + more
            }
    }
}

/// What is left of the end of a response once its answer was taken over.
pub open spec fn ended(
    before: (Conversation, Screen, Notices),
    after: (Conversation, Screen, Notices),
    effects: Seq<EffectView>,
    t: ChatTask,
    error: Option<Seq<char>>,
    stopped: bool,
    writes: TaskWrites,
) -> bool {
    match error {
        Some(e) => if !t.incognito && !writes.error {
            after == before && effects == Seq::<EffectView>::empty()
        } else {
            failed(before, after, effects, t, e)
        },
        None => if stopped {
            &&& after.0 == before.0 && after.2 == before.2
            &&& says(before.1, after.1, "response stopped"@)
            &&& effects == Seq::<EffectView>::empty()
        } else {
            succeeded(before, after, effects, t)
        },
    }
}

fn take_answer(
    talk: &mut Conversation,
    t: &ChatTask,
    kept: bool,
    secs: FloatBits,
    now: &str,
)
    requires
        usage_fits(*t),
    ensures
        answered(*old(talk), *final(talk), *t, kept, secs, now@),
{
    if !talk.views_session(t.session_id.as_str()) {
        return;
    }
    if let Some(u) = t.usage {
        talk.context_total =
        Some(
            if u.total_tokens > 0 {
                u.total_tokens
            } else {
                u.prompt_tokens + u.completion_tokens
            },
        );
    }
    if kept {
        let row = finished_row(t, secs, now);
        if !row.content.as_str().is_empty() {
            talk.add_row(row);
        }
    }
}

fn end_task(
    talk: &mut Conversation,
    screen: &mut Screen,
    notices: &mut Notices,
    t: &ChatTask,
    error: &Option<String>,
    stopped: bool,
    writes: TaskWrites,
) -> (r: Vec<Effect>)
    requires
        old(notices).unread.wf(),
    ensures
        ended(
            (*old(talk), *old(screen), *old(notices)),
            (*final(talk), *final(screen), *final(notices)),
            views(r@),
            *t,
            opt_text(*error),
            stopped,
            writes,
        ),
        final(notices).unread.wf(),
{
    match error {
        Some(e) => {
            if !t.incognito && !writes.error {
                no_effects()
            } else {
                fail_task(talk, screen, notices, t, e.as_str())
            }
        },
        None => {
            if stopped {
                screen.status = "response stopped".to_owned();
                no_effects()
            } else {
                succeed_task(talk, screen, notices, t)
            }
        },
    }
}

/// Takes the end of a response over: its answer and its reasoning are kept,
/// the session that is viewed shows them, and another session is marked
/// unread.
fn finish_chat_task_state(
    talk: &mut Conversation,
    screen: &mut Screen,
    notices: &mut Notices,
    t: &ChatTask,
    error: &Option<String>,
    stopped: bool,
    writes: TaskWrites,
    secs: FloatBits,
    now: &str,
) -> (r: Vec<Effect>)
    requires
        old(notices).unread.wf(),
        usage_fits(*t),
    ensures
        finished(
            (*old(talk), *old(screen), *old(notices)),
            (*final(talk), *final(screen), *final(notices)),
            views(r@),
            *t,
            opt_text(*error),
            stopped,
            writes,
            secs,
            now@,
        ),
        final(notices).unread.wf(),
{
    let (text, _reasoning) = answer_of(t);
    let has_text = !text.as_str().is_empty();
    if !has_text && error.is_none() {
        screen.status = if stopped {
            "response stopped".to_owned()
        } else {
            "response finished without text".to_owned()
        };
        return no_effects();
    }
    if !t.incognito && has_text && !writes.answer {
        take_answer(talk, t, false, secs, now);
        return no_effects();
    }
    take_answer(talk, t, true, secs, now);
    let ghost middle = *talk;
    assert(views(talk.messages@).len() == talk.messages@.len());
    assert(views(old(talk).messages@).len() == old(talk).messages@.len());
    let follow = if talk.views_session(t.session_id.as_str()) && has_text && !t.incognito {
        one_effect(Effect::FollowUp { rows: talk.messages.len() as u64 })
    } else {
        no_effects()
    };
    let more = end_task(talk, screen, notices, t, error, stopped, writes);
    let ghost done = (*talk, *screen, *notices);
    assert(answered(*old(talk), middle, *t, true, secs, now@));
    assert(ended(
        (middle, *old(screen), *old(notices)),
        done,
        views(more@),
        *t,
        opt_text(*error),
        stopped,
        writes,
    ));
    crate::effects::and_effects(follow, more)
}

/// What an event of a response changes of the responses, the conversation,
/// the screen and the notices, and what it asks for.
pub open spec fn event_step(
    active_space: Seq<char>,
    before: (ChatTasks, Conversation, Screen, Notices),
    after: (ChatTasks, Conversation, Screen, Notices),
    effects: Seq<EffectView>,
    id: u64,
    ev: StreamEvent,
    writes: TaskWrites,
    secs: FloatBits,
    now: Seq<char>,
) -> bool {
    let (chats, talk, screen, notices) = before;
    let at = chats.at(id);
    match ev {
        StreamEvent::ToolCall { name, arguments, result } => {
            let row = crate::json::json_text(call_object(name@, arguments@, result@));
            let task = match at {
                Some(i) => Some(chats.tasks@[i]),
                None => None,
            };
            &&& after.0 == chats && after.2 == screen && after.3 == notices
            &&& effects == call_effects(task, active_space, name@, result@, row)
            &&& match task {
                Some(t) if talk.is_of(t.session_id@) => rows_are(
                    talk,
                    after.1,
                    views(talk.messages@).push(plain_row("tool_call"@, row)),
                ),
                _ => after.1 == talk,
            }
        },
        StreamEvent::Done | StreamEvent::Error(_) => match at {
            None => after == before && effects == Seq::<EffectView>::empty(),
            Some(i) => {
                &&& after.0 == (ChatTasks { tasks: after.0.tasks, ..chats })
                &&& after.0.tasks@ == chats.tasks@.remove(i)
                &&& finished(
                    (talk, screen, notices),
                    (after.1, after.2, after.3),
                    effects,
                    chats.tasks@[i],
                    match ev {
                        StreamEvent::Error(e) => Some(e@),
                        _ => None,
                    },
                    false,
                    writes,
                    secs,
                    now,
                )
            },
        },
        _ => {
            &&& after.0 == (ChatTasks { tasks: after.0.tasks, ..chats })
            &&& views(after.0.tasks@) == (match at {
                Some(i) => views(chats.tasks@).update(i, grown_task(chats.tasks@[i], ev)),
                None => views(chats.tasks@),
            })
            &&& (after.1, after.2, after.3) == (talk, screen, notices)
            &&& effects == Seq::<EffectView>::empty()
        },
    }
}

fn grow(chats: &mut ChatTasks, id: u64, ev: StreamEvent)
    requires
        !(ev is ToolCall) && !(ev is Done) && !(ev is Error),
    ensures
        *final(chats) == (ChatTasks { tasks: final(chats).tasks, ..*old(chats) }),
        views(final(chats).tasks@) == (match old(chats).at(id) {
            Some(i) => views(old(chats).tasks@).update(i, grown_task(old(chats).tasks@[i], ev)),
            None => views(old(chats).tasks@),
        }),
        old(chats).wf() ==> final(chats).wf(),
{
    let i: usize = match chats.position(id) {
        Some(i) => i,
        None => {
            return;
        },
    };
    match ev {
        StreamEvent::Token(s) => {
            chats.tasks[i].buffer.append(s.as_str());
        },
        StreamEvent::Reasoning(s) => {
            chats.tasks[i].thinking.append(s.as_str());
        },
        StreamEvent::Usage(u) => {
            chats.tasks[i].usage = Some(u);
        },
        StreamEvent::Status(s) => {
            chats.tasks[i].tool_status = Some(s);
        },
        _ => {},
    }
    assert(chats.tasks@[i as int]@ == grown_task(old(chats).tasks@[i as int], ev));
    assert(views(chats.tasks@) =~= views(old(chats).tasks@).update(
        i as int,
        grown_task(old(chats).tasks@[i as int], ev),
    ));
}

fn take_event(
    active_space: &str,
    chats: &mut ChatTasks,
    talk: &mut Conversation,
    screen: &mut Screen,
    notices: &mut Notices,
    id: u64,
    ev: StreamEvent,
    writes: TaskWrites,
    secs: FloatBits,
    now: &str,
) -> (r: Vec<Effect>)
    requires
        old(notices).unread.wf(),
        old(chats).at(id) matches Some(i) ==> usage_fits(old(chats).tasks@[i]),
    ensures
        event_step(
            active_space@,
            (*old(chats), *old(talk), *old(screen), *old(notices)),
            (*final(chats), *final(talk), *final(screen), *final(notices)),
            views(r@),
            id,
            ev,
            writes,
            secs,
            now@,
        ),
        final(notices).unread.wf(),
        old(chats).wf() ==> final(chats).wf(),
{
    match ev {
        StreamEvent::ToolCall { name, arguments, result } => take_call(
            chats,
            talk,
            active_space,
            id,
            name.as_str(),
            arguments.as_str(),
            result.as_str(),
        ),
        StreamEvent::Done => finish_chat_task(
            chats,
            talk,
            screen,
            notices,
            id,
            &None,
            writes,
            secs,
            now,
        ),
        StreamEvent::Error(e) => finish_chat_task(
            chats,
            talk,
            screen,
            notices,
            id,
            &Some(e),
            writes,
            secs,
            now,
        ),
        _ => {
            grow(chats, id, ev);
            no_effects()
        },
    }
}

fn finish_chat_task(
    chats: &mut ChatTasks,
    talk: &mut Conversation,
    screen: &mut Screen,
    notices: &mut Notices,
    id: u64,
    error: &Option<String>,
    writes: TaskWrites,
    secs: FloatBits,
    now: &str,
) -> (r: Vec<Effect>)
    requires
        old(notices).unread.wf(),
        old(chats).at(id) matches Some(i) ==> usage_fits(old(chats).tasks@[i]),
    ensures
        match old(chats).at(id) {
            None => (*final(chats), *final(talk), *final(screen), *final(notices)) == (
                *old(chats),
                *old(talk),
                *old(screen),
                *old(notices),
            ) && views(r@) == Seq::<EffectView>::empty(),
            Some(i) => {
                &&& *final(chats) == (ChatTasks { tasks: final(chats).tasks, ..*old(chats) })
                &&& final(chats).tasks@ == old(chats).tasks@.remove(i)
                &&& finished(
                    (*old(talk), *old(screen), *old(notices)),
                    (*final(talk), *final(screen), *final(notices)),
                    views(r@),
                    old(chats).tasks@[i],
                    opt_text(*error),
                    false,
                    writes,
                    secs,
                    now@,
                )
            },
        },
        final(notices).unread.wf(),
        old(chats).wf() ==> final(chats).wf(),
{
    let i: usize = match chats.position(id) {
        Some(i) => i,
        None => {
            return no_effects();
        },
    };
    let task = chats.take_out(i);
    finish_chat_task_state(talk, screen, notices, &task, error, false, writes, secs, now)
}

impl App {
    /// Takes an event of a response. What a response ends with is stored
    /// before, and `writes` says how that came out; `secs` is how long the
    /// response took, and `now` is the time.
    pub fn on_chat_event(
        &mut self,
        id: u64,
        ev: StreamEvent,
        writes: TaskWrites,
        secs: FloatBits,
        now: &str,
    ) -> (r: Vec<Effect>)
        requires
            old(self).wf(),
            old(self).chats.at(id) matches Some(i) ==> usage_fits(old(self).chats.tasks@[i]),
        ensures
            final(self).wf(),
            *final(self) == (App {
                chats: final(self).chats,
                talk: final(self).talk,
                screen: final(self).screen,
                notices: final(self).notices,
                ..*old(self)
            }),
            event_step(
                old(self).active_space.id@,
                (old(self).chats, old(self).talk, old(self).screen, old(self).notices),
                (final(self).chats, final(self).talk, final(self).screen, final(self).notices),
                views(r@),
                id,
                ev,
                writes,
                secs,
                now@,
            ),
    {
        take_event(
            self.active_space.id.as_str(),
            &mut self.chats,
            &mut self.talk,
            &mut self.screen,
            &mut self.notices,
            id,
            ev,
            writes,
            secs,
            now,
        )
    }

    /// Stops the response that streams in for the session that is viewed; what
    /// came in so far is kept.
    pub fn stop_stream(&mut self, writes: TaskWrites, secs: FloatBits, now: &str) -> (r: Vec<
        Effect,
    >)
        requires
            old(self).wf(),
            old(self).active_task() matches Some(i) ==> usage_fits(old(self).chats.tasks@[i]),
        ensures
            final(self).wf(),
            *final(self) == (App {
                chats: final(self).chats,
                talk: final(self).talk,
                screen: final(self).screen,
                notices: final(self).notices,
                ..*old(self)
            }),
            match old(self).active_task() {
                None => *final(self) == *old(self) && views(r@) == Seq::<EffectView>::empty(),
                Some(i) => {
                    let t = old(self).chats.tasks@[i];
                    &&& final(self).chats == (ChatTasks {
                        tasks: final(self).chats.tasks,
                        ..old(self).chats
                    })
                    &&& final(self).chats.tasks@ == old(self).chats.tasks@.remove(i)
                    &&& views(r@).len() > 0 && views(r@)[0] == (EffectView::AbortChatTask {
                        task_id: t.id,
                    })
                    &&& finished(
                        (old(self).talk, old(self).screen, old(self).notices),
                        (final(self).talk, final(self).screen, final(self).notices),
                        views(r@).skip(1),
                        t,
                        None,
                        true,
                        writes,
                        secs,
                        now@,
                    )
                },
            },
    {
        let i: usize = match self.active_chat_task() {
            Some(i) => i,
            None => {
                return no_effects();
            },
        };
        let task = self.chats.take_out(i);
        let more = finish_chat_task_state(
            &mut self.talk,
            &mut self.screen,
            &mut self.notices,
            &task,
            &None,
            true,
            writes,
            secs,
            now,
        );
        let first = one_effect(Effect::AbortChatTask { task_id: task.id });
        let r = crate::effects::and_effects(first, more);
        assert(views(r@).skip(1) =~= views(more@));
        r
    }
}

/// The end of a response in the session that is viewed marks no session unread
/// and leaves no notice.
pub proof fn viewed_session_is_not_marked(
    before: (Conversation, Screen, Notices),
    after: (Conversation, Screen, Notices),
    effects: Seq<EffectView>,
    t: ChatTask,
    error: Option<Seq<char>>,
    stopped: bool,
    writes: TaskWrites,
    secs: FloatBits,
    now: Seq<char>,
)
    requires
        before.0.is_of(t.session_id@),
        finished(before, after, effects, t, error, stopped, writes, secs, now),
    ensures
        after.2 == before.2,
{
}

} // verus!
