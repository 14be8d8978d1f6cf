//! The jobs that follow a reply: naming the session and extracting memory.

use crate::app::App;
use crate::backends::Backend;
use crate::effects::{no_effects, one_effect, Effect, EffectView};
use crate::memory::{
    apply_memory_ops, capped_memory, changed_facts, facts_in, facts_of, memory_body, memory_file,
    memory_prompt, memory_request, MemoryOp, MAX_MEMORY_CHARS,
};
use crate::models::Feature;
use crate::picks::{feature_route, resolved};
use crate::pipeline::concat;
use crate::state::{Conversation, Jobs, SessionPicker};
use crate::store::{Message, MessageView, Session};
use crate::text::{
    clipped, first_chars, join, joined, lines, same, texts, texts_push, trim, trimmed, views,
};
use vstd::prelude::*;
use vstd::string::*;

verus! {

/// A row as a line of a transcript: who said it, and its first characters.
pub open spec fn row_line(m: MessageView, n: int) -> Seq<char> {
    m.role + ": "@ + first_chars(m.content, n)
}

/// A row as a line of a transcript.
pub fn line_of_row(m: &Message, n: usize) -> (r: String)
    ensures
        r@ == row_line(m@, n as int),
{
    let mut s = m.role.clone();
    s.append(": ");
    s.append(clipped(m.content.as_str(), n));
    s
}

/// The lines of the rows that are no tool calls.
pub open spec fn title_lines(rows: Seq<MessageView>) -> Seq<Seq<char>>
    decreases rows.len(),
{
    if rows.len() == 0 {
        Seq::empty()
    } else {
        let before = title_lines(rows.drop_last());
        if rows.last().role == "tool_call"@ {
            before
        } else {
            before.push(row_line(rows.last(), 500))
        }
    }
}

fn title_transcript(messages: &Vec<Message>, n: usize) -> (r: String)
    requires
        n <= messages@.len(),
    ensures
        r@ == join(title_lines(views(messages@).take(n as int)), "\n"@),
{
    let ghost rows = views(messages@);
    let mut out: Vec<String> = Vec::new();
    let mut i: usize = 0;
    assert(rows.take(0) =~= Seq::empty());
    assert(texts(out@) =~= Seq::empty());
    while i < n
        invariant
            i <= n <= messages@.len(),
            rows == views(messages@),
            texts(out@) == title_lines(rows.take(i as int)),
        decreases n - i,
    {
        proof {
            let t = rows.take(i + 1);
            assert(t.drop_last() =~= rows.take(i as int));
            assert(t.last() == messages@[i as int]@);
        }
        if !same(messages[i].role.as_str(), "tool_call") {
            let line = line_of_row(&messages[i], 500);
            proof {
                texts_push(out@, line);
            }
            out.push(line);
        }
        i += 1;
    }
    joined(&out, "\n")
}

/// What a model is asked for the name of a session.
pub const TITLE_PROMPT: &'static str = "Summarise this conversation as a session name. Reply with ONLY a JSON object, no markdown, of the form {\"topic\": \"<3-5 word title>\", \"id\": \"<short-kebab-slug>\"}.\n\n";

/// A question to a model: the backend, its model and the prompt, for a session
/// or a space.
pub struct JobRequest {
    pub backend: Backend,
    pub model: String,
    pub prompt: String,
    /// The id of the session, or the name of the space.
    pub about: String,
}

/// Whether this is the request.
pub open spec fn asks(
    q: JobRequest,
    route: (Backend, Seq<char>),
    prompt: Seq<char>,
    about: Seq<char>,
) -> bool {
    &&& (q.backend, q.model@) == route
    &&& q.prompt@ == prompt
    &&& q.about@ == about
}

/// What has a session named after its first `n` rows changes of the client, and
/// what is asked for it.
pub open spec fn title_asked(before: App, after: App, n: int, r: Option<JobRequest>) -> bool {
    match (before.talk.session, before.title_route()) {
        (Some(s), Some(route)) if s.slug is None => {
            &&& after == (App { jobs: Jobs { title: true, ..before.jobs }, ..before })
            &&& r matches Some(q) && asks(
                q,
                route,
                TITLE_PROMPT@ + join(title_lines(views(before.talk.messages@).take(n)), "\n"@),
                s.id@,
            )
        },
        _ => after == before && r is None,
    }
}

/// What has facts extracted from the last exchange within the first `n` rows
/// changes of the client, and what is asked for it.
pub open spec fn memory_asked(
    before: App,
    after: App,
    n: int,
    memory: Seq<char>,
    r: Option<JobRequest>,
) -> bool {
    let rows = views(before.talk.messages@);
    match before.backends.first() {
        Some(p) if trim(before.config.memory_model@).len() > 0 && n >= 2 && rows[n - 2].role
            == "user"@ && rows[n - 1].role == "assistant"@ => {
            &&& after == (App { jobs: Jobs { memory: true, ..before.jobs }, ..before })
            &&& r matches Some(q) && asks(
                q,
                (p, before.config.memory_model@),
                memory_prompt(
                    first_chars(memory, MAX_MEMORY_CHARS as int),
                    rows[n - 2].content,
                    rows[n - 1].content,
                ),
                before.active_space.name@,
            )
        },
        _ => after == before && r is None,
    }
}

/// What changes to the memory of a space ask for, where `active` is the name of
/// the active one.
pub open spec fn memory_writes(
    active: Seq<char>,
    result: Option<(String, Vec<MemoryOp>)>,
    memory: Seq<char>,
) -> Seq<EffectView> {
    match result {
        Some((space, ops)) if space@ == active && ops@.len() > 0 => seq![
            EffectView::WriteMemory {
                text: memory_file(
                    changed_facts(
                        facts_of(lines(first_chars(memory, MAX_MEMORY_CHARS as int))),
                        views(ops@),
                    ),
                ),
            },
        ],
        _ => Seq::empty(),
    }
}

impl App {
    /// Which model names a session: the active one, or else the one for
    /// background jobs.
    pub open spec fn title_route(&self) -> Option<(Backend, Seq<char>)> {
        let active = match self.catalog.current {
            Some(m) => self.backends.route(m@),
            None => None,
        };
        match active {
            Some(p) => Some(p),
            None => feature_route(
                self.backends,
                self.catalog,
                self.config.memory_model@,
                Feature::Utility,
            ),
        }
    }

    fn title_backend(&self) -> (r: Option<(Backend, String)>)
        ensures
            resolved(r) == self.title_route(),
    {
        if let Some(m) = &self.catalog.current {
            if let Some(p) = self.backends.resolve(m.as_str()) {
                return Some(p);
            }
        }
        self.resolve_utility_model_backend(self.config.memory_model.as_str())
    }

    /// Has the session named, once, after its first exchange, from its first
    /// `n` rows. Gives what is to be asked of which model.
    pub fn maybe_generate_title(&mut self, n: usize) -> (r: Option<JobRequest>)
        requires
            n <= old(self).talk.messages@.len(),
        ensures
            title_asked(*old(self), *final(self), n as int, r),
    {
        let id = match &self.talk.session {
            Some(s) => {
                if s.slug.is_some() {
                    return None;
                }
                s.id.clone()
            },
            None => {
                return None;
            },
        };
        let (backend, model) = match self.title_backend() {
            Some(p) => p,
            None => {
                return None;
            },
        };
        let convo = title_transcript(&self.talk.messages, n);
        self.jobs.title = true;
        Some(
            JobRequest {
                backend,
                model,
                prompt: concat(TITLE_PROMPT, convo.as_str()),
                about: id,
            },
        )
    }

    /// Has durable facts extracted from the last exchange within the first `n`
    /// rows, where extraction is on. `memory` is the memory file of the space.
    pub fn maybe_extract_memory(&mut self, n: usize, memory: &str) -> (r: Option<JobRequest>)
        requires
            n <= old(self).talk.messages@.len(),
        ensures
            memory_asked(*old(self), *final(self), n as int, memory@, r),
    {
        if trimmed(self.config.memory_model.as_str()).is_empty() {
            return None;
        }
        let backend = match self.backends.first_backend() {
            Some(p) => p,
            None => {
                return None;
            },
        };
        if n < 2 {
            return None;
        }
        let user = &self.talk.messages[n - 2];
        let assistant = &self.talk.messages[n - 1];
        if !same(user.role.as_str(), "user") || !same(assistant.role.as_str(), "assistant") {
            return None;
        }
        let facts = capped_memory(memory);
        let prompt = memory_request(
            facts.as_str(),
            user.content.as_str(),
            assistant.content.as_str(),
        );
        self.jobs.memory = true;
        Some(
            JobRequest {
                backend,
                model: self.config.memory_model.clone(),
                prompt,
                about: self.active_space.name.clone(),
            },
        )
    }

    /// Changes to the memory of a space came back: they are made where the
    /// space is still active. `memory` is its memory file.
    pub fn on_memory_result(&mut self, result: Option<(String, Vec<MemoryOp>)>, memory: &str) -> (r:
        Vec<Effect>)
        ensures
            *final(self) == (App { jobs: Jobs { memory: false, ..old(self).jobs }, ..*old(self) }),
            views(r@) == memory_writes(old(self).active_space.name@, result, memory@),
    {
        self.jobs.memory = false;
        match result {
            None => no_effects(),
            Some((space, ops)) => {
                if !same(space.as_str(), self.active_space.name.as_str()) || ops.len() == 0 {
                    return no_effects();
                }
                let facts = facts_in(capped_memory(memory).as_str());
                let changed = apply_memory_ops(&facts, &ops);
                one_effect(Effect::WriteMemory { text: memory_body(&changed) })
            },
        }
    }

    /// A topic and a slug came back for a session: it is known under them.
    pub fn on_title_result(&mut self, result: Option<(String, String, String)>) -> (r: Vec<Effect>)
        ensures
            *final(self) == (App {
                jobs: Jobs { title: false, ..old(self).jobs },
                talk: final(self).talk,
                sessions: final(self).sessions,
                ..*old(self)
            }),
            titled(
                (old(self).talk, old(self).sessions),
                (final(self).talk, final(self).sessions),
                views(r@),
                result,
            ),
    {
        self.jobs.title = false;
        take_title(&mut self.talk, &mut self.sessions, result)
    }
}

/// What a topic and a slug for a session change of the conversation and the
/// session picker, and what they ask for.
pub open spec fn titled(
    before: (Conversation, SessionPicker),
    after: (Conversation, SessionPicker),
    effects: Seq<EffectView>,
    result: Option<(String, String, String)>,
) -> bool {
    let (talk, sessions) = before;
    match result {
        None => after == before && effects == Seq::<EffectView>::empty(),
        Some((id, topic, slug)) => {
            &&& effects == seq![
                EffectView::SetSessionTitle { session_id: id@, title: topic@, slug: Some(slug@) },
            ]
            &&& after.0 == (match talk.session {
                Some(s) if s.id@ == id@ => Conversation {
                    session: Some(named(s, topic, slug)),
                    ..talk
                },
                _ => talk,
            })
            &&& after.1 == (SessionPicker { cache: after.1.cache, ..sessions })
            &&& after.1.cache@ == (match session_at(sessions.cache@, id@, 0) {
                Some(i) => sessions.cache@.update(i, named(sessions.cache@[i], topic, slug)),
                None => sessions.cache@,
            })
        },
    }
}

fn take_title(
    talk: &mut Conversation,
    sessions: &mut SessionPicker,
    result: Option<(String, String, String)>,
) -> (r: Vec<Effect>)
    ensures
        titled(
            (*old(talk), *old(sessions)),
            (*final(talk), *final(sessions)),
            views(r@),
            result,
        ),
{
    match result {
        None => no_effects(),
        Some((id, topic, slug)) => {
            let r = one_effect(
                Effect::SetSessionTitle {
                    session_id: id.clone(),
                    title: topic.clone(),
                    slug: Some(slug.clone()),
                },
            );
            name_viewed(talk, id.as_str(), &topic, &slug);
            name_listed(sessions, id.as_str(), topic, slug);
            r
        },
    }
}

/// A session under a new title and slug.
pub open spec fn named(s: Session, topic: String, slug: String) -> Session {
    Session { title: topic, slug: Some(slug), ..s }
}

/// The first session with an id at or after a position.
pub open spec fn session_at(list: Seq<Session>, id: Seq<char>, i: int) -> Option<int>
    decreases list.len() - i,
{
    if i < 0 || i >= list.len() {
        None
    } else if list[i].id@ == id {
        Some(i)
    } else {
        session_at(list, id, i + 1)
    }
}

fn name_viewed(talk: &mut Conversation, id: &str, topic: &String, slug: &String)
    ensures
        *final(talk) == (match old(talk).session {
            Some(s) if s.id@ == id@ => Conversation {
                session: Some(named(s, *topic, *slug)),
                ..*old(talk)
            },
            _ => *old(talk),
        }),
{
    if let Some(s) = &mut talk.session {
        if same(s.id.as_str(), id) {
            s.title = topic.clone();
            s.slug = Some(slug.clone());
        }
    }
}

fn name_listed(sessions: &mut SessionPicker, id: &str, topic: String, slug: String)
    ensures
        *final(sessions) == (SessionPicker { cache: final(sessions).cache, ..*old(sessions) }),
        final(sessions).cache@ == (match session_at(old(sessions).cache@, id@, 0) {
            Some(i) => old(sessions).cache@.update(
                i,
                named(old(sessions).cache@[i], topic, slug),
            ),
            None => old(sessions).cache@,
        }),
{
    let mut i: usize = 0;
    while i < sessions.cache.len()
        invariant
            i <= sessions.cache@.len(),
            *sessions == *old(sessions),
            session_at(old(sessions).cache@, id@, 0) == session_at(
                old(sessions).cache@,
                id@,
                i as int,
            ),
        decreases sessions.cache@.len() - i,
    {
        if same(sessions.cache[i].id.as_str(), id) {
            sessions.cache[i].title = topic;
            sessions.cache[i].slug = Some(slug);
            assert(sessions.cache@ =~= old(sessions).cache@.update(
                i as int,
                named(old(sessions).cache@[i as int], topic, slug),
            ));
            return;
        }
        i += 1;
    }
}

} // verus!
