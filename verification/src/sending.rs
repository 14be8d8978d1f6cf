//! Sending a message, and the jobs that follow a reply: naming the session and
//! extracting memory.

use crate::app::{first_task, App};
use crate::backends::{Backend, Backends};
use crate::chat::{palette, pick_flavor, session_title, title_from};
use crate::effects::{no_effects, one_effect, Effect, EffectView};
use crate::history::{build_history, history, LinkedImage};
use crate::pipeline::concat;
use crate::provider::{ChatMessage, ChatMessageView};
use crate::state::{says, Catalog, ChatTasks, Conversation, Screen, Settings, SkillsPopup, Spinner};
use crate::store::{plain_row, ChatTask, ChatTaskView, FloatBits, Message, Session, SessionView};
use crate::stream::task_at_found;
use crate::text::{decimal, decimal_of, opt_text, views};
use vstd::prelude::*;
use vstd::string::*;

verus! {

/// What follows when a message is sent.
#[derive(Clone, Copy, PartialEq, Eq, Structural)]
pub enum SendNext {
    /// The message was not taken; it stands in the composer again.
    Refused,
    /// The session or the message could not be stored.
    Failed,
    /// A swarm answers.
    Swarm,
    /// A model answers.
    Stream,
}

/// What the first message of a conversation takes from outside: the session
/// that the store created, where it could; and, for one that is not stored,
/// an id and the time.
pub struct NewChat {
    pub created: Option<Session>,
    pub id: String,
    pub now: String,
}

/// Why a message is not taken now.
pub open spec fn send_refusal(
    chats: ChatTasks,
    talk: Conversation,
    backends: Backends,
    current: Option<String>,
) -> Option<Seq<char>> {
    if talk.session matches Some(s) && chats.of(s.id@) is Some {
        Some(
            "wait — response still streaming in: "@ + chats.tasks@[chats.of(
                talk.session->0.id@,
            )->0].session_title@,
        )
    } else if chats.tasks@.len() >= chats.limit {
        Some("chat task limit reached ("@ + decimal(chats.limit as nat) + ")"@)
    } else if backends.first() is None {
        Some("set your API key first with /login"@)
    } else if current is None {
        Some("pick a model first with /model"@)
    } else {
        None
    }
}

fn refusal(
    chats: &ChatTasks,
    talk: &Conversation,
    backends: &Backends,
    current: &Option<String>,
) -> (r: Option<String>)
    ensures
        opt_text(r) == send_refusal(*chats, *talk, *backends, *current),
{
    if let Some(s) = &talk.session {
        if let Some(i) = chats.chat_task_for_session(s.id.as_str()) {
            return Some(
                concat(
                    "wait — response still streaming in: ",
                    chats.tasks[i].session_title.as_str(),
                ),
            );
        }
    }
    if chats.tasks.len() >= chats.limit {
        let mut s = "chat task limit reached (".to_owned();
        s.append(decimal_of(chats.limit as u64).as_str());
        s.append(")");
        return Some(s);
    }
    if !backends.any() {
        return Some("set your API key first with /login".to_owned());
    }
    if current.is_none() {
        return Some("pick a model first with /model".to_owned());
    }
    None
}

/// Whether a message is stored when it is sent: one that is taken, and not in
/// incognito mode.
pub open spec fn stores_message(refused: Option<Seq<char>>, incognito: bool) -> bool {
    refused is None && !incognito
}

/// What is stored of a message before it is sent: nothing, the message in the
/// session that is viewed, or a new session and then the message in it.
pub enum MessageToStore {
    Nothing,
    Message { session_id: String, text: String },
    Session { title: String, model: String, text: String },
}

/// What a `MessageToStore` stands for.
pub enum MessageToStoreView {
    Nothing,
    Message { session_id: Seq<char>, text: Seq<char> },
    Session { title: Seq<char>, model: Seq<char>, text: Seq<char> },
}

impl View for MessageToStore {
    type V = MessageToStoreView;

    open spec fn view(&self) -> MessageToStoreView {
        match *self {
            MessageToStore::Nothing => MessageToStoreView::Nothing,
            MessageToStore::Message { session_id, text } => MessageToStoreView::Message {
                session_id: session_id@,
                text: text@,
            },
            MessageToStore::Session { title, model, text } => MessageToStoreView::Session {
                title: title@,
                model: model@,
                text: text@,
            },
        }
    }
}

/// What is stored of a message before it is sent. A new session is named by
/// its first message and has the current model.
pub open spec fn message_to_store(
    refused: Option<Seq<char>>,
    talk: Conversation,
    current: Option<String>,
    incognito: bool,
    text: Seq<char>,
) -> MessageToStoreView {
    match (talk.session, current) {
        (Some(s), _) if stores_message(refused, incognito) => MessageToStoreView::Message {
            session_id: s.id@,
            text,
        },
        (None, Some(model)) if stores_message(refused, incognito) => MessageToStoreView::Session {
            title: session_title(text),
            model: model@,
            text,
        },
        _ => MessageToStoreView::Nothing,
    }
}

/// A session that is not stored.
pub open spec fn private_session(
    id: Seq<char>,
    title: Seq<char>,
    model: Seq<char>,
    now: Seq<char>,
    web_mode: bool,
) -> SessionView {
    SessionView {
        id,
        title,
        model,
        slug: None,
        created_at: now,
        compact_summary: None,
        compact_through: 0,
        web_mode,
        swarm_mode: false,
        kind: "chat"@,
        research_parent_id: None,
    }
}

/// Whether this is the session that a message belongs to: the one that is
/// viewed, or else a new one, which takes web mode over.
pub open spec fn session_for(
    talk: Conversation,
    after: Option<Session>,
    text: Seq<char>,
    model: Seq<char>,
    incognito: bool,
    web_mode: bool,
    new: NewChat,
) -> bool {
    match talk.session {
        Some(_) => after == talk.session,
        None => if incognito {
            after matches Some(s) && s@ == private_session(
                new.id@,
                session_title(text),
                model,
                new.now@,
                web_mode,
            )
        } else {
            match new.created {
                Some(c) => after == Some(Session { web_mode: c.web_mode || web_mode, ..c }),
                None => after is None,
            }
        },
    }
}

/// That a new session is in web mode is stored.
pub open spec fn session_effects(
    talk: Conversation,
    incognito: bool,
    web_mode: bool,
    new: NewChat,
) -> Seq<EffectView> {
    match new.created {
        Some(c) if talk.session is None && !incognito && web_mode => seq![
            EffectView::SetWebMode { session_id: c.id@, on: true },
        ],
        _ => Seq::empty(),
    }
}

/// What sending a message changes of the conversation and the screen, and what
/// follows. `stored` says whether the message could be stored.
pub open spec fn sent(
    refused: Option<Seq<char>>,
    before: (Conversation, Screen),
    after: (Conversation, Screen),
    next: SendNext,
    effects: Seq<EffectView>,
    text: Seq<char>,
    model: Seq<char>,
    incognito: bool,
    web_mode: bool,
    new: NewChat,
    stored: bool,
) -> bool {
    let (talk, screen) = before;
    match refused {
        Some(why) => {
            &&& next == SendNext::Refused
            &&& after.0 == talk
            &&& after.1 == (Screen {
                status: after.1.status,
                input: after.1.input,
                ..screen
            }) && after.1.status@ == why && after.1.input@ == text
            &&& effects == Seq::<EffectView>::empty()
        },
        None => {
            &&& after.1 == screen
            &&& after.0.context_total == talk.context_total
            &&& session_for(talk, after.0.session, text, model, incognito, web_mode, new)
            &&& effects == session_effects(talk, incognito, web_mode, new)
            &&& if after.0.session is None || (!incognito && !stored) {
                next == SendNext::Failed && after.0.messages == talk.messages
            } else {
                &&& views(after.0.messages@) == views(talk.messages@).push(
                    plain_row("user"@, text),
                )
                &&& next == (if after.0.session->0.swarm_mode {
                    SendNext::Swarm
                } else {
                    SendNext::Stream
                })
            }
        },
    }
}

fn enter_session(
    talk: &mut Conversation,
    text: &str,
    model: &str,
    incognito: bool,
    web_mode: bool,
    new: NewChat,
) -> (r: Vec<Effect>)
    ensures
        *final(talk) == (Conversation { session: final(talk).session, ..*old(talk) }),
        session_for(*old(talk), final(talk).session, text@, model@, incognito, web_mode, new),
        views(r@) == session_effects(*old(talk), incognito, web_mode, new),
{
    if talk.session.is_some() {
        return no_effects();
    }
    if incognito {
        talk.session =
        Some(
            Session {
                id: new.id,
                title: title_from(text),
                model: model.to_owned(),
                slug: None,
                created_at: new.now,
                compact_summary: None,
                compact_through: 0,
                web_mode,
                swarm_mode: false,
                kind: "chat".to_owned(),
                research_parent_id: None,
            },
        );
        return no_effects();
    }
    match new.created {
        None => no_effects(),
        Some(c) => {
            let mut s = c;
            let mut r = no_effects();
            if web_mode {
                s.web_mode = true;
                r = one_effect(Effect::SetWebMode { session_id: s.id.clone(), on: true });
            }
            talk.session = Some(s);
            r
        },
    }
}

fn take_message(
    refused: Option<String>,
    talk: &mut Conversation,
    screen: &mut Screen,
    text: String,
    model: &str,
    incognito: bool,
    web_mode: bool,
    new: NewChat,
    stored: bool,
) -> (r: (SendNext, Vec<Effect>))
    ensures
        sent(
            opt_text(refused),
            (*old(talk), *old(screen)),
            (*final(talk), *final(screen)),
            r.0,
            views(r.1@),
            text@,
            model@,
            incognito,
            web_mode,
            new,
            stored,
        ),
{
    if let Some(why) = refused {
        screen.status = why;
        screen.input = text;
        return (SendNext::Refused, no_effects());
    }
    let effects = enter_session(talk, text.as_str(), model, incognito, web_mode, new);
    let swarm = match &talk.session {
        None => {
            return (SendNext::Failed, effects);
        },
        Some(s) => s.swarm_mode,
    };
    if !incognito && !stored {
        return (SendNext::Failed, effects);
    }
    talk.add_row(Message::plain("user", text));
    if swarm {
        (SendNext::Swarm, effects)
    } else {
        (SendNext::Stream, effects)
    }
}

/// The parameters of a request. Temperatures are carried by their bit
/// patterns.
pub struct ChatParams {
    pub reasoning_effort: Option<String>,
    pub temperature: Option<FloatBits>,
    pub top_p: Option<FloatBits>,
    pub max_tokens: Option<u32>,
}

/// A request whose response is to stream in. `task_id` is the response that
/// begins with it; without a session the request is made all the same, but no
/// response begins, and what comes back is left aside.
pub struct StreamRequest {
    pub task_id: Option<u64>,
    pub backend: Backend,
    pub model: String,
    pub history: Vec<ChatMessage>,
    pub params: ChatParams,
}

/// What a request takes from outside: the system prompt, the images of the
/// space, the text of the skill that was armed and the linked images that can
/// be read; whether the model accepts the reasoning effort that is stored for
/// it and, where it does not, whether that could be cleared; and a number that
/// picks the thinking phrase.
pub struct StreamInputs {
    pub prompt: String,
    pub images: Option<ChatMessage>,
    pub body: String,
    pub known: Vec<LinkedImage>,
    pub accepted: bool,
    pub cleared: bool,
    pub seed: usize,
}

/// What an optional message stands for.
pub open spec fn opt_message(m: Option<ChatMessage>) -> Option<ChatMessageView> {
    match m {
        Some(m) => Some(m@),
        None => None,
    }
}

/// The reasoning effort that is stored for a model.
pub open spec fn stored_effort(c: Catalog, model: Seq<char>) -> Option<Seq<char>> {
    if c.reasoning@.contains_key(model) { Some(c.reasoning@[model]) } else { None }
}

/// The model whose stored reasoning effort is cleared before a request: the
/// current one, where it has a backend and does not accept its effort.
pub open spec fn effort_to_clear(backends: Backends, c: Catalog, accepted: bool) -> Option<
    Seq<char>,
> {
    match c.current {
        Some(m) if backends.route(m@) is Some && stored_effort(c, m@) is Some && !accepted => Some(
            m@,
        ),
        _ => None,
    }
}

/// The response that begins to stream in.
pub open spec fn new_task(
    id: u64,
    s: Session,
    space_id: Seq<char>,
    model: Seq<char>,
    incognito: bool,
    seed: int,
) -> ChatTaskView {
    ChatTaskView {
        id,
        session_id: s.id@,
        session_title: s.title@,
        space_id,
        model,
        incognito,
        buffer: Seq::empty(),
        thinking: Seq::empty(),
        tool_status: None,
        usage: None,
        thinking_idx: (seed % 16) as usize,
        spinner_color: palette(seed % 6),
    }
}

/// The id that follows an id.
pub open spec fn next_task_id(id: u64) -> u64 {
    if id == u64::MAX { 0 } else { (id + 1) as u64 }
}

/// The parts of the state that a request changes.
pub struct StreamParts {
    pub catalog: Catalog,
    pub skills: SkillsPopup,
    pub chats: ChatTasks,
    pub spinner: Spinner,
    pub screen: Screen,
}

/// What the start of a request changes, and which request is made.
pub open spec fn stream_start(
    backends: Backends,
    settings: Settings,
    talk: Conversation,
    space_id: Seq<char>,
    incognito: bool,
    before: StreamParts,
    after: StreamParts,
    r: Option<StreamRequest>,
    i: StreamInputs,
) -> bool {
    match before.catalog.current {
        None => after == before && r is None,
        Some(model) => match backends.route(model@) {
            None => {
                &&& r is None
                &&& after == (StreamParts { screen: after.screen, ..before })
                &&& says(
                    before.screen,
                    after.screen,
                    "model backend unavailable: "@ + model@ + " — pick another with /model"@,
                )
            },
            Some(route) => {
                let effort = stored_effort(before.catalog, model@);
                let stale = effort is Some && !i.accepted;
                &&& after.skills == (SkillsPopup { forced: None, ..before.skills })
                &&& if stale && !i.cleared {
                    &&& r is None
                    &&& after == (StreamParts { skills: after.skills, ..before })
                } else {
                    &&& after.catalog == (Catalog {
                        reasoning: after.catalog.reasoning,
                        ..before.catalog
                    })
                    &&& after.catalog.reasoning.wf()
                    &&& after.catalog.reasoning@ == (if stale {
                        before.catalog.reasoning@.remove(model@)
                    } else {
                        before.catalog.reasoning@
                    })
                    &&& r matches Some(q) && requested(
                        q,
                        before,
                        settings,
                        talk,
                        route,
                        if stale {
                            None
                        } else {
                            effort
                        },
                        i,
                    )
                    &&& match talk.session {
                        None => after == (StreamParts {
                            catalog: after.catalog,
                            skills: after.skills,
                            ..before
                        }),
                        Some(s) => begun(
                            before,
                            after,
                            new_task(
                                before.chats.next_id,
                                s,
                                space_id,
                                model@,
                                incognito,
                                i.seed as int,
                            ),
                            if stale {
                                "cleared unsupported reasoning "@ + effort->0 + ": "@ + model@
                            } else {
                                Seq::empty()
                            },
                        ),
                    }
                }
            },
        },
    }
}

/// Whether this is the request: to the backend that the model routes to, with
/// the history, the effort and the settings, for the next response where there
/// is a session.
pub open spec fn requested(
    q: StreamRequest,
    before: StreamParts,
    settings: Settings,
    talk: Conversation,
    route: (Backend, Seq<char>),
    effort: Option<Seq<char>>,
    i: StreamInputs,
) -> bool {
    &&& q.task_id == (if talk.session is Some {
        Some(before.chats.next_id)
    } else {
        None::<u64>
    })
    &&& (q.backend, q.model@) == route
    &&& views(q.history@) == history(
        talk,
        before.skills,
        i.prompt@,
        opt_message(i.images),
        before.catalog.sees_images(),
        i.body@,
        i.known@,
    )
    &&& opt_text(q.params.reasoning_effort) == effort
    &&& q.params.temperature == settings.temperature
    &&& q.params.top_p == settings.top_p
    &&& q.params.max_tokens == settings.max_tokens
}

/// What a response that begins changes of the responses, the spinner and the
/// screen.
pub open spec fn begun(
    before: StreamParts,
    after: StreamParts,
    task: ChatTaskView,
    status: Seq<char>,
) -> bool {
    &&& after.chats.wf()
    &&& after.chats.limit == before.chats.limit
    &&& after.chats.next_id == next_task_id(before.chats.next_id)
    &&& views(after.chats.tasks@) == views(
        match before.chats.at(before.chats.next_id) {
            Some(k) => before.chats.tasks@.remove(k),
            None => before.chats.tasks@,
        },
    ).push(task)
    &&& after.spinner == (Spinner {
        frame: 0,
        thinking_idx: task.thinking_idx,
        color: task.spinner_color,
    })
    &&& after.screen == (Screen { status: after.screen.status, scroll: 0, ..before.screen })
    &&& after.screen.status@ == status
}

fn settle_effort(catalog: &mut Catalog, model: &str, accepted: bool, cleared: bool) -> (r: (
    bool,
    Option<String>,
    Option<String>,
))
    requires
        old(catalog).wf(),
    ensures
        final(catalog).wf(),
        ({
            let effort = stored_effort(*old(catalog), model@);
            let stale = effort is Some && !accepted;
            &&& *final(catalog) == (Catalog {
                reasoning: final(catalog).reasoning,
                ..*old(catalog)
            })
            &&& r.0 == !(stale && !cleared)
            &&& stale && !cleared ==> *final(catalog) == *old(catalog)
            &&& r.0 ==> final(catalog).reasoning@ == (if stale {
                old(catalog).reasoning@.remove(model@)
            } else {
                old(catalog).reasoning@
            })
            &&& r.0 ==> opt_text(r.1) == (if stale {
                None
            } else {
                effort
            })
            &&& r.0 ==> opt_text(r.2) == (if stale {
                effort
            } else {
                None
            })
        }),
{
    let effort = match catalog.reasoning.get(model) {
        Some(e) => Some(e.clone()),
        None => None,
    };
    match effort {
        None => (true, None, None),
        Some(e) => {
            if accepted {
                (true, Some(e), None)
            } else if !cleared {
                (false, None, None)
            } else {
                catalog.reasoning.remove(model);
                (true, None, Some(e))
            }
        },
    }
}

fn begin_task(
    chats: &mut ChatTasks,
    spinner: &mut Spinner,
    screen: &mut Screen,
    s: &Session,
    space_id: &str,
    model: &str,
    incognito: bool,
    seed: usize,
    status: String,
) -> (r: u64)
    requires
        old(chats).wf(),
    ensures
        r == old(chats).next_id,
        final(chats).wf(),
        final(chats).limit == old(chats).limit,
        final(chats).next_id == next_task_id(old(chats).next_id),
        views(final(chats).tasks@) == views(
            match old(chats).at(old(chats).next_id) {
                Some(k) => old(chats).tasks@.remove(k),
                None => old(chats).tasks@,
            },
        ).push(new_task(old(chats).next_id, *s, space_id@, model@, incognito, seed as int)),
        *final(spinner) == (Spinner {
            frame: 0,
            thinking_idx: (seed as int % 16) as usize,
            color: palette(seed as int % 6),
        }),
        *final(screen) == (Screen { status, scroll: 0, ..*old(screen) }),
{
    let (thinking_idx, spinner_color) = pick_flavor(seed);
    let id: u64 = chats.next_id;
    chats.next_id = chats.next_id.wrapping_add(1);
    let task = ChatTask {
        id,
        session_id: s.id.clone(),
        session_title: s.title.clone(),
        space_id: space_id.to_owned(),
        model: model.to_owned(),
        incognito,
        buffer: String::new(),
        thinking: String::new(),
        tool_status: None,
        usage: None,
        thinking_idx,
        spinner_color,
    };
    assert(task@ == new_task(id, *s, space_id@, model@, incognito, seed as int));
    chats.insert_task(task);
    proof {
        let rest = match old(chats).at(id) {
            Some(k) => old(chats).tasks@.remove(k),
            None => old(chats).tasks@,
        };
        crate::text::views_push(rest, task);
    }
    *spinner = Spinner { frame: 0, thinking_idx, color: spinner_color };
    screen.status = status;
    screen.scroll = 0;
    id
}

fn begin_stream(
    backends: &Backends,
    settings: &Settings,
    talk: &Conversation,
    space_id: &str,
    incognito: bool,
    catalog: &mut Catalog,
    skills: &mut SkillsPopup,
    chats: &mut ChatTasks,
    spinner: &mut Spinner,
    screen: &mut Screen,
    i: StreamInputs,
) -> (r: Option<StreamRequest>)
    requires
        old(catalog).wf(),
        old(chats).wf(),
    ensures
        final(catalog).wf(),
        final(chats).wf(),
        stream_start(
            *backends,
            *settings,
            *talk,
            space_id@,
            incognito,
            (StreamParts {
                catalog: *old(catalog),
                skills: *old(skills),
                chats: *old(chats),
                spinner: *old(spinner),
                screen: *old(screen),
            }),
            (StreamParts {
                catalog: *final(catalog),
                skills: *final(skills),
                chats: *final(chats),
                spinner: *final(spinner),
                screen: *final(screen),
            }),
            r,
            i,
        ),
        final(spinner).thinking_idx < 16 || *final(spinner) == *old(spinner),
{
    let model = match &catalog.current {
        Some(m) => m.clone(),
        None => {
            return None;
        },
    };
    let (backend, raw) = match backends.resolve(model.as_str()) {
        Some(p) => p,
        None => {
            let mut s = "model backend unavailable: ".to_owned();
            s.append(model.as_str());
            s.append(" — pick another with /model");
            screen.status = s;
            return None;
        },
    };
    let vision = catalog.current_model_supports_images();
    let messages = build_history(
        talk,
        skills,
        i.prompt,
        i.images,
        vision,
        i.body.as_str(),
        &i.known,
    );
    let (settled, effort, dropped) = settle_effort(catalog, model.as_str(), i.accepted, i.cleared);
    if !settled {
        return None;
    }
    let task_id: Option<u64> = match &talk.session {
        None => None,
        Some(s) => {
            let status = match dropped {
                Some(e) => {
                    let mut w = "cleared unsupported reasoning ".to_owned();
                    w.append(e.as_str());
                    w.append(": ");
                    w.append(model.as_str());
                    w
                },
                None => String::new(),
            };
            Some(
                begin_task(
                    chats,
                    spinner,
                    screen,
                    s,
                    space_id,
                    model.as_str(),
                    incognito,
                    i.seed,
                    status,
                ),
            )
        },
    };
    Some(
        StreamRequest {
            task_id,
            backend,
            model: raw,
            history: messages,
            params: ChatParams {
                reasoning_effort: effort,
                temperature: settings.temperature,
                top_p: settings.top_p,
                max_tokens: settings.max_tokens,
            },
        },
    )
}

impl App {
    /// What is to be stored of a message before it is sent.
    pub fn message_to_store(&self, text: &str) -> (r: MessageToStore)
        ensures
            r@ == message_to_store(
                send_refusal(self.chats, self.talk, self.backends, self.catalog.current),
                self.talk,
                self.catalog.current,
                self.incognito,
                text@,
            ),
    {
        let refused = refusal(&self.chats, &self.talk, &self.backends, &self.catalog.current);
        if refused.is_some() || self.incognito {
            return MessageToStore::Nothing;
        }
        match (&self.talk.session, &self.catalog.current) {
            (Some(s), _) => MessageToStore::Message {
                session_id: s.id.clone(),
                text: text.to_owned(),
            },
            (None, Some(model)) => MessageToStore::Session {
                title: title_from(text),
                model: model.clone(),
                text: text.to_owned(),
            },
            (None, None) => MessageToStore::Nothing,
        }
    }

    /// The model whose stored reasoning effort is to be cleared before a
    /// request; `accepted` says whether the model accepts it.
    pub fn effort_to_clear(&self, accepted: bool) -> (r: Option<String>)
        requires
            self.wf(),
        ensures
            opt_text(r) == effort_to_clear(self.backends, self.catalog, accepted),
    {
        let model = match &self.catalog.current {
            Some(m) => m,
            None => {
                return None;
            },
        };
        if accepted || self.backends.resolve(model.as_str()).is_none() {
            return None;
        }
        match self.catalog.reasoning.get(model.as_str()) {
            Some(_) => Some(model.clone()),
            None => None,
        }
    }

    /// Sends a message: it is refused while a response streams in for the
    /// session, at the limit of responses, and without a backend or a model.
    /// Otherwise it joins its session, which its first message creates, and
    /// what answers is told. What `message_to_store` says is stored before:
    /// `new` holds the session that was created, and `stored` says whether the
    /// message was stored.
    pub fn send_message(&mut self, text: String, new: NewChat, stored: bool) -> (r: (
        SendNext,
        Vec<Effect>,
    ))
        ensures
            *final(self) == (App {
                talk: final(self).talk,
                screen: final(self).screen,
                ..*old(self)
            }),
            sent(
                send_refusal(
                    old(self).chats,
                    old(self).talk,
                    old(self).backends,
                    old(self).catalog.current,
                ),
                (old(self).talk, old(self).screen),
                (final(self).talk, final(self).screen),
                r.0,
                views(r.1@),
                text@,
                match old(self).catalog.current {
                    Some(m) => m@,
                    None => Seq::empty(),
                },
                old(self).incognito,
                old(self).web_mode,
                new,
                stored,
            ),
    {
        let refused = refusal(&self.chats, &self.talk, &self.backends, &self.catalog.current);
        let model = match &self.catalog.current {
            Some(m) => m.clone(),
            None => String::new(),
        };
        take_message(
            refused,
            &mut self.talk,
            &mut self.screen,
            text,
            model.as_str(),
            self.incognito,
            self.web_mode,
            new,
            stored,
        )
    }

    /// Starts the request that answers the conversation, where the active
    /// model has a backend. The response begins in the session, if there is
    /// one.
    pub fn start_stream(&mut self, i: StreamInputs) -> (r: Option<StreamRequest>)
        requires
            old(self).wf(),
        ensures
            final(self).wf(),
            *final(self) == (App {
                catalog: final(self).catalog,
                skills: final(self).skills,
                chats: final(self).chats,
                spinner: final(self).spinner,
                screen: final(self).screen,
                ..*old(self)
            }),
            stream_start(
                old(self).backends,
                old(self).config.settings,
                old(self).talk,
                old(self).active_space.id@,
                old(self).incognito,
                (StreamParts {
                    catalog: old(self).catalog,
                    skills: old(self).skills,
                    chats: old(self).chats,
                    spinner: old(self).spinner,
                    screen: old(self).screen,
                }),
                (StreamParts {
                    catalog: final(self).catalog,
                    skills: final(self).skills,
                    chats: final(self).chats,
                    spinner: final(self).spinner,
                    screen: final(self).screen,
                }),
                r,
                i,
            ),
    {
        begin_stream(
            &self.backends,
            &self.config.settings,
            &self.talk,
            self.active_space.id.as_str(),
            self.incognito,
            &mut self.catalog,
            &mut self.skills,
            &mut self.chats,
            &mut self.spinner,
            &mut self.screen,
            i,
        )
    }
}

/// Whether no two responses stream in for one session.
pub open spec fn sessions_differ(tasks: Seq<ChatTaskView>) -> bool {
    forall|i: int, j: int|
        0 <= i < j < tasks.len() ==> (#[trigger] tasks[i]).session_id != (
        #[trigger] tasks[j]).session_id
}

proof fn no_task_of_session(tasks: Seq<ChatTask>, id: Seq<char>, i: int)
    requires
        0 <= i,
        first_task(tasks, id, i) is None,
    ensures
        forall|k: int| i <= k < tasks.len() ==> (#[trigger] tasks[k]).session_id@ != id,
    decreases tasks.len() - i,
{
    if i < tasks.len() {
        no_task_of_session(tasks, id, i + 1);
    }
}

/// A session never gets a second response, and there are never more responses
/// than the limit: a message that is not refused keeps both.
pub proof fn one_response_per_session(
    backends: Backends,
    talk: Conversation,
    before: StreamParts,
    after: StreamParts,
    s: Session,
    task: ChatTaskView,
    status: Seq<char>,
)
    requires
        talk.session == Some(s),
        send_refusal(before.chats, talk, backends, before.catalog.current) is None,
        sessions_differ(views(before.chats.tasks@)),
        begun(before, after, task, status),
        task.session_id == s.id@,
    ensures
        sessions_differ(views(after.chats.tasks@)),
        after.chats.tasks@.len() <= after.chats.limit,
{
    no_task_of_session(before.chats.tasks@, s.id@, 0);
    let id = before.chats.next_id;
    task_at_found(before.chats.tasks@, id, 0);
    let rest = match before.chats.at(id) {
        Some(k) => before.chats.tasks@.remove(k),
        None => before.chats.tasks@,
    };
    let all = views(before.chats.tasks@);
    let now = views(after.chats.tasks@);
    assert(now.len() == rest.len() + 1);
    assert(after.chats.tasks@.len() == now.len());
    assert forall|i: int, j: int| 0 <= i < j < now.len() implies (#[trigger] now[i]).session_id
        != (#[trigger] now[j]).session_id by {
        let back = |k: int| match before.chats.at(id) {
            Some(gone) => if k < gone { k } else { k + 1 },
            None => k,
        };
        let a = back(i);
        assert(rest[i] == before.chats.tasks@[a]);
        assert(now[i] == all[a]);
        if j < rest.len() {
            let b = back(j);
            assert(rest[j] == before.chats.tasks@[b]);
            assert(now[j] == all[b]);
        } else {
            assert(now[j] == task);
        }
    }
}

} // verus!
