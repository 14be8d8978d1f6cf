//! Starting a research job: from a topic, or from what was said in the chat.

use crate::app::App;
use crate::backends::{Backend, Backends};
use crate::chat::{session_title, title_from};
use crate::effects::{no_effects, one_effect, Effect, EffectView};
use crate::followup::{line_of_row, row_line};
use crate::pipeline::concat;
use crate::research_job::no_steers;
use crate::state::{says, Config, Conversation, Jobs, LoginPopup, ResearchState, Screen};
use crate::store::{Message, MessageView, Session};
use crate::text::{join, joined, opt_text, same, texts, texts_push, trim, trimmed, views};
use crate::ui::Popup;
use vstd::prelude::*;
use vstd::string::*;

verus! {

/// Whether a row is something that the user or the model said.
pub open spec fn is_turn(m: MessageView) -> bool {
    m.role == "user"@ || m.role == "assistant"@
}

fn said(m: &Message) -> (r: bool)
    ensures
        r == is_turn(m@),
{
    same(m.role.as_str(), "user") || same(m.role.as_str(), "assistant")
}

/// What the user and the model said, as lines.
pub open spec fn turn_lines(rows: Seq<MessageView>, n: int) -> Seq<Seq<char>>
    decreases rows.len(),
{
    if rows.len() == 0 {
        Seq::empty()
    } else {
        let before = turn_lines(rows.drop_last(), n);
        if is_turn(rows.last()) { before.push(row_line(rows.last(), n)) } else { before }
    }
}

fn lines_of_turns(messages: &Vec<Message>, from: usize, n: usize) -> (r: Vec<String>)
    requires
        from <= messages@.len(),
    ensures
        texts(r@) == turn_lines(views(messages@).skip(from as int), n as int),
{
    let ghost rows = views(messages@).skip(from as int);
    let mut out: Vec<String> = Vec::new();
    let mut i: usize = from;
    assert(rows.take(0) =~= Seq::empty());
    assert(texts(out@) =~= Seq::empty());
    while i < messages.len()
        invariant
            from <= i <= messages@.len(),
            rows == views(messages@).skip(from as int),
            texts(out@) == turn_lines(rows.take(i - from), n as int),
        decreases messages@.len() - i,
    {
        proof {
            let t = rows.take(i - from + 1);
            assert(t.drop_last() =~= rows.take(i - from));
            assert(t.last() == messages@[i as int]@);
        }
        if said(&messages[i]) {
            let line = line_of_row(&messages[i], n);
            proof {
                texts_push(out@, line);
            }
            out.push(line);
        }
        i += 1;
    }
    assert(rows.take(i - from) =~= rows);
    out
}

/// The last `n` of a list.
pub open spec fn last_of(s: Seq<Seq<char>>, n: int) -> Seq<Seq<char>> {
    if s.len() <= n { s } else { s.skip(s.len() - n) }
}

/// What was said last, as the model that derives a topic reads it.
pub open spec fn recent_talk(rows: Seq<MessageView>) -> Seq<char> {
    join(last_of(turn_lines(rows, 500), 20), "\n"@)
}

fn recent_talk_of(messages: &Vec<Message>) -> (r: String)
    ensures
        r@ == recent_talk(views(messages@)),
{
    let all = lines_of_turns(messages, 0, 500);
    assert(views(messages@).skip(0) =~= views(messages@));
    let from: usize = if all.len() <= 20 { 0 } else { all.len() - 20 };
    let ghost wanted = last_of(texts(all@), 20);
    let mut out: Vec<String> = Vec::new();
    let mut i: usize = from;
    assert(texts(out@) =~= wanted.take(0));
    while i < all.len()
        invariant
            from <= i <= all@.len(),
            from == (if all@.len() <= 20 { 0 } else { all@.len() - 20 }),
            wanted == last_of(texts(all@), 20),
            texts(out@) == wanted.take(i - from),
        decreases all@.len() - i,
    {
        let line = all[i].clone();
        proof {
            texts_push(out@, line);
            assert(wanted.take(i - from).push(line@) =~= wanted.take(i - from + 1));
        }
        out.push(line);
        i += 1;
    }
    assert(wanted.take(i - from) =~= wanted);
    joined(&out, "\n")
}

/// What a model is asked for a topic.
pub const TOPIC_PROMPT: &'static str = "Based on this conversation, reply with ONLY a single-line research topic or question suitable for a multi-source research task. No preamble, no quotes, no markdown.\n\n";

/// Why no topic can be derived from the chat now.
pub open spec fn scoping_refusal(
    jobs: Jobs,
    backends: Backends,
    current: Option<String>,
    rows: Seq<MessageView>,
) -> Option<Seq<char>> {
    if jobs.research_topic {
        Some("already scoping a topic from this chat…"@)
    } else if jobs.research {
        Some("a research job is already running"@)
    } else {
        match current {
            None => Some("no model configured — set one in /login or /model"@),
            Some(m) => if backends.route(m@) is None {
                Some("model backend unavailable: "@ + m@ + " — pick another with /model"@)
            } else if trim(recent_talk(rows)).len() == 0 {
                Some("nothing to scope yet — chat first, or use /research <topic>"@)
            } else {
                None
            },
        }
    }
}

/// A question for a topic: the backend, its model and the prompt.
pub struct TopicRequest {
    pub backend: Backend,
    pub model: String,
    pub prompt: String,
}

fn scope(
    jobs: &mut Jobs,
    screen: &mut Screen,
    backends: &Backends,
    current: &Option<String>,
    messages: &Vec<Message>,
) -> (r: Option<TopicRequest>)
    ensures
        match scoping_refusal(*old(jobs), *backends, *current, views(messages@)) {
            Some(why) => {
                &&& r is None
                &&& *final(jobs) == *old(jobs)
                &&& says(*old(screen), *final(screen), why)
            },
            None => {
                &&& r matches Some(q) && backends.route(current->0@) == Some((q.backend, q.model@))
                    && q.prompt@ == TOPIC_PROMPT@ + recent_talk(views(messages@))
                &&& *final(jobs) == (Jobs { research_topic: true, ..*old(jobs) })
                &&& says(
                    *old(screen),
                    *final(screen),
                    "scoping a research topic from this chat…"@,
                )
            },
        },
{
    if jobs.research_topic {
        screen.status = "already scoping a topic from this chat…".to_owned();
        return None;
    }
    if jobs.research {
        screen.status = "a research job is already running".to_owned();
        return None;
    }
    let m = match current {
        Some(m) => m,
        None => {
            screen.status = "no model configured — set one in /login or /model".to_owned();
            return None;
        },
    };
    let (backend, model) = match backends.resolve(m.as_str()) {
        Some(p) => p,
        None => {
            let mut s = "model backend unavailable: ".to_owned();
            s.append(m.as_str());
            s.append(" — pick another with /model");
            screen.status = s;
            return None;
        },
    };
    let convo = recent_talk_of(messages);
    if trimmed(convo.as_str()).is_empty() {
        screen.status = "nothing to scope yet — chat first, or use /research <topic>".to_owned();
        return None;
    }
    jobs.research_topic = true;
    screen.status = "scoping a research topic from this chat…".to_owned();
    Some(TopicRequest { backend, model, prompt: concat(TOPIC_PROMPT, convo.as_str()) })
}

/// What follows from the topic that came back.
pub enum TopicStep {
    /// Research it.
    Research(String),
    /// Nothing, or the screen says why not.
    Nothing,
}

/// What a topic that came back, or the reason why there is none, changes of the
/// screen, and what follows.
pub open spec fn topic_step(
    before: Screen,
    after: Screen,
    result: Option<Result<String, String>>,
    r: TopicStep,
) -> bool {
    match result {
        None => r is Nothing && after == before,
        Some(Ok(t)) => if t@.len() > 0 {
            r == TopicStep::Research(t) && after == before
        } else {
            r is Nothing && says(before, after, "couldn't derive a topic — try /research <topic>"@)
        },
        Some(Err(e)) => r is Nothing && says(before, after, "topic scoping failed: "@ + e@),
    }
}

fn take_topic(screen: &mut Screen, result: Option<Result<String, String>>) -> (r: TopicStep)
    ensures
        topic_step(*old(screen), *final(screen), result, r),
{
    match result {
        None => TopicStep::Nothing,
        Some(Ok(t)) => {
            if !t.as_str().is_empty() {
                TopicStep::Research(t)
            } else {
                screen.status = "couldn't derive a topic — try /research <topic>".to_owned();
                TopicStep::Nothing
            }
        },
        Some(Err(e)) => {
            screen.status = concat("topic scoping failed: ", e.as_str());
            TopicStep::Nothing
        },
    }
}

/// Why a research job does not start on a topic.
pub open spec fn research_refusal(topic: Seq<char>, config: Config, jobs: Jobs) -> Option<Seq<char>> {
    if trim(topic).len() == 0 {
        Some("usage: /research <topic>"@)
    } else if trim(config.research_model@).len() == 0 {
        Some("no research model configured — set one in /config"@)
    } else if jobs.research {
        Some("a research job is already running"@)
    } else {
        None
    }
}

/// The models of a research job: for the job itself, for contradictions, and
/// for embeddings.
pub struct ResearchModels {
    pub research: (Backend, String),
    pub escalation: (Backend, String),
    pub embedding: (Backend, String),
}

/// What a model id routes to, or else the id at a given backend.
pub open spec fn route_or(b: Backends, id: Seq<char>, p: Backend) -> (Backend, Seq<char>) {
    match b.route(id) {
        Some(r) => r,
        None => (p, id),
    }
}

fn resolve_or(b: &Backends, id: &str, p: &Backend) -> (r: (Backend, String))
    ensures
        (r.0, r.1@) == route_or(*b, id@, *p),
{
    match b.resolve(id) {
        Some(r) => r,
        None => (p.clone(), id.to_owned()),
    }
}

/// What is to be done to start a research job.
pub enum ResearchStart {
    /// Nothing: the screen says why, or asks for a login.
    Refused,
    /// Create the session of the job under this title, with this model.
    Create { topic: String, title: String, model: String, models: ResearchModels },
}

/// Whether the models of a research job are these: contradictions go to their
/// own model where one is set, and what does not route goes to the backend of
/// the job.
pub open spec fn job_models(b: Backends, c: Config, m: ResearchModels) -> bool {
    let model = trim(c.research_model@);
    &&& b.route(model) == Some((m.research.0, m.research.1@))
    &&& (m.escalation.0, m.escalation.1@) == route_or(
        b,
        if trim(c.escalation_model@).len() == 0 {
            model
        } else {
            trim(c.escalation_model@)
        },
        m.research.0,
    )
    &&& (m.embedding.0, m.embedding.1@) == route_or(b, trim(c.embedding_model@), m.research.0)
}

/// What the first step towards a research job changes, and what follows.
pub open spec fn start_step(
    backends: Backends,
    config: Config,
    jobs: Jobs,
    before: (LoginPopup, ResearchState, Screen),
    after: (LoginPopup, ResearchState, Screen),
    topic: Seq<char>,
    r: ResearchStart,
) -> bool {
    let (login, job, screen) = before;
    match research_refusal(topic, config, jobs) {
        Some(why) => r is Refused && after.0 == login && after.1 == job && says(
            screen,
            after.2,
            why,
        ),
        None => if backends.route(trim(config.research_model@)) is None {
            &&& r is Refused
            &&& after.0 == (LoginPopup { selected: 0, ..login })
            &&& after.1 == job
            &&& after.2 == (Screen { popup: Popup::Login, ..screen })
        } else {
            &&& after.0 == login && after.2 == screen
            &&& after.1 == (ResearchState { gate: None, reply_open: false, ..job })
            &&& r matches ResearchStart::Create { topic: t, title, model, models } && t@ == trim(
                topic,
            ) && title@ == session_title(trim(topic)) && model@ == trim(config.research_model@)
                && job_models(backends, config, models)
        },
    }
}

fn refusal_of(topic: &str, config: &Config, jobs: &Jobs) -> (r: Option<String>)
    ensures
        opt_text(r) == research_refusal(topic@, *config, *jobs),
{
    if trimmed(topic).is_empty() {
        Some("usage: /research <topic>".to_owned())
    } else if trimmed(config.research_model.as_str()).is_empty() {
        Some("no research model configured — set one in /config".to_owned())
    } else if jobs.research {
        Some("a research job is already running".to_owned())
    } else {
        None
    }
}

fn plan_start(
    backends: &Backends,
    config: &Config,
    jobs: &Jobs,
    login: &mut LoginPopup,
    job: &mut ResearchState,
    screen: &mut Screen,
    topic: &str,
) -> (r: ResearchStart)
    ensures
        start_step(
            *backends,
            *config,
            *jobs,
            (*old(login), *old(job), *old(screen)),
            (*final(login), *final(job), *final(screen)),
            topic@,
            r,
        ),
{
    if let Some(why) = refusal_of(topic, config, jobs) {
        screen.status = why;
        return ResearchStart::Refused;
    }
    let topic = trimmed(topic);
    let model = trimmed(config.research_model.as_str());
    let research = match backends.resolve(model) {
        Some(p) => p,
        None => {
            login.selected = 0;
            screen.popup = Popup::Login;
            return ResearchStart::Refused;
        },
    };
    let own = trimmed(config.escalation_model.as_str());
    let escalation = resolve_or(
        backends,
        if own.is_empty() {
            model
        } else {
            own
        },
        &research.0,
    );
    let embedding = resolve_or(backends, trimmed(config.embedding_model.as_str()), &research.0);
    job.gate = None;
    job.reply_open = false;
    ResearchStart::Create {
        topic: topic.to_owned(),
        title: title_from(topic),
        model: model.to_owned(),
        models: ResearchModels { research, escalation, embedding },
    }
}

/// Whether there is a conversation that the job comes from.
pub open spec fn has_turn(rows: Seq<MessageView>) -> bool {
    exists|i: int| 0 <= i < rows.len() && is_turn(#[trigger] rows[i])
}

/// The session that the job comes from.
pub open spec fn parent(talk: Conversation) -> Option<Seq<char>> {
    match talk.session {
        Some(s) if has_turn(views(talk.messages@)) => Some(s.id@),
        _ => None,
    }
}

fn parent_of(talk: &Conversation) -> (r: Option<String>)
    ensures
        opt_text(r) == parent(*talk),
{
    let mut i: usize = 0;
    while i < talk.messages.len()
        invariant
            i <= talk.messages@.len(),
            forall|j: int| 0 <= j < i ==> !is_turn(#[trigger] views(talk.messages@)[j]),
        decreases talk.messages@.len() - i,
    {
        assert(views(talk.messages@)[i as int] == talk.messages@[i as int]@);
        if said(&talk.messages[i]) {
            return match &talk.session {
                Some(s) => Some(s.id.clone()),
                None => None,
            };
        }
        i += 1;
    }
    None
}

/// What the job is told of the conversation that it comes from.
pub open spec fn job_context(summary: Option<Seq<char>>, tail: Seq<Seq<char>>) -> Seq<char> {
    let head = match summary {
        Some(s) => Seq::<char>::empty() + "Previous conversation summary:\n"@ + s,
        None => Seq::empty(),
    };
    if tail.len() == 0 {
        head
    } else {
        (if head.len() > 0 {
            head + "\n\n"@
        } else {
            head
        }) + "Recent messages:\n"@ + ended_lines(tail)
    }
}

/// Lines, each with its end.
pub open spec fn ended_lines(ls: Seq<Seq<char>>) -> Seq<char>
    decreases ls.len(),
{
    if ls.len() == 0 {
        Seq::empty()
    } else {
        ended_lines(ls.drop_last()) + ls.last() + "\n"@
    }
}

fn job_context_of(summary: Option<&str>, tail: &Vec<String>) -> (r: String)
    ensures
        r@ == job_context(
            match summary {
                Some(s) => Some(s@),
                None => None,
            },
            texts(tail@),
        ),
{
    let mut ctx = String::new();
    if let Some(s) = summary {
        ctx.append("Previous conversation summary:\n");
        ctx.append(s);
    }
    if tail.len() == 0 {
        assert(texts(tail@).len() == 0);
        return ctx;
    }
    if !ctx.as_str().is_empty() {
        ctx.append("\n\n");
    }
    let ghost all = texts(tail@);
    let mut ls = String::new();
    let mut i: usize = 0;
    assert(all.take(0) =~= Seq::empty());
    while i < tail.len()
        invariant
            i <= tail@.len(),
            all == texts(tail@),
            ls@ == ended_lines(all.take(i as int)),
        decreases tail@.len() - i,
    {
        proof {
            let t = all.take(i + 1);
            assert(t.drop_last() =~= all.take(i as int));
            assert(t.last() == tail@[i as int]@);
        }
        ls.append(tail[i].as_str());
        ls.append("\n");
        i += 1;
    }
    assert(all.take(i as int) =~= all);
    ctx.append("Recent messages:\n");
    ctx.append(ls.as_str());
    ctx
}

/// The first row of the session of the job.
pub open spec fn job_message(topic: Seq<char>, context: Seq<char>) -> Seq<char> {
    if context.len() == 0 {
        "/research "@ + topic
    } else {
        "/research "@ + topic + "\n\n"@ + context
    }
}

/// What the job is told of the conversation that it comes from: its digest,
/// and what was said since.
pub open spec fn told(talk: Conversation) -> Seq<char> {
    job_context(
        talk.summary(),
        turn_lines(
            views(talk.messages@).skip(talk.session->0.compact_through as int),
            300,
        ),
    )
}

/// The rows that a new research session begins with, in their order: what was
/// asked, with what was said before, and links between it and the session that
/// it comes from, where there is one.
pub open spec fn start_rows(
    talk: Conversation,
    session_id: Seq<char>,
    topic: Seq<char>,
    parent_title: Option<Seq<char>>,
) -> Seq<EffectView> {
    match parent(talk) {
        None => seq![
            EffectView::AddMessage { session_id, role: "user"@, content: "/research "@ + topic },
        ],
        Some(pid) => seq![
            EffectView::SetResearchParent { session_id, parent_id: pid },
            EffectView::AddMessage {
                session_id,
                role: "user"@,
                content: job_message(topic, told(talk)),
            },
            EffectView::AddMessage {
                session_id: pid,
                role: "session_link"@,
                content: session_id + "\n🔗 Research session started for: "@ + topic,
            },
            EffectView::AddMessage {
                session_id,
                role: "session_link"@,
                content: pid + "\n↩ Originally from: "@ + (match parent_title {
                    Some(t) => t,
                    None => "previous chat"@,
                }),
            },
        ],
    }
}

fn told_of(talk: &Conversation) -> (r: String)
    requires
        talk.session matches Some(s) && 0 <= s.compact_through <= talk.messages@.len(),
    ensures
        r@ == told(*talk),
{
    let n: usize = talk.messages.len();
    let from: usize = match &talk.session {
        Some(s) => s.compact_through as usize,
        None => n,
    };
    let tail = lines_of_turns(&talk.messages, from, 300);
    job_context_of(talk.summary_text(), &tail)
}

fn rows_to_start(
    talk: &Conversation,
    session_id: &str,
    topic: &str,
    parent_title: &Option<String>,
) -> (r: Vec<Effect>)
    requires
        talk.session matches Some(s) ==> 0 <= s.compact_through <= talk.messages@.len(),
    ensures
        views(r@) == start_rows(*talk, session_id@, topic@, opt_text(*parent_title)),
{
    let pid = match parent_of(talk) {
        None => {
            return one_effect(
                Effect::AddMessage {
                    session_id: session_id.to_owned(),
                    role: "user".to_owned(),
                    content: concat("/research ", topic),
                },
            );
        },
        Some(p) => p,
    };
    let context = told_of(talk);
    let mut asked = concat("/research ", topic);
    if !context.as_str().is_empty() {
        asked.append("\n\n");
        asked.append(context.as_str());
    }
    let mut link = session_id.to_owned();
    link.append("\n🔗 Research session started for: ");
    link.append(topic);
    let mut back = pid.clone();
    back.append("\n↩ Originally from: ");
    match parent_title {
        Some(t) => {
            back.append(t.as_str());
        },
        None => {
            back.append("previous chat");
        },
    }
    let mut r: Vec<Effect> = Vec::new();
    r.push(
        Effect::SetResearchParent { session_id: session_id.to_owned(), parent_id: pid.clone() },
    );
    r.push(
        Effect::AddMessage {
            session_id: session_id.to_owned(),
            role: "user".to_owned(),
            content: asked,
        },
    );
    r.push(
        Effect::AddMessage { session_id: pid, role: "session_link".to_owned(), content: link },
    );
    r.push(
        Effect::AddMessage {
            session_id: session_id.to_owned(),
            role: "session_link".to_owned(),
            content: back,
        },
    );
    assert(views(r@) =~= start_rows(*talk, session_id@, topic@, opt_text(*parent_title)));
    r
}

/// What the start of a research job changes: it runs on its topic in its own
/// session, which is viewed, takes instructions and, where it is gated,
/// replies, and keeps the mode that it began in.
pub open spec fn job_begun(
    before: (ResearchState, Jobs, Conversation, Screen),
    after: (ResearchState, Jobs, Conversation, Screen),
    session: Session,
    messages: Vec<Message>,
    topic: Seq<char>,
    gated: bool,
    incognito: bool,
) -> bool {
    &&& after.0 == (ResearchState {
        running: after.0.running,
        reply_open: before.0.reply_open || gated,
        steer_open: true,
        steer_log: after.0.steer_log,
        steer_acked: after.0.steer_acked,
        stage_rows: after.0.stage_rows,
        incognito,
        ..before.0
    })
    &&& after.0.running matches Some(p) && p.0@ == session.id@ && p.1@ == topic
    &&& no_steers(after.0) && after.0.stage_rows@.len() == 0
    &&& after.1 == (Jobs { research: true, ..before.1 })
    &&& after.2 == (Conversation { session: Some(session), messages, context_total: None })
    &&& after.3 == (Screen { status: after.3.status, scroll: 0, ..before.3 })
    &&& after.3.status@ == "researching: "@ + topic + " · Ctrl+↑ agents"@
}

fn begin_job(
    job: &mut ResearchState,
    jobs: &mut Jobs,
    talk: &mut Conversation,
    screen: &mut Screen,
    session: Session,
    messages: Vec<Message>,
    topic: &str,
    gated: bool,
    incognito: bool,
)
    ensures
        job_begun(
            (*old(job), *old(jobs), *old(talk), *old(screen)),
            (*final(job), *final(jobs), *final(talk), *final(screen)),
            session,
            messages,
            topic@,
            gated,
            incognito,
        ),
{
    jobs.research = true;
    job.running = Some((session.id.clone(), topic.to_owned()));
    job.steer_open = true;
    job.steer_log = Vec::new();
    job.steer_acked = Vec::new();
    job.stage_rows = Vec::new();
    job.incognito = incognito;
    if gated {
        job.reply_open = true;
    }
    let mut s = "researching: ".to_owned();
    s.append(topic);
    s.append(" · Ctrl+↑ agents");
    screen.status = s;
    screen.scroll = 0;
    *talk = Conversation { session: Some(session), messages, context_total: None };
}

impl App {
    /// Has a topic derived from what was said last. Gives what is to be asked
    /// of which model.
    pub fn start_research_from_chat(&mut self) -> (r: Option<TopicRequest>)
        ensures
            *final(self) == (App {
                jobs: final(self).jobs,
                screen: final(self).screen,
                ..*old(self)
            }),
            match scoping_refusal(
                old(self).jobs,
                old(self).backends,
                old(self).catalog.current,
                views(old(self).talk.messages@),
            ) {
                Some(why) => {
                    &&& r is None
                    &&& final(self).jobs == old(self).jobs
                    &&& says(old(self).screen, final(self).screen, why)
                },
                None => {
                    &&& r matches Some(q) && old(self).backends.route(
                        old(self).catalog.current->0@,
                    ) == Some((q.backend, q.model@)) && q.prompt@ == TOPIC_PROMPT@ + recent_talk(
                        views(old(self).talk.messages@),
                    )
                    &&& final(self).jobs == (Jobs { research_topic: true, ..old(self).jobs })
                    &&& says(
                        old(self).screen,
                        final(self).screen,
                        "scoping a research topic from this chat…"@,
                    )
                },
            },
    {
        scope(
            &mut self.jobs,
            &mut self.screen,
            &self.backends,
            &self.catalog.current,
            &self.talk.messages,
        )
    }

    /// A topic came back, or why there is none.
    pub fn on_research_topic_derived(&mut self, result: Option<Result<String, String>>) -> (r:
        TopicStep)
        ensures
            *final(self) == (App {
                jobs: Jobs { research_topic: false, ..old(self).jobs },
                screen: final(self).screen,
                ..*old(self)
            }),
            topic_step(old(self).screen, final(self).screen, result, r),
    {
        self.jobs.research_topic = false;
        take_topic(&mut self.screen, result)
    }

    /// The first step towards a research job: whether it can start, and with
    /// which models.
    pub fn start_research(&mut self, topic: &str) -> (r: ResearchStart)
        ensures
            *final(self) == (App {
                login: final(self).login,
                research: final(self).research,
                screen: final(self).screen,
                ..*old(self)
            }),
            start_step(
                old(self).backends,
                old(self).config,
                old(self).jobs,
                (old(self).login, old(self).research, old(self).screen),
                (final(self).login, final(self).research, final(self).screen),
                topic@,
                r,
            ),
    {
        plan_start(
            &self.backends,
            &self.config,
            &self.jobs,
            &mut self.login,
            &mut self.research,
            &mut self.screen,
            topic,
        )
    }

    /// The rows that the new session of a job begins with.
    pub fn research_rows(&self, session_id: &str, topic: &str, parent_title: &Option<String>) -> (r:
        Vec<Effect>)
        requires
            self.talk.session matches Some(s) ==> 0 <= s.compact_through
                <= self.talk.messages@.len(),
        ensures
            views(r@) == start_rows(self.talk, session_id@, topic@, opt_text(*parent_title)),
    {
        rows_to_start(&self.talk, session_id, topic, parent_title)
    }

    /// The job starts in its session, or the session could not be created.
    /// `messages` is what the store holds of the session.
    pub fn start_research_with_gate(
        &mut self,
        topic: &str,
        gated: bool,
        created: Result<Session, String>,
        messages: Vec<Message>,
    ) -> (r: Vec<Effect>)
        ensures
            *final(self) == (App {
                research: final(self).research,
                jobs: final(self).jobs,
                talk: final(self).talk,
                screen: final(self).screen,
                ..*old(self)
            }),
            match created {
                Ok(session) => job_begun(
                    (old(self).research, old(self).jobs, old(self).talk, old(self).screen),
                    (final(self).research, final(self).jobs, final(self).talk, final(self).screen),
                    session,
                    messages,
                    topic@,
                    gated,
                    old(self).incognito,
                ) && views(r@) == seq![EffectView::RefreshToolbox],
                Err(e) => (final(self).research, final(self).jobs, final(self).talk) == (
                    old(self).research,
                    old(self).jobs,
                    old(self).talk,
                ) && says(
                    old(self).screen,
                    final(self).screen,
                    "could not start research session: "@ + e@,
                ) && views(r@) == Seq::<EffectView>::empty(),
            },
    {
        match created {
            Ok(session) => {
                begin_job(
                    &mut self.research,
                    &mut self.jobs,
                    &mut self.talk,
                    &mut self.screen,
                    session,
                    messages,
                    topic,
                    gated,
                    self.incognito,
                );
                one_effect(Effect::RefreshToolbox)
            },
            Err(e) => {
                self.screen.status = concat("could not start research session: ", e.as_str());
                no_effects()
            },
        }
    }
}

} // verus!
