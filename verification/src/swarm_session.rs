//! The swarm as the client sees it: its roster, its turns, and what their
//! updates change.

use crate::app::App;
use crate::backends::{Backend, Backends};
use crate::effects::{and_effect, no_effects, one_effect, Effect, EffectView};
use crate::history::{build_history, history, LinkedImage};
use crate::models::Feature;
use crate::ordering::{clamp_cursor, keep_in, kept_in, moved};
use crate::picks::{feature_route, resolved};
use crate::pipeline::concat;
use crate::provider::ChatMessage;
use crate::roundtable::SwarmUpdate;
use crate::sending::opt_message;
use crate::stages::with_stage_row;
use crate::state::{
    rows_are, says, Catalog, Conversation, Jobs, LoginPopup, PendingEditor, Screen, SkillsPopup,
    SwarmState,
};
use crate::store::{
    copied_roster, plain_row, Message, MessageView, Persona, PersonaView, Session,
};
use crate::swarm::{parse_persona_editor, persona_in};
use crate::text::{opt_text, same, trim, trimmed, views, views_push};
use crate::ui::{Popup, SwarmPopupMode};
use vstd::prelude::*;
use vstd::string::*;

verus! {

/// The personas that have a name.
pub open spec fn named_only(roster: Seq<PersonaView>) -> Seq<PersonaView>
    decreases roster.len(),
{
    if roster.len() == 0 {
        Seq::empty()
    } else {
        let before = named_only(roster.drop_last());
        if trim(roster.last().name).len() == 0 { before } else { before.push(roster.last()) }
    }
}

pub(crate) fn with_names(roster: &Vec<Persona>) -> (r: Vec<Persona>)
    ensures
        views(r@) == named_only(views(roster@)),
{
    let ghost all = views(roster@);
    let mut out: Vec<Persona> = Vec::new();
    let mut i: usize = 0;
    assert(all.take(0) =~= Seq::empty());
    assert(views(out@) =~= Seq::empty());
    while i < roster.len()
        invariant
            i <= roster@.len(),
            all == views(roster@),
            views(out@) == named_only(all.take(i as int)),
        decreases roster@.len() - i,
    {
        proof {
            let t = all.take(i + 1);
            assert(t.drop_last() =~= all.take(i as int));
            assert(t.last() == roster@[i as int]@);
        }
        if !trimmed(roster[i].name.as_str()).is_empty() {
            let p = roster[i].clone();
            proof {
                views_push(out@, p);
            }
            out.push(p);
        }
        i += 1;
    }
    assert(all.take(i as int) =~= all);
    out
}

/// The roster after an edit of the selected persona: the row takes the edit
/// over, or, where the edit does not read and the row has no name, goes away.
pub open spec fn edited_roster(
    roster: Seq<PersonaView>,
    selected: int,
    text: Seq<char>,
) -> Seq<PersonaView> {
    match persona_in(text) {
        Ok(p) => if selected < roster.len() {
            roster.update(selected, p)
        } else {
            roster
        },
        Err(_) => if selected < roster.len() && trim(roster[selected].name).len() == 0 {
            roster.remove(selected)
        } else {
            roster
        },
    }
}

/// Whether the edit of a persona has the roster stored.
pub open spec fn edit_stores(roster: Seq<PersonaView>, selected: int, text: Seq<char>) -> bool {
    persona_in(text) is Ok || (selected < roster.len() && trim(roster[selected].name).len() == 0)
}

/// What storing the roster changes: the rows without a name go, and, where it
/// worked, the cursor stays within the rest.
pub open spec fn roster_saved(
    after: SwarmState,
    before: SwarmState,
    roster: Seq<PersonaView>,
    worked: bool,
) -> bool {
    &&& after == (SwarmState { cache: after.cache, selected: after.selected, ..before })
    &&& views(after.cache@) == named_only(roster)
    &&& after.selected == (if worked {
        kept_in(before.selected as int, after.cache@.len() as int)
    } else {
        before.selected as int
    })
}

impl SwarmState {
    fn save_swarm_roster(&mut self, worked: bool)
        ensures
            roster_saved(*final(self), *old(self), views(old(self).cache@), worked),
    {
        self.cache = with_names(&self.cache);
        if worked {
            self.selected = keep_in(self.selected, self.cache.len());
        }
    }

    /// The roster that an edit of the selected persona has stored, if any.
    pub fn roster_to_store(&self, text: &str) -> (r: Option<Vec<Persona>>)
        ensures
            match r {
                Some(v) => edit_stores(views(self.cache@), self.selected as int, text@) && views(
                    v@,
                ) == named_only(edited_roster(views(self.cache@), self.selected as int, text@)),
                None => !edit_stores(views(self.cache@), self.selected as int, text@),
            },
    {
        let mut roster = copied_roster(&self.cache);
        let ghost all = views(self.cache@);
        match parse_persona_editor(text) {
            Ok(p) => {
                if self.selected < roster.len() {
                    roster.set(self.selected, p);
                    assert(views(roster@) =~= all.update(self.selected as int, p@));
                }
                Some(with_names(&roster))
            },
            Err(_) => {
                if self.selected < roster.len() && trimmed(
                    roster[self.selected].name.as_str(),
                ).is_empty() {
                    assert(all[self.selected as int] == self.cache@[self.selected as int]@);
                    let _gone = roster.remove(self.selected);
                    assert(views(roster@) =~= all.remove(self.selected as int));
                    Some(with_names(&roster))
                } else {
                    assert(self.selected < all.len() ==> all[self.selected as int]
                        == self.cache@[self.selected as int]@);
                    None
                }
            },
        }
    }

    fn take_edit(&mut self, screen: &mut Screen, text: &str, worked: bool)
        ensures
            edit_step(
                (*old(self), *old(screen)),
                (*final(self), *final(screen)),
                text@,
                worked,
            ),
    {
        let ghost all = views(self.cache@);
        match parse_persona_editor(text) {
            Ok(p) => {
                if self.selected < self.cache.len() {
                    self.cache.set(self.selected, p);
                    assert(views(self.cache@) =~= all.update(self.selected as int, p@));
                }
                self.save_swarm_roster(worked);
                if worked {
                    screen.status = "persona saved".to_owned();
                }
            },
            Err(e) => {
                if self.selected < self.cache.len() && trimmed(
                    self.cache[self.selected].name.as_str(),
                ).is_empty() {
                    assert(all[self.selected as int] == self.cache@[self.selected as int]@);
                    let _gone = self.cache.remove(self.selected);
                    assert(views(self.cache@) =~= all.remove(self.selected as int));
                    self.save_swarm_roster(worked);
                    if !worked {
                        return;
                    }
                } else {
                    assert(self.selected < all.len() ==> all[self.selected as int]
                        == self.cache@[self.selected as int]@);
                }
                screen.status = concat("persona edit ignored: ", e.as_str());
            },
        }
    }
}

/// What the edit of the selected persona changes of the swarm and the screen.
/// `worked` says whether the roster could be stored, where it had to be.
pub open spec fn edit_step(
    before: (SwarmState, Screen),
    after: (SwarmState, Screen),
    text: Seq<char>,
    worked: bool,
) -> bool {
    let roster = views(before.0.cache@);
    let selected = before.0.selected as int;
    let stores = edit_stores(roster, selected, text);
    &&& if stores {
        roster_saved(after.0, before.0, edited_roster(roster, selected, text), worked)
    } else {
        after.0 == before.0
    }
    &&& if stores && !worked {
        after.1 == before.1
    } else {
        says(
            before.1,
            after.1,
            match persona_in(text) {
                Ok(_) => "persona saved"@,
                Err(e) => "persona edit ignored: "@ + e,
            },
        )
    }
}

/// Whether a persona of the name is in the roster.
pub open spec fn has_persona(roster: Seq<PersonaView>, name: Seq<char>) -> bool {
    exists|i: int| 0 <= i < roster.len() && (#[trigger] roster[i]).name == name
}

fn persona_there(roster: &Vec<Persona>, name: &str) -> (r: bool)
    ensures
        r == has_persona(views(roster@), name@),
{
    let mut i: usize = 0;
    while i < roster.len()
        invariant
            i <= roster@.len(),
            forall|j: int| 0 <= j < i ==> (#[trigger] views(roster@)[j]).name != name@,
        decreases roster@.len() - i,
    {
        assert(views(roster@)[i as int] == roster@[i as int]@);
        if same(roster[i].name.as_str(), name) {
            return true;
        }
        i += 1;
    }
    false
}

/// The roster with a persona, once.
pub open spec fn joined_roster(roster: Seq<PersonaView>, p: PersonaView) -> Seq<PersonaView> {
    if has_persona(roster, p.name) { roster } else { roster.push(p) }
}

/// The row of a persona's reply.
pub open spec fn persona_row(persona: Seq<char>, model: Seq<char>, content: Seq<char>) -> MessageView {
    MessageView {
        model: Some(model),
        persona: Some(persona),
        ..plain_row("assistant"@, content)
    }
}

/// The row of what a turn comes to.
pub open spec fn synthesis_row(content: Seq<char>) -> MessageView {
    MessageView { phrase: Some("Discussed"@), ..plain_row("assistant"@, content) }
}

/// What an update of a swarm turn asks for. `stored` is the roster of the
/// session as it is stored.
pub open spec fn swarm_effects(
    session_id: Seq<char>,
    update: SwarmUpdate,
    stored: Seq<PersonaView>,
) -> Seq<EffectView> {
    match update {
        SwarmUpdate::RosterSuggested(v) => seq![
            EffectView::SaveRoster { session_id, personas: views(v@) },
        ],
        SwarmUpdate::Progress(s) => seq![
            EffectView::UpsertStage { session_id, label: "swarm"@, detail: s@ },
        ],
        SwarmUpdate::Reply { persona, model, content } => Seq::empty(),
        SwarmUpdate::PersonaJoined(p) => if has_persona(stored, p.name@) {
            Seq::empty()
        } else {
            seq![EffectView::SaveRoster { session_id, personas: stored.push(p@) }]
        },
        SwarmUpdate::Synthesis(s) => seq![
            EffectView::AddMessage { session_id, role: "assistant"@, content: s@ },
        ],
        SwarmUpdate::Error(e) => seq![
            EffectView::AddMessage { session_id, role: "error"@, content: "swarm: "@ + e@ },
        ],
    }
}

/// The rows of the conversation that is viewed after an update. A reply shows
/// where it could be stored, as `kept` says.
pub open spec fn swarm_rows(rows: Seq<MessageView>, update: SwarmUpdate, kept: bool) -> Seq<
    MessageView,
> {
    match update {
        SwarmUpdate::Progress(s) => with_stage_row(rows, "swarm"@, s@),
        SwarmUpdate::Reply { persona, model, content } => if kept {
            rows.push(persona_row(persona@, model@, content@))
        } else {
            rows
        },
        SwarmUpdate::Synthesis(s) => rows.push(synthesis_row(s@)),
        SwarmUpdate::Error(e) => rows.push(plain_row("error"@, "swarm: "@ + e@)),
        _ => rows,
    }
}

/// The roster of the session that is viewed after an update.
pub open spec fn swarm_roster(roster: Seq<PersonaView>, update: SwarmUpdate) -> Seq<PersonaView> {
    match update {
        SwarmUpdate::RosterSuggested(v) => views(v@),
        SwarmUpdate::PersonaJoined(p) => joined_roster(roster, p@),
        _ => roster,
    }
}

/// What the screen says after an update, where it says anything.
pub open spec fn swarm_words(update: SwarmUpdate) -> Option<Seq<char>> {
    match update {
        SwarmUpdate::RosterSuggested(_) => Some(
            "swarm: roster suggested — starting the conversation…"@,
        ),
        SwarmUpdate::Progress(s) => Some("swarm: "@ + s@),
        SwarmUpdate::Reply { persona, model, content } => None,
        SwarmUpdate::PersonaJoined(p) => Some(
            "swarm: "@ + p.name@ + " joined the conversation"@,
        ),
        SwarmUpdate::Synthesis(_) => Some("swarm turn complete"@),
        SwarmUpdate::Error(e) => Some("swarm error: "@ + e@),
    }
}

/// What an update of a swarm turn, or its end, changes of the swarm, the jobs,
/// the conversation and the screen.
pub open spec fn swarm_step(
    before: (SwarmState, Jobs, Conversation, Screen),
    after: (SwarmState, Jobs, Conversation, Screen),
    effects: Seq<EffectView>,
    msg: Option<(String, SwarmUpdate)>,
    kept: bool,
    stored: Seq<PersonaView>,
) -> bool {
    let (swarm, jobs, talk, screen) = before;
    match msg {
        None => {
            &&& after == (
                SwarmState { session: None, ..swarm },
                Jobs { swarm: false, ..jobs },
                talk,
                screen,
            )
            &&& effects == Seq::<EffectView>::empty()
        },
        Some((id, update)) => {
            &&& after.1 == jobs
            &&& effects == (if update is Synthesis && talk.is_of(id@) {
                swarm_effects(id@, update, stored).push(
                    EffectView::FollowUp { rows: (talk.messages@.len() + 1) as u64 },
                )
            } else {
                swarm_effects(id@, update, stored)
            })
            &&& if talk.is_of(id@) {
                &&& after.0 == (SwarmState { cache: after.0.cache, ..swarm })
                &&& views(after.0.cache@) == swarm_roster(views(swarm.cache@), update)
                &&& rows_are(talk, after.2, swarm_rows(views(talk.messages@), update, kept))
                &&& match swarm_words(update) {
                    Some(words) => says(screen, after.3, words),
                    None => after.3 == screen,
                }
            } else {
                (after.0, after.2, after.3) == (swarm, talk, screen)
            }
        },
    }
}

fn effects_of_update(
    session_id: &str,
    update: &SwarmUpdate,
    stored: &Vec<Persona>,
) -> (r: Vec<Effect>)
    ensures
        views(r@) == swarm_effects(session_id@, *update, views(stored@)),
{
    match update {
        SwarmUpdate::RosterSuggested(v) => one_effect(
            Effect::SaveRoster { session_id: session_id.to_owned(), personas: copied_roster(v) },
        ),
        SwarmUpdate::Progress(s) => one_effect(
            Effect::UpsertStage {
                session_id: session_id.to_owned(),
                label: "swarm".to_owned(),
                detail: s.clone(),
            },
        ),
        SwarmUpdate::Reply { persona: _, model: _, content: _ } => no_effects(),
        SwarmUpdate::PersonaJoined(p) => {
            if persona_there(stored, p.name.as_str()) {
                return no_effects();
            }
            let mut roster = copied_roster(stored);
            let row = p.clone();
            proof {
                views_push(roster@, row);
            }
            roster.push(row);
            one_effect(
                Effect::SaveRoster { session_id: session_id.to_owned(), personas: roster },
            )
        },
        SwarmUpdate::Synthesis(s) => one_effect(
            Effect::AddMessage {
                session_id: session_id.to_owned(),
                role: "assistant".to_owned(),
                content: s.clone(),
            },
        ),
        SwarmUpdate::Error(e) => one_effect(
            Effect::AddMessage {
                session_id: session_id.to_owned(),
                role: "error".to_owned(),
                content: concat("swarm: ", e.as_str()),
            },
        ),
    }
}

fn show_update(
    swarm: &mut SwarmState,
    talk: &mut Conversation,
    screen: &mut Screen,
    update: SwarmUpdate,
    kept: bool,
)
    ensures
        *final(swarm) == (SwarmState { cache: final(swarm).cache, ..*old(swarm) }),
        views(final(swarm).cache@) == swarm_roster(views(old(swarm).cache@), update),
        rows_are(
            *old(talk),
            *final(talk),
            swarm_rows(views(old(talk).messages@), update, kept),
        ),
        match swarm_words(update) {
            Some(words) => says(*old(screen), *final(screen), words),
            None => *final(screen) == *old(screen),
        },
{
    match update {
        SwarmUpdate::RosterSuggested(v) => {
            swarm.cache = v;
            screen.status = "swarm: roster suggested — starting the conversation…".to_owned();
        },
        SwarmUpdate::Progress(s) => {
            talk.show_stage("swarm", s.as_str());
            screen.status = concat("swarm: ", s.as_str());
        },
        SwarmUpdate::Reply { persona, model, content } => {
            if kept {
                let mut row = Message::plain("assistant", content);
                row.model = Some(model);
                row.persona = Some(persona);
                talk.add_row(row);
            }
        },
        SwarmUpdate::PersonaJoined(p) => {
            let mut s = "swarm: ".to_owned();
            s.append(p.name.as_str());
            s.append(" joined the conversation");
            screen.status = s;
            if !persona_there(&swarm.cache, p.name.as_str()) {
                proof {
                    views_push(swarm.cache@, p);
                }
                swarm.cache.push(p);
            }
        },
        SwarmUpdate::Synthesis(s) => {
            let mut row = Message::plain("assistant", s);
            row.phrase = Some("Discussed".to_owned());
            talk.add_row(row);
            screen.status = "swarm turn complete".to_owned();
        },
        SwarmUpdate::Error(e) => {
            talk.add_row(Message::plain("error", concat("swarm: ", e.as_str())));
            screen.status = concat("swarm error: ", e.as_str());
        },
    }
}

fn take_swarm_update(
    swarm: &mut SwarmState,
    jobs: &mut Jobs,
    talk: &mut Conversation,
    screen: &mut Screen,
    msg: Option<(String, SwarmUpdate)>,
    kept: bool,
    stored: &Vec<Persona>,
) -> (r: Vec<Effect>)
    ensures
        swarm_step(
            (*old(swarm), *old(jobs), *old(talk), *old(screen)),
            (*final(swarm), *final(jobs), *final(talk), *final(screen)),
            views(r@),
            msg,
            kept,
            views(stored@),
        ),
{
    match msg {
        None => {
            jobs.swarm = false;
            swarm.session = None;
            no_effects()
        },
        Some((id, update)) => {
            let r = effects_of_update(id.as_str(), &update, stored);
            if !talk.views_session(id.as_str()) {
                return r;
            }
            let sums_up = match &update {
                SwarmUpdate::Synthesis(_) => true,
                _ => false,
            };
            show_update(swarm, talk, screen, update, kept);
            assert(views(talk.messages@).len() == talk.messages@.len());
            assert(views(old(talk).messages@).len() == old(talk).messages@.len());
            if sums_up {
                and_effect(r, Effect::FollowUp { rows: talk.messages.len() as u64 })
            } else {
                r
            }
        },
    }
}

/// A turn of the swarm that is to run: the session and its roster, the backend
/// and the model of personas without one and of the moderator, the active
/// model's id, what the user said, and what goes before it.
pub struct SwarmTurnOptions {
    pub session_id: String,
    pub personas: Vec<Persona>,
    pub default_model: String,
    pub default: (Backend, String),
    pub meta: (Backend, String),
    pub user_message: String,
    pub history: Vec<ChatMessage>,
}

/// What a turn takes from outside: the roster of the session as it is stored,
/// and for its history the system prompt, the images of the space, the text of
/// the skill that was armed and the linked images that can be read.
pub struct TurnInputs {
    pub personas: Vec<Persona>,
    pub prompt: String,
    pub images: Option<ChatMessage>,
    pub body: String,
    pub known: Vec<LinkedImage>,
}

/// The last thing that was said.
pub open spec fn last_said(rows: Seq<MessageView>) -> Seq<char> {
    if rows.len() == 0 { Seq::empty() } else { rows.last().content }
}

/// The parts of the state that the start of a turn changes.
pub struct TurnParts {
    pub login: LoginPopup,
    pub skills: SkillsPopup,
    pub jobs: Jobs,
    pub swarm: SwarmState,
    pub screen: Screen,
}

/// What the start of a turn changes, and which turn is to run: none without a
/// session or while one runs, and the login popup where the active model has
/// no backend.
pub open spec fn turn_start(
    backends: Backends,
    catalog: Catalog,
    research_model: Seq<char>,
    talk: Conversation,
    before: TurnParts,
    after: TurnParts,
    r: Option<SwarmTurnOptions>,
    i: TurnInputs,
) -> bool {
    let model = match catalog.current {
        Some(m) => m@,
        None => Seq::empty(),
    };
    match talk.session {
        None => r is None && after == before,
        Some(s) => if before.jobs.swarm {
            &&& r is None
            &&& after == (TurnParts { screen: after.screen, ..before })
            &&& says(before.screen, after.screen, "a swarm turn is already running"@)
        } else {
            match backends.route(model) {
                None => {
                    &&& r is None
                    &&& after == (TurnParts {
                        login: LoginPopup { selected: 0, ..before.login },
                        screen: Screen { popup: Popup::Login, ..before.screen },
                        ..before
                    })
                },
                Some(route) => {
                    &&& after == (TurnParts {
                        skills: SkillsPopup { forced: None, ..before.skills },
                        jobs: Jobs { swarm: true, ..before.jobs },
                        swarm: after.swarm,
                        screen: after.screen,
                        ..before
                    })
                    &&& after.swarm == (SwarmState {
                        session: after.swarm.session,
                        ..before.swarm
                    }) && opt_text(after.swarm.session) == Some(s.id@)
                    &&& says(before.screen, after.screen, "swarm: starting…"@)
                    &&& r matches Some(q) && q.session_id@ == s.id@ && q.personas == i.personas
                        && q.default_model@ == model
                        && (q.default.0, q.default.1@) == route && (q.meta.0, q.meta.1@) == (
                    match feature_route(backends, catalog, research_model, Feature::Research) {
                        Some(p) => p,
                        None => route,
                    }) && q.user_message@ == last_said(views(talk.messages@)) && views(q.history@)
                        == history(
                        talk,
                        before.skills,
                        i.prompt@,
                        opt_message(i.images),
                        catalog.sees_images(),
                        i.body@,
                        i.known@,
                    )
                },
            }
        },
    }
}

fn last_said_of(messages: &Vec<Message>) -> (r: String)
    ensures
        r@ == last_said(views(messages@)),
{
    if messages.len() == 0 {
        assert(views(messages@).len() == 0);
        String::new()
    } else {
        let n: usize = messages.len() - 1;
        assert(views(messages@).last() == messages@[n as int]@);
        messages[n].content.clone()
    }
}

fn begin_turn(
    backends: &Backends,
    catalog: &Catalog,
    meta: Option<(Backend, String)>,
    talk: &Conversation,
    login: &mut LoginPopup,
    skills: &mut SkillsPopup,
    jobs: &mut Jobs,
    swarm: &mut SwarmState,
    screen: &mut Screen,
    i: TurnInputs,
    Ghost(research_model): Ghost<Seq<char>>,
) -> (r: Option<SwarmTurnOptions>)
    requires
        resolved(meta) == feature_route(*backends, *catalog, research_model, Feature::Research),
    ensures
        turn_start(
            *backends,
            *catalog,
            research_model,
            *talk,
            (TurnParts {
                login: *old(login),
                skills: *old(skills),
                jobs: *old(jobs),
                swarm: *old(swarm),
                screen: *old(screen),
            }),
            (TurnParts {
                login: *final(login),
                skills: *final(skills),
                jobs: *final(jobs),
                swarm: *final(swarm),
                screen: *final(screen),
            }),
            r,
            i,
        ),
{
    let id = match &talk.session {
        Some(s) => s.id.clone(),
        None => {
            return None;
        },
    };
    if jobs.swarm {
        screen.status = "a swarm turn is already running".to_owned();
        return None;
    }
    let model = match &catalog.current {
        Some(m) => m.clone(),
        None => String::new(),
    };
    let default = match backends.resolve(model.as_str()) {
        Some(p) => p,
        None => {
            login.selected = 0;
            screen.popup = Popup::Login;
            return None;
        },
    };
    let meta = match meta {
        Some(p) => p,
        None => (default.0.clone(), default.1.clone()),
    };
    let messages = build_history(
        talk,
        skills,
        i.prompt,
        i.images,
        catalog.current_model_supports_images(),
        i.body.as_str(),
        &i.known,
    );
    jobs.swarm = true;
    screen.status = "swarm: starting…".to_owned();
    swarm.session = Some(id.clone());
    Some(
        SwarmTurnOptions {
            session_id: id,
            personas: i.personas,
            default_model: model,
            default,
            meta,
            user_message: last_said_of(&talk.messages),
            history: messages,
        },
    )
}

/// What stopping the swarm changes of the swarm, the jobs and the screen, and
/// what it asks for.
pub open spec fn swarm_stopped(
    before: (SwarmState, Jobs, Screen),
    after: (SwarmState, Jobs, Screen),
    effects: Seq<EffectView>,
) -> bool {
    let (swarm, jobs, screen) = before;
    let abort = seq![EffectView::AbortSwarm];
    if jobs.swarm {
        &&& after.0 == (SwarmState { session: None, ..swarm })
        &&& after.1 == (Jobs { swarm: false, ..jobs })
        &&& after.2 == (Screen { status: after.2.status, popup: Popup::Closed, ..screen })
        &&& after.2.status@ == "swarm stopped"@
        &&& effects == (match swarm.session {
            Some(id) => abort.push(
                EffectView::UpsertStage {
                    session_id: id@,
                    label: "swarm"@,
                    detail: "stopped by user"@,
                },
            ),
            None => abort,
        })
    } else {
        &&& after.0 == swarm && after.1 == jobs
        &&& says(screen, after.2, "no swarm is running"@)
        &&& effects == abort
    }
}

fn stop_turn(swarm: &mut SwarmState, jobs: &mut Jobs, screen: &mut Screen) -> (r: Vec<Effect>)
    ensures
        swarm_stopped(
            (*old(swarm), *old(jobs), *old(screen)),
            (*final(swarm), *final(jobs), *final(screen)),
            views(r@),
        ),
{
    let mut r = one_effect(Effect::AbortSwarm);
    if jobs.swarm {
        jobs.swarm = false;
        if let Some(id) = &swarm.session {
            r =
            and_effect(
                r,
                Effect::UpsertStage {
                    session_id: id.clone(),
                    label: "swarm".to_owned(),
                    detail: "stopped by user".to_owned(),
                },
            );
        }
        swarm.session = None;
        screen.status = "swarm stopped".to_owned();
        screen.popup = Popup::Closed;
    } else {
        screen.status = "no swarm is running".to_owned();
    }
    r
}

/// What opening the editor for a persona changes of the swarm and the screen.
/// `path` is the file that the persona was written to, where it could be.
pub open spec fn editor_step(
    before: (SwarmState, Screen),
    after: (SwarmState, Screen),
    new: bool,
    model: Seq<char>,
    path: Option<String>,
) -> bool {
    let (swarm, screen) = before;
    let roster = if new {
        views(swarm.cache@).push(
            PersonaView { name: Seq::empty(), model, blurb: Seq::empty() },
        )
    } else {
        views(swarm.cache@)
    };
    let selected = if new { swarm.cache@.len() as int } else { swarm.selected as int };
    &&& after.0 == (SwarmState {
        cache: after.0.cache,
        selected: after.0.selected,
        mode: after.0.mode,
        ..swarm
    })
    &&& views(after.0.cache@) == roster && after.0.selected == selected
    &&& match path {
        Some(p) if selected < roster.len() => {
            &&& after.0.mode == SwarmPopupMode::Browse
            &&& after.1 == (Screen {
                pending_editor: Some(PendingEditor::Persona(p)),
                status: after.1.status,
                ..screen
            })
            &&& after.1.status@ == "opening persona in $EDITOR…"@
        },
        _ => after.0.mode == swarm.mode && after.1 == screen,
    }
}

fn queue_editor(
    swarm: &mut SwarmState,
    screen: &mut Screen,
    new: bool,
    model: &str,
    path: Option<String>,
)
    ensures
        editor_step(
            (*old(swarm), *old(screen)),
            (*final(swarm), *final(screen)),
            new,
            model@,
            path,
        ),
{
    if new {
        let p = Persona { name: String::new(), model: model.to_owned(), blurb: String::new() };
        proof {
            views_push(swarm.cache@, p);
        }
        swarm.cache.push(p);
        swarm.selected = swarm.cache.len() - 1;
    }
    assert(views(swarm.cache@).len() == swarm.cache@.len());
    if swarm.selected >= swarm.cache.len() {
        return;
    }
    if let Some(p) = path {
        swarm.mode = SwarmPopupMode::Browse;
        screen.pending_editor = Some(PendingEditor::Persona(p));
        screen.status = "opening persona in $EDITOR…".to_owned();
    }
}

fn flip_swarm_mode(talk: &mut Conversation, screen: &mut Screen, stored: bool)
    ensures
        match old(talk).session {
            None => *final(talk) == *old(talk) && *final(screen) == *old(screen),
            Some(s) => {
                &&& *final(talk) == (Conversation {
                    session: Some(Session { swarm_mode: !s.swarm_mode, ..s }),
                    ..*old(talk)
                })
                &&& if stored {
                    says(
                        *old(screen),
                        *final(screen),
                        if s.swarm_mode {
                            "swarm mode: OFF"@
                        } else {
                            "swarm mode: ON"@
                        },
                    )
                } else {
                    *final(screen) == *old(screen)
                }
            },
        },
{
    if let Some(s) = &mut talk.session {
        s.swarm_mode = !s.swarm_mode;
        if stored {
            screen.status = if s.swarm_mode {
                "swarm mode: ON".to_owned()
            } else {
                "swarm mode: OFF".to_owned()
            };
        }
    }
}

impl App {
    /// Opens the swarm popup on the roster of the session, which is `list`.
    pub fn open_swarm_popup(&mut self, list: Vec<Persona>)
        ensures
            *final(self) == (App {
                swarm: final(self).swarm,
                screen: final(self).screen,
                ..*old(self)
            }),
            if old(self).talk.session is None {
                final(self).swarm == old(self).swarm && says(
                    old(self).screen,
                    final(self).screen,
                    "start a chat first, then /swarm"@,
                )
            } else {
                final(self).swarm == (SwarmState {
                    cache: list,
                    selected: 0,
                    mode: SwarmPopupMode::Browse,
                    ..old(self).swarm
                }) && final(self).screen == (Screen { popup: Popup::Swarm, ..old(self).screen })
            },
    {
        if self.talk.session.is_none() {
            self.screen.status = "start a chat first, then /swarm".to_owned();
            return;
        }
        self.swarm.cache = list;
        self.swarm.selected = 0;
        self.swarm.mode = SwarmPopupMode::Browse;
        self.screen.popup = Popup::Swarm;
    }

    /// Moves the cursor of the roster.
    pub fn move_swarm_selection(&mut self, delta: i32)
        ensures
            *final(self) == (App {
                swarm: SwarmState {
                    selected: moved(
                        old(self).swarm.selected as int,
                        old(self).swarm.cache@.len() as int,
                        delta as int,
                    ) as usize,
                    ..old(self).swarm
                },
                ..*old(self)
            }),
    {
        self.swarm.selected = clamp_cursor(self.swarm.selected, self.swarm.cache.len(), delta);
    }

    /// Turns swarm mode on or off for the session. `stored` says whether that
    /// could be stored (see `swarm_mode_to_store`).
    pub fn toggle_swarm_mode(&mut self, stored: bool)
        ensures
            *final(self) == (App {
                talk: final(self).talk,
                screen: final(self).screen,
                ..*old(self)
            }),
            match old(self).talk.session {
                None => final(self).talk == old(self).talk && final(self).screen == old(
                    self,
                ).screen,
                Some(s) => {
                    &&& final(self).talk == (Conversation {
                        session: Some(Session { swarm_mode: !s.swarm_mode, ..s }),
                        ..old(self).talk
                    })
                    &&& if stored {
                        says(
                            old(self).screen,
                            final(self).screen,
                            if s.swarm_mode {
                                "swarm mode: OFF"@
                            } else {
                                "swarm mode: ON"@
                            },
                        )
                    } else {
                        final(self).screen == old(self).screen
                    }
                },
            },
    {
        flip_swarm_mode(&mut self.talk, &mut self.screen, stored);
    }

    /// Has the selected persona, or a new one, opened in the user's editor.
    pub fn queue_swarm_persona_editor(&mut self, new: bool, path: Option<String>)
        ensures
            *final(self) == (App {
                swarm: final(self).swarm,
                screen: final(self).screen,
                ..*old(self)
            }),
            editor_step(
                (old(self).swarm, old(self).screen),
                (final(self).swarm, final(self).screen),
                new,
                match old(self).catalog.current {
                    Some(m) => m@,
                    None => Seq::empty(),
                },
                path,
            ),
    {
        let model = match &self.catalog.current {
            Some(m) => m.clone(),
            None => String::new(),
        };
        queue_editor(&mut self.swarm, &mut self.screen, new, model.as_str(), path);
    }

    /// Takes an edited persona over. `stored` says whether the roster could be
    /// stored (see `SwarmState::roster_to_store`).
    pub fn apply_swarm_persona_editor(&mut self, text: &str, stored: bool)
        ensures
            *final(self) == (App {
                swarm: final(self).swarm,
                screen: final(self).screen,
                ..*old(self)
            }),
            edit_step(
                (old(self).swarm, old(self).screen),
                (final(self).swarm, final(self).screen),
                text@,
                stored || old(self).talk.session is None,
            ),
    {
        let worked = stored || self.talk.session.is_none();
        self.swarm.take_edit(&mut self.screen, text, worked);
    }

    /// Removes the selected persona. `stored` says whether the roster could be
    /// stored (see `roster_after_removal`).
    pub fn swarm_remove_row(&mut self, stored: bool)
        ensures
            *final(self) == (App { swarm: final(self).swarm, ..*old(self) }),
            roster_saved(
                final(self).swarm,
                (SwarmState { mode: SwarmPopupMode::Browse, ..old(self).swarm }),
                roster_without(views(old(self).swarm.cache@), old(self).swarm.selected as int),
                stored || old(self).talk.session is None,
            ),
    {
        let worked = stored || self.talk.session.is_none();
        self.swarm.drop_selected(worked);
    }

    /// Starts a turn of the swarm on what was just said.
    pub fn start_swarm_turn(&mut self, i: TurnInputs) -> (r: Option<SwarmTurnOptions>)
        ensures
            *final(self) == (App {
                login: final(self).login,
                skills: final(self).skills,
                jobs: final(self).jobs,
                swarm: final(self).swarm,
                screen: final(self).screen,
                ..*old(self)
            }),
            turn_start(
                old(self).backends,
                old(self).catalog,
                old(self).config.research_model@,
                old(self).talk,
                (TurnParts {
                    login: old(self).login,
                    skills: old(self).skills,
                    jobs: old(self).jobs,
                    swarm: old(self).swarm,
                    screen: old(self).screen,
                }),
                (TurnParts {
                    login: final(self).login,
                    skills: final(self).skills,
                    jobs: final(self).jobs,
                    swarm: final(self).swarm,
                    screen: final(self).screen,
                }),
                r,
                i,
            ),
    {
        let meta = self.resolve_feature_model_backend(
            self.config.research_model.as_str(),
            Feature::Research,
        );
        begin_turn(
            &self.backends,
            &self.catalog,
            meta,
            &self.talk,
            &mut self.login,
            &mut self.skills,
            &mut self.jobs,
            &mut self.swarm,
            &mut self.screen,
            i,
            Ghost(self.config.research_model@),
        )
    }

    /// Stops the turn that runs.
    pub fn stop_swarm(&mut self) -> (r: Vec<Effect>)
        ensures
            *final(self) == (App {
                swarm: final(self).swarm,
                jobs: final(self).jobs,
                screen: final(self).screen,
                ..*old(self)
            }),
            swarm_stopped(
                (old(self).swarm, old(self).jobs, old(self).screen),
                (final(self).swarm, final(self).jobs, final(self).screen),
                views(r@),
            ),
    {
        stop_turn(&mut self.swarm, &mut self.jobs, &mut self.screen)
    }

    /// Takes an update of the turn that runs, or its end. A reply is stored
    /// before (see `reply_to_store`), and `kept` says whether that worked;
    /// `stored` is the roster of the session as it is stored.
    pub fn on_swarm_update(
        &mut self,
        msg: Option<(String, SwarmUpdate)>,
        kept: bool,
        stored: &Vec<Persona>,
    ) -> (r: Vec<Effect>)
        ensures
            *final(self) == (App {
                swarm: final(self).swarm,
                jobs: final(self).jobs,
                talk: final(self).talk,
                screen: final(self).screen,
                ..*old(self)
            }),
            swarm_step(
                (old(self).swarm, old(self).jobs, old(self).talk, old(self).screen),
                (final(self).swarm, final(self).jobs, final(self).talk, final(self).screen),
                views(r@),
                msg,
                kept,
                views(stored@),
            ),
    {
        take_swarm_update(
            &mut self.swarm,
            &mut self.jobs,
            &mut self.talk,
            &mut self.screen,
            msg,
            kept,
            stored,
        )
    }
}

/// The roster without the selected persona.
pub open spec fn roster_without(roster: Seq<PersonaView>, selected: int) -> Seq<PersonaView> {
    if selected < roster.len() { roster.remove(selected) } else { roster }
}

impl SwarmState {
    fn drop_selected(&mut self, worked: bool)
        ensures
            roster_saved(
                *final(self),
                (SwarmState { mode: SwarmPopupMode::Browse, ..*old(self) }),
                roster_without(views(old(self).cache@), old(self).selected as int),
                worked,
            ),
    {
        let ghost all = views(self.cache@);
        if self.selected < self.cache.len() {
            let _gone = self.cache.remove(self.selected);
            assert(views(self.cache@) =~= all.remove(self.selected as int));
        }
        self.mode = SwarmPopupMode::Browse;
        self.save_swarm_roster(worked);
    }
}

/// A reply that could not be stored never shows, and one of a session that is
/// not viewed changes nothing on the screen.
pub proof fn unstored_reply_never_shows(
    before: (SwarmState, Jobs, Conversation, Screen),
    after: (SwarmState, Jobs, Conversation, Screen),
    effects: Seq<EffectView>,
    id: String,
    update: SwarmUpdate,
    kept: bool,
    stored: Seq<PersonaView>,
)
    requires
        update is Reply,
        !kept || !before.2.is_of(id@),
        swarm_step(before, after, effects, Some((id, update)), kept, stored),
    ensures
        views(after.2.messages@) == views(before.2.messages@),
        after.3 == before.3,
{
}

/// Whether no two personas share a name.
pub open spec fn names_differ(roster: Seq<PersonaView>) -> bool {
    forall|i: int, j: int|
        0 <= i < j < roster.len() ==> (#[trigger] roster[i]).name != (#[trigger] roster[j]).name
}

/// A persona that joins a roster without namesakes leaves it without namesakes,
/// and is in it.
pub proof fn joining_makes_no_namesakes(roster: Seq<PersonaView>, p: PersonaView)
    requires
        names_differ(roster),
    ensures
        names_differ(joined_roster(roster, p)),
        has_persona(joined_roster(roster, p), p.name),
{
    let after = joined_roster(roster, p);
    if !has_persona(roster, p.name) {
        assert(after[roster.len() as int].name == p.name);
    }
}

} // verus!
