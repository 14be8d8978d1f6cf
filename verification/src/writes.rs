//! What is written before a change is made. Where a write can fail, the client
//! changes only once it came out well; here stands what each change has
//! written, and when.

use crate::app::App;
use crate::effects::{no_effects, one_effect, Effect, EffectView};
use crate::modes::{cited, source_under, Citation};
use crate::picks::{setting_name, setting_of};
use crate::roundtable::SwarmUpdate;
use crate::state::{FilesPopup, ImagesPopup, DEFAULT_SPACE};
use crate::store::{copied_roster, Message, MessageView, Persona, Space};
use crate::swarm_session::{named_only, persona_row, roster_without, with_names};
use crate::text::{opt_text, same, trim, trimmed, views};
use crate::ui::ModelPickTarget;
use vstd::prelude::*;
use vstd::string::*;

verus! {

/// The write that clears a model of the settings.
pub fn cleared_model(t: ModelPickTarget) -> (r: Vec<Effect>)
    requires
        !(t is Session) && !(t is SwarmPersona),
    ensures
        views(r@) == seq![EffectView::SetSetting { key: setting_of(t), value: Seq::empty() }],
{
    one_effect(Effect::SetSetting { key: setting_name(t).to_owned(), value: String::new() })
}

/// The row that is stored of an update of a swarm turn before it shows: that of
/// a persona's reply.
pub open spec fn reply_stored(update: SwarmUpdate) -> Option<MessageView> {
    match update {
        SwarmUpdate::Reply { persona, model, content } => Some(
            persona_row(persona@, model@, content@),
        ),
        _ => None,
    }
}

/// The row that is to be stored of an update of a swarm turn before it shows.
pub fn reply_to_store(update: &SwarmUpdate) -> (r: Option<Message>)
    ensures
        match r {
            Some(m) => reply_stored(*update) == Some(m@),
            None => reply_stored(*update) is None,
        },
{
    match update {
        SwarmUpdate::Reply { persona, model, content } => {
            let mut m = Message::plain("assistant", content.clone());
            m.model = Some(model.clone());
            m.persona = Some(persona.clone());
            Some(m)
        },
        _ => None,
    }
}

impl FilesPopup {
    /// The file that is to be deleted when the user confirms it.
    pub fn file_to_delete(&self) -> (r: Option<(String, String)>)
        ensures
            match r {
                Some(p) => self.selected < self.cache@.len() && p.0@
                    == self.cache@[self.selected as int].id@ && p.1@
                    == self.cache@[self.selected as int].name@,
                None => self.selected >= self.cache@.len(),
            },
    {
        if self.selected < self.cache.len() {
            Some((self.cache[self.selected].id.clone(), self.cache[self.selected].name.clone()))
        } else {
            None
        }
    }
}

impl ImagesPopup {
    /// The image that is to be deleted when the user confirms it.
    pub fn image_to_delete(&self) -> (r: Option<String>)
        ensures
            opt_text(r) == (if self.selected < self.cache@.len() {
                Some(self.cache@[self.selected as int].name@)
            } else {
                None
            }),
    {
        if self.selected < self.cache.len() {
            Some(self.cache[self.selected].name.clone())
        } else {
            None
        }
    }
}

impl App {
    /// The write that renames the session under the cursor: none for a blank
    /// title.
    pub fn session_rename(&self, scores: &Vec<Option<i32>>) -> (r: Vec<Effect>)
        requires
            self.sessions.fits(scores@),
        ensures
            views(r@) == (match self.sessions.row(scores@) {
                Some(i) if trim(self.sessions.edit@).len() > 0 => seq![
                    EffectView::SetSessionTitle {
                        session_id: self.sessions.cache@[i].id@,
                        title: trim(self.sessions.edit@),
                        slug: None,
                    },
                ],
                _ => Seq::<EffectView>::empty(),
            }),
    {
        let title = trimmed(self.sessions.edit.as_str());
        match self.sessions.selected_session(scores) {
            Some(s) if !title.is_empty() => one_effect(
                Effect::SetSessionTitle { session_id: s.id, title: title.to_owned(), slug: None },
            ),
            _ => no_effects(),
        }
    }

    /// The session that is to be deleted when the user confirms it.
    pub fn session_to_delete(&self, scores: &Vec<Option<i32>>) -> (r: Option<String>)
        requires
            self.sessions.fits(scores@),
        ensures
            opt_text(r) == (match self.sessions.row(scores@) {
                Some(i) => Some(self.sessions.cache@[i].id@),
                None => None,
            }),
    {
        match self.sessions.selected_session(scores) {
            Some(s) => Some(s.id),
            None => None,
        }
    }

    /// The space that is to be renamed when the user confirms it, by its id and
    /// its name, and its new name: none for a blank name.
    pub fn space_to_rename(&self, scores: &Vec<Option<i32>>) -> (r: Option<(Space, String)>)
        requires
            self.spaces.fits(scores@),
        ensures
            match r {
                Some(p) => self.spaces.row(scores@) matches Some(i) && p.0
                    == self.spaces.cache@[i] && p.1@ == trim(self.spaces.edit@) && p.1@.len() > 0,
                None => self.spaces.row(scores@) is None || trim(self.spaces.edit@).len() == 0,
            },
    {
        let name = trimmed(self.spaces.edit.as_str());
        match self.spaces.selected_space(scores) {
            Some(s) if !name.is_empty() => Some((s, name.to_owned())),
            _ => None,
        }
    }

    /// The space that is to be deleted when the user confirms it; the default
    /// space never is.
    pub fn space_to_delete(&self, scores: &Vec<Option<i32>>) -> (r: Option<Space>)
        requires
            self.spaces.fits(scores@),
        ensures
            match r {
                Some(s) => self.spaces.row(scores@) matches Some(i) && s == self.spaces.cache@[i]
                    && s.name@ != DEFAULT_SPACE@,
                None => match self.spaces.row(scores@) {
                    Some(i) => self.spaces.cache@[i].name@ == DEFAULT_SPACE@,
                    None => true,
                },
            },
    {
        match self.spaces.selected_space(scores) {
            Some(s) if !same(s.name.as_str(), DEFAULT_SPACE) => Some(s),
            _ => None,
        }
    }

    /// The write that gives the focused model its next reasoning effort, where
    /// it has any.
    pub fn next_effort_write(&self) -> (r: Vec<Effect>)
        requires
            self.wf(),
        ensures
            views(r@) == (match self.catalog.focused() {
                Some(id) if self.catalog.reasons(id) => seq![
                    EffectView::SetReasoning { model: id, effort: self.catalog.effort_after(id) },
                ],
                _ => Seq::<EffectView>::empty(),
            }),
    {
        match self.catalog.focused_id() {
            Some(id) if self.catalog.model_supports_reasoning(id.as_str()) => {
                let effort = match self.catalog.next_effort(id.as_str()) {
                    Some(e) => Some(e.to_owned()),
                    None => None,
                };
                one_effect(Effect::SetReasoning { model: id, effort })
            },
            _ => no_effects(),
        }
    }

    /// Whether swarm mode is to be stored as on or off when it is toggled, and
    /// for which session.
    pub fn swarm_mode_to_store(&self) -> (r: Option<(String, bool)>)
        ensures
            match r {
                Some(p) => self.talk.session matches Some(s) && p.0@ == s.id@ && p.1
                    == !s.swarm_mode,
                None => self.talk.session is None,
            },
    {
        match &self.talk.session {
            Some(s) => Some((s.id.clone(), !s.swarm_mode)),
            None => None,
        }
    }

    /// The write of the roster that the removal of the selected persona leaves:
    /// none without a session.
    pub fn roster_after_removal(&self) -> (r: Vec<Effect>)
        ensures
            views(r@) == (match self.talk.session {
                Some(s) => seq![
                    EffectView::SaveRoster {
                        session_id: s.id@,
                        personas: named_only(
                            roster_without(views(self.swarm.cache@), self.swarm.selected as int),
                        ),
                    },
                ],
                None => Seq::<EffectView>::empty(),
            }),
    {
        match &self.talk.session {
            Some(s) => {
                let ghost all = views(self.swarm.cache@);
                let mut roster: Vec<Persona> = copied_roster(&self.swarm.cache);
                if self.swarm.selected < roster.len() {
                    let _gone = roster.remove(self.swarm.selected);
                    assert(views(roster@) =~= all.remove(self.swarm.selected as int));
                }
                one_effect(
                    Effect::SaveRoster { session_id: s.id.clone(), personas: with_names(&roster) },
                )
            },
            None => no_effects(),
        }
    }

    /// The source whose flag is to be stored, and the session.
    pub fn source_to_flag(&self, c: &Citation) -> (r: Option<(String, String)>)
        ensures
            match r {
                Some(p) => self.talk.session matches Some(s) && p.0@ == s.id@ && (cited(
                    *c,
                    self.talk,
                ) matches Ok(q) && q.1 == p.1@),
                None => cited(*c, self.talk) is Err,
            },
    {
        match (source_under(c, &self.talk), &self.talk.session) {
            (Ok((_, url)), Some(s)) => Some((s.id.clone(), url)),
            _ => None,
        }
    }
}

} // verus!
