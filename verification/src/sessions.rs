//! The session picker.

use crate::app::App;
use crate::effects::{no_effects, one_effect, Effect, EffectView};
use crate::ordering::{
    clamp_cursor, drop_rows, drop_scores, filtered_rows, in_order, keep_in, kept_in, moved, row_at,
    row_under, rows, scored, scores_without, shown_rows, without, Identified,
};
use crate::pipeline::concat;
use crate::state::{Conversation, Screen, SessionPicker};
use crate::store::{Message, Session};
use crate::text::{erase_last, erased, same, trim, trimmed, views};
use crate::ui::{Popup, SessionMode};
use vstd::prelude::*;
use vstd::string::*;

verus! {

/// The first position of the session with an id.
pub open spec fn session_at(cache: Seq<Session>, id: Seq<char>, i: int) -> Option<int>
    decreases cache.len() - i,
{
    if i < 0 || i >= cache.len() {
        None
    } else if cache[i].id@ == id {
        Some(i)
    } else {
        session_at(cache, id, i + 1)
    }
}

fn position_of(cache: &Vec<Session>, id: &str) -> (r: Option<usize>)
    ensures
        match r {
            Some(i) => session_at(cache@, id@, 0) == Some(i as int) && i < cache@.len(),
            None => session_at(cache@, id@, 0) is None,
        },
{
    let mut i: usize = 0;
    while i < cache.len()
        invariant
            i <= cache@.len(),
            session_at(cache@, id@, 0) == session_at(cache@, id@, i as int),
        decreases cache@.len() - i,
    {
        if same(cache[i].id.as_str(), id) {
            return Some(i);
        }
        i += 1;
    }
    None
}

impl Identified for Session {
    open spec fn key(&self) -> Seq<char> {
        self.id@
    }

    fn key_text(&self) -> (r: &str) {
        self.id.as_str()
    }

    fn twin(&self) -> (r: Session) {
        self.clone()
    }
}

impl SessionPicker {
    /// Whether `scores` fits the picker: where something is typed, there is a
    /// score for each session.
    pub open spec fn fits(&self, scores: Seq<Option<i32>>) -> bool {
        scored(self.filter@, self.cache@.len(), scores)
    }

    /// The rows that are shown.
    pub open spec fn shown(&self, scores: Seq<Option<i32>>) -> Seq<int> {
        shown_rows(self.filter@, self.cache@.len(), scores)
    }

    /// The row that the cursor is on.
    pub open spec fn row(&self, scores: Seq<Option<i32>>) -> Option<int> {
        row_at(self.filter@, self.cache@.len(), scores, self.selected as int)
    }

    /// The sessions that match what is typed, best first; all of them, in
    /// their order, where nothing is typed. `scores` holds the search score of
    /// each session, where something is typed.
    pub fn filtered_sessions(&self, scores: &Vec<Option<i32>>) -> (r: Vec<&Session>)
        requires
            self.fits(scores@),
        ensures
            r@ == rows(self.cache@, self.shown(scores@)).map_values(|s: Session| &s),
    {
        let order = filtered_rows(self.filter.as_str(), self.cache.len(), scores);
        in_order(&self.cache, &order)
    }

    /// The session that the cursor is on.
    pub fn selected_session(&self, scores: &Vec<Option<i32>>) -> (r: Option<Session>)
        requires
            self.fits(scores@),
        ensures
            match r {
                Some(s) => self.row(scores@) is Some && s == self.cache@[self.row(scores@)->0],
                None => self.row(scores@) is None,
            },
    {
        match row_under(self.filter.as_str(), self.cache.len(), scores, self.selected) {
            Some(i) => Some(self.cache[i].clone()),
            None => None,
        }
    }

    /// Moves the cursor.
    pub fn move_session_selection(&mut self, scores: &Vec<Option<i32>>, delta: i32)
        requires
            old(self).fits(scores@),
        ensures
            *final(self) == (SessionPicker {
                selected: moved(
                    old(self).selected as int,
                    old(self).shown(scores@).len() as int,
                    delta as int,
                ) as usize,
                ..*old(self)
            }),
    {
        let n: usize = filtered_rows(self.filter.as_str(), self.cache.len(), scores).len();
        self.selected = clamp_cursor(self.selected, n, delta);
    }

    /// A character is typed; the cursor goes to the top.
    pub fn session_filter_push(&mut self, c: char)
        ensures
            *final(self) == (SessionPicker {
                filter: final(self).filter,
                selected: 0,
                ..*old(self)
            }),
            final(self).filter@ == old(self).filter@.push(c),
    {
        self.filter.push(c);
        self.selected = 0;
    }

    /// A character is erased; the cursor goes to the top.
    pub fn session_filter_pop(&mut self)
        ensures
            *final(self) == (SessionPicker {
                filter: final(self).filter,
                selected: 0,
                ..*old(self)
            }),
            final(self).filter@ == erased(old(self).filter@),
    {
        erase_last(&mut self.filter);
        self.selected = 0;
    }

    /// Begins to rename the session under the cursor, with its title to edit.
    pub fn start_rename(&mut self, scores: &Vec<Option<i32>>)
        requires
            old(self).fits(scores@),
        ensures
            match old(self).row(scores@) {
                Some(i) => *final(self) == (SessionPicker {
                    edit: old(self).cache@[i].title,
                    mode: SessionMode::Rename,
                    ..*old(self)
                }),
                None => *final(self) == *old(self),
            },
    {
        if let Some(s) = self.selected_session(scores) {
            self.edit = s.title;
            self.mode = SessionMode::Rename;
        }
    }

    /// Gives the first session with the id a title.
    fn retitle(&mut self, id: &str, title: &String)
        ensures
            *final(self) == (SessionPicker { cache: final(self).cache, ..*old(self) }),
            is_retitled(old(self).cache@, id@, title@, final(self).cache@),
    {
        if let Some(i) = position_of(&self.cache, id) {
            let mut s = self.cache[i].clone();
            s.title = title.clone();
            self.cache.set(i, s);
        }
    }
}

/// Whether `after` holds the sessions with another title for the first one
/// that has the id.
pub open spec fn is_retitled(
    before: Seq<Session>,
    id: Seq<char>,
    title: Seq<char>,
    after: Seq<Session>,
) -> bool {
    match session_at(before, id, 0) {
        Some(i) => after == before.update(i, Session { title: after[i].title, ..before[i] })
            && after[i].title@ == title,
        None => after == before,
    }
}

/// Whether `after` is the session that is viewed with another title, where it
/// has the id.
pub open spec fn is_retitled_view(
    before: Option<Session>,
    id: Seq<char>,
    title: Seq<char>,
    after: Option<Session>,
) -> bool {
    match before {
        Some(c) if c.id@ == id => after is Some && after->0 == (Session {
            title: (after->0).title,
            ..c
        }) && (after->0).title@ == title,
        _ => after == before,
    }
}

/// The conversation before anything is said.
pub open spec fn is_blank_talk(t: Conversation) -> bool {
    t.session is None && t.messages@.len() == 0 && t.context_total is None
}

/// What the choice of the session under the cursor changes and asks for, where
/// `messages` are its rows.
pub open spec fn session_confirmed(
    before: App,
    after: App,
    effects: Seq<EffectView>,
    scores: Seq<Option<i32>>,
    messages: Option<Vec<Message>>,
) -> bool {
    match (before.sessions.row(scores), messages) {
        (None, _) => after == (App {
            screen: Screen { popup: Popup::Closed, ..before.screen },
            ..before
        }) && effects == Seq::<EffectView>::empty(),
        (Some(_), None) => after == before && effects == Seq::<
            EffectView,
        >::empty(),
        (Some(i), Some(loaded)) => {
            let s = before.sessions.cache@[i];
            &&& after == (App {
                talk: Conversation {
                    session: Some(s),
                    messages: loaded,
                    context_total: None,
                },
                catalog: crate::state::Catalog {
                    current: Some(s.model),
                    ..before.catalog
                },
                screen: Screen {
                    status: after.screen.status,
                    scroll: 0,
                    popup: Popup::Closed,
                    ..before.screen
                },
                ..before
            })
            &&& after.screen.status@ == "switched to: "@ + s.title@
            &&& effects == seq![EffectView::DropImages]
        },
    }
}

/// What a new title for the session under the cursor changes.
pub open spec fn session_renamed(
    before: App,
    after: App,
    scores: Seq<Option<i32>>,
    stored: bool,
) -> bool {
    let title = trim(before.sessions.edit@);
    match before.sessions.row(scores) {
        Some(i) if title.len() > 0 => if stored {
            let s = before.sessions.cache@[i];
            &&& after == (App {
                sessions: SessionPicker {
                    cache: after.sessions.cache,
                    mode: SessionMode::Browse,
                    ..before.sessions
                },
                talk: Conversation {
                    session: after.talk.session,
                    ..before.talk
                },
                ..before
            })
            &&& is_retitled(
                before.sessions.cache@,
                s.id@,
                title,
                after.sessions.cache@,
            )
            &&& is_retitled_view(
                before.talk.session,
                s.id@,
                title,
                after.talk.session,
            )
        } else {
            after == before
        },
        _ => after == (App {
            sessions: SessionPicker {
                mode: SessionMode::Browse,
                ..before.sessions
            },
            ..before
        }),
    }
}

impl App {
    /// Leaves the conversation for a blank one. A session comes into being
    /// with its first message only.
    pub fn new_session(&mut self) -> (r: Vec<Effect>)
        ensures
            *final(self) == (App {
                talk: final(self).talk,
                screen: Screen {
                    scroll: 0,
                    status: final(self).screen.status,
                    ..old(self).screen
                },
                ..*old(self)
            }),
            is_blank_talk(final(self).talk),
            final(self).screen.status@ == "new chat — send a message to start it"@,
            views(r@) == seq![EffectView::DropImages],
    {
        self.leave_conversation();
        self.screen.status = "new chat — send a message to start it".to_owned();
        one_effect(Effect::DropImages)
    }

    /// Clears the conversation that is viewed.
    pub(crate) fn leave_conversation(&mut self)
        ensures
            *final(self) == (App {
                talk: final(self).talk,
                screen: Screen { scroll: 0, ..old(self).screen },
                ..*old(self)
            }),
            is_blank_talk(final(self).talk),
    {
        self.talk = Conversation { session: None, messages: Vec::new(), context_total: None };
        self.screen.scroll = 0;
    }

    /// Opens the session picker on the sessions of the space, most recent
    /// first, or says that there are none.
    pub fn open_session_picker(&mut self, list: Vec<Session>)
        ensures
            if list@.len() == 0 {
                *final(self) == (App {
                    sessions: SessionPicker { cache: list, ..old(self).sessions },
                    screen: Screen { status: final(self).screen.status, ..old(self).screen },
                    ..*old(self)
                }) && final(self).screen.status@
                    == "no sessions yet — send a message to start one"@
            } else {
                *final(self) == (App {
                    sessions: SessionPicker {
                        cache: list,
                        selected: 0,
                        filter: final(self).sessions.filter,
                        mode: SessionMode::Browse,
                        ..old(self).sessions
                    },
                    screen: Screen { popup: Popup::Session, ..old(self).screen },
                    ..*old(self)
                }) && final(self).sessions.filter@ == Seq::<char>::empty()
            },
    {
        let n: usize = list.len();
        self.sessions.cache = list;
        if n == 0 {
            self.screen.status = "no sessions yet — send a message to start one".to_owned();
            return;
        }
        self.sessions.selected = 0;
        self.sessions.filter = String::new();
        self.sessions.mode = SessionMode::Browse;
        self.screen.popup = Popup::Session;
    }

    /// Renames the session under the cursor to what was typed, in the picker
    /// and where it is viewed; a blank title renames nothing. `stored` says
    /// whether the store has taken the write of `session_rename`; where it has
    /// not, nothing changes.
    pub fn confirm_rename(&mut self, scores: &Vec<Option<i32>>, stored: bool)
        requires
            old(self).sessions.fits(scores@),
        ensures
            session_renamed(*old(self), *final(self), scores@, stored),
    {
        let title = trimmed(self.sessions.edit.as_str()).to_owned();
        if !title.as_str().is_empty() {
            if let Some(s) = self.sessions.selected_session(scores) {
                if !stored {
                    return;
                }
                self.sessions.retitle(s.id.as_str(), &title);
                self.retitle_viewed(s.id.as_str(), title);
            }
        }
        self.sessions.mode = SessionMode::Browse;
    }

    /// Gives the session that is viewed a title, where it has the id.
    fn retitle_viewed(&mut self, id: &str, title: String)
        ensures
            *final(self) == (App {
                talk: Conversation { session: final(self).talk.session, ..old(self).talk },
                ..*old(self)
            }),
            is_retitled_view(old(self).talk.session, id@, title@, final(self).talk.session),
    {
        if self.viewing(id) {
            if let Some(c) = &self.talk.session {
                let mut s = c.clone();
                s.title = title;
                self.talk.session = Some(s);
            }
        }
    }

    /// Deletes the session under the cursor; one that is viewed leaves a blank
    /// conversation. `deleted` says whether the store has dropped it (see
    /// `session_to_delete`); where it has not, nothing changes.
    pub fn confirm_delete(&mut self, scores: &Vec<Option<i32>>, deleted: bool) -> (r: Vec<Effect>)
        requires
            old(self).sessions.fits(scores@),
        ensures
            match old(self).sessions.row(scores@) {
                None => {
                    &&& *final(self) == (App {
                        sessions: SessionPicker {
                            mode: SessionMode::Browse,
                            selected: kept_in(
                                old(self).sessions.selected as int,
                                old(self).sessions.shown(scores@).len() as int,
                            ) as usize,
                            ..old(self).sessions
                        },
                        screen: Screen {
                            popup: if old(self).sessions.cache@.len() == 0 {
                                Popup::Closed
                            } else {
                                old(self).screen.popup
                            },
                            ..old(self).screen
                        },
                        ..*old(self)
                    })
                    &&& views(r@) == Seq::<EffectView>::empty()
                },
                Some(i) => {
                    let s = old(self).sessions.cache@[i];
                    let left = without(old(self).sessions.cache@, s.id@);
                    if !deleted {
                        *final(self) == *old(self) && views(r@) == Seq::<EffectView>::empty()
                    } else {
                        &&& *final(self) == (App {
                            sessions: final(self).sessions,
                            talk: final(self).talk,
                            screen: final(self).screen,
                            ..*old(self)
                        })
                        &&& final(self).sessions.cache@ == left
                        &&& final(self).sessions == (SessionPicker {
                            cache: final(self).sessions.cache,
                            mode: SessionMode::Browse,
                            selected: kept_in(
                                old(self).sessions.selected as int,
                                shown_rows(
                                    old(self).sessions.filter@,
                                    left.len(),
                                    scores_without(old(self).sessions.cache@, scores@, s.id@),
                                ).len() as int,
                            ) as usize,
                            ..old(self).sessions
                        })
                        &&& if old(self).views(s.id@) {
                            is_blank_talk(final(self).talk) && views(r@)
                                == seq![EffectView::DropImages]
                        } else {
                            final(self).talk == old(self).talk && views(r@)
                                == Seq::<EffectView>::empty()
                        }
                        &&& final(self).screen == (Screen {
                            status: final(self).screen.status,
                            scroll: if old(self).views(s.id@) { 0 } else { old(self).screen.scroll },
                            popup: if left.len() == 0 {
                                Popup::Closed
                            } else {
                                old(self).screen.popup
                            },
                            ..old(self).screen
                        })
                        &&& final(self).screen.status@ == "deleted: "@ + s.title@
                    }
                },
            },
    {
        let mut effects = no_effects();
        let n: usize;
        match self.sessions.selected_session(scores) {
            Some(s) => {
                if !deleted {
                    return effects;
                }
                n = self.sessions.drop_row(s.id.as_str(), scores);
                if self.viewing(s.id.as_str()) {
                    self.leave_conversation();
                    effects = one_effect(Effect::DropImages);
                }
                self.screen.status = concat("deleted: ", s.title.as_str());
            },
            None => {
                n = filtered_rows(
                    self.sessions.filter.as_str(),
                    self.sessions.cache.len(),
                    scores,
                ).len();
            },
        }
        self.sessions.mode = SessionMode::Browse;
        self.sessions.selected = keep_in(self.sessions.selected, n);
        if self.sessions.cache.len() == 0 {
            self.screen.popup = Popup::Closed;
        }
        effects
    }

    /// Switches to the session under the cursor. `messages` is what the store
    /// holds of it; where it could not be read, nothing changes.
    pub fn confirm_session(
        &mut self,
        scores: &Vec<Option<i32>>,
        messages: Option<Vec<Message>>,
    ) -> (r: Vec<Effect>)
        requires
            old(self).sessions.fits(scores@),
        ensures
            session_confirmed(*old(self), *final(self), views(r@), scores@, messages),
    {
        let mut effects = no_effects();
        if let Some(s) = self.sessions.selected_session(scores) {
            let loaded = match messages {
                Some(loaded) => loaded,
                None => {
                    return effects;
                },
            };
            self.screen.status = concat("switched to: ", s.title.as_str());
            self.catalog.current = Some(s.model.clone());
            self.talk = Conversation { session: Some(s), messages: loaded, context_total: None };
            self.screen.scroll = 0;
            effects = one_effect(Effect::DropImages);
        }
        self.screen.popup = Popup::Closed;
        effects
    }
}

impl SessionPicker {
    /// Drops the sessions with the id, and says how many rows are shown then.
    fn drop_row(&mut self, id: &str, scores: &Vec<Option<i32>>) -> (n: usize)
        requires
            old(self).fits(scores@),
        ensures
            *final(self) == (SessionPicker { cache: final(self).cache, ..*old(self) }),
            final(self).cache@ == without(old(self).cache@, id@),
            n == shown_rows(
                old(self).filter@,
                without(old(self).cache@, id@).len(),
                scores_without(old(self).cache@, scores@, id@),
            ).len(),
    {
        let left = if trimmed(self.filter.as_str()).is_empty() {
            Vec::new()
        } else {
            drop_scores(&self.cache, scores, id)
        };
        self.cache = drop_rows(&self.cache, id);
        filtered_rows(self.filter.as_str(), self.cache.len(), &left).len()
    }
}

} // verus!
