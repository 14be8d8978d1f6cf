//! Web mode and incognito mode, and what the history pane opens.

use crate::app::App;
use crate::compaction::{backfill_effects, backfilled};
use crate::effects::{and_effect, no_effects, one_effect, Effect, EffectView};
use crate::pipeline::concat;
use crate::research_job::{gate_rows, restore_prompt};
use crate::sending::{session_effects, stores_message, NewChat};
use crate::sessions::is_blank_talk;
use crate::state::{rows_are, says, Conversation, Notices, ResearchState, Screen};
use crate::store::{ChatTask, FloatBits, Session};
use crate::stream::{
    answer, call_effects, failed, finished, stores_answer, stores_error, TaskWrites,
};
use crate::text::{
    decimal, decimal_of, find_char, found_char, has_suffix, same, start_of, trim, trimmed, views,
};
use vstd::prelude::*;
use vstd::string::*;

verus! {

/// The conversation with its session, if any, in web mode or not.
pub open spec fn in_web_mode(talk: Conversation, on: bool) -> Conversation {
    match talk.session {
        Some(s) => Conversation { session: Some(Session { web_mode: on, ..s }), ..talk },
        None => talk,
    }
}

fn set_web_mode(talk: &mut Conversation, on: bool) -> (r: Vec<Effect>)
    ensures
        *final(talk) == in_web_mode(*old(talk), on),
        views(r@) == (match old(talk).session {
            Some(s) => seq![EffectView::SetWebMode { session_id: s.id@, on }],
            None => Seq::<EffectView>::empty(),
        }),
{
    if let Some(s) = &mut talk.session {
        s.web_mode = on;
        one_effect(Effect::SetWebMode { session_id: s.id.clone(), on })
    } else {
        no_effects()
    }
}

impl App {
    /// Turns web mode on or off, for the session that is viewed or else for
    /// the one that the next message creates.
    pub fn toggle_web_mode(&mut self) -> (r: Vec<Effect>)
        ensures
            *final(self) == (App {
                web_mode: !old(self).web_mode,
                talk: in_web_mode(old(self).talk, !old(self).web_mode),
                screen: final(self).screen,
                ..*old(self)
            }),
            says(
                old(self).screen,
                final(self).screen,
                if old(self).web_mode {
                    "web mode off"@
                } else {
                    "🌐 web mode on"@
                },
            ),
            views(r@) == (match old(self).talk.session {
                Some(s) => seq![
                    EffectView::SetWebMode { session_id: s.id@, on: !old(self).web_mode },
                ],
                None => Seq::<EffectView>::empty(),
            }),
    {
        self.web_mode = !self.web_mode;
        let r = set_web_mode(&mut self.talk, self.web_mode);
        self.screen.status = if self.web_mode {
            "🌐 web mode on".to_owned()
        } else {
            "web mode off".to_owned()
        };
        r
    }

    /// Turns incognito mode on or off, and leaves the conversation for a blank
    /// one. While a response streams in for it nothing changes: the response
    /// is to be stopped first.
    pub fn toggle_incognito(&mut self) -> (r: Option<Vec<Effect>>)
        ensures
            if old(self).streams() {
                *final(self) == *old(self) && r is None
            } else {
                &&& *final(self) == (App {
                    incognito: !old(self).incognito,
                    talk: final(self).talk,
                    screen: Screen {
                        status: final(self).screen.status,
                        input: final(self).screen.input,
                        scroll: 0,
                        ..old(self).screen
                    },
                    ..*old(self)
                })
                &&& is_blank_talk(final(self).talk)
                &&& final(self).screen.input@ == Seq::<char>::empty()
                &&& final(self).screen.status@ == (if old(self).incognito {
                    "incognito mode off"@
                } else {
                    "incognito mode — nothing persists, no apps"@
                })
                &&& r matches Some(v) && views(v@) == seq![EffectView::DropImages]
            },
    {
        if self.is_streaming() {
            return None;
        }
        self.leave_conversation();
        self.screen.input = String::new();
        self.incognito = !self.incognito;
        self.screen.status = if self.incognito {
            "incognito mode — nothing persists, no apps".to_owned()
        } else {
            "incognito mode off".to_owned()
        };
        Some(one_effect(Effect::DropImages))
    }
}

/// A response in incognito mode leaves nothing behind: neither its answer nor
/// its error is stored, neither a tool call nor its end asks for anything to be
/// stored or shown on the desktop, no session is marked, and the message that
/// it answers is not stored either.
pub proof fn incognito_stores_nothing(
    t: ChatTask,
    active_space: Seq<char>,
    name: Seq<char>,
    result: Seq<char>,
    row: Seq<char>,
    before: (Conversation, Screen, Notices),
    after: (Conversation, Screen, Notices),
    effects: Seq<EffectView>,
    error: Option<Seq<char>>,
    stopped: bool,
    writes: TaskWrites,
    secs: FloatBits,
    now: Seq<char>,
    talk: Conversation,
    web_mode: bool,
    new: NewChat,
)
    requires
        t.incognito,
        finished(before, after, effects, t, error, stopped, writes, secs, now),
    ensures
        forall|i: int|
            0 <= i < call_effects(Some(t), active_space, name, result, row).len()
                ==> !(call_effects(Some(t), active_space, name, result, row)[i] is AddMessage),
        effects == Seq::<EffectView>::empty(),
        after.2 == before.2,
        !stores_answer(t),
        !stores_error(t, error, writes.answer),
        forall|refused: Option<Seq<char>>| !stores_message(refused, true),
        session_effects(talk, true, web_mode, new) == Seq::<EffectView>::empty(),
{
    let fx = call_effects(Some(t), active_space, name, result, row);
    assert forall|i: int| 0 <= i < fx.len() implies !(fx[i] is AddMessage) by {}
    if answer(t).0.len() > 0 || error is Some {
        let (middle, more) = choose|middle: Conversation, more: Seq<EffectView>|
            {
                &&& #[trigger] crate::stream::answered(before.0, middle, t, true, secs, now)
                &&& #[trigger] crate::stream::ended(
                    (middle, before.1, before.2),
                    after,
                    more,
                    t,
                    error,
                    stopped,
                    writes,
                )
                &&& effects == Seq::<EffectView>::empty() + more
            };
        assert(effects =~= more);
    }
}

/// The session that a link row names: the first line, without the whitespace
/// around it, where there is a second.
pub open spec fn link_target(content: Seq<char>) -> Option<Seq<char>> {
    match find_char(content, '\n') {
        Some(i) => Some(trim(content.take(i))),
        None => None,
    }
}

/// What a press on a link row leads to.
pub enum LinkStep {
    /// The session to switch to.
    Open(String),
    /// There is none, and the screen says why.
    Nothing,
}

/// What a press on the row that the selection begins in changes of the screen,
/// and what it leads to.
pub open spec fn link_step(
    talk: Conversation,
    before: Screen,
    after: Screen,
    at: Option<usize>,
    r: LinkStep,
) -> bool {
    match at {
        Some(i) if i < talk.messages@.len() && talk.messages@[i as int].role@
            == "session_link"@ => match link_target(talk.messages@[i as int].content@) {
            Some(t) => r matches LinkStep::Open(id) && id@ == t && after == before,
            None => r is Nothing && says(before, after, "malformed session link"@),
        },
        _ => r is Nothing && says(
            before,
            after,
            "select text on a session link message, then press Ctrl+O"@,
        ),
    }
}

fn follow_link(talk: &Conversation, screen: &mut Screen, at: Option<usize>) -> (r: LinkStep)
    ensures
        link_step(*talk, *old(screen), *final(screen), at, r),
{
    if let Some(i) = at {
        if i < talk.messages.len() && same(talk.messages[i].role.as_str(), "session_link") {
            let content = talk.messages[i].content.as_str();
            return match found_char(content, '\n') {
                Some(k) => LinkStep::Open(trimmed(start_of(content, k)).to_owned()),
                None => {
                    screen.status = "malformed session link".to_owned();
                    LinkStep::Nothing
                },
            };
        }
    }
    screen.status = "select text on a session link message, then press Ctrl+O".to_owned();
    LinkStep::Nothing
}

impl App {
    /// The session that the selected row links to. `at` is the row that the
    /// selection begins in, where there is one.
    pub fn open_session_link(&mut self, at: Option<usize>) -> (r: LinkStep)
        ensures
            *final(self) == (App { screen: final(self).screen, ..*old(self) }),
            link_step(old(self).talk, old(self).screen, final(self).screen, at, r),
    {
        follow_link(&self.talk, &mut self.screen, at)
    }
}

/// The first source with a number at or after a position.
pub open spec fn source_at(sources: Seq<(u64, String)>, n: u64, i: int) -> Option<int>
    decreases sources.len() - i,
{
    if i < 0 || i >= sources.len() {
        None
    } else if sources[i].0 == n {
        Some(i)
    } else {
        source_at(sources, n, i + 1)
    }
}

fn source_position(sources: &Vec<(u64, String)>, n: u64) -> (r: Option<usize>)
    ensures
        match r {
            Some(i) => source_at(sources@, n, 0) == Some(i as int) && i < sources@.len(),
            None => source_at(sources@, n, 0) is None,
        },
{
    let mut i: usize = 0;
    while i < sources.len()
        invariant
            i <= sources@.len(),
            source_at(sources@, n, 0) == source_at(sources@, n, i as int),
        decreases sources@.len() - i,
    {
        if sources[i].0 == n {
            return Some(i);
        }
        i += 1;
    }
    None
}

/// What the selection of a citation holds: whether anything is selected, the
/// number in it, and the sources that the row under it cites, where there is
/// such a row.
pub struct Citation {
    pub selected: bool,
    pub number: Option<u64>,
    pub sources: Option<Vec<(u64, String)>>,
}

/// The source under the selection, or why there is none.
pub open spec fn cited(c: Citation, talk: Conversation) -> Result<(u64, Seq<char>), Seq<char>> {
    if !c.selected {
        Err("select a [n] citation, then press x"@)
    } else {
        match (c.number, c.sources) {
            (Some(n), Some(sources)) => match source_at(sources@, n, 0) {
                None => Err("no source ["@ + decimal(n as nat) + "] in this message"@),
                Some(i) => if talk.session is None {
                    Err("no active session"@)
                } else {
                    Ok((n, sources@[i].1@))
                },
            },
            _ => Err("no [n] citation in the current selection"@),
        }
    }
}

/// The source under the selection, or why there is none.
pub fn source_under(c: &Citation, talk: &Conversation) -> (r: Result<(u64, String), String>)
    ensures
        match r {
            Ok(p) => cited(*c, *talk) == Ok::<(u64, Seq<char>), Seq<char>>((p.0, p.1@)),
            Err(e) => cited(*c, *talk) == Err::<(u64, Seq<char>), Seq<char>>(e@),
        },
{
    if !c.selected {
        return Err("select a [n] citation, then press x".to_owned());
    }
    match (&c.number, &c.sources) {
        (Some(n), Some(sources)) => match source_position(sources, *n) {
            None => {
                let mut s = "no source [".to_owned();
                s.append(decimal_of(*n).as_str());
                s.append("] in this message");
                Err(s)
            },
            Some(i) => {
                if talk.session.is_none() {
                    Err("no active session".to_owned())
                } else {
                    Ok((*n, sources[i].1.clone()))
                }
            },
        },
        _ => Err("no [n] citation in the current selection".to_owned()),
    }
}

/// The word for what a flag does to a source.
pub open spec fn flag_word(flag: Option<Seq<char>>) -> Seq<char> {
    match flag {
        Some(f) => if f == "discarded"@ {
            "discarded"@
        } else {
            "pinned"@
        },
        None => "cleared"@,
    }
}

/// What flagging the source under the selection changes of the screen, and
/// what it asks for.
pub open spec fn flagged(
    talk: Conversation,
    before: Screen,
    after: Screen,
    effects: Seq<EffectView>,
    c: Citation,
    flag: Option<Seq<char>>,
    stored: Result<(), String>,
) -> bool {
    match cited(c, talk) {
        Err(why) => says(before, after, why) && effects == Seq::<EffectView>::empty(),
        Ok((n, url)) => match stored {
            Ok(_) => says(
                before,
                after,
                flag_word(flag) + " ["@ + decimal(n as nat) + "]: "@ + url,
            ) && effects == seq![EffectView::RefreshToolbox],
            Err(e) => says(before, after, "flag failed: "@ + e@) && effects == Seq::<
                EffectView,
            >::empty(),
        },
    }
}

fn flag_source(
    talk: &Conversation,
    screen: &mut Screen,
    c: &Citation,
    flag: Option<&str>,
    stored: Result<(), String>,
) -> (r: Vec<Effect>)
    ensures
        flagged(
            *talk,
            *old(screen),
            *final(screen),
            views(r@),
            *c,
            match flag {
                Some(f) => Some(f@),
                None => None,
            },
            stored,
        ),
{
    match source_under(c, talk) {
        Err(why) => {
            screen.status = why;
            no_effects()
        },
        Ok((n, url)) => match stored {
            Ok(_) => {
                let word = match flag {
                    Some(f) => {
                        if same(f, "discarded") {
                            "discarded"
                        } else {
                            "pinned"
                        }
                    },
                    None => "cleared",
                };
                let mut s = word.to_owned();
                s.append(" [");
                s.append(decimal_of(n).as_str());
                s.append("]: ");
                s.append(url.as_str());
                screen.status = s;
                one_effect(Effect::RefreshToolbox)
            },
            Err(e) => {
                screen.status = concat("flag failed: ", e.as_str());
                no_effects()
            },
        },
    }
}

impl App {
    /// Pins or discards the source under the selection, or clears its flag.
    /// The flag is stored before (see `source_to_flag`), and `stored` says how
    /// that came out, with the reason where it did not work.
    pub fn flag_source_under_selection(
        &mut self,
        c: &Citation,
        flag: Option<&str>,
        stored: Result<(), String>,
    ) -> (r: Vec<Effect>)
        ensures
            *final(self) == (App { screen: final(self).screen, ..*old(self) }),
            flagged(
                old(self).talk,
                old(self).screen,
                final(self).screen,
                views(r@),
                *c,
                match flag {
                    Some(f) => Some(f@),
                    None => None,
                },
                stored,
            ),
    {
        flag_source(&self.talk, &mut self.screen, c, flag, stored)
    }
}

/// The stem of a video's file, given that of its first or last frame.
pub open spec fn video_stem(stem: Seq<char>) -> Option<Seq<char>> {
    if "_first"@.is_suffix_of(stem) {
        Some(stem.take(stem.len() - "_first"@.len()))
    } else if "_last"@.is_suffix_of(stem) {
        Some(stem.take(stem.len() - "_last"@.len()))
    } else {
        None
    }
}

/// The names under which the video of a frame may be found, best first, given
/// the stem of the frame's file.
pub fn sibling_videos(stem: &str) -> (r: Option<(String, String)>)
    ensures
        match r {
            Some(p) => video_stem(stem@) matches Some(base) && p.0@ == base + ".mp4"@ && p.1@
                == "_stitch_"@ + base + ".mp4"@,
            None => video_stem(stem@) is None,
        },
{
    let n: usize = crate::text::count(stem);
    proof {
        reveal_strlit("_first");
        reveal_strlit("_last");
    }
    let base = if has_suffix(stem, "_first") {
        start_of(stem, n - 6)
    } else if has_suffix(stem, "_last") {
        start_of(stem, n - 5)
    } else {
        return None;
    };
    let direct = concat(base, ".mp4");
    let mut stitched = "_stitch_".to_owned();
    stitched.append(base);
    stitched.append(".mp4");
    Some((direct, stitched))
}

impl App {
    /// Takes an edited base prompt over. `text` is what the file holds, where
    /// it can be read.
    pub fn reload_base_system_prompt(&mut self, text: Option<String>)
        ensures
            *final(self) == (App {
                config: crate::state::Config {
                    base_system_prompt: match text {
                        Some(t) => t,
                        None => old(self).config.base_system_prompt,
                    },
                    ..old(self).config
                },
                screen: final(self).screen,
                ..*old(self)
            }),
            match text {
                Some(_) => says(old(self).screen, final(self).screen, "system prompt reloaded"@),
                None => final(self).screen == old(self).screen,
            },
    {
        if let Some(t) = text {
            self.config.base_system_prompt = t;
            self.screen.status = "system prompt reloaded".to_owned();
        }
    }

    /// Begins: catalogs are fetched where there is a backend, and the index of
    /// files is brought up to date.
    pub fn init(&mut self) -> (r: Vec<Effect>)
        ensures
            *final(self) == (App {
                jobs: crate::state::Jobs {
                    models: old(self).jobs.models || old(self).backends.first() is Some,
                    ..old(self).jobs
                },
                ..*old(self)
            }),
            views(r@) == (if old(self).backends.first() is Some {
                seq![EffectView::FetchModels, EffectView::RescanFiles]
            } else {
                seq![EffectView::RescanFiles]
            }),
    {
        let r = if self.backends.any() {
            self.jobs.models = true;
            one_effect(Effect::FetchModels)
        } else {
            no_effects()
        };
        let all = and_effect(r, Effect::RescanFiles);
        assert(views(all@) =~= if old(self).backends.first() is Some {
            seq![EffectView::FetchModels, EffectView::RescanFiles]
        } else {
            seq![EffectView::RescanFiles]
        });
        all
    }
}

fn complete_rows(job: &ResearchState, talk: &mut Conversation, now: &str) -> (r: Vec<Effect>)
    ensures
        rows_are(
            *old(talk),
            *final(talk),
            gate_rows(*job, *old(talk), backfilled(*old(talk), now@)),
        ),
        views(r@) == backfill_effects(*old(talk), now@),
{
    let r = talk.backfill(now);
    restore_prompt(job, talk);
    r
}

impl App {
    /// Completes the rows of a session that was just loaded: a digest that no
    /// row shows yet, and what a research job asks for in this session.
    pub fn session_loaded(&mut self, now: &str) -> (r: Vec<Effect>)
        ensures
            *final(self) == (App { talk: final(self).talk, ..*old(self) }),
            rows_are(
                old(self).talk,
                final(self).talk,
                gate_rows(old(self).research, old(self).talk, backfilled(old(self).talk, now@)),
            ),
            views(r@) == backfill_effects(old(self).talk, now@),
    {
        complete_rows(&self.research, &mut self.talk, now)
    }
}

} // verus!
