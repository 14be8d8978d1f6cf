//! The device login.

use crate::app::App;
use crate::backends::{Backend, BackendTag, Backends};
use crate::effects::{and_effect, no_effects, one_effect, Effect, EffectView};
use crate::pipeline::concat;
use crate::state::{Jobs, SavedKeys, Screen};
use crate::text::views;
use vstd::prelude::*;
use vstd::string::*;

verus! {

/// How a device login proceeds: a word on it, or its outcome.
pub enum LoginMsg {
    Status(String),
    /// The credential of Codex, or why there is none.
    Done(Result<String, String>),
}

/// The backend that a credential of Codex gives access to.
pub open spec fn codex(access: String, utility_model: String, research_model: String) -> Backend {
    Backend { tag: BackendTag::Codex, key: access, utility_model, research_model }
}

/// What the progress of a device login changes of the backends, the stored
/// credentials, the jobs and the screen, and what it asks for.
pub open spec fn login_step(
    before: (Backends, SavedKeys, Jobs, Screen),
    after: (Backends, SavedKeys, Jobs, Screen),
    effects: Seq<EffectView>,
    msg: Option<LoginMsg>,
    utility_model: String,
    research_model: String,
) -> bool {
    let (b, s, j, c) = before;
    let status = after.3.status;
    match msg {
        Some(LoginMsg::Status(word)) => {
            &&& after == (b, s, j, Screen { status: word, ..c })
            &&& effects == Seq::<EffectView>::empty()
        },
        Some(LoginMsg::Done(Ok(access))) => {
            &&& after == (
                Backends { codex: Some(codex(access, utility_model, research_model)), ..b },
                SavedKeys { codex: Some(access), ..s },
                Jobs { login: false, models: true, ..j },
                Screen { status, ..c },
            )
            &&& status@ == "OpenAI Codex login saved, loading models…"@
            &&& effects == seq![EffectView::FetchModels, EffectView::RefreshToolbox]
        },
        Some(LoginMsg::Done(Err(e))) => {
            &&& after == (b, s, Jobs { login: false, ..j }, Screen { status, ..c })
            &&& status@ == "OpenAI Codex login failed: "@ + e@
            &&& effects == Seq::<EffectView>::empty()
        },
        None => {
            &&& after == (b, s, Jobs { login: false, ..j }, c)
            &&& effects == Seq::<EffectView>::empty()
        },
    }
}

fn take_login(
    backends: &mut Backends,
    saved: &mut SavedKeys,
    jobs: &mut Jobs,
    screen: &mut Screen,
    msg: Option<LoginMsg>,
    utility_model: String,
    research_model: String,
) -> (r: Vec<Effect>)
    ensures
        login_step(
            (*old(backends), *old(saved), *old(jobs), *old(screen)),
            (*final(backends), *final(saved), *final(jobs), *final(screen)),
            views(r@),
            msg,
            utility_model,
            research_model,
        ),
{
    match msg {
        Some(LoginMsg::Status(s)) => {
            screen.status = s;
            no_effects()
        },
        Some(LoginMsg::Done(Ok(access))) => {
            jobs.login = false;
            jobs.models = true;
            backends.codex = Some(
                Backend {
                    tag: BackendTag::Codex,
                    key: access.clone(),
                    utility_model,
                    research_model,
                },
            );
            saved.codex = Some(access);
            screen.status = "OpenAI Codex login saved, loading models…".to_owned();
            let r = and_effect(one_effect(Effect::FetchModels), Effect::RefreshToolbox);
            assert(views(r@) =~= seq![EffectView::FetchModels, EffectView::RefreshToolbox]);
            r
        },
        Some(LoginMsg::Done(Err(e))) => {
            jobs.login = false;
            screen.status = concat("OpenAI Codex login failed: ", e.as_str());
            no_effects()
        },
        None => {
            jobs.login = false;
            no_effects()
        },
    }
}

impl App {
    /// The device login proceeds, or ends where nothing more comes of it.
    pub fn on_login_result(
        &mut self,
        msg: Option<LoginMsg>,
        utility_model: String,
        research_model: String,
    ) -> (r: Vec<Effect>)
        ensures
            *final(self) == (App {
                backends: final(self).backends,
                saved: final(self).saved,
                jobs: final(self).jobs,
                screen: final(self).screen,
                ..*old(self)
            }),
            login_step(
                (old(self).backends, old(self).saved, old(self).jobs, old(self).screen),
                (final(self).backends, final(self).saved, final(self).jobs, final(self).screen),
                views(r@),
                msg,
                utility_model,
                research_model,
            ),
    {
        take_login(
            &mut self.backends,
            &mut self.saved,
            &mut self.jobs,
            &mut self.screen,
            msg,
            utility_model,
            research_model,
        )
    }
}

} // verus!
