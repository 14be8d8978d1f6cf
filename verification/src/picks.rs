//! Logging in, and what a pick in the model picker changes.

use crate::app::App;
use crate::backends::{all_tags, Backend, BackendTag, Backends};
use crate::effects::{and_effect, no_effects, one_effect, Effect, EffectView};
use crate::models::{feature_model, first_row, kept_row, Feature};
use crate::ordering::{clamp_cursor, moved};
use crate::pipeline::concat;
use crate::state::{Catalog, Config, Jobs, LoginPopup, SavedKeys, Screen, SwarmState};
use crate::store::{copied_roster, Persona, PersonaView};
use crate::text::{same, trim, trimmed, views};
use crate::ui::{KeyTarget, ModelPanel, ModelPickTarget, Popup};
use vstd::prelude::*;
use vstd::string::*;

verus! {

/// The filter after one, among the kinds that are configured: from all to the
/// first, then one after the other, and behind the last back to all.
pub open spec fn next_filter(tags: Seq<BackendTag>, cur: Option<BackendTag>) -> Option<BackendTag> {
    match cur {
        None => Some(tags[0]),
        Some(tag) => match tag_at(tags, tag, 0) {
            Some(i) => if i + 1 < tags.len() { Some(tags[i + 1]) } else { None },
            None => None,
        },
    }
}

/// The first position of a kind.
pub open spec fn tag_at(tags: Seq<BackendTag>, tag: BackendTag, i: int) -> Option<int>
    decreases tags.len() - i,
{
    if i < 0 || i >= tags.len() {
        None
    } else if tags[i] == tag {
        Some(i)
    } else {
        tag_at(tags, tag, i + 1)
    }
}

/// The label of the backend that a pasted key is for.
pub open spec fn target_label(t: KeyTarget) -> Seq<char> {
    match t {
        KeyTarget::OpenRouter => "OpenRouter"@,
        KeyTarget::OpenAi => "OpenAI"@,
        KeyTarget::OpencodeGo => "OpenCode Go"@,
    }
}

/// The name under which the key of a backend is stored.
pub open spec fn target_name(t: KeyTarget) -> Seq<char> {
    match t {
        KeyTarget::OpenRouter => "openrouter"@,
        KeyTarget::OpenAi => "openai"@,
        KeyTarget::OpencodeGo => "opencode"@,
    }
}

/// The kind of the backend that a key is for.
pub open spec fn target_tag(t: KeyTarget) -> BackendTag {
    match t {
        KeyTarget::OpenRouter => BackendTag::OpenRouter,
        KeyTarget::OpenAi => BackendTag::OpenAi,
        KeyTarget::OpencodeGo => BackendTag::OpencodeGo,
    }
}

fn label_of(t: KeyTarget) -> (r: &'static str)
    ensures
        r@ == target_label(t),
{
    match t {
        KeyTarget::OpenRouter => "OpenRouter",
        KeyTarget::OpenAi => "OpenAI",
        KeyTarget::OpencodeGo => "OpenCode Go",
    }
}

fn name_of(t: KeyTarget) -> (r: &'static str)
    ensures
        r@ == target_name(t),
{
    match t {
        KeyTarget::OpenRouter => "openrouter",
        KeyTarget::OpenAi => "openai",
        KeyTarget::OpencodeGo => "opencode",
    }
}

fn tag_of(t: KeyTarget) -> (r: BackendTag)
    ensures
        r == target_tag(t),
{
    match t {
        KeyTarget::OpenRouter => BackendTag::OpenRouter,
        KeyTarget::OpenAi => BackendTag::OpenAi,
        KeyTarget::OpencodeGo => BackendTag::OpencodeGo,
    }
}

impl SavedKeys {
    /// The key that is stored for a backend.
    pub open spec fn key_of(&self, t: KeyTarget) -> Option<String> {
        match t {
            KeyTarget::OpenRouter => self.openrouter_key,
            KeyTarget::OpenAi => self.openai_key,
            KeyTarget::OpencodeGo => self.opencode_key,
        }
    }

    fn keep(&mut self, t: KeyTarget, key: String)
        ensures
            final(self).codex == old(self).codex,
            forall|u: KeyTarget| #[trigger]
                final(self).key_of(u) == (if u == t { Some(key) } else { old(self).key_of(u) }),
    {
        match t {
            KeyTarget::OpenRouter => {
                self.openrouter_key = Some(key);
            },
            KeyTarget::OpenAi => {
                self.openai_key = Some(key);
            },
            KeyTarget::OpencodeGo => {
                self.opencode_key = Some(key);
            },
        }
    }
}

/// What a catalog and the backends resolve a model id for a feature to: the
/// configured id where it is usable, else the feature's own model of the
/// backend of the active model, or of the first backend.
pub open spec fn feature_route(
    b: Backends,
    c: Catalog,
    configured: Seq<char>,
    f: Feature,
) -> Option<(Backend, Seq<char>)> {
    let id = trim(configured);
    let usable = id.len() > 0 && (b.route(id) matches Some(p) && c.looks_valid(id, p.0.tag, p.1));
    if usable {
        b.route(id)
    } else {
        let provider = match c.current {
            Some(m) => match b.route(m@) {
                Some(p) => Some(p.0),
                None => b.first(),
            },
            None => b.first(),
        };
        match provider {
            Some(p) => Some((p, feature_model(p, f))),
            None => None,
        }
    }
}

/// What opening the model picker for a purpose changes and asks for. Without a
/// backend the login popup opens; without a catalog one is fetched.
pub open spec fn picker_opened(
    before: App,
    after: App,
    target: ModelPickTarget,
    effects: Seq<EffectView>,
) -> bool {
    let c = Catalog { target, ..before.catalog };
    if before.backends.first() is None {
        &&& after == (App {
            catalog: c,
            login: LoginPopup { selected: 0, ..before.login },
            screen: Screen { popup: Popup::Login, ..before.screen },
            ..before
        })
        &&& effects == Seq::<EffectView>::empty()
    } else if c.models@.len() == 0 {
        &&& after == (App {
            catalog: c,
            jobs: Jobs { models: true, ..before.jobs },
            screen: Screen { popup: Popup::Model, status: after.screen.status, ..before.screen },
            ..before
        })
        &&& after.screen.status@ == "loading models…"@
        &&& effects == seq![EffectView::FetchModels]
    } else {
        let d = Catalog { filter: after.catalog.filter, ..c };
        &&& after.catalog.filter@ == Seq::<char>::empty()
        &&& after == (App {
            catalog: Catalog {
                focus: if d.panel(true).len() == 0 {
                    ModelPanel::Available
                } else {
                    ModelPanel::Favorites
                },
                fav_state: first_row(d.panel(true).len()),
                avail_state: first_row(d.panel(false).len()),
                ..d
            },
            screen: Screen { popup: Popup::Model, ..before.screen },
            ..before
        })
        &&& effects == Seq::<EffectView>::empty()
    }
}

/// What a resolved model stands for.
pub open spec fn resolved(r: Option<(Backend, String)>) -> Option<(Backend, Seq<char>)> {
    match r {
        Some(p) => Some((p.0, p.1@)),
        None => None,
    }
}

/// The writes that a pick of a model asks for, in their order.
pub open spec fn pick_writes(a: App, id: Seq<char>) -> Seq<EffectView> {
    match a.catalog.target {
        ModelPickTarget::Session => match a.talk.session {
            Some(s) => seq![
                EffectView::SetSessionModel { session_id: s.id@, model: id },
                EffectView::MarkModelUsed { model: id },
            ],
            None => seq![EffectView::MarkModelUsed { model: id }],
        },
        ModelPickTarget::SwarmPersona(row) => match a.talk.session {
            Some(s) => seq![
                EffectView::SaveRoster {
                    session_id: s.id@,
                    personas: with_model(views(a.swarm.cache@), row as int, id),
                },
            ],
            None => Seq::empty(),
        },
        other => seq![EffectView::SetSetting { key: setting_of(other), value: id }],
    }
}

/// A roster with another model for one row.
pub open spec fn with_model(v: Seq<PersonaView>, row: int, model: Seq<char>) -> Seq<PersonaView> {
    if 0 <= row < v.len() { v.update(row, PersonaView { model, ..v[row] }) } else { v }
}

/// The setting under which the model for a purpose is stored.
pub open spec fn setting_of(t: ModelPickTarget) -> Seq<char> {
    match t {
        ModelPickTarget::Memory => "memory_model"@,
        ModelPickTarget::Transcriber => "transcriber_model"@,
        ModelPickTarget::Ocr => "ocr_model"@,
        ModelPickTarget::Research => "research_model"@,
        ModelPickTarget::Escalation => "escalation_model"@,
        ModelPickTarget::ImageGen => "image_gen_model"@,
        ModelPickTarget::VideoGen => "video_gen_model"@,
        _ => Seq::empty(),
    }
}

/// What the status says of a model for a purpose.
pub open spec fn pick_words(t: ModelPickTarget) -> Seq<char> {
    match t {
        ModelPickTarget::Memory => "memory model: "@,
        ModelPickTarget::Transcriber => "image model: "@,
        ModelPickTarget::Ocr => "OCR model: "@,
        ModelPickTarget::Research => "research model: "@,
        ModelPickTarget::Escalation => "escalation model: "@,
        ModelPickTarget::ImageGen => "image gen model: "@,
        ModelPickTarget::VideoGen => "video gen model: "@,
        _ => Seq::empty(),
    }
}

pub(crate) fn setting_name(t: ModelPickTarget) -> (r: &'static str)
    requires
        !(t is Session) && !(t is SwarmPersona),
    ensures
        r@ == setting_of(t),
{
    match t {
        ModelPickTarget::Memory => "memory_model",
        ModelPickTarget::Transcriber => "transcriber_model",
        ModelPickTarget::Ocr => "ocr_model",
        ModelPickTarget::Research => "research_model",
        ModelPickTarget::Escalation => "escalation_model",
        ModelPickTarget::ImageGen => "image_gen_model",
        _ => "video_gen_model",
    }
}

fn pick_label(t: ModelPickTarget) -> (r: &'static str)
    requires
        !(t is Session) && !(t is SwarmPersona),
    ensures
        r@ == pick_words(t),
{
    match t {
        ModelPickTarget::Memory => "memory model: ",
        ModelPickTarget::Transcriber => "image model: ",
        ModelPickTarget::Ocr => "OCR model: ",
        ModelPickTarget::Research => "research model: ",
        ModelPickTarget::Escalation => "escalation model: ",
        ModelPickTarget::ImageGen => "image gen model: ",
        _ => "video gen model: ",
    }
}

impl Config {
    /// The configuration with another model for a purpose.
    pub open spec fn with(&self, t: ModelPickTarget, model: String) -> Config {
        match t {
            ModelPickTarget::Memory => Config { memory_model: model, ..*self },
            ModelPickTarget::Transcriber => Config { transcriber_model: model, ..*self },
            ModelPickTarget::Ocr => Config { ocr_model: model, ..*self },
            ModelPickTarget::Research => Config { research_model: model, ..*self },
            ModelPickTarget::Escalation => Config { escalation_model: model, ..*self },
            ModelPickTarget::ImageGen => Config { image_gen_model: model, ..*self },
            ModelPickTarget::VideoGen => Config { video_gen_model: model, ..*self },
            _ => *self,
        }
    }

    fn set_model(&mut self, t: ModelPickTarget, model: String)
        ensures
            *final(self) == old(self).with(t, model),
    {
        match t {
            ModelPickTarget::Memory => {
                self.memory_model = model;
            },
            ModelPickTarget::Transcriber => {
                self.transcriber_model = model;
            },
            ModelPickTarget::Ocr => {
                self.ocr_model = model;
            },
            ModelPickTarget::Research => {
                self.research_model = model;
            },
            ModelPickTarget::Escalation => {
                self.escalation_model = model;
            },
            ModelPickTarget::ImageGen => {
                self.image_gen_model = model;
            },
            ModelPickTarget::VideoGen => {
                self.video_gen_model = model;
            },
            _ => {},
        }
    }
}

impl Backends {
    /// The backend that takes ids without a prefix.
    pub(crate) fn first_backend(&self) -> (r: Option<Backend>)
        ensures
            r == self.first(),
    {
        if let Some(b) = &self.openrouter {
            return Some(b.clone());
        }
        if let Some(b) = &self.openai {
            return Some(b.clone());
        }
        if let Some(b) = &self.opencode {
            return Some(b.clone());
        }
        if let Some(b) = &self.codex {
            return Some(b.clone());
        }
        None
    }
}

/// What a key that was pasted changes and asks for.
pub open spec fn key_confirmed(
    before: App,
    after: App,
    effects: Seq<EffectView>,
    utility_model: String,
    research_model: String,
) -> bool {
    let key = trim(before.login.key_input@);
    if key.len() == 0 {
        &&& after == (App {
            login: LoginPopup {
                key_input: after.login.key_input,
                ..before.login
            },
            screen: Screen {
                popup: Popup::Closed,
                status: after.screen.status,
                ..before.screen
            },
            ..before
        })
        &&& after.login.key_input@ == Seq::<char>::empty()
        &&& after.screen.status@ == "no key entered"@
        &&& effects == Seq::<EffectView>::empty()
    } else {
        &&& after.saved.key_of(before.login.key_target) is Some
        &&& after.saved.key_of(before.login.key_target)->0@ == key
        &&& after.login.key_input@ == Seq::<char>::empty()
        &&& activated(
            App {
                login: LoginPopup {
                    key_input: after.login.key_input,
                    ..before.login
                },
                ..before
            },
            after,
            before.login.key_target,
            after.saved.key_of(before.login.key_target)->0,
            utility_model,
            research_model,
        )
        &&& effects == activation_writes(before.login.key_target, key)
    }
}

/// What it changes that the focused model is a favorite now, or none.
pub open spec fn favorite_toggled(
    before: App,
    after: App,
    now: Option<bool>,
) -> bool {
    match (before.catalog.focused(), now) {
        (Some(id), Some(fav)) => {
            &&& after == (App {
                catalog: Catalog {
                    favorites: after.catalog.favorites,
                    fav_state: after.catalog.fav_state,
                    avail_state: after.catalog.avail_state,
                    ..before.catalog
                },
                screen: Screen { status: after.screen.status, ..before.screen },
                ..before
            })
            &&& after.catalog.favorites@ == (if fav {
                before.catalog.favorites@.insert(id)
            } else {
                before.catalog.favorites@.remove(id)
            })
            &&& ({
                let c = Catalog {
                    favorites: after.catalog.favorites,
                    ..before.catalog
                };
                after.catalog.fav_state == kept_row(
                    before.catalog.fav_state,
                    c.panel(true).len(),
                )
            })
            &&& ({
                let c = Catalog {
                    favorites: after.catalog.favorites,
                    fav_state: after.catalog.fav_state,
                    ..before.catalog
                };
                after.catalog.avail_state == kept_row(
                    before.catalog.avail_state,
                    c.panel(false).len(),
                )
            })
            &&& after.screen.status@ == (if fav {
                "★ favorited "@ + id
            } else {
                "unfavorited "@ + id
            })
        },
        _ => after == before,
    }
}

impl App {
    /// The backend and the raw id of a model.
    pub fn resolve_model_backend(&self, id: &str) -> (r: Option<(Backend, String)>)
        ensures
            resolved(r) == self.backends.route(id@),
    {
        self.backends.resolve(id)
    }

    /// The backend and the raw id of the model for background jobs.
    pub fn resolve_utility_model_backend(&self, configured_id: &str) -> (r: Option<
        (Backend, String),
    >)
        ensures
            resolved(r) == feature_route(
                self.backends,
                self.catalog,
                configured_id@,
                Feature::Utility,
            ),
    {
        self.resolve_feature_model_backend(configured_id, Feature::Utility)
    }

    /// The backend and the raw id of the model for a feature.
    pub fn resolve_feature_model_backend(&self, configured_id: &str, feature: Feature) -> (r:
        Option<(Backend, String)>)
        ensures
            resolved(r) == feature_route(self.backends, self.catalog, configured_id@, feature),
    {
        let id = trimmed(configured_id);
        if !id.is_empty() {
            if let Some((provider, raw)) = self.backends.resolve(id) {
                if self.catalog.resolved_model_looks_valid(id, provider.tag, raw.as_str()) {
                    return Some((provider, raw));
                }
            }
        }
        let of_current = match &self.catalog.current {
            Some(m) => match self.backends.resolve(m.as_str()) {
                Some((provider, _)) => Some(provider),
                None => None,
            },
            None => None,
        };
        let provider = match of_current {
            Some(p) => Some(p),
            None => self.backends.first_backend(),
        };
        match provider {
            Some(p) => {
                let model = match feature {
                    Feature::Utility => p.utility_model.clone(),
                    Feature::Research => p.research_model.clone(),
                };
                Some((p, model))
            },
            None => None,
        }
    }

    /// Shows the models of the next backend in the picker, or of all.
    pub fn cycle_model_backend_filter(&mut self)
        requires
            old(self).wf(),
        ensures
            ({
                let tags = old(self).backends.configured(all_tags());
                *final(self) == (App {
                    catalog: if tags.len() == 0 {
                        Catalog { backend_filter: None, ..old(self).catalog }
                    } else {
                        let c = Catalog {
                            backend_filter: next_filter(tags, old(self).catalog.backend_filter),
                            ..old(self).catalog
                        };
                        Catalog {
                            fav_state: first_row(c.panel(true).len()),
                            avail_state: first_row(c.panel(false).len()),
                            ..c
                        }
                    },
                    ..*old(self)
                })
            }),
    {
        let tags = self.backends.configured_tags();
        if tags.len() == 0 {
            self.catalog.backend_filter = None;
            return;
        }
        let next = match self.catalog.backend_filter {
            None => Some(tags[0]),
            Some(cur) => {
                let mut i: usize = 0;
                while i < tags.len() && tags[i] != cur
                    invariant
                        i <= tags@.len(),
                        tag_at(tags@, cur, 0) == tag_at(tags@, cur, i as int),
                    decreases tags@.len() - i,
                {
                    i += 1;
                }
                if i < tags.len() && i + 1 < tags.len() {
                    Some(tags[i + 1])
                } else {
                    None
                }
            },
        };
        self.catalog.backend_filter = next;
        self.catalog.reset_model_selection();
    }

    /// Starts to fetch the catalogs.
    fn fetch_models(&mut self) -> (r: Vec<Effect>)
        ensures
            *final(self) == (App {
                jobs: Jobs {
                    models: old(self).backends.first() is Some || old(self).jobs.models,
                    ..old(self).jobs
                },
                ..*old(self)
            }),
            views(r@) == (if old(self).backends.first() is Some {
                seq![EffectView::FetchModels]
            } else {
                Seq::empty()
            }),
    {
        if self.backends.any() {
            self.jobs.models = true;
            one_effect(Effect::FetchModels)
        } else {
            no_effects()
        }
    }

    /// Opens the model picker for a purpose. Without a backend the login popup
    /// opens; without a catalog one is fetched.
    pub fn open_model_picker_for(&mut self, target: ModelPickTarget) -> (r: Vec<Effect>)
        requires
            old(self).wf(),
        ensures
            picker_opened(*old(self), *final(self), target, views(r@)),
    {
        self.catalog.target = target;
        if !self.backends.any() {
            self.open_login_popup();
            return no_effects();
        }
        if self.catalog.models.len() == 0 {
            self.screen.status = "loading models…".to_owned();
            self.screen.popup = Popup::Model;
            return self.fetch_models();
        }
        self.catalog.begin_pick();
        self.screen.popup = Popup::Model;
        no_effects()
    }

    /// Opens the model picker for the session's model.
    pub fn open_model_picker(&mut self) -> (r: Vec<Effect>)
        requires
            old(self).wf(),
        ensures
            picker_opened(*old(self), *final(self), ModelPickTarget::Session, views(r@)),
    {
        self.open_model_picker_for(ModelPickTarget::Session)
    }

    /// Opens the login popup.
    pub fn open_login_popup(&mut self)
        ensures
            *final(self) == (App {
                login: LoginPopup { selected: 0, ..old(self).login },
                screen: Screen { popup: Popup::Login, ..old(self).screen },
                ..*old(self)
            }),
    {
        self.login.selected = 0;
        self.screen.popup = Popup::Login;
    }

    /// Moves the cursor of the login popup.
    pub fn move_login_selection(&mut self, delta: i32)
        ensures
            *final(self) == (App {
                login: LoginPopup {
                    selected: moved(old(self).login.selected as int, 4, delta as int) as usize,
                    ..old(self).login
                },
                ..*old(self)
            }),
    {
        self.login.selected = clamp_cursor(self.login.selected, 4, delta);
    }

    /// The label of the backend that the key popup asks for.
    pub fn key_target_label(&self) -> (r: &'static str)
        ensures
            r@ == target_label(self.login.key_target),
    {
        label_of(self.login.key_target)
    }

    /// Takes a key into use: its backend is configured, the key is stored and
    /// the catalogs are fetched. `utility_model` and `research_model` are the
    /// models that the backend has for background jobs and for research.
    fn activate_key(
        &mut self,
        target: KeyTarget,
        key: String,
        utility_model: String,
        research_model: String,
    ) -> (r: Vec<Effect>)
        ensures
            activated(*old(self), *final(self), target, key, utility_model, research_model),
            views(r@) == activation_writes(target, key@),
    {
        let backend = Backend {
            tag: tag_of(target),
            key: key.clone(),
            utility_model,
            research_model,
        };
        self.saved.keep(target, key.clone());
        self.backends.set(tag_of(target), backend);
        self.screen.popup = Popup::Closed;
        self.screen.status = "key saved, loading models…".to_owned();
        self.jobs.models = true;
        let r = and_effect(
            one_effect(Effect::SaveKey { backend: name_of(target).to_owned(), key }),
            Effect::FetchModels,
        );
        assert(views(r@) =~= activation_writes(target, key@));
        r
    }

    /// Starts to log in to a backend with a key: the one in the environment
    /// where there is one, else the key popup asks for it.
    fn start_key_login(
        &mut self,
        target: KeyTarget,
        env: &Option<String>,
        utility_model: String,
        research_model: String,
    ) -> (r: Vec<Effect>)
        ensures
            key_login(*old(self), *final(self), views(r@), target, *env, utility_model, research_model),
    {
        if let Some(v) = env {
            let v = trimmed(v.as_str()).to_owned();
            if !v.as_str().is_empty() {
                return self.activate_key(target, v, utility_model, research_model);
            }
        }
        self.login.key_target = target;
        self.login.key_input = String::new();
        let mut s = "paste your ".to_owned();
        s.append(label_of(target));
        s.append(" API key, then Enter");
        self.screen.status = s;
        self.screen.popup = Popup::Key;
        no_effects()
    }

    /// Takes the selected row of the login popup. `env` is what the
    /// environment holds for that backend.
    pub fn confirm_login_selection(
        &mut self,
        env: &Option<String>,
        utility_model: String,
        research_model: String,
    ) -> (r: Vec<Effect>)
        ensures
            match row_target(old(self).login.selected as int) {
                Some(target) => key_login(
                    *old(self),
                    *final(self),
                    views(r@),
                    target,
                    *env,
                    utility_model,
                    research_model,
                ),
                None => *final(self) == (App {
                    jobs: Jobs { login: true, ..old(self).jobs },
                    screen: Screen { status: final(self).screen.status, ..old(self).screen },
                    ..*old(self)
                }) && final(self).screen.status@ == "starting OpenAI Codex login…"@ && views(r@)
                    == seq![EffectView::StartCodexLogin],
            },
    {
        match self.login.selected {
            0 => self.start_key_login(KeyTarget::OpenRouter, env, utility_model, research_model),
            1 => self.start_key_login(KeyTarget::OpencodeGo, env, utility_model, research_model),
            2 => self.start_key_login(KeyTarget::OpenAi, env, utility_model, research_model),
            _ => self.start_codex_login(),
        }
    }

    /// Starts the device login of Codex, in place of one that hangs.
    pub fn start_codex_login(&mut self) -> (r: Vec<Effect>)
        ensures
            *final(self) == (App {
                jobs: Jobs { login: true, ..old(self).jobs },
                screen: Screen { status: final(self).screen.status, ..old(self).screen },
                ..*old(self)
            }),
            final(self).screen.status@ == "starting OpenAI Codex login…"@,
            views(r@) == seq![EffectView::StartCodexLogin],
    {
        self.jobs.login = true;
        self.screen.status = "starting OpenAI Codex login…".to_owned();
        one_effect(Effect::StartCodexLogin)
    }

    /// Takes the key that was pasted, unless it is blank.
    pub fn confirm_key(&mut self, utility_model: String, research_model: String) -> (r: Vec<Effect>)
        ensures
            key_confirmed(*old(self), *final(self), views(r@), utility_model, research_model),
    {
        let key = trimmed(self.login.key_input.as_str()).to_owned();
        self.login.key_input = String::new();
        if key.as_str().is_empty() {
            self.screen.status = "no key entered".to_owned();
            self.screen.popup = Popup::Closed;
            return no_effects();
        }
        self.activate_key(self.login.key_target, key, utility_model, research_model)
    }

    /// Gives the focused model the next reasoning effort, where it has any.
    /// `stored` says whether the store has taken the write of
    /// `next_effort_write`; where it has not, nothing changes.
    #[verifier::rlimit(40)]
    pub fn cycle_reasoning_focused(&mut self, stored: bool)
        requires
            old(self).wf(),
        ensures
            final(self).wf(),
            match old(self).catalog.focused() {
                None => *final(self) == *old(self),
                Some(id) => if !old(self).catalog.reasons(id) {
                    *final(self) == (App {
                        screen: Screen { status: final(self).screen.status, ..old(self).screen },
                        ..*old(self)
                    }) && final(self).screen.status@ == id + " has no reasoning setting"@
                } else if !stored {
                    *final(self) == *old(self)
                } else {
                    &&& *final(self) == (App {
                        catalog: Catalog {
                            reasoning: final(self).catalog.reasoning,
                            ..old(self).catalog
                        },
                        screen: Screen { status: final(self).screen.status, ..old(self).screen },
                        ..*old(self)
                    })
                    &&& match old(self).catalog.effort_after(id) {
                        Some(e) => final(self).catalog.reasoning@
                            == old(self).catalog.reasoning@.insert(id, e)
                            && final(self).screen.status@ == "reasoning "@ + e + ": "@ + id,
                        None => final(self).catalog.reasoning@
                            == old(self).catalog.reasoning@.remove(id)
                            && final(self).screen.status@ == "reasoning off: "@ + id,
                    }
                },
            },
    {
        let id = match self.catalog.focused_id() {
            Some(id) => id,
            None => {
                return;
            },
        };
        if !self.catalog.model_supports_reasoning(id.as_str()) {
            self.screen.status = concat(id.as_str(), " has no reasoning setting");
            return;
        }
        if !stored {
            return;
        }
        let s = self.catalog.take_effort(id);
        self.screen.status = s;
    }

    /// Makes the focused model a favorite or no favorite. `now` is what the
    /// store says that it is now; where it could not be asked, nothing changes.
    pub fn toggle_favorite_focused(&mut self, now: Option<bool>)
        requires
            old(self).wf(),
        ensures
            final(self).wf(),
            favorite_toggled(*old(self), *final(self), now),
    {
        let id = match self.catalog.focused_id() {
            Some(id) => id,
            None => {
                return;
            },
        };
        let fav = match now {
            Some(fav) => fav,
            None => {
                return;
            },
        };
        let s = if fav {
            concat("★ favorited ", id.as_str())
        } else {
            concat("unfavorited ", id.as_str())
        };
        self.catalog.take_favorite(id, fav);
        self.screen.status = s;
    }

    /// The writes that a pick of a model asks for.
    pub fn pick_effects(&self, id: &str) -> (r: Vec<Effect>)
        ensures
            views(r@) == pick_writes(*self, id@),
    {
        match self.catalog.target {
            ModelPickTarget::Session => match &self.talk.session {
                Some(s) => {
                    let r = and_effect(
                        one_effect(
                            Effect::SetSessionModel {
                                session_id: s.id.clone(),
                                model: id.to_owned(),
                            },
                        ),
                        Effect::MarkModelUsed { model: id.to_owned() },
                    );
                    assert(views(r@) =~= pick_writes(*self, id@));
                    r
                },
                None => one_effect(Effect::MarkModelUsed { model: id.to_owned() }),
            },
            ModelPickTarget::SwarmPersona(row) => match &self.talk.session {
                Some(s) => one_effect(
                    Effect::SaveRoster {
                        session_id: s.id.clone(),
                        personas: roster_with_model(&self.swarm.cache, row, id),
                    },
                ),
                None => no_effects(),
            },
            other => one_effect(
                Effect::SetSetting { key: setting_name(other).to_owned(), value: id.to_owned() },
            ),
        }
    }

    /// Takes a model into use for what the picker was opened for. `now` is the
    /// time, and `stored` says whether the store has taken the writes of
    /// `pick_effects`; where it has not, the model is in use all the same, but
    /// nothing else changes. A swarm's roster is kept either way.
    pub fn pick_model(&mut self, id: String, now: String, stored: bool)
        requires
            old(self).wf(),
        ensures
            final(self).wf(),
            picked(*old(self), *final(self), id, now, stored),
    {
        match self.catalog.target {
            ModelPickTarget::Session => self.pick_for_session(id, now, stored),
            ModelPickTarget::SwarmPersona(row) => self.pick_for_persona(row, id),
            other => self.pick_for_setting(other, id, stored),
        }
    }

    fn pick_for_session(&mut self, id: String, now: String, stored: bool)
        requires
            old(self).wf(),
            old(self).catalog.target is Session,
        ensures
            final(self).wf(),
            picked(*old(self), *final(self), id, now, stored),
    {
        if stored {
            self.screen.turn_to(Popup::Closed, concat("model: ", id.as_str()));
        }
        self.catalog.take_model(id, now, stored);
    }

    fn pick_for_persona(&mut self, row: usize, id: String)
        requires
            old(self).wf(),
            old(self).catalog.target == ModelPickTarget::SwarmPersona(row),
        ensures
            final(self).wf(),
            forall|now: String, stored: bool| #[trigger]
                picked(*old(self), *final(self), id, now, stored),
    {
        let roster = roster_with_model(&self.swarm.cache, row, id.as_str());
        self.swarm.cache = roster;
        self.screen.turn_to(Popup::Swarm, concat("persona model: ", id.as_str()));
    }

    fn pick_for_setting(&mut self, target: ModelPickTarget, id: String, stored: bool)
        requires
            old(self).wf(),
            old(self).catalog.target == target,
            !(target is Session) && !(target is SwarmPersona),
        ensures
            final(self).wf(),
            forall|now: String| #[trigger] picked(*old(self), *final(self), id, now, stored),
    {
        if stored {
            self.screen.turn_to(Popup::Settings, concat(pick_label(target), id.as_str()));
        }
        self.config.set_model(target, id);
    }

    /// Takes the focused model into use.
    pub fn confirm_model(&mut self, now: String, stored: bool)
        requires
            old(self).wf(),
        ensures
            final(self).wf(),
            match old(self).catalog.focused() {
                None => *final(self) == *old(self),
                Some(id) => exists|s: String| #[trigger]
                    picked(*old(self), *final(self), s, now, stored) && s@ == id,
            },
    {
        if let Some(id) = self.catalog.focused_id() {
            self.pick_model(id, now, stored);
        }
    }

    /// Takes the model at a row of a panel into use, and moves the focus there;
    /// a row behind the last moves the focus alone.
    pub fn pick_model_at(&mut self, panel: ModelPanel, index: usize, now: String, stored: bool)
        requires
            old(self).wf(),
        ensures
            final(self).wf(),
            ({
                let a = App {
                    catalog: Catalog { focus: panel, ..old(self).catalog },
                    ..*old(self)
                };
                let b = App {
                    catalog: a.catalog.with_state(panel, Some(index)),
                    ..a
                };
                match a.catalog.id_in(panel, index as int) {
                    None => *final(self) == a,
                    Some(id) => exists|s: String| #[trigger]
                        picked(b, *final(self), s, now, stored) && s@ == id,
                }
            }),
    {
        self.catalog.focus = panel;
        match self.catalog.id_at(panel, index) {
            None => {},
            Some(id) => {
                self.catalog.select(panel, Some(index));
                self.pick_model(id, now, stored);
            },
        }
    }

    /// Disables memory extraction. `stored` says whether the store
    /// has taken the write of `cleared_model`; where it has not, the blank model is
    /// in use all the same.
    pub fn clear_memory_model(&mut self, stored: bool)
        ensures
            *final(self) == (App {
                config: Config { memory_model: final(self).config.memory_model, ..old(self).config },
                screen: Screen { status: final(self).screen.status, ..old(self).screen },
                ..*old(self)
            }),
            final(self).config.memory_model@ == Seq::<char>::empty(),
            if stored {
                final(self).screen.status@ == "memory model cleared — extraction disabled"@
            } else {
                final(self).screen.status == old(self).screen.status
            },
    {
        self.config.memory_model = String::new();
        if stored {
            self.screen.status = "memory model cleared — extraction disabled".to_owned();
        }
    }

    /// Disables image descriptions. `stored` says whether the store
    /// has taken the write of `cleared_model`; where it has not, the blank model is
    /// in use all the same.
    pub fn clear_transcriber_model(&mut self, stored: bool)
        ensures
            *final(self) == (App {
                config: Config { transcriber_model: final(self).config.transcriber_model, ..old(self).config },
                screen: Screen { status: final(self).screen.status, ..old(self).screen },
                ..*old(self)
            }),
            final(self).config.transcriber_model@ == Seq::<char>::empty(),
            if stored {
                final(self).screen.status@ == "image model cleared — image descriptions disabled"@
            } else {
                final(self).screen.status == old(self).screen.status
            },
    {
        self.config.transcriber_model = String::new();
        if stored {
            self.screen.status = "image model cleared — image descriptions disabled".to_owned();
        }
    }

    /// Disables OCR by a vision model. `stored` says whether the store
    /// has taken the write of `cleared_model`; where it has not, the blank model is
    /// in use all the same.
    pub fn clear_ocr_model(&mut self, stored: bool)
        ensures
            *final(self) == (App {
                config: Config { ocr_model: final(self).config.ocr_model, ..old(self).config },
                screen: Screen { status: final(self).screen.status, ..old(self).screen },
                ..*old(self)
            }),
            final(self).config.ocr_model@ == Seq::<char>::empty(),
            if stored {
                final(self).screen.status@ == "OCR model cleared — scanned PDFs use tesseract"@
            } else {
                final(self).screen.status == old(self).screen.status
            },
    {
        self.config.ocr_model = String::new();
        if stored {
            self.screen.status = "OCR model cleared — scanned PDFs use tesseract".to_owned();
        }
    }

    /// Disables research. `stored` says whether the store
    /// has taken the write of `cleared_model`; where it has not, the blank model is
    /// in use all the same.
    pub fn clear_research_model(&mut self, stored: bool)
        ensures
            *final(self) == (App {
                config: Config { research_model: final(self).config.research_model, ..old(self).config },
                screen: Screen { status: final(self).screen.status, ..old(self).screen },
                ..*old(self)
            }),
            final(self).config.research_model@ == Seq::<char>::empty(),
            if stored {
                final(self).screen.status@ == "research model cleared — /research disabled"@
            } else {
                final(self).screen.status == old(self).screen.status
            },
    {
        self.config.research_model = String::new();
        if stored {
            self.screen.status = "research model cleared — /research disabled".to_owned();
        }
    }

    /// Lets research settle contradictions with its own model. `stored` says whether the store
    /// has taken the write of `cleared_model`; where it has not, the blank model is
    /// in use all the same.
    pub fn clear_escalation_model(&mut self, stored: bool)
        ensures
            *final(self) == (App {
                config: Config { escalation_model: final(self).config.escalation_model, ..old(self).config },
                screen: Screen { status: final(self).screen.status, ..old(self).screen },
                ..*old(self)
            }),
            final(self).config.escalation_model@ == Seq::<char>::empty(),
            if stored {
                final(self).screen.status@ == "escalation model cleared — falls back to research model"@
            } else {
                final(self).screen.status == old(self).screen.status
            },
    {
        self.config.escalation_model = String::new();
        if stored {
            self.screen.status = "escalation model cleared — falls back to research model".to_owned();
        }
    }

    /// Disables image generation. `stored` says whether the store
    /// has taken the write of `cleared_model`; where it has not, the blank model is
    /// in use all the same.
    pub fn clear_image_gen_model(&mut self, stored: bool)
        ensures
            *final(self) == (App {
                config: Config { image_gen_model: final(self).config.image_gen_model, ..old(self).config },
                screen: Screen { status: final(self).screen.status, ..old(self).screen },
                ..*old(self)
            }),
            final(self).config.image_gen_model@ == Seq::<char>::empty(),
            if stored {
                final(self).screen.status@ == "image gen model cleared — generation disabled"@
            } else {
                final(self).screen.status == old(self).screen.status
            },
    {
        self.config.image_gen_model = String::new();
        if stored {
            self.screen.status = "image gen model cleared — generation disabled".to_owned();
        }
    }

    /// Disables video generation. `stored` says whether the store
    /// has taken the write of `cleared_model`; where it has not, the blank model is
    /// in use all the same.
    pub fn clear_video_gen_model(&mut self, stored: bool)
        ensures
            *final(self) == (App {
                config: Config { video_gen_model: final(self).config.video_gen_model, ..old(self).config },
                screen: Screen { status: final(self).screen.status, ..old(self).screen },
                ..*old(self)
            }),
            final(self).config.video_gen_model@ == Seq::<char>::empty(),
            if stored {
                final(self).screen.status@ == "video gen model cleared — generation disabled"@
            } else {
                final(self).screen.status == old(self).screen.status
            },
    {
        self.config.video_gen_model = String::new();
        if stored {
            self.screen.status = "video gen model cleared — generation disabled".to_owned();
        }
    }
}

/// What a key in use changes.
pub open spec fn activated(
    a: App,
    b: App,
    target: KeyTarget,
    key: String,
    utility_model: String,
    research_model: String,
) -> bool {
    &&& b == (App {
        backends: b.backends,
        saved: b.saved,
        jobs: Jobs { models: true, ..a.jobs },
        screen: Screen { popup: Popup::Closed, status: b.screen.status, ..a.screen },
        ..a
    })
    &&& b.screen.status@ == "key saved, loading models…"@
    &&& b.saved.codex == a.saved.codex
    &&& forall|u: KeyTarget| #[trigger]
        b.saved.key_of(u) == (if u == target { Some(key) } else { a.saved.key_of(u) })
    &&& forall|t: BackendTag| #[trigger]
        b.backends.of(t) == (if t == target_tag(target) {
            Some(Backend { tag: t, key, utility_model, research_model })
        } else {
            a.backends.of(t)
        })
}

/// What a key in use asks for.
pub open spec fn activation_writes(target: KeyTarget, key: Seq<char>) -> Seq<EffectView> {
    seq![EffectView::SaveKey { backend: target_name(target), key }, EffectView::FetchModels]
}

/// What the start of a login with a key changes: the key in the environment is
/// taken, or the key popup asks for one.
pub open spec fn key_login(
    a: App,
    b: App,
    effects: Seq<EffectView>,
    target: KeyTarget,
    env: Option<String>,
    utility_model: String,
    research_model: String,
) -> bool {
    if env is Some && trim(env->0@).len() > 0 {
        &&& b.saved.key_of(target) is Some
        &&& b.saved.key_of(target)->0@ == trim(env->0@)
        &&& activated(a, b, target, b.saved.key_of(target)->0, utility_model, research_model)
        &&& effects == activation_writes(target, trim(env->0@))
    } else {
        &&& b == (App {
            login: LoginPopup {
                key_target: target,
                key_input: b.login.key_input,
                ..a.login
            },
            screen: Screen { popup: Popup::Key, status: b.screen.status, ..a.screen },
            ..a
        })
        &&& b.login.key_input@ == Seq::<char>::empty()
        &&& b.screen.status@ == "paste your "@ + target_label(target) + " API key, then Enter"@
        &&& effects == Seq::<EffectView>::empty()
    }
}

/// The backend of a row of the login popup; Codex has no key.
pub open spec fn row_target(row: int) -> Option<KeyTarget> {
    if row == 0 {
        Some(KeyTarget::OpenRouter)
    } else if row == 1 {
        Some(KeyTarget::OpencodeGo)
    } else if row == 2 {
        Some(KeyTarget::OpenAi)
    } else {
        None
    }
}

/// What a pick of a model changes.
pub open spec fn picked(a: App, b: App, id: String, now: String, stored: bool) -> bool {
    match a.catalog.target {
        ModelPickTarget::Session => if stored {
            &&& b == (App {
                catalog: Catalog {
                    current: Some(id),
                    last_used: b.catalog.last_used,
                    ..a.catalog
                },
                screen: Screen { popup: Popup::Closed, status: b.screen.status, ..a.screen },
                ..a
            })
            &&& b.catalog.last_used@ == a.catalog.last_used@.insert(id@, now@)
            &&& b.screen.status@ == "model: "@ + id@
        } else {
            b == (App { catalog: Catalog { current: Some(id), ..a.catalog }, ..a })
        },
        ModelPickTarget::SwarmPersona(row) => {
            &&& b == (App {
                swarm: SwarmState { cache: b.swarm.cache, ..a.swarm },
                screen: Screen { popup: Popup::Swarm, status: b.screen.status, ..a.screen },
                ..a
            })
            &&& views(b.swarm.cache@) == with_model(views(a.swarm.cache@), row as int, id@)
            &&& b.screen.status@ == "persona model: "@ + id@
        },
        other => {
            &&& b == (App {
                config: a.config.with(other, id),
                screen: if stored {
                    Screen { popup: Popup::Settings, status: b.screen.status, ..a.screen }
                } else {
                    a.screen
                },
                ..a
            })
            &&& stored ==> b.screen.status@ == pick_words(other) + id@
        },
    }
}

fn roster_with_model(v: &Vec<Persona>, row: usize, model: &str) -> (r: Vec<Persona>)
    ensures
        views(r@) == with_model(views(v@), row as int, model@),
{
    let mut out = copied_roster(v);
    assert(views(v@).len() == v@.len());
    if row < out.len() {
        let mut p = out[row].clone();
        p.model = model.to_owned();
        out.set(row, p);
        assert(views(out@) =~= with_model(views(v@), row as int, model@));
    }
    out
}

impl Screen {
    /// Opens or closes a popup and shows a status.
    pub(crate) fn turn_to(&mut self, popup: Popup, status: String)
        ensures
            *final(self) == (Screen { popup, status, ..*old(self) }),
    {
        self.popup = popup;
        self.status = status;
    }
}

impl Catalog {
    /// Makes a model the active one; `used` says whether it counts as used now.
    fn take_model(&mut self, id: String, now: String, used: bool)
        requires
            old(self).wf(),
        ensures
            final(self).wf(),
            *final(self) == (Catalog {
                current: Some(id),
                last_used: final(self).last_used,
                ..*old(self)
            }),
            if used {
                final(self).last_used@ == old(self).last_used@.insert(id@, now@)
            } else {
                final(self).last_used == old(self).last_used
            },
    {
        self.current = Some(id.clone());
        if used {
            self.last_used.insert(id, now);
        }
    }

    /// Gives a model the next reasoning effort, and says so.
    fn take_effort(&mut self, id: String) -> (r: String)
        requires
            old(self).wf(),
        ensures
            final(self).wf(),
            *final(self) == (Catalog { reasoning: final(self).reasoning, ..*old(self) }),
            match old(self).effort_after(id@) {
                Some(e) => final(self).reasoning@ == old(self).reasoning@.insert(id@, e) && r@
                    == "reasoning "@ + e + ": "@ + id@,
                None => final(self).reasoning@ == old(self).reasoning@.remove(id@) && r@
                    == "reasoning off: "@ + id@,
            },
    {
        match self.next_effort(id.as_str()) {
            Some(e) => {
                let mut s = "reasoning ".to_owned();
                s.append(e);
                s.append(": ");
                s.append(id.as_str());
                self.reasoning.insert(id, e.to_owned());
                s
            },
            None => {
                self.reasoning.remove(id.as_str());
                concat("reasoning off: ", id.as_str())
            },
        }
    }

    /// Makes a model a favorite or no favorite, and keeps the cursors in their
    /// panels.
    fn take_favorite(&mut self, id: String, fav: bool)
        requires
            old(self).wf(),
        ensures
            final(self).wf(),
            *final(self) == (Catalog {
                favorites: final(self).favorites,
                fav_state: final(self).fav_state,
                avail_state: final(self).avail_state,
                ..*old(self)
            }),
            final(self).favorites@ == (if fav {
                old(self).favorites@.insert(id@)
            } else {
                old(self).favorites@.remove(id@)
            }),
            ({
                let c = Catalog { favorites: final(self).favorites, ..*old(self) };
                final(self).fav_state == kept_row(old(self).fav_state, c.panel(true).len())
            }),
            ({
                let c = Catalog {
                    favorites: final(self).favorites,
                    fav_state: final(self).fav_state,
                    ..*old(self)
                };
                final(self).avail_state == kept_row(old(self).avail_state, c.panel(false).len())
            }),
    {
        if fav {
            self.favorites.insert(id);
        } else {
            self.favorites.remove(id.as_str());
        }
        self.clamp_selection(ModelPanel::Favorites);
        self.clamp_selection(ModelPanel::Available);
    }

    /// Clears the search, and selects the first rows.
    fn begin_pick(&mut self)
        requires
            old(self).wf(),
        ensures
            final(self).filter@ == Seq::<char>::empty(),
            ({
                let d = Catalog { filter: final(self).filter, ..*old(self) };
                *final(self) == (Catalog {
                    focus: if d.panel(true).len() == 0 {
                        ModelPanel::Available
                    } else {
                        ModelPanel::Favorites
                    },
                    fav_state: first_row(d.panel(true).len()),
                    avail_state: first_row(d.panel(false).len()),
                    ..d
                })
            }),
    {
        self.filter = String::new();
        let n: usize = self.filtered_panel(true).len();
        self.reset_model_selection();
        self.focus = if n == 0 { ModelPanel::Available } else { ModelPanel::Favorites };
    }
}

} // verus!
