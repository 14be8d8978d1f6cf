//! The state of the client and how it begins.

use crate::backends::Backends;
use crate::chat::{
    greeting as greeting_of, pick_greeting, present_phrase, spinner_frame, spinner_glyph,
    thinking_now,
};
use crate::keyed::{TextMap, TextSet};
use crate::state::{
    default_settings, no_jobs, Catalog, ChatTasks, Config, Conversation, CopyMenu, FilePicker,
    FilesPopup, ImagesPopup, Jobs, LoginPopup, Notices, ResearchState, SavedKeys, Screen,
    SessionPicker, Settings, SettingsGroups, SettingsPopup, SkillsPopup, SpacePicker, Spinner,
    SwarmState, DEFAULT_SPACE, SETTINGS_INPUTS,
};
use crate::store::{ChatTask, ScriptRow, Skill, Space, SpinnerColor};
use crate::text::same;
use crate::ui::{
    AppsMode, FilesMode, ImagesMode, KeyTarget, ModelPanel, ModelPickTarget, Popup, SessionMode,
    SkillsMode, SpaceMode, SwarmPopupMode,
};
use std::collections::HashSet;
use vstd::prelude::*;
use vstd::string::*;

verus! {

/// The state of the client. What runs in the background is known here by
/// whether it runs.
pub struct App {
    pub backends: Backends,
    pub saved: SavedKeys,
    pub login: LoginPopup,
    pub active_space: Space,
    pub spaces: SpacePicker,
    pub sessions: SessionPicker,
    pub skills: SkillsPopup,
    pub files: FilesPopup,
    pub picker: FilePicker,
    pub images: ImagesPopup,
    pub scripts: Vec<ScriptRow>,
    pub catalog: Catalog,
    pub config: Config,
    pub settings_popup: SettingsPopup,
    pub copy: CopyMenu,
    pub jobs: Jobs,
    pub talk: Conversation,
    pub chats: ChatTasks,
    pub spinner: Spinner,
    pub swarm: SwarmState,
    pub research: ResearchState,
    pub notices: Notices,
    pub screen: Screen,
    pub apps_mode: AppsMode,
    /// Whether the server of local apps runs.
    pub app_server: bool,
    pub web_mode: bool,
    pub incognito: bool,
}

/// What is read from the outside before the client begins.
pub struct Startup {
    pub backends: Backends,
    pub saved: SavedKeys,
    /// The row of the default space, where the store has one.
    pub default_space: Option<Space>,
    /// The time now, as it is stored.
    pub now: String,
    pub skills: Vec<Skill>,
    pub base_system_prompt: String,
    pub banner: String,
    /// A number that picks the greeting.
    pub seed: usize,
    /// The directory that the file picker begins in.
    pub home: String,
    /// The most responses that stream in at once.
    pub max_chat_tasks: usize,
}

fn blank_inputs() -> (r: Vec<String>)
    ensures
        r@.len() == SETTINGS_INPUTS,
        forall|j: int| 0 <= j < r@.len() ==> (#[trigger] r@[j])@ == Seq::<char>::empty(),
{
    let mut inputs: Vec<String> = Vec::new();
    let mut i: usize = 0;
    while i < SETTINGS_INPUTS
        invariant
            i <= SETTINGS_INPUTS,
            inputs@.len() == i,
            forall|j: int| 0 <= j < i ==> (#[trigger] inputs@[j])@ == Seq::<char>::empty(),
        decreases SETTINGS_INPUTS - i,
    {
        inputs.push(String::new());
        i += 1;
    }
    inputs
}

impl App {
    /// What holds of every state: the sets and maps are in order, the thinking
    /// phrases exist, there is an edit buffer for each text row of the
    /// settings, and a row of the settings is selected.
    pub open spec fn wf(&self) -> bool {
        &&& self.catalog.wf()
        &&& self.notices.unread.wf()
        &&& self.spinner.thinking_idx < 16
        &&& self.settings_popup.inputs@.len() == SETTINGS_INPUTS
        &&& self.settings_popup.selected < 13
        &&& self.chats.wf()
    }

    /// The state at the start.
    pub fn new(start: Startup) -> (r: App)
        ensures
            r.wf(),
            r.backends == start.backends,
            r.saved == start.saved,
            match start.default_space {
                Some(s) => r.active_space == s,
                None => r.active_space.id@ == Seq::<char>::empty() && r.active_space.name@
                    == DEFAULT_SPACE@ && r.active_space.created_at == start.now,
            },
            r.skills.list == start.skills,
            r.config.base_system_prompt == start.base_system_prompt,
            r.screen.banner == start.banner,
            r.picker.dir == start.home,
            r.chats.limit == start.max_chat_tasks,
            r.screen.greeting@ == greeting_of(start.seed as int % 8),
            r.screen.status@ == (if start.backends.first() is Some {
                "loading models…  (/model to pick, /help for commands)"@
            } else {
                "no API key — set it with /key (or $OPENROUTER_API_KEY)"@
            }),
            r.config.memory_model@ == "google/gemini-2.5-flash-lite"@,
            r.config.transcriber_model@ == "google/gemini-2.5-flash-lite"@,
            r.config.search_provider@ == "auto"@,
            r.config.ocr_engine@ == "auto"@,
            r.config.verbosity@ == "concise"@,
            r.config.settings == default_settings(),
            r.blank(),
    {
        let status = if start.backends.any() {
            "loading models…  (/model to pick, /help for commands)".to_owned()
        } else {
            "no API key — set it with /key (or $OPENROUTER_API_KEY)".to_owned()
        };
        let active_space = match start.default_space {
            Some(s) => s,
            None => Space {
                id: String::new(),
                name: DEFAULT_SPACE.to_owned(),
                created_at: start.now,
            },
        };
        App {
            backends: start.backends,
            saved: start.saved,
            login: LoginPopup {
                selected: 0,
                key_input: String::new(),
                key_target: KeyTarget::OpenRouter,
            },
            active_space,
            spaces: SpacePicker {
                cache: Vec::new(),
                selected: 0,
                filter: String::new(),
                mode: SpaceMode::Browse,
                edit: String::new(),
            },
            sessions: SessionPicker {
                cache: Vec::new(),
                selected: 0,
                filter: String::new(),
                mode: SessionMode::Browse,
                edit: String::new(),
            },
            skills: SkillsPopup {
                list: start.skills,
                forced: None,
                mode: SkillsMode::Browse,
                selected: 0,
                edit: String::new(),
            },
            files: FilesPopup {
                cache: Vec::new(),
                selected: 0,
                mode: FilesMode::Browse,
                edit: String::new(),
            },
            picker: FilePicker {
                dir: start.home,
                entries: Vec::new(),
                filter: String::new(),
                selected: 0,
            },
            images: ImagesPopup { cache: Vec::new(), selected: 0, mode: ImagesMode::Browse },
            scripts: Vec::new(),
            catalog: Catalog {
                models: Vec::new(),
                current: None,
                favorites: TextSet::new(),
                last_used: TextMap::new(),
                reasoning: TextMap::new(),
                filter: String::new(),
                focus: ModelPanel::Available,
                target: ModelPickTarget::Session,
                backend_filter: None,
                fav_state: None,
                avail_state: None,
            },
            config: Config {
                settings: Settings::default(),
                memory_model: "google/gemini-2.5-flash-lite".to_owned(),
                transcriber_model: "google/gemini-2.5-flash-lite".to_owned(),
                image_gen_model: String::new(),
                video_gen_model: String::new(),
                ocr_model: String::new(),
                local_ocr_model: String::new(),
                research_model: String::new(),
                escalation_model: String::new(),
                embedding_model: String::new(),
                ocr_engine: "auto".to_owned(),
                searxng_url: String::new(),
                langsearch_key: String::new(),
                search_provider: "auto".to_owned(),
                base_system_prompt: start.base_system_prompt,
                verbosity: "concise".to_owned(),
            },
            settings_popup: SettingsPopup {
                selected: 0,
                inputs: blank_inputs(),
                grouped: SettingsGroups { selected: 0, collapsed: HashSet::new() },
            },
            copy: CopyMenu { options: Vec::new(), selected: 0 },
            jobs: Jobs {
                memory: false,
                compact: false,
                skills: false,
                models: false,
                title: false,
                ocr: false,
                ocr_pull: false,
                embed: false,
                login: false,
                swarm: false,
                research: false,
                research_topic: false,
            },
            talk: Conversation { session: None, messages: Vec::new(), context_total: None },
            chats: ChatTasks { tasks: Vec::new(), limit: start.max_chat_tasks, next_id: 0 },
            spinner: Spinner { frame: 0, thinking_idx: 0, color: SpinnerColor::Green },
            swarm: SwarmState {
                cache: Vec::new(),
                selected: 0,
                mode: SwarmPopupMode::Browse,
                session: None,
            },
            research: ResearchState {
                running: None,
                gate: None,
                reply_open: false,
                steer_open: false,
                steer_log: Vec::new(),
                steer_acked: Vec::new(),
                stage_rows: Vec::new(),
                incognito: false,
                live_input: String::new(),
            },
            notices: Notices { unread: TextSet::new(), list: Vec::new() },
            screen: Screen {
                popup: Popup::Closed,
                status,
                input: String::new(),
                scroll: 0,
                should_quit: false,
                banner: start.banner,
                greeting: pick_greeting(start.seed).to_owned(),
                pending_editor: None,
            },
            apps_mode: AppsMode::Browse,
            app_server: false,
            web_mode: false,
            incognito: false,
        }
    }

    /// Whether nothing was opened, typed, picked, received or started yet.
    pub open spec fn blank(&self) -> bool {
        &&& self.login.selected == 0 && self.login.key_input@.len() == 0 && self.login.key_target
            == KeyTarget::OpenRouter
        &&& self.spaces.cache@.len() == 0 && self.spaces.selected == 0 && self.spaces.filter@.len()
            == 0 && self.spaces.mode == SpaceMode::Browse && self.spaces.edit@.len() == 0
        &&& self.sessions.cache@.len() == 0 && self.sessions.selected == 0
            && self.sessions.filter@.len() == 0 && self.sessions.mode == SessionMode::Browse
            && self.sessions.edit@.len() == 0
        &&& self.skills.forced is None && self.skills.mode == SkillsMode::Browse
            && self.skills.selected == 0 && self.skills.edit@.len() == 0
        &&& self.files.cache@.len() == 0 && self.files.selected == 0 && self.files.mode
            == FilesMode::Browse && self.files.edit@.len() == 0
        &&& self.picker.entries@.len() == 0 && self.picker.filter@.len() == 0
            && self.picker.selected == 0
        &&& self.images.cache@.len() == 0 && self.images.selected == 0 && self.images.mode
            == ImagesMode::Browse && self.scripts@.len() == 0
        &&& self.catalog.models@.len() == 0 && self.catalog.current is None
            && self.catalog.favorites@ == Set::<Seq<char>>::empty() && self.catalog.last_used@
            == Map::<Seq<char>, Seq<char>>::empty() && self.catalog.reasoning@ == Map::<
            Seq<char>,
            Seq<char>,
        >::empty() && self.catalog.filter@.len() == 0 && self.catalog.focus == ModelPanel::Available
            && self.catalog.target == ModelPickTarget::Session && self.catalog.backend_filter is None
            && self.catalog.fav_state is None && self.catalog.avail_state is None
        &&& self.config.image_gen_model@.len() == 0 && self.config.video_gen_model@.len() == 0
            && self.config.ocr_model@.len() == 0 && self.config.local_ocr_model@.len() == 0
            && self.config.research_model@.len() == 0 && self.config.escalation_model@.len() == 0
            && self.config.embedding_model@.len() == 0 && self.config.searxng_url@.len() == 0
            && self.config.langsearch_key@.len() == 0
        &&& self.settings_popup.selected == 0 && (forall|j: int|
            0 <= j < self.settings_popup.inputs@.len() ==> (
            #[trigger] self.settings_popup.inputs@[j])@.len() == 0)
            && self.settings_popup.grouped.selected == 0
            && self.settings_popup.grouped.collapsed@ == Set::<usize>::empty()
        &&& self.copy.options@.len() == 0 && self.copy.selected == 0
        &&& self.jobs == no_jobs()
        &&& self.talk.session is None && self.talk.messages@.len() == 0 && self.talk.context_total
            is None
        &&& self.chats.tasks@.len() == 0 && self.chats.next_id == 0
        &&& self.spinner == (Spinner { frame: 0, thinking_idx: 0, color: SpinnerColor::Green })
        &&& self.swarm.cache@.len() == 0 && self.swarm.selected == 0 && self.swarm.mode
            == SwarmPopupMode::Browse && self.swarm.session is None
        &&& self.research.running is None && self.research.gate is None && !self.research.reply_open
            && !self.research.steer_open && self.research.steer_log@.len() == 0
            && self.research.steer_acked@.len() == 0
            && self.research.stage_rows@.len() == 0 && !self.research.incognito
            && self.research.live_input@.len() == 0
        &&& self.notices.unread@ == Set::<Seq<char>>::empty() && self.notices.list@.len() == 0
        &&& self.screen.popup == Popup::Closed && self.screen.input@.len() == 0
            && self.screen.scroll == 0 && !self.screen.should_quit && self.screen.pending_editor
            is None
        &&& self.apps_mode == AppsMode::Browse && !self.app_server && !self.web_mode
            && !self.incognito
    }

    /// Whether a response streams in for the session that is viewed.
    pub open spec fn streams(&self) -> bool {
        self.active_task() is Some
    }

    /// The response that streams in for the session that is viewed.
    pub open spec fn active_task(&self) -> Option<int> {
        match self.talk.session {
            Some(s) => self.chats.of(s.id@),
            None => None,
        }
    }

    /// Whether the session that is viewed has the id.
    pub open spec fn views(&self, session_id: Seq<char>) -> bool {
        self.talk.session matches Some(s) && s.id@ == session_id
    }

    /// Whether the session that is viewed has the id.
    pub fn viewing(&self, session_id: &str) -> (r: bool)
        ensures
            r == self.views(session_id@),
    {
        match &self.talk.session {
            Some(s) => same(s.id.as_str(), session_id),
            None => false,
        }
    }

    /// The response that streams in for the session that is viewed.
    pub fn active_chat_task(&self) -> (r: Option<usize>)
        ensures
            match r {
                Some(i) => self.active_task() == Some(i as int) && i < self.chats.tasks@.len(),
                None => self.active_task() is None,
            },
    {
        match &self.talk.session {
            None => None,
            Some(s) => self.chats.chat_task_for_session(s.id.as_str()),
        }
    }

    /// Whether a response streams in for the session that is viewed.
    pub fn is_streaming(&self) -> (r: bool)
        ensures
            r == self.streams(),
    {
        self.active_chat_task().is_some()
    }

    /// Whether the start screen shows: there is no conversation yet.
    pub fn is_welcome(&self) -> (r: bool)
        ensures
            r == (self.talk.messages@.len() == 0 && !self.streams()),
    {
        self.talk.messages.len() == 0 && !self.is_streaming()
    }

    /// Moves the spinner on by one frame.
    pub fn tick_spinner(&mut self)
        ensures
            *final(self) == (App {
                spinner: Spinner {
                    frame: if old(self).spinner.frame == usize::MAX {
                        0
                    } else {
                        (old(self).spinner.frame + 1) as usize
                    },
                    ..old(self).spinner
                },
                ..*old(self)
            }),
    {
        self.spinner.frame = self.spinner.frame.wrapping_add(1);
    }

    /// The glyph of the spinner.
    pub fn spinner_char(&self) -> (r: &'static str)
        ensures
            r@ == spinner_frame(self.spinner.frame as int % 10),
    {
        spinner_glyph(self.spinner.frame)
    }

    /// The colour of the spinner.
    pub fn spinner_color(&self) -> (r: SpinnerColor)
        ensures
            r == self.spinner.color,
    {
        self.spinner.color
    }

    /// What the client does while a response streams in, in a word.
    pub fn thinking_phrase(&self) -> (r: &'static str)
        requires
            self.wf(),
        ensures
            r@ == present_phrase(self.spinner.thinking_idx as int),
    {
        thinking_now(self.spinner.thinking_idx)
    }

    /// The reasoning that came with the response that streams in.
    pub fn thinking_text(&self) -> (r: Option<&str>)
        ensures
            match r {
                Some(s) => self.streams() && s@.len() > 0 && s@
                    == self.chats.tasks@[self.active_task()->0].thinking@,
                None => self.streams()
                    ==> self.chats.tasks@[self.active_task()->0].thinking@.len() == 0,
            },
    {
        match self.active_chat_task() {
            None => None,
            Some(i) => {
                let s = self.chats.tasks[i].thinking.as_str();
                if s.is_empty() {
                    None
                } else {
                    Some(s)
                }
            },
        }
    }

    /// The text of the response that streams in.
    pub fn active_streaming_text(&self) -> (r: Option<&str>)
        ensures
            match r {
                Some(s) => self.streams() && s@ == self.chats.tasks@[self.active_task()->0].buffer@,
                None => !self.streams(),
            },
    {
        match self.active_chat_task() {
            None => None,
            Some(i) => Some(self.chats.tasks[i].buffer.as_str()),
        }
    }

    /// Shows a text in the status line.
    pub(crate) fn say(&mut self, s: String)
        ensures
            *final(self) == (App {
                screen: Screen { status: s, ..old(self).screen },
                ..*old(self)
            }),
    {
        self.screen.status = s;
    }
}

impl ChatTasks {
    /// The first response that streams in for a session.
    pub open spec fn of(&self, session_id: Seq<char>) -> Option<int> {
        first_task(self.tasks@, session_id, 0)
    }

    /// Where the first response for a session stands in the list of those that
    /// stream in.
    pub fn chat_task_for_session(&self, session_id: &str) -> (r: Option<usize>)
        ensures
            match r {
                Some(i) => self.of(session_id@) == Some(i as int) && i < self.tasks@.len()
                    && self.tasks@[i as int].session_id@ == session_id@,
                None => self.of(session_id@) is None,
            },
    {
        let mut i: usize = 0;
        while i < self.tasks.len()
            invariant
                i <= self.tasks@.len(),
                self.of(session_id@) == first_task(self.tasks@, session_id@, i as int),
            decreases self.tasks@.len() - i,
        {
            if same(self.tasks[i].session_id.as_str(), session_id) {
                return Some(i);
            }
            i += 1;
        }
        None
    }

    /// How many responses stream in.
    pub fn chat_task_count(&self) -> (r: usize)
        ensures
            r == self.tasks@.len(),
    {
        self.tasks.len()
    }
}

/// The first response for a session at or after a position.
pub open spec fn first_task(tasks: Seq<ChatTask>, session_id: Seq<char>, i: int) -> Option<int>
    decreases tasks.len() - i,
{
    if i < 0 || i >= tasks.len() {
        None
    } else if tasks[i].session_id@ == session_id {
        Some(i)
    } else {
        first_task(tasks, session_id, i + 1)
    }
}

} // verus!
