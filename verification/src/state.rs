//! The parts that the client's state is made of.

use crate::backends::{BackendTag, Model};
use crate::keyed::{TextMap, TextSet};
use crate::store::{
    ChatNotification, ChatTask, CopyOption, FileRow, FloatBits, ImageMeta, Message, MessageView,
    Persona, PickerEntry, Session, Skill, Space, SpinnerColor, SurveyGate,
};
use crate::text::{same, views, views_push};
use crate::ui::{
    FilesMode, ImagesMode, KeyTarget, ModelPanel, ModelPickTarget, Popup, SessionMode, SkillsMode,
    SpaceMode, SwarmPopupMode,
};
use std::collections::HashSet;
use vstd::prelude::*;

verus! {

/// The name of the space that always exists.
pub const DEFAULT_SPACE: &'static str = "default";

/// How many text rows the settings have.
pub const SETTINGS_INPUTS: usize = 8;

/// Footer toggles and sampling parameters. Temperatures are carried by their
/// bit patterns.
pub struct Settings {
    pub show_stats: bool,
    pub show_reasoning: bool,
    pub hide_hints: bool,
    pub temperature: Option<FloatBits>,
    pub top_p: Option<FloatBits>,
    pub max_tokens: Option<u32>,
    /// The share of the context window, in percent, at which a conversation is
    /// compacted; 0 never does.
    pub compact_threshold: u8,
}

impl Default for Settings {
    fn default() -> (r: Settings)
        ensures
            r == default_settings(),
    {
        Settings {
            show_stats: false,
            show_reasoning: false,
            hide_hints: false,
            temperature: None,
            top_p: None,
            max_tokens: None,
            compact_threshold: 60,
        }
    }
}

/// The settings before any were stored.
pub open spec fn default_settings() -> Settings {
    Settings {
        show_stats: false,
        show_reasoning: false,
        hide_hints: false,
        temperature: None,
        top_p: None,
        max_tokens: None,
        compact_threshold: 60,
    }
}

/// The settings with the texts that are stored beside them.
pub struct Config {
    pub settings: Settings,
    pub memory_model: String,
    pub transcriber_model: String,
    pub image_gen_model: String,
    pub video_gen_model: String,
    pub ocr_model: String,
    pub local_ocr_model: String,
    pub research_model: String,
    pub escalation_model: String,
    pub embedding_model: String,
    pub ocr_engine: String,
    pub searxng_url: String,
    pub langsearch_key: String,
    pub search_provider: String,
    pub base_system_prompt: String,
    pub verbosity: String,
}

/// Settings that are shown by group: the selected one of the rows that are
/// shown, and which groups are collapsed.
pub struct SettingsGroups {
    pub selected: usize,
    pub collapsed: HashSet<usize>,
}

/// The settings popup: the selected row, what is typed into the text rows, and
/// how the rows are shown by group.
pub struct SettingsPopup {
    pub selected: usize,
    pub inputs: Vec<String>,
    pub grouped: SettingsGroups,
}

/// The credentials that are stored.
pub struct SavedKeys {
    pub openrouter_key: Option<String>,
    pub openai_key: Option<String>,
    pub opencode_key: Option<String>,
    pub codex: Option<String>,
}

/// The login popup and the key that is pasted.
pub struct LoginPopup {
    pub selected: usize,
    pub key_input: String,
    pub key_target: KeyTarget,
}

/// The space picker.
pub struct SpacePicker {
    pub cache: Vec<Space>,
    pub selected: usize,
    pub filter: String,
    pub mode: SpaceMode,
    pub edit: String,
}

/// The session picker.
pub struct SessionPicker {
    pub cache: Vec<Session>,
    pub selected: usize,
    pub filter: String,
    pub mode: SessionMode,
    pub edit: String,
}

/// The installed skills and their popup.
pub struct SkillsPopup {
    pub list: Vec<Skill>,
    /// A skill that goes with the next message.
    pub forced: Option<String>,
    pub mode: SkillsMode,
    pub selected: usize,
    pub edit: String,
}

/// The files of the space and their popup.
pub struct FilesPopup {
    pub cache: Vec<FileRow>,
    pub selected: usize,
    pub mode: FilesMode,
    pub edit: String,
}

/// The file picker.
pub struct FilePicker {
    pub dir: String,
    pub entries: Vec<PickerEntry>,
    pub filter: String,
    pub selected: usize,
}

/// The images of the space and their popup.
pub struct ImagesPopup {
    pub cache: Vec<ImageMeta>,
    pub selected: usize,
    pub mode: ImagesMode,
}

/// The models, what is stored about them, and the model picker.
pub struct Catalog {
    pub models: Vec<Model>,
    pub current: Option<String>,
    pub favorites: TextSet,
    /// When each model was used last.
    pub last_used: TextMap,
    /// The reasoning effort of each model that has one.
    pub reasoning: TextMap,
    pub filter: String,
    pub focus: ModelPanel,
    pub target: ModelPickTarget,
    pub backend_filter: Option<BackendTag>,
    pub fav_state: Option<usize>,
    pub avail_state: Option<usize>,
}

impl Catalog {
    /// The sets and maps are in order.
    pub open spec fn wf(&self) -> bool {
        self.favorites.wf() && self.last_used.wf() && self.reasoning.wf()
    }
}

/// The copy menu.
pub struct CopyMenu {
    pub options: Vec<CopyOption>,
    pub selected: usize,
}

/// Which background jobs run.
#[derive(Clone, Copy, PartialEq, Eq, Structural)]
pub struct Jobs {
    pub memory: bool,
    pub compact: bool,
    pub skills: bool,
    pub models: bool,
    pub title: bool,
    pub ocr: bool,
    pub ocr_pull: bool,
    pub embed: bool,
    pub login: bool,
    pub swarm: bool,
    pub research: bool,
    pub research_topic: bool,
}

/// No background job runs.
pub open spec fn no_jobs() -> Jobs {
    Jobs {
        memory: false,
        compact: false,
        skills: false,
        models: false,
        title: false,
        ocr: false,
        ocr_pull: false,
        embed: false,
        login: false,
        swarm: false,
        research: false,
        research_topic: false,
    }
}

/// The conversation that is viewed.
pub struct Conversation {
    pub session: Option<Session>,
    pub messages: Vec<Message>,
    /// The exact token count of the conversation, where one was reported.
    pub context_total: Option<u64>,
}

/// The responses that stream in.
pub struct ChatTasks {
    pub tasks: Vec<ChatTask>,
    /// The most responses that stream in at once.
    pub limit: usize,
    pub next_id: u64,
}

impl ChatTasks {
    /// No two responses share an id, and each has a phrase.
    pub open spec fn wf(&self) -> bool {
        &&& forall|i: int, j: int|
            0 <= i < j < self.tasks@.len() ==> #[trigger] self.tasks@[i].id
                != #[trigger] self.tasks@[j].id
        &&& forall|i: int|
            0 <= i < self.tasks@.len() ==> (#[trigger] self.tasks@[i]).thinking_idx < 16
    }
}

/// The spinner that shows while a response streams in.
#[derive(Clone, Copy, PartialEq, Eq, Structural)]
pub struct Spinner {
    pub frame: usize,
    pub thinking_idx: usize,
    pub color: SpinnerColor,
}

/// The roster of the session that is viewed, and the swarm that runs.
pub struct SwarmState {
    pub cache: Vec<Persona>,
    pub selected: usize,
    pub mode: SwarmPopupMode,
    /// The session of the swarm turn that runs.
    pub session: Option<String>,
}

/// The research job that runs.
pub struct ResearchState {
    /// The session and the topic of the job.
    pub running: Option<(String, String)>,
    pub gate: Option<SurveyGate>,
    /// Whether the job takes replies.
    pub reply_open: bool,
    /// Whether the job takes instructions.
    pub steer_open: bool,
    /// Instructions that were not taken up yet, with their positions.
    pub steer_log: Vec<(usize, String)>,
    /// Positions of the instructions that were taken up.
    pub steer_acked: Vec<usize>,
    /// The stage rows of the job.
    pub stage_rows: Vec<String>,
    /// Whether the job began in incognito mode.
    pub incognito: bool,
    pub live_input: String,
}

/// What happened in sessions that are not viewed.
pub struct Notices {
    /// Sessions with something that was not seen yet.
    pub unread: TextSet,
    pub list: Vec<ChatNotification>,
}

/// A file that is to be opened in the user's editor.
pub enum PendingEditor {
    /// A file of an app, by its path below the directory of apps.
    AppFile(String),
    /// The file of a persona.
    Persona(String),
}

/// What the screen shows beside the conversation.
pub struct Screen {
    pub popup: Popup,
    pub status: String,
    /// What stands in the composer.
    pub input: String,
    pub scroll: u16,
    pub should_quit: bool,
    pub banner: String,
    pub greeting: String,
    pub pending_editor: Option<PendingEditor>,
}

/// Whether the screen changed in its status line alone, which holds the text.
pub open spec fn says(before: Screen, after: Screen, text: Seq<char>) -> bool {
    &&& after == (Screen { status: after.status, ..before })
    &&& after.status@ == text
}

/// Whether the conversation changed in its rows alone, which are these.
pub open spec fn rows_are(
    before: Conversation,
    after: Conversation,
    rows: Seq<MessageView>,
) -> bool {
    &&& after == (Conversation { messages: after.messages, ..before })
    &&& views(after.messages@) == rows
}

impl Conversation {
    /// Whether the session that is viewed has the id.
    pub open spec fn is_of(&self, session_id: Seq<char>) -> bool {
        self.session matches Some(s) && s.id@ == session_id
    }

    /// Whether the session that is viewed has the id.
    pub fn views_session(&self, session_id: &str) -> (r: bool)
        ensures
            r == self.is_of(session_id@),
    {
        match &self.session {
            Some(s) => same(s.id.as_str(), session_id),
            None => false,
        }
    }

    /// Adds a row.
    pub fn add_row(&mut self, row: Message)
        ensures
            rows_are(*old(self), *final(self), views(old(self).messages@).push(row@)),
    {
        proof {
            views_push(self.messages@, row);
        }
        self.messages.push(row);
    }
}

} // verus!
