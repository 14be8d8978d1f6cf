//! The rows that the client keeps: messages, sessions, spaces, files, personas.

use crate::provider::Usage;
use crate::text::{copied_opt, opt_text};
use vstd::prelude::*;

verus! {

/// A floating-point measurement, carried by its bit pattern and never looked
/// into.
#[derive(Clone, Copy, Debug, PartialEq, Eq, Structural)]
pub struct FloatBits {
    pub bits: u64,
}

/// A colour of the spinner.
#[derive(Clone, Copy, Debug, PartialEq, Eq, Structural)]
pub enum SpinnerColor {
    Green,
    Cyan,
    Magenta,
    Yellow,
    Blue,
    LightRed,
}

/// What a parked research job asks the user for: answers to clarifying
/// questions, or their word on the plan.
#[derive(Clone, Copy, Debug, PartialEq, Eq, Structural)]
pub enum SurveyPhase {
    Clarify { round: u8 },
    Approve { rework: bool },
}

/// One voice of a swarm: its name, the model that speaks for it, and who it is.
pub struct Persona {
    pub name: String,
    pub model: String,
    pub blurb: String,
}

/// What a `Persona` stands for.
#[verifier::ext_equal]
pub struct PersonaView {
    pub name: Seq<char>,
    pub model: Seq<char>,
    pub blurb: Seq<char>,
}

impl View for Persona {
    type V = PersonaView;

    open spec fn view(&self) -> PersonaView {
        PersonaView {
            name: self.name@,
            model: self.model@,
            blurb: self.blurb@,
        }
    }
}

impl Clone for Persona {
    fn clone(&self) -> (r: Persona)
        ensures
            r == *self,
    {
        Persona {
            name: self.name.clone(),
            model: self.model.clone(),
            blurb: self.blurb.clone(),
        }
    }
}

/// One row of a transcript.
pub struct Message {
    pub role: String,
    pub content: String,
    pub model: Option<String>,
    pub reasoning: Option<String>,
    pub tokens: Option<i64>,
    pub secs: Option<FloatBits>,
    pub cost: Option<FloatBits>,
    pub phrase: Option<String>,
    pub persona: Option<String>,
    pub created_at: Option<String>,
}

/// What a `Message` stands for.
#[verifier::ext_equal]
pub struct MessageView {
    pub role: Seq<char>,
    pub content: Seq<char>,
    pub model: Option<Seq<char>>,
    pub reasoning: Option<Seq<char>>,
    pub tokens: Option<i64>,
    pub secs: Option<FloatBits>,
    pub cost: Option<FloatBits>,
    pub phrase: Option<Seq<char>>,
    pub persona: Option<Seq<char>>,
    pub created_at: Option<Seq<char>>,
}

impl View for Message {
    type V = MessageView;

    open spec fn view(&self) -> MessageView {
        MessageView {
            role: self.role@,
            content: self.content@,
            model: opt_text(self.model),
            reasoning: opt_text(self.reasoning),
            tokens: self.tokens,
            secs: self.secs,
            cost: self.cost,
            phrase: opt_text(self.phrase),
            persona: opt_text(self.persona),
            created_at: opt_text(self.created_at),
        }
    }
}

impl Clone for Message {
    fn clone(&self) -> (r: Message)
        ensures
            r == *self,
    {
        Message {
            role: self.role.clone(),
            content: self.content.clone(),
            model: copied_opt(&self.model),
            reasoning: copied_opt(&self.reasoning),
            tokens: self.tokens,
            secs: self.secs,
            cost: self.cost,
            phrase: copied_opt(&self.phrase),
            persona: copied_opt(&self.persona),
            created_at: copied_opt(&self.created_at),
        }
    }
}

/// One conversation. The first `compact_through` messages of it are covered by
/// the digest `compact_summary`.
pub struct Session {
    pub id: String,
    pub title: String,
    pub model: String,
    pub slug: Option<String>,
    pub created_at: String,
    pub compact_summary: Option<String>,
    pub compact_through: i64,
    pub web_mode: bool,
    pub swarm_mode: bool,
    pub kind: String,
    pub research_parent_id: Option<String>,
}

/// What a `Session` stands for.
#[verifier::ext_equal]
pub struct SessionView {
    pub id: Seq<char>,
    pub title: Seq<char>,
    pub model: Seq<char>,
    pub slug: Option<Seq<char>>,
    pub created_at: Seq<char>,
    pub compact_summary: Option<Seq<char>>,
    pub compact_through: i64,
    pub web_mode: bool,
    pub swarm_mode: bool,
    pub kind: Seq<char>,
    pub research_parent_id: Option<Seq<char>>,
}

impl View for Session {
    type V = SessionView;

    open spec fn view(&self) -> SessionView {
        SessionView {
            id: self.id@,
            title: self.title@,
            model: self.model@,
            slug: opt_text(self.slug),
            created_at: self.created_at@,
            compact_summary: opt_text(self.compact_summary),
            compact_through: self.compact_through,
            web_mode: self.web_mode,
            swarm_mode: self.swarm_mode,
            kind: self.kind@,
            research_parent_id: opt_text(self.research_parent_id),
        }
    }
}

impl Clone for Session {
    fn clone(&self) -> (r: Session)
        ensures
            r == *self,
    {
        Session {
            id: self.id.clone(),
            title: self.title.clone(),
            model: self.model.clone(),
            slug: copied_opt(&self.slug),
            created_at: self.created_at.clone(),
            compact_summary: copied_opt(&self.compact_summary),
            compact_through: self.compact_through,
            web_mode: self.web_mode,
            swarm_mode: self.swarm_mode,
            kind: self.kind.clone(),
            research_parent_id: copied_opt(&self.research_parent_id),
        }
    }
}

/// A named space with files, instructions and memory of its own.
pub struct Space {
    pub id: String,
    pub name: String,
    pub created_at: String,
}

/// What a `Space` stands for.
#[verifier::ext_equal]
pub struct SpaceView {
    pub id: Seq<char>,
    pub name: Seq<char>,
    pub created_at: Seq<char>,
}

impl View for Space {
    type V = SpaceView;

    open spec fn view(&self) -> SpaceView {
        SpaceView {
            id: self.id@,
            name: self.name@,
            created_at: self.created_at@,
        }
    }
}

impl Clone for Space {
    fn clone(&self) -> (r: Space)
        ensures
            r == *self,
    {
        Space {
            id: self.id.clone(),
            name: self.name.clone(),
            created_at: self.created_at.clone(),
        }
    }
}

/// An installed skill and the directory that holds it.
pub struct Skill {
    pub name: String,
    pub description: String,
    pub dir: String,
}

/// What a `Skill` stands for.
#[verifier::ext_equal]
pub struct SkillView {
    pub name: Seq<char>,
    pub description: Seq<char>,
    pub dir: Seq<char>,
}

impl View for Skill {
    type V = SkillView;

    open spec fn view(&self) -> SkillView {
        SkillView {
            name: self.name@,
            description: self.description@,
            dir: self.dir@,
        }
    }
}

impl Clone for Skill {
    fn clone(&self) -> (r: Skill)
        ensures
            r == *self,
    {
        Skill {
            name: self.name.clone(),
            description: self.description.clone(),
            dir: self.dir.clone(),
        }
    }
}

/// One indexed file of a space.
pub struct FileRow {
    pub id: String,
    pub name: String,
    pub hash: String,
    pub size: i64,
    pub status: String,
    pub mtime: i64,
}

/// What a `FileRow` stands for.
#[verifier::ext_equal]
pub struct FileRowView {
    pub id: Seq<char>,
    pub name: Seq<char>,
    pub hash: Seq<char>,
    pub size: i64,
    pub status: Seq<char>,
    pub mtime: i64,
}

impl View for FileRow {
    type V = FileRowView;

    open spec fn view(&self) -> FileRowView {
        FileRowView {
            id: self.id@,
            name: self.name@,
            hash: self.hash@,
            size: self.size,
            status: self.status@,
            mtime: self.mtime,
        }
    }
}

impl Clone for FileRow {
    fn clone(&self) -> (r: FileRow)
        ensures
            r == *self,
    {
        FileRow {
            id: self.id.clone(),
            name: self.name.clone(),
            hash: self.hash.clone(),
            size: self.size,
            status: self.status.clone(),
            mtime: self.mtime,
        }
    }
}

/// One script of a space.
pub struct ScriptRow {
    pub name: String,
    pub size: u64,
}

/// What a `ScriptRow` stands for.
#[verifier::ext_equal]
pub struct ScriptRowView {
    pub name: Seq<char>,
    pub size: u64,
}

impl View for ScriptRow {
    type V = ScriptRowView;

    open spec fn view(&self) -> ScriptRowView {
        ScriptRowView {
            name: self.name@,
            size: self.size,
        }
    }
}

impl Clone for ScriptRow {
    fn clone(&self) -> (r: ScriptRow)
        ensures
            r == *self,
    {
        ScriptRow {
            name: self.name.clone(),
            size: self.size,
        }
    }
}

/// One image of a space.
pub struct ImageMeta {
    pub name: String,
    pub size: u64,
    pub modified: String,
}

/// What a `ImageMeta` stands for.
#[verifier::ext_equal]
pub struct ImageMetaView {
    pub name: Seq<char>,
    pub size: u64,
    pub modified: Seq<char>,
}

impl View for ImageMeta {
    type V = ImageMetaView;

    open spec fn view(&self) -> ImageMetaView {
        ImageMetaView {
            name: self.name@,
            size: self.size,
            modified: self.modified@,
        }
    }
}

impl Clone for ImageMeta {
    fn clone(&self) -> (r: ImageMeta)
        ensures
            r == *self,
    {
        ImageMeta {
            name: self.name.clone(),
            size: self.size,
            modified: self.modified.clone(),
        }
    }
}

/// An image file as it is found on disk. `modified` is when it was last
/// changed, in seconds since the start of 1970, where that is known.
pub struct ImageFile {
    pub name: String,
    pub size: u64,
    pub modified: Option<i64>,
}

/// One row of the file picker.
pub struct PickerEntry {
    pub name: String,
    pub is_dir: bool,
}

/// What a `PickerEntry` stands for.
#[verifier::ext_equal]
pub struct PickerEntryView {
    pub name: Seq<char>,
    pub is_dir: bool,
}

impl View for PickerEntry {
    type V = PickerEntryView;

    open spec fn view(&self) -> PickerEntryView {
        PickerEntryView {
            name: self.name@,
            is_dir: self.is_dir,
        }
    }
}

impl Clone for PickerEntry {
    fn clone(&self) -> (r: PickerEntry)
        ensures
            r == *self,
    {
        PickerEntry {
            name: self.name.clone(),
            is_dir: self.is_dir,
        }
    }
}

/// What is stored about a model: whether it is a favorite, when it was used
/// last, and its reasoning effort.
pub struct ModelPref {
    pub id: String,
    pub favorite: bool,
    pub last_used: Option<String>,
    pub reasoning: Option<String>,
}

/// What a `ModelPref` stands for.
#[verifier::ext_equal]
pub struct ModelPrefView {
    pub id: Seq<char>,
    pub favorite: bool,
    pub last_used: Option<Seq<char>>,
    pub reasoning: Option<Seq<char>>,
}

impl View for ModelPref {
    type V = ModelPrefView;

    open spec fn view(&self) -> ModelPrefView {
        ModelPrefView {
            id: self.id@,
            favorite: self.favorite,
            last_used: opt_text(self.last_used),
            reasoning: opt_text(self.reasoning),
        }
    }
}

impl Clone for ModelPref {
    fn clone(&self) -> (r: ModelPref)
        ensures
            r == *self,
    {
        ModelPref {
            id: self.id.clone(),
            favorite: self.favorite,
            last_used: copied_opt(&self.last_used),
            reasoning: copied_opt(&self.reasoning),
        }
    }
}

/// One entry of the copy menu: what it shows and the text it copies.
pub struct CopyOption {
    pub label: String,
    pub text: String,
}

/// What a `CopyOption` stands for.
#[verifier::ext_equal]
pub struct CopyOptionView {
    pub label: Seq<char>,
    pub text: Seq<char>,
}

impl View for CopyOption {
    type V = CopyOptionView;

    open spec fn view(&self) -> CopyOptionView {
        CopyOptionView {
            label: self.label@,
            text: self.text@,
        }
    }
}

impl Clone for CopyOption {
    fn clone(&self) -> (r: CopyOption)
        ensures
            r == *self,
    {
        CopyOption {
            label: self.label.clone(),
            text: self.text.clone(),
        }
    }
}

/// A response that streams in.
pub struct ChatTask {
    pub id: u64,
    pub session_id: String,
    pub session_title: String,
    pub space_id: String,
    pub model: String,
    pub incognito: bool,
    pub buffer: String,
    pub thinking: String,
    pub tool_status: Option<String>,
    pub usage: Option<Usage>,
    pub thinking_idx: usize,
    pub spinner_color: SpinnerColor,
}

/// What a `ChatTask` stands for.
#[verifier::ext_equal]
pub struct ChatTaskView {
    pub id: u64,
    pub session_id: Seq<char>,
    pub session_title: Seq<char>,
    pub space_id: Seq<char>,
    pub model: Seq<char>,
    pub incognito: bool,
    pub buffer: Seq<char>,
    pub thinking: Seq<char>,
    pub tool_status: Option<Seq<char>>,
    pub usage: Option<Usage>,
    pub thinking_idx: usize,
    pub spinner_color: SpinnerColor,
}

impl View for ChatTask {
    type V = ChatTaskView;

    open spec fn view(&self) -> ChatTaskView {
        ChatTaskView {
            id: self.id,
            session_id: self.session_id@,
            session_title: self.session_title@,
            space_id: self.space_id@,
            model: self.model@,
            incognito: self.incognito,
            buffer: self.buffer@,
            thinking: self.thinking@,
            tool_status: opt_text(self.tool_status),
            usage: self.usage,
            thinking_idx: self.thinking_idx,
            spinner_color: self.spinner_color,
        }
    }
}

/// A note that a response in another session is ready or has failed.
pub struct ChatNotification {
    pub session_id: String,
    pub title: String,
    pub text: String,
    pub success: bool,
}

/// What a `ChatNotification` stands for.
#[verifier::ext_equal]
pub struct ChatNotificationView {
    pub session_id: Seq<char>,
    pub title: Seq<char>,
    pub text: Seq<char>,
    pub success: bool,
}

impl View for ChatNotification {
    type V = ChatNotificationView;

    open spec fn view(&self) -> ChatNotificationView {
        ChatNotificationView {
            session_id: self.session_id@,
            title: self.title@,
            text: self.text@,
            success: self.success,
        }
    }
}

/// A research job that is parked on the user: where, and the row that asks.
pub struct SurveyGate {
    pub session_id: String,
    pub phase: SurveyPhase,
    pub prompt_role: String,
    pub prompt_content: String,
}

/// What a `SurveyGate` stands for.
#[verifier::ext_equal]
pub struct SurveyGateView {
    pub session_id: Seq<char>,
    pub phase: SurveyPhase,
    pub prompt_role: Seq<char>,
    pub prompt_content: Seq<char>,
}

impl View for SurveyGate {
    type V = SurveyGateView;

    open spec fn view(&self) -> SurveyGateView {
        SurveyGateView {
            session_id: self.session_id@,
            phase: self.phase,
            prompt_role: self.prompt_role@,
            prompt_content: self.prompt_content@,
        }
    }
}

impl Clone for SurveyGate {
    fn clone(&self) -> (r: SurveyGate)
        ensures
            r == *self,
    {
        SurveyGate {
            session_id: self.session_id.clone(),
            phase: self.phase,
            prompt_role: self.prompt_role.clone(),
            prompt_content: self.prompt_content.clone(),
        }
    }
}

/// A row that holds a role and a text alone.
pub open spec fn plain_row(role: Seq<char>, content: Seq<char>) -> MessageView {
    MessageView {
        role,
        content,
        model: None,
        reasoning: None,
        tokens: None,
        secs: None,
        cost: None,
        phrase: None,
        persona: None,
        created_at: None,
    }
}

impl Message {
    /// A row that holds a role and a text alone.
    pub fn plain(role: &str, content: String) -> (r: Message)
        ensures
            r@ == plain_row(role@, content@),
    {
        Message {
            role: role.to_owned(),
            content,
            model: None,
            reasoning: None,
            tokens: None,
            secs: None,
            cost: None,
            phrase: None,
            persona: None,
            created_at: None,
        }
    }
}

/// A copy of a roster.
pub fn copied_roster(v: &Vec<Persona>) -> (r: Vec<Persona>)
    ensures
        r@ == v@,
{
    let mut out: Vec<Persona> = Vec::new();
    let mut i: usize = 0;
    while i < v.len()
        invariant
            i <= v@.len(),
            out@ == v@.take(i as int),
        decreases v@.len() - i,
    {
        out.push(v[i].clone());
        assert(v@.take(i as int).push(v@[i as int]) =~= v@.take(i + 1));
        i += 1;
    }
    assert(v@.take(i as int) =~= v@);
    out
}

} // verus!
