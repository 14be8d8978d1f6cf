//! What is to be done outside of the library: writes to the store, background
//! jobs, and what else the state alone cannot do.

use crate::store::{Persona, PersonaView};
use crate::text::{opt_text, texts, views};
use vstd::prelude::*;

verus! {

/// One thing to be done outside, in the order in which it is asked for.
#[allow(inconsistent_fields)]
pub enum Effect {
    /// Store a setting.
    SetSetting { key: String, value: String },
    /// Write the blocked domains of the space.
    WriteBlockedDomains { text: String },
    /// Set the tools up anew.
    RefreshToolbox,
    /// Read the installed skills anew.
    ReloadSkills,
    /// Fetch a skill from a repository.
    InstallSkill { owner: String, repo: String, path: String },
    /// Remove the directory of a skill.
    RemoveSkill { dir: String },
    /// Bring the index of the files of the space up to date.
    RescanFiles,
    /// Read the index of the files of the space anew.
    ReloadFiles,
    /// Store the status of a file.
    SetFileStatus { file_id: String, status: String },
    /// Index the text of a file anew.
    SetFileText { file_id: String, text: String },
    /// Store when a file was changed.
    SetFileMtime { file_id: String, mtime: i64 },
    /// Store a file that is new or has changed, with its text.
    IndexFile { name: String, hash: String, size: i64, status: String, text: String, mtime: i64 },
    /// Mark a file as one whose text is to be extracted anew.
    ForgetFile { file_id: String, name: String },
    /// Drop a file from the index.
    DeleteFile { file_id: String },
    /// Transcribe scanned files in the background.
    StartOcr { names: Vec<String> },
    /// Compute the embeddings of a file in the background.
    StartEmbedding { file_id: String, model: String },
    /// Store the embeddings of a file.
    StoreEmbeddings { file_id: String },
    /// Go on with the next file that lacks embeddings.
    NextEmbedding,
    /// Open a file of the space in the viewer of the system.
    OpenFile { name: String },
    /// Fetch a local OCR model.
    PullOcrModel { model: String },
    /// Drop the images that were pasted for the conversation.
    DropImages,
    /// Let the server of apps know a space by its new name.
    RenameApps { from: String, to: String },
    /// Fetch the catalogs of all configured backends.
    FetchModels,
    /// Store the credential of a backend under its name.
    SaveKey { backend: String, key: String },
    /// Start the device login of Codex.
    StartCodexLogin,
    /// Store the model of a session.
    SetSessionModel { session_id: String, model: String },
    /// Store that a model was used now.
    MarkModelUsed { model: String },
    /// Store the reasoning effort of a model, or that it has none.
    SetReasoning { model: String, effort: Option<String> },
    /// Store the roster of a session.
    SaveRoster { session_id: String, personas: Vec<Persona> },
    /// Store the title and the slug of a session.
    SetSessionTitle { session_id: String, title: String, slug: Option<String> },
    /// Store a row of a session that has a role and a text alone.
    AddMessage { session_id: String, role: String, content: String },
    /// Store the progress of a stage of a session, one row a stage.
    UpsertStage { session_id: String, label: String, detail: String },
    /// Store which session a research session came from.
    SetResearchParent { session_id: String, parent_id: String },
    /// Store the digest of a session and how many rows it covers.
    SetCompaction { session_id: String, summary: String, through: i64 },
    /// Store the text of the digest row of a session. Where there is none yet, add one with the
    /// time given, else that of the last row that the digest covers, else now.
    PutDigestRow { session_id: String, summary: String, through: i64, anchor: Option<String> },
    /// Store a digest row of a session, with its time.
    AddDigestRow { session_id: String, summary: String, anchor: String },
    /// Store whether a session is in web mode.
    SetWebMode { session_id: String, on: bool },
    /// Abort the request behind a response.
    AbortChatTask { task_id: u64 },
    /// Show a notification on the desktop.
    Notify { title: String, text: String },
    /// Name the session by the first rows of the conversation, extract memory from them, and
    /// compact them, each where it is due.
    FollowUp { rows: u64 },
    /// Abort the research job.
    AbortResearch,
    /// Abort the swarm turn.
    AbortSwarm,
    /// Store which sources a file of a space cites.
    IndexCitations { space_id: String, file: String, urls: Vec<String> },
    /// Write the memory of the space.
    WriteMemory { text: String },
}

/// What a `Effect` stands for.
#[allow(inconsistent_fields)]
pub enum EffectView {
    SetSetting { key: Seq<char>, value: Seq<char> },
    WriteBlockedDomains { text: Seq<char> },
    RefreshToolbox,
    ReloadSkills,
    InstallSkill { owner: Seq<char>, repo: Seq<char>, path: Seq<char> },
    RemoveSkill { dir: Seq<char> },
    RescanFiles,
    ReloadFiles,
    SetFileStatus { file_id: Seq<char>, status: Seq<char> },
    SetFileText { file_id: Seq<char>, text: Seq<char> },
    SetFileMtime { file_id: Seq<char>, mtime: i64 },
    IndexFile { name: Seq<char>, hash: Seq<char>, size: i64, status: Seq<char>, text: Seq<char>, mtime: i64 },
    ForgetFile { file_id: Seq<char>, name: Seq<char> },
    DeleteFile { file_id: Seq<char> },
    StartOcr { names: Seq<Seq<char>> },
    StartEmbedding { file_id: Seq<char>, model: Seq<char> },
    StoreEmbeddings { file_id: Seq<char> },
    NextEmbedding,
    OpenFile { name: Seq<char> },
    PullOcrModel { model: Seq<char> },
    DropImages,
    RenameApps { from: Seq<char>, to: Seq<char> },
    FetchModels,
    SaveKey { backend: Seq<char>, key: Seq<char> },
    StartCodexLogin,
    SetSessionModel { session_id: Seq<char>, model: Seq<char> },
    MarkModelUsed { model: Seq<char> },
    SetReasoning { model: Seq<char>, effort: Option<Seq<char>> },
    SaveRoster { session_id: Seq<char>, personas: Seq<PersonaView> },
    SetSessionTitle { session_id: Seq<char>, title: Seq<char>, slug: Option<Seq<char>> },
    AddMessage { session_id: Seq<char>, role: Seq<char>, content: Seq<char> },
    UpsertStage { session_id: Seq<char>, label: Seq<char>, detail: Seq<char> },
    SetResearchParent { session_id: Seq<char>, parent_id: Seq<char> },
    SetCompaction { session_id: Seq<char>, summary: Seq<char>, through: i64 },
    PutDigestRow { session_id: Seq<char>, summary: Seq<char>, through: i64, anchor: Option<Seq<char>> },
    AddDigestRow { session_id: Seq<char>, summary: Seq<char>, anchor: Seq<char> },
    SetWebMode { session_id: Seq<char>, on: bool },
    AbortChatTask { task_id: u64 },
    Notify { title: Seq<char>, text: Seq<char> },
    FollowUp { rows: u64 },
    AbortResearch,
    AbortSwarm,
    IndexCitations { space_id: Seq<char>, file: Seq<char>, urls: Seq<Seq<char>> },
    WriteMemory { text: Seq<char> },
}

impl View for Effect {
    type V = EffectView;

    open spec fn view(&self) -> EffectView {
        match *self {
            Effect::SetSetting { key, value } => EffectView::SetSetting {
                key: key@,
                value: value@,
            },
            Effect::WriteBlockedDomains { text } => EffectView::WriteBlockedDomains {
                text: text@,
            },
            Effect::RefreshToolbox => EffectView::RefreshToolbox,
            Effect::ReloadSkills => EffectView::ReloadSkills,
            Effect::InstallSkill { owner, repo, path } => EffectView::InstallSkill {
                owner: owner@,
                repo: repo@,
                path: path@,
            },
            Effect::RemoveSkill { dir } => EffectView::RemoveSkill {
                dir: dir@,
            },
            Effect::RescanFiles => EffectView::RescanFiles,
            Effect::ReloadFiles => EffectView::ReloadFiles,
            Effect::SetFileStatus { file_id, status } => EffectView::SetFileStatus {
                file_id: file_id@,
                status: status@,
            },
            Effect::SetFileText { file_id, text } => EffectView::SetFileText {
                file_id: file_id@,
                text: text@,
            },
            Effect::SetFileMtime { file_id, mtime } => EffectView::SetFileMtime {
                file_id: file_id@,
                mtime,
            },
            Effect::IndexFile { name, hash, size, status, text, mtime } => EffectView::IndexFile {
                name: name@,
                hash: hash@,
                size,
                status: status@,
                text: text@,
                mtime,
            },
            Effect::ForgetFile { file_id, name } => EffectView::ForgetFile {
                file_id: file_id@,
                name: name@,
            },
            Effect::DeleteFile { file_id } => EffectView::DeleteFile {
                file_id: file_id@,
            },
            Effect::StartOcr { names } => EffectView::StartOcr {
                names: texts(names@),
            },
            Effect::StartEmbedding { file_id, model } => EffectView::StartEmbedding {
                file_id: file_id@,
                model: model@,
            },
            Effect::StoreEmbeddings { file_id } => EffectView::StoreEmbeddings {
                file_id: file_id@,
            },
            Effect::NextEmbedding => EffectView::NextEmbedding,
            Effect::OpenFile { name } => EffectView::OpenFile {
                name: name@,
            },
            Effect::PullOcrModel { model } => EffectView::PullOcrModel {
                model: model@,
            },
            Effect::DropImages => EffectView::DropImages,
            Effect::RenameApps { from, to } => EffectView::RenameApps {
                from: from@,
                to: to@,
            },
            Effect::FetchModels => EffectView::FetchModels,
            Effect::SaveKey { backend, key } => EffectView::SaveKey {
                backend: backend@,
                key: key@,
            },
            Effect::StartCodexLogin => EffectView::StartCodexLogin,
            Effect::SetSessionModel { session_id, model } => EffectView::SetSessionModel {
                session_id: session_id@,
                model: model@,
            },
            Effect::MarkModelUsed { model } => EffectView::MarkModelUsed {
                model: model@,
            },
            Effect::SetReasoning { model, effort } => EffectView::SetReasoning {
                model: model@,
                effort: opt_text(effort),
            },
            Effect::SaveRoster { session_id, personas } => EffectView::SaveRoster {
                session_id: session_id@,
                personas: views(personas@),
            },
            Effect::SetSessionTitle { session_id, title, slug } => EffectView::SetSessionTitle {
                session_id: session_id@,
                title: title@,
                slug: opt_text(slug),
            },
            Effect::AddMessage { session_id, role, content } => EffectView::AddMessage {
                session_id: session_id@,
                role: role@,
                content: content@,
            },
            Effect::UpsertStage { session_id, label, detail } => EffectView::UpsertStage {
                session_id: session_id@,
                label: label@,
                detail: detail@,
            },
            Effect::SetResearchParent { session_id, parent_id } => EffectView::SetResearchParent {
                session_id: session_id@,
                parent_id: parent_id@,
            },
            Effect::SetCompaction { session_id, summary, through } => EffectView::SetCompaction {
                session_id: session_id@,
                summary: summary@,
                through,
            },
            Effect::PutDigestRow { session_id, summary, through, anchor } => EffectView::PutDigestRow {
                session_id: session_id@,
                summary: summary@,
                through,
                anchor: opt_text(anchor),
            },
            Effect::AddDigestRow { session_id, summary, anchor } => EffectView::AddDigestRow {
                session_id: session_id@,
                summary: summary@,
                anchor: anchor@,
            },
            Effect::SetWebMode { session_id, on } => EffectView::SetWebMode {
                session_id: session_id@,
                on,
            },
            Effect::AbortChatTask { task_id } => EffectView::AbortChatTask {
                task_id,
            },
            Effect::Notify { title, text } => EffectView::Notify {
                title: title@,
                text: text@,
            },
            Effect::FollowUp { rows } => EffectView::FollowUp {
                rows,
            },
            Effect::AbortResearch => EffectView::AbortResearch,
            Effect::AbortSwarm => EffectView::AbortSwarm,
            Effect::IndexCitations { space_id, file, urls } => EffectView::IndexCitations {
                space_id: space_id@,
                file: file@,
                urls: texts(urls@),
            },
            Effect::WriteMemory { text } => EffectView::WriteMemory {
                text: text@,
            },
        }
    }
}

/// One effect.
pub fn one_effect(a: Effect) -> (r: Vec<Effect>)
    ensures
        views(r@) == seq![a@],
{
    let mut r: Vec<Effect> = Vec::new();
    r.push(a);
    assert(views(r@) =~= seq![a@]);
    r
}

/// No effect.
pub fn no_effects() -> (r: Vec<Effect>)
    ensures
        views(r@) == Seq::<EffectView>::empty(),
{
    let r: Vec<Effect> = Vec::new();
    assert(views(r@) =~= Seq::empty());
    r
}

/// The effects and one more.
pub fn and_effect(v: Vec<Effect>, a: Effect) -> (r: Vec<Effect>)
    ensures
        views(r@) == views(v@).push(a@),
{
    let mut r = v;
    proof {
        crate::text::views_push(r@, a);
    }
    r.push(a);
    r
}

/// The effects and those that follow.
pub fn and_effects(v: Vec<Effect>, w: Vec<Effect>) -> (r: Vec<Effect>)
    ensures
        views(r@) == views(v@) + views(w@),
{
    let mut r = v;
    let mut more = w;
    r.append(&mut more);
    assert(views(r@) =~= views(v@) + views(w@));
    r
}

} // verus!
