//! What happens in the background, as the event loop hands it on.

use crate::backends::Model;
use crate::files::OcrUpdate;
use crate::memory::MemoryOp;
use crate::provider::StreamEvent;
use vstd::prelude::*;

verus! {

/// An event of a background job. `None` means that nothing more comes of the
/// job.
pub enum AppEvent {
    Stream(Option<StreamEvent>),
    /// The catalogs of the backends, or why there are none.
    Models(Option<Result<Vec<Model>, String>>),
    /// The session, its topic and its slug.
    Title(Option<(String, String, String)>),
    /// The space, and the changes to its memory.
    Memory(Option<(String, Vec<MemoryOp>)>),
    /// The session, its digest, the rows that it covers, and the share of the
    /// context that was used before.
    Compact(Option<(String, String, i64, u64)>),
    /// The name of a skill that was fetched, or why it was not.
    SkillInstall(Option<Result<String, String>>),
    /// An image and its description, or why there is none.
    Described(Option<(String, Result<String, String>)>),
    /// The space and the name of a file, and how its transcription proceeds.
    Ocr(Option<(String, String, OcrUpdate)>),
}

} // verus!
