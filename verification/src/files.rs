//! The files of a space: bringing the index up to date, OCR and embeddings.

use crate::backends::{Backend, Backends};
use crate::digest::{base64_of, base64_text, content_hash, encodable, hex, sha256};
use crate::effects::{and_effect, and_effects, no_effects, one_effect, Effect, EffectView};
use crate::json::{
    bool_value, held, held_fields, holds, list_value, number_value, object_of, object_value, parse,
    parsed, text_value, Json,
};
use crate::ordering::{clamp_cursor, keep_in, kept_in, moved};
use crate::pipeline::{concat, outcome};
use crate::state::{says, Config, FilesPopup, Jobs, Screen};
use crate::store::FileRow;
use crate::text::{
    chars_of, clipped, contains, count, decimal, decimal_of, first_chars, has, has_prefix,
    has_suffix, lower, lowered, opt_text, same, texts, texts_push, trim, trimmed, views, views_push,
};
use crate::ui::{FilesMode, Popup};
use vstd::prelude::*;
use vstd::string::*;

verus! {

/// How the transcription of a file proceeds.
pub enum OcrUpdate {
    /// A phase in which nothing can be counted yet.
    Stage(String),
    /// Pages done, pages in all, pages that failed so far.
    Progress(usize, usize, usize),
    /// The text and the pages that failed, each with its reason; or why the
    /// whole file failed.
    Done(Result<(String, Vec<(usize, String)>), String>),
}

/// What transcribes a page.
pub enum OcrBackend {
    /// A vision model of a backend.
    Router(Backend, String),
    /// A local model.
    Ollama(String),
}

/// The first 90 characters of an error, with an ellipsis where there is more.
pub open spec fn clipped_error(e: Seq<char>) -> Seq<char> {
    if e.len() > 90 { first_chars(e, 90) + "…"@ } else { e }
}

/// The first 90 characters of an error.
pub fn clip_err(e: &str) -> (r: String)
    ensures
        r@ == clipped_error(e@),
{
    let mut s = clipped(e, 90).to_owned();
    if count(e) > 90 {
        s.append("…");
    }
    s
}

/// What the request body of a local transcription holds.
pub open spec fn ocr_body(model: Seq<char>, prompt: Seq<char>, image: Seq<char>) -> Json {
    Json::Object(
        Map::<Seq<char>, Json>::empty().insert("model"@, Json::Text(model)).insert(
            "prompt"@,
            Json::Text(prompt),
        ).insert("images"@, Json::List(seq![Json::Text(image)])).insert(
            "stream"@,
            Json::Bool(false),
        ).insert(
            "options"@,
            Json::Object(
                Map::<Seq<char>, Json>::empty().insert("num_ctx"@, Json::Number(Some(8192))),
            ),
        ),
    )
}

/// The request body of a local transcription: the model, what it is told, and
/// the page as Base64.
pub fn ollama_ocr_body(model: &str, prompt: &str, png_b64: &str) -> (r: serde_json::Value)
    ensures
        holds(r) == ocr_body(model@, prompt@, png_b64@),
{
    let mut images: Vec<serde_json::Value> = Vec::new();
    images.push(text_value(png_b64));
    assert(held(images@) =~= seq![Json::Text(png_b64@)]);
    let mut options: Vec<(String, serde_json::Value)> = Vec::new();
    options.push(("num_ctx".to_owned(), number_value(8192)));
    proof {
        let f = held_fields(options@);
        assert(f.drop_last() =~= Seq::empty());
        assert(object_of(Seq::empty()) == Map::<Seq<char>, Json>::empty());
        assert(f.last() == ("num_ctx"@, Json::Number(Some(8192))));
        reveal_strlit("model");
        reveal_strlit("prompt");
        reveal_strlit("images");
        reveal_strlit("stream");
        reveal_strlit("options");
        assert("model"@.len() == 5 && "options"@.len() == 7);
        assert("prompt"@[0] == 'p' && "images"@[0] == 'i' && "stream"@[0] == 's');
    }
    let mut fields: Vec<(String, serde_json::Value)> = Vec::new();
    fields.push(("model".to_owned(), text_value(model)));
    fields.push(("prompt".to_owned(), text_value(prompt)));
    fields.push(("images".to_owned(), list_value(images)));
    fields.push(("stream".to_owned(), bool_value(false)));
    fields.push(("options".to_owned(), object_value(options)));
    proof {
        let f = held_fields(fields@);
        let f4 = f.drop_last();
        let f3 = f4.drop_last();
        let f2 = f3.drop_last();
        let f1 = f2.drop_last();
        assert(f1.drop_last() =~= Seq::empty());
        assert(object_of(Seq::empty()) == Map::<Seq<char>, Json>::empty());
        assert(f1.last() == ("model"@, Json::Text(model@)));
        assert(f2.last() == ("prompt"@, Json::Text(prompt@)));
        assert(f3.last() == ("images"@, Json::List(seq![Json::Text(png_b64@)])));
        assert(f4.last() == ("stream"@, Json::Bool(false)));
        reveal_with_fuel(object_of, 6);
        assert(Json::Object(object_of(f)) == ocr_body(model@, prompt@, png_b64@));
    }
    object_value(fields)
}

/// The request body that has a local model transcribe a page, which is `png`.
pub fn ollama_page_body(model: &str, prompt: &str, png: &Vec<u8>) -> (r: serde_json::Value)
    requires
        encodable(png@),
    ensures
        holds(r) == ocr_body(model@, prompt@, base64_text(png@)),
{
    let page = base64_of(png);
    ollama_ocr_body(model, prompt, page.as_str())
}

/// What an optional transcriber stands for.
pub open spec fn ocr_route(b: Backends, c: Config) -> Option<(Option<Backend>, Seq<char>)> {
    if c.ocr_engine@ == "local"@ {
        let model = trim(c.local_ocr_model@);
        Some((None, if model.len() == 0 { "glm-ocr"@ } else { model }))
    } else if (c.ocr_engine@ == "vlm"@ || c.ocr_engine@ == "auto"@) && trim(c.ocr_model@).len() > 0 {
        match b.first() {
            Some(p) => Some((Some(p), trim(c.ocr_model@))),
            None => None,
        }
    } else {
        None
    }
}

/// What an `OcrBackend` stands for: the backend, where it is not local, and
/// the model.
pub open spec fn ocr_backend_view(r: Option<OcrBackend>) -> Option<(Option<Backend>, Seq<char>)> {
    match r {
        Some(OcrBackend::Router(p, m)) => Some((Some(p), m@)),
        Some(OcrBackend::Ollama(m)) => Some((None, m@)),
        None => None,
    }
}

/// What transcribes scanned files: the local model, a vision model where one
/// and a backend are configured, or else neither.
pub fn ocr_backend(backends: &Backends, config: &Config) -> (r: Option<OcrBackend>)
    ensures
        ocr_backend_view(r) == ocr_route(*backends, *config),
{
    if same(config.ocr_engine.as_str(), "local") {
        let model = trimmed(config.local_ocr_model.as_str());
        let model = if model.is_empty() { "glm-ocr" } else { model };
        return Some(OcrBackend::Ollama(model.to_owned()));
    }
    let model = trimmed(config.ocr_model.as_str());
    if (same(config.ocr_engine.as_str(), "vlm") || same(config.ocr_engine.as_str(), "auto"))
        && !model.is_empty() {
        return match backends.first_backend() {
            Some(p) => Some(OcrBackend::Router(p, model.to_owned())),
            None => None,
        };
    }
    None
}

/// A file on the disk: its name, when it was changed, its size, and, where it
/// can be read, its bytes and the text in them or why there is none.
pub struct DiskFile {
    pub name: String,
    pub mtime: i64,
    pub size: i64,
    pub content: Option<(Vec<u8>, Result<String, String>)>,
}

/// The first row of a file with a name.
pub open spec fn file_named(known: Seq<FileRow>, name: Seq<char>, i: int) -> Option<int>
    decreases known.len() - i,
{
    if i < 0 || i >= known.len() {
        None
    } else if known[i].name@ == name {
        Some(i)
    } else {
        file_named(known, name, i + 1)
    }
}

fn position_of(known: &Vec<FileRow>, name: &str) -> (r: Option<usize>)
    ensures
        match r {
            Some(i) => file_named(known@, name@, 0) == Some(i as int) && i < known@.len(),
            None => file_named(known@, name@, 0) is None,
        },
{
    let mut i: usize = 0;
    while i < known.len()
        invariant
            i <= known@.len(),
            file_named(known@, name@, 0) == file_named(known@, name@, i as int),
        decreases known@.len() - i,
    {
        if same(known[i].name.as_str(), name) {
            return Some(i);
        }
        i += 1;
    }
    None
}

/// Whether a file waits for its transcription.
pub open spec fn is_queued(status: Seq<char>) -> bool {
    "ocr"@.is_prefix_of(status)
}

/// Whether a file need not be read: its size and its time are those that are
/// known, and the time is known.
pub open spec fn unchanged(known: Seq<FileRow>, f: DiskFile) -> bool {
    file_named(known, f.name@, 0) matches Some(i) && known[i].size == f.size && known[i].mtime
        == f.mtime && f.mtime != 0
}

/// Whether a file need not be read.
pub fn is_unchanged(known: &Vec<FileRow>, f: &DiskFile) -> (r: bool)
    ensures
        r == unchanged(known@, *f),
{
    match position_of(known, f.name.as_str()) {
        Some(i) => known[i].size == f.size && known[i].mtime == f.mtime && f.mtime != 0,
        None => false,
    }
}

/// The status, the text and whether to transcribe, of a file that is read
/// anew.
pub open spec fn extracted(name: Seq<char>, text: Result<Seq<char>, Seq<char>>) -> (
    Seq<char>,
    Seq<char>,
    bool,
) {
    match text {
        Ok(t) => if trim(t).len() > 0 {
            ("ok"@, t, false)
        } else if ".pdf"@.is_suffix_of(lower(name)) {
            ("ocr…"@, Seq::empty(), true)
        } else {
            ("no text (scanned?)"@, Seq::empty(), false)
        },
        Err(e) => ("error: "@ + e, Seq::empty(), false),
    }
}

fn extract(name: &str, text: &Result<String, String>) -> (r: (String, String, bool))
    ensures
        (r.0@, r.1@, r.2) == extracted(
            name@,
            match *text {
                Ok(t) => Ok(t@),
                Err(e) => Err(e@),
            },
        ),
{
    match text {
        Ok(t) => {
            if !trimmed(t.as_str()).is_empty() {
                ("ok".to_owned(), t.clone(), false)
            } else if has_suffix(lowered(name).as_str(), ".pdf") {
                ("ocr…".to_owned(), String::new(), true)
            } else {
                ("no text (scanned?)".to_owned(), String::new(), false)
            }
        },
        Err(e) => (concat("error: ", e.as_str()), String::new(), false),
    }
}

/// What a file on the disk asks for, and whether it is to be transcribed. One
/// that did not change asks for nothing; one whose content is the same has its
/// time stored; another is indexed anew.
pub open spec fn scan_one(known: Seq<FileRow>, f: DiskFile, ocr: bool) -> (Seq<EffectView>, bool) {
    let at = file_named(known, f.name@, 0);
    let requeue = at matches Some(i) && is_queued(known[i].status@) && !ocr;
    if unchanged(known, f) {
        (Seq::empty(), requeue)
    } else {
        match f.content {
            None => (Seq::empty(), false),
            Some(c) => {
                let hash = hex(sha256(c.0@));
                if at matches Some(i) && known[i].hash@ == hash {
                    (
                        seq![
                            EffectView::SetFileMtime {
                                file_id: known[at->0].id@,
                                mtime: f.mtime,
                            },
                        ],
                        requeue,
                    )
                } else {
                    let (status, text, transcribe) = extracted(
                        f.name@,
                        match c.1 {
                            Ok(t) => Ok(t@),
                            Err(e) => Err(e@),
                        },
                    );
                    (
                        seq![
                            EffectView::IndexFile {
                                name: f.name@,
                                hash,
                                size: c.0@.len() as i64,
                                status,
                                text,
                                mtime: f.mtime,
                            },
                        ],
                        transcribe,
                    )
                }
            },
        }
    }
}

/// Whether the size of a file's content can be stored.
pub open spec fn sizable(f: DiskFile) -> bool {
    f.content matches Some(c) ==> c.0@.len() <= i64::MAX
}

/// What a file on the disk asks for, and whether it is to be transcribed.
pub fn scan_file(known: &Vec<FileRow>, f: &DiskFile, ocr: bool) -> (r: (Vec<Effect>, bool))
    requires
        sizable(*f),
    ensures
        (views(r.0@), r.1) == scan_one(known@, *f, ocr),
{
    let at = position_of(known, f.name.as_str());
    let requeue = match at {
        Some(i) => has_prefix(known[i].status.as_str(), "ocr") && !ocr,
        None => false,
    };
    if is_unchanged(known, f) {
        return (no_effects(), requeue);
    }
    match &f.content {
        None => (no_effects(), false),
        Some((bytes, text)) => {
            let hash = content_hash(bytes);
            if let Some(i) = at {
                if same(known[i].hash.as_str(), hash.as_str()) {
                    return (
                        one_effect(
                            Effect::SetFileMtime { file_id: known[i].id.clone(), mtime: f.mtime },
                        ),
                        requeue,
                    );
                }
            }
            let (status, extract_text, transcribe) = extract(f.name.as_str(), text);
            (
                one_effect(
                    Effect::IndexFile {
                        name: f.name.clone(),
                        hash,
                        size: bytes.len() as i64,
                        status,
                        text: extract_text,
                        mtime: f.mtime,
                    },
                ),
                transcribe,
            )
        },
    }
}

/// What the files on the disk ask for, and the names of those that are to be
/// transcribed.
pub open spec fn scan_all(known: Seq<FileRow>, disk: Seq<DiskFile>, ocr: bool) -> (
    Seq<EffectView>,
    Seq<Seq<char>>,
)
    decreases disk.len(),
{
    if disk.len() == 0 {
        (Seq::empty(), Seq::empty())
    } else {
        let (effects, names) = scan_all(known, disk.drop_last(), ocr);
        let (more, transcribe) = scan_one(known, disk.last(), ocr);
        (effects + more, if transcribe { names.push(disk.last().name@) } else { names })
    }
}

/// Whether a file is on the disk.
pub open spec fn on_disk(disk: Seq<DiskFile>, name: Seq<char>) -> bool {
    exists|i: int| 0 <= i < disk.len() && (#[trigger] disk[i]).name@ == name
}

/// The index loses the rows of the files that are gone from the disk.
pub open spec fn gone(known: Seq<FileRow>, disk: Seq<DiskFile>) -> Seq<EffectView>
    decreases known.len(),
{
    if known.len() == 0 {
        Seq::empty()
    } else {
        let before = gone(known.drop_last(), disk);
        if on_disk(disk, known.last().name@) {
            before
        } else {
            before.push(EffectView::DeleteFile { file_id: known.last().id@ })
        }
    }
}

fn is_on_disk(disk: &Vec<DiskFile>, name: &str) -> (r: bool)
    ensures
        r == on_disk(disk@, name@),
{
    let mut i: usize = 0;
    while i < disk.len()
        invariant
            i <= disk@.len(),
            forall|j: int| 0 <= j < i ==> (#[trigger] disk@[j]).name@ != name@,
        decreases disk@.len() - i,
    {
        if same(disk[i].name.as_str(), name) {
            return true;
        }
        i += 1;
    }
    false
}

fn gone_files(known: &Vec<FileRow>, disk: &Vec<DiskFile>) -> (r: Vec<Effect>)
    ensures
        views(r@) == gone(known@, disk@),
{
    let mut out: Vec<Effect> = Vec::new();
    let mut i: usize = 0;
    assert(known@.take(0) =~= Seq::<FileRow>::empty());
    assert(views(out@) =~= Seq::empty());
    while i < known.len()
        invariant
            i <= known@.len(),
            views(out@) == gone(known@.take(i as int), disk@),
        decreases known@.len() - i,
    {
        proof {
            let t = known@.take(i + 1);
            assert(t.drop_last() =~= known@.take(i as int));
            assert(t.last() == known@[i as int]);
        }
        if !is_on_disk(disk, known[i].name.as_str()) {
            let e = Effect::DeleteFile { file_id: known[i].id.clone() };
            proof {
                views_push(out@, e);
            }
            out.push(e);
        }
        i += 1;
    }
    assert(known@.take(i as int) =~= known@);
    out
}

/// What bringing the index up to date asks for: what each file on the disk
/// asks for, the rows of files that are gone, the transcription of scanned
/// files unless one runs, the embeddings that are missing, and the index anew.
pub open spec fn rescan(known: Seq<FileRow>, disk: Seq<DiskFile>, ocr: bool) -> Seq<EffectView> {
    let (effects, names) = scan_all(known, disk, ocr);
    (effects + gone(known, disk) + ocr_start(names, ocr)).push(EffectView::NextEmbedding).push(
        EffectView::ReloadFiles,
    )
}

/// What starting to transcribe files asks for: nothing where there is none or
/// a batch runs.
pub open spec fn ocr_start(names: Seq<Seq<char>>, ocr: bool) -> Seq<EffectView> {
    if names.len() == 0 || ocr {
        Seq::empty()
    } else {
        seq![EffectView::StartOcr { names }]
    }
}

/// Starts to transcribe files, one batch at a time.
pub fn start_ocr(jobs: &mut Jobs, names: Vec<String>) -> (r: Vec<Effect>)
    ensures
        views(r@) == ocr_start(texts(names@), old(jobs).ocr),
        *final(jobs) == (Jobs { ocr: old(jobs).ocr || names@.len() > 0, ..*old(jobs) }),
{
    assert(texts(names@).len() == names@.len());
    if names.len() == 0 || jobs.ocr {
        return no_effects();
    }
    jobs.ocr = true;
    one_effect(Effect::StartOcr { names })
}

/// What bringing the index of a space up to date asks for. `known` is the
/// index and `disk` the files; a transcription that starts is a job.
pub fn rescan_files(known: &Vec<FileRow>, disk: &Vec<DiskFile>, jobs: &mut Jobs) -> (r: Vec<Effect>)
    requires
        forall|i: int| 0 <= i < disk@.len() ==> sizable(#[trigger] disk@[i]),
    ensures
        views(r@) == rescan(known@, disk@, old(jobs).ocr),
        *final(jobs) == (Jobs {
            ocr: old(jobs).ocr || scan_all(known@, disk@, old(jobs).ocr).1.len() > 0,
            ..*old(jobs)
        }),
{
    let ocr = jobs.ocr;
    let mut out = no_effects();
    let mut names: Vec<String> = Vec::new();
    let mut i: usize = 0;
    assert(disk@.take(0) =~= Seq::<DiskFile>::empty());
    assert(texts(names@) =~= Seq::empty());
    while i < disk.len()
        invariant
            i <= disk@.len(),
            forall|k: int| 0 <= k < disk@.len() ==> sizable(#[trigger] disk@[k]),
            (views(out@), texts(names@)) == scan_all(known@, disk@.take(i as int), ocr),
        decreases disk@.len() - i,
    {
        proof {
            let t = disk@.take(i + 1);
            assert(t.drop_last() =~= disk@.take(i as int));
            assert(t.last() == disk@[i as int]);
        }
        let (more, transcribe) = scan_file(known, &disk[i], ocr);
        out = and_effects(out, more);
        if transcribe {
            let name = disk[i].name.clone();
            proof {
                texts_push(names@, name);
            }
            names.push(name);
        }
        i += 1;
    }
    assert(disk@.take(i as int) =~= disk@);
    assert(texts(names@).len() == names@.len());
    let settled = and_effects(out, gone_files(known, disk));
    let all = and_effects(settled, start_ocr(jobs, names));
    and_effect(and_effect(all, Effect::NextEmbedding), Effect::ReloadFiles)
}

/// The words ` (n failed)` where pages failed.
pub open spec fn failed_tail(failed: nat) -> Seq<char> {
    if failed > 0 { " ("@ + decimal(failed) + " failed)"@ } else { Seq::empty() }
}

fn failed_words(failed: usize) -> (r: String)
    ensures
        r@ == failed_tail(failed as nat),
{
    if failed > 0 {
        let mut s = " (".to_owned();
        s.append(decimal_of(failed as u64).as_str());
        s.append(" failed)");
        s
    } else {
        String::new()
    }
}

/// The number and the reason of a page that failed.
pub open spec fn page_failure(p: (usize, String)) -> Seq<char> {
    "(p"@ + decimal((p.0 + 1) as nat) + ": "@ + clipped_error(p.1@) + ")"@
}

fn page_failure_words(p: &(usize, String)) -> (r: String)
    requires
        p.0 < usize::MAX,
    ensures
        r@ == page_failure(*p),
{
    let mut s = "(p".to_owned();
    s.append(decimal_of(p.0 as u64 + 1).as_str());
    s.append(": ");
    s.append(clip_err(p.1.as_str()).as_str());
    s.append(")");
    s
}

/// The status of a file once its transcription proceeded or ended. While it
/// runs the status begins with `ocr`, which marks the file as queued.
pub open spec fn ocr_status(update: OcrUpdate) -> Seq<char> {
    match update {
        OcrUpdate::Stage(s) => "ocr: "@ + s@,
        OcrUpdate::Progress(done, total, failed) => "ocr "@ + decimal(done as nat) + "/"@ + decimal(
            total as nat,
        ) + failed_tail(failed as nat),
        OcrUpdate::Done(Ok(p)) => if trim(p.0@).len() == 0 {
            if p.1@.len() == 0 {
                "no text (ocr found nothing)"@
            } else {
                "all pages failed "@ + page_failure(p.1@[0])
            }
        } else if p.1@.len() == 0 {
            "ok"@
        } else {
            "ok — "@ + decimal(p.1@.len()) + (if p.1@.len() == 1 { " page"@ } else { " pages"@ })
                + " failed "@ + page_failure(p.1@[0])
        },
        OcrUpdate::Done(Err(e)) => e@,
    }
}

/// What the screen says of it.
pub open spec fn ocr_words(name: Seq<char>, update: OcrUpdate) -> Seq<char> {
    match update {
        OcrUpdate::Stage(s) => "ocr "@ + name + ": "@ + s@,
        OcrUpdate::Progress(done, total, failed) => "ocr "@ + name + ": "@ + decimal(done as nat)
            + "/"@ + decimal(total as nat) + " pages"@ + failed_tail(failed as nat),
        OcrUpdate::Done(Ok(p)) if trim(p.0@).len() > 0 => "ocr done: "@ + name,
        OcrUpdate::Done(_) => "ocr "@ + name + ": "@ + ocr_status(update),
    }
}

/// Whether the pages of an update can be numbered from one.
pub open spec fn pages_numbered(update: OcrUpdate) -> bool {
    update matches OcrUpdate::Done(Ok(p)) ==> p.1@.len() > 0 ==> p.1@[0].0 < usize::MAX
}

fn ocr_status_of(update: &OcrUpdate) -> (r: String)
    requires
        pages_numbered(*update),
    ensures
        r@ == ocr_status(*update),
{
    match update {
        OcrUpdate::Stage(s) => concat("ocr: ", s.as_str()),
        OcrUpdate::Progress(done, total, failed) => {
            let mut s = "ocr ".to_owned();
            s.append(decimal_of(*done as u64).as_str());
            s.append("/");
            s.append(decimal_of(*total as u64).as_str());
            s.append(failed_words(*failed).as_str());
            s
        },
        OcrUpdate::Done(Ok((text, errors))) => {
            if trimmed(text.as_str()).is_empty() {
                if errors.len() == 0 {
                    "no text (ocr found nothing)".to_owned()
                } else {
                    concat("all pages failed ", page_failure_words(&errors[0]).as_str())
                }
            } else if errors.len() == 0 {
                "ok".to_owned()
            } else {
                let mut s = "ok — ".to_owned();
                s.append(decimal_of(errors.len() as u64).as_str());
                s.append(if errors.len() == 1 { " page" } else { " pages" });
                s.append(" failed ");
                s.append(page_failure_words(&errors[0]).as_str());
                s
            }
        },
        OcrUpdate::Done(Err(e)) => e.clone(),
    }
}

fn ocr_words_of(name: &str, update: &OcrUpdate) -> (r: String)
    requires
        pages_numbered(*update),
    ensures
        r@ == ocr_words(name@, *update),
{
    match update {
        OcrUpdate::Stage(s) => {
            let mut w = "ocr ".to_owned();
            w.append(name);
            w.append(": ");
            w.append(s.as_str());
            w
        },
        OcrUpdate::Progress(done, total, failed) => {
            let mut w = "ocr ".to_owned();
            w.append(name);
            w.append(": ");
            w.append(decimal_of(*done as u64).as_str());
            w.append("/");
            w.append(decimal_of(*total as u64).as_str());
            w.append(" pages");
            w.append(failed_words(*failed).as_str());
            w
        },
        OcrUpdate::Done(result) => {
            if let Ok((text, _)) = result {
                if !trimmed(text.as_str()).is_empty() {
                    return concat("ocr done: ", name);
                }
            }
            let mut w = "ocr ".to_owned();
            w.append(name);
            w.append(": ");
            w.append(ocr_status_of(update).as_str());
            w
        },
    }
}

/// What an update on the transcription of a file asks for: nothing where the
/// file is gone or not queued any more, else its status and, with text, the
/// index of it.
pub open spec fn ocr_effects(
    files: Seq<FileRow>,
    active: bool,
    name: Seq<char>,
    update: OcrUpdate,
) -> Seq<EffectView> {
    match file_named(files, name, 0) {
        None => Seq::empty(),
        Some(i) => if !is_queued(files[i].status@) {
            Seq::empty()
        } else {
            let id = files[i].id@;
            let status = EffectView::SetFileStatus { file_id: id, status: ocr_status(update) };
            let stored = match update {
                OcrUpdate::Done(Ok(p)) if trim(p.0@).len() > 0 => seq![
                    EffectView::SetFileText { file_id: id, text: p.0@ },
                    status,
                ],
                _ => seq![status],
            };
            if active { stored.push(EffectView::ReloadFiles) } else { stored }
        },
    }
}

/// Whether an update concerns a file that still waits for it.
pub open spec fn ocr_applies(files: Seq<FileRow>, name: Seq<char>) -> bool {
    file_named(files, name, 0) matches Some(i) && is_queued(files[i].status@)
}

/// Takes an update on the transcription of a file. `files` is the index of its
/// space, and `active` says whether that space is the active one.
fn on_ocr_update(
    files: &Vec<FileRow>,
    active: bool,
    name: &str,
    update: OcrUpdate,
    screen: &mut Screen,
) -> (r: Vec<Effect>)
    requires
        pages_numbered(update),
    ensures
        views(r@) == ocr_effects(files@, active, name@, update),
        if ocr_applies(files@, name@) && active {
            *final(screen) == (Screen { status: final(screen).status, ..*old(screen) })
                && final(screen).status@ == ocr_words(name@, update)
        } else {
            *final(screen) == *old(screen)
        },
{
    let i = match position_of(files, name) {
        Some(i) => i,
        None => {
            return no_effects();
        },
    };
    if !has_prefix(files[i].status.as_str(), "ocr") {
        return no_effects();
    }
    if active {
        screen.status = ocr_words_of(name, &update);
    }
    let status = Effect::SetFileStatus {
        file_id: files[i].id.clone(),
        status: ocr_status_of(&update),
    };
    let mut r: Vec<Effect> = Vec::new();
    if let OcrUpdate::Done(Ok((text, _))) = update {
        if !trimmed(text.as_str()).is_empty() {
            r.push(Effect::SetFileText { file_id: files[i].id.clone(), text });
        }
    }
    r.push(status);
    if active {
        r.push(Effect::ReloadFiles);
    }
    assert(views(r@) =~= ocr_effects(files@, active, name@, update));
    r
}

/// Takes an update on the transcription of a file of a space, whose index is
/// `files`, or the end of the batch: files that came in meanwhile are taken up
/// by bringing the index up to date.
pub fn on_ocr_done(
    jobs: &mut Jobs,
    screen: &mut Screen,
    files: &Vec<FileRow>,
    active: bool,
    r: Option<(String, OcrUpdate)>,
) -> (effects: Vec<Effect>)
    requires
        r matches Some((_, update)) ==> pages_numbered(update),
    ensures
        match r {
            None => {
                &&& *final(jobs) == (Jobs { ocr: false, ..*old(jobs) })
                &&& *final(screen) == *old(screen)
                &&& views(effects@) == seq![EffectView::RescanFiles]
            },
            Some((name, update)) => {
                &&& *final(jobs) == *old(jobs)
                &&& views(effects@) == ocr_effects(files@, active, name@, update)
                &&& if ocr_applies(files@, name@) && active {
                    says(*old(screen), *final(screen), ocr_words(name@, update))
                } else {
                    *final(screen) == *old(screen)
                }
            },
        },
{
    match r {
        None => {
            jobs.ocr = false;
            one_effect(Effect::RescanFiles)
        },
        Some((name, update)) => on_ocr_update(files, active, name.as_str(), update, screen),
    }
}

/// What a local model transcribed a page to: the text of the field `response`
/// of its reply, or nothing.
pub fn ocr_reply(reply: &serde_json::Value) -> (r: String)
    ensures
        r@ == (match crate::json::get_text(holds(*reply), "response"@) {
            Some(s) => s,
            None => Seq::empty(),
        }),
{
    match crate::json::text_field(reply, "response") {
        Some(s) => s.to_owned(),
        None => String::new(),
    }
}

/// What a local model transcribed a page to, by the text of its reply; nothing
/// where that is no JSON.
pub open spec fn reply_page(text: Seq<char>) -> Option<Seq<char>> {
    match parsed(text) {
        None => None,
        Some(j) => Some(
            match crate::json::get_text(j, "response"@) {
                Some(s) => s,
                None => Seq::empty(),
            },
        ),
    }
}

/// What a local model transcribed a page to, by the text of its reply.
pub fn page_of_reply(text: &str) -> (r: Option<String>)
    ensures
        opt_text(r) == reply_page(text@),
{
    match parse(text) {
        Some(v) => Some(ocr_reply(&v)),
        None => None,
    }
}

/// What came of a request to the local server.
pub enum LocalAnswer {
    /// It got no answer: whether that took too long, whether the server could
    /// not be reached, and the reason.
    Unanswered { timed_out: bool, unreachable: bool, error: String },
    /// It was answered with a status, and a text or the reason why there is
    /// none.
    Answered { status: u16, text: Result<String, String> },
}

/// What a local model transcribed a page to, or why it did not.
pub open spec fn local_page(model: Seq<char>, answer: LocalAnswer) -> Result<Seq<char>, Seq<char>> {
    match answer {
        LocalAnswer::Unanswered { timed_out, unreachable, error } => Err(
            if timed_out {
                "timeout after 600s"@
            } else if unreachable {
                "cannot reach ollama at 127.0.0.1:11434 — is it running? (systemctl start ollama)"@
            } else {
                error@
            },
        ),
        LocalAnswer::Answered { status, text } => if status == 404 {
            Err("model '"@ + model + "' not pulled — run /ocr-local"@)
        } else {
            match text {
                Err(e) => Err(e@),
                Ok(t) => match reply_page(t@) {
                    Some(page) => Ok(page),
                    None => Err("error decoding response body"@),
                },
            }
        },
    }
}

/// What a local model transcribed a page to, or why it did not.
pub fn page_of_answer(model: &str, answer: LocalAnswer) -> (r: Result<String, String>)
    ensures
        outcome(r) == local_page(model@, answer),
{
    match answer {
        LocalAnswer::Unanswered { timed_out, unreachable, error } => {
            if timed_out {
                Err("timeout after 600s".to_owned())
            } else if unreachable {
                Err(
                    "cannot reach ollama at 127.0.0.1:11434 — is it running? (systemctl start ollama)".to_owned(),
                )
            } else {
                Err(error)
            }
        },
        LocalAnswer::Answered { status, text } => {
            if status == 404 {
                let mut s = "model '".to_owned();
                s.append(model);
                s.append("' not pulled — run /ocr-local");
                return Err(s);
            }
            match text {
                Err(e) => Err(e),
                Ok(t) => match page_of_reply(t.as_str()) {
                    Some(page) => Ok(page),
                    None => Err("error decoding response body".to_owned()),
                },
            }
        },
    }
}

/// What came of fetching a local model.
pub enum PullRun {
    /// The program could not be started: whether there is none, and the reason.
    NotStarted { missing: bool, error: String },
    /// The program ended, well or not, and said this of its failures.
    Ended { success: bool, stderr: String },
}

/// Whether the program failed because its server does not run.
pub open spec fn server_is_down(stderr: Seq<char>) -> bool {
    contains(stderr, "could not connect"@) || contains(stderr, "connection refused"@)
}

/// The model that was fetched, or why it was not.
pub open spec fn pulled(model: Seq<char>, run: PullRun) -> Result<Seq<char>, Seq<char>> {
    match run {
        PullRun::NotStarted { missing, error } => Err(
            if missing {
                "ollama not installed — get it from https://ollama.com (pacman -S ollama), then retry"@
            } else {
                "ollama pull failed: "@ + error@
            },
        ),
        PullRun::Ended { success, stderr } => if success {
            Ok(model)
        } else {
            Err(
                "ollama pull failed: "@ + trim(stderr@) + (if server_is_down(stderr@) {
                    " — is the ollama server running? (systemctl start ollama, or `ollama serve`)"@
                } else {
                    Seq::empty()
                }),
            )
        },
    }
}

/// The model that was fetched, or why it was not.
pub fn pull_outcome(model: String, run: PullRun) -> (r: Result<String, String>)
    ensures
        outcome(r) == pulled(model@, run),
{
    match run {
        PullRun::NotStarted { missing, error } => {
            if missing {
                Err(
                    "ollama not installed — get it from https://ollama.com (pacman -S ollama), then retry".to_owned(),
                )
            } else {
                Err(concat("ollama pull failed: ", error.as_str()))
            }
        },
        PullRun::Ended { success, stderr } => {
            if success {
                return Ok(model);
            }
            let mut s = "ollama pull failed: ".to_owned();
            s.append(trimmed(stderr.as_str()));
            if has(stderr.as_str(), "could not connect") || has(
                stderr.as_str(),
                "connection refused",
            ) {
                s.append(
                    " — is the ollama server running? (systemctl start ollama, or `ollama serve`)",
                );
            }
            assert(outcome(Err(s))->Err_0 =~= pulled(model@, run)->Err_0);
            Err(s)
        },
    }
}

/// Why the pages of a file could not be rendered or read.
pub enum OcrError {
    /// A program that does it is not installed.
    MissingTools,
    Failed(String),
}

/// What is said of a file whose transcription failed as a whole: which programs
/// to install, which are `tools`, or the reason.
pub open spec fn ocr_failure(e: OcrError, tools: Seq<char>) -> Seq<char> {
    match e {
        OcrError::MissingTools => "scanned pdf — install "@ + tools + " for ocr"@,
        OcrError::Failed(reason) => "error: ocr: "@ + reason@,
    }
}

fn failure_of(e: OcrError, tools: &str) -> (r: String)
    ensures
        r@ == ocr_failure(e, tools@),
{
    match e {
        OcrError::MissingTools => {
            let mut s = "scanned pdf — install ".to_owned();
            s.append(tools);
            s.append(" for ocr");
            s
        },
        OcrError::Failed(reason) => concat("error: ocr: ", reason.as_str()),
    }
}

/// What is said of a file whose pages could not be rendered for a vision model.
pub fn render_failure(e: OcrError) -> (r: String)
    ensures
        r@ == ocr_failure(e, "poppler (pdftoppm)"@),
{
    failure_of(e, "poppler (pdftoppm)")
}

/// How the transcription of a file without a vision model ended.
pub fn tesseract_done(result: Result<String, OcrError>) -> (r: OcrUpdate)
    ensures
        match (result, r) {
            (Ok(text), OcrUpdate::Done(Ok(p))) => p.0 == text && p.1@.len() == 0,
            (Err(e), OcrUpdate::Done(Err(s))) => s@ == ocr_failure(e, "tesseract + poppler"@),
            _ => false,
        },
{
    match result {
        Ok(text) => OcrUpdate::Done(Ok((text, Vec::new()))),
        Err(e) => OcrUpdate::Done(Err(failure_of(e, "tesseract + poppler"))),
    }
}

/// What is said while the pages of a file are rendered.
pub fn rendering() -> (r: OcrUpdate)
    ensures
        r matches OcrUpdate::Stage(s) && s@ == "rendering pages (300 dpi)…"@,
{
    OcrUpdate::Stage("rendering pages (300 dpi)…".to_owned())
}

/// What comes of a page whose image cannot be read: it is not tried.
pub fn unreadable_page() -> (r: Result<String, String>)
    ensures
        outcome(r) == Err::<Seq<char>, Seq<char>>("page image unreadable"@),
{
    Err("page image unreadable".to_owned())
}

/// What a try at a page comes to: the page is tried once more where the first
/// try failed. `None` is for another try.
pub fn page_after_try(tries: usize, result: Result<String, String>) -> (r: Option<
    Result<String, String>,
>)
    ensures
        r == (if result is Err && tries < 2 {
            None
        } else {
            Some(result)
        }),
{
    if result.is_err() && tries < 2 {
        None
    } else {
        Some(result)
    }
}

/// A file whose transcription proceeds stays queued, so that it is taken up
/// again when the client ends before it is done.
pub proof fn progress_stays_queued(update: OcrUpdate)
    requires
        !(update is Done),
    ensures
        is_queued(ocr_status(update)),
{
    reveal_strlit("ocr");
    reveal_strlit("ocr: ");
    reveal_strlit("ocr ");
    let s = ocr_status(update);
    assert(s.len() >= 3 && s[0] == 'o' && s[1] == 'c' && s[2] == 'r');
    assert(s.take(3) =~= "ocr"@);
}

/// A file whose transcription came to its end is not queued any more, whatever
/// came of its pages. Where it failed as a whole, the reason is the status, so
/// this leaves out a reason that reads like that of a queued file.
pub proof fn transcribed_is_not_queued(update: OcrUpdate)
    requires
        update is Done,
        update matches OcrUpdate::Done(Err(msg)) ==> !is_queued(msg@),
    ensures
        !is_queued(ocr_status(update)),
{
    reveal_strlit("ocr");
    reveal_strlit("no text (ocr found nothing)");
    reveal_strlit("all pages failed ");
    reveal_strlit("ok");
    reveal_strlit("ok — ");
    let s = ocr_status(update);
    if is_queued(s) {
        assert(s[0] == "ocr"@[0] && s[1] == "ocr"@[1]);
        assert(s[0] == 'o' && s[1] == 'c');
    }
}

/// Pages that are transcribed a few at a time: which come next, how many are
/// done and failed, and what came of each.
pub struct PageQueue {
    pub total: usize,
    pub next: usize,
    pub done: usize,
    pub failed: usize,
    pub results: Vec<Result<String, String>>,
}

/// How many pages are transcribed at once.
pub const OCR_WINDOW: usize = 4;

impl PageQueue {
    /// What holds of every queue: pages are begun in their order, none is done
    /// before it is begun, and as many as the window allows are under way.
    pub open spec fn wf(&self) -> bool {
        &&& self.results@.len() == self.total
        &&& self.done <= self.next <= self.total
        &&& self.failed <= self.done
        &&& self.next - self.done <= OCR_WINDOW
        &&& self.next < self.total ==> self.next - self.done == OCR_WINDOW
    }

    /// A queue of all pages, of which the first few are to be begun: those
    /// below `next`.
    pub fn start(total: usize) -> (r: PageQueue)
        ensures
            r.wf(),
            r.total == total,
            r.next == (if total < OCR_WINDOW { total } else { OCR_WINDOW }),
            r.done == 0,
            r.failed == 0,
            forall|i: int|
                0 <= i < total ==> (#[trigger] r.results@[i]) is Err && (r.results@[i]->Err_0)@
                    == "not transcribed"@,
    {
        let mut results: Vec<Result<String, String>> = Vec::new();
        let mut i: usize = 0;
        while i < total
            invariant
                i <= total,
                results@.len() == i,
                forall|k: int|
                    0 <= k < i ==> (#[trigger] results@[k]) is Err && (results@[k]->Err_0)@
                        == "not transcribed"@,
            decreases total - i,
        {
            results.push(Err("not transcribed".to_owned()));
            i += 1;
        }
        PageQueue {
            total,
            next: if total < OCR_WINDOW { total } else { OCR_WINDOW },
            done: 0,
            failed: 0,
            results,
        }
    }

    /// A page that was begun ended, `None` where its task broke down. Gives
    /// the progress, and the page to begin next, if one is left.
    pub fn ended(&mut self, page: Option<(usize, Result<String, String>)>) -> (r: (
        OcrUpdate,
        Option<usize>,
    ))
        requires
            old(self).wf(),
            old(self).done < old(self).next,
        ensures
            final(self).wf(),
            final(self).total == old(self).total,
            final(self).done == old(self).done + 1,
            final(self).failed == old(self).failed + (if page matches Some((_, Ok(_))) {
                0int
            } else {
                1
            }),
            final(self).results@ == (match page {
                Some(p) => if p.0 < old(self).total {
                    old(self).results@.update(p.0 as int, p.1)
                } else {
                    old(self).results@
                },
                None => old(self).results@,
            }),
            r.0 == OcrUpdate::Progress(
                (old(self).done + 1) as usize,
                old(self).total,
                final(self).failed,
            ),
            if old(self).next < old(self).total {
                r.1 == Some(old(self).next) && final(self).next == old(self).next + 1
            } else {
                r.1 is None && final(self).next == old(self).next
            },
    {
        let mut ok = false;
        if let Some((i, result)) = page {
            ok = result.is_ok();
            if i < self.total {
                self.results.set(i, result);
            }
        }
        if !ok {
            self.failed = self.failed + 1;
        }
        self.done = self.done + 1;
        let progress = OcrUpdate::Progress(self.done, self.total, self.failed);
        if self.next < self.total {
            let page: usize = self.next;
            self.next = self.next + 1;
            (progress, Some(page))
        } else {
            (progress, None)
        }
    }

    /// The pages that failed, each with its reason.
    pub open spec fn failures(&self, n: nat) -> Seq<(usize, Seq<char>)>
        decreases n,
    {
        if n == 0 {
            Seq::empty()
        } else {
            match self.results@[n - 1] {
                Err(e) => self.failures((n - 1) as nat).push(((n - 1) as usize, e@)),
                Ok(_) => self.failures((n - 1) as nat),
            }
        }
    }

    /// The pages that failed, each with its reason.
    pub fn errors(&self) -> (r: Vec<(usize, String)>)
        ensures
            r@.map_values(|p: (usize, String)| (p.0, p.1@)) == self.failures(
                self.results@.len(),
            ),
    {
        let mut out: Vec<(usize, String)> = Vec::new();
        let mut i: usize = 0;
        assert(out@.map_values(|p: (usize, String)| (p.0, p.1@)) =~= Seq::empty());
        while i < self.results.len()
            invariant
                i <= self.results@.len(),
                out@.map_values(|p: (usize, String)| (p.0, p.1@)) == self.failures(i as nat),
            decreases self.results@.len() - i,
        {
            if let Err(e) = &self.results[i] {
                let ghost before = out@;
                out.push((i, e.clone()));
                assert(out@.map_values(|p: (usize, String)| (p.0, p.1@)) =~= before.map_values(
                    |p: (usize, String)| (p.0, p.1@),
                ).push((i, e@)));
            }
            i += 1;
        }
        out
    }
}

/// What the start of the embedding of the next file asks for.
pub open spec fn embedding(
    jobs: Jobs,
    b: Backends,
    model: Seq<char>,
    missing: Option<Seq<char>>,
    has_text: bool,
) -> Seq<EffectView> {
    match missing {
        Some(id) if !jobs.embed && b.first() is Some && trim(model).len() > 0 && has_text => seq![
            EffectView::SetFileStatus { file_id: id, status: "embedding…"@ },
            EffectView::ReloadFiles,
            EffectView::StartEmbedding { file_id: id, model: trim(model) },
        ],
        _ => Seq::empty(),
    }
}

/// Starts to embed the next file that lacks embeddings. `missing` is its id
/// and `has_text` says whether it has any text. Without a backend or an
/// embedding model, or while another file is embedded, nothing starts.
pub fn start_embedding(
    jobs: &mut Jobs,
    backends: &Backends,
    config: &Config,
    missing: &Option<String>,
    has_text: bool,
) -> (r: Vec<Effect>)
    ensures
        views(r@) == embedding(
            *old(jobs),
            *backends,
            config.embedding_model@,
            crate::text::opt_text(*missing),
            has_text,
        ),
        *final(jobs) == (Jobs {
            embed: old(jobs).embed || views(r@).len() > 0,
            ..*old(jobs)
        }),
{
    let model = trimmed(config.embedding_model.as_str());
    if jobs.embed || !backends.any() || model.is_empty() || !has_text {
        return no_effects();
    }
    match missing {
        None => no_effects(),
        Some(id) => {
            jobs.embed = true;
            let mut r: Vec<Effect> = Vec::new();
            r.push(Effect::SetFileStatus { file_id: id.clone(), status: "embedding…".to_owned() });
            r.push(Effect::ReloadFiles);
            r.push(Effect::StartEmbedding { file_id: id.clone(), model: model.to_owned() });
            assert(views(r@) =~= embedding(
                *old(jobs),
                *backends,
                config.embedding_model@,
                Some(id@),
                has_text,
            ));
            r
        },
    }
}

/// The embedding of a file ended. `active` says whether its space is the
/// active one. A failure is shown and stops the chain; the file counts as
/// indexed either way.
pub fn on_embed_done(
    jobs: &mut Jobs,
    screen: &mut Screen,
    active: bool,
    ended: Option<(String, Result<(), String>)>,
) -> (r: Vec<Effect>)
    ensures
        *final(jobs) == (Jobs { embed: false, ..*old(jobs) }),
        match ended {
            None => *final(screen) == *old(screen) && views(r@) == Seq::<EffectView>::empty(),
            Some((id, Ok(_))) => *final(screen) == *old(screen) && views(r@) == with_reload(
                seq![
                    EffectView::StoreEmbeddings { file_id: id@ },
                    EffectView::SetFileStatus { file_id: id@, status: "ok"@ },
                    EffectView::NextEmbedding,
                ],
                active,
            ),
            Some((id, Err(e))) => {
                &&& *final(screen) == (Screen { status: final(screen).status, ..*old(screen) })
                &&& final(screen).status@ == "embedding failed: "@ + e@
                &&& views(r@) == with_reload(
                    seq![EffectView::SetFileStatus { file_id: id@, status: "ok"@ }],
                    active,
                )
            },
        },
{
    jobs.embed = false;
    let mut r: Vec<Effect> = Vec::new();
    match ended {
        None => {
            assert(views(r@) =~= Seq::empty());
            return r;
        },
        Some((id, Ok(_))) => {
            r.push(Effect::StoreEmbeddings { file_id: id.clone() });
            r.push(Effect::SetFileStatus { file_id: id, status: "ok".to_owned() });
            r.push(Effect::NextEmbedding);
            assert(views(r@) =~= seq![
                EffectView::StoreEmbeddings { file_id: id@ },
                EffectView::SetFileStatus { file_id: id@, status: "ok"@ },
                EffectView::NextEmbedding,
            ]);
        },
        Some((id, Err(e))) => {
            r.push(Effect::SetFileStatus { file_id: id, status: "ok".to_owned() });
            screen.status = concat("embedding failed: ", e.as_str());
            assert(views(r@) =~= seq![EffectView::SetFileStatus { file_id: id@, status: "ok"@ }]);
        },
    }
    if active {
        and_effect(r, Effect::ReloadFiles)
    } else {
        r
    }
}

/// The effects, and the index anew where the space is the active one.
pub open spec fn with_reload(v: Seq<EffectView>, active: bool) -> Seq<EffectView> {
    if active { v.push(EffectView::ReloadFiles) } else { v }
}

/// What follows from the name that was typed for a file.
pub enum RenameStep {
    /// The name is the same or blank: nothing.
    Nothing,
    /// The name does not do, or is taken.
    Refused,
    /// The file is to be renamed on the disk.
    Rename { from: String, to: String },
}

/// Whether a name can be the name of a file.
pub open spec fn is_file_name(s: Seq<char>) -> bool {
    !s.contains('/') && !s.contains('\\') && s != "."@ && s != ".."@
}

fn is_name(s: &str) -> (r: bool)
    ensures
        r == is_file_name(s@),
{
    let cs = chars_of(s);
    let mut i: usize = 0;
    while i < cs.len()
        invariant
            i <= cs@.len(),
            cs@ == s@,
            forall|j: int| 0 <= j < i ==> s@[j] != '/' && s@[j] != '\\',
        decreases cs@.len() - i,
    {
        if cs[i] == '/' || cs[i] == '\\' {
            assert(s@.contains(cs@[i as int]));
            return false;
        }
        i += 1;
    }
    !same(s, ".") && !same(s, "..")
}

impl FilesPopup {
    /// Takes the index over and keeps the cursor in it.
    pub fn take_files(&mut self, list: Vec<FileRow>)
        ensures
            *final(self) == (FilesPopup {
                cache: list,
                selected: kept_in(old(self).selected as int, list@.len() as int) as usize,
                ..*old(self)
            }),
    {
        let n: usize = list.len();
        self.cache = list;
        self.selected = keep_in(self.selected, n);
    }

    /// Opens the files popup; the index is brought up to date.
    pub fn open_files_popup(&mut self, screen: &mut Screen) -> (r: Vec<Effect>)
        ensures
            *final(self) == (FilesPopup { mode: FilesMode::Browse, ..*old(self) }),
            *final(screen) == (Screen { popup: Popup::Files, ..*old(screen) }),
            views(r@) == seq![EffectView::RescanFiles],
    {
        self.mode = FilesMode::Browse;
        screen.popup = Popup::Files;
        one_effect(Effect::RescanFiles)
    }

    /// Moves the cursor.
    pub fn move_files_selection(&mut self, delta: i32)
        ensures
            *final(self) == (FilesPopup {
                selected: moved(
                    old(self).selected as int,
                    old(self).cache@.len() as int,
                    delta as int,
                ) as usize,
                ..*old(self)
            }),
    {
        self.selected = clamp_cursor(self.selected, self.cache.len(), delta);
    }

    /// Begins to type the path of a file to import.
    pub fn start_files_add(&mut self)
        ensures
            *final(self) == (FilesPopup {
                edit: final(self).edit,
                mode: FilesMode::Add,
                ..*old(self)
            }),
            final(self).edit@ == Seq::<char>::empty(),
    {
        self.edit = String::new();
        self.mode = FilesMode::Add;
    }

    /// Ends the typing of a path. Gives the path to import, unless it is blank
    /// or, as `is_file` says, no file.
    pub fn confirm_files_add(&mut self, screen: &mut Screen, is_file: bool) -> (r: Option<String>)
        ensures
            *final(self) == (FilesPopup { mode: FilesMode::Browse, ..*old(self) }),
            ({
                let raw = trim(old(self).edit@);
                if raw.len() == 0 {
                    r is None && *final(screen) == *old(screen)
                } else if !is_file {
                    r is None && *final(screen) == (Screen {
                        status: final(screen).status,
                        ..*old(screen)
                    }) && final(screen).status@ == "not a file: "@ + raw
                } else {
                    r matches Some(p) && p@ == raw && *final(screen) == *old(screen)
                }
            }),
    {
        let raw = trimmed(self.edit.as_str()).to_owned();
        self.mode = FilesMode::Browse;
        if raw.as_str().is_empty() {
            return None;
        }
        if !is_file {
            screen.status = concat("not a file: ", raw.as_str());
            return None;
        }
        Some(raw)
    }

    /// Begins to rename the selected file, with its name to edit.
    pub fn start_files_rename(&mut self)
        ensures
            *final(self) == (if old(self).selected < old(self).cache@.len() {
                FilesPopup {
                    edit: old(self).cache@[old(self).selected as int].name,
                    mode: FilesMode::Rename,
                    ..*old(self)
                }
            } else {
                *old(self)
            }),
    {
        if self.selected < self.cache.len() {
            self.edit = self.cache[self.selected].name.clone();
            self.mode = FilesMode::Rename;
        }
    }

    /// Ends the typing of a new name. `taken` says whether a file of that name
    /// exists.
    pub fn confirm_files_rename(&mut self, screen: &mut Screen, taken: bool) -> (r: RenameStep)
        ensures
            *final(self) == (FilesPopup { mode: FilesMode::Browse, ..*old(self) }),
            *final(screen) == (Screen { status: final(screen).status, ..*old(screen) }),
            ({
                let new = trim(old(self).edit@);
                if old(self).selected >= old(self).cache@.len() || new.len() == 0 || new
                    == old(self).cache@[old(self).selected as int].name@ {
                    r is Nothing && final(screen).status == old(screen).status
                } else if !is_file_name(new) {
                    r is Refused && final(screen).status@ == "invalid name: "@ + new
                } else if taken {
                    r is Refused && final(screen).status@ == new + " already exists"@
                } else {
                    &&& r matches RenameStep::Rename { from, to } && from
                        == old(self).cache@[old(self).selected as int].name && to@ == new
                    &&& final(screen).status == old(screen).status
                }
            }),
    {
        let new = trimmed(self.edit.as_str()).to_owned();
        self.mode = FilesMode::Browse;
        if self.selected >= self.cache.len() {
            return RenameStep::Nothing;
        }
        let from = self.cache[self.selected].name.clone();
        if new.as_str().is_empty() || same(new.as_str(), from.as_str()) {
            return RenameStep::Nothing;
        }
        if !is_name(new.as_str()) {
            screen.status = concat("invalid name: ", new.as_str());
            return RenameStep::Refused;
        }
        if taken {
            screen.status = concat(new.as_str(), " already exists");
            return RenameStep::Refused;
        }
        RenameStep::Rename { from, to: new }
    }

    /// A file was renamed, and the index is `list` now: the cursor goes to the
    /// file under its new name.
    pub fn files_renamed(&mut self, screen: &mut Screen, list: Vec<FileRow>, from: &str, to: &str)
        ensures
            *final(self) == (FilesPopup {
                cache: list,
                selected: (match file_named(list@, to@, 0) {
                    Some(i) => i,
                    None => kept_in(old(self).selected as int, list@.len() as int),
                }) as usize,
                ..*old(self)
            }),
            *final(screen) == (Screen { status: final(screen).status, ..*old(screen) }),
            final(screen).status@ == "renamed "@ + from@ + " to "@ + to@,
    {
        let at = position_of(&list, to);
        self.take_files(list);
        if let Some(i) = at {
            self.selected = i;
        }
        let mut s = "renamed ".to_owned();
        s.append(from);
        s.append(" to ");
        s.append(to);
        screen.status = s;
    }

    /// Deletes the selected file. `deleted` says whether the disk and the
    /// index have dropped it (see `file_to_delete`); where they have not,
    /// nothing changes.
    pub fn confirm_files_delete(&mut self, screen: &mut Screen, deleted: bool) -> (r: Vec<Effect>)
        ensures
            if old(self).selected >= old(self).cache@.len() {
                &&& *final(self) == (FilesPopup { mode: FilesMode::Browse, ..*old(self) })
                &&& *final(screen) == *old(screen)
                &&& views(r@) == Seq::<EffectView>::empty()
            } else if !deleted {
                &&& *final(self) == *old(self)
                &&& *final(screen) == *old(screen)
                &&& views(r@) == Seq::<EffectView>::empty()
            } else {
                &&& *final(self) == (FilesPopup { mode: FilesMode::Browse, ..*old(self) })
                &&& *final(screen) == (Screen { status: final(screen).status, ..*old(screen) })
                &&& final(screen).status@ == "removed "@
                    + old(self).cache@[old(self).selected as int].name@
                &&& views(r@) == seq![EffectView::RescanFiles]
            },
    {
        let mut r = no_effects();
        if self.selected < self.cache.len() {
            if !deleted {
                return r;
            }
            screen.status = concat("removed ", self.cache[self.selected].name.as_str());
            r = one_effect(Effect::RescanFiles);
        }
        self.mode = FilesMode::Browse;
        r
    }

    /// Has the text of the selected file extracted anew.
    pub fn reextract_selected_file(&self, screen: &mut Screen) -> (r: Vec<Effect>)
        ensures
            if self.selected >= self.cache@.len() {
                *final(screen) == *old(screen) && views(r@) == Seq::<EffectView>::empty()
            } else {
                let f = self.cache@[self.selected as int];
                &&& *final(screen) == (Screen { status: final(screen).status, ..*old(screen) })
                &&& final(screen).status@ == "re-extracting: "@ + f.name@
                &&& views(r@) == seq![
                    EffectView::ForgetFile { file_id: f.id@, name: f.name@ },
                    EffectView::RescanFiles,
                ]
            },
    {
        if self.selected >= self.cache.len() {
            return no_effects();
        }
        let f = &self.cache[self.selected];
        screen.status = concat("re-extracting: ", f.name.as_str());
        let r = and_effect(
            one_effect(Effect::ForgetFile { file_id: f.id.clone(), name: f.name.clone() }),
            Effect::RescanFiles,
        );
        assert(views(r@) =~= seq![
            EffectView::ForgetFile { file_id: f.id@, name: f.name@ },
            EffectView::RescanFiles,
        ]);
        r
    }

    /// Opens the selected file in the viewer of the system.
    pub fn open_selected_file(&self, screen: &mut Screen) -> (r: Vec<Effect>)
        ensures
            if self.selected >= self.cache@.len() {
                *final(screen) == *old(screen) && views(r@) == Seq::<EffectView>::empty()
            } else {
                let name = self.cache@[self.selected as int].name@;
                &&& *final(screen) == (Screen { status: final(screen).status, ..*old(screen) })
                &&& final(screen).status@ == "opened "@ + name
                &&& views(r@) == seq![EffectView::OpenFile { name }]
            },
    {
        if self.selected >= self.cache.len() {
            return no_effects();
        }
        let name = self.cache[self.selected].name.clone();
        screen.status = concat("opened ", name.as_str());
        one_effect(Effect::OpenFile { name })
    }
}

/// Pages that are transcribed a few at a time are all transcribed: once none is
/// under way, none is left.
pub proof fn every_page_is_done(q: PageQueue)
    requires
        q.wf(),
        q.done == q.next,
    ensures
        q.done == q.total,
{
}

/// A file that was indexed is not read again while it does not change: the
/// next scan asks for nothing.
pub proof fn indexed_file_is_left_alone(
    known: Seq<FileRow>,
    later: Seq<FileRow>,
    f: DiskFile,
    ocr: bool,
    at: int,
)
    requires
        f.mtime != 0,
        f.content matches Some(c) && c.0@.len() == f.size,
        scan_one(known, f, ocr).0.len() == 1,
        scan_one(known, f, ocr).0[0] is IndexFile,
        file_named(later, f.name@, 0) == Some(at),
        0 <= at < later.len(),
        later[at].size == scan_one(known, f, ocr).0[0]->IndexFile_size,
        later[at].mtime == scan_one(known, f, ocr).0[0]->IndexFile_mtime,
    ensures
        unchanged(later, f),
        scan_one(later, f, ocr).0 == Seq::<EffectView>::empty(),
{
}

} // verus!
