//! The files of a space: the index, OCR, embeddings and the pickers.

use nexus_chat::backends::{Backend, BackendTag, Backends};
use nexus_chat::app::{App, Startup};
use nexus_chat::commands::{CommandName, CommandStep};
use nexus_chat::digest::content_hash;
use nexus_chat::effects::Effect;
use nexus_chat::files::{
    clip_err, is_unchanged, ocr_backend, ocr_reply, ollama_ocr_body, ollama_page_body,
    on_embed_done, on_ocr_done, page_after_try, page_of_answer, page_of_reply, pull_outcome,
    render_failure, rendering, rescan_files, start_embedding, tesseract_done, unreadable_page,
    DiskFile, LocalAnswer, OcrBackend, OcrError, OcrUpdate, PageQueue, PullRun, RenameStep,
};
use nexus_chat::images::{imported, list_apps, modified_of, PickStep};
use nexus_chat::settings::on_ocr_pull;
use nexus_chat::skills::{on_skill_install_result, SkillSource};
use nexus_chat::state::{SavedKeys, DEFAULT_SPACE};
use nexus_chat::store::{FileRow, ImageFile, PickerEntry, Skill, Space};
use nexus_chat::ui::{FilesMode, ImagesMode, Popup, SkillsMode};

fn test_app() -> App {
    let mut backends = Backends::default();
    backends.set(
        BackendTag::OpenRouter,
        Backend {
            tag: BackendTag::OpenRouter,
            key: "k".to_string(),
            utility_model: "utility".to_string(),
            research_model: "research".to_string(),
        },
    );
    let mut a = App::new(Startup {
        backends,
        saved: SavedKeys { openrouter_key: None, openai_key: None, opencode_key: None, codex: None },
        default_space: Some(Space {
            id: "space-0".to_string(),
            name: DEFAULT_SPACE.to_string(),
            created_at: "2026-01-01".to_string(),
        }),
        now: "2026-01-01".to_string(),
        skills: Vec::new(),
        base_system_prompt: "base".to_string(),
        banner: String::new(),
        seed: 0,
        home: "/".to_string(),
        max_chat_tasks: 4,
    });
    a.config.ocr_model = "vision/model".to_string();
    a.config.embedding_model = "embed/model".to_string();
    a
}

/// The index of files, as it is stored.
#[derive(Default)]
struct Index {
    rows: Vec<FileRow>,
    texts: Vec<(String, String)>,
}

impl Index {
    fn row(&mut self, name: &str, status: &str) -> String {
        let id = format!("file-{}", self.rows.len());
        self.rows.push(FileRow {
            id: id.clone(),
            name: name.to_string(),
            hash: "h".to_string(),
            size: 9,
            status: status.to_string(),
            mtime: 0,
        });
        id
    }

    fn status(&self, name: &str) -> String {
        self.rows.iter().find(|f| f.name == name).unwrap().status.clone()
    }

    fn text(&self, id: &str) -> Option<String> {
        self.texts.iter().rev().find(|t| t.0 == id).map(|t| t.1.clone())
    }

    fn perform(&mut self, a: &mut App, effects: Vec<Effect>) {
        for e in effects {
            match e {
                Effect::SetFileStatus { file_id, status } => {
                    for f in self.rows.iter_mut().filter(|f| f.id == file_id) {
                        f.status = status.clone();
                    }
                }
                Effect::SetFileText { file_id, text } => self.texts.push((file_id, text)),
                Effect::SetFileMtime { file_id, mtime } => {
                    for f in self.rows.iter_mut().filter(|f| f.id == file_id) {
                        f.mtime = mtime;
                    }
                }
                Effect::IndexFile { name, hash, size, status, text, mtime } => {
                    if !self.rows.iter().any(|f| f.name == name) {
                        self.row(&name, "");
                    }
                    let mut id = String::new();
                    for f in self.rows.iter_mut().filter(|f| f.name == name) {
                        f.hash = hash.clone();
                        f.size = size;
                        f.status = status.clone();
                        f.mtime = mtime;
                        id = f.id.clone();
                    }
                    self.texts.push((id, text));
                }
                Effect::ForgetFile { file_id, .. } => {
                    for f in self.rows.iter_mut().filter(|f| f.id == file_id) {
                        f.hash = String::new();
                        f.size = 0;
                        f.status = "re-extracting".to_string();
                    }
                    self.texts.push((file_id, String::new()));
                }
                Effect::DeleteFile { file_id } => self.rows.retain(|f| f.id != file_id),
                Effect::ReloadFiles => a.files.take_files(self.rows.clone()),
                _ => {}
            }
        }
    }
}

fn disk(name: &str, body: &str, mtime: i64) -> DiskFile {
    DiskFile {
        name: name.to_string(),
        mtime,
        size: body.len() as i64,
        content: Some((body.as_bytes().to_vec(), Ok(body.to_string()))),
    }
}

fn rescan(a: &mut App, db: &mut Index, files: Vec<DiskFile>) {
    let effects = rescan_files(&db.rows, &files, &mut a.jobs);
    db.perform(a, effects);
}

fn ocr(a: &mut App, db: &mut Index, active: bool, name: &str, update: OcrUpdate) {
    let effects = on_ocr_done(
        &mut a.jobs,
        &mut a.screen,
        &db.rows,
        active,
        Some((name.to_string(), update)),
    );
    db.perform(a, effects);
}

#[test]
fn ollama_ocr_body_uses_native_generate_shape() {
    let body = ollama_ocr_body("glm-ocr", "transcribe, furigana and all", "QUFB");
    assert_eq!(body["model"], "glm-ocr");
    assert_eq!(body["stream"], false);
    assert_eq!(body["images"][0], "QUFB");
    assert!(body["prompt"].as_str().unwrap().contains("furigana"));
    assert!(body.get("messages").is_none(), "must not be OpenAI chat shape");
    assert_eq!(body["options"]["num_ctx"], 8192);
}

#[test]
fn ocr_replies_hold_the_text_of_the_page() {
    let v: serde_json::Value = serde_json::from_str("{\"response\":\"page text\"}").unwrap();
    assert_eq!(ocr_reply(&v), "page text");
    let v: serde_json::Value = serde_json::from_str("{\"other\":1}").unwrap();
    assert_eq!(ocr_reply(&v), "");
}

#[test]
fn ocr_backend_routes_by_engine() {
    let mut a = test_app();
    assert!(matches!(ocr_backend(&a.backends, &a.config), Some(OcrBackend::Router(..))));
    a.config.ocr_engine = "local".to_string();
    a.config.local_ocr_model = String::new();
    match ocr_backend(&a.backends, &a.config) {
        Some(OcrBackend::Ollama(model)) => assert_eq!(model, "glm-ocr"),
        other => panic!("expected ollama backend, got {}", other.is_some()),
    }
    a.config.ocr_engine = "tesseract".to_string();
    assert!(ocr_backend(&a.backends, &a.config).is_none());
    a.config.ocr_engine = "auto".to_string();
    a.backends = Backends::default();
    assert!(ocr_backend(&a.backends, &a.config).is_none());
}

#[test]
fn ocr_pull_success_switches_engine_to_local() {
    let mut a = test_app();
    on_ocr_pull(&mut a.config, &mut a.jobs, &mut a.screen, Some(Ok("glm-ocr".to_string())));
    assert_eq!(a.config.ocr_engine, "local");
    assert!(a.screen.status.contains("local OCR ready"));
    on_ocr_pull(
        &mut a.config,
        &mut a.jobs,
        &mut a.screen,
        Some(Err("ollama not installed — get it".to_string())),
    );
    assert_eq!(a.config.ocr_engine, "local");
    assert!(a.screen.status.contains("ollama not installed"));
}

#[test]
fn ocr_statuses_surface_stages_failures_and_reasons() {
    let mut a = test_app();
    let mut db = Index::default();
    db.row("scan.pdf", "ocr…");

    let stage = OcrUpdate::Stage("rendering pages (300 dpi)…".into());
    ocr(&mut a, &mut db, true, "scan.pdf", stage);
    assert_eq!(db.status("scan.pdf"), "ocr: rendering pages (300 dpi)…");

    ocr(&mut a, &mut db, true, "scan.pdf", OcrUpdate::Progress(5, 10, 2));
    assert_eq!(db.status("scan.pdf"), "ocr 5/10 (2 failed)");
    assert!(a.screen.status.contains("5/10 pages (2 failed)"));

    let partial = OcrUpdate::Done(Ok((
        "[page 1]\ntext".to_string(),
        vec![(2, "timeout after 600s".to_string()), (4, "boom".to_string())],
    )));
    ocr(&mut a, &mut db, true, "scan.pdf", partial);
    assert_eq!(db.status("scan.pdf"), "ok — 2 pages failed (p3: timeout after 600s)");

    db.rows[0].status = "ocr…".to_string();
    let all_failed = OcrUpdate::Done(Ok((
        String::new(),
        vec![(
            0,
            "cannot reach ollama at 127.0.0.1:11434 — is it running? (systemctl start ollama)"
                .to_string(),
        )],
    )));
    ocr(&mut a, &mut db, true, "scan.pdf", all_failed);
    let status = db.status("scan.pdf");
    assert!(status.starts_with("all pages failed (p1: cannot reach ollama"), "{status}");
    assert!(!status.starts_with("ocr"), "{status}");
}

#[test]
fn on_ocr_done_ok_indexes_and_marks_ok() {
    let mut a = test_app();
    let mut db = Index::default();
    let id = db.row("scan.pdf", "ocr…");
    let done = OcrUpdate::Done(Ok(("[page 1]\nquarterly revenue table".to_string(), Vec::new())));
    ocr(&mut a, &mut db, true, "scan.pdf", done);
    assert_eq!(a.files.cache[0].status, "ok");
    assert!(db.text(&id).unwrap().contains("revenue"));
}

#[test]
fn on_ocr_progress_updates_status_and_status_line() {
    let mut a = test_app();
    let mut db = Index::default();
    db.row("scan.pdf", "ocr…");
    ocr(&mut a, &mut db, true, "scan.pdf", OcrUpdate::Progress(3, 10, 0));
    assert_eq!(a.files.cache[0].status, "ocr 3/10");
    assert!(a.screen.status.contains("3/10"), "{}", a.screen.status);

    let done = OcrUpdate::Done(Ok(("[page 1]\nfound".to_string(), Vec::new())));
    ocr(&mut a, &mut db, true, "scan.pdf", done);
    assert_eq!(a.files.cache[0].status, "ok");
}

#[test]
fn on_ocr_done_empty_and_err_statuses() {
    let mut a = test_app();
    let mut db = Index::default();
    db.row("blank.pdf", "ocr…");
    db.row("bad.pdf", "ocr…");

    ocr(&mut a, &mut db, true, "blank.pdf", OcrUpdate::Done(Ok((String::new(), Vec::new()))));
    let failed =
        OcrUpdate::Done(Err("scanned pdf — install tesseract + poppler for ocr".to_string()));
    ocr(&mut a, &mut db, true, "bad.pdf", failed);

    let by_name =
        |a: &App, n: &str| a.files.cache.iter().find(|f| f.name == n).unwrap().status.clone();
    assert_eq!(by_name(&a, "blank.pdf"), "no text (ocr found nothing)");
    assert_eq!(by_name(&a, "bad.pdf"), "scanned pdf — install tesseract + poppler for ocr");
}

#[test]
fn on_ocr_done_for_inactive_space_writes_db_but_not_cache() {
    let mut a = test_app();
    let mut db = Index::default();
    db.row("scan.pdf", "ocr…");

    let done = OcrUpdate::Done(Ok(("found text".to_string(), Vec::new())));
    ocr(&mut a, &mut db, false, "scan.pdf", done);

    assert!(a.files.cache.is_empty(), "active-space cache must not show other space's file");
    assert_eq!(db.status("scan.pdf"), "ok");

    let late = OcrUpdate::Done(Ok(("x".to_string(), Vec::new())));
    ocr(&mut a, &mut db, false, "gone.pdf", late);
    assert_eq!(db.rows.len(), 1);
}

fn scanned_pdf() -> DiskFile {
    DiskFile {
        name: "scan.PDF".to_string(),
        mtime: 5,
        size: 3,
        content: Some((b"pdf".to_vec(), Ok("  ".to_string()))),
    }
}

#[test]
fn on_ocr_done_none_clears_channel_and_requeues_stragglers() {
    let mut a = test_app();
    let mut db = Index::default();
    rescan(&mut a, &mut db, vec![scanned_pdf()]);
    assert!(a.jobs.ocr);
    let effects = on_ocr_done(&mut a.jobs, &mut a.screen, &db.rows, true, None);
    assert!(!a.jobs.ocr);
    assert!(matches!(&effects[0], Effect::RescanFiles));
    rescan(&mut a, &mut db, vec![scanned_pdf()]);
    assert!(a.jobs.ocr, "straggler should re-queue on batch end");
}

#[test]
fn rescan_marks_empty_pdf_ocr_and_spawns_batch() {
    let mut a = test_app();
    let mut db = Index::default();
    let effects = rescan_files(&db.rows, &vec![scanned_pdf()], &mut a.jobs);
    assert!(effects
        .iter()
        .any(|e| matches!(e, Effect::StartOcr { names } if *names == vec!["scan.PDF".to_string()])));
    db.perform(&mut a, effects);
    assert_eq!(a.files.cache[0].status, "ocr…");
    assert!(a.jobs.ocr, "an ocr batch should be in flight");

    let effects = rescan_files(&db.rows, &vec![scanned_pdf()], &mut a.jobs);
    assert!(!effects.iter().any(|e| matches!(e, Effect::StartOcr { .. })));
}

#[test]
fn rescan_requeues_stale_ocr_status_when_idle() {
    let mut a = test_app();
    let mut db = Index::default();
    rescan(&mut a, &mut db, vec![scanned_pdf()]);
    a.jobs.ocr = false;
    rescan(&mut a, &mut db, vec![scanned_pdf()]);
    assert!(a.jobs.ocr, "stale ocr… should re-queue");
}

#[test]
fn rescan_picks_up_dropped_and_deleted_files() {
    let mut a = test_app();
    let mut db = Index::default();
    rescan(&mut a, &mut db, vec![disk("dropped.txt", "hello dropped", 1)]);
    assert_eq!(a.files.cache.len(), 1);
    assert_eq!(a.files.cache[0].name, "dropped.txt");
    assert_eq!(
        a.files.cache[0].hash,
        content_hash(&b"hello dropped".to_vec())
    );

    rescan(&mut a, &mut db, vec![disk("dropped.txt", "hello again", 2)]);
    assert_eq!(a.files.cache.len(), 1);
    assert_eq!(db.text("file-0").as_deref(), Some("hello again"));
    rescan(&mut a, &mut db, vec![]);
    assert!(a.files.cache.is_empty());
}

#[test]
fn empty_extraction_gets_no_text_status() {
    let mut a = test_app();
    let mut db = Index::default();
    rescan(&mut a, &mut db, vec![disk("empty.txt", "   ", 1)]);
    assert_eq!(a.files.cache[0].status, "no text (scanned?)");
    let broken = DiskFile {
        name: "bad.docx".to_string(),
        mtime: 1,
        size: 1,
        content: Some((b"x".to_vec(), Err("bad zip".to_string()))),
    };
    rescan(&mut a, &mut db, vec![broken]);
    assert_eq!(a.files.cache[0].status, "error: bad zip");
}

#[test]
fn rescan_skips_stat_unchanged_files_without_rehashing() {
    let mut a = test_app();
    let mut db = Index::default();
    rescan(&mut a, &mut db, vec![disk("book.txt", "big content", 7)]);
    assert!(a.files.cache[0].mtime > 0, "mtime recorded on index");

    db.rows[0].hash = "sentinel".to_string();
    assert!(is_unchanged(&db.rows, &disk("book.txt", "big content", 7)));
    rescan(&mut a, &mut db, vec![disk("book.txt", "big content", 7)]);
    assert_eq!(a.files.cache[0].hash, "sentinel");

    rescan(&mut a, &mut db, vec![disk("book.txt", "big content grew", 7)]);
    assert_ne!(a.files.cache[0].hash, "sentinel");
    assert_eq!(a.files.cache[0].status, "ok");
}

#[test]
fn reextract_clears_stale_chunks_and_reindexes_from_disk() {
    let mut a = test_app();
    let mut db = Index::default();
    let file = || disk("doc.txt", "real content on disk", 3);
    rescan(&mut a, &mut db, vec![file()]);
    let id = a.files.cache[0].id.clone();
    db.texts.push((id.clone(), "garbage".to_string()));

    a.files.selected = 0;
    let effects = a.files.reextract_selected_file(&mut a.screen);
    assert!(a.screen.status.contains("re-extracting"), "{}", a.screen.status);
    db.perform(&mut a, effects);
    rescan(&mut a, &mut db, vec![file()]);
    assert_eq!(db.text(&id).as_deref(), Some("real content on disk"));
    assert_eq!(a.files.cache[0].status, "ok");
}

#[test]
fn rename_moves_disk_file_and_reindexes() {
    let mut a = test_app();
    let mut db = Index::default();
    rescan(&mut a, &mut db, vec![disk("old.txt", "searchable content", 1), disk("taken.txt", "x", 1)]);
    let at = |a: &App, n: &str| a.files.cache.iter().position(|f| f.name == n).unwrap();
    a.files.selected = at(&a, "old.txt");

    a.files.start_files_rename();
    assert_eq!(a.files.edit, "old.txt");
    a.files.edit = "taken.txt".to_string();
    assert!(matches!(a.files.confirm_files_rename(&mut a.screen, true), RenameStep::Refused));
    assert!(a.screen.status.contains("already exists"));

    a.files.start_files_rename();
    a.files.edit = "../evil.txt".to_string();
    assert!(matches!(a.files.confirm_files_rename(&mut a.screen, false), RenameStep::Refused));
    assert!(a.screen.status.contains("invalid name"));

    a.files.start_files_rename();
    a.files.edit = "new.txt".to_string();
    match a.files.confirm_files_rename(&mut a.screen, false) {
        RenameStep::Rename { from, to } => {
            assert_eq!((from.as_str(), to.as_str()), ("old.txt", "new.txt"));
            rescan(
                &mut a,
                &mut db,
                vec![disk("new.txt", "searchable content", 1), disk("taken.txt", "x", 1)],
            );
            a.files.files_renamed(&mut a.screen, db.rows.clone(), &from, &to);
        }
        _ => panic!("expected the rename"),
    }
    assert!(!a.files.cache.iter().any(|f| f.name == "old.txt"));
    assert_eq!(a.files.cache[a.files.selected].name, "new.txt");
    assert_eq!(a.screen.status, "renamed old.txt to new.txt");
}

#[test]
fn delete_removes_disk_file_and_row() {
    let mut a = test_app();
    let mut db = Index::default();
    rescan(&mut a, &mut db, vec![disk("gone.txt", "bye", 1)]);
    a.files.selected = 0;
    let effects = a.files.confirm_files_delete(&mut a.screen, true);
    assert!(matches!(&effects[0], Effect::RescanFiles));
    rescan(&mut a, &mut db, vec![]);
    assert!(a.files.cache.is_empty());
    assert_eq!(a.screen.status, "removed gone.txt");
}

#[test]
fn files_command_opens_popup_and_rescans() {
    let mut a = test_app();
    let names = vec![CommandName { name: "files".to_string(), aliases: vec!["images".to_string()] }];
    assert!(matches!(a.run_command("files", &names), CommandStep::FilesPopup));
    let effects = a.files.open_files_popup(&mut a.screen);
    assert!(a.screen.popup == Popup::Files);
    assert!(matches!(&effects[0], Effect::RescanFiles));
    assert!(a.files.mode == FilesMode::Browse);
}

#[test]
fn confirm_files_add_imports_typed_path() {
    let mut a = test_app();
    a.files.start_files_add();
    assert!(a.files.mode == FilesMode::Add);
    a.files.edit = " /tmp/typed.txt ".to_string();
    let path = a.files.confirm_files_add(&mut a.screen, true);
    assert_eq!(path.as_deref(), Some("/tmp/typed.txt"));
    assert!(a.files.mode == FilesMode::Browse);
    imported(&mut a.files, &mut a.screen, Ok("typed.txt".to_string()));
    assert_eq!(a.screen.status, "imported typed.txt");

    a.files.start_files_add();
    a.files.edit = "/definitely/not/a/file".to_string();
    assert!(a.files.confirm_files_add(&mut a.screen, false).is_none());
    assert!(a.screen.status.contains("not a file"));
}

fn entry(name: &str, is_dir: bool) -> PickerEntry {
    PickerEntry { name: name.to_string(), is_dir }
}

#[test]
fn picker_lists_dirs_first_descends_and_imports() {
    let mut a = test_app();
    a.picker.dir = "/root".to_string();
    let listing = || Ok(vec![entry("bbb.txt", false), entry("subdir", true), entry("aaa.txt", false)]);
    a.picker.open_file_picker(&mut a.files, &mut a.screen, listing());
    assert!(a.files.mode == FilesMode::Pick);
    let scores = vec![];
    let names: Vec<&str> =
        a.picker.filtered_picker_entries(&scores).iter().map(|e| e.name.as_str()).collect();
    assert_eq!(names, vec!["subdir", "aaa.txt", "bbb.txt"]);

    a.picker.selected = 0;
    assert!(matches!(
        a.picker.picker_enter(&vec![], "/root/subdir".to_string()),
        PickStep::Read
    ));
    assert_eq!(a.picker.dir, "/root/subdir");
    a.picker.reload_picker_entries(&mut a.screen, Ok(vec![]));
    assert!(a.picker.filtered_picker_entries(&vec![]).is_empty());

    assert!(matches!(a.picker.picker_backspace(Some("/root".to_string())), PickStep::Read));
    assert_eq!(a.picker.dir, "/root");
    a.picker.reload_picker_entries(&mut a.screen, listing());

    a.picker.selected = 1;
    match a.picker.picker_enter(&vec![], "/root/aaa.txt".to_string()) {
        PickStep::Import(name) => assert_eq!(name, "aaa.txt"),
        _ => panic!("expected an import"),
    }
    a.picker.reload_picker_entries(&mut a.screen, Err("denied".to_string()));
    assert_eq!(a.screen.status, "cannot read /root: denied");
}

#[test]
fn picker_filter_fuzzy_matches_and_backspace_edits_filter_first() {
    let mut a = test_app();
    a.picker.dir = "/root".to_string();
    a.picker.open_file_picker(
        &mut a.files,
        &mut a.screen,
        Ok(vec![entry("report-2026.pdf", false), entry("notes.md", false)]),
    );
    a.picker.picker_filter_push('r');
    a.picker.picker_filter_push('p');
    a.picker.picker_filter_push('t');
    let scores: Vec<Option<i32>> = a
        .picker
        .entries
        .iter()
        .map(|e| if e.name.starts_with("report") { Some(3) } else { None })
        .collect();
    let names: Vec<&str> =
        a.picker.filtered_picker_entries(&scores).iter().map(|e| e.name.as_str()).collect();
    assert_eq!(names, vec!["report-2026.pdf"]);

    assert!(matches!(a.picker.picker_backspace(Some("/".to_string())), PickStep::Nothing));
    assert_eq!(a.picker.filter, "rp");
    assert_eq!(a.picker.dir, "/root");
}

#[test]
fn embedder_queue_backfills_chains_and_stops_on_error() {
    let mut a = test_app();
    let mut db = Index::default();
    let id = db.row("b.txt", "ok");
    let missing = Some(id.clone());

    let none = Backends::default();
    assert!(start_embedding(&mut a.jobs, &none, &a.config, &missing, true).is_empty());
    assert!(!a.jobs.embed);

    let model = std::mem::take(&mut a.config.embedding_model);
    assert!(start_embedding(&mut a.jobs, &a.backends, &a.config, &missing, true).is_empty());
    assert!(!a.jobs.embed);
    a.config.embedding_model = model;

    let effects = start_embedding(&mut a.jobs, &a.backends, &a.config, &missing, true);
    assert!(a.jobs.embed);
    db.perform(&mut a, effects);
    assert!(db.status("b.txt").starts_with("embedding"));

    let effects =
        on_embed_done(&mut a.jobs, &mut a.screen, true, Some((id.clone(), Ok(()))));
    assert!(effects.iter().any(|e| matches!(e, Effect::StoreEmbeddings { .. })));
    assert!(effects.iter().any(|e| matches!(e, Effect::NextEmbedding)));
    db.perform(&mut a, effects);
    assert_eq!(db.status("b.txt"), "ok");

    let effects =
        on_embed_done(&mut a.jobs, &mut a.screen, true, Some((id, Err("offline".into()))));
    assert!(!effects.iter().any(|e| matches!(e, Effect::NextEmbedding)));
    db.perform(&mut a, effects);
    assert!(!a.jobs.embed);
    assert!(a.screen.status.contains("embedding failed"));
    assert_eq!(db.status("b.txt"), "ok");
}

#[test]
fn pages_are_transcribed_a_few_at_a_time() {
    let mut q = PageQueue::start(6);
    assert_eq!(q.next, 4);
    let mut begun: Vec<usize> = (0..4).collect();
    let mut ends = 0;
    while q.done < q.next {
        let page = begun[ends];
        let result = if page == 2 { Err("boom".to_string()) } else { Ok(format!("p{page}")) };
        let (update, next) = q.ended(Some((page, result)));
        ends += 1;
        assert!(matches!(update, OcrUpdate::Progress(d, 6, _) if d == ends));
        if let Some(n) = next {
            begun.push(n);
        }
    }
    assert_eq!(begun, vec![0, 1, 2, 3, 4, 5]);
    assert_eq!((q.done, q.failed), (6, 1));
    assert_eq!(q.errors(), vec![(2, "boom".to_string())]);
    assert!(page_after_try(1, Err("x".to_string())).is_none());
    assert!(page_after_try(2, Err("x".to_string())).is_some());
    assert!(page_after_try(1, Ok("x".to_string())).is_some());
}

#[test]
fn hashes_are_those_of_the_content() {
    assert_eq!(
        content_hash(&b"abc".to_vec()),
        "ba7816bf8f01cfea414140de5dae2223b00361a396177a9cb410ff61f20015ad"
    );
    assert_eq!(clip_err(&"é".repeat(91)), format!("{}…", "é".repeat(90)));
    assert_eq!(clip_err("short"), "short");
}

#[test]
fn images_are_listed_by_name() {
    let mut a = test_app();
    let image = |n: &str| ImageFile { name: n.to_string(), size: 1, modified: Some(86_400) };
    a.images.refresh_images(vec![image("b.png"), image("a.png"), image("c.png")]);
    let names: Vec<&str> = a.images.cache.iter().map(|i| i.name.as_str()).collect();
    assert_eq!(names, vec!["a.png", "b.png", "c.png"]);
    assert_eq!(a.images.cache[0].modified, "1970-01-02T00:00:00+00:00");
    assert_eq!(a.images.cache[0].size, 1);
    a.images.move_images_selection(9);
    assert_eq!(a.images.selected, 2);
    let effects = a.images.open_selected_image(&mut a.screen);
    assert!(matches!(&effects[0], Effect::OpenFile { name } if name == "c.png"));
    a.images.mode = ImagesMode::ConfirmDelete;
    a.images.confirm_images_delete(&mut a.screen, true, vec![image("b.png"), image("a.png")]);
    assert_eq!(a.screen.status, "removed c.png");
    assert_eq!(a.images.cache.len(), 2);
    assert!(a.images.mode == ImagesMode::Browse);
    let apps = vec!["zeta".to_string(), "alpha".to_string()];
    assert_eq!(list_apps(&apps), vec!["alpha".to_string(), "zeta".to_string()]);
}

#[test]
fn skills_are_installed_and_removed() {
    let mut a = test_app();
    a.skills.open_skills_popup(&mut a.screen);
    assert!(a.screen.popup == Popup::Skills);
    a.skills.start_skill_install();
    a.skills.edit = " nonsense ".to_string();
    a.skills.confirm_skill_install(&mut a.jobs, &mut a.screen, None);
    assert_eq!(a.screen.status, "expected owner/repo/path, got: nonsense");
    let source = SkillSource {
        owner: "o".to_string(),
        repo: "r".to_string(),
        path: "p".to_string(),
    };
    a.skills.edit = "o/r/p".to_string();
    let effects = a.skills.confirm_skill_install(&mut a.jobs, &mut a.screen, Some(source));
    assert!(matches!(&effects[0], Effect::InstallSkill { owner, .. } if owner == "o"));
    assert!(a.jobs.skills);
    on_skill_install_result(&mut a.jobs, &mut a.screen, Some(Ok("pdf".to_string())));
    assert!(!a.jobs.skills);
    assert_eq!(a.screen.status, "installed skill: pdf");
    let skill = |n: &str| Skill {
        name: n.to_string(),
        description: String::new(),
        dir: format!("/skills/{n}"),
    };
    a.skills.reload_skills(vec![skill("one"), skill("two")]);
    a.skills.move_skills_selection(1);
    a.skills.start_skill_remove();
    assert!(a.skills.mode == SkillsMode::ConfirmRemove);
    assert_eq!(a.skills.skill_edit_path_for_selected().as_deref(), Some("/skills/two"));
    let effects = a.skills.confirm_skill_remove(&mut a.screen);
    assert!(matches!(&effects[0], Effect::RemoveSkill { dir } if dir == "/skills/two"));
    assert_eq!(a.screen.status, "removed skill: two");
}

#[test]
fn pages_are_sent_in_base64() {
    let body = ollama_page_body("glm-ocr", "transcribe", &vec![0x89, 0x50, 0x4e, 0x47]);
    assert_eq!(body["images"][0], "iVBORw==");
    assert_eq!(body["model"], "glm-ocr");
    assert_eq!(body["prompt"], "transcribe");
    assert_eq!(body["stream"], false);
}

#[test]
fn replies_give_the_page() {
    assert_eq!(page_of_reply("{\"response\":\"page one\"}").as_deref(), Some("page one"));
    assert_eq!(page_of_reply("{\"done\":true}").as_deref(), Some(""));
    assert!(page_of_reply("<html>").is_none());
}

#[test]
fn answers_of_the_local_model_are_read() {
    let failed = |timed_out, unreachable| LocalAnswer::Unanswered {
        timed_out,
        unreachable,
        error: "broken".to_string(),
    };
    let answered = |status, text: Result<&str, &str>| LocalAnswer::Answered {
        status,
        text: text.map(str::to_string).map_err(str::to_string),
    };
    let err = |a| page_of_answer("glm-ocr", a).unwrap_err();
    assert_eq!(err(failed(true, true)), "timeout after 600s");
    assert_eq!(
        err(failed(false, true)),
        "cannot reach ollama at 127.0.0.1:11434 — is it running? (systemctl start ollama)"
    );
    assert_eq!(err(failed(false, false)), "broken");
    assert_eq!(err(answered(404, Err("gone"))), "model 'glm-ocr' not pulled — run /ocr-local");
    assert_eq!(err(answered(500, Err("status 500"))), "status 500");
    assert_eq!(err(answered(200, Ok("no json"))), "error decoding response body");
    let page = page_of_answer("glm-ocr", answered(200, Ok("{\"response\":\"hi\"}")));
    assert_eq!(page.as_deref(), Ok("hi"));
}

#[test]
fn fetching_a_model_says_what_went_wrong() {
    let pull = |run| pull_outcome("glm-ocr".to_string(), run);
    let ended = |success, stderr: &str| PullRun::Ended { success, stderr: stderr.to_string() };
    let unstarted = |missing| PullRun::NotStarted { missing, error: "denied".to_string() };
    assert_eq!(pull(ended(true, "warning")).as_deref(), Ok("glm-ocr"));
    assert_eq!(
        pull(unstarted(true)).unwrap_err(),
        "ollama not installed — get it from https://ollama.com (pacman -S ollama), then retry"
    );
    assert_eq!(pull(unstarted(false)).unwrap_err(), "ollama pull failed: denied");
    assert_eq!(pull(ended(false, " no such model\n")).unwrap_err(), "ollama pull failed: no such model");
    for reason in ["could not connect", "dial: connection refused"] {
        assert_eq!(
            pull(ended(false, reason)).unwrap_err(),
            format!(
                "ollama pull failed: {reason} — is the ollama server running? \
                 (systemctl start ollama, or `ollama serve`)"
            )
        );
    }
}

#[test]
fn failures_to_read_a_scan_are_told() {
    assert_eq!(
        render_failure(OcrError::MissingTools),
        "scanned pdf — install poppler (pdftoppm) for ocr"
    );
    assert_eq!(render_failure(OcrError::Failed("bad xref".to_string())), "error: ocr: bad xref");
    assert!(matches!(
        tesseract_done(Err(OcrError::MissingTools)),
        OcrUpdate::Done(Err(e)) if e == "scanned pdf — install tesseract + poppler for ocr"
    ));
    assert!(matches!(
        tesseract_done(Err(OcrError::Failed("x".to_string()))),
        OcrUpdate::Done(Err(e)) if e == "error: ocr: x"
    ));
    assert!(matches!(
        tesseract_done(Ok("text".to_string())),
        OcrUpdate::Done(Ok((t, errors))) if t == "text" && errors.is_empty()
    ));
    assert!(matches!(rendering(), OcrUpdate::Stage(s) if s == "rendering pages (300 dpi)…"));
    assert_eq!(unreadable_page().unwrap_err(), "page image unreadable");
}

#[test]
fn times_of_change_are_written_as_dates() {
    assert_eq!(modified_of(Some(0)), "1970-01-01T00:00:00+00:00");
    assert_eq!(modified_of(Some(1_700_000_000)), "2023-11-14T22:13:20+00:00");
    assert_eq!(modified_of(None), "");
    assert_eq!(modified_of(Some(i64::MAX)), "");
}
