//! What a client knows of the files of a space: which are indexed again, which
//! leave the index, and what becomes of a transcript.

use crate::backends::Backends;
use crate::digest::{hex, sha256};
use crate::effects::EffectView;
use crate::files::{
    clipped_error, embedding, extracted, file_named, gone, is_queued, local_page, ocr_effects,
    ocr_route, ocr_status, on_disk, pulled, rescan, scan_all, scan_one, DiskFile, LocalAnswer,
    OcrUpdate, PageQueue, PullRun,
};
use crate::json::{get_text, parsed};
use crate::state::{Config, Jobs};
use crate::store::FileRow;
use crate::text::{lower, trim};
use crate::text_laws::{blank, trimming_cuts_whitespace};
use vstd::prelude::*;

verus! {

proof fn no_row_has_the_name(known: Seq<FileRow>, name: Seq<char>, i: int)
    requires
        0 <= i,
        forall|k: int| 0 <= k < known.len() ==> (#[trigger] known[k]).name@ != name,
    ensures
        file_named(known, name, i) is None,
    decreases known.len() - i,
{
    if i < known.len() {
        assert(known[i].name@ != name);
        no_row_has_the_name(known, name, i + 1);
    }
}

proof fn the_first_row_of_the_name(known: Seq<FileRow>, name: Seq<char>, i: int, k: int)
    requires
        0 <= i <= k < known.len(),
        known[k].name@ == name,
        forall|j: int| 0 <= j < known.len() && j != k ==> (#[trigger] known[j]).name@ != name,
    ensures
        file_named(known, name, i) == Some(k),
    decreases k - i,
{
    if i < k {
        assert(known[i].name@ != name);
        the_first_row_of_the_name(known, name, i + 1, k);
    }
}

proof fn what_one_file_asks_for_is_asked(
    known: Seq<FileRow>,
    disk: Seq<DiskFile>,
    ocr: bool,
    j: int,
)
    requires
        0 <= j < disk.len(),
    ensures
        forall|e: EffectView| #[trigger]
            scan_one(known, disk[j], ocr).0.contains(e) ==> scan_all(known, disk, ocr).0.contains(
                e,
            ),
        scan_one(known, disk[j], ocr).1 ==> scan_all(known, disk, ocr).1.contains(disk[j].name@),
    decreases disk.len(),
{
    let (effects, names) = scan_all(known, disk.drop_last(), ocr);
    let (more, transcribe) = scan_one(known, disk.last(), ocr);
    let all = scan_all(known, disk, ocr).0;
    assert(all == effects + more);
    if j < disk.len() - 1 {
        what_one_file_asks_for_is_asked(known, disk.drop_last(), ocr, j);
        assert(disk.drop_last()[j] == disk[j]);
        assert forall|e: EffectView| #[trigger] scan_one(known, disk[j], ocr).0.contains(
            e,
        ) implies all.contains(e) by {
            assert(effects.contains(e));
            let k = choose|k: int| 0 <= k < effects.len() && effects[k] == e;
            assert(all[k] == e);
        }
        if scan_one(known, disk[j], ocr).1 {
            let k = choose|k: int| 0 <= k < names.len() && names[k] == disk[j].name@;
            assert(scan_all(known, disk, ocr).1[k] == disk[j].name@);
        }
    } else {
        assert forall|e: EffectView| #[trigger] scan_one(known, disk[j], ocr).0.contains(
            e,
        ) implies all.contains(e) by {
            let k = choose|k: int| 0 <= k < more.len() && more[k] == e;
            assert(all[effects.len() + k] == e);
        }
        if transcribe {
            assert(scan_all(known, disk, ocr).1.last() == disk[j].name@);
        }
    }
}

proof fn a_scan_stands_in_the_whole(
    known: Seq<FileRow>,
    disk: Seq<DiskFile>,
    ocr: bool,
    e: EffectView,
)
    ensures
        scan_all(known, disk, ocr).0.contains(e) ==> rescan(known, disk, ocr).contains(e),
        gone(known, disk).contains(e) ==> rescan(known, disk, ocr).contains(e),
{
    let a = scan_all(known, disk, ocr).0;
    let b = gone(known, disk);
    let all = rescan(known, disk, ocr);
    if a.contains(e) {
        let k = choose|k: int| 0 <= k < a.len() && a[k] == e;
        assert(all[k] == e);
    }
    if b.contains(e) {
        let k = choose|k: int| 0 <= k < b.len() && b[k] == e;
        assert(all[a.len() + k] == e);
    }
}

/// Every file that is new to the index and has text is indexed with that text,
/// its digest, its size and its time.
pub proof fn a_new_file_is_indexed(
    known: Seq<FileRow>,
    disk: Seq<DiskFile>,
    ocr: bool,
    j: int,
    bytes: Vec<u8>,
    text: String,
)
    requires
        0 <= j < disk.len(),
        disk[j].content == Some((bytes, Ok::<String, String>(text))),
        !blank(text@),
        forall|k: int| 0 <= k < known.len() ==> (#[trigger] known[k]).name@ != disk[j].name@,
    ensures
        rescan(known, disk, ocr).contains(
            EffectView::IndexFile {
                name: disk[j].name@,
                hash: hex(sha256(bytes@)),
                size: bytes@.len() as i64,
                status: "ok"@,
                text: text@,
                mtime: disk[j].mtime,
            },
        ),
{
    let f = disk[j];
    no_row_has_the_name(known, f.name@, 0);
    trimming_cuts_whitespace(text@);
    let e = EffectView::IndexFile {
        name: f.name@,
        hash: hex(sha256(bytes@)),
        size: bytes@.len() as i64,
        status: "ok"@,
        text: text@,
        mtime: f.mtime,
    };
    assert(scan_one(known, f, ocr).0 =~= seq![e]);
    assert(scan_one(known, f, ocr).0[0] == e);
    what_one_file_asks_for_is_asked(known, disk, ocr, j);
    assert(scan_one(known, disk[j], ocr).0.contains(e));
    a_scan_stands_in_the_whole(known, disk, ocr, e);
}

/// A file whose bytes changed is indexed again, with what it holds now.
pub proof fn a_changed_file_is_indexed_again(
    known: Seq<FileRow>,
    disk: Seq<DiskFile>,
    ocr: bool,
    j: int,
    k: int,
    bytes: Vec<u8>,
    text: String,
)
    requires
        0 <= j < disk.len(),
        0 <= k < known.len(),
        disk[j].content == Some((bytes, Ok::<String, String>(text))),
        !blank(text@),
        known[k].name@ == disk[j].name@,
        forall|i: int|
            0 <= i < known.len() && i != k ==> (#[trigger] known[i]).name@ != disk[j].name@,
        known[k].size != disk[j].size || known[k].mtime != disk[j].mtime,
        known[k].hash@ != hex(sha256(bytes@)),
    ensures
        rescan(known, disk, ocr).contains(
            EffectView::IndexFile {
                name: disk[j].name@,
                hash: hex(sha256(bytes@)),
                size: bytes@.len() as i64,
                status: "ok"@,
                text: text@,
                mtime: disk[j].mtime,
            },
        ),
{
    let f = disk[j];
    the_first_row_of_the_name(known, f.name@, 0, k);
    trimming_cuts_whitespace(text@);
    let e = EffectView::IndexFile {
        name: f.name@,
        hash: hex(sha256(bytes@)),
        size: bytes@.len() as i64,
        status: "ok"@,
        text: text@,
        mtime: f.mtime,
    };
    assert(scan_one(known, f, ocr).0 =~= seq![e]);
    assert(scan_one(known, f, ocr).0[0] == e);
    what_one_file_asks_for_is_asked(known, disk, ocr, j);
    assert(scan_one(known, disk[j], ocr).0.contains(e));
    a_scan_stands_in_the_whole(known, disk, ocr, e);
}

/// A file with the same size and time as in the index is not read again; one
/// with the same bytes only gets its new time.
pub proof fn an_indexed_file_is_not_indexed_again(
    known: Seq<FileRow>,
    f: DiskFile,
    ocr: bool,
    k: int,
    bytes: Vec<u8>,
    text: Result<String, String>,
)
    requires
        0 <= k < known.len(),
        known[k].name@ == f.name@,
        forall|i: int| 0 <= i < known.len() && i != k ==> (#[trigger] known[i]).name@ != f.name@,
    ensures
        known[k].size == f.size && known[k].mtime == f.mtime && f.mtime != 0 ==> scan_one(
            known,
            f,
            ocr,
        ).0.len() == 0,
        (known[k].size != f.size || known[k].mtime != f.mtime) && f.content == Some((bytes, text))
            && known[k].hash@ == hex(sha256(bytes@)) ==> scan_one(known, f, ocr).0 == seq![
            EffectView::SetFileMtime { file_id: known[k].id@, mtime: f.mtime },
        ],
{
    the_first_row_of_the_name(known, f.name@, 0, k);
}

/// A scanned document is handed to the transcriber, unless that is at work.
pub proof fn a_scanned_document_is_transcribed(
    known: Seq<FileRow>,
    disk: Seq<DiskFile>,
    j: int,
    bytes: Vec<u8>,
    text: String,
)
    requires
        0 <= j < disk.len(),
        disk[j].content == Some((bytes, Ok::<String, String>(text))),
        blank(text@),
        ".pdf"@.is_suffix_of(lower(disk[j].name@)),
        forall|k: int| 0 <= k < known.len() ==> (#[trigger] known[k]).name@ != disk[j].name@,
    ensures
        exists|names: Seq<Seq<char>>|
            names.contains(disk[j].name@) && #[trigger] rescan(known, disk, false).contains(
                EffectView::StartOcr { names },
            ),
        is_queued(extracted(disk[j].name@, Ok(text@)).0),
{
    let f = disk[j];
    no_row_has_the_name(known, f.name@, 0);
    trimming_cuts_whitespace(text@);
    what_one_file_asks_for_is_asked(known, disk, false, j);
    let (effects, names) = scan_all(known, disk, false);
    assert(names.contains(f.name@));
    let at = effects.len() + gone(known, disk).len();
    assert(rescan(known, disk, false)[at as int] == (EffectView::StartOcr { names }));
    assert(rescan(known, disk, false).contains(EffectView::StartOcr { names }));
    reveal_strlit("ocr");
    reveal_strlit("ocr…");
    assert("ocr…"@.take(3) =~= "ocr"@);
}

/// A file that cannot be read as text says why, and has none.
pub proof fn an_unreadable_file_says_why(name: Seq<char>, e: Seq<char>)
    ensures
        e.is_suffix_of(extracted(name, Err(e)).0),
        extracted(name, Err(e)).1.len() == 0,
        !extracted(name, Err(e)).2,
{
    let s = "error: "@ + e;
    assert(s.skip(s.len() - e.len()) =~= e);
}

/// A file that left the disk leaves the index.
pub proof fn a_deleted_file_leaves_the_index(
    known: Seq<FileRow>,
    disk: Seq<DiskFile>,
    ocr: bool,
    k: int,
)
    requires
        0 <= k < known.len(),
        forall|i: int| 0 <= i < disk.len() ==> (#[trigger] disk[i]).name@ != known[k].name@,
    ensures
        rescan(known, disk, ocr).contains(EffectView::DeleteFile { file_id: known[k].id@ }),
{
    a_gone_file_is_deleted(known, disk, k);
    a_scan_stands_in_the_whole(
        known,
        disk,
        ocr,
        EffectView::DeleteFile { file_id: known[k].id@ },
    );
}

proof fn a_gone_file_is_deleted(known: Seq<FileRow>, disk: Seq<DiskFile>, k: int)
    requires
        0 <= k < known.len(),
        forall|i: int| 0 <= i < disk.len() ==> (#[trigger] disk[i]).name@ != known[k].name@,
    ensures
        gone(known, disk).contains(EffectView::DeleteFile { file_id: known[k].id@ }),
    decreases known.len(),
{
    let before = gone(known.drop_last(), disk);
    let e = EffectView::DeleteFile { file_id: known[k].id@ };
    let all = gone(known, disk);
    if k < known.len() - 1 {
        assert(known.drop_last()[k] == known[k]);
        a_gone_file_is_deleted(known.drop_last(), disk, k);
        let i = choose|i: int| 0 <= i < before.len() && before[i] == e;
        assert(all[i] == e);
    } else {
        assert(!on_disk(disk, known.last().name@));
        assert(all.last() == e);
    }
}

/// Only what left the disk is deleted.
pub proof fn only_deleted_files_leave(known: Seq<FileRow>, disk: Seq<DiskFile>, i: int)
    requires
        0 <= i < gone(known, disk).len(),
    ensures
        exists|k: int|
            0 <= k < known.len() && gone(known, disk)[i] == (EffectView::DeleteFile {
                file_id: (#[trigger] known[k]).id@,
            }) && forall|j: int|
                0 <= j < disk.len() ==> (#[trigger] disk[j]).name@ != known[k].name@,
    decreases known.len(),
{
    if known.len() > 0 {
        let before = gone(known.drop_last(), disk);
        if i < before.len() {
            only_deleted_files_leave(known.drop_last(), disk, i);
            let k = choose|k: int|
                0 <= k < known.drop_last().len() && before[i] == (EffectView::DeleteFile {
                    file_id: (#[trigger] known.drop_last()[k]).id@,
                }) && forall|j: int|
                    0 <= j < disk.len() ==> (#[trigger] disk[j]).name@
                        != known.drop_last()[k].name@;
            assert(known[k] == known.drop_last()[k]);
        } else {
            let k = known.len() - 1;
            assert(known[k] == known.last());
            assert forall|j: int| 0 <= j < disk.len() implies (#[trigger] disk[j]).name@
                != known[k].name@ by {
                if disk[j].name@ == known[k].name@ {
                    assert(on_disk(disk, known[k].name@));
                }
            }
        }
    }
}

/// After a scan the next file is embedded, and the list is shown anew.
pub proof fn a_scan_ends_with_the_list(known: Seq<FileRow>, disk: Seq<DiskFile>, ocr: bool)
    ensures
        rescan(known, disk, ocr).len() >= 2,
        rescan(known, disk, ocr).last() == EffectView::ReloadFiles,
        rescan(known, disk, ocr).drop_last().last() == EffectView::NextEmbedding,
{
}

/// The transcript of a file that waits for it is stored with that file, and
/// the file is then in order; pages that failed are counted.
pub proof fn a_transcript_is_kept(
    files: Seq<FileRow>,
    k: int,
    active: bool,
    text: String,
    failed: Vec<(usize, String)>,
)
    requires
        0 <= k < files.len(),
        is_queued(files[k].status@),
        forall|i: int| 0 <= i < files.len() && i != k ==> (#[trigger] files[i]).name@ != files[k].name@,
        !blank(text@),
    ensures
        ({
            let update = OcrUpdate::Done(Ok((text, failed)));
            let effects = ocr_effects(files, active, files[k].name@, update);
            &&& effects.len() >= 2
            &&& effects[0] == (EffectView::SetFileText { file_id: files[k].id@, text: text@ })
            &&& effects[1] matches EffectView::SetFileStatus { file_id, status } && file_id
                == files[k].id@ && "ok"@.is_prefix_of(status) && (failed@.len() == 0 ==> status
                == "ok"@) && (failed@.len() > 0 ==> status != "ok"@)
            &&& active ==> effects.last() is ReloadFiles
        }),
{
    the_first_row_of_the_name(files, files[k].name@, 0, k);
    trimming_cuts_whitespace(text@);
    let status = ocr_status(OcrUpdate::Done(Ok((text, failed))));
    reveal_strlit("ok — ");
    reveal_strlit("ok");
    if failed@.len() > 0 {
        assert(status.take(2) =~= "ok"@);
        assert(status.len() > 2);
    } else {
        assert(status.take(2) =~= "ok"@);
    }
}

/// A file that does not wait for a transcript keeps its text: a transcript
/// that comes late, or for a file that is gone, changes nothing.
pub proof fn a_late_transcript_changes_nothing(
    files: Seq<FileRow>,
    k: int,
    active: bool,
    name: Seq<char>,
    update: OcrUpdate,
)
    ensures
        (forall|i: int| 0 <= i < files.len() ==> (#[trigger] files[i]).name@ != name)
            ==> ocr_effects(files, active, name, update).len() == 0,
        0 <= k < files.len() && files[k].name@ == name && !is_queued(files[k].status@) && (forall|
            i: int,
        |
            0 <= i < files.len() && i != k ==> (#[trigger] files[i]).name@ != name) ==> ocr_effects(
            files,
            active,
            name,
            update,
        ).len() == 0,
{
    if forall|i: int| 0 <= i < files.len() ==> (#[trigger] files[i]).name@ != name {
        no_row_has_the_name(files, name, 0);
    }
    if 0 <= k < files.len() && files[k].name@ == name && forall|i: int|
        0 <= i < files.len() && i != k ==> (#[trigger] files[i]).name@ != name {
        the_first_row_of_the_name(files, name, 0, k);
    }
}

/// A transcription that failed as a whole stores the reason as the status, and
/// no text.
pub proof fn a_failed_transcription_stores_no_text(
    files: Seq<FileRow>,
    k: int,
    name: Seq<char>,
    e: String,
)
    requires
        0 <= k < files.len(),
        files[k].name@ == name,
        is_queued(files[k].status@),
        forall|i: int| 0 <= i < files.len() && i != k ==> (#[trigger] files[i]).name@ != name,
    ensures
        ocr_effects(files, false, name, OcrUpdate::Done(Err(e))) == seq![
            EffectView::SetFileStatus { file_id: files[k].id@, status: e@ },
        ],
{
    the_first_row_of_the_name(files, name, 0, k);
}

/// What a local model read on a page is the page; an answer that is none is an
/// error.
pub proof fn a_page_is_what_was_read(model: Seq<char>, status: u16, text: String, page: Seq<char>)
    requires
        parsed(text@) is Some,
        get_text(parsed(text@)->0, "response"@) == Some(page),
    ensures
        status != 404 ==> local_page(model, LocalAnswer::Answered { status, text: Ok(text) })
            == Ok::<Seq<char>, Seq<char>>(page),
        status == 404 ==> local_page(
            model,
            LocalAnswer::Answered { status, text: Ok(text) },
        ) is Err,
{
}

/// A request that was not answered is an error, whatever the reason.
pub proof fn an_unanswered_page_failed(
    model: Seq<char>,
    timed_out: bool,
    unreachable: bool,
    error: String,
)
    ensures
        local_page(model, LocalAnswer::Unanswered { timed_out, unreachable, error }) is Err,
        !timed_out && !unreachable ==> local_page(
            model,
            LocalAnswer::Unanswered { timed_out, unreachable, error },
        ) == Err::<Seq<char>, Seq<char>>(error@),
{
}

/// A model was fetched exactly where the fetch ended well, and it is the one
/// that was asked for.
pub proof fn a_fetched_model_is_the_asked_one(model: Seq<char>, run: PullRun)
    ensures
        pulled(model, run) is Ok <==> (run matches PullRun::Ended { success, .. } && success),
        pulled(model, run) matches Ok(m) ==> m == model,
{
}

/// A transcriber is the one that the settings name: the local one under its
/// name, or the first backend with the model that is set.
pub proof fn the_transcriber_is_the_one_set(b: Backends, c: Config)
    ensures
        c.ocr_engine@ == "local"@ && !blank(c.local_ocr_model@) ==> ocr_route(b, c) == Some(
            (None::<crate::backends::Backend>, trim(c.local_ocr_model@)),
        ),
        c.ocr_engine@ == "vlm"@ && !blank(c.ocr_model@) && b.first() is Some ==> ocr_route(b, c)
            == Some((b.first(), trim(c.ocr_model@))),
        c.ocr_engine@ == "auto"@ && !blank(c.ocr_model@) && b.first() is Some ==> ocr_route(b, c)
            == Some((b.first(), trim(c.ocr_model@))),
        c.ocr_engine@ != "local"@ && (blank(c.ocr_model@) || b.first() is None) ==> ocr_route(
            b,
            c,
        ) is None,
{
    trimming_cuts_whitespace(c.local_ocr_model@);
    trimming_cuts_whitespace(c.ocr_model@);
    reveal_strlit("local");
    reveal_strlit("vlm");
    reveal_strlit("auto");
    assert("local"@.len() == 5 && "vlm"@.len() == 3 && "auto"@.len() == 4);
}

/// A file without embeddings is embedded with the model that is set, one at a
/// time.
pub proof fn a_file_is_embedded(jobs: Jobs, b: Backends, model: Seq<char>, id: Seq<char>)
    ensures
        !jobs.embed && b.first() is Some && !blank(model) ==> embedding(
            jobs,
            b,
            model,
            Some(id),
            true,
        ).contains(EffectView::StartEmbedding { file_id: id, model: trim(model) }),
        jobs.embed || b.first() is None || blank(model) ==> embedding(
            jobs,
            b,
            model,
            Some(id),
            true,
        ).len() == 0,
        embedding(jobs, b, model, Some(id), false).len() == 0,
        embedding(jobs, b, model, None, true).len() == 0,
{
    trimming_cuts_whitespace(model);
    if !jobs.embed && b.first() is Some && !blank(model) {
        assert(embedding(jobs, b, model, Some(id), true)[2] == (EffectView::StartEmbedding {
            file_id: id,
            model: trim(model),
        }));
    }
}

/// Every page that failed is named with its reason, and no other.
pub proof fn every_failed_page_is_named(q: PageQueue, n: nat, i: int)
    requires
        0 <= i < n <= q.results@.len() <= usize::MAX,
    ensures
        q.results@[i] matches Err(e) ==> q.failures(n).contains((i as usize, e@)),
        q.results@[i] is Ok ==> forall|k: int|
            0 <= k < q.failures(n).len() ==> (#[trigger] q.failures(n)[k]).0 != i,
    decreases n,
{
    let before = q.failures((n - 1) as nat);
    let all = q.failures(n);
    if i < n - 1 {
        every_failed_page_is_named(q, (n - 1) as nat, i);
        if let Err(e) = q.results@[i] {
            let k = choose|k: int| 0 <= k < before.len() && before[k] == (i as usize, e@);
            assert(all[k] == (i as usize, e@));
        } else {
            assert forall|k: int| 0 <= k < all.len() implies (#[trigger] all[k]).0 != i by {
                if k < before.len() {
                    assert(all[k] == before[k]);
                    assert(before[k].0 != i);
                }
            }
        }
    } else {
        if let Err(e) = q.results@[i] {
            assert(all.last() == (i as usize, e@));
        } else {
            failed_pages_come_before(q, (n - 1) as nat);
        }
    }
}

proof fn failed_pages_come_before(q: PageQueue, n: nat)
    requires
        n <= q.results@.len() <= usize::MAX,
    ensures
        forall|k: int| 0 <= k < q.failures(n).len() ==> (#[trigger] q.failures(n)[k]).0 < n,
    decreases n,
{
    if n > 0 {
        failed_pages_come_before(q, (n - 1) as nat);
        let before = q.failures((n - 1) as nat);
        assert forall|k: int| 0 <= k < q.failures(n).len() implies (#[trigger] q.failures(
            n,
        )[k]).0 < n by {
            if k < before.len() {
                assert(q.failures(n)[k] == before[k]);
            }
        }
    }
}

/// A reason that is long is cut, and only then.
pub proof fn a_long_reason_is_cut(e: Seq<char>)
    ensures
        e.len() <= 90 ==> clipped_error(e) == e,
        e.len() > 90 ==> e.take(90).is_prefix_of(clipped_error(e)) && clipped_error(e).len() == 91,
{
    reveal_strlit("…");
    if e.len() > 90 {
        assert(clipped_error(e).take(90) =~= e.take(90));
    }
}

} // verus!
