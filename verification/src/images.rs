//! The images popup and the file picker.

use crate::effects::{no_effects, one_effect, Effect, EffectView};
use crate::ordering::{
    as_ints, clamp_cursor, copied_in_order, filtered_rows, in_order, key_order, moved, ordered,
    row_at, row_under, rows, scored, shown_rows,
};
use crate::pipeline::concat;
use crate::state::{says, FilePicker, FilesPopup, ImagesPopup, Screen};
use crate::store::{ImageFile, ImageMeta, ImageMetaView, PickerEntry};
use crate::text::{erase_last, erased, opt_text, pairs, views};
use crate::ui::{FilesMode, ImagesMode};
use vstd::prelude::*;
use vstd::string::*;

verus! {

/// The text that `chrono` gives for the time `secs` seconds after the start of
/// 1970 in UTC: a date and a time as RFC 3339 writes them. There is none where
/// the time is further off than its calendar reaches.
pub uninterp spec fn rfc3339(secs: i64) -> Option<Seq<char>>;

/// `chrono::DateTime::from_timestamp` without nanoseconds, and `to_rfc3339` of
/// the time that it gives. What is claimed is that both go by the seconds
/// alone, and that neither panics. How the text is made up of them is not
/// stated.
#[verifier::external_body]
fn time_text(secs: i64) -> (r: Option<String>)
    ensures
        opt_text(r) == rfc3339(secs),
{
    chrono::DateTime::from_timestamp(secs, 0).map(|t| t.to_rfc3339())
}

/// How the images popup writes when a file was last changed: nothing where
/// that is not known, or has no date.
pub open spec fn modified_text(secs: Option<i64>) -> Seq<char> {
    match secs {
        Some(n) => match rfc3339(n) {
            Some(t) => t,
            None => Seq::empty(),
        },
        None => Seq::empty(),
    }
}

/// How the images popup writes when a file was last changed.
pub fn modified_of(secs: Option<i64>) -> (r: String)
    ensures
        r@ == modified_text(secs),
{
    match secs {
        Some(n) => match time_text(n) {
            Some(t) => t,
            None => String::new(),
        },
        None => String::new(),
    }
}

/// The row of the images popup for an image file.
pub open spec fn image_row(f: ImageFile) -> ImageMetaView {
    ImageMetaView { name: f.name@, size: f.size, modified: modified_text(f.modified) }
}

/// What images are sorted by: their names.
pub open spec fn image_keys(list: Seq<ImageFile>) -> Seq<(Seq<char>, Seq<char>)> {
    list.map_values(|i: ImageFile| (Seq::<char>::empty(), i.name@))
}

/// The rows of the images popup for the image files of a directory: one for
/// each, sorted by name.
pub open spec fn image_rows(list: Seq<ImageFile>) -> Seq<ImageMetaView> {
    rows(list, ordered(image_keys(list))).map_values(|f: ImageFile| image_row(f))
}

/// What the entries of a directory are sorted by: directories come first, and
/// then the names count.
pub open spec fn entry_keys(list: Seq<PickerEntry>) -> Seq<(Seq<char>, Seq<char>)> {
    list.map_values(
        |e: PickerEntry|
            (
                if e.is_dir {
                    "1"@
                } else {
                    "0"@
                },
                e.name@,
            ),
    )
}

impl ImagesPopup {
    /// Takes over which images there are, sorted by name.
    pub fn refresh_images(&mut self, list: Vec<ImageFile>)
        ensures
            *final(self) == (ImagesPopup { cache: final(self).cache, ..*old(self) }),
            views(final(self).cache@) == image_rows(list@),
    {
        let mut keys: Vec<(String, String)> = Vec::new();
        let mut i: usize = 0;
        while i < list.len()
            invariant
                i <= list@.len(),
                keys@.len() == i,
                forall|k: int|
                    0 <= k < i ==> (#[trigger] keys@[k]).0@ == Seq::<char>::empty() && keys@[k].1@
                        == list@[k].name@,
            decreases list@.len() - i,
        {
            let name = list[i].name.clone();
            keys.push((String::new(), name));
            i += 1;
        }
        assert(pairs(keys@) =~= image_keys(list@));
        let order = key_order(&keys);
        let ghost all = image_rows(list@);
        let mut out: Vec<ImageMeta> = Vec::new();
        i = 0;
        assert(views(out@) =~= all.take(0));
        while i < order.len()
            invariant
                i <= order@.len(),
                as_ints(order@) == ordered(image_keys(list@)),
                forall|k: int| 0 <= k < order@.len() ==> #[trigger] order@[k] < list@.len(),
                all == image_rows(list@),
                views(out@) == all.take(i as int),
            decreases order@.len() - i,
        {
            assert(as_ints(order@)[i as int] == order@[i as int]);
            let file = &list[order[i]];
            let row = ImageMeta {
                name: file.name.clone(),
                size: file.size,
                modified: modified_of(file.modified),
            };
            assert(all[i as int] == row@);
            let ghost before = out@;
            out.push(row);
            assert(views(out@) =~= views(before).push(row@));
            assert(views(out@) =~= all.take(i + 1));
            i += 1;
        }
        assert(all.take(i as int) =~= all);
        self.cache = out;
    }

    /// Moves the cursor.
    pub fn move_images_selection(&mut self, delta: i32)
        ensures
            *final(self) == (ImagesPopup {
                selected: moved(
                    old(self).selected as int,
                    old(self).cache@.len() as int,
                    delta as int,
                ) as usize,
                ..*old(self)
            }),
    {
        self.selected = clamp_cursor(self.selected, self.cache.len(), delta);
    }

    /// Opens the selected image in the viewer of the system.
    pub fn open_selected_image(&self, screen: &mut Screen) -> (r: Vec<Effect>)
        ensures
            if self.selected < self.cache@.len() {
                let name = self.cache@[self.selected as int].name@;
                &&& says(*old(screen), *final(screen), "opened "@ + name)
                &&& views(r@) == seq![EffectView::OpenFile { name }]
            } else {
                *final(screen) == *old(screen) && views(r@) == Seq::<EffectView>::empty()
            },
    {
        if self.selected >= self.cache.len() {
            return no_effects();
        }
        let name = self.cache[self.selected].name.clone();
        screen.status = concat("opened ", name.as_str());
        one_effect(Effect::OpenFile { name })
    }

    /// The selected image (see `image_to_delete`) was deleted, or, as `deleted`
    /// says, could not be.
    /// `list` is what images there are then.
    pub fn confirm_images_delete(
        &mut self,
        screen: &mut Screen,
        deleted: bool,
        list: Vec<ImageFile>,
    )
        ensures
            if old(self).selected >= old(self).cache@.len() {
                *final(self) == (ImagesPopup { mode: ImagesMode::Browse, ..*old(self) })
                    && *final(screen) == *old(screen)
            } else if !deleted {
                *final(self) == *old(self) && *final(screen) == *old(screen)
            } else {
                &&& *final(self) == (ImagesPopup {
                    cache: final(self).cache,
                    mode: ImagesMode::Browse,
                    ..*old(self)
                })
                &&& views(final(self).cache@) == image_rows(list@)
                &&& says(
                    *old(screen),
                    *final(screen),
                    "removed "@ + old(self).cache@[old(self).selected as int].name@,
                )
            },
    {
        if self.selected < self.cache.len() {
            if !deleted {
                return;
            }
            screen.status = concat("removed ", self.cache[self.selected].name.as_str());
            self.refresh_images(list);
        }
        self.mode = ImagesMode::Browse;
    }
}

/// What Enter in the file picker leads to.
pub enum PickStep {
    Nothing,
    /// Read the directory that the picker is in now.
    Read,
    /// Import this entry of the directory.
    Import(String),
}

impl FilePicker {
    /// Whether `scores` fits the picker: where something is typed, there is a
    /// score for each entry.
    pub open spec fn fits(&self, scores: Seq<Option<i32>>) -> bool {
        scored(self.filter@, self.entries@.len(), scores)
    }

    /// The rows that are shown.
    pub open spec fn shown(&self, scores: Seq<Option<i32>>) -> Seq<int> {
        shown_rows(self.filter@, self.entries@.len(), scores)
    }

    /// The row that the cursor is on.
    pub open spec fn row(&self, scores: Seq<Option<i32>>) -> Option<int> {
        row_at(self.filter@, self.entries@.len(), scores, self.selected as int)
    }

    /// Takes over what the directory holds, or that it cannot be read:
    /// directories first, then files, both by name.
    pub fn reload_picker_entries(
        &mut self,
        screen: &mut Screen,
        listed: Result<Vec<PickerEntry>, String>,
    )
        ensures
            *final(self) == (FilePicker { entries: final(self).entries, ..*old(self) }),
            match listed {
                Ok(list) => final(self).entries@ == rows(list@, ordered(entry_keys(list@)))
                    && *final(screen) == *old(screen),
                Err(e) => final(self).entries@.len() == 0 && says(
                    *old(screen),
                    *final(screen),
                    "cannot read "@ + old(self).dir@ + ": "@ + e@,
                ),
            },
    {
        match listed {
            Ok(list) => {
                self.entries = sorted_entries(list);
            },
            Err(e) => {
                let mut s = "cannot read ".to_owned();
                s.append(self.dir.as_str());
                s.append(": ");
                s.append(e.as_str());
                screen.status = s;
                self.entries = Vec::new();
            },
        }
    }

    /// Opens the picker in the directory that it was in last.
    pub fn open_file_picker(
        &mut self,
        files: &mut FilesPopup,
        screen: &mut Screen,
        listed: Result<Vec<PickerEntry>, String>,
    )
        ensures
            *final(self) == (FilePicker {
                entries: final(self).entries,
                filter: final(self).filter,
                selected: 0,
                ..*old(self)
            }),
            final(self).filter@ == Seq::<char>::empty(),
            match listed {
                Ok(list) => final(self).entries@ == rows(list@, ordered(entry_keys(list@)))
                    && *final(screen) == *old(screen),
                Err(e) => final(self).entries@.len() == 0 && says(
                    *old(screen),
                    *final(screen),
                    "cannot read "@ + old(self).dir@ + ": "@ + e@,
                ),
            },
            *final(files) == (FilesPopup { mode: FilesMode::Pick, ..*old(files) }),
    {
        self.filter = String::new();
        self.selected = 0;
        self.reload_picker_entries(screen, listed);
        files.mode = FilesMode::Pick;
    }

    /// The entries that match what is typed, best first; all of them, in their
    /// order, where nothing is typed.
    pub fn filtered_picker_entries(&self, scores: &Vec<Option<i32>>) -> (r: Vec<&PickerEntry>)
        requires
            self.fits(scores@),
        ensures
            r@ == rows(self.entries@, self.shown(scores@)).map_values(|e: PickerEntry| &e),
    {
        let order = filtered_rows(self.filter.as_str(), self.entries.len(), scores);
        in_order(&self.entries, &order)
    }

    /// Moves the cursor.
    pub fn move_picker_selection(&mut self, scores: &Vec<Option<i32>>, delta: i32)
        requires
            old(self).fits(scores@),
        ensures
            *final(self) == (FilePicker {
                selected: moved(
                    old(self).selected as int,
                    old(self).shown(scores@).len() as int,
                    delta as int,
                ) as usize,
                ..*old(self)
            }),
    {
        let n: usize = filtered_rows(self.filter.as_str(), self.entries.len(), scores).len();
        self.selected = clamp_cursor(self.selected, n, delta);
    }

    /// Types a character into the filter.
    pub fn picker_filter_push(&mut self, c: char)
        ensures
            *final(self) == (FilePicker {
                filter: final(self).filter,
                selected: 0,
                ..*old(self)
            }),
            final(self).filter@ == old(self).filter@.push(c),
    {
        self.filter.push(c);
        self.selected = 0;
    }

    /// Erases the last character of the filter or, where nothing is typed,
    /// goes up a directory, if there is one above.
    pub fn picker_backspace(&mut self, parent: Option<String>) -> (r: PickStep)
        ensures
            if old(self).filter@.len() > 0 {
                &&& r is Nothing
                &&& *final(self) == (FilePicker {
                    filter: final(self).filter,
                    selected: 0,
                    ..*old(self)
                })
                &&& final(self).filter@ == erased(old(self).filter@)
            } else {
                match parent {
                    Some(p) => r is Read && *final(self) == (FilePicker {
                        dir: p,
                        selected: 0,
                        ..*old(self)
                    }),
                    None => r is Nothing && *final(self) == *old(self),
                }
            },
    {
        if !self.filter.as_str().is_empty() {
            erase_last(&mut self.filter);
            self.selected = 0;
            return PickStep::Nothing;
        }
        match parent {
            Some(p) => {
                self.dir = p;
                self.selected = 0;
                PickStep::Read
            },
            None => PickStep::Nothing,
        }
    }

    /// Enters the directory under the cursor, whose path is `path`, or has the
    /// file under it imported.
    pub fn picker_enter(&mut self, scores: &Vec<Option<i32>>, path: String) -> (r: PickStep)
        requires
            old(self).fits(scores@),
        ensures
            match old(self).row(scores@) {
                None => r is Nothing && *final(self) == *old(self),
                Some(i) => if old(self).entries@[i].is_dir {
                    &&& r is Read
                    &&& *final(self) == (FilePicker {
                        dir: path,
                        filter: final(self).filter,
                        selected: 0,
                        ..*old(self)
                    })
                    &&& final(self).filter@ == Seq::<char>::empty()
                } else {
                    &&& r == PickStep::Import(old(self).entries@[i].name)
                    &&& *final(self) == *old(self)
                },
            },
    {
        match row_under(self.filter.as_str(), self.entries.len(), scores, self.selected) {
            None => PickStep::Nothing,
            Some(i) => {
                if self.entries[i].is_dir {
                    self.dir = path;
                    self.filter = String::new();
                    self.selected = 0;
                    PickStep::Read
                } else {
                    PickStep::Import(self.entries[i].name.clone())
                }
            },
        }
    }
}

fn sorted_entries(list: Vec<PickerEntry>) -> (r: Vec<PickerEntry>)
    ensures
        r@ == rows(list@, ordered(entry_keys(list@))),
{
    let mut keys: Vec<(String, String)> = Vec::new();
    let mut i: usize = 0;
    while i < list.len()
        invariant
            i <= list@.len(),
            keys@.len() == i,
            forall|k: int|
                0 <= k < i ==> (#[trigger] keys@[k]).0@ == (if list@[k].is_dir {
                    "1"@
                } else {
                    "0"@
                }) && keys@[k].1@ == list@[k].name@,
        decreases list@.len() - i,
    {
        let name = list[i].name.clone();
        let first = if list[i].is_dir {
            "1".to_owned()
        } else {
            "0".to_owned()
        };
        keys.push((first, name));
        i += 1;
    }
    assert(pairs(keys@) =~= entry_keys(list@));
    let order = key_order(&keys);
    copied_in_order(&list, &order)
}

/// A file was imported into the space, or could not be: the screen says so,
/// and the files popup shows the list again.
pub fn imported(files: &mut FilesPopup, screen: &mut Screen, result: Result<String, String>)
    ensures
        *final(files) == (FilesPopup { mode: FilesMode::Browse, ..*old(files) }),
        says(
            *old(screen),
            *final(screen),
            match result {
                Ok(name) => "imported "@ + name@,
                Err(e) => "import failed: "@ + e@,
            },
        ),
{
    screen.status = match result {
        Ok(name) => concat("imported ", name.as_str()),
        Err(e) => concat("import failed: ", e.as_str()),
    };
    files.mode = FilesMode::Browse;
}

/// What names are sorted by: themselves.
pub open spec fn name_keys(names: Seq<Seq<char>>) -> Seq<(Seq<char>, Seq<char>)> {
    names.map_values(|n: Seq<char>| (Seq::<char>::empty(), n))
}

/// The names of the apps of a space, sorted.
pub fn list_apps(names: &Vec<String>) -> (r: Vec<String>)
    ensures
        r@ == rows(names@, ordered(name_keys(crate::text::texts(names@)))),
{
    let mut keys: Vec<(String, String)> = Vec::new();
    let mut i: usize = 0;
    while i < names.len()
        invariant
            i <= names@.len(),
            keys@.len() == i,
            forall|k: int|
                0 <= k < i ==> (#[trigger] keys@[k]).0@ == Seq::<char>::empty() && keys@[k].1@
                    == names@[k]@,
        decreases names@.len() - i,
    {
        let name = names[i].clone();
        keys.push((String::new(), name));
        i += 1;
    }
    let ghost ks = name_keys(crate::text::texts(names@));
    assert(pairs(keys@) =~= ks);
    let order = key_order(&keys);
    copied_in_order(names, &order)
}

} // verus!
