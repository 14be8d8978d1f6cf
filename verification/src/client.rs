//! The operations of the popups, on the whole state of the client.

use crate::app::App;
use crate::backends::Model;
use crate::clipboard::{copied_step, copy_options, copy_source, last_reply};
use crate::effects::{Effect, EffectView};
use crate::files::{
    embedding, is_file_name, ocr_applies, ocr_effects, ocr_words, pages_numbered, rescan, scan_all,
    sizable, with_reload, DiskFile, OcrUpdate, RenameStep,
};
use crate::images::{entry_keys, image_rows, PickStep};
use crate::models::first_row;
use crate::ordering::{kept_in, moved, ordered, rows};
use crate::picks::picker_opened;
use crate::settings::{input_of, installing, is_saved, is_toggled, stored, takes, SETTINGS_WRITES};
use crate::skills::SkillSource;
use crate::state::{
    says, Catalog, Config, CopyMenu, FilePicker, FilesPopup, ImagesPopup, Jobs, Screen,
    SessionPicker, Settings, SettingsGroups, SettingsPopup, SkillsPopup, SpacePicker, DEFAULT_SPACE,
};
use crate::store::{FileRow, FloatBits, ImageFile, PickerEntry, Session, Skill, Space};
use crate::text::{decimal, erased, opt_text, texts, trim, views};
use crate::ui::{
    all_fields, next_ocr_engine, FilesMode, ImagesMode, ModelPanel, ModelPickTarget, Popup,
    SessionMode, SettingsField, SkillsMode, SpaceMode,
};
use vstd::prelude::*;
use vstd::string::*;

verus! {

impl App {
    /// Opens the skills popup.
    pub fn open_skills_popup(&mut self)
        ensures
            *final(self) == (App {
                skills: final(self).skills,
                screen: final(self).screen,
                ..*old(self)
            }),
            final(self).skills == (SkillsPopup {
                mode: SkillsMode::Browse,
                selected: kept_in(
                    old(self).skills.selected as int,
                    old(self).skills.list@.len() as int,
                ) as usize,
                ..old(self).skills
            }),
            final(self).screen == (Screen { popup: Popup::Skills, ..old(self).screen }),
    {
        self.skills.open_skills_popup(&mut self.screen);
    }

    /// Takes over which skills are installed, and keeps the cursor among them.
    pub fn reload_skills(&mut self, list: Vec<Skill>)
        ensures
            *final(self) == (App { skills: final(self).skills, ..*old(self) }),
            final(self).skills == (SkillsPopup {
                list,
                selected: kept_in(old(self).skills.selected as int, list@.len() as int) as usize,
                ..old(self).skills
            }),
    {
        self.skills.reload_skills(list);
    }

    /// Moves the cursor of the skills popup.
    pub fn move_skills_selection(&mut self, delta: i32)
        ensures
            *final(self) == (App { skills: final(self).skills, ..*old(self) }),
            final(self).skills == (SkillsPopup {
                selected: moved(
                    old(self).skills.selected as int,
                    old(self).skills.list@.len() as int,
                    delta as int,
                ) as usize,
                ..old(self).skills
            }),
    {
        self.skills.move_skills_selection(delta);
    }

    /// Begins to type where a skill is fetched from.
    pub fn start_skill_install(&mut self)
        ensures
            *final(self) == (App { skills: final(self).skills, ..*old(self) }),
            final(self).skills == (SkillsPopup {
                edit: final(self).skills.edit,
                mode: SkillsMode::Install,
                ..old(self).skills
            }),
            final(self).skills.edit@ == Seq::<char>::empty(),
    {
        self.skills.start_skill_install();
    }

    /// Asks whether the selected skill is to be removed.
    pub fn start_skill_remove(&mut self)
        ensures
            *final(self) == (App { skills: final(self).skills, ..*old(self) }),
            final(self).skills == (if old(self).skills.selected < old(self).skills.list@.len() {
                SkillsPopup { mode: SkillsMode::ConfirmRemove, ..old(self).skills }
            } else {
                old(self).skills
            }),
    {
        self.skills.start_skill_remove();
    }

    /// Has a skill fetched from where was typed. `source` is what that reads
    /// as, where it reads as a source.
    pub fn confirm_skill_install(&mut self, source: Option<SkillSource>) -> (r: Vec<Effect>)
        ensures
            *final(self) == (App {
                skills: final(self).skills,
                jobs: final(self).jobs,
                screen: final(self).screen,
                ..*old(self)
            }),
            final(self).skills == (SkillsPopup { mode: SkillsMode::Browse, ..old(self).skills }),
            match source {
                None => {
                    &&& final(self).jobs == old(self).jobs
                    &&& says(
                        old(self).screen,
                        final(self).screen,
                        "expected owner/repo/path, got: "@ + trim(old(self).skills.edit@),
                    )
                    &&& views(r@) == Seq::<EffectView>::empty()
                },
                Some(s) => {
                    &&& final(self).jobs == (Jobs { skills: true, ..old(self).jobs })
                    &&& says(
                        old(self).screen,
                        final(self).screen,
                        "installing "@ + trim(old(self).skills.edit@) + "…"@,
                    )
                    &&& views(r@) == seq![
                        EffectView::InstallSkill { owner: s.owner@, repo: s.repo@, path: s.path@ },
                    ]
                },
            },
    {
        self.skills.confirm_skill_install(&mut self.jobs, &mut self.screen, source)
    }

    /// Has the selected skill removed.
    pub fn confirm_skill_remove(&mut self) -> (r: Vec<Effect>)
        ensures
            *final(self) == (App {
                skills: final(self).skills,
                screen: final(self).screen,
                ..*old(self)
            }),
            final(self).skills == (SkillsPopup { mode: SkillsMode::Browse, ..old(self).skills }),
            if old(self).skills.selected < old(self).skills.list@.len() {
                let skill = old(self).skills.list@[old(self).skills.selected as int];
                &&& says(old(self).screen, final(self).screen, "removed skill: "@ + skill.name@)
                &&& views(r@) == seq![
                    EffectView::RemoveSkill { dir: skill.dir@ },
                    EffectView::ReloadSkills,
                ]
            } else {
                final(self).screen == old(self).screen && views(r@) == Seq::<EffectView>::empty()
            },
    {
        self.skills.confirm_skill_remove(&mut self.screen)
    }

    /// The directory of the selected skill, whose file is to be edited.
    pub fn skill_edit_path_for_selected(&self) -> (r: Option<String>)
        ensures
            r == (if self.skills.selected < self.skills.list@.len() {
                Some(self.skills.list@[self.skills.selected as int].dir)
            } else {
                None
            }),
    {
        self.skills.skill_edit_path_for_selected()
    }

    /// A skill was fetched, or could not be.
    pub fn on_skill_install_result(&mut self, result: Option<Result<String, String>>) -> (r: Vec<Effect>)
        ensures
            *final(self) == (App {
                jobs: final(self).jobs,
                screen: final(self).screen,
                ..*old(self)
            }),
            final(self).jobs == (Jobs { skills: false, ..old(self).jobs }),
            match result {
                Some(Ok(name)) => says(
                    old(self).screen,
                    final(self).screen,
                    "installed skill: "@ + name@,
                ) && views(r@) == seq![EffectView::ReloadSkills],
                Some(Err(e)) => says(
                    old(self).screen,
                    final(self).screen,
                    "skill install failed: "@ + e@,
                ) && views(r@) == Seq::<EffectView>::empty(),
                None => final(self).screen == old(self).screen && views(r@) == Seq::<EffectView>::empty(),
            },
    {
        crate::skills::on_skill_install_result(&mut self.jobs, &mut self.screen, result)
    }

    /// Says that a text was copied, or could not be.
    pub fn copy_text(&mut self, text: &str, ok: bool)
        ensures
            *final(self) == (App { screen: final(self).screen, ..*old(self) }),
            copied_step(old(self).screen, final(self).screen, text@, ok),
    {
        crate::clipboard::copy_text(&mut self.screen, text, ok);
    }

    /// Opens the copy menu for the last reply. `plain` is that reply without
    /// its markup.
    pub fn open_copy_menu(&mut self, plain: &str)
        ensures
            *final(self) == (App {
                copy: final(self).copy,
                screen: final(self).screen,
                ..*old(self)
            }),
            match last_reply(views(old(self).talk.messages@)) {
                None => final(self).copy == old(self).copy && says(
                    old(self).screen,
                    final(self).screen,
                    "no response to copy"@,
                ),
                Some(i) => {
                    &&& final(self).copy.selected == 0
                    &&& views(final(self).copy.options@) == copy_options(
                        views(old(self).talk.messages@)[i].content,
                        plain@,
                    )
                    &&& final(self).screen == (Screen { popup: Popup::Copy, ..old(self).screen })
                },
            },
    {
        self.copy.open_copy_menu(&self.talk, &mut self.screen, plain);
    }

    /// Closes the copy menu. Gives the text that the selected option puts on
    /// the clipboard.
    pub fn confirm_copy(&mut self) -> (r: Option<String>)
        ensures
            *final(self) == (App { screen: final(self).screen, ..*old(self) }),
            final(self).screen == (Screen { popup: Popup::Closed, ..old(self).screen }),
            r == (if old(self).copy.selected < old(self).copy.options@.len() {
                Some(old(self).copy.options@[old(self).copy.selected as int].text)
            } else {
                None
            }),
    {
        self.copy.confirm_copy(&mut self.screen)
    }

    /// Moves the cursor of the copy menu.
    pub fn move_copy_selection(&mut self, delta: i32)
        ensures
            *final(self) == (App { copy: final(self).copy, ..*old(self) }),
            final(self).copy == (if old(self).copy.options@.len() == 0 {
                old(self).copy
            } else {
                CopyMenu {
                    selected: moved(
                        old(self).copy.selected as int,
                        old(self).copy.options@.len() as int,
                        delta as int,
                    ) as usize,
                    ..old(self).copy
                }
            }),
    {
        self.copy.move_copy_selection(delta);
    }

    /// The spaces that match what is typed, best first; all of them, in their
    /// order, where nothing is typed. `scores` holds the search score of each
    /// space, where something is typed.
    pub fn filtered_spaces(&self, scores: &Vec<Option<i32>>) -> (r: Vec<&Space>)
        requires
            self.spaces.fits(scores@),
        ensures
            r@ == rows(self.spaces.cache@, self.spaces.shown(scores@)).map_values(|s: Space| &s),
    {
        self.spaces.filtered_spaces(scores)
    }

    /// The space that the cursor is on.
    pub fn selected_space(&self, scores: &Vec<Option<i32>>) -> (r: Option<Space>)
        requires
            self.spaces.fits(scores@),
        ensures
            match r {
                Some(s) => self.spaces.row(scores@) is Some && s == self.spaces.cache@[self.spaces.row(scores@)->0],
                None => self.spaces.row(scores@) is None,
            },
    {
        self.spaces.selected_space(scores)
    }

    /// Moves the cursor of the space picker.
    pub fn move_space_selection(&mut self, scores: &Vec<Option<i32>>, delta: i32)
        requires
            old(self).spaces.fits(scores@),
        ensures
            *final(self) == (App { spaces: final(self).spaces, ..*old(self) }),
            final(self).spaces == (SpacePicker {
                selected: moved(
                    old(self).spaces.selected as int,
                    old(self).spaces.shown(scores@).len() as int,
                    delta as int,
                ) as usize,
                ..old(self).spaces
            }),
    {
        self.spaces.move_space_selection(scores, delta);
    }

    /// Types a character into the filter of the space picker.
    pub fn space_filter_push(&mut self, c: char)
        ensures
            *final(self) == (App { spaces: final(self).spaces, ..*old(self) }),
            final(self).spaces == (SpacePicker {
                filter: final(self).spaces.filter,
                selected: 0,
                ..old(self).spaces
            }),
            final(self).spaces.filter@ == old(self).spaces.filter@.push(c),
    {
        self.spaces.space_filter_push(c);
    }

    /// Erases the last character of the filter of the space picker.
    pub fn space_filter_pop(&mut self)
        ensures
            *final(self) == (App { spaces: final(self).spaces, ..*old(self) }),
            final(self).spaces == (SpacePicker {
                filter: final(self).spaces.filter,
                selected: 0,
                ..old(self).spaces
            }),
            final(self).spaces.filter@ == erased(old(self).spaces.filter@),
    {
        self.spaces.space_filter_pop();
    }

    /// Begins to name a new space.
    pub fn start_space_create(&mut self)
        ensures
            *final(self) == (App { spaces: final(self).spaces, ..*old(self) }),
            final(self).spaces == (SpacePicker {
                edit: final(self).spaces.edit,
                mode: SpaceMode::Create,
                ..old(self).spaces
            }),
            final(self).spaces.edit@ == Seq::<char>::empty(),
    {
        self.spaces.start_space_create();
    }

    /// Begins to rename the space under the cursor, with its name to edit. The
    /// default space keeps its name.
    pub fn start_space_rename(&mut self, scores: &Vec<Option<i32>>)
        requires
            old(self).spaces.fits(scores@),
        ensures
            *final(self) == (App { spaces: final(self).spaces, ..*old(self) }),
            match old(self).spaces.row(scores@) {
                Some(i) if old(self).spaces.cache@[i].name@ != DEFAULT_SPACE@ => final(self).spaces
                    == (SpacePicker {
                    edit: old(self).spaces.cache@[i].name,
                    mode: SpaceMode::Rename,
                    ..old(self).spaces
                }),
                _ => final(self).spaces == old(self).spaces,
            },
    {
        self.spaces.start_space_rename(scores);
    }

    /// Ends the naming of a new space. `created` is the row of the space that
    /// was to be created; where the store could not create it, nothing
    /// changes. A name that is blank or taken creates nothing.
    pub fn confirm_space_create(&mut self, created: Option<Space>)
        requires
            old(self).spaces.cache@.len() < usize::MAX,
        ensures
            *final(self) == (App { spaces: final(self).spaces, ..*old(self) }),
            match (old(self).spaces.new_name(), created) {
                (None, _) => final(self).spaces == (SpacePicker {
                    mode: SpaceMode::Browse,
                    ..old(self).spaces
                }),
                (Some(_), None) => final(self).spaces == old(self).spaces,
                (Some(_), Some(s)) => final(self).spaces == (SpacePicker {
                    cache: final(self).spaces.cache,
                    selected: old(self).spaces.cache@.len() as usize,
                    mode: SpaceMode::Browse,
                    ..old(self).spaces
                }) && final(self).spaces.cache@ == old(self).spaces.cache@.push(s),
            },
    {
        self.spaces.confirm_space_create(created);
    }

    /// The sessions that match what is typed, best first; all of them, in
    /// their order, where nothing is typed. `scores` holds the search score of
    /// each session, where something is typed.
    pub fn filtered_sessions(&self, scores: &Vec<Option<i32>>) -> (r: Vec<&Session>)
        requires
            self.sessions.fits(scores@),
        ensures
            r@ == rows(self.sessions.cache@, self.sessions.shown(scores@)).map_values(|s: Session| &s),
    {
        self.sessions.filtered_sessions(scores)
    }

    /// The session that the cursor is on.
    pub fn selected_session(&self, scores: &Vec<Option<i32>>) -> (r: Option<Session>)
        requires
            self.sessions.fits(scores@),
        ensures
            match r {
                Some(s) => self.sessions.row(scores@) is Some && s == self.sessions.cache@[self.sessions.row(scores@)->0],
                None => self.sessions.row(scores@) is None,
            },
    {
        self.sessions.selected_session(scores)
    }

    /// Moves the cursor of the session picker.
    pub fn move_session_selection(&mut self, scores: &Vec<Option<i32>>, delta: i32)
        requires
            old(self).sessions.fits(scores@),
        ensures
            *final(self) == (App { sessions: final(self).sessions, ..*old(self) }),
            final(self).sessions == (SessionPicker {
                selected: moved(
                    old(self).sessions.selected as int,
                    old(self).sessions.shown(scores@).len() as int,
                    delta as int,
                ) as usize,
                ..old(self).sessions
            }),
    {
        self.sessions.move_session_selection(scores, delta);
    }

    /// Types a character into the filter of the session picker.
    pub fn session_filter_push(&mut self, c: char)
        ensures
            *final(self) == (App { sessions: final(self).sessions, ..*old(self) }),
            final(self).sessions == (SessionPicker {
                filter: final(self).sessions.filter,
                selected: 0,
                ..old(self).sessions
            }),
            final(self).sessions.filter@ == old(self).sessions.filter@.push(c),
    {
        self.sessions.session_filter_push(c);
    }

    /// Erases the last character of the filter of the session picker.
    pub fn session_filter_pop(&mut self)
        ensures
            *final(self) == (App { sessions: final(self).sessions, ..*old(self) }),
            final(self).sessions == (SessionPicker {
                filter: final(self).sessions.filter,
                selected: 0,
                ..old(self).sessions
            }),
            final(self).sessions.filter@ == erased(old(self).sessions.filter@),
    {
        self.sessions.session_filter_pop();
    }

    /// Begins to rename the session under the cursor, with its title to edit.
    pub fn start_rename(&mut self, scores: &Vec<Option<i32>>)
        requires
            old(self).sessions.fits(scores@),
        ensures
            *final(self) == (App { sessions: final(self).sessions, ..*old(self) }),
            match old(self).sessions.row(scores@) {
                Some(i) => final(self).sessions == (SessionPicker {
                    edit: old(self).sessions.cache@[i].title,
                    mode: SessionMode::Rename,
                    ..old(self).sessions
                }),
                None => final(self).sessions == old(self).sessions,
            },
    {
        self.sessions.start_rename(scores);
    }

    /// Selects the first row of each panel, or nothing where it is empty.
    pub fn reset_model_selection(&mut self)
        requires
            old(self).catalog.wf(),
        ensures
            *final(self) == (App { catalog: final(self).catalog, ..*old(self) }),
            final(self).catalog == (Catalog {
                fav_state: first_row(old(self).catalog.panel(true).len()),
                avail_state: first_row(old(self).catalog.panel(false).len()),
                ..old(self).catalog
            }),
    {
        self.catalog.reset_model_selection();
    }

    /// The favorites that match the search, most recently used first.
    pub fn favorite_models(&self) -> (r: Vec<&Model>)
        requires
            self.catalog.wf(),
        ensures
            r@ == rows(self.catalog.models@, self.catalog.panel(true)).map_values(|m: Model| &m),
    {
        self.catalog.favorite_models()
    }

    /// The other models that match the search, most recently used first.
    pub fn available_models(&self) -> (r: Vec<&Model>)
        requires
            self.catalog.wf(),
        ensures
            r@ == rows(self.catalog.models@, self.catalog.panel(false)).map_values(|m: Model| &m),
    {
        self.catalog.available_models()
    }

    /// The context window of the active model, where it is known.
    pub fn context_limit(&self) -> (r: Option<u64>)
        ensures
            r == self.catalog.limit(),
    {
        self.catalog.context_limit()
    }

    /// Whether a model has a reasoning effort.
    pub fn model_supports_reasoning(&self, id: &str) -> (r: bool)
        ensures
            r == self.catalog.reasons(id@),
    {
        self.catalog.model_supports_reasoning(id)
    }

    /// Whether the active model takes images.
    pub fn current_model_supports_images(&self) -> (r: bool)
        ensures
            r == self.catalog.sees_images(),
    {
        self.catalog.current_model_supports_images()
    }

    /// The reasoning effort of a model.
    pub fn reasoning_of(&self, id: &str) -> (r: Option<&String>)
        requires
            self.catalog.wf(),
        ensures
            match r {
                Some(e) => self.catalog.reasoning@.contains_key(id@) && self.catalog.reasoning@[id@] == e@,
                None => !self.catalog.reasoning@.contains_key(id@),
            },
    {
        self.catalog.reasoning_of(id)
    }

    /// Moves the cursor of the focused panel.
    pub fn move_model_selection(&mut self, delta: i32)
        requires
            old(self).catalog.wf(),
        ensures
            *final(self) == (App { catalog: final(self).catalog, ..*old(self) }),
            ({
                let n = old(self).catalog.rows_of(old(self).catalog.focus).len() as int;
                final(self).catalog == if n == 0 {
                    old(self).catalog
                } else {
                    old(self).catalog.with_state(
                        old(self).catalog.focus,
                        Some(moved(old(self).catalog.focus_row(), n, delta as int) as usize),
                    )
                }
            }),
    {
        self.catalog.move_model_selection(delta);
    }

    /// Moves the focus to the other panel.
    pub fn toggle_model_focus(&mut self)
        ensures
            *final(self) == (App { catalog: final(self).catalog, ..*old(self) }),
            final(self).catalog == (Catalog {
                focus: match old(self).catalog.focus {
                    ModelPanel::Favorites => ModelPanel::Available,
                    ModelPanel::Available => ModelPanel::Favorites,
                },
                ..old(self).catalog
            }),
    {
        self.catalog.toggle_model_focus();
    }

    /// The selected row.
    pub fn settings_field(&self) -> (r: SettingsField)
        requires
            self.settings_popup.wf(),
        ensures
            r == all_fields()[self.settings_popup.selected as int],
    {
        self.settings_popup.settings_field()
    }

    /// Moves the cursor, round the ends.
    pub fn move_settings_selection(&mut self, delta: i32)
        requires
            old(self).settings_popup.wf(),
        ensures
            *final(self) == (App { settings_popup: final(self).settings_popup, ..*old(self) }),
            final(self).settings_popup == (SettingsPopup {
                selected: ((old(self).settings_popup.selected + delta) % 13) as usize,
                ..old(self).settings_popup
            }),
            final(self).settings_popup.wf(),
    {
        self.settings_popup.move_settings_selection(delta);
    }

    /// The edit buffer of the selected row, where it has one.
    pub fn text_index(&self) -> (r: Option<usize>)
        requires
            self.settings_popup.wf(),
        ensures
            match r {
                Some(i) => input_of(all_fields()[self.settings_popup.selected as int]) == Some(i as int)
                    && i < self.settings_popup.inputs@.len(),
                None => input_of(all_fields()[self.settings_popup.selected as int]) is None,
            },
    {
        self.settings_popup.text_index()
    }

    /// Toggles or cycles the selected row; text rows and model rows have
    /// nothing to toggle.
    pub fn toggle_settings_field(&mut self)
        requires
            old(self).settings_popup.wf(),
        ensures
            *final(self) == (App { config: final(self).config, ..*old(self) }),
            is_toggled(
                old(self).config,
                final(self).config,
                all_fields()[old(self).settings_popup.selected as int],
            ),
    {
        self.settings_popup.toggle_settings_field(&mut self.config);
    }

    /// Types a character into the selected row, where the row takes it.
    pub fn settings_input_char(&mut self, c: char)
        requires
            old(self).settings_popup.wf(),
        ensures
            *final(self) == (App { settings_popup: final(self).settings_popup, ..*old(self) }),
            final(self).settings_popup.wf(),
            ({
                let f = all_fields()[old(self).settings_popup.selected as int];
                match input_of(f) {
                    Some(i) if takes(f, c) => final(self).settings_popup.is_edited(
                        old(self).settings_popup,
                        i,
                        old(self).settings_popup.inputs@[i]@.push(c),
                    ),
                    _ => final(self).settings_popup == old(self).settings_popup,
                }
            }),
    {
        self.settings_popup.settings_input_char(c);
    }

    /// Erases the last character of the selected row.
    pub fn settings_input_backspace(&mut self)
        requires
            old(self).settings_popup.wf(),
        ensures
            *final(self) == (App { settings_popup: final(self).settings_popup, ..*old(self) }),
            final(self).settings_popup.wf(),
            match input_of(all_fields()[old(self).settings_popup.selected as int]) {
                Some(i) => final(self).settings_popup.is_edited(old(self).settings_popup, i, erased(old(self).settings_popup.inputs@[i]@)),
                None => final(self).settings_popup == old(self).settings_popup,
            },
    {
        self.settings_popup.settings_input_backspace();
    }

    /// Opens the settings popup with the stored values to edit. `temperature`
    /// and `top_p` are the sampling parameters in words, and `blocked` holds
    /// the blocked domains of the space.
    pub fn open_settings(&mut self, temperature: String, top_p: String, blocked: String)
        ensures
            *final(self) == (App {
                settings_popup: final(self).settings_popup,
                screen: final(self).screen,
                ..*old(self)
            }),
            final(self).settings_popup.selected == 0,
            final(self).settings_popup.grouped == (SettingsGroups {
                selected: 0,
                ..old(self).settings_popup.grouped
            }),
            texts(final(self).settings_popup.inputs@) == seq![
                temperature@,
                top_p@,
                match old(self).config.settings.max_tokens {
                    Some(n) => decimal(n as nat),
                    None => Seq::empty(),
                },
                decimal(old(self).config.settings.compact_threshold as nat),
                old(self).config.searxng_url@,
                old(self).config.langsearch_key@,
                old(self).config.embedding_model@,
                blocked@,
            ],
            final(self).screen == (Screen {
                popup: Popup::Settings,
                status: final(self).screen.status,
                ..old(self).screen
            }),
            final(self).screen.status@
                == "↑/↓ field · type to edit · Space toggles · Ctrl+E system prompt · Esc saves"@,
    {
        self.settings_popup.open_settings(&self.config, &mut self.screen, temperature, top_p, blocked);
    }

    /// Saves what was typed. `temperature` and `top_p` are what the first two
    /// edit buffers read as numbers, and `written` says how many of the writes
    /// of `settings_to_store` went through before one failed, if one did.
    pub fn save_settings(&mut self, temperature: Option<FloatBits>, top_p: Option<FloatBits>, written: usize)
        requires
            old(self).settings_popup.wf(),
        ensures
            *final(self) == (App {
                config: final(self).config,
                screen: final(self).screen,
                ..*old(self)
            }),
            is_saved(
                old(self).config,
                final(self).config,
                texts(old(self).settings_popup.inputs@),
                temperature,
                top_p,
                written as int,
            ),
            if written >= SETTINGS_WRITES {
                final(self).screen == (Screen {
                    popup: Popup::Closed,
                    status: final(self).screen.status,
                    ..old(self).screen
                }) && final(self).screen.status@ == "settings saved"@
            } else {
                final(self).screen == old(self).screen
            },
    {
        self.settings_popup.save_settings(&mut self.config, &mut self.screen, temperature, top_p, written);
    }

    /// Expands or collapses stored reasoning. `stored_ok` says whether the store
    /// has taken the switch; where it has not, the switch counts all the same.
    pub fn toggle_reasoning_view(&mut self, stored_ok: bool)
        ensures
            *final(self) == (App {
                config: final(self).config,
                screen: final(self).screen,
                ..*old(self)
            }),
            final(self).config == (Config {
                settings: Settings {
                    show_reasoning: !old(self).config.settings.show_reasoning,
                    ..old(self).config.settings
                },
                ..old(self).config
            }),
            final(self).screen == (Screen { status: final(self).screen.status, ..old(self).screen }),
            if !stored_ok {
                final(self).screen.status == old(self).screen.status
            } else if final(self).config.settings.show_reasoning {
                final(self).screen.status@ == "reasoning expanded"@
            } else {
                final(self).screen.status@ == "reasoning collapsed"@
            },
    {
        crate::settings::toggle_reasoning_view(&mut self.config, &mut self.screen, stored_ok);
    }

    /// Starts to fetch a local OCR model, unless one is being fetched.
    pub fn ocr_local_install(&mut self, arg: &str) -> (r: Vec<Effect>)
        ensures
            *final(self) == (App {
                config: final(self).config,
                jobs: final(self).jobs,
                screen: final(self).screen,
                ..*old(self)
            }),
            installing(
                old(self).config,
                final(self).config,
                (old(self).jobs, final(self).jobs),
                (old(self).screen, final(self).screen),
                views(r@),
                arg@,
            ),
    {
        crate::settings::ocr_local_install(&mut self.config, &mut self.jobs, &mut self.screen, arg)
    }

    /// Goes on to the next OCR engine. The local one is taken once its model was
    /// fetched, so that a failed fetch leaves the engine as it was.
    pub fn cycle_ocr_engine(&mut self) -> (r: Vec<
        Effect,
    >)
        ensures
            *final(self) == (App {
                config: final(self).config,
                jobs: final(self).jobs,
                screen: final(self).screen,
                ..*old(self)
            }),
            ({
                let next = next_ocr_engine(old(self).config.ocr_engine@);
                if next == "local"@ {
                    installing(
                        old(self).config,
                        final(self).config,
                        (old(self).jobs, final(self).jobs),
                        (old(self).screen, final(self).screen),
                        views(r@),
                        ""@,
                    )
                } else {
                    &&& final(self).config == (Config {
                        ocr_engine: final(self).config.ocr_engine,
                        ..old(self).config
                    })
                    &&& final(self).config.ocr_engine@ == next
                    &&& final(self).jobs == old(self).jobs
                    &&& final(self).screen == old(self).screen
                    &&& views(r@) == seq![stored("ocr_engine"@, next)]
                }
            }),
    {
        crate::settings::cycle_ocr_engine(&mut self.config, &mut self.jobs, &mut self.screen)
    }

    /// The fetch of a local OCR model ended: the engine becomes the local one, or
    /// the status says why not.
    pub fn on_ocr_pull(&mut self, result: Option<Result<String, String>>) -> (r: Vec<Effect>)
        ensures
            *final(self) == (App {
                config: final(self).config,
                jobs: final(self).jobs,
                screen: final(self).screen,
                ..*old(self)
            }),
            final(self).jobs == (Jobs { ocr_pull: false, ..old(self).jobs }),
            match result {
                Some(Ok(model)) => {
                    &&& final(self).config == (Config {
                        ocr_engine: final(self).config.ocr_engine,
                        ..old(self).config
                    })
                    &&& final(self).config.ocr_engine@ == "local"@
                    &&& final(self).screen == (Screen { status: final(self).screen.status, ..old(self).screen })
                    &&& final(self).screen.status@ == "local OCR ready: "@ + model@
                        + " via ollama — Ctrl+O a file in /files to re-run it"@
                    &&& views(r@) == seq![stored("ocr_engine"@, "local"@)]
                },
                Some(Err(e)) => {
                    &&& final(self).config == old(self).config
                    &&& final(self).screen == (Screen { status: e, ..old(self).screen })
                    &&& views(r@) == Seq::<EffectView>::empty()
                },
                None => {
                    &&& final(self).config == old(self).config
                    &&& final(self).screen == old(self).screen
                    &&& views(r@) == Seq::<EffectView>::empty()
                },
            },
    {
        crate::settings::on_ocr_pull(&mut self.config, &mut self.jobs, &mut self.screen, result)
    }

    /// Opens the picker in the directory that it was in last.
    pub fn open_file_picker(&mut self, listed: Result<Vec<PickerEntry>, String>)
        ensures
            *final(self) == (App {
                picker: final(self).picker,
                files: final(self).files,
                screen: final(self).screen,
                ..*old(self)
            }),
            final(self).picker == (FilePicker {
                entries: final(self).picker.entries,
                filter: final(self).picker.filter,
                selected: 0,
                ..old(self).picker
            }),
            final(self).picker.filter@ == Seq::<char>::empty(),
            match listed {
                Ok(list) => final(self).picker.entries@ == rows(list@, ordered(entry_keys(list@)))
                    && final(self).screen == old(self).screen,
                Err(e) => final(self).picker.entries@.len() == 0 && says(
                    old(self).screen,
                    final(self).screen,
                    "cannot read "@ + old(self).picker.dir@ + ": "@ + e@,
                ),
            },
            final(self).files == (FilesPopup { mode: FilesMode::Pick, ..old(self).files }),
    {
        self.picker.open_file_picker(&mut self.files, &mut self.screen, listed);
    }

    /// The entries that match what is typed, best first; all of them, in their
    /// order, where nothing is typed.
    pub fn filtered_picker_entries(&self, scores: &Vec<Option<i32>>) -> (r: Vec<&PickerEntry>)
        requires
            self.picker.fits(scores@),
        ensures
            r@ == rows(self.picker.entries@, self.picker.shown(scores@)).map_values(|e: PickerEntry| &e),
    {
        self.picker.filtered_picker_entries(scores)
    }

    /// Moves the cursor of the file picker.
    pub fn move_picker_selection(&mut self, scores: &Vec<Option<i32>>, delta: i32)
        requires
            old(self).picker.fits(scores@),
        ensures
            *final(self) == (App { picker: final(self).picker, ..*old(self) }),
            final(self).picker == (FilePicker {
                selected: moved(
                    old(self).picker.selected as int,
                    old(self).picker.shown(scores@).len() as int,
                    delta as int,
                ) as usize,
                ..old(self).picker
            }),
    {
        self.picker.move_picker_selection(scores, delta);
    }

    /// Types a character into the filter of the file picker.
    pub fn picker_filter_push(&mut self, c: char)
        ensures
            *final(self) == (App { picker: final(self).picker, ..*old(self) }),
            final(self).picker == (FilePicker {
                filter: final(self).picker.filter,
                selected: 0,
                ..old(self).picker
            }),
            final(self).picker.filter@ == old(self).picker.filter@.push(c),
    {
        self.picker.picker_filter_push(c);
    }

    /// Erases the last character of the filter or, where nothing is typed,
    /// goes up a directory, if there is one above.
    pub fn picker_backspace(&mut self, parent: Option<String>) -> (r: PickStep)
        ensures
            *final(self) == (App { picker: final(self).picker, ..*old(self) }),
            if old(self).picker.filter@.len() > 0 {
                &&& r is Nothing
                &&& final(self).picker == (FilePicker {
                    filter: final(self).picker.filter,
                    selected: 0,
                    ..old(self).picker
                })
                &&& final(self).picker.filter@ == erased(old(self).picker.filter@)
            } else {
                match parent {
                    Some(p) => r is Read && final(self).picker == (FilePicker {
                        dir: p,
                        selected: 0,
                        ..old(self).picker
                    }),
                    None => r is Nothing && final(self).picker == old(self).picker,
                }
            },
    {
        self.picker.picker_backspace(parent)
    }

    /// Enters the directory under the cursor, whose path is `path`, or has the
    /// file under it imported.
    pub fn picker_enter(&mut self, scores: &Vec<Option<i32>>, path: String) -> (r: PickStep)
        requires
            old(self).picker.fits(scores@),
        ensures
            *final(self) == (App { picker: final(self).picker, ..*old(self) }),
            match old(self).picker.row(scores@) {
                None => r is Nothing && final(self).picker == old(self).picker,
                Some(i) => if old(self).picker.entries@[i].is_dir {
                    &&& r is Read
                    &&& final(self).picker == (FilePicker {
                        dir: path,
                        filter: final(self).picker.filter,
                        selected: 0,
                        ..old(self).picker
                    })
                    &&& final(self).picker.filter@ == Seq::<char>::empty()
                } else {
                    &&& r == PickStep::Import(old(self).picker.entries@[i].name)
                    &&& final(self).picker == old(self).picker
                },
            },
    {
        self.picker.picker_enter(scores, path)
    }

    /// Takes over which images the space has, sorted by name.
    pub fn refresh_images(&mut self, list: Vec<ImageFile>)
        ensures
            *final(self) == (App { images: final(self).images, ..*old(self) }),
            final(self).images == (ImagesPopup { cache: final(self).images.cache, ..old(self).images }),
            views(final(self).images.cache@) == image_rows(list@),
    {
        self.images.refresh_images(list);
    }

    /// Moves the cursor of the images popup.
    pub fn move_images_selection(&mut self, delta: i32)
        ensures
            *final(self) == (App { images: final(self).images, ..*old(self) }),
            final(self).images == (ImagesPopup {
                selected: moved(
                    old(self).images.selected as int,
                    old(self).images.cache@.len() as int,
                    delta as int,
                ) as usize,
                ..old(self).images
            }),
    {
        self.images.move_images_selection(delta);
    }

    /// Opens the selected image in the viewer of the system.
    pub fn open_selected_image(&mut self) -> (r: Vec<Effect>)
        ensures
            *final(self) == (App { screen: final(self).screen, ..*old(self) }),
            if old(self).images.selected < old(self).images.cache@.len() {
                let name = old(self).images.cache@[old(self).images.selected as int].name@;
                &&& says(old(self).screen, final(self).screen, "opened "@ + name)
                &&& views(r@) == seq![EffectView::OpenFile { name }]
            } else {
                final(self).screen == old(self).screen && views(r@) == Seq::<EffectView>::empty()
            },
    {
        self.images.open_selected_image(&mut self.screen)
    }

    /// The selected image was deleted, or, as `deleted` says, could not be.
    /// `list` is what images there are then.
    pub fn confirm_images_delete(&mut self, deleted: bool, list: Vec<ImageFile>)
        ensures
            *final(self) == (App {
                images: final(self).images,
                screen: final(self).screen,
                ..*old(self)
            }),
            if old(self).images.selected >= old(self).images.cache@.len() {
                final(self).images == (ImagesPopup { mode: ImagesMode::Browse, ..old(self).images })
                    && final(self).screen == old(self).screen
            } else if !deleted {
                final(self).images == old(self).images && final(self).screen == old(self).screen
            } else {
                &&& final(self).images == (ImagesPopup {
                    cache: final(self).images.cache,
                    mode: ImagesMode::Browse,
                    ..old(self).images
                })
                &&& views(final(self).images.cache@) == image_rows(list@)
                &&& says(
                    old(self).screen,
                    final(self).screen,
                    "removed "@ + old(self).images.cache@[old(self).images.selected as int].name@,
                )
            },
    {
        self.images.confirm_images_delete(&mut self.screen, deleted, list);
    }

    /// Opens the files popup; the index is brought up to date.
    pub fn open_files_popup(&mut self) -> (r: Vec<Effect>)
        ensures
            *final(self) == (App {
                files: final(self).files,
                screen: final(self).screen,
                ..*old(self)
            }),
            final(self).files == (FilesPopup { mode: FilesMode::Browse, ..old(self).files }),
            final(self).screen == (Screen { popup: Popup::Files, ..old(self).screen }),
            views(r@) == seq![EffectView::RescanFiles],
    {
        self.files.open_files_popup(&mut self.screen)
    }

    /// Moves the cursor of the files popup.
    pub fn move_files_selection(&mut self, delta: i32)
        ensures
            *final(self) == (App { files: final(self).files, ..*old(self) }),
            final(self).files == (FilesPopup {
                selected: moved(
                    old(self).files.selected as int,
                    old(self).files.cache@.len() as int,
                    delta as int,
                ) as usize,
                ..old(self).files
            }),
    {
        self.files.move_files_selection(delta);
    }

    /// Begins to type the path of a file to import.
    pub fn start_files_add(&mut self)
        ensures
            *final(self) == (App { files: final(self).files, ..*old(self) }),
            final(self).files == (FilesPopup {
                edit: final(self).files.edit,
                mode: FilesMode::Add,
                ..old(self).files
            }),
            final(self).files.edit@ == Seq::<char>::empty(),
    {
        self.files.start_files_add();
    }

    /// Ends the typing of a path. Gives the path to import, unless it is blank
    /// or, as `is_file` says, no file.
    pub fn confirm_files_add(&mut self, is_file: bool) -> (r: Option<String>)
        ensures
            *final(self) == (App {
                files: final(self).files,
                screen: final(self).screen,
                ..*old(self)
            }),
            final(self).files == (FilesPopup { mode: FilesMode::Browse, ..old(self).files }),
            ({
                let raw = trim(old(self).files.edit@);
                if raw.len() == 0 {
                    r is None && final(self).screen == old(self).screen
                } else if !is_file {
                    r is None && final(self).screen == (Screen {
                        status: final(self).screen.status,
                        ..old(self).screen
                    }) && final(self).screen.status@ == "not a file: "@ + raw
                } else {
                    r matches Some(p) && p@ == raw && final(self).screen == old(self).screen
                }
            }),
    {
        self.files.confirm_files_add(&mut self.screen, is_file)
    }

    /// Begins to rename the selected file, with its name to edit.
    pub fn start_files_rename(&mut self)
        ensures
            *final(self) == (App { files: final(self).files, ..*old(self) }),
            final(self).files == (if old(self).files.selected < old(self).files.cache@.len() {
                FilesPopup {
                    edit: old(self).files.cache@[old(self).files.selected as int].name,
                    mode: FilesMode::Rename,
                    ..old(self).files
                }
            } else {
                old(self).files
            }),
    {
        self.files.start_files_rename();
    }

    /// Ends the typing of a new name. `taken` says whether a file of that name
    /// exists.
    pub fn confirm_files_rename(&mut self, taken: bool) -> (r: RenameStep)
        ensures
            *final(self) == (App {
                files: final(self).files,
                screen: final(self).screen,
                ..*old(self)
            }),
            final(self).files == (FilesPopup { mode: FilesMode::Browse, ..old(self).files }),
            final(self).screen == (Screen { status: final(self).screen.status, ..old(self).screen }),
            ({
                let new = trim(old(self).files.edit@);
                if old(self).files.selected >= old(self).files.cache@.len() || new.len() == 0 || new
                    == old(self).files.cache@[old(self).files.selected as int].name@ {
                    r is Nothing && final(self).screen.status == old(self).screen.status
                } else if !is_file_name(new) {
                    r is Refused && final(self).screen.status@ == "invalid name: "@ + new
                } else if taken {
                    r is Refused && final(self).screen.status@ == new + " already exists"@
                } else {
                    &&& r matches RenameStep::Rename { from, to } && from
                        == old(self).files.cache@[old(self).files.selected as int].name && to@ == new
                    &&& final(self).screen.status == old(self).screen.status
                }
            }),
    {
        self.files.confirm_files_rename(&mut self.screen, taken)
    }

    /// Deletes the selected file. `deleted` says whether the disk and the
    /// index have dropped it; where they have not, nothing changes.
    pub fn confirm_files_delete(&mut self, deleted: bool) -> (r: Vec<Effect>)
        ensures
            *final(self) == (App {
                files: final(self).files,
                screen: final(self).screen,
                ..*old(self)
            }),
            if old(self).files.selected >= old(self).files.cache@.len() {
                &&& final(self).files == (FilesPopup { mode: FilesMode::Browse, ..old(self).files })
                &&& final(self).screen == old(self).screen
                &&& views(r@) == Seq::<EffectView>::empty()
            } else if !deleted {
                &&& final(self).files == old(self).files
                &&& final(self).screen == old(self).screen
                &&& views(r@) == Seq::<EffectView>::empty()
            } else {
                &&& final(self).files == (FilesPopup { mode: FilesMode::Browse, ..old(self).files })
                &&& final(self).screen == (Screen { status: final(self).screen.status, ..old(self).screen })
                &&& final(self).screen.status@ == "removed "@
                    + old(self).files.cache@[old(self).files.selected as int].name@
                &&& views(r@) == seq![EffectView::RescanFiles]
            },
    {
        self.files.confirm_files_delete(&mut self.screen, deleted)
    }

    /// Has the text of the selected file extracted anew.
    pub fn reextract_selected_file(&mut self) -> (r: Vec<Effect>)
        ensures
            *final(self) == (App { screen: final(self).screen, ..*old(self) }),
            if old(self).files.selected >= old(self).files.cache@.len() {
                final(self).screen == old(self).screen && views(r@) == Seq::<EffectView>::empty()
            } else {
                let f = old(self).files.cache@[old(self).files.selected as int];
                &&& final(self).screen == (Screen { status: final(self).screen.status, ..old(self).screen })
                &&& final(self).screen.status@ == "re-extracting: "@ + f.name@
                &&& views(r@) == seq![
                    EffectView::ForgetFile { file_id: f.id@, name: f.name@ },
                    EffectView::RescanFiles,
                ]
            },
    {
        self.files.reextract_selected_file(&mut self.screen)
    }

    /// Opens the selected file in the viewer of the system.
    pub fn open_selected_file(&mut self) -> (r: Vec<Effect>)
        ensures
            *final(self) == (App { screen: final(self).screen, ..*old(self) }),
            if old(self).files.selected >= old(self).files.cache@.len() {
                final(self).screen == old(self).screen && views(r@) == Seq::<EffectView>::empty()
            } else {
                let name = old(self).files.cache@[old(self).files.selected as int].name@;
                &&& final(self).screen == (Screen { status: final(self).screen.status, ..old(self).screen })
                &&& final(self).screen.status@ == "opened "@ + name
                &&& views(r@) == seq![EffectView::OpenFile { name }]
            },
    {
        self.files.open_selected_file(&mut self.screen)
    }

    /// The embedding of a file ended. `active` says whether its space is the
    /// active one. A failure is shown and stops the chain; the file counts as
    /// indexed either way.
    pub fn on_embed_done(&mut self, active: bool, ended: Option<(String, Result<(), String>)>) -> (r: Vec<Effect>)
        ensures
            *final(self) == (App {
                jobs: final(self).jobs,
                screen: final(self).screen,
                ..*old(self)
            }),
            final(self).jobs == (Jobs { embed: false, ..old(self).jobs }),
            match ended {
                None => final(self).screen == old(self).screen && views(r@) == Seq::<EffectView>::empty(),
                Some((id, Ok(_))) => final(self).screen == old(self).screen && views(r@) == with_reload(
                    seq![
                        EffectView::StoreEmbeddings { file_id: id@ },
                        EffectView::SetFileStatus { file_id: id@, status: "ok"@ },
                        EffectView::NextEmbedding,
                    ],
                    active,
                ),
                Some((id, Err(e))) => {
                    &&& final(self).screen == (Screen { status: final(self).screen.status, ..old(self).screen })
                    &&& final(self).screen.status@ == "embedding failed: "@ + e@
                    &&& views(r@) == with_reload(
                        seq![EffectView::SetFileStatus { file_id: id@, status: "ok"@ }],
                        active,
                    )
                },
            },
    {
        crate::files::on_embed_done(&mut self.jobs, &mut self.screen, active, ended)
    }

    /// Takes an update on the transcription of a file of a space, whose index is
    /// `files`, or the end of the batch: files that came in meanwhile are taken up
    /// by bringing the index up to date.
    pub fn on_ocr_done(&mut self, files: &Vec<FileRow>, active: bool, r: Option<(String, OcrUpdate)>) -> (effects: Vec<Effect>)
        requires
            r matches Some((_, update)) ==> pages_numbered(update),
        ensures
            *final(self) == (App {
                jobs: final(self).jobs,
                screen: final(self).screen,
                ..*old(self)
            }),
            match r {
                None => {
                    &&& final(self).jobs == (Jobs { ocr: false, ..old(self).jobs })
                    &&& final(self).screen == old(self).screen
                    &&& views(effects@) == seq![EffectView::RescanFiles]
                },
                Some((name, update)) => {
                    &&& final(self).jobs == old(self).jobs
                    &&& views(effects@) == ocr_effects(files@, active, name@, update)
                    &&& if ocr_applies(files@, name@) && active {
                        says(old(self).screen, final(self).screen, ocr_words(name@, update))
                    } else {
                        final(self).screen == old(self).screen
                    }
                },
            },
    {
        crate::files::on_ocr_done(&mut self.jobs, &mut self.screen, files, active, r)
    }

    /// Starts to embed the next file that lacks embeddings. `missing` is its id
    /// and `has_text` says whether it has any text. Without a backend or an
    /// embedding model, or while another file is embedded, nothing starts.
    pub fn start_embedding(&mut self, missing: &Option<String>, has_text: bool) -> (r: Vec<Effect>)
        ensures
            *final(self) == (App { jobs: final(self).jobs, ..*old(self) }),
            views(r@) == embedding(
                old(self).jobs,
                old(self).backends,
                old(self).config.embedding_model@,
                crate::text::opt_text(*missing),
                has_text,
            ),
            final(self).jobs == (Jobs {
                embed: old(self).jobs.embed || views(r@).len() > 0,
                ..old(self).jobs
            }),
    {
        crate::files::start_embedding(&mut self.jobs, &self.backends, &self.config, missing, has_text)
    }

    /// The text that copying a row puts on the clipboard. `plain` is the text of
    /// the row without its markup.
    pub fn copy_message(&self, idx: usize, plain: &str) -> (r: Option<String>)
        ensures
            opt_text(r) == copy_source(
                views(self.talk.messages@),
                self.streaming(),
                idx as int,
                plain@,
            ),
    {
        crate::clipboard::copy_message(&self.talk, self.active_streaming_text(), idx, plain)
    }

    /// What bringing the index of the space up to date asks for. `known` is the
    /// index and `disk` the files; a transcription that starts is a job.
    pub fn rescan_files(&mut self, known: &Vec<FileRow>, disk: &Vec<DiskFile>) -> (r: Vec<Effect>)
        requires
            forall|i: int| 0 <= i < disk@.len() ==> sizable(#[trigger] disk@[i]),
        ensures
            views(r@) == rescan(known@, disk@, old(self).jobs.ocr),
            *final(self) == (App {
                jobs: Jobs {
                    ocr: old(self).jobs.ocr || scan_all(known@, disk@, old(self).jobs.ocr).1.len()
                        > 0,
                    ..old(self).jobs
                },
                ..*old(self)
            }),
    {
        crate::files::rescan_files(known, disk, &mut self.jobs)
    }

    /// Opens the model picker for the model that extracts memory.
    pub fn open_model_picker_for_memory(&mut self) -> (r: Vec<Effect>)
        requires
            old(self).wf(),
        ensures
            picker_opened(*old(self), *final(self), ModelPickTarget::Memory, views(r@)),
    {
        self.open_model_picker_for(ModelPickTarget::Memory)
    }
}

} // verus!
