//! The skills popup.

use crate::effects::{and_effect, no_effects, one_effect, Effect, EffectView};
use crate::ordering::{clamp_cursor, keep_in, kept_in, moved};
use crate::pipeline::concat;
use crate::state::{says, Jobs, Screen, SkillsPopup};
use crate::store::Skill;
use crate::text::{trim, trimmed, views};
use crate::ui::{Popup, SkillsMode};
use vstd::prelude::*;
use vstd::string::*;

verus! {

/// Where a skill is fetched from.
pub struct SkillSource {
    pub owner: String,
    pub repo: String,
    pub path: String,
}

impl SkillsPopup {
    /// Opens the popup.
    pub fn open_skills_popup(&mut self, screen: &mut Screen)
        ensures
            *final(self) == (SkillsPopup {
                mode: SkillsMode::Browse,
                selected: kept_in(
                    old(self).selected as int,
                    old(self).list@.len() as int,
                ) as usize,
                ..*old(self)
            }),
            *final(screen) == (Screen { popup: Popup::Skills, ..*old(screen) }),
    {
        self.mode = SkillsMode::Browse;
        self.selected = keep_in(self.selected, self.list.len());
        screen.popup = Popup::Skills;
    }

    /// Takes over which skills are installed, and keeps the cursor among them.
    pub fn reload_skills(&mut self, list: Vec<Skill>)
        ensures
            *final(self) == (SkillsPopup {
                list,
                selected: kept_in(old(self).selected as int, list@.len() as int) as usize,
                ..*old(self)
            }),
    {
        let n: usize = list.len();
        self.list = list;
        self.selected = keep_in(self.selected, n);
    }

    /// Moves the cursor.
    pub fn move_skills_selection(&mut self, delta: i32)
        ensures
            *final(self) == (SkillsPopup {
                selected: moved(
                    old(self).selected as int,
                    old(self).list@.len() as int,
                    delta as int,
                ) as usize,
                ..*old(self)
            }),
    {
        self.selected = clamp_cursor(self.selected, self.list.len(), delta);
    }

    /// Begins to type where a skill is fetched from.
    pub fn start_skill_install(&mut self)
        ensures
            *final(self) == (SkillsPopup {
                edit: final(self).edit,
                mode: SkillsMode::Install,
                ..*old(self)
            }),
            final(self).edit@ == Seq::<char>::empty(),
    {
        self.edit = String::new();
        self.mode = SkillsMode::Install;
    }

    /// Asks whether the selected skill is to be removed.
    pub fn start_skill_remove(&mut self)
        ensures
            *final(self) == (if old(self).selected < old(self).list@.len() {
                SkillsPopup { mode: SkillsMode::ConfirmRemove, ..*old(self) }
            } else {
                *old(self)
            }),
    {
        if self.selected < self.list.len() {
            self.mode = SkillsMode::ConfirmRemove;
        }
    }

    /// Has a skill fetched from where was typed. `source` is what that reads
    /// as, where it reads as a source.
    pub fn confirm_skill_install(
        &mut self,
        jobs: &mut Jobs,
        screen: &mut Screen,
        source: Option<SkillSource>,
    ) -> (r: Vec<Effect>)
        ensures
            *final(self) == (SkillsPopup { mode: SkillsMode::Browse, ..*old(self) }),
            match source {
                None => {
                    &&& *final(jobs) == *old(jobs)
                    &&& says(
                        *old(screen),
                        *final(screen),
                        "expected owner/repo/path, got: "@ + trim(old(self).edit@),
                    )
                    &&& views(r@) == Seq::<EffectView>::empty()
                },
                Some(s) => {
                    &&& *final(jobs) == (Jobs { skills: true, ..*old(jobs) })
                    &&& says(
                        *old(screen),
                        *final(screen),
                        "installing "@ + trim(old(self).edit@) + "…"@,
                    )
                    &&& views(r@) == seq![
                        EffectView::InstallSkill { owner: s.owner@, repo: s.repo@, path: s.path@ },
                    ]
                },
            },
    {
        let spec_text = trimmed(self.edit.as_str()).to_owned();
        self.mode = SkillsMode::Browse;
        match source {
            None => {
                screen.status = concat("expected owner/repo/path, got: ", spec_text.as_str());
                no_effects()
            },
            Some(s) => {
                jobs.skills = true;
                let mut w = "installing ".to_owned();
                w.append(spec_text.as_str());
                w.append("…");
                screen.status = w;
                one_effect(
                    Effect::InstallSkill { owner: s.owner, repo: s.repo, path: s.path },
                )
            },
        }
    }

    /// Has the selected skill removed.
    pub fn confirm_skill_remove(&mut self, screen: &mut Screen) -> (r: Vec<Effect>)
        ensures
            *final(self) == (SkillsPopup { mode: SkillsMode::Browse, ..*old(self) }),
            if old(self).selected < old(self).list@.len() {
                let skill = old(self).list@[old(self).selected as int];
                &&& says(*old(screen), *final(screen), "removed skill: "@ + skill.name@)
                &&& views(r@) == seq![
                    EffectView::RemoveSkill { dir: skill.dir@ },
                    EffectView::ReloadSkills,
                ]
            } else {
                *final(screen) == *old(screen) && views(r@) == Seq::<EffectView>::empty()
            },
    {
        self.mode = SkillsMode::Browse;
        if self.selected >= self.list.len() {
            return no_effects();
        }
        let skill = &self.list[self.selected];
        screen.status = concat("removed skill: ", skill.name.as_str());
        let r = and_effect(
            one_effect(Effect::RemoveSkill { dir: skill.dir.clone() }),
            Effect::ReloadSkills,
        );
        assert(views(r@) =~= seq![
            EffectView::RemoveSkill { dir: skill.dir@ },
            EffectView::ReloadSkills,
        ]);
        r
    }

    /// The directory of the selected skill, whose file is to be edited.
    pub fn skill_edit_path_for_selected(&self) -> (r: Option<String>)
        ensures
            r == (if self.selected < self.list@.len() {
                Some(self.list@[self.selected as int].dir)
            } else {
                None
            }),
    {
        if self.selected < self.list.len() {
            Some(self.list[self.selected].dir.clone())
        } else {
            None
        }
    }
}

/// A skill was fetched, or could not be.
pub fn on_skill_install_result(
    jobs: &mut Jobs,
    screen: &mut Screen,
    result: Option<Result<String, String>>,
) -> (r: Vec<Effect>)
    ensures
        *final(jobs) == (Jobs { skills: false, ..*old(jobs) }),
        match result {
            Some(Ok(name)) => says(
                *old(screen),
                *final(screen),
                "installed skill: "@ + name@,
            ) && views(r@) == seq![EffectView::ReloadSkills],
            Some(Err(e)) => says(
                *old(screen),
                *final(screen),
                "skill install failed: "@ + e@,
            ) && views(r@) == Seq::<EffectView>::empty(),
            None => *final(screen) == *old(screen) && views(r@) == Seq::<EffectView>::empty(),
        },
{
    jobs.skills = false;
    match result {
        Some(Ok(name)) => {
            screen.status = concat("installed skill: ", name.as_str());
            one_effect(Effect::ReloadSkills)
        },
        Some(Err(e)) => {
            screen.status = concat("skill install failed: ", e.as_str());
            no_effects()
        },
        None => no_effects(),
    }
}

} // verus!
