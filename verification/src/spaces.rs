//! The space picker, and switching between spaces.

use crate::app::App;
use crate::effects::{and_effect, no_effects, one_effect, Effect, EffectView};
use crate::ordering::{
    clamp_cursor, drop_rows, drop_scores, filtered_rows, in_order, keep_in, kept_in, moved, row_at,
    row_under, rows, scored, scores_without, shown_rows, without, Identified,
};
use crate::pipeline::concat;
use crate::sessions::is_blank_talk;
use crate::state::{Screen, SpacePicker, DEFAULT_SPACE};
use crate::store::Space;
use crate::text::{erase_last, erased, same, trim, trimmed, views};
use crate::ui::{Popup, SpaceMode};
use vstd::prelude::*;
use vstd::string::*;

verus! {

/// The first position of the space with an id.
pub open spec fn space_at(cache: Seq<Space>, id: Seq<char>, i: int) -> Option<int>
    decreases cache.len() - i,
{
    if i < 0 || i >= cache.len() {
        None
    } else if cache[i].id@ == id {
        Some(i)
    } else {
        space_at(cache, id, i + 1)
    }
}

fn position_of(cache: &Vec<Space>, id: &str) -> (r: Option<usize>)
    ensures
        match r {
            Some(i) => space_at(cache@, id@, 0) == Some(i as int) && i < cache@.len(),
            None => space_at(cache@, id@, 0) is None,
        },
{
    let mut i: usize = 0;
    while i < cache.len()
        invariant
            i <= cache@.len(),
            space_at(cache@, id@, 0) == space_at(cache@, id@, i as int),
        decreases cache@.len() - i,
    {
        if same(cache[i].id.as_str(), id) {
            return Some(i);
        }
        i += 1;
    }
    None
}

impl Identified for Space {
    open spec fn key(&self) -> Seq<char> {
        self.id@
    }

    fn key_text(&self) -> (r: &str) {
        self.id.as_str()
    }

    fn twin(&self) -> (r: Space) {
        self.clone()
    }
}

/// Whether some space has the name.
pub open spec fn name_taken(cache: Seq<Space>, name: Seq<char>) -> bool {
    exists|i: int| 0 <= i < cache.len() && (#[trigger] cache[i]).name@ == name
}

fn is_taken(cache: &Vec<Space>, name: &str) -> (r: bool)
    ensures
        r == name_taken(cache@, name@),
{
    let mut i: usize = 0;
    while i < cache.len()
        invariant
            i <= cache@.len(),
            forall|j: int| 0 <= j < i ==> (#[trigger] cache@[j]).name@ != name@,
        decreases cache@.len() - i,
    {
        if same(cache[i].name.as_str(), name) {
            return true;
        }
        i += 1;
    }
    false
}

impl SpacePicker {
    /// Whether `scores` fits the picker: where something is typed, there is a
    /// score for each space.
    pub open spec fn fits(&self, scores: Seq<Option<i32>>) -> bool {
        scored(self.filter@, self.cache@.len(), scores)
    }

    /// The rows that are shown.
    pub open spec fn shown(&self, scores: Seq<Option<i32>>) -> Seq<int> {
        shown_rows(self.filter@, self.cache@.len(), scores)
    }

    /// The row that the cursor is on.
    pub open spec fn row(&self, scores: Seq<Option<i32>>) -> Option<int> {
        row_at(self.filter@, self.cache@.len(), scores, self.selected as int)
    }

    /// The spaces that match what is typed, best first; all of them, in their
    /// order, where nothing is typed. `scores` holds the search score of each
    /// space, where something is typed.
    pub fn filtered_spaces(&self, scores: &Vec<Option<i32>>) -> (r: Vec<&Space>)
        requires
            self.fits(scores@),
        ensures
            r@ == rows(self.cache@, self.shown(scores@)).map_values(|s: Space| &s),
    {
        let order = filtered_rows(self.filter.as_str(), self.cache.len(), scores);
        in_order(&self.cache, &order)
    }

    /// The space that the cursor is on.
    pub fn selected_space(&self, scores: &Vec<Option<i32>>) -> (r: Option<Space>)
        requires
            self.fits(scores@),
        ensures
            match r {
                Some(s) => self.row(scores@) is Some && s == self.cache@[self.row(scores@)->0],
                None => self.row(scores@) is None,
            },
    {
        match row_under(self.filter.as_str(), self.cache.len(), scores, self.selected) {
            Some(i) => Some(self.cache[i].clone()),
            None => None,
        }
    }

    /// Moves the cursor.
    pub fn move_space_selection(&mut self, scores: &Vec<Option<i32>>, delta: i32)
        requires
            old(self).fits(scores@),
        ensures
            *final(self) == (SpacePicker {
                selected: moved(
                    old(self).selected as int,
                    old(self).shown(scores@).len() as int,
                    delta as int,
                ) as usize,
                ..*old(self)
            }),
    {
        let n: usize = filtered_rows(self.filter.as_str(), self.cache.len(), scores).len();
        self.selected = clamp_cursor(self.selected, n, delta);
    }

    /// A character is typed; the cursor goes to the top.
    pub fn space_filter_push(&mut self, c: char)
        ensures
            *final(self) == (SpacePicker {
                filter: final(self).filter,
                selected: 0,
                ..*old(self)
            }),
            final(self).filter@ == old(self).filter@.push(c),
    {
        self.filter.push(c);
        self.selected = 0;
    }

    /// A character is erased; the cursor goes to the top.
    pub fn space_filter_pop(&mut self)
        ensures
            *final(self) == (SpacePicker {
                filter: final(self).filter,
                selected: 0,
                ..*old(self)
            }),
            final(self).filter@ == erased(old(self).filter@),
    {
        erase_last(&mut self.filter);
        self.selected = 0;
    }

    /// Begins to name a new space.
    pub fn start_space_create(&mut self)
        ensures
            *final(self) == (SpacePicker {
                edit: final(self).edit,
                mode: SpaceMode::Create,
                ..*old(self)
            }),
            final(self).edit@ == Seq::<char>::empty(),
    {
        self.edit = String::new();
        self.mode = SpaceMode::Create;
    }

    /// Begins to rename the space under the cursor, with its name to edit. The
    /// default space keeps its name.
    pub fn start_space_rename(&mut self, scores: &Vec<Option<i32>>)
        requires
            old(self).fits(scores@),
        ensures
            match old(self).row(scores@) {
                Some(i) if old(self).cache@[i].name@ != DEFAULT_SPACE@ => *final(self)
                    == (SpacePicker {
                    edit: old(self).cache@[i].name,
                    mode: SpaceMode::Rename,
                    ..*old(self)
                }),
                _ => *final(self) == *old(self),
            },
    {
        if let Some(s) = self.selected_space(scores) {
            if !same(s.name.as_str(), DEFAULT_SPACE) {
                self.edit = s.name;
                self.mode = SpaceMode::Rename;
            }
        }
    }

    /// The name of the space that is to be created: what was typed, unless it
    /// is blank or taken.
    pub open spec fn new_name(&self) -> Option<Seq<char>> {
        let name = trim(self.edit@);
        if name.len() == 0 || name_taken(self.cache@, name) { None } else { Some(name) }
    }

    /// The name of the space that is to be created.
    pub fn space_to_create(&self) -> (r: Option<String>)
        ensures
            crate::text::opt_text(r) == self.new_name(),
    {
        let name = trimmed(self.edit.as_str());
        if name.is_empty() || is_taken(&self.cache, name) {
            None
        } else {
            Some(name.to_owned())
        }
    }

    /// Ends the naming of a new space. `created` is the row of the space that
    /// was to be created; where the store could not create it, nothing
    /// changes. A name that is blank or taken creates nothing.
    pub fn confirm_space_create(&mut self, created: Option<Space>)
        requires
            old(self).cache@.len() < usize::MAX,
        ensures
            match (old(self).new_name(), created) {
                (None, _) => *final(self) == (SpacePicker {
                    mode: SpaceMode::Browse,
                    ..*old(self)
                }),
                (Some(_), None) => *final(self) == *old(self),
                (Some(_), Some(s)) => *final(self) == (SpacePicker {
                    cache: final(self).cache,
                    selected: old(self).cache@.len() as usize,
                    mode: SpaceMode::Browse,
                    ..*old(self)
                }) && final(self).cache@ == old(self).cache@.push(s),
            },
    {
        if self.space_to_create().is_some() {
            match created {
                None => {
                    return;
                },
                Some(s) => {
                    self.cache.push(s);
                    self.selected = self.cache.len() - 1;
                },
            }
        }
        self.mode = SpaceMode::Browse;
    }

    /// Gives the first space with the id a name.
    fn rename_row(&mut self, id: &str, name: &String)
        ensures
            *final(self) == (SpacePicker { cache: final(self).cache, ..*old(self) }),
            is_renamed(old(self).cache@, id@, name@, final(self).cache@),
    {
        if let Some(i) = position_of(&self.cache, id) {
            let mut s = self.cache[i].clone();
            s.name = name.clone();
            self.cache.set(i, s);
        }
    }

    /// Drops the spaces with the id.
    fn drop_row(&mut self, id: &str)
        ensures
            *final(self) == (SpacePicker { cache: final(self).cache, ..*old(self) }),
            final(self).cache@ == without(old(self).cache@, id@),
    {
        self.cache = drop_rows(&self.cache, id);
    }
}

/// Whether `after` holds the spaces with another name for the first one that
/// has the id.
pub open spec fn is_renamed(
    before: Seq<Space>,
    id: Seq<char>,
    name: Seq<char>,
    after: Seq<Space>,
) -> bool {
    match space_at(before, id, 0) {
        Some(i) => after == before.update(i, Space { name: after[i].name, ..before[i] })
            && after[i].name@ == name,
        None => after == before,
    }
}

/// What follows from a switch to another space.
pub open spec fn switch_effects() -> Seq<EffectView> {
    seq![EffectView::DropImages, EffectView::RescanFiles, EffectView::RefreshToolbox]
}

/// What follows from a new name of a space: the server of apps, where it runs,
/// has to know it, and the tools where the space is the active one.
pub open spec fn renaming(server: bool, active: bool, from: Seq<char>, to: Seq<char>) -> Seq<
    EffectView,
> {
    let apps = if server {
        seq![EffectView::RenameApps { from, to }]
    } else {
        Seq::empty()
    };
    if active { apps.push(EffectView::RefreshToolbox) } else { apps }
}

fn rename_effects(server: bool, active: bool, from: String, to: String) -> (r: Vec<Effect>)
    ensures
        views(r@) == renaming(server, active, from@, to@),
{
    let apps = if server {
        one_effect(Effect::RenameApps { from, to })
    } else {
        no_effects()
    };
    if active {
        and_effect(apps, Effect::RefreshToolbox)
    } else {
        apps
    }
}

/// The space that was to be switched to does not exist.
pub struct NoDefaultSpace {}

/// What the choice of the space under the cursor changes and asks for.
pub open spec fn space_confirmed(
    before: App,
    after: App,
    effects: Seq<EffectView>,
    scores: Seq<Option<i32>>,
) -> bool {
    match before.spaces.row(scores) {
        None => after == (App {
            screen: Screen { popup: Popup::Closed, ..before.screen },
            ..before
        }) && effects == Seq::<EffectView>::empty(),
        Some(i) => {
            &&& after == (App {
                active_space: before.spaces.cache@[i],
                talk: after.talk,
                screen: Screen {
                    scroll: 0,
                    status: after.screen.status,
                    popup: Popup::Closed,
                    ..before.screen
                },
                ..before
            })
            &&& is_blank_talk(after.talk)
            &&& after.screen.status@ == "space: "@
                + before.spaces.cache@[i].name@
            &&& effects == switch_effects()
        },
    }
}

/// What a new name for the space under the cursor changes and asks for.
pub open spec fn space_renamed(
    before: App,
    after: App,
    effects: Seq<EffectView>,
    scores: Seq<Option<i32>>,
    stored: bool,
) -> bool {
    let name = trim(before.spaces.edit@);
    match before.spaces.row(scores) {
        Some(i) if name.len() > 0 => if !stored {
            after == before && effects == Seq::<EffectView>::empty()
        } else {
            let s = before.spaces.cache@[i];
            let active = before.active_space.id@ == s.id@;
            &&& after == (App {
                spaces: SpacePicker {
                    cache: after.spaces.cache,
                    mode: SpaceMode::Browse,
                    ..before.spaces
                },
                active_space: Space {
                    name: after.active_space.name,
                    ..before.active_space
                },
                ..before
            })
            &&& is_renamed(
                before.spaces.cache@,
                s.id@,
                name,
                after.spaces.cache@,
            )
            &&& if active {
                after.active_space.name@ == name
            } else {
                after.active_space == before.active_space
            }
            &&& effects == renaming(before.app_server, active, s.name@, name)
        },
        _ => after == (App {
            spaces: SpacePicker { mode: SpaceMode::Browse, ..before.spaces },
            ..before
        }) && effects == Seq::<EffectView>::empty(),
    }
}

impl App {
    /// Opens the space picker on all spaces, with the cursor on the active
    /// one.
    pub fn open_space_picker(&mut self, list: Vec<Space>)
        ensures
            *final(self) == (App {
                spaces: SpacePicker {
                    cache: list,
                    selected: (match space_at(list@, old(self).active_space.id@, 0) {
                        Some(i) => i,
                        None => 0,
                    }) as usize,
                    filter: final(self).spaces.filter,
                    mode: SpaceMode::Browse,
                    ..old(self).spaces
                },
                screen: Screen { popup: Popup::Space, ..old(self).screen },
                ..*old(self)
            }),
            final(self).spaces.filter@ == Seq::<char>::empty(),
    {
        let at: usize = match position_of(&list, self.active_space.id.as_str()) {
            Some(i) => i,
            None => 0,
        };
        self.spaces.cache = list;
        self.spaces.selected = at;
        self.spaces.filter = String::new();
        self.spaces.mode = SpaceMode::Browse;
        self.screen.popup = Popup::Space;
    }

    /// Switches to a space and leaves the conversation: a session belongs to
    /// one space.
    pub fn set_active_space(&mut self, row: Space) -> (r: Vec<Effect>)
        ensures
            *final(self) == (App {
                active_space: row,
                talk: final(self).talk,
                screen: Screen {
                    scroll: 0,
                    status: final(self).screen.status,
                    ..old(self).screen
                },
                ..*old(self)
            }),
            is_blank_talk(final(self).talk),
            final(self).screen.status@ == "space: "@ + row.name@,
            views(r@) == switch_effects(),
    {
        self.leave_conversation();
        self.screen.status = concat("space: ", row.name.as_str());
        self.active_space = row;
        let r = and_effect(
            and_effect(one_effect(Effect::DropImages), Effect::RescanFiles),
            Effect::RefreshToolbox,
        );
        assert(views(r@) =~= switch_effects());
        r
    }

    /// Switches to the default space, which has the id, among all spaces.
    /// Where it is missing, nothing changes.
    pub fn switch_to_default_space(
        &mut self,
        list: &Vec<Space>,
        default_id: &str,
    ) -> (r: Result<Vec<Effect>, NoDefaultSpace>)
        ensures
            match space_at(list@, default_id@, 0) {
                None => r is Err && *final(self) == *old(self),
                Some(i) => {
                    &&& r matches Ok(effects)
                    &&& views((r->Ok_0)@) == switch_effects()
                    &&& *final(self) == (App {
                        active_space: list@[i],
                        talk: final(self).talk,
                        screen: Screen {
                            scroll: 0,
                            status: final(self).screen.status,
                            ..old(self).screen
                        },
                        ..*old(self)
                    })
                    &&& is_blank_talk(final(self).talk)
                    &&& final(self).screen.status@ == "space: "@ + list@[i].name@
                },
            },
    {
        match position_of(list, default_id) {
            None => Err(NoDefaultSpace {  }),
            Some(i) => Ok(self.set_active_space(list[i].clone())),
        }
    }

    /// Renames the space under the cursor to what was typed, in the picker and
    /// where it is active; a blank name renames nothing. `stored` says whether
    /// the store and the disk have taken the name (see `space_to_rename`); where
    /// they have not, nothing changes.
    pub fn confirm_space_rename(&mut self, scores: &Vec<Option<i32>>, stored: bool) -> (r: Vec<
        Effect,
    >)
        requires
            old(self).spaces.fits(scores@),
        ensures
            space_renamed(*old(self), *final(self), views(r@), scores@, stored),
    {
        let name = trimmed(self.spaces.edit.as_str()).to_owned();
        let mut effects = no_effects();
        if !name.as_str().is_empty() {
            if let Some(s) = self.spaces.selected_space(scores) {
                if !stored {
                    return effects;
                }
                self.spaces.rename_row(s.id.as_str(), &name);
                let active = self.rename_active(s.id.as_str(), &name);
                effects = rename_effects(self.app_server, active, s.name, name);
            }
        }
        self.spaces.mode = SpaceMode::Browse;
        effects
    }

    /// Gives the active space a name, where it has the id.
    fn rename_active(&mut self, id: &str, name: &String) -> (r: bool)
        ensures
            *final(self) == (App {
                active_space: Space {
                    name: final(self).active_space.name,
                    ..old(self).active_space
                },
                ..*old(self)
            }),
            r == (old(self).active_space.id@ == id@),
            if r {
                final(self).active_space.name@ == name@
            } else {
                final(self).active_space == old(self).active_space
            },
    {
        if same(self.active_space.id.as_str(), id) {
            self.active_space.name = name.clone();
            true
        } else {
            false
        }
    }

    /// Where the cursor is once the picker shows what is left.
    fn settle_space_cursor(&mut self, scores: &Vec<Option<i32>>)
        requires
            old(self).spaces.fits(scores@),
        ensures
            *final(self) == (App {
                spaces: SpacePicker {
                    mode: SpaceMode::Browse,
                    selected: kept_in(
                        old(self).spaces.selected as int,
                        old(self).spaces.shown(scores@).len() as int,
                    ) as usize,
                    ..old(self).spaces
                },
                ..*old(self)
            }),
    {
        let n: usize = filtered_rows(
            self.spaces.filter.as_str(),
            self.spaces.cache.len(),
            scores,
        ).len();
        self.spaces.mode = SpaceMode::Browse;
        self.spaces.selected = keep_in(self.spaces.selected, n);
    }

    /// Deletes the space under the cursor; the default space stays. Where it
    /// was the active one, the client switches to the default space, which has
    /// the id `default_id` among all spaces that are left in the store.
    /// `deleted` says whether the store and the disk have dropped the space (see
    /// `space_to_delete`); where they have not, nothing changes.
    pub fn confirm_space_delete(
        &mut self,
        scores: &Vec<Option<i32>>,
        deleted: bool,
        list: &Vec<Space>,
        default_id: &str,
    ) -> (r: Result<Vec<Effect>, NoDefaultSpace>)
        requires
            old(self).spaces.fits(scores@),
        ensures
            match old(self).spaces.row(scores@) {
                Some(i) if old(self).spaces.cache@[i].name@ != DEFAULT_SPACE@ => {
                    let s = old(self).spaces.cache@[i];
                    let left = without(old(self).spaces.cache@, s.id@);
                    let active = old(self).active_space.id@ == s.id@;
                    let cursor = kept_in(
                        old(self).spaces.selected as int,
                        shown_rows(
                            old(self).spaces.filter@,
                            left.len(),
                            scores_without(old(self).spaces.cache@, scores@, s.id@),
                        ).len() as int,
                    );
                    if !deleted {
                        &&& *final(self) == *old(self)
                        &&& r matches Ok(effects)
                        &&& views((r->Ok_0)@) == Seq::<EffectView>::empty()
                    } else if active && space_at(list@, default_id@, 0) is None {
                        &&& r is Err
                        &&& *final(self) == (App {
                            spaces: SpacePicker {
                                cache: final(self).spaces.cache,
                                ..old(self).spaces
                            },
                            ..*old(self)
                        })
                        &&& final(self).spaces.cache@ == left
                    } else {
                        &&& r matches Ok(effects)
                        &&& views((r->Ok_0)@) == (if active {
                            switch_effects()
                        } else {
                            Seq::empty()
                        })
                        &&& *final(self) == (App {
                            spaces: SpacePicker {
                                cache: final(self).spaces.cache,
                                mode: SpaceMode::Browse,
                                selected: cursor as usize,
                                ..old(self).spaces
                            },
                            active_space: if active {
                                list@[space_at(list@, default_id@, 0)->0]
                            } else {
                                old(self).active_space
                            },
                            talk: final(self).talk,
                            screen: Screen {
                                scroll: if active { 0 } else { old(self).screen.scroll },
                                status: final(self).screen.status,
                                ..old(self).screen
                            },
                            ..*old(self)
                        })
                        &&& final(self).spaces.cache@ == left
                        &&& if active {
                            is_blank_talk(final(self).talk)
                        } else {
                            final(self).talk == old(self).talk
                        }
                        &&& final(self).screen.status@ == "deleted space: "@ + s.name@
                    }
                },
                _ => {
                    &&& r matches Ok(effects)
                    &&& views((r->Ok_0)@) == Seq::<EffectView>::empty()
                    &&& *final(self) == (App {
                        spaces: SpacePicker {
                            mode: SpaceMode::Browse,
                            selected: kept_in(
                                old(self).spaces.selected as int,
                                old(self).spaces.shown(scores@).len() as int,
                            ) as usize,
                            ..old(self).spaces
                        },
                        ..*old(self)
                    })
                },
            },
    {
        let mut effects = no_effects();
        if let Some(s) = self.spaces.selected_space(scores) {
            if !same(s.name.as_str(), DEFAULT_SPACE) {
                if !deleted {
                    return Ok(effects);
                }
                let left = if trimmed(self.spaces.filter.as_str()).is_empty() {
                    Vec::new()
                } else {
                    drop_scores(&self.spaces.cache, scores, s.id.as_str())
                };
                self.spaces.drop_row(s.id.as_str());
                if same(self.active_space.id.as_str(), s.id.as_str()) {
                    match self.switch_to_default_space(list, default_id) {
                        Ok(e) => {
                            effects = e;
                        },
                        Err(e) => {
                            return Err(e);
                        },
                    }
                }
                self.screen.status = concat("deleted space: ", s.name.as_str());
                self.settle_space_cursor(&left);
                return Ok(effects);
            }
        }
        self.settle_space_cursor(scores);
        Ok(effects)
    }

    /// Switches to the space under the cursor and closes the picker.
    pub fn confirm_space(&mut self, scores: &Vec<Option<i32>>) -> (r: Vec<Effect>)
        requires
            old(self).spaces.fits(scores@),
        ensures
            space_confirmed(*old(self), *final(self), views(r@), scores@),
    {
        let selected = self.spaces.selected_space(scores);
        self.screen.popup = Popup::Closed;
        match selected {
            Some(s) => self.set_active_space(s),
            None => no_effects(),
        }
    }
}

/// What a new file of instructions of a space holds.
pub fn instructions_stub(name: &str) -> (r: String)
    ensures
        r@ == "<!-- instructions for the \""@ + name@ + "\" space -->\n"@,
{
    let mut s = "<!-- instructions for the \"".to_owned();
    s.append(name);
    s.append("\" space -->\n");
    s
}

/// What a new memory file of a space holds.
pub fn memory_stub(name: &str) -> (r: String)
    ensures
        r@ == "<!-- memory for the \""@ + name@
            + "\" space — numbered facts, one per line -->\n"@,
{
    let mut s = "<!-- memory for the \"".to_owned();
    s.append(name);
    s.append("\" space — numbered facts, one per line -->\n");
    s
}

} // verus!
