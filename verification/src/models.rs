//! The model catalog: which backend serves a feature, the panels of the model
//! picker, and picks.

use crate::backends::{composite, composite_id, Backend, BackendTag, Model};
use crate::ordering::{
    as_ints, clamp_cursor, copied_in_order, in_order, key_order, key_order_is_sorted, moved,
    ordered, rows,
};
use crate::state::Catalog;
use crate::text::{contains, find_char, found_char, has, lower, lowered, opt_text, pairs, same};
use crate::ui::{ModelPanel, ModelPickTarget};
use vstd::prelude::*;
use vstd::string::*;

verus! {

/// A feature that has a model of its own in each backend.
#[derive(Clone, Copy, PartialEq, Eq, Structural)]
pub enum Feature {
    Utility,
    Research,
}

/// The model that a backend has for a feature.
pub open spec fn feature_model(b: Backend, f: Feature) -> Seq<char> {
    match f {
        Feature::Utility => b.utility_model@,
        Feature::Research => b.research_model@,
    }
}

impl Catalog {
    /// Whether a model id that was resolved looks right: it is in the catalog,
    /// or, while there is no catalog, it is OpenRouter's or has no slash.
    pub open spec fn looks_valid(&self, id: Seq<char>, tag: BackendTag, raw: Seq<char>) -> bool {
        if self.models@.len() == 0 {
            tag == BackendTag::OpenRouter || find_char(id, '/') is None
        } else {
            exists|i: int|
                0 <= i < self.models@.len() && (#[trigger] self.models@[i]).backend == tag
                    && self.models@[i].id@ == raw
        }
    }

    pub(crate) fn resolved_model_looks_valid(&self, id: &str, tag: BackendTag, raw: &str) -> (r: bool)
        ensures
            r == self.looks_valid(id@, tag, raw@),
    {
        if self.models.len() == 0 {
            return tag == BackendTag::OpenRouter || found_char(id, '/').is_none();
        }
        let mut i: usize = 0;
        while i < self.models.len()
            invariant
                i <= self.models@.len(),
                forall|j: int|
                    0 <= j < i ==> !((#[trigger] self.models@[j]).backend == tag
                        && self.models@[j].id@ == raw@),
            decreases self.models@.len() - i,
        {
            if self.models[i].backend == tag && same(self.models[i].id.as_str(), raw) {
                return true;
            }
            i += 1;
        }
        false
    }

    /// Whether a model is listed in a panel: it belongs to the backend that is
    /// shown, can do what the pick is for, is a favorite or not as the panel
    /// wants, and holds what is typed in its id or its name.
    pub open spec fn listed(&self, m: Model, want_fav: bool) -> bool {
        let typed = lower(self.filter@);
        &&& match self.backend_filter {
            Some(tag) => m.backend == tag,
            None => true,
        }
        &&& self.target == ModelPickTarget::ImageGen ==> m.supports_image_generation
        &&& self.target == ModelPickTarget::VideoGen ==> m.supports_video_generation
        &&& self.favorites@.contains(composite(m)) == want_fav
        &&& typed.len() == 0 || contains(lower(m.id@), typed) || contains(lower(m.name@), typed)
    }

    /// The rows of the first `n` models that are listed in a panel.
    pub open spec fn candidates(&self, want_fav: bool, n: nat) -> Seq<int>
        decreases n,
    {
        if n == 0 {
            Seq::empty()
        } else if self.listed(self.models@[n - 1], want_fav) {
            self.candidates(want_fav, (n - 1) as nat).push(n - 1)
        } else {
            self.candidates(want_fav, (n - 1) as nat)
        }
    }

    /// What a model is ordered by: when it was used last, and its id.
    pub open spec fn sort_key(&self, m: Model) -> (Seq<char>, Seq<char>) {
        let id = composite(m);
        (
            if self.last_used@.contains_key(id) { self.last_used@[id] } else { Seq::empty() },
            id,
        )
    }

    /// The rows of a panel: those listed, the most recently used first, then by
    /// id.
    pub open spec fn panel(&self, want_fav: bool) -> Seq<int> {
        let c = self.candidates(want_fav, self.models@.len());
        rows(c, ordered(c.map_values(|i: int| self.sort_key(self.models@[i]))))
    }

    fn is_listed(&self, m: &Model, typed: &str, want_fav: bool) -> (r: bool)
        requires
            typed@ == lower(self.filter@),
        ensures
            r == self.listed(*m, want_fav),
    {
        if let Some(tag) = self.backend_filter {
            if m.backend != tag {
                return false;
            }
        }
        if self.target == ModelPickTarget::ImageGen && !m.supports_image_generation {
            return false;
        }
        if self.target == ModelPickTarget::VideoGen && !m.supports_video_generation {
            return false;
        }
        if self.favorites.contains(composite_id(m).as_str()) != want_fav {
            return false;
        }
        typed.is_empty() || has(lowered(m.id.as_str()).as_str(), typed) || has(
            lowered(m.name.as_str()).as_str(),
            typed,
        )
    }

    fn key_of(&self, m: &Model) -> (r: (String, String))
        requires
            self.wf(),
        ensures
            (r.0@, r.1@) == self.sort_key(*m),
    {
        let id = composite_id(m);
        let used = match self.last_used.get(id.as_str()) {
            Some(t) => t.clone(),
            None => String::new(),
        };
        (used, id)
    }

    /// The rows of a panel.
    pub fn filtered_panel(&self, want_fav: bool) -> (r: Vec<usize>)
        requires
            self.wf(),
        ensures
            as_ints(r@) == self.panel(want_fav),
            r@.len() == self.panel(want_fav).len(),
            r@.len() <= self.models@.len(),
            forall|k: int| 0 <= k < r@.len() ==> #[trigger] r@[k] < self.models@.len(),
    {
        let typed = lowered(self.filter.as_str());
        let mut found: Vec<usize> = Vec::new();
        let mut keys: Vec<(String, String)> = Vec::new();
        let mut i: usize = 0;
        let ghost key = |k: int| self.sort_key(self.models@[k]);
        assert(as_ints(found@) =~= Seq::empty());
        assert(pairs(keys@) =~= Seq::<int>::empty().map_values(key));
        while i < self.models.len()
            invariant
                i <= self.models@.len(),
                self.wf(),
                typed@ == lower(self.filter@),
                key == (|k: int| self.sort_key(self.models@[k])),
                as_ints(found@) == self.candidates(want_fav, i as nat),
                found@.len() == keys@.len() <= i,
                forall|k: int| 0 <= k < found@.len() ==> #[trigger] found@[k] < i,
                pairs(keys@) == self.candidates(want_fav, i as nat).map_values(key),
            decreases self.models@.len() - i,
        {
            let m = &self.models[i];
            if self.is_listed(m, typed.as_str(), want_fav) {
                let ghost f = found@;
                let ghost ks = keys@;
                found.push(i);
                let k = self.key_of(m);
                keys.push(k);
                assert(as_ints(found@) =~= as_ints(f).push(i as int));
                assert(pairs(keys@) =~= pairs(ks).push((k.0@, k.1@)));
                assert(self.candidates(want_fav, (i + 1) as nat).map_values(key) =~= pairs(
                    ks,
                ).push(key(i as int)));
            }
            i += 1;
        }
        let ghost c = self.candidates(want_fav, self.models@.len());
        assert(c.map_values(|k: int| self.sort_key(self.models@[k])) =~= c.map_values(key));
        let order = key_order(&keys);
        let out = copied_in_order(&found, &order);
        proof {
            let o = as_ints(order@);
            assert forall|k: int| 0 <= k < out@.len() implies #[trigger] out@[k]
                < self.models@.len() && as_ints(out@)[k] == c[o[k]] by {
                assert(o[k] == order@[k]);
                assert(out@[k] == found@[o[k]]);
                assert(as_ints(found@)[o[k]] == found@[o[k]]);
            }
            assert(as_ints(out@) =~= rows(c, o));
        }
        out
    }

    /// The favorites that match the search, most recently used first.
    pub fn favorite_models(&self) -> (r: Vec<&Model>)
        requires
            self.wf(),
        ensures
            r@ == rows(self.models@, self.panel(true)).map_values(|m: Model| &m),
    {
        in_order(&self.models, &self.filtered_panel(true))
    }

    /// The other models that match the search, most recently used first.
    pub fn available_models(&self) -> (r: Vec<&Model>)
        requires
            self.wf(),
        ensures
            r@ == rows(self.models@, self.panel(false)).map_values(|m: Model| &m),
    {
        in_order(&self.models, &self.filtered_panel(false))
    }

    /// The rows of a panel.
    pub open spec fn rows_of(&self, panel: ModelPanel) -> Seq<int> {
        self.panel(panel == ModelPanel::Favorites)
    }

    fn panel_len(&self, panel: ModelPanel) -> (r: usize)
        requires
            self.wf(),
        ensures
            r == self.rows_of(panel).len(),
    {
        match panel {
            ModelPanel::Favorites => self.filtered_panel(true).len(),
            ModelPanel::Available => self.filtered_panel(false).len(),
        }
    }

    /// The row that is selected in a panel.
    pub open spec fn state_of(&self, panel: ModelPanel) -> Option<usize> {
        match panel {
            ModelPanel::Favorites => self.fav_state,
            ModelPanel::Available => self.avail_state,
        }
    }

    /// The state with another row selected in a panel.
    pub open spec fn with_state(&self, panel: ModelPanel, row: Option<usize>) -> Catalog {
        match panel {
            ModelPanel::Favorites => Catalog { fav_state: row, ..*self },
            ModelPanel::Available => Catalog { avail_state: row, ..*self },
        }
    }

    pub(crate) fn select(&mut self, panel: ModelPanel, row: Option<usize>)
        ensures
            *final(self) == old(self).with_state(panel, row),
    {
        match panel {
            ModelPanel::Favorites => {
                self.fav_state = row;
            },
            ModelPanel::Available => {
                self.avail_state = row;
            },
        }
    }

    fn selected_in(&self, panel: ModelPanel) -> (r: usize)
        ensures
            r == (match self.state_of(panel) {
                Some(i) => i,
                None => 0,
            }),
    {
        let s = match panel {
            ModelPanel::Favorites => self.fav_state,
            ModelPanel::Available => self.avail_state,
        };
        match s {
            Some(i) => i,
            None => 0,
        }
    }

    /// The id of the model at a row of a panel.
    pub open spec fn id_in(&self, panel: ModelPanel, index: int) -> Option<Seq<char>> {
        if 0 <= index < self.rows_of(panel).len() {
            Some(composite(self.models@[self.rows_of(panel)[index]]))
        } else {
            None
        }
    }

    /// The id of the model at a row of a panel.
    pub fn id_at(&self, panel: ModelPanel, index: usize) -> (r: Option<String>)
        requires
            self.wf(),
        ensures
            opt_text(r) == self.id_in(panel, index as int),
    {
        let order = self.filtered_panel(panel == ModelPanel::Favorites);
        if index < order.len() {
            assert(as_ints(order@)[index as int] == order@[index as int]);
            Some(composite_id(&self.models[order[index]]))
        } else {
            None
        }
    }

    /// The row that is selected in the focused panel, the first where none is.
    pub open spec fn focus_row(&self) -> int {
        match self.state_of(self.focus) {
            Some(i) => i as int,
            None => 0,
        }
    }

    /// The id of the model that is selected in the focused panel.
    pub open spec fn focused(&self) -> Option<Seq<char>> {
        self.id_in(self.focus, self.focus_row())
    }

    /// The id of the model that is selected in the focused panel.
    pub fn focused_id(&self) -> (r: Option<String>)
        requires
            self.wf(),
        ensures
            opt_text(r) == self.focused(),
    {
        self.id_at(self.focus, self.selected_in(self.focus))
    }

    /// Selects the first row of each panel, or nothing where it is empty.
    pub fn reset_model_selection(&mut self)
        requires
            old(self).wf(),
        ensures
            *final(self) == (Catalog {
                fav_state: first_row(old(self).panel(true).len()),
                avail_state: first_row(old(self).panel(false).len()),
                ..*old(self)
            }),
    {
        let fav: usize = self.filtered_panel(true).len();
        let avail: usize = self.filtered_panel(false).len();
        self.fav_state = if fav == 0 { None } else { Some(0) };
        self.avail_state = if avail == 0 { None } else { Some(0) };
    }

    /// Moves the cursor of the focused panel.
    pub fn move_model_selection(&mut self, delta: i32)
        requires
            old(self).wf(),
        ensures
            ({
                let n = old(self).rows_of(old(self).focus).len() as int;
                *final(self) == if n == 0 {
                    *old(self)
                } else {
                    old(self).with_state(
                        old(self).focus,
                        Some(moved(old(self).focus_row(), n, delta as int) as usize),
                    )
                }
            }),
    {
        let n: usize = self.panel_len(self.focus);
        if n == 0 {
            return;
        }
        let next: usize = clamp_cursor(self.selected_in(self.focus), n, delta);
        self.select(self.focus, Some(next));
    }

    /// Moves the focus to the other panel.
    pub fn toggle_model_focus(&mut self)
        ensures
            *final(self) == (Catalog {
                focus: match old(self).focus {
                    ModelPanel::Favorites => ModelPanel::Available,
                    ModelPanel::Available => ModelPanel::Favorites,
                },
                ..*old(self)
            }),
    {
        self.focus = match self.focus {
            ModelPanel::Favorites => ModelPanel::Available,
            ModelPanel::Available => ModelPanel::Favorites,
        };
    }

    /// Keeps the cursor of a panel in it.
    pub(crate) fn clamp_selection(&mut self, panel: ModelPanel)
        requires
            old(self).wf(),
        ensures
            *final(self) == old(self).with_state(
                panel,
                kept_row(old(self).state_of(panel), old(self).rows_of(panel).len()),
            ),
            final(self).wf(),
    {
        let n: usize = self.panel_len(panel);
        if n == 0 {
            self.select(panel, None);
        } else {
            let at: usize = self.selected_in(panel);
            self.select(panel, Some(if at > n - 1 { n - 1 } else { at }));
        }
    }

    /// The first model with the id.
    pub open spec fn model_at(&self, id: Seq<char>, i: int) -> Option<Model>
        decreases self.models@.len() - i,
    {
        if i < 0 || i >= self.models@.len() {
            None
        } else if composite(self.models@[i]) == id {
            Some(self.models@[i])
        } else {
            self.model_at(id, i + 1)
        }
    }

    /// The context window of the active model, where it is known.
    pub open spec fn limit(&self) -> Option<u64> {
        match self.current {
            Some(id) => match self.model_at(id@, 0) {
                Some(m) => m.context_length,
                None => None,
            },
            None => None,
        }
    }

    /// The context window of the active model, where it is known.
    pub fn context_limit(&self) -> (r: Option<u64>)
        ensures
            r == self.limit(),
    {
        match &self.current {
            None => None,
            Some(id) => {
                let mut i: usize = 0;
                while i < self.models.len()
                    invariant
                        i <= self.models@.len(),
                        self.current == Some(*id),
                        self.model_at(id@, 0) == self.model_at(id@, i as int),
                    decreases self.models@.len() - i,
                {
                    if same(composite_id(&self.models[i]).as_str(), id.as_str()) {
                        return self.models[i].context_length;
                    }
                    i += 1;
                }
                None
            },
        }
    }

    /// Whether some model with the id has a reasoning effort.
    pub open spec fn reasons(&self, id: Seq<char>) -> bool {
        exists|i: int|
            0 <= i < self.models@.len() && composite(#[trigger] self.models@[i]) == id
                && self.models@[i].supports_reasoning
    }

    /// Whether a model has a reasoning effort.
    pub fn model_supports_reasoning(&self, id: &str) -> (r: bool)
        ensures
            r == self.reasons(id@),
    {
        let mut i: usize = 0;
        while i < self.models.len()
            invariant
                i <= self.models@.len(),
                forall|j: int|
                    0 <= j < i ==> !(composite(#[trigger] self.models@[j]) == id@
                        && self.models@[j].supports_reasoning),
            decreases self.models@.len() - i,
        {
            if self.models[i].supports_reasoning && same(
                composite_id(&self.models[i]).as_str(),
                id,
            ) {
                return true;
            }
            i += 1;
        }
        false
    }

    /// Whether the active model takes images; one that is not known does not.
    pub open spec fn sees_images(&self) -> bool {
        self.current matches Some(id) && exists|i: int|
            0 <= i < self.models@.len() && composite(#[trigger] self.models@[i]) == id@
                && self.models@[i].supports_images
    }

    /// Whether the active model takes images.
    pub fn current_model_supports_images(&self) -> (r: bool)
        ensures
            r == self.sees_images(),
    {
        match &self.current {
            None => false,
            Some(id) => {
                let mut i: usize = 0;
                while i < self.models.len()
                    invariant
                        i <= self.models@.len(),
                        self.current == Some(*id),
                        forall|j: int|
                            0 <= j < i ==> !(composite(#[trigger] self.models@[j]) == id@
                                && self.models@[j].supports_images),
                    decreases self.models@.len() - i,
                {
                    if self.models[i].supports_images && same(
                        composite_id(&self.models[i]).as_str(),
                        id.as_str(),
                    ) {
                        return true;
                    }
                    i += 1;
                }
                false
            },
        }
    }

    /// The reasoning effort of a model.
    pub fn reasoning_of(&self, id: &str) -> (r: Option<&String>)
        requires
            self.wf(),
        ensures
            match r {
                Some(e) => self.reasoning@.contains_key(id@) && self.reasoning@[id@] == e@,
                None => !self.reasoning@.contains_key(id@),
            },
    {
        self.reasoning.get(id)
    }

    /// The reasoning effort after the one that a model has: none, low, medium,
    /// high, and none again.
    pub open spec fn effort_after(&self, id: Seq<char>) -> Option<Seq<char>> {
        if !self.reasoning@.contains_key(id) {
            Some("low"@)
        } else if self.reasoning@[id] == "low"@ {
            Some("medium"@)
        } else if self.reasoning@[id] == "medium"@ {
            Some("high"@)
        } else {
            None
        }
    }

    /// The reasoning effort after the one that a model has.
    pub fn next_effort(&self, id: &str) -> (r: Option<&'static str>)
        requires
            self.wf(),
        ensures
            match r {
                Some(e) => self.effort_after(id@) == Some(e@),
                None => self.effort_after(id@) is None,
            },
    {
        match self.reasoning.get(id) {
            None => Some("low"),
            Some(e) => {
                if same(e.as_str(), "low") {
                    Some("medium")
                } else if same(e.as_str(), "medium") {
                    Some("high")
                } else {
                    None
                }
            },
        }
    }
}

/// The first row of a list, where it has one.
pub open spec fn first_row(n: nat) -> Option<usize> {
    if n == 0 { None } else { Some(0usize) }
}

/// Where a cursor is once the list has `n` rows.
pub open spec fn kept_row(row: Option<usize>, n: nat) -> Option<usize> {
    if n == 0 {
        None
    } else {
        let at = match row {
            Some(i) => i,
            None => 0,
        };
        Some(if at > n - 1 { (n - 1) as usize } else { at })
    }
}

/// What each row of a panel is: a model that is listed, in the right order, and
/// every such model.
pub proof fn panel_shows_the_listed(c: Catalog, want_fav: bool)
    ensures
        forall|i: int|
            0 <= i < c.models@.len() ==> (#[trigger] c.panel(want_fav).contains(i) <==> c.listed(
                c.models@[i],
                want_fav,
            )),
        c.panel(want_fav).len() <= c.models@.len(),
        forall|k: int|
            0 <= k < c.panel(want_fav).len() ==> 0 <= #[trigger] c.panel(want_fav)[k]
                < c.models@.len(),
{
    let n = c.models@.len();
    let cand = c.candidates(want_fav, n);
    candidates_are_listed(c, want_fav, n);
    let keys = cand.map_values(|i: int| c.sort_key(c.models@[i]));
    key_order_is_sorted(keys);
    let o = ordered(keys);
    let p = c.panel(want_fav);
    assert forall|k: int| 0 <= k < p.len() implies 0 <= #[trigger] p[k] < n && cand.contains(p[k]) by {
        assert(o.contains(o[k]));
        assert(p[k] == cand[o[k]]);
    }
    assert forall|i: int| 0 <= i < n implies (#[trigger] p.contains(i) <==> c.listed(
        c.models@[i],
        want_fav,
    )) by {
        if p.contains(i) {
            let k = choose|k: int| 0 <= k < p.len() && p[k] == i;
            assert(cand.contains(p[k]));
        }
        if c.listed(c.models@[i], want_fav) {
            assert(cand.contains(i));
            let m = choose|m: int| 0 <= m < cand.len() && cand[m] == i;
            assert(o.contains(m));
            let k = choose|k: int| 0 <= k < o.len() && o[k] == m;
            assert(p[k] == i);
        }
    }
}

proof fn candidates_are_listed(c: Catalog, want_fav: bool, n: nat)
    requires
        n <= c.models@.len(),
    ensures
        c.candidates(want_fav, n).len() <= n,
        forall|i: int| #[trigger]
            c.candidates(want_fav, n).contains(i) <==> 0 <= i < n && c.listed(
                c.models@[i],
                want_fav,
            ),
        forall|k: int|
            0 <= k < c.candidates(want_fav, n).len() ==> 0 <= #[trigger] c.candidates(
                want_fav,
                n,
            )[k] < n,
    decreases n,
{
    let after = c.candidates(want_fav, n);
    if n > 0 {
        let before = c.candidates(want_fav, (n - 1) as nat);
        candidates_are_listed(c, want_fav, (n - 1) as nat);
        if c.listed(c.models@[n - 1], want_fav) {
            assert forall|i: int| #[trigger] after.contains(i) <==> 0 <= i < n && c.listed(
                c.models@[i],
                want_fav,
            ) by {
                if after.contains(i) {
                    let k = choose|k: int| 0 <= k < after.len() && after[k] == i;
                    if k < before.len() {
                        assert(before[k] == i);
                        assert(before.contains(i));
                    }
                }
                if 0 <= i < n && c.listed(c.models@[i], want_fav) {
                    if i == n - 1 {
                        assert(after[before.len() as int] == i);
                    } else {
                        assert(before.contains(i));
                        let k = choose|k: int| 0 <= k < before.len() && before[k] == i;
                        assert(after[k] == i);
                    }
                }
            }
            assert forall|k: int| 0 <= k < after.len() implies 0 <= #[trigger] after[k] < n by {
                if k < before.len() {
                    assert(after[k] == before[k]);
                }
            }
        }
    }
}

/// No model is in both panels.
pub proof fn panels_are_disjoint(c: Catalog, i: int)
    requires
        0 <= i < c.models@.len(),
    ensures
        !(c.panel(true).contains(i) && c.panel(false).contains(i)),
{
    panel_shows_the_listed(c, true);
    panel_shows_the_listed(c, false);
}

} // verus!
