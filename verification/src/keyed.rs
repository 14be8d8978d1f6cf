//! Sets of texts and maps between texts, kept as lists in which no key occurs
//! twice.

use crate::text::{not_after, same, text_le, text_le_total, text_le_trans};
use vstd::prelude::*;
use vstd::string::*;

verus! {

/// A set of texts.
pub struct TextSet {
    items: Vec<String>,
}

impl View for TextSet {
    type V = Set<Seq<char>>;

    closed spec fn view(&self) -> Set<Seq<char>> {
        Set::new(|s: Seq<char>| exists|i: int| 0 <= i < self.items@.len() && #[trigger] self.items@[i]@ == s)
    }
}

impl TextSet {
    /// No text occurs twice.
    pub closed spec fn wf(&self) -> bool {
        forall|i: int, j: int|
            0 <= i < j < self.items@.len() ==> #[trigger] self.items@[i]@ != #[trigger] self.items@[j]@
    }

    /// The empty set.
    pub fn new() -> (r: TextSet)
        ensures
            r.wf(),
            r@ == Set::<Seq<char>>::empty(),
    {
        let r = TextSet { items: Vec::new() };
        assert(r@ =~= Set::empty());
        r
    }

    /// Whether the set holds `s`.
    pub fn contains(&self, s: &str) -> (r: bool)
        ensures
            r == self@.contains(s@),
    {
        let mut i: usize = 0;
        while i < self.items.len()
            invariant
                i <= self.items@.len(),
                forall|j: int| 0 <= j < i ==> #[trigger] self.items@[j]@ != s@,
            decreases self.items@.len() - i,
        {
            if same(self.items[i].as_str(), s) {
                return true;
            }
            i += 1;
        }
        false
    }

    /// Puts `s` into the set.
    pub fn insert(&mut self, s: String)
        requires
            old(self).wf(),
        ensures
            final(self).wf(),
            final(self)@ == old(self)@.insert(s@),
    {
        if self.contains(s.as_str()) {
            assert(self@ =~= self@.insert(s@));
            return;
        }
        let ghost before = self.items@;
        assert(forall|j: int| 0 <= j < before.len() ==> #[trigger] before[j]@ != s@) by {
            assert forall|j: int| 0 <= j < before.len() implies #[trigger] before[j]@ != s@ by {
                assert(self@.contains(before[j]@));
            }
        }
        self.items.push(s);
        proof {
            let after = self.items@;
            assert forall|t: Seq<char>| self@.contains(t) == old(self)@.insert(s@).contains(t) by {
                if old(self)@.contains(t) {
                    let i = choose|i: int| 0 <= i < before.len() && #[trigger] before[i]@ == t;
                    assert(after[i]@ == t);
                }
                if t == s@ {
                    assert(after[before.len() as int]@ == t);
                }
                if self@.contains(t) {
                    let i = choose|i: int| 0 <= i < after.len() && #[trigger] after[i]@ == t;
                    if i < before.len() {
                        assert(before[i]@ == t);
                    }
                }
            }
            assert(self@ =~= old(self)@.insert(s@));
        }
    }

    /// Takes `s` out of the set.
    pub fn remove(&mut self, s: &str)
        requires
            old(self).wf(),
        ensures
            final(self).wf(),
            final(self)@ == old(self)@.remove(s@),
    {
        let ghost before = self.items@;
        let mut i: usize = 0;
        while i < self.items.len()
            invariant
                i <= self.items@.len(),
                self.items@ == before,
                before == old(self).items@,
                forall|j: int| 0 <= j < i ==> #[trigger] before[j]@ != s@,
                old(self).wf(),
            decreases self.items@.len() - i,
        {
            if same(self.items[i].as_str(), s) {
                self.items.remove(i);
                proof {
                    let after = self.items@;
                    assert forall|j: int| 0 <= j < after.len() implies #[trigger] after[j]
                        == before[if j < i { j } else { j + 1 }] by {}
                    assert(before[i as int]@ == s@);
                    assert forall|t: Seq<char>| self@.contains(t) == old(self)@.remove(s@).contains(
                        t,
                    ) by {
                        if old(self)@.remove(s@).contains(t) {
                            let k = choose|k: int|
                                0 <= k < before.len() && #[trigger] before[k]@ == t;
                            assert(k != i);
                            assert(after[if k < i { k } else { k - 1 }]@ == t);
                        }
                        if self@.contains(t) {
                            let k = choose|k: int| 0 <= k < after.len() && #[trigger] after[k]@ == t;
                            let m = if k < i { k } else { k + 1 };
                            assert(before[m]@ == t);
                            assert(m != i);
                            if t == s@ {
                                if m < i {
                                    assert(before[m]@ != before[i as int]@);
                                } else {
                                    assert(before[i as int]@ != before[m]@);
                                }
                            }
                        }
                    }
                    assert(self@ =~= old(self)@.remove(s@));
                }
                return;
            }
            i += 1;
        }
        proof {
            assert(!self@.contains(s@));
            assert(self@ =~= old(self)@.remove(s@));
        }
    }
}

/// Whether no value of the map comes after that of the key.
pub open spec fn is_latest(m: Map<Seq<char>, Seq<char>>, key: Seq<char>) -> bool {
    m.contains_key(key) && forall|k: Seq<char>| #[trigger]
        m.contains_key(k) ==> text_le(m[k], m[key])
}

/// A map from texts to texts.
pub struct TextMap {
    entries: Vec<(String, String)>,
}

/// Where the key stands in the list of entries.
spec fn key_at(entries: Seq<(String, String)>, key: Seq<char>, i: int) -> bool {
    0 <= i < entries.len() && entries[i].0@ == key
}

impl View for TextMap {
    type V = Map<Seq<char>, Seq<char>>;

    closed spec fn view(&self) -> Map<Seq<char>, Seq<char>> {
        Map::new(
            |k: Seq<char>| exists|i: int| key_at(self.entries@, k, i),
            |k: Seq<char>| self.entries@[choose|i: int| key_at(self.entries@, k, i)].1@,
        )
    }
}

impl TextMap {
    /// No key occurs twice.
    pub closed spec fn wf(&self) -> bool {
        forall|i: int, j: int|
            0 <= i < j < self.entries@.len() ==> #[trigger] self.entries@[i].0@
                != #[trigger] self.entries@[j].0@
    }

    /// What an entry says of the map.
    proof fn entry_says(&self, i: int)
        requires
            self.wf(),
            0 <= i < self.entries@.len(),
        ensures
            self@.contains_key(self.entries@[i].0@),
            self@[self.entries@[i].0@] == self.entries@[i].1@,
    {
        let k = self.entries@[i].0@;
        assert(key_at(self.entries@, k, i));
        let j = choose|j: int| key_at(self.entries@, k, j);
        if j < i {
            assert(self.entries@[j].0@ != self.entries@[i].0@);
        } else if i < j {
            assert(self.entries@[i].0@ != self.entries@[j].0@);
        }
    }

    /// The empty map.
    pub fn new() -> (r: TextMap)
        ensures
            r.wf(),
            r@ == Map::<Seq<char>, Seq<char>>::empty(),
    {
        let r = TextMap { entries: Vec::new() };
        assert(r@ =~= Map::empty());
        r
    }

    fn position(&self, key: &str) -> (r: Option<usize>)
        ensures
            match r {
                Some(i) => key_at(self.entries@, key@, i as int),
                None => !self@.contains_key(key@),
            },
    {
        let mut i: usize = 0;
        while i < self.entries.len()
            invariant
                i <= self.entries@.len(),
                forall|j: int| 0 <= j < i ==> !key_at(self.entries@, key@, j),
            decreases self.entries@.len() - i,
        {
            if same(self.entries[i].0.as_str(), key) {
                return Some(i);
            }
            i += 1;
        }
        None
    }

    /// The value of the key.
    pub fn get(&self, key: &str) -> (r: Option<&String>)
        requires
            self.wf(),
        ensures
            match r {
                Some(v) => self@.contains_key(key@) && self@[key@] == v@,
                None => !self@.contains_key(key@),
            },
    {
        match self.position(key) {
            Some(i) => {
                proof {
                    self.entry_says(i as int);
                }
                Some(&self.entries[i].1)
            },
            None => None,
        }
    }

    /// Gives the key a value.
    pub fn insert(&mut self, key: String, value: String)
        requires
            old(self).wf(),
        ensures
            final(self).wf(),
            final(self)@ == old(self)@.insert(key@, value@),
    {
        let ghost before = self.entries@;
        let ghost v = value@;
        match self.position(key.as_str()) {
            Some(i) => {
                self.entries.set(i, (key, value));
                proof {
                    let after = self.entries@;
                    assert forall|j: int| 0 <= j < after.len() implies #[trigger] after[j].0@
                        == before[j].0@ by {}
                    assert forall|t: Seq<char>| #[trigger]
                        self@.contains_key(t) == old(self)@.contains_key(t) by {
                        if self@.contains_key(t) {
                            let m = choose|m: int| key_at(after, t, m);
                            assert(key_at(before, t, m));
                        }
                        if old(self)@.contains_key(t) {
                            let m = choose|m: int| key_at(before, t, m);
                            assert(key_at(after, t, m));
                        }
                    }
                    assert(after[i as int].0@ == key@);
                    self.entry_says(i as int);
                    old(self).entry_says(i as int);
                    assert forall|t: Seq<char>| old(self)@.contains_key(t) && t != key@ implies
                        #[trigger] self@[t] == old(self)@[t] by {
                        let m = choose|m: int| key_at(before, t, m);
                        assert(m != i);
                        assert(after[m] == before[m]);
                        self.entry_says(m);
                        old(self).entry_says(m);
                    }
                    assert(self@ =~= old(self)@.insert(key@, v));
                }
            },
            None => {
                assert forall|j: int| 0 <= j < before.len() implies #[trigger] before[j].0@ != key@ by {
                    if before[j].0@ == key@ {
                        assert(key_at(before, key@, j));
                    }
                }
                self.entries.push((key, value));
                proof {
                    let after = self.entries@;
                    let n = before.len() as int;
                    assert(after[n].0@ == key@);
                    self.entry_says(n);
                    assert forall|t: Seq<char>| t != key@ implies #[trigger] self@.contains_key(t)
                        == old(self)@.contains_key(t) by {
                        if self@.contains_key(t) {
                            let m = choose|m: int| key_at(after, t, m);
                            assert(key_at(before, t, m));
                        }
                        if old(self)@.contains_key(t) {
                            let m = choose|m: int| key_at(before, t, m);
                            assert(key_at(after, t, m));
                        }
                    }
                    assert forall|t: Seq<char>| old(self)@.contains_key(t) && t != key@ implies
                        #[trigger] self@[t] == old(self)@[t] by {
                        let m = choose|m: int| key_at(before, t, m);
                        assert(after[m] == before[m]);
                        self.entry_says(m);
                        old(self).entry_says(m);
                    }
                    assert(self@ =~= old(self)@.insert(key@, v));
                }
            },
        }
    }

    /// A key whose value no other comes after; of several such keys, any.
    pub fn latest(&self) -> (r: Option<String>)
        requires
            self.wf(),
        ensures
            match r {
                Some(key) => is_latest(self@, key@),
                None => self@ == Map::<Seq<char>, Seq<char>>::empty(),
            },
    {
        if self.entries.len() == 0 {
            assert(self@ =~= Map::empty());
            return None;
        }
        let mut best: usize = 0;
        let mut i: usize = 1;
        let ghost e = self.entries@;
        proof {
            text_le_total(e[0].1@, e[0].1@);
        }
        while i < self.entries.len()
            invariant
                1 <= i <= self.entries@.len(),
                best < i,
                e == self.entries@,
                forall|j: int| 0 <= j < i ==> text_le((#[trigger] e[j]).1@, e[best as int].1@),
            decreases self.entries@.len() - i,
        {
            let ghost earlier = best;
            if not_after(self.entries[best].1.as_str(), self.entries[i].1.as_str()) {
                best = i;
                proof {
                    assert forall|j: int| 0 <= j < i implies text_le(
                        (#[trigger] e[j]).1@,
                        e[best as int].1@,
                    ) by {
                        text_le_trans(e[j].1@, e[earlier as int].1@, e[i as int].1@);
                    }
                    text_le_total(e[i as int].1@, e[i as int].1@);
                }
            } else {
                proof {
                    text_le_total(e[best as int].1@, e[i as int].1@);
                }
            }
            i += 1;
        }
        proof {
            self.entry_says(best as int);
            assert forall|k: Seq<char>| #[trigger] self@.contains_key(k) implies text_le(
                self@[k],
                self@[e[best as int].0@],
            ) by {
                let j = choose|j: int| key_at(e, k, j);
                self.entry_says(j);
                assert(text_le(e[j].1@, e[best as int].1@));
            }
        }
        Some(self.entries[best].0.clone())
    }

    /// Takes the key and its value out of the map.
    pub fn remove(&mut self, key: &str)
        requires
            old(self).wf(),
        ensures
            final(self).wf(),
            final(self)@ == old(self)@.remove(key@),
    {
        let ghost before = self.entries@;
        match self.position(key) {
            Some(i) => {
                self.entries.remove(i);
                proof {
                    let after = self.entries@;
                    assert forall|j: int| 0 <= j < after.len() implies #[trigger] after[j]
                        == before[if j < i { j } else { j + 1 }] by {}
                    assert forall|t: Seq<char>| #[trigger]
                        self@.contains_key(t) == (old(self)@.contains_key(t) && t != key@) by {
                        if self@.contains_key(t) {
                            let m = choose|m: int| key_at(after, t, m);
                            let n = if m < i { m } else { m + 1 };
                            assert(key_at(before, t, n));
                            if t == key@ {
                                if n < i {
                                    assert(before[n].0@ != before[i as int].0@);
                                } else {
                                    assert(before[i as int].0@ != before[n].0@);
                                }
                            }
                        }
                        if old(self)@.contains_key(t) && t != key@ {
                            let m = choose|m: int| key_at(before, t, m);
                            assert(m != i);
                            assert(key_at(after, t, if m < i { m } else { m - 1 }));
                        }
                    }
                    assert forall|t: Seq<char>| self@.contains_key(t) implies #[trigger] self@[t]
                        == old(self)@[t] by {
                        let m = choose|m: int| key_at(after, t, m);
                        self.entry_says(m);
                        old(self).entry_says(if m < i { m } else { m + 1 });
                    }
                    assert(self@ =~= old(self)@.remove(key@));
                }
            },
            None => {
                assert(self@ =~= old(self)@.remove(key@));
            },
        }
    }
}

} // verus!
