//! Cursors in lists, and the order in which lists are shown.

use crate::text::{
    not_after, same, text_le, text_le_antisym, text_le_total, text_le_trans, trim, trimmed,
};
use vstd::prelude::*;
use vstd::string::*;

verus! {

/// `x` moved into the range from `lo` to `hi`.
pub open spec fn clamp(x: int, lo: int, hi: int) -> int {
    if x < lo { lo } else if x > hi { hi } else { x }
}

/// Where a cursor at `current` in a list of `len` rows is after a move.
pub open spec fn moved(current: int, len: int, delta: int) -> int {
    if len == 0 { 0 } else { clamp(current + delta, 0, len - 1) }
}

/// Moves a cursor by `delta` and keeps it in the list.
pub fn clamp_cursor(current: usize, len: usize, delta: i32) -> (r: usize)
    ensures
        r == moved(current as int, len as int, delta as int),
{
    if len == 0 {
        return 0;
    }
    if delta < 0 {
        let down: usize = (-(delta as i64)) as usize;
        if current < down {
            0
        } else if current - down > len - 1 {
            len - 1
        } else {
            current - down
        }
    } else {
        let up: usize = delta as usize;
        if current > len - 1 || up > len - 1 - current {
            len - 1
        } else {
            current + up
        }
    }
}

/// Where a cursor is once the list has `len` rows.
pub open spec fn kept_in(current: int, len: int) -> int {
    if len == 0 { 0 } else if current > len - 1 { len - 1 } else { current }
}

/// Keeps a cursor in a list of `len` rows.
pub fn keep_in(current: usize, len: usize) -> (r: usize)
    ensures
        r == kept_in(current as int, len as int),
{
    if len == 0 {
        0
    } else if current > len - 1 {
        len - 1
    } else {
        current
    }
}

/// Whether row `i` is shown before or at the place of row `j` when both have a
/// score: the higher score comes first.
pub open spec fn scores_before(scores: Seq<Option<i32>>, i: int, j: int) -> bool {
    scores[i]->0 >= scores[j]->0
}

/// `r` with row `i` put behind the last row that does not come after it.
pub open spec fn rank_in(scores: Seq<Option<i32>>, r: Seq<int>, i: int) -> Seq<int>
    decreases r.len(),
{
    if r.len() == 0 || scores_before(scores, r.last(), i) {
        r.push(i)
    } else {
        rank_in(scores, r.drop_last(), i).push(r.last())
    }
}

/// The first `n` rows that have a score, best first; rows with one score keep
/// their order.
pub open spec fn ranked_to(scores: Seq<Option<i32>>, n: nat) -> Seq<int>
    decreases n,
{
    if n == 0 {
        Seq::empty()
    } else if scores[n - 1] is Some {
        rank_in(scores, ranked_to(scores, (n - 1) as nat), n - 1)
    } else {
        ranked_to(scores, (n - 1) as nat)
    }
}

/// The rows that have a score, best first.
pub open spec fn ranked(scores: Seq<Option<i32>>) -> Seq<int> {
    ranked_to(scores, scores.len())
}

/// The rows `r` of a list.
pub open spec fn rows<T>(items: Seq<T>, r: Seq<int>) -> Seq<T> {
    r.map_values(|i: int| items[i])
}

/// Rows as numbers.
pub open spec fn as_ints(v: Seq<usize>) -> Seq<int> {
    v.map_values(|i: usize| i as int)
}

/// Every row of a ranking is a row that has a score.
pub proof fn ranked_to_in_range(scores: Seq<Option<i32>>, n: nat)
    requires
        n <= scores.len(),
    ensures
        forall|k: int|
            0 <= k < ranked_to(scores, n).len() ==> 0 <= #[trigger] ranked_to(scores, n)[k] < n
                && scores[ranked_to(scores, n)[k]] is Some,
        ranked_to(scores, n).len() <= n,
    decreases n,
{
    if n > 0 {
        let before = ranked_to(scores, (n - 1) as nat);
        ranked_to_in_range(scores, (n - 1) as nat);
        if scores[n - 1] is Some {
            rank_in_holds(scores, before, n - 1);
            let after = ranked_to(scores, n);
            assert forall|k: int| 0 <= k < after.len() implies 0 <= #[trigger] after[k] < n
                && scores[after[k]] is Some by {
                assert(after.contains(after[k]));
                assert(before.contains(after[k]) || after[k] == n - 1);
                if before.contains(after[k]) {
                    let m = choose|m: int| 0 <= m < before.len() && before[m] == after[k];
                    assert(before[m] == after[k]);
                }
            }
        }
    }
}

/// What putting a row into a ranking does: it adds that row and no other.
proof fn rank_in_holds(scores: Seq<Option<i32>>, r: Seq<int>, i: int)
    ensures
        rank_in(scores, r, i).len() == r.len() + 1,
        forall|x: int| #[trigger] rank_in(scores, r, i).contains(x) <==> r.contains(x) || x == i,
    decreases r.len(),
{
    let after = rank_in(scores, r, i);
    if r.len() == 0 || scores_before(scores, r.last(), i) {
        assert forall|x: int| #[trigger] after.contains(x) <==> r.contains(x) || x == i by {
            if r.contains(x) {
                let m = choose|m: int| 0 <= m < r.len() && r[m] == x;
                assert(after[m] == x);
            }
            if x == i {
                assert(after[r.len() as int] == i);
            }
            if after.contains(x) {
                let m = choose|m: int| 0 <= m < after.len() && after[m] == x;
                if m < r.len() {
                    assert(r[m] == x);
                }
            }
        }
    } else {
        let shorter = rank_in(scores, r.drop_last(), i);
        rank_in_holds(scores, r.drop_last(), i);
        assert forall|x: int| #[trigger] after.contains(x) <==> r.contains(x) || x == i by {
            if r.contains(x) {
                let m = choose|m: int| 0 <= m < r.len() && r[m] == x;
                if m < r.len() - 1 {
                    assert(r.drop_last()[m] == x);
                    assert(shorter.contains(x));
                    let k = choose|k: int| 0 <= k < shorter.len() && shorter[k] == x;
                    assert(after[k] == x);
                } else {
                    assert(after[shorter.len() as int] == x);
                }
            }
            if x == i {
                assert(shorter.contains(i));
                let k = choose|k: int| 0 <= k < shorter.len() && shorter[k] == i;
                assert(after[k] == i);
            }
            if after.contains(x) {
                let m = choose|m: int| 0 <= m < after.len() && after[m] == x;
                if m < shorter.len() {
                    assert(shorter[m] == x);
                    assert(shorter.contains(x));
                    if r.drop_last().contains(x) {
                        let k = choose|k: int| 0 <= k < r.len() - 1 && r.drop_last()[k] == x;
                        assert(r[k] == x);
                    }
                } else {
                    assert(r[r.len() - 1] == x);
                }
            }
        }
    }
}

/// Whether a ranking shows the better score first and, of one score, the
/// earlier row.
pub open spec fn best_first(scores: Seq<Option<i32>>, r: Seq<int>) -> bool {
    forall|a: int, b: int|
        0 <= a < b < r.len() ==> {
            let (x, y) = (#[trigger] r[a], #[trigger] r[b]);
            scores[x]->0 > scores[y]->0 || (scores[x]->0 == scores[y]->0 && x < y)
        }
}

proof fn rank_in_sorted(scores: Seq<Option<i32>>, r: Seq<int>, i: int)
    requires
        best_first(scores, r),
        forall|k: int| 0 <= k < r.len() ==> #[trigger] r[k] < i,
    ensures
        best_first(scores, rank_in(scores, r, i)),
    decreases r.len(),
{
    let after = rank_in(scores, r, i);
    if r.len() == 0 || scores_before(scores, r.last(), i) {
        assert forall|a: int, b: int| 0 <= a < b < after.len() implies {
            let (x, y) = (#[trigger] after[a], #[trigger] after[b]);
            scores[x]->0 > scores[y]->0 || (scores[x]->0 == scores[y]->0 && x < y)
        } by {
            assert(after[a] == r[a]);
            if b < r.len() {
                assert(after[b] == r[b]);
            } else if a < r.len() - 1 {
                assert(r[r.len() - 1] == r.last());
                assert(r[a] < i);
            }
        }
    } else {
        let shorter = r.drop_last();
        assert(best_first(scores, shorter)) by {
            assert forall|a: int, b: int| 0 <= a < b < shorter.len() implies {
                let (x, y) = (#[trigger] shorter[a], #[trigger] shorter[b]);
                scores[x]->0 > scores[y]->0 || (scores[x]->0 == scores[y]->0 && x < y)
            } by {
                assert(shorter[a] == r[a] && shorter[b] == r[b]);
            }
        }
        assert forall|k: int| 0 <= k < shorter.len() implies #[trigger] shorter[k] < i by {
            assert(shorter[k] == r[k]);
        }
        rank_in_sorted(scores, shorter, i);
        rank_in_holds(scores, shorter, i);
        let inner = rank_in(scores, shorter, i);
        assert forall|a: int, b: int| 0 <= a < b < after.len() implies {
            let (x, y) = (#[trigger] after[a], #[trigger] after[b]);
            scores[x]->0 > scores[y]->0 || (scores[x]->0 == scores[y]->0 && x < y)
        } by {
            assert(after[a] == inner[a]);
            if b < inner.len() {
                assert(after[b] == inner[b]);
            } else {
                assert(after[b] == r.last());
                assert(inner.contains(inner[a]));
                if shorter.contains(inner[a]) {
                    let m = choose|m: int| 0 <= m < shorter.len() && shorter[m] == inner[a];
                    assert(r[m] == inner[a]);
                    assert(r[r.len() - 1] == r.last());
                }
            }
        }
    }
}

proof fn ranked_to_holds(scores: Seq<Option<i32>>, n: nat)
    requires
        n <= scores.len(),
    ensures
        best_first(scores, ranked_to(scores, n)),
        forall|i: int| 0 <= i < n && scores[i] is Some ==> #[trigger] ranked_to(scores, n).contains(
            i,
        ),
    decreases n,
{
    if n > 0 {
        ranked_to_holds(scores, (n - 1) as nat);
        ranked_to_in_range(scores, (n - 1) as nat);
        if scores[n - 1] is Some {
            rank_in_sorted(scores, ranked_to(scores, (n - 1) as nat), n - 1);
            rank_in_holds(scores, ranked_to(scores, (n - 1) as nat), n - 1);
        }
    }
}

/// A ranking shows exactly the rows that have a score, the better score first
/// and, of one score, the earlier row.
pub proof fn ranking_is_best_first(scores: Seq<Option<i32>>)
    ensures
        best_first(scores, ranked(scores)),
        forall|i: int|
            0 <= i < scores.len() ==> (#[trigger] ranked(scores).contains(i) <==> scores[i]
                is Some),
{
    ranked_to_holds(scores, scores.len());
    ranked_to_in_range(scores, scores.len());
    assert forall|i: int| 0 <= i < scores.len() implies (#[trigger] ranked(scores).contains(i)
        <==> scores[i] is Some) by {
        if ranked(scores).contains(i) {
            let k = choose|k: int| 0 <= k < ranked(scores).len() && ranked(scores)[k] == i;
            assert(scores[ranked(scores)[k]] is Some);
        }
    }
}

/// The rows that have a score, best first.
pub fn ranking(scores: &Vec<Option<i32>>) -> (r: Vec<usize>)
    ensures
        as_ints(r@) == ranked(scores@),
        forall|k: int| 0 <= k < r@.len() ==> #[trigger] r@[k] < scores@.len(),
        r@.len() <= scores@.len(),
{
    let mut out: Vec<usize> = Vec::new();
    let mut n: usize = 0;
    assert(as_ints(out@) =~= Seq::empty());
    while n < scores.len()
        invariant
            n <= scores@.len(),
            as_ints(out@) == ranked_to(scores@, n as nat),
            out@.len() <= n,
            forall|k: int| 0 <= k < out@.len() ==> #[trigger] out@[k] < n,
            forall|k: int| 0 <= k < out@.len() ==> scores@[#[trigger] out@[k] as int] is Some,
        decreases scores@.len() - n,
    {
        if let Some(score) = scores[n] {
            let ghost before = out@;
            let mut at: usize = out.len();
            let ghost full = as_ints(before);
            assert(full.take(at as int) =~= full);
            assert(full.skip(at as int) =~= Seq::empty());
            assert(rank_in(scores@, full.take(at as int), n as int) + full.skip(at as int)
                =~= rank_in(scores@, full, n as int));
            while at > 0 && scores[out[at - 1]].unwrap() < score
                invariant
                    at <= out@.len(),
                    out@ == before,
                    full == as_ints(before),
                    n < scores@.len(),
                    scores@[n as int] == Some(score),
                    forall|k: int| 0 <= k < out@.len() ==> #[trigger] out@[k] < n,
                    forall|k: int| 0 <= k < out@.len() ==> scores@[#[trigger] out@[k] as int] is Some,
                    rank_in(scores@, full.take(at as int), n as int) + full.skip(at as int)
                        == rank_in(scores@, full, n as int),
                decreases at,
            {
                proof {
                    let head = full.take(at as int);
                    assert(head.last() == out@[at - 1]);
                    assert(head.drop_last() =~= full.take(at - 1));
                    let inner = rank_in(scores@, full.take(at - 1), n as int);
                    assert(inner.push(head.last()) + full.skip(at as int) =~= inner + full.skip(
                        at - 1,
                    ));
                }
                at -= 1;
            }
            out.insert(at, n);
            proof {
                let head = full.take(at as int);
                if at > 0 {
                    assert(head.last() == before[at - 1]);
                }
                assert(rank_in(scores@, head, n as int) == head.push(n as int));
                assert(as_ints(out@) =~= head.push(n as int) + full.skip(at as int));
                assert forall|k: int| 0 <= k < out@.len() implies #[trigger] out@[k] < n + 1
                    && scores@[out@[k] as int] is Some by {
                    if k < at {
                        assert(out@[k] == before[k]);
                    } else if k > at {
                        assert(out@[k] == before[k - 1]);
                    }
                }
            }
        }
        n += 1;
    }
    out
}

/// The items at the rows of an order, in that order.
pub fn in_order<'a, T>(items: &'a Vec<T>, order: &Vec<usize>) -> (r: Vec<&'a T>)
    requires
        forall|k: int| 0 <= k < order@.len() ==> #[trigger] order@[k] < items@.len(),
    ensures
        r@ == rows(items@, as_ints(order@)).map_values(|t: T| &t),
        r@.len() == order@.len(),
{
    let ghost all = rows(items@, as_ints(order@)).map_values(|t: T| &t);
    let mut out: Vec<&'a T> = Vec::new();
    let mut i: usize = 0;
    assert(out@ =~= all.take(0));
    while i < order.len()
        invariant
            i <= order@.len(),
            forall|k: int| 0 <= k < order@.len() ==> #[trigger] order@[k] < items@.len(),
            all == rows(items@, as_ints(order@)).map_values(|t: T| &t),
            out@ == all.take(i as int),
        decreases order@.len() - i,
    {
        let item = &items[order[i]];
        assert(as_ints(order@)[i as int] == order@[i as int]);
        assert(all[i as int] == item);
        out.push(item);
        assert(out@ =~= all.take(i + 1));
        i += 1;
    }
    assert(as_ints(order@).len() == order@.len());
    assert(all.take(i as int) =~= all);
    out
}

/// Copies of the items at the rows of an order, in that order.
pub fn copied_in_order<T: Clone>(items: &Vec<T>, order: &Vec<usize>) -> (r: Vec<T>)
    requires
        forall|k: int| 0 <= k < order@.len() ==> #[trigger] order@[k] < items@.len(),
        forall|a: T, b: T| #[trigger] cloned(a, b) ==> a == b,
    ensures
        r@ == rows(items@, as_ints(order@)),
{
    let ghost all = rows(items@, as_ints(order@));
    let mut out: Vec<T> = Vec::new();
    let mut i: usize = 0;
    assert(out@ =~= all.take(0));
    while i < order.len()
        invariant
            i <= order@.len(),
            forall|k: int| 0 <= k < order@.len() ==> #[trigger] order@[k] < items@.len(),
            forall|a: T, b: T| #[trigger] cloned(a, b) ==> a == b,
            all == rows(items@, as_ints(order@)),
            out@ == all.take(i as int),
        decreases order@.len() - i,
    {
        let item = items[order[i]].clone();
        assert(cloned(items@[order@[i as int] as int], item));
        assert(as_ints(order@)[i as int] == order@[i as int]);
        assert(all[i as int] == item);
        out.push(item);
        assert(out@ =~= all.take(i + 1));
        i += 1;
    }
    assert(as_ints(order@).len() == order@.len());
    assert(all.take(i as int) =~= all);
    out
}

/// A row of a list that is known by an id.
pub trait Identified: Sized {
    /// The id of the row.
    spec fn key(&self) -> Seq<char>;

    /// The id of the row.
    fn key_text(&self) -> (r: &str)
        ensures
            r@ == self.key(),
    ;

    /// A copy of the row.
    fn twin(&self) -> (r: Self)
        ensures
            r == *self,
    ;
}

/// The rows whose id is another one.
pub open spec fn without<T: Identified>(items: Seq<T>, id: Seq<char>) -> Seq<T>
    decreases items.len(),
{
    if items.len() == 0 {
        Seq::empty()
    } else if items.last().key() == id {
        without(items.drop_last(), id)
    } else {
        without(items.drop_last(), id).push(items.last())
    }
}

/// The scores of the rows whose id is another one.
pub open spec fn scores_without<T: Identified>(
    items: Seq<T>,
    scores: Seq<Option<i32>>,
    id: Seq<char>,
) -> Seq<Option<i32>>
    decreases items.len(),
{
    if items.len() == 0 {
        Seq::empty()
    } else if items.last().key() == id {
        scores_without(items.drop_last(), scores.drop_last(), id)
    } else {
        scores_without(items.drop_last(), scores.drop_last(), id).push(scores.last())
    }
}

/// The rows whose id is another one.
pub fn drop_rows<T: Identified>(items: &Vec<T>, id: &str) -> (r: Vec<T>)
    ensures
        r@ == without(items@, id@),
{
    let mut out: Vec<T> = Vec::new();
    let mut i: usize = 0;
    assert(items@.take(0) =~= Seq::<T>::empty());
    assert(out@ =~= Seq::empty());
    while i < items.len()
        invariant
            i <= items@.len(),
            out@ == without(items@.take(i as int), id@),
        decreases items@.len() - i,
    {
        proof {
            let t = items@.take(i + 1);
            assert(t.drop_last() =~= items@.take(i as int));
            assert(t.last() == items@[i as int]);
        }
        if !same(items[i].key_text(), id) {
            out.push(items[i].twin());
        }
        i += 1;
    }
    assert(items@.take(i as int) =~= items@);
    out
}

/// The scores of the rows whose id is another one.
pub fn drop_scores<T: Identified>(items: &Vec<T>, scores: &Vec<Option<i32>>, id: &str) -> (r: Vec<
    Option<i32>,
>)
    requires
        items@.len() == scores@.len(),
    ensures
        r@ == scores_without(items@, scores@, id@),
        r@.len() == without(items@, id@).len(),
{
    let mut out: Vec<Option<i32>> = Vec::new();
    let mut i: usize = 0;
    assert(items@.take(0) =~= Seq::<T>::empty());
    assert(scores@.take(0) =~= Seq::<Option<i32>>::empty());
    assert(out@ =~= Seq::empty());
    while i < items.len()
        invariant
            i <= items@.len(),
            items@.len() == scores@.len(),
            out@ == scores_without(items@.take(i as int), scores@.take(i as int), id@),
            out@.len() == without(items@.take(i as int), id@).len(),
        decreases items@.len() - i,
    {
        proof {
            let t = items@.take(i + 1);
            assert(t.drop_last() =~= items@.take(i as int));
            assert(t.last() == items@[i as int]);
            let u = scores@.take(i + 1);
            assert(u.drop_last() =~= scores@.take(i as int));
            assert(u.last() == scores@[i as int]);
        }
        if !same(items[i].key_text(), id) {
            out.push(scores[i]);
        }
        i += 1;
    }
    assert(items@.take(i as int) =~= items@);
    assert(scores@.take(i as int) =~= scores@);
    out
}

/// The items that have a score, best first; items with one score keep their
/// order. `scores` holds the score of each item.
pub fn fuzzy_filter_sorted<'a, T>(items: &'a Vec<T>, scores: &Vec<Option<i32>>) -> (r: Vec<&'a T>)
    requires
        items@.len() == scores@.len(),
    ensures
        r@ == rows(items@, ranked(scores@)).map_values(|t: T| &t),
        r@.len() == ranked(scores@).len(),
{
    let order = ranking(scores);
    assert(as_ints(order@).len() == order@.len());
    in_order(items, &order)
}

/// The rows from 0 to `n`.
pub open spec fn all_rows(n: nat) -> Seq<int> {
    Seq::new(n, |i: int| i)
}

/// The rows of a list that a filter leaves, in the order in which they are
/// shown: all of them where nothing but whitespace is typed, else those that
/// have a score, best first.
pub open spec fn shown_rows(filter: Seq<char>, n: nat, scores: Seq<Option<i32>>) -> Seq<int> {
    if trim(filter).len() == 0 { all_rows(n) } else { ranked(scores) }
}

/// Whether there is a score for each row, where scores are needed.
pub open spec fn scored(filter: Seq<char>, n: nat, scores: Seq<Option<i32>>) -> bool {
    trim(filter).len() == 0 || scores.len() == n
}

/// The rows of a list that a filter leaves.
pub fn filtered_rows(filter: &str, n: usize, scores: &Vec<Option<i32>>) -> (r: Vec<usize>)
    requires
        scored(filter@, n as nat, scores@),
    ensures
        as_ints(r@) == shown_rows(filter@, n as nat, scores@),
        r@.len() == shown_rows(filter@, n as nat, scores@).len(),
        r@.len() <= n,
        forall|k: int| 0 <= k < r@.len() ==> #[trigger] r@[k] < n,
{
    if trimmed(filter).is_empty() {
        let mut r: Vec<usize> = Vec::new();
        let mut i: usize = 0;
        while i < n
            invariant
                i <= n,
                r@.len() == i,
                forall|k: int| 0 <= k < i ==> #[trigger] r@[k] == k,
            decreases n - i,
        {
            r.push(i);
            i += 1;
        }
        assert(as_ints(r@) =~= all_rows(n as nat));
        r
    } else {
        let r = ranking(scores);
        assert(as_ints(r@).len() == r@.len());
        r
    }
}

/// The row that the cursor is on, where it is on one.
pub open spec fn row_at(filter: Seq<char>, n: nat, scores: Seq<Option<i32>>, cursor: int) -> Option<
    int,
> {
    let shown = shown_rows(filter, n, scores);
    if 0 <= cursor < shown.len() { Some(shown[cursor]) } else { None }
}

/// The row that the cursor is on.
pub fn row_under(filter: &str, n: usize, scores: &Vec<Option<i32>>, cursor: usize) -> (r: Option<
    usize,
>)
    requires
        scored(filter@, n as nat, scores@),
    ensures
        match r {
            Some(i) => row_at(filter@, n as nat, scores@, cursor as int) == Some(i as int) && i < n,
            None => row_at(filter@, n as nat, scores@, cursor as int) is None,
        },
{
    let rows = filtered_rows(filter, n, scores);
    if cursor < rows.len() {
        assert(as_ints(rows@)[cursor as int] == rows@[cursor as int]);
        Some(rows[cursor])
    } else {
        None
    }
}

/// Whether a row with key `a` may stand before a row with key `b`: by the
/// first text with the later one first, then by the second text.
pub open spec fn key_le(a: (Seq<char>, Seq<char>), b: (Seq<char>, Seq<char>)) -> bool {
    if a.0 == b.0 { text_le(a.1, b.1) } else { text_le(b.0, a.0) }
}

/// `r` with row `i` put behind the last row that does not come after it.
pub open spec fn order_in(keys: Seq<(Seq<char>, Seq<char>)>, r: Seq<int>, i: int) -> Seq<int>
    decreases r.len(),
{
    if r.len() == 0 || key_le(keys[r.last()], keys[i]) {
        r.push(i)
    } else {
        order_in(keys, r.drop_last(), i).push(r.last())
    }
}

/// The first `n` rows in the order of their keys.
pub open spec fn ordered_to(keys: Seq<(Seq<char>, Seq<char>)>, n: nat) -> Seq<int>
    decreases n,
{
    if n == 0 {
        Seq::empty()
    } else {
        order_in(keys, ordered_to(keys, (n - 1) as nat), n - 1)
    }
}

/// The rows in the order of their keys; rows with one key keep their order.
pub open spec fn ordered(keys: Seq<(Seq<char>, Seq<char>)>) -> Seq<int> {
    ordered_to(keys, keys.len())
}

fn may_precede(a: &(String, String), b: &(String, String)) -> (r: bool)
    ensures
        r == key_le((a.0@, a.1@), (b.0@, b.1@)),
{
    if same(a.0.as_str(), b.0.as_str()) {
        not_after(a.1.as_str(), b.1.as_str())
    } else {
        not_after(b.0.as_str(), a.0.as_str())
    }
}

/// The rows in the order of their keys.
pub fn key_order(keys: &Vec<(String, String)>) -> (r: Vec<usize>)
    ensures
        as_ints(r@) == ordered(crate::text::pairs(keys@)),
        forall|k: int| 0 <= k < r@.len() ==> #[trigger] r@[k] < keys@.len(),
        r@.len() == keys@.len(),
{
    let ghost ks = crate::text::pairs(keys@);
    let mut out: Vec<usize> = Vec::new();
    let mut n: usize = 0;
    assert(as_ints(out@) =~= Seq::empty());
    while n < keys.len()
        invariant
            n <= keys@.len(),
            ks == crate::text::pairs(keys@),
            as_ints(out@) == ordered_to(ks, n as nat),
            out@.len() == n,
            forall|k: int| 0 <= k < out@.len() ==> #[trigger] out@[k] < n,
        decreases keys@.len() - n,
    {
        let ghost before = out@;
        let mut at: usize = out.len();
        let ghost full = as_ints(before);
        assert(full.take(at as int) =~= full);
        assert(full.skip(at as int) =~= Seq::empty());
        assert(order_in(ks, full.take(at as int), n as int) + full.skip(at as int) =~= order_in(
            ks,
            full,
            n as int,
        ));
        while at > 0 && !may_precede(&keys[out[at - 1]], &keys[n])
            invariant
                at <= out@.len(),
                out@ == before,
                full == as_ints(before),
                ks == crate::text::pairs(keys@),
                n < keys@.len(),
                forall|k: int| 0 <= k < out@.len() ==> #[trigger] out@[k] < n,
                order_in(ks, full.take(at as int), n as int) + full.skip(at as int) == order_in(
                    ks,
                    full,
                    n as int,
                ),
            decreases at,
        {
            proof {
                let head = full.take(at as int);
                assert(head.last() == out@[at - 1]);
                assert(head.drop_last() =~= full.take(at - 1));
                let inner = order_in(ks, full.take(at - 1), n as int);
                assert(inner.push(head.last()) + full.skip(at as int) =~= inner + full.skip(
                    at - 1,
                ));
            }
            at -= 1;
        }
        out.insert(at, n);
        proof {
            let head = full.take(at as int);
            if at > 0 {
                assert(head.last() == before[at - 1]);
            }
            assert(order_in(ks, head, n as int) == head.push(n as int));
            assert(as_ints(out@) =~= head.push(n as int) + full.skip(at as int));
            assert forall|k: int| 0 <= k < out@.len() implies #[trigger] out@[k] < n + 1 by {
                if k < at {
                    assert(out@[k] == before[k]);
                } else if k > at {
                    assert(out@[k] == before[k - 1]);
                }
            }
        }
        n += 1;
    }
    out
}

/// The order of keys is total and carries over.
proof fn key_le_laws(
    a: (Seq<char>, Seq<char>),
    b: (Seq<char>, Seq<char>),
    c: (Seq<char>, Seq<char>),
)
    ensures
        key_le(a, b) || key_le(b, a),
        key_le(a, b) && key_le(b, c) ==> key_le(a, c),
{
    text_le_total(a.0, b.0);
    text_le_total(a.1, b.1);
    if key_le(a, b) && key_le(b, c) {
        if a.0 == b.0 && b.0 == c.0 {
            text_le_trans(a.1, b.1, c.1);
        } else {
            text_le_total(a.0, a.0);
            text_le_total(b.0, b.0);
            text_le_trans(c.0, b.0, a.0);
            if a.0 == c.0 {
                text_le_antisym(a.0, b.0);
            }
        }
    }
}

/// What putting a row into an order does: it adds that row and no other.
proof fn order_in_holds(keys: Seq<(Seq<char>, Seq<char>)>, r: Seq<int>, i: int)
    ensures
        order_in(keys, r, i).len() == r.len() + 1,
        forall|x: int| #[trigger] order_in(keys, r, i).contains(x) <==> r.contains(x) || x == i,
    decreases r.len(),
{
    let after = order_in(keys, r, i);
    if r.len() == 0 || key_le(keys[r.last()], keys[i]) {
        assert forall|x: int| #[trigger] after.contains(x) <==> r.contains(x) || x == i by {
            if r.contains(x) {
                let m = choose|m: int| 0 <= m < r.len() && r[m] == x;
                assert(after[m] == x);
            }
            if x == i {
                assert(after[r.len() as int] == i);
            }
            if after.contains(x) {
                let m = choose|m: int| 0 <= m < after.len() && after[m] == x;
                if m < r.len() {
                    assert(r[m] == x);
                }
            }
        }
    } else {
        let shorter = order_in(keys, r.drop_last(), i);
        order_in_holds(keys, r.drop_last(), i);
        assert forall|x: int| #[trigger] after.contains(x) <==> r.contains(x) || x == i by {
            if r.contains(x) {
                let m = choose|m: int| 0 <= m < r.len() && r[m] == x;
                if m < r.len() - 1 {
                    assert(r.drop_last()[m] == x);
                    assert(shorter.contains(x));
                    let k = choose|k: int| 0 <= k < shorter.len() && shorter[k] == x;
                    assert(after[k] == x);
                } else {
                    assert(after[shorter.len() as int] == x);
                }
            }
            if x == i {
                assert(shorter.contains(i));
                let k = choose|k: int| 0 <= k < shorter.len() && shorter[k] == i;
                assert(after[k] == i);
            }
            if after.contains(x) {
                let m = choose|m: int| 0 <= m < after.len() && after[m] == x;
                if m < shorter.len() {
                    assert(shorter[m] == x);
                    assert(shorter.contains(x));
                    if r.drop_last().contains(x) {
                        let k = choose|k: int| 0 <= k < r.len() - 1 && r.drop_last()[k] == x;
                        assert(r[k] == x);
                    }
                } else {
                    assert(r[r.len() - 1] == x);
                }
            }
        }
    }
}

/// Whether no row stands before one that has to come first.
pub open spec fn in_key_order(keys: Seq<(Seq<char>, Seq<char>)>, r: Seq<int>) -> bool {
    forall|a: int, b: int|
        0 <= a < b < r.len() ==> key_le(keys[#[trigger] r[a]], keys[#[trigger] r[b]])
}

proof fn order_in_sorted(keys: Seq<(Seq<char>, Seq<char>)>, r: Seq<int>, i: int)
    requires
        in_key_order(keys, r),
    ensures
        in_key_order(keys, order_in(keys, r, i)),
    decreases r.len(),
{
    let after = order_in(keys, r, i);
    if r.len() == 0 || key_le(keys[r.last()], keys[i]) {
        assert forall|a: int, b: int| 0 <= a < b < after.len() implies key_le(
            keys[#[trigger] after[a]],
            keys[#[trigger] after[b]],
        ) by {
            assert(after[a] == r[a]);
            if b < r.len() {
                assert(after[b] == r[b]);
            } else if a < r.len() - 1 {
                assert(r[r.len() - 1] == r.last());
                key_le_laws(keys[r[a]], keys[r.last()], keys[i]);
            }
        }
    } else {
        let shorter = r.drop_last();
        assert(in_key_order(keys, shorter)) by {
            assert forall|a: int, b: int| 0 <= a < b < shorter.len() implies key_le(
                keys[#[trigger] shorter[a]],
                keys[#[trigger] shorter[b]],
            ) by {
                assert(shorter[a] == r[a] && shorter[b] == r[b]);
            }
        }
        order_in_sorted(keys, shorter, i);
        order_in_holds(keys, shorter, i);
        let inner = order_in(keys, shorter, i);
        assert forall|a: int, b: int| 0 <= a < b < after.len() implies key_le(
            keys[#[trigger] after[a]],
            keys[#[trigger] after[b]],
        ) by {
            assert(after[a] == inner[a]);
            if b < inner.len() {
                assert(after[b] == inner[b]);
            } else {
                assert(after[b] == r.last());
                assert(inner.contains(inner[a]));
                if shorter.contains(inner[a]) {
                    let m = choose|m: int| 0 <= m < shorter.len() && shorter[m] == inner[a];
                    assert(r[m] == inner[a]);
                    assert(r[r.len() - 1] == r.last());
                } else {
                    key_le_laws(keys[r.last()], keys[i], keys[i]);
                }
            }
        }
    }
}

proof fn ordered_to_holds(keys: Seq<(Seq<char>, Seq<char>)>, n: nat)
    requires
        n <= keys.len(),
    ensures
        ordered_to(keys, n).len() == n,
        in_key_order(keys, ordered_to(keys, n)),
        forall|i: int| #[trigger] ordered_to(keys, n).contains(i) <==> 0 <= i < n,
    decreases n,
{
    if n > 0 {
        let before = ordered_to(keys, (n - 1) as nat);
        ordered_to_holds(keys, (n - 1) as nat);
        order_in_sorted(keys, before, n - 1);
        order_in_holds(keys, before, n - 1);
    } else {
        assert(ordered_to(keys, n) =~= Seq::empty());
    }
}

/// An order by keys shows every row once, none before one that has to come
/// first.
pub proof fn key_order_is_sorted(keys: Seq<(Seq<char>, Seq<char>)>)
    ensures
        ordered(keys).len() == keys.len(),
        in_key_order(keys, ordered(keys)),
        forall|i: int| #[trigger] ordered(keys).contains(i) <==> 0 <= i < keys.len(),
{
    ordered_to_holds(keys, keys.len());
}

} // verus!
