//! What holds of the operations on text.

use crate::text::{
    cap, contains, first_chars, first_word, is_space, join, nonempty, occurs_at, trim, trim_end,
    trim_start, up_to_space,
};
use vstd::prelude::*;

verus! {

/// Whether a text stands somewhere in another.
pub open spec fn within(part: Seq<char>, text: Seq<char>) -> bool {
    exists|a: Seq<char>, b: Seq<char>| text == #[trigger] (a + part + b)
}

/// Whether a text holds whitespace alone.
pub open spec fn blank(s: Seq<char>) -> bool {
    forall|i: int| 0 <= i < s.len() ==> is_space(#[trigger] s[i])
}

/// A text stands between what surrounds it.
pub proof fn stands_between(a: Seq<char>, part: Seq<char>, b: Seq<char>)
    ensures
        within(part, a + part + b),
{
}

/// A text stands at the end of another.
pub proof fn stands_last(a: Seq<char>, part: Seq<char>)
    ensures
        within(part, a + part),
{
    assert(a + part =~= a + part + Seq::<char>::empty());
    stands_between(a, part, Seq::empty());
}

/// A text stands at the start of another.
pub proof fn stands_first(part: Seq<char>, b: Seq<char>)
    ensures
        within(part, part + b),
{
    assert(part + b =~= Seq::<char>::empty() + part + b);
    stands_between(Seq::empty(), part, b);
}

/// What stands in a part of a text stands in the text.
pub proof fn within_carries(p: Seq<char>, q: Seq<char>, t: Seq<char>)
    requires
        within(p, q),
        within(q, t),
    ensures
        within(p, t),
{
    let (a, b) = choose|a: Seq<char>, b: Seq<char>| q == #[trigger] (a + p + b);
    let (c, d) = choose|c: Seq<char>, d: Seq<char>| t == #[trigger] (c + q + d);
    assert(t =~= (c + a) + p + (b + d));
    stands_between(c + a, p, b + d);
}

/// A text that stands in another is found there.
pub proof fn within_is_contained(part: Seq<char>, text: Seq<char>)
    requires
        within(part, text),
    ensures
        contains(text, part),
{
    let (a, b) = choose|a: Seq<char>, b: Seq<char>| text == #[trigger] (a + part + b);
    assert(text.subrange(a.len() as int, a.len() as int + part.len()) =~= part);
    assert(occurs_at(text, part, a.len() as int));
}

/// Every one of the joined texts stands in the whole.
pub proof fn joined_parts_stand(parts: Seq<Seq<char>>, sep: Seq<char>, i: int)
    requires
        0 <= i < parts.len(),
    ensures
        within(parts[i], join(parts, sep)),
    decreases parts.len(),
{
    if parts.len() == 1 {
        stands_last(Seq::empty(), parts[0]);
        assert(Seq::empty() + parts[0] =~= parts[0]);
    } else if i == parts.len() - 1 {
        stands_last(join(parts.drop_last(), sep) + sep, parts.last());
    } else {
        joined_parts_stand(parts.drop_last(), sep, i);
        let head = join(parts.drop_last(), sep);
        stands_first(head, sep + parts.last());
        assert(head + (sep + parts.last()) =~= head + sep + parts.last());
        within_carries(parts[i], head, join(parts, sep));
    }
}

/// Joining nothing gives nothing, joining one text gives it, and joining texts
/// in two parts is joining them at once.
pub proof fn joining_in_parts(a: Seq<Seq<char>>, b: Seq<Seq<char>>, sep: Seq<char>)
    ensures
        join(Seq::empty(), sep) == Seq::<char>::empty(),
        a.len() == 1 ==> join(a, sep) == a[0],
        a.len() > 0 && b.len() > 0 ==> join(a + b, sep) == join(a, sep) + sep + join(b, sep),
    decreases b.len(),
{
    if a.len() > 0 && b.len() > 0 {
        assert((a + b).drop_last() =~= a + b.drop_last());
        if b.len() == 1 {
            assert(a + b.drop_last() =~= a);
        } else {
            joining_in_parts(a, b.drop_last(), sep);
            let (x, y) = (join(a, sep), join(b.drop_last(), sep));
            assert(x + sep + y + sep + b.last() =~= x + sep + (y + sep + b.last()));
        }
    }
}

proof fn start_cut(s: Seq<char>) -> (i: int)
    ensures
        0 <= i <= s.len(),
        trim_start(s) == s.skip(i),
        forall|k: int| 0 <= k < i ==> is_space(#[trigger] s[k]),
        i < s.len() ==> !is_space(s[i]),
    decreases s.len(),
{
    if s.len() > 0 && is_space(s[0]) {
        let i = start_cut(s.skip(1));
        assert(s.skip(1).skip(i) =~= s.skip(i + 1));
        assert forall|k: int| 0 <= k < i + 1 implies is_space(#[trigger] s[k]) by {
            if k > 0 {
                assert(s.skip(1)[k - 1] == s[k]);
            }
        }
        if i + 1 < s.len() {
            assert(s.skip(1)[i] == s[i + 1]);
        }
        i + 1
    } else {
        assert(s.skip(0) =~= s);
        0
    }
}

proof fn end_cut(s: Seq<char>) -> (j: int)
    ensures
        0 <= j <= s.len(),
        trim_end(s) == s.take(j),
        forall|k: int| j <= k < s.len() ==> is_space(#[trigger] s[k]),
        j > 0 ==> !is_space(s[j - 1]),
    decreases s.len(),
{
    if s.len() > 0 && is_space(s.last()) {
        let j = end_cut(s.drop_last());
        assert(s.drop_last().take(j) =~= s.take(j));
        assert forall|k: int| j <= k < s.len() implies is_space(#[trigger] s[k]) by {
            if k < s.len() - 1 {
                assert(s.drop_last()[k] == s[k]);
            }
        }
        j
    } else {
        assert(s.take(s.len() as int) =~= s);
        s.len() as int
    }
}

/// Trimming the end cuts whitespace off the end, and nothing else.
pub proof fn trimming_the_end_cuts_whitespace(s: Seq<char>)
    ensures
        trim_end(s).is_prefix_of(s),
        blank(s.skip(trim_end(s).len() as int)),
        trim_end(s).len() > 0 ==> !is_space(trim_end(s).last()),
{
    let j = end_cut(s);
    let rest = s.skip(j);
    assert forall|k: int| 0 <= k < rest.len() implies is_space(#[trigger] rest[k]) by {
        assert(rest[k] == s[j + k]);
    }
}

/// Trimming cuts whitespace off both ends, and nothing else: what is left
/// neither begins nor ends with whitespace, and is empty for blank text alone.
pub proof fn trimming_cuts_whitespace(s: Seq<char>) -> (r: (Seq<char>, Seq<char>))
    ensures
        s == r.0 + trim(s) + r.1,
        blank(r.0),
        blank(r.1),
        trim(s).len() > 0 ==> !is_space(trim(s)[0]) && !is_space(trim(s).last()),
        trim(s).len() == 0 <==> blank(s),
{
    let i = start_cut(s);
    let t = s.skip(i);
    let j = end_cut(t);
    let (a, b) = (s.take(i), t.skip(j));
    assert forall|k: int| 0 <= k < b.len() implies is_space(#[trigger] b[k]) by {
        assert(b[k] == t[j + k]);
    }
    assert(s =~= a + t.take(j) + b);
    if trim(s).len() == 0 {
        assert forall|k: int| 0 <= k < s.len() implies is_space(#[trigger] s[k]) by {
            if k >= i {
                assert(t[k - i] == s[k]);
            }
        }
    } else {
        assert(!is_space(t[j - 1]));
        assert(t[0] == s[i]);
        assert(t[j - 1] == s[i + j - 1]);
    }
    (a, b)
}

/// Text without whitespace at its ends is left as it is.
pub proof fn trimmed_text_stays(s: Seq<char>)
    requires
        s.len() > 0 ==> !is_space(s[0]) && !is_space(s.last()),
    ensures
        trim(s) == s,
{
}

proof fn word_cut(s: Seq<char>) -> (k: int)
    ensures
        0 <= k <= s.len(),
        up_to_space(s) == s.take(k),
        forall|i: int| 0 <= i < k ==> !is_space(#[trigger] s[i]),
        k < s.len() ==> is_space(s[k]),
    decreases s.len(),
{
    if s.len() == 0 || is_space(s[0]) {
        assert(s.take(0) =~= Seq::empty());
        0
    } else {
        let k = word_cut(s.skip(1));
        assert(s.take(k + 1) =~= seq![s[0]] + s.skip(1).take(k));
        assert forall|i: int| 0 <= i < k + 1 implies !is_space(#[trigger] s[i]) by {
            if i > 0 {
                assert(s.skip(1)[i - 1] == s[i]);
            }
        }
        if k + 1 < s.len() {
            assert(s.skip(1)[k] == s[k + 1]);
        }
        k + 1
    }
}

/// The first word holds no whitespace; only whitespace stands before it, and
/// whitespace or nothing behind it.
pub proof fn first_word_is_a_word(s: Seq<char>) -> (r: (Seq<char>, Seq<char>))
    ensures
        s == r.0 + first_word(s) + r.1,
        blank(r.0),
        forall|i: int| 0 <= i < first_word(s).len() ==> !is_space(#[trigger] first_word(s)[i]),
        r.1.len() > 0 ==> is_space(r.1[0]),
        first_word(s).len() == 0 <==> blank(s),
{
    let i = start_cut(s);
    let t = s.skip(i);
    let k = word_cut(t);
    let (a, b) = (s.take(i), t.skip(k));
    assert(s =~= a + t.take(k) + b);
    assert forall|j: int| 0 <= j < first_word(s).len() implies !is_space(
        #[trigger] first_word(s)[j],
    ) by {
        assert(first_word(s)[j] == t[j]);
    }
    if t.len() > 0 {
        assert(t[0] == s[i]);
    } else {
        assert forall|j: int| 0 <= j < s.len() implies is_space(#[trigger] s[j]) by {}
    }
    (a, b)
}

/// The texts that are not empty stay, in their order: taking those of two
/// lists one after the other is taking those of both.
pub proof fn nonempty_keeps_what_is_there(a: Seq<Seq<char>>, b: Seq<Seq<char>>)
    ensures
        nonempty(a + b) == nonempty(a) + nonempty(b),
        a.len() == 1 ==> nonempty(a) == if a[0].len() > 0 { a } else { Seq::empty() },
        nonempty(Seq::empty()) == Seq::<Seq<char>>::empty(),
        forall|i: int| 0 <= i < nonempty(b).len() ==> (#[trigger] nonempty(b)[i]).len() > 0,
    decreases b.len(),
{
    if b.len() == 0 {
        assert(a + b =~= a);
    } else {
        nonempty_keeps_what_is_there(a, b.drop_last());
        assert((a + b).drop_last() =~= a + b.drop_last());
        assert(nonempty(a + b) =~= nonempty(a) + nonempty(b));
    }
    if a.len() == 1 {
        assert(a.drop_last() =~= Seq::empty());
        assert(nonempty(a.drop_last()) =~= Seq::empty());
        assert(nonempty(a) =~= if a[0].len() > 0 { a } else { Seq::empty() });
    }
}

/// A cap keeps the first items, as many as it allows, and all of them where
/// they are no more.
pub proof fn a_cap_keeps_the_first<T>(items: Seq<T>, n: int)
    requires
        0 <= n,
    ensures
        cap(items, n).is_prefix_of(items),
        cap(items, n).len() == if items.len() < n { items.len() as int } else { n },
{
}

/// A clipped text is the start of the text, as long as it may be.
pub proof fn a_clip_keeps_the_start(s: Seq<char>, n: int)
    requires
        0 <= n,
    ensures
        first_chars(s, n).is_prefix_of(s),
        first_chars(s, n).len() == if s.len() < n { s.len() as int } else { n },
{
}

} // verus!
