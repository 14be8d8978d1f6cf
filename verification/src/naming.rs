//! How a session gets its name: topics, slugs and search scores.

use crate::json::{get_text, holds, parse, parsed, text_field};
use crate::text::{
    alphanumeric, ascii_lower, bracketed, bracketed_of, cap, chars_of, is_alphanumeric, is_ascii,
    join, joined, lower, lowered, prose_around_is_skipped, texts, texts_push, trim, trimmed,
};
use vstd::prelude::*;
use vstd::string::*;

verus! {

/// The runs of ASCII letters and digits in a text, and the run at its end.
pub open spec fn runs(s: Seq<char>) -> (Seq<Seq<char>>, Seq<char>)
    decreases s.len(),
{
    if s.len() == 0 {
        (Seq::empty(), Seq::empty())
    } else {
        let (done, run) = runs(s.drop_last());
        if is_alphanumeric(s.last()) {
            (done, run.push(s.last()))
        } else if run.len() > 0 {
            (done.push(run), Seq::empty())
        } else {
            (done, run)
        }
    }
}

/// The words of a text: its runs of ASCII letters and digits.
pub open spec fn words(s: Seq<char>) -> Seq<Seq<char>> {
    let (done, run) = runs(s);
    if run.len() > 0 { done.push(run) } else { done }
}

/// The slug of words: the first five with hyphens between them.
pub open spec fn slug_of(words: Seq<Seq<char>>) -> Seq<char> {
    if words.len() == 0 { "chat"@ } else { join(cap(words, 5), "-"@) }
}

/// The slug of a text.
pub open spec fn slug(s: Seq<char>) -> Seq<char> {
    slug_of(words(lower(s)))
}

fn words_of(s: &str) -> (r: Vec<String>)
    ensures
        texts(r@) == words(s@),
{
    let cs = chars_of(s);
    let mut out: Vec<String> = Vec::new();
    let mut run = String::new();
    let mut i: usize = 0;
    assert(s@.take(0) =~= Seq::<char>::empty());
    assert(texts(out@) =~= Seq::empty());
    while i < cs.len()
        invariant
            i <= cs@.len(),
            cs@ == s@,
            (texts(out@), run@) == runs(s@.take(i as int)),
        decreases cs@.len() - i,
    {
        let c = cs[i];
        proof {
            let t = s@.take(i + 1);
            assert(t.drop_last() =~= s@.take(i as int));
            assert(t.last() == c);
        }
        if alphanumeric(c) {
            run.push(c);
        } else if !run.as_str().is_empty() {
            proof {
                texts_push(out@, run);
            }
            out.push(run);
            run = String::new();
        }
        i += 1;
    }
    assert(s@.take(i as int) =~= s@);
    if !run.as_str().is_empty() {
        proof {
            texts_push(out@, run);
        }
        out.push(run);
    }
    out
}

/// The slug of text that is in lower case already.
pub fn slug_of_words(lowercase: &str) -> (r: String)
    ensures
        r@ == slug_of(words(lowercase@)),
{
    let mut ws = words_of(lowercase);
    assert(texts(ws@).len() == ws@.len());
    if ws.len() == 0 {
        return "chat".to_owned();
    }
    let ghost all = texts(ws@);
    if ws.len() > 5 {
        ws.truncate(5);
        assert(texts(ws@) =~= all.take(5));
    }
    joined(&ws, "-")
}

/// A short slug: the first five words of a text in lower case, with hyphens
/// between them. A slug is its own slug.
pub fn slugify(s: &str) -> (r: String)
    ensures
        r@ == slug(s@),
        is_slug(r@),
        is_slug(s@) ==> r@ == s@,
{
    let low = lowered(s);
    let r = slug_of_words(low.as_str());
    proof {
        slug_is_kebab(low@);
        if is_slug(s@) {
            slug_has_no_stray_hyphen(s@);
            slug_keeps_slugs(s@);
        }
    }
    r
}

/// The characters of a word of a slug: lower-case letters and digits.
pub open spec fn is_word_char(c: char) -> bool {
    '0' <= c <= '9' || 'a' <= c <= 'z'
}

/// Whether a text is a word of a slug.
pub open spec fn is_slug_word(w: Seq<char>) -> bool {
    w.len() > 0 && forall|i: int| 0 <= i < w.len() ==> is_word_char(#[trigger] w[i])
}

/// Whether these are the words of a slug: one to five.
pub open spec fn are_slug_words(ws: Seq<Seq<char>>) -> bool {
    1 <= ws.len() <= 5 && forall|k: int| 0 <= k < ws.len() ==> is_slug_word(#[trigger] ws[k])
}

/// Whether a text is a slug: one to five words with single hyphens between
/// them.
pub open spec fn is_slug(s: Seq<char>) -> bool {
    exists|ws: Seq<Seq<char>>| are_slug_words(ws) && s == #[trigger] join(ws, "-"@)
}

pub open spec fn no_capitals(s: Seq<char>) -> bool {
    forall|i: int| 0 <= i < s.len() ==> !('A' <= #[trigger] s[i] <= 'Z')
}

proof fn runs_are_slug_words(s: Seq<char>)
    requires
        no_capitals(s),
    ensures
        runs(s).1.len() > 0 ==> is_slug_word(runs(s).1),
        forall|k: int| 0 <= k < runs(s).0.len() ==> is_slug_word(#[trigger] runs(s).0[k]),
    decreases s.len(),
{
    if s.len() > 0 {
        let shorter = s.drop_last();
        assert forall|i: int| 0 <= i < shorter.len() implies !('A' <= #[trigger] shorter[i] <= 'Z') by {
            assert(shorter[i] == s[i]);
        }
        runs_are_slug_words(shorter);
        assert(s.last() == s[s.len() - 1]);
        let (done, run) = runs(shorter);
        assert forall|k: int| 0 <= k < runs(s).0.len() implies is_slug_word(
            #[trigger] runs(s).0[k],
        ) by {
            if k < done.len() {
                assert(runs(s).0[k] == done[k]);
            }
        }
        if is_alphanumeric(s.last()) {
            assert forall|i: int| 0 <= i < runs(s).1.len() implies is_word_char(
                #[trigger] runs(s).1[i],
            ) by {
                if i < run.len() {
                    assert(runs(s).1[i] == run[i]);
                }
            }
        }
    }
}

/// The slug of a text in lower case is one to five words of lower-case letters
/// and digits, with single hyphens between them, and so never empty.
pub proof fn slug_is_kebab(lowercase: Seq<char>)
    requires
        no_capitals(lowercase),
    ensures
        is_slug(slug_of(words(lowercase))),
{
    runs_are_slug_words(lowercase);
    let ws = words(lowercase);
    let (done, run) = runs(lowercase);
    if ws.len() == 0 {
        reveal_strlit("chat");
        let chat = seq!["chat"@];
        assert(is_slug_word("chat"@));
        assert(are_slug_words(chat));
        assert(join(chat, "-"@) == "chat"@);
    } else {
        let first = cap(ws, 5);
        assert forall|k: int| 0 <= k < first.len() implies is_slug_word(#[trigger] first[k]) by {
            assert(first[k] == ws[k]);
            if k < done.len() {
                assert(ws[k] == done[k]);
            }
        }
        assert(are_slug_words(first));
        assert(slug_of(ws) == join(first, "-"@));
    }
}

proof fn joined_words(ws: Seq<Seq<char>>)
    requires
        ws.len() > 0,
        forall|k: int| 0 <= k < ws.len() ==> is_slug_word(#[trigger] ws[k]),
    ensures
        ({
            let s = join(ws, "-"@);
            &&& s.len() > 0 && is_word_char(s[0]) && is_word_char(s.last())
            &&& forall|i: int| 0 <= i < s.len() ==> is_word_char(#[trigger] s[i]) || s[i] == '-'
            &&& forall|i: int| 0 <= i < s.len() - 1 ==> #[trigger] s[i] != '-' || s[i + 1] != '-'
            &&& runs(s) == (ws.drop_last(), ws.last())
        }),
    decreases ws.len(),
{
    reveal_strlit("-");
    let w = ws.last();
    assert(is_slug_word(ws[ws.len() - 1]));
    if ws.len() == 1 {
        assert(ws.drop_last() =~= Seq::empty());
        runs_of_word(Seq::empty(), w);
        assert(Seq::<char>::empty() + w =~= w);
    } else {
        let shorter = ws.drop_last();
        assert forall|k: int| 0 <= k < shorter.len() implies is_slug_word(#[trigger] shorter[k]) by {
            assert(shorter[k] == ws[k]);
        }
        joined_words(shorter);
        let a = join(shorter, "-"@);
        let b = a + "-"@;
        assert(b.drop_last() =~= a);
        assert(b.last() == '-');
        assert(is_slug_word(shorter[shorter.len() - 1]));
        assert(runs(b).0 =~= shorter.drop_last().push(shorter.last()));
        assert(shorter.drop_last().push(shorter.last()) =~= shorter);
        runs_of_word(b, w);
        let s = join(ws, "-"@);
        assert(s == b + w);
        assert forall|i: int| 0 <= i < s.len() - 1 implies #[trigger] s[i] != '-' || s[i + 1]
            != '-' by {
            if i < a.len() - 1 {
                assert(s[i] == a[i] && s[i + 1] == a[i + 1]);
            } else if i == a.len() - 1 {
                assert(s[i] == a[i]);
            } else if i >= b.len() {
                assert(s[i] == w[i - b.len()]);
            } else {
                assert(s[i + 1] == w[0]);
            }
        }
    }
}

proof fn runs_of_word(a: Seq<char>, w: Seq<char>)
    requires
        forall|i: int| 0 <= i < w.len() ==> is_word_char(#[trigger] w[i]),
    ensures
        runs(a + w) == (runs(a).0, runs(a).1 + w),
    decreases w.len(),
{
    if w.len() == 0 {
        assert(a + w =~= a);
        assert(runs(a).1 + w =~= runs(a).1);
    } else {
        let shorter = w.drop_last();
        assert forall|i: int| 0 <= i < shorter.len() implies is_word_char(#[trigger] shorter[i]) by {
            assert(shorter[i] == w[i]);
        }
        runs_of_word(a, shorter);
        assert((a + w).drop_last() =~= a + shorter);
        assert((a + w).last() == w[w.len() - 1]);
        assert((runs(a).1 + shorter).push(w.last()) =~= runs(a).1 + w);
    }
}

/// A slug is not empty, holds lower-case letters, digits and hyphens alone, and
/// has no hyphen at either end nor two in a row.
pub proof fn slug_has_no_stray_hyphen(s: Seq<char>)
    requires
        is_slug(s),
    ensures
        s.len() > 0,
        s[0] != '-',
        s.last() != '-',
        forall|i: int| 0 <= i < s.len() ==> is_word_char(#[trigger] s[i]) || s[i] == '-',
        forall|i: int| 0 <= i < s.len() - 1 ==> #[trigger] s[i] != '-' || s[i + 1] != '-',
        is_ascii(s),
        ascii_lower(s) == s,
{
    let ws = choose|ws: Seq<Seq<char>>| are_slug_words(ws) && s == #[trigger] join(ws, "-"@);
    joined_words(ws);
    assert(ascii_lower(s) =~= s);
}

/// The words of a slug give the slug back.
pub proof fn slug_keeps_slugs(s: Seq<char>)
    requires
        is_slug(s),
    ensures
        slug_of(words(s)) == s,
{
    let ws = choose|ws: Seq<Seq<char>>| are_slug_words(ws) && s == #[trigger] join(ws, "-"@);
    joined_words(ws);
    assert(is_slug_word(ws[ws.len() - 1]));
    assert(ws.drop_last().push(ws.last()) =~= ws);
    assert(words(s) == ws);
    assert(cap(ws, 5) =~= ws);
}

/// The topic and the slug that a reply names: the fields of the object that is
/// its first part in braces. Prose around it does not matter. Without an id the
/// topic gives the slug.
pub open spec fn topic_in(text: Seq<char>) -> Option<(Seq<char>, Seq<char>)> {
    match bracketed(text, '{', '}') {
        None => None,
        Some(part) => match parsed(part) {
            None => None,
            Some(v) => match get_text(v, "topic"@) {
                None => None,
                Some(topic) => if trim(topic).len() == 0 {
                    None
                } else {
                    match get_text(v, "id"@) {
                        Some(id) => Some((trim(topic), slug(id))),
                        None => Some((trim(topic), slug(trim(topic)))),
                    }
                },
            },
        },
    }
}

/// Prose around the object of a reply does not matter.
pub proof fn prose_around_topic_is_skipped(before: Seq<char>, reply: Seq<char>, after: Seq<char>)
    requires
        forall|j: int| 0 <= j < before.len() ==> #[trigger] before[j] != '{',
        bracketed(reply, '{', '}') is Some,
    ensures
        topic_in(before + reply + after) == topic_in(reply),
{
    prose_around_is_skipped(before, reply, after, '{', '}');
}

/// The topic and the slug that a reply names.
pub fn parse_topic(text: &str) -> (r: Option<(String, String)>)
    ensures
        match r {
            Some(p) => topic_in(text@) == Some((p.0@, p.1@)),
            None => topic_in(text@) is None,
        },
{
    let part = match bracketed_of(text, '{', '}') {
        Some(part) => part,
        None => {
            return None;
        },
    };
    let v = match parse(part) {
        Some(v) => v,
        None => {
            return None;
        },
    };
    topic_of(&v)
}

/// The topic and the slug that a parsed reply names.
pub fn topic_of(v: &serde_json::Value) -> (r: Option<(String, String)>)
    ensures
        match r {
            Some(p) => match get_text(holds(*v), "topic"@) {
                Some(topic) => p.0@ == trim(topic) && trim(topic).len() > 0 && p.1@ == slug(
                    match get_text(holds(*v), "id"@) {
                        Some(id) => id,
                        None => trim(topic),
                    },
                ),
                None => false,
            },
            None => match get_text(holds(*v), "topic"@) {
                Some(topic) => trim(topic).len() == 0,
                None => true,
            },
        },
{
    match text_field(v, "topic") {
        None => None,
        Some(topic) => {
            let topic = trimmed(topic);
            if topic.is_empty() {
                return None;
            }
            let raw = match text_field(v, "id") {
                Some(id) => id,
                None => topic,
            };
            Some((topic.to_owned(), slugify(raw)))
        },
    }
}

/// The better of two scores.
pub open spec fn better(a: Option<i32>, b: Option<i32>) -> Option<i32> {
    match (a, b) {
        (Some(x), Some(y)) => Some(if x >= y { x } else { y }),
        (Some(x), None) => Some(x),
        (None, y) => y,
    }
}

fn better_of(a: Option<i32>, b: Option<i32>) -> (r: Option<i32>)
    ensures
        r == better(a, b),
{
    match (a, b) {
        (Some(x), Some(y)) => Some(if x >= y { x } else { y }),
        (Some(x), None) => Some(x),
        (None, y) => y,
    }
}

/// The score of a session in a search: the best of the scores of its title,
/// its slug and its id, where a match in the slug counts two more.
pub fn session_score(title: Option<i32>, slug: Option<i32>, id: Option<i32>) -> (r: Option<i32>)
    requires
        slug matches Some(s) ==> s <= i32::MAX - 2,
    ensures
        r == better(
            better(
                title,
                match slug {
                    Some(s) => Some((s + 2) as i32),
                    None => None,
                },
            ),
            id,
        ),
{
    let boosted = match slug {
        Some(s) => Some(s + 2),
        None => None,
    };
    better_of(better_of(title, boosted), id)
}

} // verus!
