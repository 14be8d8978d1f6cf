//! A swarm turn: personas converse in rounds until a moderator sees them
//! converge, and one reply sums the conversation up.

use crate::store::{Persona, PersonaView};
use crate::text::{
    after_prefix, ascii_upper, bracketed, bracketed_of, contains, count, find, find_char, found,
    found_char, has, is_space, join, joined, lines, lines_first, lines_join, lines_of, no_crlf,
    pairs, rest_of, same, start_of, texts, texts_push, trim, trim_end, trim_end_char, trim_start,
    trim_start_char, trimmed, trimmed_end_char, trimmed_start_char, upper_of, views, views_push,
};
use std::collections::HashSet;
use vstd::prelude::*;
use vstd::string::*;

verus! {

broadcast use vstd::std_specs::hash::group_hash_axioms;

/// The most rounds of a turn.
pub const MAX_ROUNDS: usize = 4;

/// The tool calls that one response may make.
pub const SWARM_PERSONA_MAX_TOOL_ITERS: usize = 8;

/// The most personas that a moderator lets a conversation grow to.
pub const MAX_PERSONAS: usize = 6;

/// How an edited persona file is read: a name line, a model line, a line of
/// three dashes, and the blurb.
pub open spec fn persona_in(text: Seq<char>) -> Result<PersonaView, Seq<char>> {
    let ls = lines(text);
    match (field_line(ls, 0, "name:"@), field_line(ls, 1, "model:"@)) {
        (None, _) => Err("first line must be `name: <non-empty name>`"@),
        (Some(_), None) => Err("second line must be `model: <model id>`"@),
        (Some(name), Some(model)) => match dashes_from(ls, 2) {
            None => Err("missing `---` before the blurb"@),
            Some(k) => Ok(PersonaView { name, model, blurb: trim(join(ls.skip(k + 1), "\n"@)) }),
        },
    }
}

/// The value of line `i`, where it begins with `key` and holds a value.
pub open spec fn field_line(ls: Seq<Seq<char>>, i: int, key: Seq<char>) -> Option<Seq<char>> {
    if i < ls.len() && key.is_prefix_of(ls[i]) && trim(ls[i].skip(key.len() as int)).len() > 0 {
        Some(trim(ls[i].skip(key.len() as int)))
    } else {
        None
    }
}

/// The first line at or after `i` that holds three dashes alone.
pub open spec fn dashes_from(ls: Seq<Seq<char>>, i: int) -> Option<int>
    decreases ls.len() - i,
{
    if i < 0 || i >= ls.len() {
        None
    } else if trim(ls[i]) == "---"@ {
        Some(i)
    } else {
        dashes_from(ls, i + 1)
    }
}

fn field_of(ls: &Vec<String>, i: usize, key: &str) -> (r: Option<String>)
    ensures
        match r {
            Some(s) => field_line(texts(ls@), i as int, key@) == Some(s@),
            None => field_line(texts(ls@), i as int, key@) is None,
        },
{
    assert(texts(ls@).len() == ls@.len());
    if i < ls.len() {
        assert(texts(ls@)[i as int] == ls@[i as int]@);
        if let Some(rest) = after_prefix(ls[i].as_str(), key) {
            let value = trimmed(rest);
            if !value.is_empty() {
                return Some(value.to_owned());
            }
        }
    }
    None
}

/// Reads an edited persona file.
pub fn parse_persona_editor(text: &str) -> (r: Result<Persona, String>)
    ensures
        match r {
            Ok(p) => persona_in(text@) == Ok::<PersonaView, Seq<char>>(p@),
            Err(e) => persona_in(text@) == Err::<PersonaView, Seq<char>>(e@),
        },
{
    let ls = lines_of(text);
    let name = match field_of(&ls, 0, "name:") {
        Some(s) => s,
        None => {
            return Err("first line must be `name: <non-empty name>`".to_owned());
        },
    };
    let model = match field_of(&ls, 1, "model:") {
        Some(s) => s,
        None => {
            return Err("second line must be `model: <model id>`".to_owned());
        },
    };
    assert(texts(ls@).len() == ls@.len());
    let n: usize = ls.len();
    let mut k: usize = 2;
    while k < n && !same(trimmed(ls[k].as_str()), "---")
        invariant
            2 <= k,
            n == ls@.len() == texts(ls@).len(),
            k <= n || n < 2,
            dashes_from(texts(ls@), 2) == dashes_from(texts(ls@), k as int),
        decreases n - k,
    {
        assert(texts(ls@)[k as int] == ls@[k as int]@);
        k += 1;
    }
    if k >= n {
        return Err("missing `---` before the blurb".to_owned());
    }
    assert(texts(ls@)[k as int] == ls@[k as int]@);
    let mut rest: Vec<String> = Vec::new();
    let mut i: usize = k + 1;
    assert(texts(rest@) =~= texts(ls@).subrange(k + 1, i as int));
    while i < n
        invariant
            k < i <= n == ls@.len(),
            texts(rest@) == texts(ls@).subrange(k + 1, i as int),
        decreases n - i,
    {
        let line = ls[i].clone();
        proof {
            texts_push(rest@, line);
            assert(texts(ls@).subrange(k + 1, i as int).push(line@) =~= texts(ls@).subrange(
                k + 1,
                i + 1,
            ));
        }
        rest.push(line);
        i += 1;
    }
    assert(texts(ls@).subrange(k + 1, i as int) =~= texts(ls@).skip(k + 1));
    let blurb = trimmed(joined(&rest, "\n").as_str()).to_owned();
    let p = Persona { name, model, blurb };
    Ok(p)
}

/// The file in which a persona is edited.
pub open spec fn persona_file(p: PersonaView) -> Seq<char> {
    "name: "@ + p.name + "\nmodel: "@ + p.model + "\n---\n"@ + p.blurb + "\n"@
}

/// The file in which a persona is edited.
pub fn persona_editor_text(p: &Persona) -> (r: String)
    ensures
        r@ == persona_file(p@),
{
    let mut s = "name: ".to_owned();
    s.append(p.name.as_str());
    s.append("\nmodel: ");
    s.append(p.model.as_str());
    s.append("\n---\n");
    s.append(p.blurb.as_str());
    s.append("\n");
    s
}

/// A persona that is edited and left as it was comes back as it was. Its name
/// and model are one line each and not blank, and neither they nor the blurb
/// have whitespace around them; no line of the blurb ends in a carriage return.
pub proof fn persona_file_reads_back(p: PersonaView)
    requires
        p.name.len() > 0,
        trim(p.name) == p.name,
        !p.name.contains('\n'),
        p.model.len() > 0,
        trim(p.model) == p.model,
        !p.model.contains('\n'),
        trim(p.blurb) == p.blurb,
        no_crlf(p.blurb),
    ensures
        persona_in(persona_file(p)) == Ok::<PersonaView, Seq<char>>(p),
{
    reveal_strlit("name: ");
    reveal_strlit("\nmodel: ");
    reveal_strlit("\n---\n");
    reveal_strlit("\n");
    reveal_strlit("name:");
    reveal_strlit("model:");
    reveal_strlit("---");
    let l0 = "name: "@ + p.name;
    let l1 = "model:"@ + seq![' '] + p.model;
    let l2 = "---"@;
    let tail = p.blurb + seq!['\n'];
    let text = persona_file(p);
    assert(text =~= l0 + seq!['\n'] + (l1 + seq!['\n'] + (l2 + seq!['\n'] + tail)));
    assert(!l0.contains('\n')) by {
        assert forall|j: int| 0 <= j < l0.len() implies l0[j] != '\n' by {
            if j >= 6 {
                assert(l0[j] == p.name[j - 6]);
                assert(p.name.contains(l0[j]));
            }
        }
    }
    assert(!l1.contains('\n')) by {
        assert forall|j: int| 0 <= j < l1.len() implies l1[j] != '\n' by {
            if j >= 7 {
                assert(l1[j] == p.model[j - 7]);
                assert(p.model.contains(l1[j]));
            }
        }
    }
    assert(!l2.contains('\n'));
    lines_first(l0, l1 + seq!['\n'] + (l2 + seq!['\n'] + tail));
    lines_first(l1, l2 + seq!['\n'] + tail);
    lines_first(l2, tail);
    trimmed_ends(p.name);
    trimmed_ends(p.model);
    trimmed_ends(p.blurb);
    assert(l0.last() == p.name.last());
    assert(l1.last() == p.model.last());
    let ls = lines(text);
    let rest = lines(tail);
    assert(ls =~= seq![l0, l1, l2] + rest);
    assert(l0.take(5) =~= "name:"@);
    assert("name:"@.is_prefix_of(l0));
    assert(l0.skip(5) =~= seq![' '] + p.name);
    trim_after_space(p.name);
    assert(l1.take(6) =~= "model:"@);
    assert("model:"@.is_prefix_of(l1));
    assert(l1.skip(6) =~= seq![' '] + p.model);
    trim_after_space(p.model);
    assert(trim(l2) == l2);
    assert(dashes_from(ls, 2) == Some(2int));
    assert(ls.skip(3) =~= rest);
    if p.blurb.len() > 0 {
        assert(p.blurb.last() != '\r');
    }
    lines_join(p.blurb);
}

/// A text without whitespace around it does not end in whitespace.
pub proof fn trimmed_ends(s: Seq<char>)
    requires
        trim(s) == s,
    ensures
        s.len() > 0 ==> !is_space(s.last()) && !is_space(s[0]),
{
    trim_shorter(s);
}

proof fn trim_shorter(s: Seq<char>)
    ensures
        trim_start(s).len() <= s.len(),
        s.len() > 0 && is_space(s[0]) ==> trim_start(s).len() < s.len(),
        trim_end(s).len() <= s.len(),
        s.len() > 0 && is_space(s.last()) ==> trim_end(s).len() < s.len(),
        trim(s).len() <= trim_start(s).len(),
    decreases s.len(),
{
    if s.len() > 0 {
        trim_shorter(s.skip(1));
        trim_shorter(s.drop_last());
        if is_space(s[0]) {
            trim_shorter(trim_start(s));
        } else {
            assert(trim_start(s) == s);
        }
    }
}

proof fn trim_after_space(s: Seq<char>)
    ensures
        trim(seq![' '] + s) == trim(s),
{
    let t = seq![' '] + s;
    assert(t[0] == ' ');
    assert(t.skip(1) =~= s);
}

/// Whether every one of the first `persona_count` rows of the roster has
/// answered; an empty roster has not.
pub fn all_personas_answered(persona_count: usize, answered: &HashSet<usize>) -> (r: bool)
    ensures
        r == (persona_count > 0 && forall|i: usize| i < persona_count ==> answered@.contains(i)),
{
    if persona_count == 0 {
        return false;
    }
    let mut i: usize = 0;
    while i < persona_count
        invariant
            i <= persona_count,
            forall|j: usize| j < i ==> answered@.contains(j),
        decreases persona_count - i,
    {
        if !answered.contains(&i) {
            assert(!answered@.contains(i));
            return false;
        }
        i += 1;
    }
    true
}

/// What each speaker said, as a transcript shows it.
pub open spec fn spoken(discussion: Seq<(Seq<char>, Seq<char>)>) -> Seq<Seq<char>> {
    discussion.map_values(|p: (Seq<char>, Seq<char>)| "**"@ + p.0 + "**: "@ + p.1)
}

/// The conversation so far.
pub open spec fn transcript(discussion: Seq<(Seq<char>, Seq<char>)>) -> Seq<char> {
    join(spoken(discussion), "\n\n"@)
}

/// The conversation so far, or `None` where nobody has spoken.
pub fn render_discussion(discussion: &Vec<(String, String)>) -> (r: Option<String>)
    ensures
        r is None <==> discussion@.len() == 0,
        r matches Some(s) ==> s@ == transcript(pairs(discussion@)),
{
    if discussion.len() == 0 {
        return None;
    }
    let ghost all = spoken(pairs(discussion@));
    let mut out: Vec<String> = Vec::new();
    let mut i: usize = 0;
    assert(texts(out@) =~= all.take(0));
    while i < discussion.len()
        invariant
            i <= discussion@.len(),
            all == spoken(pairs(discussion@)),
            texts(out@) == all.take(i as int),
        decreases discussion@.len() - i,
    {
        let mut s = "**".to_owned();
        s.append(discussion[i].0.as_str());
        s.append("**: ");
        s.append(discussion[i].1.as_str());
        proof {
            texts_push(out@, s);
            assert(all.take(i as int).push(s@) =~= all.take(i + 1));
        }
        out.push(s);
        i += 1;
    }
    assert(all.take(i as int) =~= all);
    Some(joined(&out, "\n\n"))
}

/// The suggestions with a name that is not blank, as personas of a model.
pub open spec fn suggested(items: Seq<(Seq<char>, Seq<char>)>, model: Seq<char>) -> Seq<PersonaView>
    decreases items.len(),
{
    if items.len() == 0 {
        Seq::empty()
    } else if trim(items.last().0).len() == 0 {
        suggested(items.drop_last(), model)
    } else {
        suggested(items.drop_last(), model).push(
            PersonaView { name: items.last().0, model, blurb: items.last().1 },
        )
    }
}

/// What a list of suggestions stands for, or why it could not be read.
pub open spec fn read_pairs(r: Result<Vec<(String, String)>, String>) -> Result<
    Seq<(Seq<char>, Seq<char>)>,
    Seq<char>,
> {
    match r {
        Ok(v) => Ok(pairs(v@)),
        Err(e) => Err(e@),
    }
}

/// The personas that a reply suggests, where `items` is what its array part
/// reads as a list of names and blurbs.
pub open spec fn suggestions(
    raw: Seq<char>,
    items: Result<Seq<(Seq<char>, Seq<char>)>, Seq<char>>,
    model: Seq<char>,
) -> Result<Seq<PersonaView>, Seq<char>> {
    if bracketed(raw, '[', ']') is None {
        Err("no JSON array in response"@)
    } else {
        match items {
            Ok(v) => Ok(suggested(v, model)),
            Err(e) => Err(e),
        }
    }
}

/// What a roster, or the reason why there is none, stands for.
pub open spec fn roster_view(r: Result<Vec<Persona>, String>) -> Result<
    Seq<PersonaView>,
    Seq<char>,
> {
    match r {
        Ok(v) => Ok(views(v@)),
        Err(e) => Err(e@),
    }
}

/// The personas that a reply suggests, all with the model `default_model`.
/// `items` is what the reply's array part (see `bracketed_of`) reads as a list
/// of names and blurbs, or why it does not.
pub fn parse_suggested_personas(
    raw: &str,
    items: Result<Vec<(String, String)>, String>,
    default_model: &str,
) -> (r: Result<Vec<Persona>, String>)
    ensures
        roster_view(r) == suggestions(raw@, read_pairs(items), default_model@),
{
    if bracketed_of(raw, '[', ']').is_none() {
        return Err("no JSON array in response".to_owned());
    }
    let items = match items {
        Ok(v) => v,
        Err(e) => {
            return Err(e);
        },
    };
    let mut out: Vec<Persona> = Vec::new();
    let mut i: usize = 0;
    assert(pairs(items@).take(0) =~= Seq::<(Seq<char>, Seq<char>)>::empty());
    assert(views(out@) =~= Seq::empty());
    while i < items.len()
        invariant
            i <= items@.len(),
            views(out@) == suggested(pairs(items@).take(i as int), default_model@),
        decreases items@.len() - i,
    {
        proof {
            let t = pairs(items@).take(i + 1);
            assert(t.drop_last() =~= pairs(items@).take(i as int));
            assert(t.last() == (items@[i as int].0@, items@[i as int].1@));
        }
        if !trimmed(items[i].0.as_str()).is_empty() {
            let p = Persona {
                name: items[i].0.clone(),
                model: default_model.to_owned(),
                blurb: items[i].1.clone(),
            };
            proof {
                views_push(out@, p);
            }
            out.push(p);
        }
        i += 1;
    }
    assert(pairs(items@).take(i as int) =~= pairs(items@));
    Ok(out)
}

/// The moderator's verdict.
pub enum ModeratorVerdict {
    Converged,
    Continue,
    /// A point of view is missing: the name and the blurb of a new persona.
    AddPersona { name: String, blurb: String },
}

/// What a `ModeratorVerdict` stands for.
pub enum ModeratorVerdictView {
    Converged,
    Continue,
    AddPersona { name: Seq<char>, blurb: Seq<char> },
}

impl View for ModeratorVerdict {
    type V = ModeratorVerdictView;

    open spec fn view(&self) -> ModeratorVerdictView {
        match *self {
            ModeratorVerdict::Converged => ModeratorVerdictView::Converged,
            ModeratorVerdict::Continue => ModeratorVerdictView::Continue,
            ModeratorVerdict::AddPersona { name, blurb } => ModeratorVerdictView::AddPersona {
                name: name@,
                blurb: blurb@,
            },
        }
    }
}

/// The first line of a text, empty where it has none.
pub open spec fn line_one(s: Seq<char>) -> Seq<char> {
    if lines(s).len() == 0 {
        Seq::empty()
    } else {
        lines(s)[0]
    }
}

/// The persona that a verdict names behind `ADD:`, with `|` before its blurb.
pub open spec fn named_persona(raw: Seq<char>) -> Option<(Seq<char>, Seq<char>)> {
    match find(ascii_upper(raw), "ADD:"@) {
        None => None,
        Some(i) => {
            let rest = raw.skip(i + "ADD:"@.len());
            match find_char(rest, '|') {
                None => None,
                Some(bar) => {
                    let name = trim_end_char(trim_start_char(trim(rest.take(bar)), '*'), '*');
                    let blurb = trim(line_one(rest.skip(bar + 1)));
                    if name.len() > 0 && blurb.len() > 0 {
                        Some((name, blurb))
                    } else {
                        None
                    }
                },
            }
        },
    }
}

/// How a moderator's reply is read.
pub open spec fn verdict(raw: Seq<char>) -> ModeratorVerdictView {
    match named_persona(raw) {
        Some(p) => ModeratorVerdictView::AddPersona { name: p.0, blurb: p.1 },
        None => if contains(ascii_upper(raw), "CONVERGED"@) {
            ModeratorVerdictView::Converged
        } else {
            ModeratorVerdictView::Continue
        },
    }
}

/// Reads a moderator's reply, in upper or lower case. One that is neither a
/// usable ADD nor names convergence lets the conversation go on.
pub fn parse_moderator_verdict(raw: &str) -> (r: ModeratorVerdict)
    ensures
        r@ == verdict(raw@),
{
    let upper = upper_of(raw);
    if let Some(i) = found(upper.as_str(), "ADD:") {
        let rest = rest_of(raw, i + count("ADD:"));
        if let Some(bar) = found_char(rest, '|') {
            let name = trimmed_end_char(
                trimmed_start_char(trimmed(start_of(rest, bar)), '*'),
                '*',
            );
            let after = lines_of(rest_of(rest, bar + 1));
            assert(texts(after@).len() == after@.len());
            let line = if after.len() == 0 {
                String::new()
            } else {
                assert(texts(after@)[0] == after@[0]@);
                after[0].clone()
            };
            let blurb = trimmed(line.as_str());
            if !name.is_empty() && !blurb.is_empty() {
                return ModeratorVerdict::AddPersona {
                    name: name.to_owned(),
                    blurb: blurb.to_owned(),
                };
            }
        }
    }
    if has(upper.as_str(), "CONVERGED") {
        return ModeratorVerdict::Converged;
    }
    ModeratorVerdict::Continue
}

} // verus!
