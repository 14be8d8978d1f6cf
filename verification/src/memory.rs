//! A space's memory: numbered facts, and the changes that a model asks for.

use crate::json::{
    as_list, get_number, get_text, held, holds, number_field, parse, parsed, text_field, Json,
};
use crate::text::{
    bracketed, bracketed_of, clipped, count, decimal, decimal_is_trimmed, decimal_of,
    decimal_reads_back, find, find_found, first_chars, found, is_digit, lines, lines_first,
    lines_of, number_in, occurs_at, parse_number, prose_around_is_skipped, rest_of, same, start_of,
    strip_cr, texts, texts_push, trim, trimmed, views, views_push,
};
use vstd::prelude::*;
use vstd::string::*;

verus! {

/// The most characters of a memory file that are read.
pub const MAX_MEMORY_CHARS: usize = 120000;

/// One change to the facts: a new one, or a change to a numbered one.
pub enum MemoryOp {
    Add(String),
    Update(usize, String),
    Delete(usize),
}

/// What a `MemoryOp` stands for.
pub enum MemoryOpView {
    Add(Seq<char>),
    Update(usize, Seq<char>),
    Delete(usize),
}

impl View for MemoryOp {
    type V = MemoryOpView;

    open spec fn view(&self) -> MemoryOpView {
        match *self {
            MemoryOp::Add(s) => MemoryOpView::Add(s@),
            MemoryOp::Update(id, s) => MemoryOpView::Update(id, s@),
            MemoryOp::Delete(id) => MemoryOpView::Delete(id),
        }
    }
}

/// The number and the text of a fact line, such as `3. some fact`.
pub open spec fn fact_line(line: Seq<char>) -> Option<(nat, Seq<char>)> {
    match find(line, ". "@) {
        None => None,
        Some(k) => match parse_number(trim(line.take(k)), usize::MAX as nat) {
            None => None,
            Some(id) => Some((id, trim(line.skip(k + ". "@.len())))),
        },
    }
}

/// Reads one fact line.
pub fn parse_fact_line(line: &str) -> (r: Option<(usize, String)>)
    ensures
        match r {
            Some(p) => fact_line(line@) == Some((p.0 as nat, p.1@)),
            None => fact_line(line@) is None,
        },
{
    match found(line, ". ") {
        None => None,
        Some(k) => match number_in(trimmed(start_of(line, k)), usize::MAX as u64) {
            None => None,
            Some(id) => Some(
                (id as usize, trimmed(rest_of(line, k + count(". "))).to_owned()),
            ),
        },
    }
}

/// The facts of the lines, in their order.
pub open spec fn facts_of(ls: Seq<Seq<char>>) -> Seq<Seq<char>>
    decreases ls.len(),
{
    if ls.len() == 0 {
        Seq::empty()
    } else {
        match fact_line(ls.last()) {
            Some(p) => facts_of(ls.drop_last()).push(p.1),
            None => facts_of(ls.drop_last()),
        }
    }
}

/// The facts of a memory file.
pub fn facts_in(text: &str) -> (r: Vec<String>)
    ensures
        texts(r@) == facts_of(lines(text@)),
{
    let ls = lines_of(text);
    let mut out: Vec<String> = Vec::new();
    let mut i: usize = 0;
    assert(texts(ls@).take(0) =~= Seq::<Seq<char>>::empty());
    assert(texts(out@) =~= Seq::empty());
    while i < ls.len()
        invariant
            i <= ls@.len(),
            texts(out@) == facts_of(texts(ls@).take(i as int)),
        decreases ls@.len() - i,
    {
        proof {
            let t = texts(ls@).take(i + 1);
            assert(t.drop_last() =~= texts(ls@).take(i as int));
            assert(t.last() == ls@[i as int]@);
        }
        if let Some((_, fact)) = parse_fact_line(ls[i].as_str()) {
            proof {
                texts_push(out@, fact);
            }
            out.push(fact);
        }
        i += 1;
    }
    assert(texts(ls@).take(i as int) =~= texts(ls@));
    out
}

/// The change that an item of a model's reply asks for.
pub open spec fn op_in(v: Json) -> Option<MemoryOpView> {
    match get_text(v, "op"@) {
        None => None,
        Some(op) => if op == "add"@ {
            match get_text(v, "text"@) {
                Some(s) => Some(MemoryOpView::Add(trim(s))),
                None => None,
            }
        } else if op == "update"@ {
            match (get_number(v, "id"@), get_text(v, "text"@)) {
                (Some(id), Some(s)) => Some(MemoryOpView::Update(id as usize, trim(s))),
                _ => None,
            }
        } else if op == "delete"@ {
            match get_number(v, "id"@) {
                Some(id) => Some(MemoryOpView::Delete(id as usize)),
                None => None,
            }
        } else {
            None
        },
    }
}

/// The changes that the items ask for; an item that is malformed is skipped.
pub open spec fn ops_in(items: Seq<Json>) -> Seq<MemoryOpView>
    decreases items.len(),
{
    if items.len() == 0 {
        Seq::empty()
    } else {
        match op_in(items.last()) {
            Some(op) => ops_in(items.drop_last()).push(op),
            None => ops_in(items.drop_last()),
        }
    }
}

/// The changes that a reply asks for: those in the array that is its first
/// bracketed part. Prose around it does not matter.
pub open spec fn reply_ops(text: Seq<char>) -> Seq<MemoryOpView> {
    match bracketed(text, '[', ']') {
        None => Seq::empty(),
        Some(part) => match parsed(part) {
            Some(Json::List(items)) => ops_in(items),
            _ => Seq::empty(),
        },
    }
}

/// Prose around the array of a reply does not matter.
pub proof fn prose_around_changes_is_skipped(before: Seq<char>, reply: Seq<char>, after: Seq<char>)
    requires
        forall|j: int| 0 <= j < before.len() ==> #[trigger] before[j] != '[',
        bracketed(reply, '[', ']') is Some,
    ensures
        reply_ops(before + reply + after) == reply_ops(reply),
{
    prose_around_is_skipped(before, reply, after, '[', ']');
}

fn op_of(v: &serde_json::Value) -> (r: Option<MemoryOp>)
    ensures
        match r {
            Some(op) => op_in(holds(*v)) == Some(op@),
            None => op_in(holds(*v)) is None,
        },
{
    let op = match text_field(v, "op") {
        Some(op) => op,
        None => {
            return None;
        },
    };
    if same(op, "add") {
        match text_field(v, "text") {
            Some(s) => Some(MemoryOp::Add(trimmed(s).to_owned())),
            None => None,
        }
    } else if same(op, "update") {
        match (number_field(v, "id"), text_field(v, "text")) {
            (Some(id), Some(s)) => Some(MemoryOp::Update(id as usize, trimmed(s).to_owned())),
            _ => None,
        }
    } else if same(op, "delete") {
        match number_field(v, "id") {
            Some(id) => Some(MemoryOp::Delete(id as usize)),
            None => None,
        }
    } else {
        None
    }
}

/// The changes that the items of a parsed reply ask for.
pub fn ops_among(items: &Vec<serde_json::Value>) -> (r: Vec<MemoryOp>)
    ensures
        views(r@) == ops_in(held(items@)),
{
    let mut out: Vec<MemoryOp> = Vec::new();
    let mut i: usize = 0;
    assert(held(items@).take(0) =~= Seq::<Json>::empty());
    assert(views(out@) =~= Seq::empty());
    while i < items.len()
        invariant
            i <= items@.len(),
            views(out@) == ops_in(held(items@).take(i as int)),
        decreases items@.len() - i,
    {
        proof {
            let t = held(items@).take(i + 1);
            assert(t.drop_last() =~= held(items@).take(i as int));
            assert(t.last() == holds(items@[i as int]));
        }
        if let Some(op) = op_of(&items[i]) {
            proof {
                views_push(out@, op);
            }
            out.push(op);
        }
        i += 1;
    }
    assert(held(items@).take(i as int) =~= held(items@));
    out
}

/// The changes that a reply asks for.
pub fn parse_memory_ops(text: &str) -> (r: Vec<MemoryOp>)
    ensures
        views(r@) == reply_ops(text@),
{
    if let Some(part) = bracketed_of(text, '[', ']') {
        if let Some(v) = parse(part) {
            if let Some(items) = as_list(&v) {
                return ops_among(items);
            }
        }
    }
    let none: Vec<MemoryOp> = Vec::new();
    assert(views(none@) =~= Seq::empty());
    none
}

/// Whether some change deletes the fact with the number.
pub open spec fn deletes(ops: Seq<MemoryOpView>, id: int) -> bool {
    exists|i: int| 0 <= i < ops.len() && is_delete(#[trigger] ops[i], id)
}

pub open spec fn is_delete(op: MemoryOpView, id: int) -> bool {
    op matches MemoryOpView::Delete(n) && n == id
}

/// The last text that a change gives the fact with the number.
pub open spec fn update_of(ops: Seq<MemoryOpView>, id: int) -> Option<Seq<char>>
    decreases ops.len(),
{
    if ops.len() == 0 {
        None
    } else {
        match ops.last() {
            MemoryOpView::Update(n, s) => if n == id {
                Some(s)
            } else {
                update_of(ops.drop_last(), id)
            },
            _ => update_of(ops.drop_last(), id),
        }
    }
}

/// The facts that the changes add, in their order.
pub open spec fn added(ops: Seq<MemoryOpView>) -> Seq<Seq<char>>
    decreases ops.len(),
{
    if ops.len() == 0 {
        Seq::empty()
    } else {
        match ops.last() {
            MemoryOpView::Add(s) => added(ops.drop_last()).push(s),
            _ => added(ops.drop_last()),
        }
    }
}

/// The first `n` facts once the changes are made: numbers are those before any
/// change, a deleted fact goes, and an updated one has its last new text.
pub open spec fn kept_facts(facts: Seq<Seq<char>>, ops: Seq<MemoryOpView>, n: nat) -> Seq<Seq<char>>
    decreases n,
{
    if n == 0 {
        Seq::empty()
    } else {
        let before = kept_facts(facts, ops, (n - 1) as nat);
        if deletes(ops, n as int) {
            before
        } else {
            before.push(
                match update_of(ops, n as int) {
                    Some(s) => s,
                    None => facts[n - 1],
                },
            )
        }
    }
}

/// The facts once the changes are made: those kept, then those added.
pub open spec fn changed_facts(facts: Seq<Seq<char>>, ops: Seq<MemoryOpView>) -> Seq<Seq<char>> {
    kept_facts(facts, ops, facts.len()) + added(ops)
}

fn is_deleted(ops: &Vec<MemoryOp>, id: usize) -> (r: bool)
    ensures
        r == deletes(views(ops@), id as int),
{
    let mut i: usize = 0;
    while i < ops.len()
        invariant
            i <= ops@.len(),
            forall|j: int| 0 <= j < i ==> !is_delete(#[trigger] views(ops@)[j], id as int),
        decreases ops@.len() - i,
    {
        assert(views(ops@)[i as int] == ops@[i as int]@);
        if let MemoryOp::Delete(n) = &ops[i] {
            if *n == id {
                assert(is_delete(views(ops@)[i as int], id as int));
                return true;
            }
        }
        i += 1;
    }
    false
}

fn updated(ops: &Vec<MemoryOp>, id: usize) -> (r: Option<String>)
    ensures
        match r {
            Some(s) => update_of(views(ops@), id as int) == Some(s@),
            None => update_of(views(ops@), id as int) is None,
        },
{
    let mut i: usize = ops.len();
    assert(views(ops@).take(i as int) =~= views(ops@));
    while i > 0
        invariant
            i <= ops@.len(),
            update_of(views(ops@), id as int) == update_of(views(ops@).take(i as int), id as int),
        decreases i,
    {
        proof {
            let t = views(ops@).take(i as int);
            assert(t.drop_last() =~= views(ops@).take(i - 1));
            assert(t.last() == ops@[i - 1]@);
        }
        if let MemoryOp::Update(n, s) = &ops[i - 1] {
            if *n == id {
                return Some(s.clone());
            }
        }
        i -= 1;
    }
    None
}

/// The facts once the changes are made.
pub fn apply_memory_ops(facts: &Vec<String>, ops: &Vec<MemoryOp>) -> (r: Vec<String>)
    ensures
        texts(r@) == changed_facts(texts(facts@), views(ops@)),
{
    let mut out: Vec<String> = Vec::new();
    let mut i: usize = 0;
    assert(texts(out@) =~= Seq::empty());
    while i < facts.len()
        invariant
            i <= facts@.len(),
            texts(out@) == kept_facts(texts(facts@), views(ops@), i as nat),
        decreases facts@.len() - i,
    {
        assert(texts(facts@)[i as int] == facts@[i as int]@);
        if !is_deleted(ops, i + 1) {
            let fact = match updated(ops, i + 1) {
                Some(s) => s,
                None => facts[i].clone(),
            };
            proof {
                texts_push(out@, fact);
            }
            out.push(fact);
        }
        i += 1;
    }
    let ghost kept = texts(out@);
    assert(texts(facts@).len() == facts@.len());
    let mut k: usize = 0;
    assert(views(ops@).take(0) =~= Seq::<MemoryOpView>::empty());
    assert(kept + added(views(ops@).take(0)) =~= kept);
    while k < ops.len()
        invariant
            k <= ops@.len(),
            texts(out@) == kept + added(views(ops@).take(k as int)),
        decreases ops@.len() - k,
    {
        proof {
            let t = views(ops@).take(k + 1);
            assert(t.drop_last() =~= views(ops@).take(k as int));
            assert(t.last() == ops@[k as int]@);
        }
        if let MemoryOp::Add(s) = &ops[k] {
            let s = s.clone();
            proof {
                texts_push(out@, s);
                let a = added(views(ops@).take(k as int));
                assert((kept + a).push(s@) =~= kept + a.push(s@));
            }
            out.push(s);
        }
        k += 1;
    }
    assert(views(ops@).take(k as int) =~= views(ops@));
    out
}

/// A memory file: the facts, numbered from one, a line each.
pub open spec fn memory_file(facts: Seq<Seq<char>>) -> Seq<char>
    decreases facts.len(),
{
    if facts.len() == 0 {
        Seq::empty()
    } else {
        memory_file(facts.drop_last()) + decimal(facts.len()) + ". "@ + facts.last() + "\n"@
    }
}

/// The memory file of the facts.
pub fn memory_body(facts: &Vec<String>) -> (r: String)
    ensures
        r@ == memory_file(texts(facts@)),
{
    let mut out = String::new();
    let mut i: usize = 0;
    assert(texts(facts@).take(0) =~= Seq::<Seq<char>>::empty());
    while i < facts.len()
        invariant
            i <= facts@.len(),
            out@ == memory_file(texts(facts@).take(i as int)),
        decreases facts@.len() - i,
    {
        proof {
            let t = texts(facts@).take(i + 1);
            assert(t.drop_last() =~= texts(facts@).take(i as int));
            assert(t.last() == facts@[i as int]@);
        }
        out.append(decimal_of(i as u64 + 1).as_str());
        out.append(". ");
        out.append(facts[i].as_str());
        out.append("\n");
        i += 1;
    }
    assert(texts(facts@).take(i as int) =~= texts(facts@));
    out
}

/// The memory that is read of a file: its first 120000 characters.
pub fn capped_memory(text: &str) -> (r: String)
    ensures
        r@ == first_chars(text@, MAX_MEMORY_CHARS as int),
{
    clipped(text, MAX_MEMORY_CHARS).to_owned()
}

/// What the memory model is asked after an exchange.
pub open spec fn memory_prompt(
    facts: Seq<char>,
    user: Seq<char>,
    assistant: Seq<char>,
) -> Seq<char> {
    "Stored facts (numbered, may be empty):\n"@ + facts + "\n\nLatest exchange:\nuser: "@
        + first_chars(user, 2000) + "\nassistant: "@ + first_chars(assistant, 2000)
        + MEMORY_RULES@
}

/// What the memory model is told about its reply.
pub const MEMORY_RULES: &'static str = "\n\nReply with ONLY a JSON array of memory ops, no markdown, no prose. Each op is one of:\n{\"op\":\"add\",\"text\":\"<durable single-line fact>\"}\n{\"op\":\"update\",\"id\":<N>,\"text\":\"<replacement>\"}\n{\"op\":\"delete\",\"id\":<N>}\nEmpty array [] if nothing memory-worthy. Facts must be durable and user/project-relevant (preferences, identity, ongoing goals) — never a summary of what was just said. Merge/update instead of duplicating. Keep the total under 500 facts.";

/// What the memory model is asked after an exchange.
pub fn memory_request(facts: &str, user: &str, assistant: &str) -> (r: String)
    ensures
        r@ == memory_prompt(facts@, user@, assistant@),
{
    let mut s = "Stored facts (numbered, may be empty):\n".to_owned();
    s.append(facts);
    s.append("\n\nLatest exchange:\nuser: ");
    s.append(clipped(user, 2000));
    s.append("\nassistant: ");
    s.append(clipped(assistant, 2000));
    s.append(MEMORY_RULES);
    s
}

/// A fact that is one line without whitespace around it.
pub open spec fn is_fact(s: Seq<char>) -> bool {
    trim(s) == s && !s.contains('\n')
}

/// The lines of a text that ends in a line feed, and one more line.
proof fn lines_last(s: Seq<char>, line: Seq<char>)
    requires
        s.len() > 0 ==> s.last() == '\n',
        !line.contains('\n'),
        line.len() > 0 ==> line.last() != '\r',
    ensures
        lines(s + line + seq!['\n']) == lines(s).push(line),
    decreases s.len(),
{
    crate::text::find_char_found(s, '\n');
    let all = s + line + seq!['\n'];
    if s.len() == 0 {
        lines_first(line, Seq::empty());
        assert(line + seq!['\n'] + Seq::<char>::empty() =~= all);
        assert(lines(Seq::<char>::empty()) =~= Seq::empty());
        assert(lines(s) =~= Seq::empty());
        assert(lines(all) =~= seq![line]);
        assert(lines(s).push(line) =~= seq![line]);
    } else {
        assert(s[s.len() - 1] == '\n');
        let k = crate::text::find_char(s, '\n')->0;
        let a = s.take(k);
        let t = s.skip(k + 1);
        assert(!a.contains('\n'));
        assert(s =~= a + seq!['\n'] + t);
        if t.len() > 0 {
            assert(t.last() == s.last());
        }
        lines_first(a, t);
        lines_last(t, line);
        assert(all =~= a + seq!['\n'] + (t + line + seq!['\n']));
        lines_first(a, t + line + seq!['\n']);
        assert(seq![strip_cr(a)] + lines(t).push(line) =~= (seq![strip_cr(a)] + lines(t)).push(
            line,
        ));
    }
}

proof fn fact_line_reads_back(n: nat, fact: Seq<char>)
    requires
        n <= usize::MAX,
        trim(fact) == fact,
    ensures
        fact_line(decimal(n) + ". "@ + fact) == Some((n, fact)),
{
    reveal_strlit(". ");
    let d = decimal(n);
    let line = d + ". "@ + fact;
    decimal_reads_back(n);
    decimal_is_trimmed(n);
    find_found(line, ". "@);
    let k = d.len() as int;
    assert(line.subrange(k, k + 2) =~= ". "@);
    assert(occurs_at(line, ". "@, k));
    assert forall|j: int| 0 <= j < k implies !occurs_at(line, ". "@, j) by {
        assert(line[j] == d[j]);
        assert(is_digit(d[j]));
        if occurs_at(line, ". "@, j) {
            assert(line.subrange(j, j + 2)[0] == line[j]);
            assert(". "@[0] == '.');
        }
    }
    assert(find(line, ". "@) == Some(k));
    assert(line.take(k) =~= d);
    assert(line.skip(k + 2) =~= fact);
    assert(is_digit(d[0]));
}

/// Facts that were written are read back, in their order.
pub proof fn memory_reads_back(facts: Seq<Seq<char>>)
    requires
        facts.len() <= usize::MAX,
        forall|i: int| 0 <= i < facts.len() ==> is_fact(#[trigger] facts[i]),
    ensures
        facts_of(lines(memory_file(facts))) == facts,
        memory_file(facts).len() > 0 ==> memory_file(facts).last() == '\n',
    decreases facts.len(),
{
    reveal_strlit("\n");
    reveal_strlit(". ");
    if facts.len() == 0 {
        assert(lines(memory_file(facts)) =~= Seq::empty());
        assert(facts_of(Seq::empty()) =~= Seq::<Seq<char>>::empty());
        assert(facts =~= Seq::empty());
    } else {
        let earlier = facts.drop_last();
        assert forall|i: int| 0 <= i < earlier.len() implies is_fact(#[trigger] earlier[i]) by {
            assert(earlier[i] == facts[i]);
        }
        memory_reads_back(earlier);
        let fact = facts.last();
        assert(fact == facts[facts.len() - 1]);
        let line = decimal(facts.len()) + ". "@ + fact;
        decimal_reads_back(facts.len());
        assert(!line.contains('\n')) by {
            assert forall|j: int| 0 <= j < line.len() implies line[j] != '\n' by {
                let d = decimal(facts.len());
                if j < d.len() {
                    assert(is_digit(d[j]));
                } else if j >= d.len() + 2 {
                    assert(line[j] == fact[j - d.len() - 2]);
                    assert(fact.contains(line[j]));
                }
            }
        }
        assert(line.last() != '\r') by {
            if fact.len() > 0 {
                assert(line.last() == fact.last());
                crate::swarm::trimmed_ends(fact);
            } else {
                assert(line.last() == ' ');
            }
        }
        lines_last(memory_file(earlier), line);
        assert(memory_file(facts) =~= memory_file(earlier) + line + seq!['\n']);
        fact_line_reads_back(facts.len(), fact);
        assert(lines(memory_file(earlier)).push(line).drop_last() =~= lines(memory_file(earlier)));
        assert(facts_of(lines(memory_file(facts))) =~= facts);
    }
}

/// A fact that is both updated and deleted goes.
pub proof fn delete_wins_over_update(
    facts: Seq<Seq<char>>,
    ops: Seq<MemoryOpView>,
    n: nat,
)
    requires
        1 <= n <= facts.len(),
        deletes(ops, n as int),
    ensures
        kept_facts(facts, ops, n) == kept_facts(facts, ops, (n - 1) as nat),
{
}

} // verus!
