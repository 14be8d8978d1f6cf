//! What the changes of a model make of the facts of a space.

use crate::json::{get_number, get_text, Json};
use crate::memory::{
    added, changed_facts, deletes, fact_line, facts_of, is_delete, kept_facts, memory_prompt, op_in,
    ops_in, update_of, MemoryOpView,
};
use crate::text::{first_chars, lines, trim};
use crate::text_laws::{stands_between, within};
use vstd::prelude::*;

verus! {

/// How many of the changes add a fact.
pub open spec fn adds(ops: Seq<MemoryOpView>) -> nat
    decreases ops.len(),
{
    if ops.len() == 0 {
        0
    } else if ops.last() is Add {
        adds(ops.drop_last()) + 1
    } else {
        adds(ops.drop_last())
    }
}

/// Whether some change deletes the fact with the number.
pub open spec fn is_gone(ops: Seq<MemoryOpView>, number: int) -> bool {
    exists|i: int|
        0 <= i < ops.len() && (#[trigger] ops[i] matches MemoryOpView::Delete(n) && n == number)
}

/// How many of the facts with the numbers from one to `n` no change deletes.
pub open spec fn left(ops: Seq<MemoryOpView>, n: nat) -> nat
    decreases n,
{
    if n == 0 {
        0
    } else if is_gone(ops, n as int) {
        left(ops, (n - 1) as nat)
    } else {
        left(ops, (n - 1) as nat) + 1
    }
}

proof fn gone_is_deleted(ops: Seq<MemoryOpView>, number: int)
    ensures
        is_gone(ops, number) == deletes(ops, number),
{
    if is_gone(ops, number) {
        let i = choose|i: int|
            0 <= i < ops.len() && (#[trigger] ops[i] matches MemoryOpView::Delete(n) && n
                == number);
        assert(is_delete(ops[i], number));
    }
    if deletes(ops, number) {
        let i = choose|i: int| 0 <= i < ops.len() && is_delete(#[trigger] ops[i], number);
        assert(ops[i] matches MemoryOpView::Delete(n) && n == number);
    }
}

proof fn kept_are_left(facts: Seq<Seq<char>>, ops: Seq<MemoryOpView>, n: nat)
    requires
        n <= facts.len(),
    ensures
        kept_facts(facts, ops, n).len() == left(ops, n),
    decreases n,
{
    if n > 0 {
        gone_is_deleted(ops, n as int);
        kept_are_left(facts, ops, (n - 1) as nat);
    }
}

proof fn added_count(ops: Seq<MemoryOpView>)
    ensures
        added(ops).len() == adds(ops),
    decreases ops.len(),
{
    if ops.len() > 0 {
        added_count(ops.drop_last());
    }
}

proof fn added_at(ops: Seq<MemoryOpView>, i: int, text: Seq<char>)
    requires
        0 <= i < ops.len(),
        ops[i] == MemoryOpView::Add(text),
    ensures
        adds(ops.take(i)) < added(ops).len(),
        added(ops)[adds(ops.take(i)) as int] == text,
    decreases ops.len(),
{
    if i == ops.len() - 1 {
        assert(ops.take(i) =~= ops.drop_last());
        added_count(ops.drop_last());
    } else {
        added_at(ops.drop_last(), i, text);
        assert(ops.drop_last().take(i) =~= ops.take(i));
    }
}

proof fn kept_at(facts: Seq<Seq<char>>, ops: Seq<MemoryOpView>, n: nat, number: nat)
    requires
        1 <= number <= n <= facts.len(),
        !is_gone(ops, number as int),
    ensures
        left(ops, (number - 1) as nat) < kept_facts(facts, ops, n).len(),
        kept_facts(facts, ops, n)[left(ops, (number - 1) as nat) as int] == (match update_of(
            ops,
            number as int,
        ) {
            Some(s) => s,
            None => facts[number - 1],
        }),
    decreases n,
{
    gone_is_deleted(ops, n as int);
    kept_are_left(facts, ops, (n - 1) as nat);
    if number < n {
        kept_at(facts, ops, (n - 1) as nat, number);
    }
}

proof fn update_is_last(ops: Seq<MemoryOpView>, number: int, j: int, text: Seq<char>)
    requires
        0 <= j < ops.len(),
        ops[j] matches MemoryOpView::Update(n, t) && n == number && t == text,
        forall|k: int|
            j < k < ops.len() ==> !(#[trigger] ops[k] matches MemoryOpView::Update(n, _) && n
                == number),
    ensures
        update_of(ops, number) == Some(text),
    decreases ops.len(),
{
    if j < ops.len() - 1 {
        assert(!(ops[ops.len() - 1] matches MemoryOpView::Update(n, _) && n == number));
        update_is_last(ops.drop_last(), number, j, text);
    }
}

proof fn no_update(ops: Seq<MemoryOpView>, number: int)
    requires
        forall|k: int|
            0 <= k < ops.len() ==> !(#[trigger] ops[k] matches MemoryOpView::Update(n, _) && n
                == number),
    ensures
        update_of(ops, number) is None,
    decreases ops.len(),
{
    if ops.len() > 0 {
        assert(!(ops[ops.len() - 1] matches MemoryOpView::Update(n, _) && n == number));
        no_update(ops.drop_last(), number);
    }
}

/// The changed facts are as many as those that are not deleted and those that
/// are added.
pub proof fn no_fact_is_lost_or_made_up(facts: Seq<Seq<char>>, ops: Seq<MemoryOpView>)
    ensures
        changed_facts(facts, ops).len() == left(ops, facts.len()) + adds(ops),
{
    kept_are_left(facts, ops, facts.len());
    added_count(ops);
}

/// Every fact that a change adds is there, behind the facts that are left, in
/// the order of the changes.
pub proof fn every_added_fact_is_there(
    facts: Seq<Seq<char>>,
    ops: Seq<MemoryOpView>,
    i: int,
    text: Seq<char>,
)
    requires
        0 <= i < ops.len(),
        ops[i] == MemoryOpView::Add(text),
    ensures
        left(ops, facts.len()) + adds(ops.take(i)) < changed_facts(facts, ops).len(),
        changed_facts(facts, ops)[left(ops, facts.len()) as int + adds(ops.take(i))] == text,
        changed_facts(facts, ops).contains(text),
{
    kept_are_left(facts, ops, facts.len());
    added_at(ops, i, text);
    let k = left(ops, facts.len()) + adds(ops.take(i));
    assert(changed_facts(facts, ops)[k as int] == text);
}

/// A fact that no change touches stays as it is, in its place among those that
/// are left.
pub proof fn an_untouched_fact_stays(
    facts: Seq<Seq<char>>,
    ops: Seq<MemoryOpView>,
    number: nat,
)
    requires
        1 <= number <= facts.len(),
        !is_gone(ops, number as int),
        forall|k: int|
            0 <= k < ops.len() ==> !(#[trigger] ops[k] matches MemoryOpView::Update(n, _) && n
                == number),
    ensures
        left(ops, (number - 1) as nat) < changed_facts(facts, ops).len(),
        changed_facts(facts, ops)[left(ops, (number - 1) as nat) as int] == facts[number - 1],
{
    no_update(ops, number as int);
    kept_at(facts, ops, facts.len(), number);
}

/// A fact that is updated, and not deleted, has the text of its last update.
pub proof fn an_updated_fact_has_its_new_text(
    facts: Seq<Seq<char>>,
    ops: Seq<MemoryOpView>,
    number: nat,
    j: int,
    text: Seq<char>,
)
    requires
        1 <= number <= facts.len(),
        !is_gone(ops, number as int),
        0 <= j < ops.len(),
        ops[j] matches MemoryOpView::Update(n, t) && n == number && t == text,
        forall|k: int|
            j < k < ops.len() ==> !(#[trigger] ops[k] matches MemoryOpView::Update(n, _) && n
                == number),
    ensures
        left(ops, (number - 1) as nat) < changed_facts(facts, ops).len(),
        changed_facts(facts, ops)[left(ops, (number - 1) as nat) as int] == text,
{
    update_is_last(ops, number as int, j, text);
    kept_at(facts, ops, facts.len(), number);
}

/// No changes leave the facts as they are.
pub proof fn no_changes_leave_the_facts(facts: Seq<Seq<char>>)
    ensures
        changed_facts(facts, Seq::empty()) == facts,
{
    let none = Seq::<MemoryOpView>::empty();
    nothing_kept_changes(facts, facts.len());
    assert(changed_facts(facts, none) =~= facts);
}

proof fn nothing_kept_changes(facts: Seq<Seq<char>>, n: nat)
    requires
        n <= facts.len(),
    ensures
        kept_facts(facts, Seq::empty(), n) == facts.take(n as int),
    decreases n,
{
    if n > 0 {
        nothing_kept_changes(facts, (n - 1) as nat);
        assert(facts.take(n as int) =~= facts.take(n - 1).push(facts[n - 1]));
    } else {
        assert(facts.take(0) =~= Seq::empty());
    }
}

/// An item of a reply asks for what it names: an added text, a text for a
/// number, or a number that goes. Another item asks for nothing.
pub proof fn an_item_asks_for_what_it_names(v: Json, text: Seq<char>, id: nat)
    ensures
        get_text(v, "op"@) == Some("add"@) && get_text(v, "text"@) == Some(text) ==> op_in(v)
            == Some(MemoryOpView::Add(trim(text))),
        get_text(v, "op"@) == Some("update"@) && get_text(v, "text"@) == Some(text) && get_number(
            v,
            "id"@,
        ) == Some(id) ==> op_in(v) == Some(MemoryOpView::Update(id as usize, trim(text))),
        get_text(v, "op"@) == Some("delete"@) && get_number(v, "id"@) == Some(id) ==> op_in(v)
            == Some(MemoryOpView::Delete(id as usize)),
        get_text(v, "op"@) is None ==> op_in(v) is None,
{
    reveal_strlit("add");
    reveal_strlit("update");
    reveal_strlit("delete");
    assert("add"@.len() == 3 && "update"@.len() == 6 && "delete"@.len() == 6);
    assert("update"@[0] == 'u' && "delete"@[0] == 'd');
}

/// Every item that asks for a change counts, in the order of the items; one
/// that asks for none is passed over.
pub proof fn every_item_counts(items: Seq<Json>, v: Json)
    ensures
        ops_in(Seq::empty()).len() == 0,
        op_in(v) matches Some(op) ==> ops_in(items.push(v)) == ops_in(items).push(op),
        op_in(v) is None ==> ops_in(items.push(v)) == ops_in(items),
{
    assert(items.push(v).drop_last() =~= items);
}

/// Every line with a number and a fact is read, in the order of the lines; any
/// other line is passed over.
pub proof fn every_fact_line_is_read(ls: Seq<Seq<char>>, line: Seq<char>)
    ensures
        facts_of(Seq::empty()).len() == 0,
        fact_line(line) matches Some(p) ==> facts_of(ls.push(line)) == facts_of(ls).push(p.1),
        fact_line(line) is None ==> facts_of(ls.push(line)) == facts_of(ls),
{
    assert(ls.push(line).drop_last() =~= ls);
}

/// The model for memory is told every stored fact and the exchange.
pub proof fn the_memory_model_knows_the_exchange(
    facts: Seq<char>,
    user: Seq<char>,
    assistant: Seq<char>,
)
    ensures
        ({
            let p = memory_prompt(facts, user, assistant);
            &&& within(facts, p)
            &&& within("user: "@ + first_chars(user, 2000), p)
            &&& within("assistant: "@ + first_chars(assistant, 2000), p)
        }),
{
    let p = memory_prompt(facts, user, assistant);
    let (u, a) = (first_chars(user, 2000), first_chars(assistant, 2000));
    let (h, m, k, e) = (
        "Stored facts (numbered, may be empty):\n"@,
        "\n\nLatest exchange:\nuser: "@,
        "\nassistant: "@,
        crate::memory::MEMORY_RULES@,
    );
    assert(p =~= h + facts + (m + u + k + a + e));
    stands_between(h, facts, m + u + k + a + e);
    reveal_strlit("\n\nLatest exchange:\nuser: ");
    reveal_strlit("\n\nLatest exchange:\n");
    reveal_strlit("user: ");
    reveal_strlit("\nassistant: ");
    reveal_strlit("\n");
    reveal_strlit("assistant: ");
    let m1 = "\n\nLatest exchange:\n"@;
    assert(m =~= m1 + "user: "@);
    assert(p =~= (h + facts + m1) + ("user: "@ + u) + (k + a + e));
    stands_between(h + facts + m1, "user: "@ + u, k + a + e);
    assert(k =~= "\n"@ + "assistant: "@);
    assert(p =~= (h + facts + m + u + "\n"@) + ("assistant: "@ + a) + e);
    stands_between(h + facts + m + u + "\n"@, "assistant: "@ + a, e);
}

} // verus!
