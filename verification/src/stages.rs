//! Stage rows: the progress of background jobs in a transcript, one row a
//! stage.

use crate::pipeline::concat;
use crate::state::{rows_are, Conversation};
use crate::store::{plain_row, Message, MessageView};
use crate::text::{has_prefix, same, texts, texts_push, views};
use vstd::prelude::*;
use vstd::string::*;

verus! {

/// What a stage row says.
pub open spec fn stage_text(label: Seq<char>, detail: Seq<char>) -> Seq<char> {
    if detail.len() == 0 { label } else { label + ": "@ + detail }
}

/// What a stage row says.
pub fn stage_content(label: &str, detail: &str) -> (r: String)
    ensures
        r@ == stage_text(label@, detail@),
{
    let mut s = label.to_owned();
    if !detail.is_empty() {
        s.append(": ");
        s.append(detail);
    }
    s
}

/// Whether a text is that of the row of a stage.
pub open spec fn is_stage(text: Seq<char>, label: Seq<char>) -> bool {
    text == label || (label + ":"@).is_prefix_of(text)
}

fn of_stage(text: &str, label: &str) -> (r: bool)
    ensures
        r == is_stage(text@, label@),
{
    same(text, label) || has_prefix(text, concat(label, ":").as_str())
}

/// The last row of a stage.
pub open spec fn last_stage(rows: Seq<Seq<char>>, label: Seq<char>) -> Option<int>
    decreases rows.len(),
{
    if rows.len() == 0 {
        None
    } else if is_stage(rows.last(), label) {
        Some(rows.len() - 1)
    } else {
        last_stage(rows.drop_last(), label)
    }
}

/// The rows once a stage proceeded: its row is updated, or added.
pub open spec fn with_stage(rows: Seq<Seq<char>>, label: Seq<char>, detail: Seq<char>) -> Seq<
    Seq<char>,
> {
    match last_stage(rows, label) {
        Some(i) => rows.update(i, stage_text(label, detail)),
        None => rows.push(stage_text(label, detail)),
    }
}

/// Notes the progress of a stage.
pub fn note_stage(rows: &mut Vec<String>, label: &str, detail: &str)
    ensures
        texts(final(rows)@) == with_stage(texts(old(rows)@), label@, detail@),
{
    let text = stage_content(label, detail);
    let ghost all = texts(rows@);
    let mut i: usize = rows.len();
    assert(all.take(i as int) =~= all);
    while i > 0
        invariant
            i <= rows@.len(),
            *rows == *old(rows),
            all == texts(old(rows)@),
            text@ == stage_text(label@, detail@),
            last_stage(all, label@) == last_stage(all.take(i as int), label@),
        decreases i,
    {
        proof {
            let t = all.take(i as int);
            assert(t.drop_last() =~= all.take(i - 1));
            assert(t.last() == rows@[i - 1]@);
        }
        if of_stage(rows[i - 1].as_str(), label) {
            rows.set(i - 1, text);
            assert(texts(rows@) =~= all.update(i - 1, text@));
            return;
        }
        i -= 1;
    }
    proof {
        texts_push(rows@, text);
    }
    rows.push(text);
}

/// The last row of a transcript that is the row of a stage.
pub open spec fn last_stage_row(rows: Seq<MessageView>, label: Seq<char>) -> Option<int>
    decreases rows.len(),
{
    if rows.len() == 0 {
        None
    } else if rows.last().role == "research_stage"@ && is_stage(rows.last().content, label) {
        Some(rows.len() - 1)
    } else {
        last_stage_row(rows.drop_last(), label)
    }
}

/// The rows of a transcript once a stage proceeded: its row is updated in
/// place, or added.
pub open spec fn with_stage_row(
    rows: Seq<MessageView>,
    label: Seq<char>,
    detail: Seq<char>,
) -> Seq<MessageView> {
    let text = stage_text(label, detail);
    match last_stage_row(rows, label) {
        Some(i) => rows.update(i, MessageView { content: text, ..rows[i] }),
        None => rows.push(plain_row("research_stage"@, text)),
    }
}

impl Conversation {
    /// Shows the progress of a stage.
    pub fn show_stage(&mut self, label: &str, detail: &str)
        ensures
            rows_are(
                *old(self),
                *final(self),
                with_stage_row(views(old(self).messages@), label@, detail@),
            ),
    {
        let text = stage_content(label, detail);
        let ghost all = views(self.messages@);
        let mut i: usize = self.messages.len();
        assert(all.take(i as int) =~= all);
        while i > 0
            invariant
                i <= self.messages@.len(),
                *self == *old(self),
                all == views(old(self).messages@),
                text@ == stage_text(label@, detail@),
                last_stage_row(all, label@) == last_stage_row(all.take(i as int), label@),
            decreases i,
        {
            proof {
                let t = all.take(i as int);
                assert(t.drop_last() =~= all.take(i - 1));
                assert(t.last() == self.messages@[i - 1]@);
            }
            if same(self.messages[i - 1].role.as_str(), "research_stage") && of_stage(
                self.messages[i - 1].content.as_str(),
                label,
            ) {
                self.messages[i - 1].content = text;
                assert(views(self.messages@) =~= all.update(
                    i - 1,
                    MessageView { content: text@, ..all[i - 1] },
                ));
                return;
            }
            i -= 1;
        }
        self.add_row(Message::plain("research_stage", text));
    }
}

proof fn last_stage_found(rows: Seq<Seq<char>>, label: Seq<char>)
    ensures
        match last_stage(rows, label) {
            Some(i) => 0 <= i < rows.len() && is_stage(rows[i], label),
            None => forall|i: int| 0 <= i < rows.len() ==> !is_stage(#[trigger] rows[i], label),
        },
    decreases rows.len(),
{
    if rows.len() > 0 && !is_stage(rows.last(), label) {
        last_stage_found(rows.drop_last(), label);
        assert forall|i: int|
            0 <= i < rows.len() && last_stage(rows, label) is None implies !is_stage(
            #[trigger] rows[i],
            label,
        ) by {
            if i < rows.len() - 1 {
                assert(rows.drop_last()[i] == rows[i]);
            }
        }
    }
}

/// A stage that proceeds again keeps its row: there are no more rows than
/// before, and none of another stage changes.
pub proof fn stage_keeps_its_row(
    rows: Seq<Seq<char>>,
    label: Seq<char>,
    detail: Seq<char>,
    later: Seq<char>,
)
    ensures
        ({
            let once = with_stage(rows, label, detail);
            let twice = with_stage(once, label, later);
            &&& twice.len() == once.len()
            &&& forall|i: int|
                0 <= i < once.len() && !is_stage(once[i], label) ==> #[trigger] twice[i] == once[i]
        }),
{
    let once = with_stage(rows, label, detail);
    last_stage_found(rows, label);
    last_stage_found(once, label);
    let k = match last_stage(rows, label) {
        Some(i) => i,
        None => rows.len() as int,
    };
    let text = stage_text(label, detail);
    assert(once[k] == text);
    if detail.len() > 0 {
        reveal_strlit(":");
        reveal_strlit(": ");
        assert(text.take((label + ":"@).len() as int) =~= label + ":"@);
        assert((label + ":"@).is_prefix_of(text));
    }
    assert(is_stage(once[k], label));
}

} // verus!
