//! Compaction: which rows reach a model, and the digest that stands for the
//! rows before a boundary.

use crate::app::App;
use crate::backends::{Backend, Backends};
use crate::effects::{and_effect, no_effects, one_effect, Effect, EffectView};
use crate::state::{rows_are, says, Catalog, Conversation, Jobs, Screen};
use crate::store::{plain_row, Message, MessageView, Session, Skill};
use crate::text::{
    copied_opt, count, decimal, decimal_of, join, joined, opt_text, same, texts, texts_push, trim,
    trimmed, views, views_push,
};
use vstd::prelude::*;
use vstd::string::*;

verus! {

/// What the context of a conversation is made of, in tokens.
pub struct ContextBreakdown {
    pub system_tokens: u64,
    pub memory_tokens: u64,
    pub skills_tokens: u64,
    pub conversation_tokens: u64,
    pub limit: Option<u64>,
    /// Whether the session was ever compacted.
    pub compacted: bool,
}

/// Whether a row must never reach a model: the rows of background jobs, what
/// was asked and answered on the way, failures, links, the digest itself and
/// the replies of single personas.
pub open spec fn excluded(m: MessageView) -> bool {
    ||| m.role == "compaction"@
    ||| m.role == "research_stage"@
    ||| m.role == "research_plan"@
    ||| m.role == "survey"@
    ||| m.role == "gate_reply"@
    ||| m.role == "session_link"@
    ||| m.role == "error"@
    ||| m.persona is Some
}

/// Whether a row must never reach a model.
pub fn excluded_from_model_history(m: &Message) -> (r: bool)
    ensures
        r == excluded(m@),
{
    let role = m.role.as_str();
    same(role, "compaction") || same(role, "research_stage") || same(role, "research_plan")
        || same(role, "survey") || same(role, "gate_reply") || same(role, "session_link")
        || same(role, "error") || m.persona.is_some()
}

/// Where the rows begin that a digest over the first `through` rows does not
/// cover.
pub open spec fn boundary(through: i64, len: nat) -> int {
    if through < 0 || through > len { len as int } else { through as int }
}

fn boundary_of(through: i64, len: usize) -> (r: usize)
    ensures
        r == boundary(through, len as nat),
{
    if through < 0 || through as u64 > len as u64 {
        len
    } else {
        through as usize
    }
}

/// The lines that a compaction shows a model: the rows that may reach one,
/// without tool calls.
pub open spec fn tail_lines(rows: Seq<MessageView>) -> Seq<Seq<char>>
    decreases rows.len(),
{
    if rows.len() == 0 {
        Seq::empty()
    } else {
        let before = tail_lines(rows.drop_last());
        let m = rows.last();
        if m.role != "tool_call"@ && !excluded(m) {
            before.push(m.role + ": "@ + m.content)
        } else {
            before
        }
    }
}

/// The lines of rows that follow one another follow one another.
proof fn tail_lines_of_sum(a: Seq<MessageView>, b: Seq<MessageView>)
    ensures
        tail_lines(a + b) == tail_lines(a) + tail_lines(b),
    decreases b.len(),
{
    if b.len() == 0 {
        assert(a + b =~= a);
        assert(tail_lines(a) + tail_lines(b) =~= tail_lines(a));
    } else {
        tail_lines_of_sum(a, b.drop_last());
        assert((a + b).drop_last() =~= a + b.drop_last());
        assert((a + b).last() == b.last());
        assert(tail_lines(a + b) =~= tail_lines(a) + tail_lines(b));
    }
}

/// The rows from a position on, as a compaction shows them to a model.
pub open spec fn tail_text(rows: Seq<MessageView>, through: int) -> Seq<char> {
    join(tail_lines(rows.skip(through)), "\n\n"@)
}

/// A row that must never reach a model, wherever it stands after the boundary,
/// changes nothing in what a compaction shows a model.
pub proof fn excluded_rows_never_reach_a_digest(
    before: Seq<MessageView>,
    row: MessageView,
    after: Seq<MessageView>,
    through: int,
)
    requires
        excluded(row) || row.role == "tool_call"@,
        0 <= through <= before.len(),
    ensures
        tail_text(before + seq![row] + after, through) == tail_text(before + after, through),
{
    let kept = before.skip(through);
    assert((before + seq![row] + after).skip(through) =~= kept + seq![row] + after);
    assert((before + after).skip(through) =~= kept + after);
    tail_lines_of_sum(kept + seq![row], after);
    tail_lines_of_sum(kept, seq![row]);
    tail_lines_of_sum(kept, after);
    assert(seq![row].drop_last() =~= Seq::empty());
    assert(tail_lines(seq![row]) =~= Seq::empty()) by {
        assert(tail_lines(seq![row].drop_last()) =~= Seq::empty());
    }
    assert(tail_lines(kept) + Seq::empty() =~= tail_lines(kept));
}

/// The rows from a position on, as a compaction shows them to a model.
pub fn compaction_tail(messages: &Vec<Message>, through: usize) -> (r: String)
    requires
        through <= messages@.len(),
    ensures
        r@ == tail_text(views(messages@), through as int),
{
    assert(views(messages@).take(messages@.len() as int) =~= views(messages@));
    tail_within(messages, through, messages.len())
}

/// The rows from a position on among the first `n`.
fn tail_within(messages: &Vec<Message>, through: usize, n: usize) -> (r: String)
    requires
        through <= n <= messages@.len(),
    ensures
        r@ == tail_text(views(messages@).take(n as int), through as int),
{
    let ghost rows = views(messages@).take(n as int).skip(through as int);
    let mut out: Vec<String> = Vec::new();
    let mut i: usize = through;
    assert(rows.take(0) =~= Seq::empty());
    assert(texts(out@) =~= Seq::empty());
    while i < n
        invariant
            through <= i <= n <= messages@.len(),
            rows == views(messages@).take(n as int).skip(through as int),
            texts(out@) == tail_lines(rows.take(i - through)),
        decreases n - i,
    {
        let m = &messages[i];
        proof {
            let t = rows.take(i - through + 1);
            assert(t.drop_last() =~= rows.take(i - through));
            assert(t.last() == m@);
        }
        if !same(m.role.as_str(), "tool_call") && !excluded_from_model_history(m) {
            let mut line = m.role.clone();
            line.append(": ");
            line.append(m.content.as_str());
            proof {
                texts_push(out@, line);
            }
            out.push(line);
        }
        i += 1;
    }
    assert(rows.take(i - through) =~= rows);
    joined(&out, "\n\n")
}

/// The characters of all rows.
pub open spec fn content_len(rows: Seq<MessageView>) -> nat
    decreases rows.len(),
{
    if rows.len() == 0 {
        0
    } else {
        content_len(rows.drop_last()) + rows.last().content.len()
    }
}

/// The characters of the rows that are no digest.
pub open spec fn spoken_len(rows: Seq<MessageView>) -> nat
    decreases rows.len(),
{
    if rows.len() == 0 {
        0
    } else {
        spoken_len(rows.drop_last()) + (if rows.last().role == "compaction"@ {
            0
        } else {
            rows.last().content.len()
        })
    }
}

/// The length of an optional text.
pub open spec fn opt_len(o: Option<Seq<char>>) -> nat {
    match o {
        Some(s) => s.len(),
        None => 0,
    }
}

fn opt_count(o: Option<&str>) -> (r: usize)
    ensures
        r == opt_len(
            match o {
                Some(s) => Some(s@),
                None => None,
            },
        ),
{
    match o {
        Some(s) => count(s),
        None => 0,
    }
}

/// Where a digest row stands: the first one.
pub open spec fn digest_row(rows: Seq<MessageView>, i: int) -> Option<int>
    decreases rows.len() - i,
{
    if i < 0 || i >= rows.len() {
        None
    } else if rows[i].role == "compaction"@ {
        Some(i)
    } else {
        digest_row(rows, i + 1)
    }
}

proof fn digest_row_found(rows: Seq<MessageView>, i: int)
    requires
        0 <= i,
    ensures
        match digest_row(rows, i) {
            Some(k) => i <= k < rows.len() && rows[k].role == "compaction"@,
            None => forall|k: int|
                i <= k < rows.len() ==> (#[trigger] rows[k]).role != "compaction"@,
        },
    decreases rows.len() - i,
{
    if i < rows.len() && rows[i].role != "compaction"@ {
        digest_row_found(rows, i + 1);
    }
}

/// A digest row.
pub open spec fn digest(summary: Seq<char>, at: Option<Seq<char>>) -> MessageView {
    MessageView { created_at: at, ..plain_row("compaction"@, summary) }
}

/// The time of the last row before a boundary.
pub open spec fn time_before(rows: Seq<MessageView>, at: int) -> Option<Seq<char>> {
    let i = if at == 0 { 0 } else { at - 1 };
    if i < rows.len() { rows[i].created_at } else { None }
}

/// The rows once a digest covers the first `through`: the digest row has the
/// new text, or is put at the boundary with the time of the last row before it.
pub open spec fn with_digest(rows: Seq<MessageView>, summary: Seq<char>, through: i64) -> Seq<
    MessageView,
> {
    match digest_row(rows, 0) {
        Some(i) => rows.update(i, MessageView { content: summary, ..rows[i] }),
        None => {
            let at = boundary(through, rows.len());
            rows.insert(at, digest(summary, time_before(rows, at)))
        },
    }
}

/// How many digest rows there are.
pub open spec fn digest_rows(rows: Seq<MessageView>) -> nat
    decreases rows.len(),
{
    if rows.len() == 0 {
        0
    } else {
        digest_rows(rows.drop_last()) + (if rows.last().role == "compaction"@ { 1nat } else { 0 })
    }
}

proof fn digest_rows_of_sum(a: Seq<MessageView>, b: Seq<MessageView>)
    ensures
        digest_rows(a + b) == digest_rows(a) + digest_rows(b),
    decreases b.len(),
{
    if b.len() == 0 {
        assert(a + b =~= a);
    } else {
        digest_rows_of_sum(a, b.drop_last());
        assert((a + b).drop_last() =~= a + b.drop_last());
        assert((a + b).last() == b.last());
    }
}

proof fn digest_rows_split(rows: Seq<MessageView>, i: int)
    requires
        0 <= i < rows.len(),
    ensures
        digest_rows(rows) == digest_rows(rows.take(i)) + (if rows[i].role == "compaction"@ {
            1nat
        } else {
            0
        }) + digest_rows(rows.skip(i + 1)),
{
    assert(rows =~= rows.take(i) + seq![rows[i]] + rows.skip(i + 1));
    digest_rows_of_sum(rows.take(i) + seq![rows[i]], rows.skip(i + 1));
    digest_rows_of_sum(rows.take(i), seq![rows[i]]);
    assert(seq![rows[i]].drop_last() =~= Seq::empty());
    assert(digest_rows(seq![rows[i]].drop_last()) == 0);
}

proof fn no_digest_rows(rows: Seq<MessageView>)
    requires
        forall|k: int| 0 <= k < rows.len() ==> (#[trigger] rows[k]).role != "compaction"@,
    ensures
        digest_rows(rows) == 0,
    decreases rows.len(),
{
    if rows.len() > 0 {
        no_digest_rows(rows.drop_last());
    }
}

/// A conversation with at most one digest row has exactly one after a
/// compaction, with the text of the new digest; no other row is lost, and the
/// rows keep their order.
pub proof fn one_digest_row(rows: Seq<MessageView>, summary: Seq<char>, through: i64)
    requires
        digest_rows(rows) <= 1,
    ensures
        digest_rows(with_digest(rows, summary, through)) == 1,
        digest_row(with_digest(rows, summary, through), 0) matches Some(i) && with_digest(
            rows,
            summary,
            through,
        )[i].content == summary && with_digest(rows, summary, through).remove(i) == (
        match digest_row(rows, 0) {
            Some(k) => rows.remove(k),
            None => rows,
        }),
{
    let after = with_digest(rows, summary, through);
    digest_row_found(rows, 0);
    digest_row_found(after, 0);
    match digest_row(rows, 0) {
        Some(i) => {
            digest_rows_split(rows, i);
            digest_rows_split(after, i);
            assert(after.take(i) =~= rows.take(i));
            assert(after.skip(i + 1) =~= rows.skip(i + 1));
            let k = digest_row(after, 0)->0;
            if k != i {
                digest_rows_split(rows, k);
                if k < i {
                    assert(rows.skip(k + 1)[i - k - 1] == rows[i]);
                    digest_rows_split(rows.skip(k + 1), i - k - 1);
                } else {
                    assert(rows.take(k)[i] == rows[i]);
                    digest_rows_split(rows.take(k), i);
                }
            }
            assert(after.remove(i) =~= rows.remove(i));
        },
        None => {
            no_digest_rows(rows);
            let at = boundary(through, rows.len());
            digest_rows_split(after, at);
            assert(after.take(at) =~= rows.take(at));
            assert(after.skip(at + 1) =~= rows.skip(at));
            no_digest_rows(rows.take(at));
            no_digest_rows(rows.skip(at));
            let k = digest_row(after, 0)->0;
            if k != at {
                if k < at {
                    assert(after[k] == rows[k]);
                } else {
                    assert(after[k] == rows[k - 1]);
                }
            }
            assert(after.remove(at) =~= rows);
        },
    }
}

/// What the prompt of a compaction says after the rows.
pub const DIGEST_PROMPT: &'static str = "\n\nCompress ALL of the above into one ultra-dense technical digest: cut every pleasantry, filler word, and repeated explanation, but keep every decision, fact, file/function name, code snippet, number, and open thread — nothing substantive may be lost. Terse fragments are fine. No headers, no meta-commentary about summarizing. Reply with ONLY the digest.";

/// What a compaction asks a model.
pub open spec fn compaction_prompt(prior: Option<Seq<char>>, tail: Seq<char>) -> Seq<char> {
    (match prior {
        Some(s) => Seq::<char>::empty() + "Existing summary of earlier conversation:\n"@ + s
            + "\n\n"@,
        None => Seq::empty(),
    }) + "New messages since that summary:\n"@ + tail + DIGEST_PROMPT@
}

fn compaction_request(prior: &Option<String>, tail: &str) -> (r: String)
    ensures
        r@ == compaction_prompt(opt_text(*prior), tail@),
{
    let mut prompt = String::new();
    if let Some(s) = prior {
        prompt.append("Existing summary of earlier conversation:\n");
        prompt.append(s.as_str());
        prompt.append("\n\n");
    }
    prompt.append("New messages since that summary:\n");
    prompt.append(tail);
    prompt.append(DIGEST_PROMPT);
    prompt
}

/// A compaction that is to run: the backend and its model, what it is asked,
/// the session, how many rows the digest will cover, and the share of the
/// context that was used before.
pub struct CompactRequest {
    pub backend: Backend,
    pub model: String,
    pub prompt: String,
    pub session_id: String,
    pub through: i64,
    pub before_pct: u64,
}

/// The model that compacts: the one for memory, or else the active one.
pub open spec fn compact_model(memory_model: Seq<char>, current: Option<Seq<char>>) -> Option<
    Seq<char>,
> {
    if trim(memory_model).len() > 0 { Some(memory_model) } else { current }
}

impl Conversation {
    /// The rows that the next request carries: those that no digest covers.
    pub open spec fn effective(&self) -> Seq<MessageView> {
        match self.session {
            Some(s) => views(self.messages@).skip(
                boundary(s.compact_through, self.messages@.len()),
            ),
            None => views(self.messages@),
        }
    }

    /// The rows among the first `n` that no digest covers.
    pub open spec fn effective_within(&self, n: nat) -> Seq<MessageView> {
        match self.session {
            Some(s) => views(self.messages@).take(n as int).skip(boundary(s.compact_through, n)),
            None => views(self.messages@).take(n as int),
        }
    }

    /// The digest of the session that is viewed.
    pub open spec fn summary(&self) -> Option<Seq<char>> {
        match self.session {
            Some(s) => opt_text(s.compact_summary),
            None => None,
        }
    }

    /// Where the rows begin that the next request carries.
    pub fn effective_start(&self) -> (r: usize)
        ensures
            r <= self.messages@.len(),
            self.effective() == views(self.messages@).skip(r as int),
    {
        assert(views(self.messages@).skip(0) =~= views(self.messages@));
        match &self.session {
            Some(s) => boundary_of(s.compact_through, self.messages.len()),
            None => 0,
        }
    }

    /// The digest of the session that is viewed.
    pub fn summary_text(&self) -> (r: Option<&str>)
        ensures
            match r {
                Some(s) => self.summary() == Some(s@),
                None => self.summary() is None,
            },
    {
        match &self.session {
            Some(s) => match &s.compact_summary {
                Some(t) => Some(t.as_str()),
                None => None,
            },
            None => None,
        }
    }

    /// The rows that the next request carries.
    pub fn effective_messages(&self) -> (r: Vec<Message>)
        ensures
            views(r@) == self.effective(),
    {
        let start = self.effective_start();
        let mut out: Vec<Message> = Vec::new();
        let mut i: usize = start;
        assert(views(out@) =~= self.effective().take(0));
        while i < self.messages.len()
            invariant
                start <= i <= self.messages@.len(),
                self.effective() == views(self.messages@).skip(start as int),
                views(out@) == self.effective().take(i - start),
            decreases self.messages@.len() - i,
        {
            let m = self.messages[i].clone();
            proof {
                views_push(out@, m);
                assert(self.effective().take(i - start).push(m@) =~= self.effective().take(
                    i - start + 1,
                ));
            }
            out.push(m);
            i += 1;
        }
        assert(self.effective().take(i - start) =~= self.effective());
        out
    }

    /// The characters that a request carries that knows the first `n` rows: the
    /// system prompt, the digest, the skill, the rows, and what has streamed in
    /// so far.
    pub open spec fn sent_within(
        &self,
        n: nat,
        prompt: Seq<char>,
        skill: Seq<char>,
        streaming: Option<Seq<char>>,
    ) -> nat {
        prompt.len() + opt_len(self.summary()) + skill.len() + content_len(
            self.effective_within(n),
        ) + opt_len(streaming)
    }

    /// The characters that the next request carries.
    pub open spec fn sent_chars(
        &self,
        prompt: Seq<char>,
        skill: Seq<char>,
        streaming: Option<Seq<char>>,
    ) -> nat {
        self.sent_within(self.messages@.len(), prompt, skill, streaming)
    }

    /// How many tokens the first `n` rows take: as reported where nothing
    /// streams in, else a quarter of the characters that would be sent.
    pub open spec fn used_within(
        &self,
        n: nat,
        prompt: Seq<char>,
        skill: Seq<char>,
        streaming: Option<Seq<char>>,
    ) -> nat {
        match self.context_total {
            Some(total) if streaming is None => total as nat,
            _ => self.sent_within(n, prompt, skill, streaming) / 4,
        }
    }

    /// How many tokens the first `n` rows take.
    pub fn context_within(
        &self,
        n: usize,
        prompt: &str,
        skill: &str,
        streaming: Option<&str>,
    ) -> (r: u64)
        requires
            n <= self.messages@.len(),
            self.sent_within(
                n as nat,
                prompt@,
                skill@,
                match streaming {
                    Some(s) => Some(s@),
                    None => None,
                },
            ) <= usize::MAX,
        ensures
            r == self.used_within(
                n as nat,
                prompt@,
                skill@,
                match streaming {
                    Some(s) => Some(s@),
                    None => None,
                },
            ),
    {
        if streaming.is_none() {
            if let Some(total) = self.context_total {
                return total;
            }
        }
        let ghost rows = self.effective_within(n as nat);
        let start: usize = match &self.session {
            Some(s) => boundary_of(s.compact_through, n),
            None => 0,
        };
        assert(rows =~= views(self.messages@).take(n as int).skip(start as int));
        let mut chars: usize = 0;
        let mut i: usize = start;
        assert(rows.take(0) =~= Seq::empty());
        while i < n
            invariant
                start <= i <= n <= self.messages@.len(),
                rows == views(self.messages@).take(n as int).skip(start as int),
                content_len(rows) <= usize::MAX,
                chars == content_len(rows.take(i - start)),
            decreases n - i,
        {
            proof {
                let t = rows.take(i - start + 1);
                assert(t.drop_last() =~= rows.take(i - start));
                assert(t.last() == self.messages@[i as int]@);
                content_len_grows(rows, i - start + 1);
            }
            let more = count(self.messages[i].content.as_str());
            chars = chars + more;
            i += 1;
        }
        assert(rows.take(i - start) =~= rows);
        let prompt_chars: usize = count(prompt);
        let skill_chars: usize = count(skill);
        let all: usize = prompt_chars + opt_count(self.summary_text()) + skill_chars + chars
            + opt_count(streaming);
        (all / 4) as u64
    }

    /// The characters of the conversation itself: the rows that are no digest,
    /// the digest, and what has streamed in so far.
    pub open spec fn talk_chars(&self, streaming: Option<Seq<char>>) -> nat {
        spoken_len(self.effective()) + opt_len(self.summary()) + opt_len(streaming)
    }

    fn count_talk(&self, streaming: Option<&str>) -> (r: usize)
        requires
            self.talk_chars(
                match streaming {
                    Some(s) => Some(s@),
                    None => None,
                },
            ) <= usize::MAX,
        ensures
            r == self.talk_chars(
                match streaming {
                    Some(s) => Some(s@),
                    None => None,
                },
            ),
    {
        let ghost rows = self.effective();
        let start = self.effective_start();
        let mut chars: usize = 0;
        let mut i: usize = start;
        assert(rows.take(0) =~= Seq::empty());
        while i < self.messages.len()
            invariant
                start <= i <= self.messages@.len(),
                rows == views(self.messages@).skip(start as int),
                spoken_len(rows) <= usize::MAX,
                chars == spoken_len(rows.take(i - start)),
            decreases self.messages@.len() - i,
        {
            proof {
                let t = rows.take(i - start + 1);
                assert(t.drop_last() =~= rows.take(i - start));
                assert(t.last() == self.messages@[i as int]@);
                spoken_len_grows(rows, i - start + 1);
            }
            if !same(self.messages[i].role.as_str(), "compaction") {
                chars = chars + count(self.messages[i].content.as_str());
            }
            i += 1;
        }
        assert(rows.take(i - start) =~= rows);
        chars + opt_count(self.summary_text()) + opt_count(streaming)
    }

    fn digest_position(&self) -> (r: Option<usize>)
        ensures
            match r {
                Some(i) => digest_row(views(self.messages@), 0) == Some(i as int) && i
                    < self.messages@.len(),
                None => digest_row(views(self.messages@), 0) is None,
            },
    {
        let mut i: usize = 0;
        while i < self.messages.len()
            invariant
                i <= self.messages@.len(),
                digest_row(views(self.messages@), 0) == digest_row(
                    views(self.messages@),
                    i as int,
                ),
            decreases self.messages@.len() - i,
        {
            assert(views(self.messages@)[i as int] == self.messages@[i as int]@);
            if same(self.messages[i].role.as_str(), "compaction") {
                return Some(i);
            }
            i += 1;
        }
        None
    }

    fn time_before_row(&self, at: usize) -> (r: Option<String>)
        ensures
            opt_text(r) == time_before(views(self.messages@), at as int),
    {
        let i: usize = if at == 0 { 0 } else { at - 1 };
        if i < self.messages.len() {
            assert(views(self.messages@)[i as int] == self.messages@[i as int]@);
            copied_opt(&self.messages[i].created_at)
        } else {
            None
        }
    }

    /// Puts the digest into the rows.
    fn put_digest(&mut self, summary: &str, through: i64)
        ensures
            rows_are(
                *old(self),
                *final(self),
                with_digest(views(old(self).messages@), summary@, through),
            ),
    {
        let ghost before = views(self.messages@);
        match self.digest_position() {
            Some(i) => {
                let mut m = self.messages[i].clone();
                m.content = summary.to_owned();
                self.messages.set(i, m);
                assert(views(self.messages@) =~= with_digest(before, summary@, through));
            },
            None => {
                let at = boundary_of(through, self.messages.len());
                let mut m = Message::plain("compaction", summary.to_owned());
                m.created_at = self.time_before_row(at);
                self.messages.insert(at, m);
                assert(m@ == digest(summary@, time_before(before, at as int)));
                assert(views(self.messages@) =~= with_digest(before, summary@, through));
            },
        }
    }
}

proof fn content_len_grows(rows: Seq<MessageView>, n: int)
    requires
        0 <= n <= rows.len(),
    ensures
        content_len(rows.take(n)) <= content_len(rows),
    decreases rows.len(),
{
    if n == rows.len() {
        assert(rows.take(n) =~= rows);
    } else {
        content_len_grows(rows.drop_last(), n);
        assert(rows.drop_last().take(n) =~= rows.take(n));
    }
}

proof fn spoken_len_grows(rows: Seq<MessageView>, n: int)
    requires
        0 <= n <= rows.len(),
    ensures
        spoken_len(rows.take(n)) <= spoken_len(rows),
    decreases rows.len(),
{
    if n == rows.len() {
        assert(rows.take(n) =~= rows);
    } else {
        spoken_len_grows(rows.drop_last(), n);
        assert(rows.drop_last().take(n) =~= rows.take(n));
    }
}

/// The share of the context that is used, in percent; none where it cannot be
/// told.
pub open spec fn percent(used: nat, limit: nat) -> nat {
    if limit == 0 || used * 100 > u64::MAX { 0 } else { used * 100 / limit }
}

fn percent_of(used: u64, limit: u64) -> (r: u64)
    ensures
        r == percent(used as nat, limit as nat),
{
    if limit == 0 || used > u64::MAX / 100 {
        0
    } else {
        used * 100 / limit
    }
}

/// What the start of a compaction of the first `n` rows changes and asks for.
pub open spec fn compaction_start(
    backends: Backends,
    catalog: Catalog,
    memory_model: Seq<char>,
    talk: Conversation,
    n: nat,
    before: (Jobs, Screen),
    after: (Jobs, Screen),
    pct: u64,
    r: Option<CompactRequest>,
) -> bool {
    match compact_model(memory_model, opt_text(catalog.current)) {
        None => {
            &&& r is None
            &&& after.0 == before.0
            &&& says(before.1, after.1, "pick a model first with /model"@)
        },
        Some(model) => match backends.route(model) {
            None => {
                &&& r is None
                &&& after.0 == before.0
                &&& says(
                    before.1,
                    after.1,
                    "model backend unavailable: "@ + model + " — pick another with /model"@,
                )
            },
            Some(route) => match talk.session {
                Some(s) if boundary(s.compact_through, n) < n => {
                    &&& r matches Some(q) && (q.backend, q.model@) == route && q.prompt@
                        == compaction_prompt(
                        opt_text(s.compact_summary),
                        tail_text(views(talk.messages@).take(n as int), s.compact_through as int),
                    ) && q.session_id@ == s.id@ && q.through == n && q.before_pct == pct
                    &&& after == (Jobs { compact: true, ..before.0 }, before.1)
                },
                _ => r is None && after == before,
            },
        },
    }
}

fn start_compaction(
    backends: &Backends,
    catalog: &Catalog,
    memory_model: &str,
    talk: &Conversation,
    n: usize,
    jobs: &mut Jobs,
    screen: &mut Screen,
    pct: u64,
) -> (r: Option<CompactRequest>)
    requires
        n <= talk.messages@.len(),
        n <= i64::MAX,
    ensures
        compaction_start(
            *backends,
            *catalog,
            memory_model@,
            *talk,
            n as nat,
            (*old(jobs), *old(screen)),
            (*final(jobs), *final(screen)),
            pct,
            r,
        ),
{
    let model = if !trimmed(memory_model).is_empty() {
        memory_model.to_owned()
    } else {
        match &catalog.current {
            Some(m) => m.clone(),
            None => {
                screen.status = "pick a model first with /model".to_owned();
                return None;
            },
        }
    };
    let (backend, raw) = match backends.resolve(model.as_str()) {
        Some(p) => p,
        None => {
            let mut s = "model backend unavailable: ".to_owned();
            s.append(model.as_str());
            s.append(" — pick another with /model");
            screen.status = s;
            return None;
        },
    };
    match &talk.session {
        None => None,
        Some(s) => {
            let through = boundary_of(s.compact_through, n);
            if through >= n {
                return None;
            }
            let tail = tail_within(&talk.messages, through, n);
            jobs.compact = true;
            Some(
                CompactRequest {
                    backend,
                    model: raw,
                    prompt: compaction_request(&s.compact_summary, tail.as_str()),
                    session_id: s.id.clone(),
                    through: n as i64,
                    before_pct: pct,
                },
            )
        },
    }
}

/// What a digest that came back changes of the conversation, the jobs and the
/// screen, and what it asks for. `used` is what the conversation takes after.
pub open spec fn compacted(
    before: (Conversation, Jobs, Screen),
    after: (Conversation, Jobs, Screen),
    effects: Seq<EffectView>,
    result: Option<(String, String, i64, u64)>,
    limit: Option<u64>,
    used: nat,
) -> bool {
    let (talk, jobs, screen) = before;
    &&& after.1 == (Jobs { compact: false, ..jobs })
    &&& match result {
        None => after.0 == talk && after.2 == screen && effects == Seq::<EffectView>::empty(),
        Some((id, summary, through, before_pct)) => {
            let viewed = talk.is_of(id@);
            let rows = views(after.0.messages@);
            &&& after.0.context_total is None
            &&& if viewed {
                &&& after.0.session matches Some(s) && s == (Session {
                    compact_summary: s.compact_summary,
                    compact_through: through,
                    ..talk.session->0
                }) && opt_text(s.compact_summary) == Some(summary@)
                &&& rows == with_digest(views(talk.messages@), summary@, through)
            } else {
                after.0.session == talk.session && after.0.messages == talk.messages
            }
            &&& effects == seq![
                EffectView::SetCompaction { session_id: id@, summary: summary@, through },
                EffectView::PutDigestRow {
                    session_id: id@,
                    summary: summary@,
                    through,
                    anchor: if viewed {
                        rows[digest_row(rows, 0)->0].created_at
                    } else {
                        None
                    },
                },
            ]
            &&& says(
                screen,
                after.2,
                match limit {
                    Some(l) if l > 0 => "compacted: "@ + decimal(before_pct as nat) + "% → "@
                        + decimal(used * 100 / (l as nat)) + "%"@,
                    _ => "compacted"@,
                },
            )
        },
    }
}

fn take_digest(talk: &mut Conversation, id: String, summary: String, through: i64) -> (r: Vec<
    Effect,
>)
    ensures
        final(talk).context_total is None,
        if old(talk).is_of(id@) {
            &&& final(talk).session matches Some(s) && s == (Session {
                compact_summary: s.compact_summary,
                compact_through: through,
                ..old(talk).session->0
            }) && opt_text(s.compact_summary) == Some(summary@)
            &&& views(final(talk).messages@) == with_digest(
                views(old(talk).messages@),
                summary@,
                through,
            )
        } else {
            final(talk).session == old(talk).session && final(talk).messages == old(talk).messages
        },
        views(r@) == seq![
            EffectView::SetCompaction { session_id: id@, summary: summary@, through },
            EffectView::PutDigestRow {
                session_id: id@,
                summary: summary@,
                through,
                anchor: if old(talk).is_of(id@) {
                    views(final(talk).messages@)[digest_row(
                        views(final(talk).messages@),
                        0,
                    )->0].created_at
                } else {
                    None
                },
            },
        ],
{
    let mut anchor: Option<String> = None;
    if talk.views_session(id.as_str()) {
        if let Some(s) = &mut talk.session {
            s.compact_summary = Some(summary.clone());
            s.compact_through = through;
        }
        talk.put_digest(summary.as_str(), through);
        proof {
            digest_row_found(views(old(talk).messages@), 0);
            digest_row_found(views(talk.messages@), 0);
            let rows = views(talk.messages@);
            if digest_row(views(old(talk).messages@), 0) is None {
                assert(rows[boundary(through, old(talk).messages@.len())].role == "compaction"@);
            } else {
                assert(rows[digest_row(views(old(talk).messages@), 0)->0].role == "compaction"@);
            }
        }
        if let Some(i) = talk.digest_position() {
            assert(views(talk.messages@)[i as int] == talk.messages@[i as int]@);
            anchor = copied_opt(&talk.messages[i].created_at);
        }
    }
    talk.context_total = None;
    let r = and_effect(
        one_effect(
            Effect::SetCompaction { session_id: id.clone(), summary: summary.clone(), through },
        ),
        Effect::PutDigestRow { session_id: id, summary, through, anchor },
    );
    assert(views(r@) =~= seq![
        EffectView::SetCompaction { session_id: id@, summary: summary@, through },
        EffectView::PutDigestRow {
            session_id: id@,
            summary: summary@,
            through,
            anchor: opt_text(anchor),
        },
    ]);
    r
}

/// What a compaction of the first `n` rows, once they take too much of the
/// context, changes of the client, and what it asks for.
pub open spec fn compaction_due(
    before: App,
    after: App,
    n: nat,
    prompt: Seq<char>,
    skill: Seq<char>,
    r: Option<CompactRequest>,
) -> bool {
    let used = before.tokens_within(n, prompt, skill);
    &&& after == (App { jobs: after.jobs, screen: after.screen, ..before })
    &&& match before.catalog.limit() {
        Some(limit) if before.config.settings.compact_threshold > 0 && !before.jobs.compact
            && percent(used, limit as nat) >= before.config.settings.compact_threshold =>
            compaction_start(
            before.backends,
            before.catalog,
            before.config.memory_model@,
            before.talk,
            n,
            (before.jobs, before.screen),
            (after.jobs, after.screen),
            percent(used, limit as nat) as u64,
            r,
        ),
        _ => r is None && after.jobs == before.jobs && after.screen == before.screen,
    }
}

impl App {
    /// What has streamed in so far for the session that is viewed.
    pub open spec fn streaming(&self) -> Option<Seq<char>> {
        match self.active_task() {
            Some(i) => Some(self.chats.tasks@[i].buffer@),
            None => None,
        }
    }

    /// How many tokens the first `n` rows take. `prompt` is the system prompt,
    /// and `skill` the text of the skill that goes with the next message.
    pub open spec fn tokens_within(&self, n: nat, prompt: Seq<char>, skill: Seq<char>) -> nat {
        self.talk.used_within(n, prompt, skill, self.streaming())
    }

    /// How many tokens the conversation takes.
    pub open spec fn tokens_used(&self, prompt: Seq<char>, skill: Seq<char>) -> nat {
        self.tokens_within(self.talk.messages@.len(), prompt, skill)
    }

    /// Whether the characters of a request that knows the first `n` rows can be
    /// counted.
    pub open spec fn countable(&self, n: nat, prompt: Seq<char>, skill: Seq<char>) -> bool {
        &&& n <= self.talk.messages@.len()
        &&& n <= i64::MAX
        &&& self.talk.sent_within(n, prompt, skill, self.streaming()) <= usize::MAX
    }

    /// The characters that the next request carries once a digest came back.
    pub open spec fn chars_after(
        &self,
        id: Seq<char>,
        summary: Seq<char>,
        through: i64,
        prompt: Seq<char>,
        skill: Seq<char>,
    ) -> nat {
        if self.talk.is_of(id) {
            let rows = with_digest(views(self.talk.messages@), summary, through);
            prompt.len() + summary.len() + skill.len() + content_len(
                rows.skip(boundary(through, rows.len())),
            ) + opt_len(self.streaming())
        } else {
            self.talk.sent_chars(prompt, skill, self.streaming())
        }
    }

    /// How many tokens the conversation takes.
    pub fn context_used(&self, prompt: &str, skill: &str) -> (r: u64)
        requires
            self.talk.sent_chars(prompt@, skill@, self.streaming()) <= usize::MAX,
        ensures
            r == self.tokens_used(prompt@, skill@),
    {
        self.talk.context_within(
            self.talk.messages.len(),
            prompt,
            skill,
            self.active_streaming_text(),
        )
    }

    /// Compacts the first `n` rows once the share of the context that they take
    /// reaches the threshold. Gives what is to be asked of which model.
    pub fn maybe_compact(&mut self, n: usize, prompt: &str, skill: &str) -> (r: Option<
        CompactRequest,
    >)
        requires
            old(self).countable(n as nat, prompt@, skill@),
        ensures
            compaction_due(*old(self), *final(self), n as nat, prompt@, skill@, r),
    {
        if self.config.settings.compact_threshold == 0 || self.jobs.compact {
            return None;
        }
        let limit = match self.catalog.context_limit() {
            Some(l) => l,
            None => {
                return None;
            },
        };
        let used = self.talk.context_within(n, prompt, skill, self.active_streaming_text());
        let pct = percent_of(used, limit);
        if pct < self.config.settings.compact_threshold as u64 {
            return None;
        }
        start_compaction(
            &self.backends,
            &self.catalog,
            self.config.memory_model.as_str(),
            &self.talk,
            n,
            &mut self.jobs,
            &mut self.screen,
            pct,
        )
    }

    /// Compacts the conversation now, unless a compaction or a response is
    /// under way or there is nothing new to compact.
    pub fn force_compact(&mut self, prompt: &str, skill: &str) -> (r: Option<CompactRequest>)
        requires
            old(self).countable(old(self).talk.messages@.len(), prompt@, skill@),
        ensures
            *final(self) == (App {
                jobs: final(self).jobs,
                screen: final(self).screen,
                ..*old(self)
            }),
            old(self).jobs.compact ==> r is None && final(self).jobs == old(self).jobs && says(
                old(self).screen,
                final(self).screen,
                "already compacting…"@,
            ),
            !old(self).jobs.compact && old(self).streams() ==> r is None && final(self).jobs
                == old(self).jobs && says(
                old(self).screen,
                final(self).screen,
                "wait for the current response to finish"@,
            ),
            !old(self).jobs.compact && !old(self).streams() ==> match old(self).talk.session {
                None => r is None && final(self).jobs == old(self).jobs && says(
                    old(self).screen,
                    final(self).screen,
                    "no active session to compact"@,
                ),
                Some(s) => if boundary(s.compact_through, old(self).talk.messages@.len())
                    == old(self).talk.messages@.len() {
                    r is None && final(self).jobs == old(self).jobs && says(
                        old(self).screen,
                        final(self).screen,
                        "nothing new to compact"@,
                    )
                } else {
                    compaction_start(
                        old(self).backends,
                        old(self).catalog,
                        old(self).config.memory_model@,
                        old(self).talk,
                        old(self).talk.messages@.len(),
                        (old(self).jobs, old(self).screen),
                        (final(self).jobs, final(self).screen),
                        (match old(self).catalog.limit() {
                            Some(l) => percent(old(self).tokens_used(prompt@, skill@), l as nat),
                            None => 0,
                        }) as u64,
                        r,
                    )
                },
            },
    {
        if self.jobs.compact {
            self.screen.status = "already compacting…".to_owned();
            return None;
        }
        if self.is_streaming() {
            self.screen.status = "wait for the current response to finish".to_owned();
            return None;
        }
        let through = match &self.talk.session {
            None => {
                self.screen.status = "no active session to compact".to_owned();
                return None;
            },
            Some(s) => boundary_of(s.compact_through, self.talk.messages.len()),
        };
        if through >= self.talk.messages.len() {
            self.screen.status = "nothing new to compact".to_owned();
            return None;
        }
        let pct: u64 = match self.catalog.context_limit() {
            Some(l) => percent_of(self.context_used(prompt, skill), l),
            None => 0,
        };
        start_compaction(
            &self.backends,
            &self.catalog,
            self.config.memory_model.as_str(),
            &self.talk,
            self.talk.messages.len(),
            &mut self.jobs,
            &mut self.screen,
            pct,
        )
    }

    /// A digest came back, or none: it is kept with the session, and shows at
    /// the boundary where the session is viewed.
    pub fn on_compact_result(
        &mut self,
        result: Option<(String, String, i64, u64)>,
        prompt: &str,
        skill: &str,
    ) -> (r: Vec<Effect>)
        requires
            result matches Some((id, summary, through, pct)) ==> {
                let n = old(self).chars_after(id@, summary@, through, prompt@, skill@);
                n <= usize::MAX && n / 4 * 100 <= u64::MAX
            },
        ensures
            *final(self) == (App {
                talk: final(self).talk,
                jobs: final(self).jobs,
                screen: final(self).screen,
                ..*old(self)
            }),
            compacted(
                (old(self).talk, old(self).jobs, old(self).screen),
                (final(self).talk, final(self).jobs, final(self).screen),
                views(r@),
                result,
                old(self).catalog.limit(),
                match result {
                    Some((id, summary, through, pct)) => old(self).chars_after(
                        id@,
                        summary@,
                        through,
                        prompt@,
                        skill@,
                    ) / 4,
                    None => 0,
                },
            ),
    {
        self.jobs.compact = false;
        match result {
            None => no_effects(),
            Some((id, summary, through, before_pct)) => {
                let ghost before = *self;
                let r = take_digest(&mut self.talk, id, summary, through);
                proof {
                    assert(self.streaming() == before.streaming());
                    let rows = views(self.talk.messages@);
                    assert(rows.take(self.talk.messages@.len() as int) =~= rows);
                    assert(self.talk.sent_chars(prompt@, skill@, self.streaming())
                        == before.chars_after(id@, summary@, through, prompt@, skill@));
                }
                self.screen.status = match self.catalog.context_limit() {
                    Some(l) if l > 0 => {
                        let used = self.context_used(prompt, skill);
                        let mut s = "compacted: ".to_owned();
                        s.append(decimal_of(before_pct).as_str());
                        s.append("% → ");
                        s.append(decimal_of(used * 100 / l).as_str());
                        s.append("%");
                        s
                    },
                    _ => "compacted".to_owned(),
                };
                r
            },
        }
    }

    /// Shows a digest that no row of the conversation shows yet, at the
    /// boundary. `now` is the time, for a digest over rows without one.
    pub fn backfill_compaction_row(&mut self, now: &str) -> (r: Vec<Effect>)
        ensures
            *final(self) == (App { talk: final(self).talk, ..*old(self) }),
            rows_are(old(self).talk, final(self).talk, backfilled(old(self).talk, now@)),
            views(r@) == backfill_effects(old(self).talk, now@),
    {
        self.talk.backfill(now)
    }

    /// What the context is made of. `base` is the base system prompt,
    /// `instructions` those of the space, and `skill` the text of the skill
    /// that goes with the next message.
    pub fn context_breakdown(
        &self,
        base: &str,
        instructions: &str,
        memory: &str,
        skill: &str,
    ) -> (r: ContextBreakdown)
        requires
            base@.len() + trim(instructions@).len() <= usize::MAX,
            skills_len(self.skills.list@) + skill@.len() <= usize::MAX,
            self.talk.talk_chars(self.streaming()) <= usize::MAX,
        ensures
            r.system_tokens == (base@.len() + trim(instructions@).len()) / 4,
            r.memory_tokens == memory@.len() / 4,
            r.skills_tokens == (skills_len(self.skills.list@) + skill@.len()) / 4,
            r.conversation_tokens == self.talk.talk_chars(self.streaming()) / 4,
            r.limit == self.catalog.limit(),
            r.compacted == (self.talk.summary() is Some),
    {
        let base_chars: usize = count(base);
        let own_chars: usize = count(trimmed(instructions));
        let skill_chars: usize = count(skill);
        let list_chars: usize = count_skills(&self.skills.list);
        let talk_chars: usize = self.talk.count_talk(self.active_streaming_text());
        ContextBreakdown {
            system_tokens: ((base_chars + own_chars) / 4) as u64,
            memory_tokens: (count(memory) / 4) as u64,
            skills_tokens: ((list_chars + skill_chars) / 4) as u64,
            conversation_tokens: (talk_chars / 4) as u64,
            limit: self.catalog.context_limit(),
            compacted: self.talk.summary_text().is_some(),
        }
    }

    /// The digest that is to be stored once the user edited it to `text`: none
    /// where it is blank or did not change.
    pub fn edited_digest(&self, text: &str) -> (r: Option<String>)
        ensures
            match r {
                Some(t) => self.talk.session is Some && t@ == trim(text@) && t@.len() > 0
                    && self.talk.summary() != Some(t@),
                None => self.talk.session is None || trim(text@).len() == 0 || self.talk.summary()
                    == Some(trim(text@)),
            },
    {
        if self.talk.session.is_none() {
            return None;
        }
        let t = trimmed(text);
        if t.is_empty() {
            return None;
        }
        match self.talk.summary_text() {
            Some(s) if same(s, t) => None,
            _ => Some(t.to_owned()),
        }
    }

    /// Takes an edited digest over, unless it is blank or did not change, or
    /// could not be stored, as `stored` says.
    pub fn reload_compact_summary(&mut self, text: &str, stored: bool)
        ensures
            *final(self) == (App {
                talk: final(self).talk,
                screen: final(self).screen,
                ..*old(self)
            }),
            if stored && old(self).talk.session is Some && trim(text@).len() > 0 && old(
                self,
            ).talk.summary() != Some(trim(text@)) {
                &&& final(self).talk == (Conversation {
                    session: final(self).talk.session,
                    ..old(self).talk
                })
                &&& final(self).talk.session matches Some(s) && s == (Session {
                    compact_summary: s.compact_summary,
                    ..old(self).talk.session->0
                }) && opt_text(s.compact_summary) == Some(trim(text@))
                &&& says(old(self).screen, final(self).screen, "compaction digest updated"@)
            } else {
                final(self).talk == old(self).talk && final(self).screen == old(self).screen
            },
    {
        if let Some(t) = self.edited_digest(text) {
            if stored {
                if let Some(s) = &mut self.talk.session {
                    s.compact_summary = Some(t);
                }
                self.screen.status = "compaction digest updated".to_owned();
            }
        }
    }
}

/// The characters of the names and descriptions of skills.
pub open spec fn skills_len(list: Seq<Skill>) -> nat
    decreases list.len(),
{
    if list.len() == 0 {
        0
    } else {
        skills_len(list.drop_last()) + list.last().name@.len() + list.last().description@.len()
    }
}

proof fn skills_len_grows(list: Seq<Skill>, n: int)
    requires
        0 <= n <= list.len(),
    ensures
        skills_len(list.take(n)) <= skills_len(list),
    decreases list.len(),
{
    if n == list.len() {
        assert(list.take(n) =~= list);
    } else {
        skills_len_grows(list.drop_last(), n);
        assert(list.drop_last().take(n) =~= list.take(n));
    }
}

fn count_skills(list: &Vec<Skill>) -> (r: usize)
    requires
        skills_len(list@) <= usize::MAX,
    ensures
        r == skills_len(list@),
{
    let mut chars: usize = 0;
    let mut i: usize = 0;
    assert(list@.take(0) =~= Seq::<Skill>::empty());
    while i < list.len()
        invariant
            i <= list@.len(),
            skills_len(list@) <= usize::MAX,
            chars == skills_len(list@.take(i as int)),
        decreases list@.len() - i,
    {
        proof {
            let t = list@.take(i + 1);
            assert(t.drop_last() =~= list@.take(i as int));
            assert(t.last() == list@[i as int]);
            skills_len_grows(list@, i + 1);
        }
        let name_chars: usize = count(list[i].name.as_str());
        let about_chars: usize = count(list[i].description.as_str());
        chars = chars + name_chars + about_chars;
        i += 1;
    }
    assert(list@.take(i as int) =~= list@);
    chars
}

/// The time of a digest row that is added later.
pub open spec fn backfill_time(rows: Seq<MessageView>, at: int, now: Seq<char>) -> Seq<char> {
    match time_before(rows, at) {
        Some(t) => t,
        None => now,
    }
}

/// The rows of a conversation, with the digest at the boundary where one is
/// stored and no row shows it.
pub open spec fn backfilled(talk: Conversation, now: Seq<char>) -> Seq<MessageView> {
    let rows = views(talk.messages@);
    match talk.summary() {
        Some(summary) if digest_row(rows, 0) is None => {
            let at = boundary(talk.session->0.compact_through, rows.len());
            rows.insert(at, digest(summary, Some(backfill_time(rows, at, now))))
        },
        _ => rows,
    }
}

/// What showing it asks for: that it is stored as a row too.
pub open spec fn backfill_effects(talk: Conversation, now: Seq<char>) -> Seq<EffectView> {
    let rows = views(talk.messages@);
    match talk.summary() {
        Some(summary) if digest_row(rows, 0) is None => {
            let s = talk.session->0;
            let at = boundary(s.compact_through, rows.len());
            seq![
                EffectView::AddDigestRow {
                    session_id: s.id@,
                    summary,
                    anchor: backfill_time(rows, at, now),
                },
            ]
        },
        _ => Seq::empty(),
    }
}

/// A digest that was shown once is not shown again: to show it a second time
/// changes nothing and asks for nothing.
pub proof fn backfill_is_idempotent(
    before: Conversation,
    after: Conversation,
    now: Seq<char>,
    later: Seq<char>,
)
    requires
        rows_are(before, after, backfilled(before, now)),
    ensures
        backfilled(after, later) == views(after.messages@),
        backfill_effects(after, later) == Seq::<EffectView>::empty(),
{
    let rows = views(before.messages@);
    digest_row_found(rows, 0);
    digest_row_found(views(after.messages@), 0);
    if before.summary() is Some && digest_row(rows, 0) is None {
        let at = boundary(before.session->0.compact_through, rows.len());
        assert(views(after.messages@)[at].role == "compaction"@);
    }
}

impl Conversation {
    pub(crate) fn backfill(&mut self, now: &str) -> (r: Vec<Effect>)
        ensures
            rows_are(*old(self), *final(self), backfilled(*old(self), now@)),
            views(r@) == backfill_effects(*old(self), now@),
    {
        if self.digest_position().is_some() {
            return no_effects();
        }
        let (id, summary, through) = match &self.session {
            None => {
                return no_effects();
            },
            Some(s) => match &s.compact_summary {
                None => {
                    return no_effects();
                },
                Some(t) => (s.id.clone(), t.clone(), s.compact_through),
            },
        };
        let ghost rows = views(self.messages@);
        let at = boundary_of(through, self.messages.len());
        let time = match self.time_before_row(at) {
            Some(t) => t,
            None => now.to_owned(),
        };
        let mut m = Message::plain("compaction", summary.clone());
        m.created_at = Some(time.clone());
        self.messages.insert(at, m);
        assert(m@ == digest(summary@, Some(time@)));
        assert(views(self.messages@) =~= rows.insert(at as int, m@));
        one_effect(Effect::AddDigestRow { session_id: id, summary, anchor: time })
    }
}

} // verus!
