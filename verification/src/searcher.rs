//! The streamed agents of a research job: the searchers of a batch and the
//! verifier. Each takes the events of its stream and says what to show.

use crate::pipeline::{concat, outcome, ResearchUpdate, ResearchUpdateView};
use crate::provider::{request, request_of, ChatMessage, StreamEvent, StreamEventView};
use crate::research::SEARCHER_PROMPT;
use crate::text::{decimal, decimal_of, texts, texts_push, trim, trimmed, views};
use crate::tools::{call_summary, tool_call_summary};
use vstd::prelude::*;
use vstd::string::*;

verus! {

/// What the screens are told of a stage.
pub open spec fn shown(label: Seq<char>, detail: Seq<char>) -> ResearchUpdateView {
    ResearchUpdateView::Stage { label, detail }
}

fn show(label: &str, detail: String) -> (r: ResearchUpdate)
    ensures
        r@ == shown(label@, detail@),
{
    ResearchUpdate::Stage { label: label.to_owned(), detail }
}

/// What an agent does on an event: go on, go on and show something, or end
/// with a text.
pub enum AgentStep {
    Continue,
    Show(ResearchUpdate),
    End { update: ResearchUpdate, text: String },
}

/// What an `AgentStep` stands for.
pub enum AgentStepView {
    Continue,
    Show(ResearchUpdateView),
    End { update: ResearchUpdateView, text: Seq<char> },
}

impl View for AgentStep {
    type V = AgentStepView;

    open spec fn view(&self) -> AgentStepView {
        match *self {
            AgentStep::Continue => AgentStepView::Continue,
            AgentStep::Show(u) => AgentStepView::Show(u@),
            AgentStep::End { update, text } => AgentStepView::End { update: update@, text: text@ },
        }
    }
}

/// One searcher: the label of its activity row, the question it shows, and
/// the text that came so far.
pub struct Searcher {
    pub label: String,
    pub display: String,
    pub buf: String,
}

/// The label of a searcher's activity row. The batch is part of it, so that
/// no later searcher takes over the row of an earlier one.
pub open spec fn searcher_label(batch: Seq<char>, idx: nat, total: nat) -> Seq<char> {
    "searcher "@ + batch + " "@ + decimal(idx + 1) + "/"@ + decimal(total)
}

/// What a text between quotation marks reads.
pub open spec fn quoted(head: Seq<char>, text: Seq<char>, tail: Seq<char>) -> Seq<char> {
    head + text + tail
}

fn quote(head: &str, text: &str, tail: &str) -> (r: String)
    ensures
        r@ == quoted(head@, text@, tail@),
{
    let mut r = head.to_owned();
    r.append(text);
    r.append(tail);
    r
}

/// What a searcher does on an event of its stream; the stream's end counts as
/// the end of the response.
pub open spec fn searcher_step(
    label: Seq<char>,
    display: Seq<char>,
    buf: Seq<char>,
    ev: Option<StreamEventView>,
) -> AgentStepView {
    match ev {
        Some(StreamEventView::Status(s)) => AgentStepView::Show(shown(label, "working — "@ + s)),
        Some(StreamEventView::ToolCall { name, arguments, result }) => AgentStepView::Show(
            shown(label, "working — "@ + call_summary(name, arguments, result)),
        ),
        Some(StreamEventView::Error(e)) => AgentStepView::End {
            update: shown(label, "error — "@ + e),
            text: quoted("[search agent error on \""@, display, "\": "@) + e + "]"@,
        },
        Some(StreamEventView::Done) | None => if trim(buf).len() == 0 {
            AgentStepView::End {
                update: shown(label, "error — no findings returned"@),
                text: quoted("[no findings for \""@, display, "\"]"@),
            }
        } else {
            AgentStepView::End {
                update: shown(label, quoted("done — answered \""@, display, "\""@)),
                text: trim(buf),
            }
        },
        _ => AgentStepView::Continue,
    }
}

/// The text that came so far, after an event.
pub open spec fn grown(buf: Seq<char>, ev: Option<StreamEventView>) -> Seq<char> {
    match ev {
        Some(StreamEventView::Token(t)) => buf + t,
        _ => buf,
    }
}

/// What an optional event stands for.
pub open spec fn opt_event(ev: Option<StreamEvent>) -> Option<StreamEventView> {
    match ev {
        Some(e) => Some(e@),
        None => None,
    }
}

impl Searcher {
    /// A searcher with its first update.
    pub fn start(batch: &str, display: &str, idx: usize, total: usize) -> (r: (
        Searcher,
        ResearchUpdate,
    ))
        requires
            idx < usize::MAX,
        ensures
            r.0.label@ == searcher_label(batch@, idx as nat, total as nat),
            r.0.display@ == display@,
            r.0.buf@ == Seq::<char>::empty(),
            r.1@ == shown(
                searcher_label(batch@, idx as nat, total as nat),
                quoted("working — investigating \""@, display@, "\""@),
            ),
    {
        let mut label = "searcher ".to_owned();
        label.append(batch);
        label.append(" ");
        label.append(decimal_of(idx as u64 + 1).as_str());
        label.append("/");
        label.append(decimal_of(total as u64).as_str());
        let update = show(label.as_str(), quote("working — investigating \"", display, "\""));
        (Searcher { label, display: display.to_owned(), buf: String::new() }, update)
    }

    /// The request of a searcher.
    pub fn messages(prompt: &str) -> (r: Vec<ChatMessage>)
        ensures
            views(r@) == request(SEARCHER_PROMPT@, prompt@),
    {
        request_of(SEARCHER_PROMPT, prompt.to_owned())
    }

    /// Takes one event of the stream, `None` where the stream has ended.
    pub fn on_event(&mut self, ev: Option<StreamEvent>) -> (r: AgentStep)
        ensures
            final(self).label == old(self).label,
            final(self).display == old(self).display,
            final(self).buf@ == grown(old(self).buf@, opt_event(ev)),
            r@ == searcher_step(old(self).label@, old(self).display@, old(self).buf@, opt_event(ev)),
    {
        match ev {
            Some(StreamEvent::Token(t)) => {
                self.buf.append(t.as_str());
                AgentStep::Continue
            },
            Some(StreamEvent::Status(s)) => AgentStep::Show(
                show(self.label.as_str(), concat("working — ", s.as_str())),
            ),
            Some(StreamEvent::ToolCall { name, arguments, result }) => {
                let summary = tool_call_summary(name.as_str(), arguments.as_str(), result.as_str());
                AgentStep::Show(
                    show(self.label.as_str(), concat("working — ", summary.as_str())),
                )
            },
            Some(StreamEvent::Error(e)) => {
                let mut text = quote("[search agent error on \"", self.display.as_str(), "\": ");
                text.append(e.as_str());
                text.append("]");
                AgentStep::End {
                    update: show(self.label.as_str(), concat("error — ", e.as_str())),
                    text,
                }
            },
            Some(StreamEvent::Done) | None => {
                let text = trimmed(self.buf.as_str());
                if text.is_empty() {
                    AgentStep::End {
                        update: show(self.label.as_str(), "error — no findings returned".to_owned()),
                        text: quote("[no findings for \"", self.display.as_str(), "\"]"),
                    }
                } else {
                    AgentStep::End {
                        update: show(
                            self.label.as_str(),
                            quote("done — answered \"", self.display.as_str(), "\""),
                        ),
                        text: text.to_owned(),
                    }
                }
            },
            _ => AgentStep::Continue,
        }
    }
}

/// The verifier: the text that came so far.
pub struct Verifier {
    pub buf: String,
}

/// What the verifier does on an event of its stream. Whatever happens it ends
/// with the text that came so far.
pub open spec fn verifier_step(buf: Seq<char>, ev: Option<StreamEventView>) -> AgentStepView {
    match ev {
        Some(StreamEventView::Status(s)) => AgentStepView::Show(
            shown("verifier"@, "working — "@ + s),
        ),
        Some(StreamEventView::ToolCall { name, arguments, result }) => AgentStepView::Show(
            shown("verifier"@, "working — "@ + call_summary(name, arguments, result)),
        ),
        Some(StreamEventView::Error(e)) => AgentStepView::End {
            update: shown("verifier"@, "error — "@ + e),
            text: buf,
        },
        Some(StreamEventView::Done) | None => AgentStepView::End {
            update: shown(
                "verifier"@,
                if trim(buf).len() == 0 {
                    "error — no verification output returned"@
                } else {
                    "done — source checks complete"@
                },
            ),
            text: buf,
        },
        _ => AgentStepView::Continue,
    }
}

impl Verifier {
    /// A verifier whose stream has not begun.
    pub fn start() -> (r: Verifier)
        ensures
            r.buf@ == Seq::<char>::empty(),
    {
        Verifier { buf: String::new() }
    }

    /// Takes one event of the stream, `None` where the stream has ended.
    pub fn on_event(&mut self, ev: Option<StreamEvent>) -> (r: AgentStep)
        ensures
            final(self).buf@ == grown(old(self).buf@, opt_event(ev)),
            r@ == verifier_step(old(self).buf@, opt_event(ev)),
    {
        match ev {
            Some(StreamEvent::Token(t)) => {
                self.buf.append(t.as_str());
                AgentStep::Continue
            },
            Some(StreamEvent::Status(s)) => AgentStep::Show(
                show("verifier", concat("working — ", s.as_str())),
            ),
            Some(StreamEvent::ToolCall { name, arguments, result }) => {
                let summary = tool_call_summary(name.as_str(), arguments.as_str(), result.as_str());
                AgentStep::Show(show("verifier", concat("working — ", summary.as_str())))
            },
            Some(StreamEvent::Error(e)) => AgentStep::End {
                update: show("verifier", concat("error — ", e.as_str())),
                text: self.buf.clone(),
            },
            Some(StreamEvent::Done) | None => {
                let blank = trimmed(self.buf.as_str()).is_empty();
                AgentStep::End {
                    update: show(
                        "verifier",
                        if blank {
                            "error — no verification output returned".to_owned()
                        } else {
                            "done — source checks complete".to_owned()
                        },
                    ),
                    text: self.buf.clone(),
                }
            },
            _ => AgentStep::Continue,
        }
    }
}

/// A batch of searchers that run side by side: how many there are, how many
/// have ended, and what they found in the order in which they ended.
pub struct SearchBatch {
    pub batch: String,
    pub total: usize,
    pub done: usize,
    pub findings: Vec<String>,
}

/// The progress of a batch in words.
pub open spec fn batch_detail(head: Seq<char>, done: nat, total: nat) -> Seq<char> {
    head + decimal(done) + "/"@ + decimal(total) + " agents complete"@
}

/// The update on the progress of a batch.
pub open spec fn batch_update(
    batch: Seq<char>,
    head: Seq<char>,
    done: nat,
    total: nat,
) -> ResearchUpdateView {
    shown("search "@ + batch, batch_detail(head, done, total))
}

/// What a batch shows when `done` of its searchers have ended.
pub open spec fn batch_updates(batch: Seq<char>, done: nat, total: nat) -> Seq<
    ResearchUpdateView,
> {
    let working = batch_update(batch, "working — "@, done, total);
    if done == total {
        seq![working, batch_update(batch, "done — "@, done, total)]
    } else {
        seq![working]
    }
}

/// What a searcher that ended contributes; one that broke down leaves a note.
pub open spec fn finding_of(r: Result<Seq<char>, Seq<char>>) -> Seq<char> {
    match r {
        Ok(text) => text,
        Err(e) => "[search agent panicked: "@ + e + "]"@,
    }
}

impl SearchBatch {
    /// What holds of every batch: one finding per searcher that ended.
    pub open spec fn wf(&self) -> bool {
        self.done == self.findings@.len() <= self.total
    }

    fn progress(&self, head: &str) -> (r: ResearchUpdate)
        ensures
            r@ == batch_update(self.batch@, head@, self.done as nat, self.total as nat),
    {
        let mut detail = head.to_owned();
        detail.append(decimal_of(self.done as u64).as_str());
        detail.append("/");
        detail.append(decimal_of(self.total as u64).as_str());
        detail.append(" agents complete");
        show(concat("search ", self.batch.as_str()).as_str(), detail)
    }

    fn updates(&self) -> (r: Vec<ResearchUpdate>)
        ensures
            views(r@) == batch_updates(self.batch@, self.done as nat, self.total as nat),
    {
        let mut r: Vec<ResearchUpdate> = Vec::new();
        r.push(self.progress("working — "));
        if self.done == self.total {
            r.push(self.progress("done — "));
        }
        assert(views(r@) =~= batch_updates(self.batch@, self.done as nat, self.total as nat));
        r
    }

    /// A batch of `total` searchers, and what it shows first.
    pub fn start(batch: &str, total: usize) -> (r: (SearchBatch, Vec<ResearchUpdate>))
        ensures
            r.0.wf(),
            r.0.batch@ == batch@,
            r.0.total == total,
            r.0.done == 0,
            views(r.1@) == batch_updates(batch@, 0, total as nat),
    {
        let b = SearchBatch { batch: batch.to_owned(), total, done: 0, findings: Vec::new() };
        let updates = b.updates();
        (b, updates)
    }

    /// One searcher ended, with its finding or because it broke down.
    pub fn ended(&mut self, result: Result<String, String>) -> (r: Vec<ResearchUpdate>)
        requires
            old(self).wf(),
            old(self).done < old(self).total,
        ensures
            final(self).wf(),
            final(self).batch == old(self).batch,
            final(self).total == old(self).total,
            final(self).done == old(self).done + 1,
            texts(final(self).findings@) == texts(old(self).findings@).push(
                finding_of(outcome(result)),
            ),
            views(r@) == batch_updates(
                old(self).batch@,
                (old(self).done + 1) as nat,
                old(self).total as nat,
            ),
    {
        let finding = match result {
            Ok(text) => text,
            Err(e) => quote("[search agent panicked: ", e.as_str(), "]"),
        };
        proof {
            texts_push(self.findings@, finding);
        }
        self.findings.push(finding);
        self.done = self.done + 1;
        self.updates()
    }
}

/// An excerpt of the user's files as the planner is told of it.
pub open spec fn excerpt(hit: (Seq<char>, Seq<char>, Seq<char>)) -> Seq<char> {
    hit.0 + " ("@ + hit.1 + "): "@ + hit.2
}

/// Excerpts of the user's files: the file's name, where in it, and the text.
pub open spec fn hit_texts(v: Seq<(String, String, String)>) -> Seq<
    (Seq<char>, Seq<char>, Seq<char>),
> {
    v.map_values(|h: (String, String, String)| (h.0@, h.1@, h.2@))
}

/// The excerpts as the planner is told of them.
pub fn known_excerpts(hits: &Vec<(String, String, String)>) -> (r: Vec<String>)
    ensures
        texts(r@) == hit_texts(hits@).map_values(
            |h: (Seq<char>, Seq<char>, Seq<char>)| excerpt(h),
        ),
{
    let ghost all = hit_texts(hits@).map_values(
        |h: (Seq<char>, Seq<char>, Seq<char>)| excerpt(h),
    );
    let mut out: Vec<String> = Vec::new();
    let mut i: usize = 0;
    assert(texts(out@) =~= all.take(0));
    while i < hits.len()
        invariant
            i <= hits@.len(),
            all == hit_texts(hits@).map_values(
                |h: (Seq<char>, Seq<char>, Seq<char>)| excerpt(h),
            ),
            texts(out@) == all.take(i as int),
        decreases hits@.len() - i,
    {
        let mut s = hits[i].0.clone();
        s.append(" (");
        s.append(hits[i].1.as_str());
        s.append("): ");
        s.append(hits[i].2.as_str());
        proof {
            texts_push(out@, s);
            assert(all[i as int] == s@);
            assert(all.take(i as int).push(s@) =~= all.take(i + 1));
        }
        out.push(s);
        i += 1;
    }
    assert(all.take(i as int) =~= all);
    out
}

} // verus!
