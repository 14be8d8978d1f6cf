//! The research job as the client sees it: starting and steering it, what its
//! updates change, and the gates at which it waits for the user.

use crate::app::App;
use crate::effects::{and_effect, one_effect, Effect, EffectView};
use crate::pipeline::concat;
use crate::state::{
    rows_are, says, Conversation, Jobs, ResearchState, Screen,
};
use crate::store::{plain_row, Message, MessageView, SurveyPhase};
use crate::text::{decimal, decimal_of, same, trim, trimmed, views};
use crate::ui::Popup;
use vstd::prelude::*;
use vstd::string::*;

verus! {

/// The most instructions that wait to be taken up.
pub const MAX_QUEUED_STEERS: usize = 64;

/// The highest position that an instruction has or had, or 0.
pub open spec fn highest(log: Seq<(usize, String)>, acked: Seq<usize>) -> nat
    decreases log.len() + acked.len(),
{
    if log.len() > 0 {
        let rest = highest(log.drop_last(), acked);
        if log.last().0 > rest { log.last().0 as nat } else { rest }
    } else if acked.len() > 0 {
        let rest = highest(log, acked.drop_last());
        if acked.last() > rest { acked.last() as nat } else { rest }
    } else {
        0
    }
}

proof fn highest_is_highest(log: Seq<(usize, String)>, acked: Seq<usize>)
    ensures
        forall|i: int| 0 <= i < log.len() ==> (#[trigger] log[i]).0 <= highest(log, acked),
        forall|i: int| 0 <= i < acked.len() ==> #[trigger] acked[i] <= highest(log, acked),
        highest(log, acked) <= usize::MAX,
    decreases log.len() + acked.len(),
{
    if log.len() > 0 {
        highest_is_highest(log.drop_last(), acked);
        assert forall|i: int| 0 <= i < log.len() implies (#[trigger] log[i]).0 <= highest(
            log,
            acked,
        ) by {
            if i < log.len() - 1 {
                assert(log.drop_last()[i] == log[i]);
            }
        }
    } else if acked.len() > 0 {
        highest_is_highest(log, acked.drop_last());
        assert forall|i: int| 0 <= i < acked.len() implies #[trigger] acked[i] <= highest(
            log,
            acked,
        ) by {
            if i < acked.len() - 1 {
                assert(acked.drop_last()[i] == acked[i]);
            }
        }
    }
}

fn highest_of(log: &Vec<(usize, String)>, acked: &Vec<usize>) -> (r: usize)
    ensures
        r == highest(log@, acked@),
{
    let mut r: usize = 0;
    let mut i: usize = 0;
    let ghost none = Seq::<(usize, String)>::empty();
    assert(acked@.take(0) =~= Seq::<usize>::empty());
    while i < acked.len()
        invariant
            i <= acked@.len(),
            none == Seq::<(usize, String)>::empty(),
            r == highest(none, acked@.take(i as int)),
        decreases acked@.len() - i,
    {
        proof {
            let t = acked@.take(i + 1);
            assert(t.drop_last() =~= acked@.take(i as int));
            assert(t.last() == acked@[i as int]);
        }
        if acked[i] > r {
            r = acked[i];
        }
        i += 1;
    }
    assert(acked@.take(i as int) =~= acked@);
    i = 0;
    assert(log@.take(0) =~= none);
    while i < log.len()
        invariant
            i <= log@.len(),
            r == highest(log@.take(i as int), acked@),
        decreases log@.len() - i,
    {
        proof {
            let t = log@.take(i + 1);
            assert(t.drop_last() =~= log@.take(i as int));
            assert(t.last() == log@[i as int]);
        }
        if log[i].0 > r {
            r = log[i].0;
        }
        i += 1;
    }
    assert(log@.take(i as int) =~= log@);
    r
}

/// The instructions that were not taken up yet.
pub open spec fn pending(log: Seq<(usize, String)>, acked: Seq<usize>) -> Seq<(usize, String)>
    decreases log.len(),
{
    if log.len() == 0 {
        Seq::empty()
    } else {
        let before = pending(log.drop_last(), acked);
        if acked.contains(log.last().0) { before } else { before.push(log.last()) }
    }
}

pub(crate) fn has_position(acked: &Vec<usize>, p: usize) -> (r: bool)
    ensures
        r == acked@.contains(p),
{
    let mut i: usize = 0;
    while i < acked.len()
        invariant
            i <= acked@.len(),
            forall|j: int| 0 <= j < i ==> acked@[j] != p,
        decreases acked@.len() - i,
    {
        if acked[i] == p {
            return true;
        }
        i += 1;
    }
    false
}

pub(crate) fn pending_of(log: &Vec<(usize, String)>, acked: &Vec<usize>) -> (r: Vec<(usize, String)>)
    ensures
        r@ == pending(log@, acked@),
{
    let mut out: Vec<(usize, String)> = Vec::new();
    let mut i: usize = 0;
    assert(log@.take(0) =~= Seq::<(usize, String)>::empty());
    while i < log.len()
        invariant
            i <= log@.len(),
            out@ == pending(log@.take(i as int), acked@),
        decreases log@.len() - i,
    {
        proof {
            let t = log@.take(i + 1);
            assert(t.drop_last() =~= log@.take(i as int));
            assert(t.last() == log@[i as int]);
        }
        if !has_position(acked, log[i].0) {
            let text = log[i].1.clone();
            out.push((log[i].0, text));
        }
        i += 1;
    }
    assert(log@.take(i as int) =~= log@);
    out
}

proof fn pending_is_part(log: Seq<(usize, String)>, acked: Seq<usize>)
    ensures
        pending(log, acked).len() <= log.len(),
        forall|i: int|
            0 <= i < pending(log, acked).len() ==> !acked.contains(
                (#[trigger] pending(log, acked)[i]).0,
            ) && log.contains(pending(log, acked)[i]),
        forall|i: int|
            0 <= i < log.len() && !acked.contains((#[trigger] log[i]).0) ==> pending(
                log,
                acked,
            ).contains(log[i]),
    decreases log.len(),
{
    if log.len() > 0 {
        let before = log.drop_last();
        pending_is_part(before, acked);
        let now = pending(log, acked);
        assert forall|i: int| 0 <= i < now.len() implies !acked.contains((#[trigger] now[i]).0)
            && log.contains(now[i]) by {
            if i < pending(before, acked).len() {
                assert(now[i] == pending(before, acked)[i]);
                let k = choose|k: int| 0 <= k < before.len() && before[k] == now[i];
                assert(log[k] == now[i]);
            } else {
                assert(log[log.len() - 1] == now[i]);
            }
        }
        assert forall|i: int|
            0 <= i < log.len() && !acked.contains((#[trigger] log[i]).0) implies now.contains(
            log[i],
        ) by {
            if i < before.len() {
                assert(before[i] == log[i]);
                let k = choose|k: int|
                    0 <= k < pending(before, acked).len() && pending(before, acked)[k] == log[i];
                assert(now[k] == log[i]);
            } else {
                assert(now.last() == log[i]);
            }
        }
    }
}

/// Whether the positions of the instructions grow.
pub open spec fn increasing(log: Seq<(usize, String)>) -> bool {
    forall|i: int, j: int| 0 <= i < j < log.len() ==> (#[trigger] log[i]).0 < (#[trigger] log[j]).0
}

pub(crate) proof fn pending_increases(log: Seq<(usize, String)>, acked: Seq<usize>)
    requires
        increasing(log),
    ensures
        increasing(pending(log, acked)),
    decreases log.len(),
{
    if log.len() > 0 {
        let before = log.drop_last();
        assert forall|i: int, j: int| 0 <= i < j < before.len() implies (#[trigger] before[i]).0 < (
        #[trigger] before[j]).0 by {
            assert(log[i].0 < log[j].0);
        }
        pending_increases(before, acked);
        pending_is_part(before, acked);
        let rest = pending(before, acked);
        let now = pending(log, acked);
        assert forall|i: int, j: int| 0 <= i < j < now.len() implies (#[trigger] now[i]).0 < (
        #[trigger] now[j]).0 by {
            assert(now[i] == rest[i]);
            if j < rest.len() {
                assert(now[j] == rest[j]);
            } else {
                let k = choose|k: int| 0 <= k < before.len() && before[k] == rest[i];
                assert(log[k].0 < log[log.len() - 1].0);
            }
        }
    }
}

/// What an instruction changes of the job's state and the screen. `delivered`
/// says whether the job took it.
pub open spec fn steered(
    before: (ResearchState, Screen),
    after: (ResearchState, Screen),
    text: Seq<char>,
    delivered: bool,
) -> bool {
    let (job, screen) = before;
    if text.len() == 0 {
        after.0 == job && says(screen, after.1, "usage: /steer <what to also look into>"@)
    } else if !job.steer_open {
        after.0 == job && says(screen, after.1, "no research job is running"@)
    } else if job.steer_log@.len() >= MAX_QUEUED_STEERS {
        after.0 == job && says(
            screen,
            after.1,
            "steer queue full (64 pending) — wait for the next round"@,
        )
    } else if !delivered {
        after.0 == job && says(screen, after.1, "no research job is running"@)
    } else {
        &&& after.0 == (ResearchState { steer_log: after.0.steer_log, ..job })
        &&& exists|entry: (usize, String)|
            {
                &&& entry.0 == highest(job.steer_log@, job.steer_acked@) + 1
                &&& entry.1@ == text
                &&& after.0.steer_log@ == #[trigger] pending(
                    job.steer_log@.push(entry),
                    job.steer_acked@,
                )
            }
        &&& says(screen, after.1, "queued steer: "@ + text)
    }
}

/// The queue of instructions never grows beyond its bound and keeps its order:
/// positions grow, a full queue stays as it is, and an instruction that the job
/// took stands last, at a position above every one that is queued or was taken
/// up. What was taken up is not kept.
pub proof fn steer_queue_is_bounded(
    before: (ResearchState, Screen),
    after: (ResearchState, Screen),
    text: Seq<char>,
    delivered: bool,
)
    requires
        steered(before, after, text, delivered),
        before.0.steer_log@.len() <= MAX_QUEUED_STEERS,
        increasing(before.0.steer_log@),
    ensures
        after.0.steer_log@.len() <= MAX_QUEUED_STEERS,
        increasing(after.0.steer_log@),
        after.0.steer_acked == before.0.steer_acked,
        before.0.steer_log@.len() == MAX_QUEUED_STEERS ==> after.0 == before.0,
        text.len() > 0 && before.0.steer_open && before.0.steer_log@.len() < MAX_QUEUED_STEERS
            && delivered ==> {
            let log = after.0.steer_log@;
            &&& log.len() > 0 && log.last().1@ == text
            &&& forall|j: int|
                0 <= j < before.0.steer_log@.len() ==> (#[trigger] before.0.steer_log@[j]).0
                    < log.last().0
            &&& forall|j: int|
                0 <= j < before.0.steer_acked@.len() ==> #[trigger] before.0.steer_acked@[j]
                    < log.last().0
            &&& forall|i: int|
                0 <= i < log.len() ==> !before.0.steer_acked@.contains((#[trigger] log[i]).0)
            &&& forall|i: int|
                0 <= i < log.len() - 1 ==> before.0.steer_log@.contains(#[trigger] log[i])
        },
{
    let job = before.0;
    if text.len() > 0 && job.steer_open && job.steer_log@.len() < MAX_QUEUED_STEERS && delivered {
        let entry = choose|entry: (usize, String)|
            {
                &&& entry.0 == highest(job.steer_log@, job.steer_acked@) + 1
                &&& entry.1@ == text
                &&& after.0.steer_log@ == #[trigger] pending(
                    job.steer_log@.push(entry),
                    job.steer_acked@,
                )
            };
        let log = job.steer_log@.push(entry);
        highest_is_highest(job.steer_log@, job.steer_acked@);
        assert(increasing(log));
        pending_increases(log, job.steer_acked@);
        pending_is_part(log, job.steer_acked@);
        assert(log.drop_last() =~= job.steer_log@);
        pending_is_part(job.steer_log@, job.steer_acked@);
        let rest = pending(job.steer_log@, job.steer_acked@);
        assert(after.0.steer_log@ == rest.push(entry));
        assert forall|i: int| 0 <= i < after.0.steer_log@.len() - 1 implies job.steer_log@.contains(
            #[trigger] after.0.steer_log@[i],
        ) by {
            assert(after.0.steer_log@[i] == rest[i]);
        }
    }
}

impl ResearchState {
    /// Whether an instruction can be handed to the job now.
    pub fn takes_steer(&self, text: &str) -> (r: bool)
        ensures
            r == (text@.len() > 0 && self.steer_open && self.steer_log@.len() < MAX_QUEUED_STEERS),
    {
        !text.is_empty() && self.steer_open && self.steer_log.len() < MAX_QUEUED_STEERS
    }

    fn steer(&mut self, screen: &mut Screen, text: &str, delivered: bool)
        requires
            highest(old(self).steer_log@, old(self).steer_acked@) < usize::MAX,
        ensures
            steered((*old(self), *old(screen)), (*final(self), *final(screen)), text@, delivered),
    {
        if text.is_empty() {
            screen.status = "usage: /steer <what to also look into>".to_owned();
            return;
        }
        if !self.steer_open {
            screen.status = "no research job is running".to_owned();
            return;
        }
        if self.steer_log.len() >= MAX_QUEUED_STEERS {
            screen.status = "steer queue full (64 pending) — wait for the next round".to_owned();
            return;
        }
        if !delivered {
            screen.status = "no research job is running".to_owned();
            return;
        }
        let pos: usize = highest_of(&self.steer_log, &self.steer_acked) + 1;
        let entry = (pos, text.to_owned());
        self.steer_log.push(entry);
        self.steer_log = pending_of(&self.steer_log, &self.steer_acked);
        screen.status = concat("queued steer: ", text);
        assert(self.steer_log@ == pending(
            old(self).steer_log@.push(entry),
            old(self).steer_acked@,
        ));
    }
}

/// Whether the job's state forgot every instruction.
pub open spec fn no_steers(r: ResearchState) -> bool {
    r.steer_log@.len() == 0 && r.steer_acked@.len() == 0
}

/// What stopping the job changes and asks for; the screen says `status`.
pub open spec fn stopped(
    before: (ResearchState, Jobs, Screen),
    after: (ResearchState, Jobs, Screen),
    effects: Seq<EffectView>,
    status: Seq<char>,
) -> bool {
    let (job, jobs, screen) = before;
    let abort = seq![EffectView::AbortResearch];
    if jobs.research {
        &&& after.0 == (ResearchState {
            running: None,
            gate: None,
            reply_open: false,
            steer_open: false,
            steer_log: after.0.steer_log,
            steer_acked: after.0.steer_acked,
            ..job
        }) && no_steers(after.0)
        &&& after.1 == (Jobs { research: false, ..jobs })
        &&& after.2 == (Screen { status: after.2.status, popup: Popup::Closed, ..screen })
            && after.2.status@ == status
        &&& effects == (match job.running {
            Some(p) => abort.push(
                EffectView::UpsertStage {
                    session_id: p.0@,
                    label: "research"@,
                    detail: "stopped by user"@,
                },
            ),
            None => abort,
        })
    } else {
        &&& after.0 == (ResearchState { gate: None, ..job })
        &&& after.1 == jobs
        &&& says(screen, after.2, status)
        &&& effects == abort
    }
}

pub(crate) fn stop_job(
    job: &mut ResearchState,
    jobs: &mut Jobs,
    screen: &mut Screen,
    status: String,
) -> (r: Vec<Effect>)
    ensures
        stopped(
            (*old(job), *old(jobs), *old(screen)),
            (*final(job), *final(jobs), *final(screen)),
            views(r@),
            status@,
        ),
{
    let mut r = one_effect(Effect::AbortResearch);
    job.gate = None;
    if jobs.research {
        jobs.research = false;
        if let Some((id, _)) = &job.running {
            r =
            and_effect(
                r,
                Effect::UpsertStage {
                    session_id: id.clone(),
                    label: "research".to_owned(),
                    detail: "stopped by user".to_owned(),
                },
            );
        }
        job.running = None;
        job.reply_open = false;
        job.steer_open = false;
        job.steer_log = Vec::new();
        job.steer_acked = Vec::new();
        screen.popup = Popup::Closed;
    }
    screen.status = status;
    r
}

/// Whether the job waits for a reply in the session that is viewed.
pub open spec fn gate_here(job: ResearchState, talk: Conversation) -> bool {
    job.gate matches Some(g) && talk.is_of(g.session_id@)
}

fn gate_is_here(job: &ResearchState, talk: &Conversation) -> (r: bool)
    ensures
        r == gate_here(*job, *talk),
{
    match &job.gate {
        Some(g) => talk.views_session(g.session_id.as_str()),
        None => false,
    }
}

/// Whether a row with this role and text is there.
pub open spec fn has_row(rows: Seq<MessageView>, role: Seq<char>, content: Seq<char>) -> bool {
    exists|i: int|
        0 <= i < rows.len() && (#[trigger] rows[i]).role == role && rows[i].content == content
}

fn row_present(messages: &Vec<Message>, role: &str, content: &str) -> (r: bool)
    ensures
        r == has_row(views(messages@), role@, content@),
{
    let mut i: usize = 0;
    while i < messages.len()
        invariant
            i <= messages@.len(),
            forall|j: int|
                0 <= j < i ==> !((#[trigger] views(messages@)[j]).role == role@ && views(
                    messages@,
                )[j].content == content@),
        decreases messages@.len() - i,
    {
        assert(views(messages@)[i as int] == messages@[i as int]@);
        if same(messages[i].role.as_str(), role) && same(messages[i].content.as_str(), content) {
            return true;
        }
        i += 1;
    }
    false
}

/// Rows of the conversation, with what the job asks for where it waits in this
/// session and the row is not there.
pub open spec fn gate_rows(
    job: ResearchState,
    talk: Conversation,
    rows: Seq<MessageView>,
) -> Seq<MessageView> {
    match job.gate {
        Some(g) if talk.is_of(g.session_id@) && !has_row(
            rows,
            g.prompt_role@,
            g.prompt_content@,
        ) => rows.push(plain_row(g.prompt_role@, g.prompt_content@)),
        _ => rows,
    }
}

/// The rows of the conversation, with what the job asks for where it waits in
/// this session and the row is not there.
pub open spec fn with_gate_prompt(job: ResearchState, talk: Conversation) -> Seq<MessageView> {
    gate_rows(job, talk, views(talk.messages@))
}

pub(crate) fn restore_prompt(job: &ResearchState, talk: &mut Conversation)
    ensures
        rows_are(*old(talk), *final(talk), with_gate_prompt(*job, *old(talk))),
{
    if let Some(g) = &job.gate {
        if talk.views_session(g.session_id.as_str()) && !row_present(
            &talk.messages,
            g.prompt_role.as_str(),
            g.prompt_content.as_str(),
        ) {
            talk.add_row(Message::plain(g.prompt_role.as_str(), g.prompt_content.clone()));
        }
    }
}

/// What is asked for is there once it was restored, and is not restored twice.
pub proof fn gate_prompt_is_restored_once(
    job: ResearchState,
    before: Conversation,
    after: Conversation,
)
    requires
        rows_are(before, after, with_gate_prompt(job, before)),
    ensures
        gate_here(job, before) ==> has_row(
            views(after.messages@),
            job.gate->0.prompt_role@,
            job.gate->0.prompt_content@,
        ),
        with_gate_prompt(job, after) == views(after.messages@),
{
    if gate_here(job, before) {
        let g = job.gate->0;
        let rows = views(before.messages@);
        if !has_row(rows, g.prompt_role@, g.prompt_content@) {
            assert(views(after.messages@)[rows.len() as int].role == g.prompt_role@);
        }
    }
}

/// What came of a reply at a gate: whether it could be stored, with the reason
/// where not; whether the job took it; and, where it did not, why the stored
/// reply could not be taken back.
pub struct ReplyOutcome {
    pub saved: Result<(), String>,
    pub delivered: bool,
    pub rollback_error: Option<String>,
}

/// Whether a reply at a gate is stored before it is passed on: one that is not
/// blank, of a job that did not begin in incognito mode.
pub open spec fn reply_is_stored(job: ResearchState, text: Seq<char>) -> bool {
    trim(text).len() > 0 && !job.incognito
}

/// What is to be done next of a reply at a gate.
#[derive(Debug, Clone, Copy, PartialEq, Eq, Structural)]
pub enum ReplyStage {
    /// Store the reply in the session that the job waits in: answered by
    /// `Stored`.
    Storing,
    /// Pass the reply on to the job: answered by `PassedOn`.
    PassingOn,
    /// Take the stored reply back: answered by `TakenBack`.
    TakingBack,
    /// Nothing is left to do.
    Over,
}

/// What came of the last thing that was done of a reply.
pub enum ReplyEvent {
    Stored(Result<(), String>),
    PassedOn(bool),
    TakenBack(Result<(), String>),
}

/// A reply at a gate on its way: what is next, whether it is stored at all, and
/// what came of it so far.
pub struct ReplyRun {
    pub stage: ReplyStage,
    pub kept: bool,
    pub outcome: ReplyOutcome,
}

/// Whether a reply sets out like this: it is stored first, where it is stored
/// at all, and then passed on; without a gate there is nothing to do.
pub open spec fn reply_started(job: ResearchState, text: Seq<char>, run: ReplyRun) -> bool {
    &&& run.kept == (job.gate is Some && reply_is_stored(job, text))
    &&& run.stage == (if job.gate is None {
        ReplyStage::Over
    } else if run.kept {
        ReplyStage::Storing
    } else {
        ReplyStage::PassingOn
    })
    &&& run.outcome.saved is Ok && !run.outcome.delivered && run.outcome.rollback_error is None
}

/// What an event does to a reply on its way. A reply that could not be stored
/// is not passed on; one that was stored and that the job did not take is taken
/// back. An event that is not waited for changes nothing.
pub open spec fn reply_next(before: ReplyRun, ev: ReplyEvent, after: ReplyRun) -> bool {
    let o = before.outcome;
    match (before.stage, ev) {
        (ReplyStage::Storing, ReplyEvent::Stored(r)) => after == (ReplyRun {
            stage: if r is Ok {
                ReplyStage::PassingOn
            } else {
                ReplyStage::Over
            },
            outcome: ReplyOutcome { saved: r, ..o },
            ..before
        }),
        (ReplyStage::PassingOn, ReplyEvent::PassedOn(delivered)) => after == (ReplyRun {
            stage: if !delivered && before.kept {
                ReplyStage::TakingBack
            } else {
                ReplyStage::Over
            },
            outcome: ReplyOutcome { delivered, ..o },
            ..before
        }),
        (ReplyStage::TakingBack, ReplyEvent::TakenBack(r)) => after == (ReplyRun {
            stage: ReplyStage::Over,
            outcome: ReplyOutcome {
                rollback_error: match r {
                    Ok(_) => None,
                    Err(e) => Some(e),
                },
                ..o
            },
            ..before
        }),
        _ => after == before,
    }
}

impl ResearchState {
    /// Sets out to pass a reply on.
    pub fn start_reply(&self, text: &str) -> (r: ReplyRun)
        ensures
            reply_started(*self, text@, r),
    {
        let waits = self.gate.is_some();
        let kept = waits && !trimmed(text).is_empty() && !self.incognito;
        ReplyRun {
            stage: if !waits {
                ReplyStage::Over
            } else if kept {
                ReplyStage::Storing
            } else {
                ReplyStage::PassingOn
            },
            kept,
            outcome: ReplyOutcome { saved: Ok(()), delivered: false, rollback_error: None },
        }
    }
}

impl ReplyRun {
    /// Takes one event of a reply on its way.
    pub fn step(&mut self, ev: ReplyEvent)
        ensures
            reply_next(*old(self), ev, *final(self)),
    {
        match (self.stage, ev) {
            (ReplyStage::Storing, ReplyEvent::Stored(r)) => {
                self.stage =
                if r.is_ok() {
                    ReplyStage::PassingOn
                } else {
                    ReplyStage::Over
                };
                self.outcome.saved = r;
            },
            (ReplyStage::PassingOn, ReplyEvent::PassedOn(delivered)) => {
                self.stage =
                if !delivered && self.kept {
                    ReplyStage::TakingBack
                } else {
                    ReplyStage::Over
                };
                self.outcome.delivered = delivered;
            },
            (ReplyStage::TakingBack, ReplyEvent::TakenBack(r)) => {
                self.stage = ReplyStage::Over;
                self.outcome.rollback_error =
                match r {
                    Ok(_) => None,
                    Err(e) => Some(e),
                };
            },
            _ => {},
        }
    }
}

/// The stored rows of the session that the job waits in, after an event of a
/// reply: storing the reply adds its row, and taking it back takes that row away.
pub open spec fn stored_next(
    rows: Seq<MessageView>,
    text: Seq<char>,
    run: ReplyRun,
    ev: ReplyEvent,
) -> Seq<MessageView> {
    match (run.stage, ev) {
        (ReplyStage::Storing, ReplyEvent::Stored(Ok(_))) => rows.push(
            plain_row("gate_reply"@, text),
        ),
        (ReplyStage::TakingBack, ReplyEvent::TakenBack(Ok(_))) => rows.drop_last(),
        _ => rows,
    }
}

/// Whether a reply takes these states and leaves these stored rows on its way:
/// from the start, one event after the other.
pub open spec fn reply_course(
    job: ResearchState,
    text: Seq<char>,
    events: Seq<ReplyEvent>,
    runs: Seq<ReplyRun>,
    rows: Seq<Seq<MessageView>>,
) -> bool {
    &&& runs.len() == events.len() + 1 && rows.len() == runs.len()
    &&& reply_started(job, text, runs[0])
    &&& forall|i: int|
        0 <= i < events.len() ==> reply_next(runs[i], #[trigger] events[i], runs[i + 1])
            && rows[i + 1] == stored_next(rows[i], text, runs[i], events[i])
}

/// The stored rows that a reply leaves, by what came of it: its row is there
/// where it was stored and the job took it, or where it could not be taken back.
pub open spec fn rows_left(
    rows: Seq<MessageView>,
    text: Seq<char>,
    kept: bool,
    o: ReplyOutcome,
) -> Seq<MessageView> {
    if kept && o.saved is Ok && (o.delivered || o.rollback_error is Some) {
        rows.push(plain_row("gate_reply"@, text))
    } else {
        rows
    }
}

proof fn course_holds(
    job: ResearchState,
    text: Seq<char>,
    events: Seq<ReplyEvent>,
    runs: Seq<ReplyRun>,
    rows: Seq<Seq<MessageView>>,
    n: int,
)
    requires
        reply_course(job, text, events, runs, rows),
        0 <= n < runs.len(),
    ensures
        ({
            let run = runs[n];
            let o = run.outcome;
            let with = rows[0].push(plain_row("gate_reply"@, text));
            &&& run.kept == (job.gate is Some && reply_is_stored(job, text))
            &&& match run.stage {
                ReplyStage::Storing => run.kept && rows[n] == rows[0] && o.saved is Ok
                    && !o.delivered && o.rollback_error is None,
                ReplyStage::PassingOn => rows[n] == (if run.kept { with } else { rows[0] })
                    && o.saved is Ok && !o.delivered && o.rollback_error is None,
                ReplyStage::TakingBack => run.kept && rows[n] == with && o.saved is Ok
                    && !o.delivered && o.rollback_error is None,
                ReplyStage::Over => rows[n] == rows_left(rows[0], text, run.kept, o),
            }
        }),
    decreases n,
{
    if n > 0 {
        course_holds(job, text, events, runs, rows, n - 1);
        let ev = events[n - 1];
        assert(reply_next(runs[n - 1], ev, runs[n - 1 + 1]));
        let with = rows[0].push(plain_row("gate_reply"@, text));
        assert(with.drop_last() =~= rows[0]);
    }
}

/// A reply that went its way is in the store where the job took it, and nowhere
/// where it did not: one that was stored and not taken is taken back, so that
/// sending it again makes no second row. Where it could not even be stored, the
/// job never gets it; and of a blank reply, or one of a job that began in
/// incognito mode, nothing is ever stored.
pub proof fn undelivered_reply_is_taken_back(
    job: ResearchState,
    text: Seq<char>,
    events: Seq<ReplyEvent>,
    runs: Seq<ReplyRun>,
    rows: Seq<Seq<MessageView>>,
)
    requires
        reply_course(job, text, events, runs, rows),
        runs.last().stage is Over,
    ensures
        ({
            let o = runs.last().outcome;
            let kept = job.gate is Some && reply_is_stored(job, text);
            &&& rows.last() == rows_left(rows[0], text, kept, o)
            &&& !o.delivered && o.rollback_error is None ==> rows.last() == rows[0]
            &&& o.saved is Err ==> !o.delivered && rows.last() == rows[0]
            &&& !kept ==> rows.last() == rows[0]
        }),
{
    let n = runs.len() - 1;
    course_holds(job, text, events, runs, rows, n);
    unsaved_is_not_delivered(job, text, events, runs, rows, n);
}

proof fn unsaved_is_not_delivered(
    job: ResearchState,
    text: Seq<char>,
    events: Seq<ReplyEvent>,
    runs: Seq<ReplyRun>,
    rows: Seq<Seq<MessageView>>,
    n: int,
)
    requires
        reply_course(job, text, events, runs, rows),
        0 <= n < runs.len(),
    ensures
        runs[n].outcome.saved is Err ==> !runs[n].outcome.delivered,
    decreases n,
{
    if n > 0 {
        unsaved_is_not_delivered(job, text, events, runs, rows, n - 1);
        course_holds(job, text, events, runs, rows, n - 1);
        assert(reply_next(runs[n - 1], events[n - 1], runs[n - 1 + 1]));
    }
}

/// What the screen says once the job took a reply.
pub open spec fn reply_words(phase: SurveyPhase) -> Seq<char> {
    match phase {
        SurveyPhase::Clarify { round } => "answer noted (round "@ + decimal(round as nat)
            + ") — checking for follow-ups… · Ctrl+↑ agents"@,
        SurveyPhase::Approve { rework } => if rework {
            "revision folded in — continuing… · Ctrl+↑ agents"@
        } else {
            "plan reply sent — continuing… · Ctrl+↑ agents"@
        },
    }
}

/// Whether the screen changed in its status line and its composer alone, which
/// hold these texts.
pub open spec fn hands_back(before: Screen, after: Screen, status: Seq<char>, text: Seq<char>) -> bool {
    &&& after == (Screen { status: after.status, input: after.input, ..before })
    &&& after.status@ == status
    &&& after.input@ == text
}

/// What a reply at a gate changes.
pub open spec fn replied(
    before: (ResearchState, Conversation, Screen),
    after: (ResearchState, Conversation, Screen),
    text: Seq<char>,
    o: ReplyOutcome,
) -> bool {
    let (job, talk, screen) = before;
    match job.gate {
        None => after == before,
        Some(g) => {
            let kept = reply_is_stored(job, text);
            match o.saved {
                Err(e) if kept => {
                    &&& after.0 == job && after.1 == talk
                    &&& hands_back(screen, after.2, "couldn't save your reply — "@ + e@, text)
                },
                _ => {
                    &&& after.0 == (ResearchState { gate: None, ..job })
                    &&& if !o.delivered {
                        &&& after.1 == talk
                        &&& hands_back(
                            screen,
                            after.2,
                            match o.rollback_error {
                                Some(e) if kept =>
                                    "the job stopped waiting and the saved reply could not be rolled back: "@
                                    + e@ + " — text restored to the composer"@,
                                _ =>
                                    "the job is no longer waiting for a reply — text restored to the composer"@,
                            },
                            text,
                        )
                    } else {
                        &&& rows_are(
                            talk,
                            after.1,
                            if trim(text).len() > 0 && talk.is_of(g.session_id@) {
                                views(talk.messages@).push(plain_row("gate_reply"@, text))
                            } else {
                                views(talk.messages@)
                            },
                        )
                        &&& says(screen, after.2, reply_words(g.phase))
                    }
                },
            }
        },
    }
}

/// A reply that the job did not take leaves nothing behind but its text in the
/// composer: the job waits no longer, no row shows it, and no row of it is
/// stored.
pub proof fn undelivered_reply_comes_back(
    before: (ResearchState, Conversation, Screen),
    after: (ResearchState, Conversation, Screen),
    text: Seq<char>,
    events: Seq<ReplyEvent>,
    runs: Seq<ReplyRun>,
    rows: Seq<Seq<MessageView>>,
)
    requires
        before.0.gate is Some,
        reply_course(before.0, text, events, runs, rows),
        runs.last().stage is Over,
        runs.last().outcome.saved is Ok,
        !runs.last().outcome.delivered,
        runs.last().outcome.rollback_error is None,
        replied(before, after, text, runs.last().outcome),
    ensures
        after.0 == (ResearchState { gate: None, ..before.0 }),
        after.1 == before.1,
        after.2.input@ == text,
        rows.last() == rows[0],
{
    undelivered_reply_is_taken_back(before.0, text, events, runs, rows);
}

fn reply_status(phase: SurveyPhase) -> (r: String)
    ensures
        r@ == reply_words(phase),
{
    match phase {
        SurveyPhase::Clarify { round } => {
            let mut s = "answer noted (round ".to_owned();
            s.append(decimal_of(round as u64).as_str());
            s.append(") — checking for follow-ups… · Ctrl+↑ agents");
            s
        },
        SurveyPhase::Approve { rework } => {
            if rework {
                "revision folded in — continuing… · Ctrl+↑ agents".to_owned()
            } else {
                "plan reply sent — continuing… · Ctrl+↑ agents".to_owned()
            }
        },
    }
}

fn take_reply(
    job: &mut ResearchState,
    talk: &mut Conversation,
    screen: &mut Screen,
    text: &str,
    o: ReplyOutcome,
)
    ensures
        replied(
            (*old(job), *old(talk), *old(screen)),
            (*final(job), *final(talk), *final(screen)),
            text@,
            o,
        ),
{
    let (gate_session, phase) = match &job.gate {
        Some(g) => (g.session_id.clone(), g.phase),
        None => {
            return;
        },
    };
    let blank = trimmed(text).is_empty();
    let kept = !blank && !job.incognito;
    if let Err(e) = o.saved {
        if kept {
            screen.input = text.to_owned();
            screen.status = concat("couldn't save your reply — ", e.as_str());
            return;
        }
    }
    job.gate = None;
    if !o.delivered {
        screen.input = text.to_owned();
        screen.status = match o.rollback_error {
            Some(e) if kept => {
                let mut s =
                    "the job stopped waiting and the saved reply could not be rolled back: ".to_owned();
                s.append(e.as_str());
                s.append(" — text restored to the composer");
                s
            },
            _ =>
                "the job is no longer waiting for a reply — text restored to the composer".to_owned(),
        };
        return;
    }
    if !blank && talk.views_session(gate_session.as_str()) {
        talk.add_row(Message::plain("gate_reply", text.to_owned()));
    }
    screen.status = reply_status(phase);
}

impl App {
    /// Hands the job that runs an instruction. `delivered` says whether it was
    /// taken.
    pub fn steer_research(&mut self, text: &str, delivered: bool)
        requires
            highest(old(self).research.steer_log@, old(self).research.steer_acked@) < usize::MAX,
        ensures
            *final(self) == (App {
                research: final(self).research,
                screen: final(self).screen,
                ..*old(self)
            }),
            steered(
                (old(self).research, old(self).screen),
                (final(self).research, final(self).screen),
                text@,
                delivered,
            ),
    {
        self.research.steer(&mut self.screen, text, delivered);
    }

    /// Opens the view on what the searchers do.
    pub fn open_research_live(&mut self)
        ensures
            *final(self) == (App {
                research: ResearchState {
                    live_input: final(self).research.live_input,
                    ..old(self).research
                },
                screen: Screen { popup: Popup::ResearchLive, ..old(self).screen },
                ..*old(self)
            }),
            final(self).research.live_input@ == Seq::<char>::empty(),
    {
        self.research.live_input = String::new();
        self.screen.popup = Popup::ResearchLive;
    }

    /// Stops the job that runs.
    pub fn stop_research(&mut self) -> (r: Vec<Effect>)
        ensures
            *final(self) == (App {
                research: final(self).research,
                jobs: final(self).jobs,
                screen: final(self).screen,
                ..*old(self)
            }),
            stopped(
                (old(self).research, old(self).jobs, old(self).screen),
                (final(self).research, final(self).jobs, final(self).screen),
                views(r@),
                if old(self).jobs.research {
                    "research stopped"@
                } else {
                    "no research job is running"@
                },
            ),
    {
        let status = if self.jobs.research {
            "research stopped".to_owned()
        } else {
            "no research job is running".to_owned()
        };
        stop_job(&mut self.research, &mut self.jobs, &mut self.screen, status)
    }

    /// Whether what is typed goes to the job: it waits for a reply in the
    /// session that is viewed.
    pub fn survey_gate_targets_current_session(&self) -> (r: bool)
        ensures
            r == gate_here(self.research, self.talk),
    {
        gate_is_here(&self.research, &self.talk)
    }

    /// Shows what the job asks for in the session that was just loaded, where
    /// it waits there.
    pub fn restore_survey_gate_prompt(&mut self)
        ensures
            *final(self) == (App { talk: final(self).talk, ..*old(self) }),
            rows_are(
                old(self).talk,
                final(self).talk,
                with_gate_prompt(old(self).research, old(self).talk),
            ),
    {
        restore_prompt(&self.research, &mut self.talk);
    }

    /// Takes a reply to what the job asks. It went its way before (see
    /// `ResearchState::start_reply`), and `o` says what came of it.
    pub fn reply_to_survey_gate(&mut self, text: &str, o: ReplyOutcome)
        ensures
            *final(self) == (App {
                research: final(self).research,
                talk: final(self).talk,
                screen: final(self).screen,
                ..*old(self)
            }),
            replied(
                (old(self).research, old(self).talk, old(self).screen),
                (final(self).research, final(self).talk, final(self).screen),
                text@,
                o,
            ),
    {
        take_reply(&mut self.research, &mut self.talk, &mut self.screen, text, o);
    }
}

} // verus!
