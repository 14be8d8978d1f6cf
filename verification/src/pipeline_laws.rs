//! What holds of every run of a research job.

use crate::pipeline::{
    job_inv, next, next_keeps_inv, started, steer_stages, ResearchActionView, ResearchEventView, ResearchJobView,
    ResearchPhase, ResearchUpdateView, Transition,
};
use crate::research::{approval, MAX_SURVEY_ROUNDS};
use crate::text::trim;
use vstd::prelude::*;

verus! {

/// Where a job stands after the events, and all that it asked to be done.
pub open spec fn run(
    topic: Seq<char>,
    gated: bool,
    events: Seq<ResearchEventView>,
) -> Transition
    decreases events.len(),
{
    if events.len() == 0 {
        started(topic, gated)
    } else {
        let before = run(topic, gated, events.drop_last());
        let step = next(before.0, events.last());
        (step.0, before.1 + step.1)
    }
}

/// Whether the event approves the plan that the job shows: the user typed
/// nothing, or the approval agent read their reply as an approval.
pub open spec fn approves(s: ResearchJobView, ev: ResearchEventView) -> bool {
    match (s.phase, ev) {
        (ResearchPhase::Approving, ResearchEventView::UserReply(Some(text))) => trim(text).len()
            == 0,
        (ResearchPhase::Judging, ResearchEventView::Reply { result: Ok(text), objects }) =>
            approval(trim(text), objects) is Approved,
        _ => false,
    }
}

/// Whether some event of the run approved the plan.
pub open spec fn approval_seen(
    topic: Seq<char>,
    gated: bool,
    events: Seq<ResearchEventView>,
) -> bool {
    exists|k: int|
        0 <= k < events.len() && approves(
            run(topic, gated, events.take(k)).0,
            #[trigger] events[k],
        )
}

/// Whether the phase comes after the approval of the plan.
pub open spec fn past_approval(phase: ResearchPhase) -> bool {
    match phase {
        ResearchPhase::Scoping
        | ResearchPhase::Answering
        | ResearchPhase::Gathering
        | ResearchPhase::Planning
        | ResearchPhase::Approving
        | ResearchPhase::Judging
        | ResearchPhase::Finished => false,
        _ => true,
    }
}

/// What an action is for, as far as it is counted.
pub enum Kind {
    /// It tells the outcome.
    Outcome,
    /// It shows a plan for approval.
    Plan,
    /// It asks the user for answers.
    Survey,
    /// It sends searchers out.
    Search,
    Other,
}

pub open spec fn kind(a: ResearchActionView) -> Kind {
    match a {
        ResearchActionView::Update(ResearchUpdateView::Done(_)) => Kind::Outcome,
        ResearchActionView::Update(ResearchUpdateView::PlanReady { .. }) => Kind::Plan,
        ResearchActionView::Update(ResearchUpdateView::SurveyReady { .. }) => Kind::Survey,
        ResearchActionView::Search { .. } => Kind::Search,
        _ => Kind::Other,
    }
}

/// How many of the actions are of the kind.
pub open spec fn tally(actions: Seq<ResearchActionView>, k: Kind) -> nat
    decreases actions.len(),
{
    if actions.len() == 0 {
        0
    } else {
        tally(actions.drop_last(), k) + unit(actions.last(), k)
    }
}

spec fn unit_of(b: bool) -> nat {
    if b { 1 } else { 0 }
}

pub open spec fn unit(a: ResearchActionView, k: Kind) -> nat {
    if kind(a) == k { 1 } else { 0 }
}

proof fn tally_add(a: Seq<ResearchActionView>, b: Seq<ResearchActionView>, k: Kind)
    ensures
        tally(a + b, k) == tally(a, k) + tally(b, k),
    decreases b.len(),
{
    if b.len() == 0 {
        assert(a + b =~= a);
    } else {
        assert((a + b).drop_last() =~= a + b.drop_last());
        tally_add(a, b.drop_last(), k);
    }
}

proof fn tally_push(a: Seq<ResearchActionView>, x: ResearchActionView, k: Kind)
    ensures
        tally(a.push(x), k) == tally(a, k) + unit(x, k),
{
    assert(a.push(x).drop_last() =~= a);
}

proof fn tally_one(x: ResearchActionView, k: Kind)
    ensures
        tally(seq![x], k) == unit(x, k),
{
    tally_push(Seq::empty(), x, k);
    assert(Seq::empty().push(x) =~= seq![x]);
}

proof fn tally_two(x: ResearchActionView, y: ResearchActionView, k: Kind)
    ensures
        tally(seq![x, y], k) == unit(x, k) + unit(y, k),
{
    tally_one(x, k);
    tally_push(seq![x], y, k);
    assert(seq![x].push(y) =~= seq![x, y]);
}

proof fn tally_three(
    x: ResearchActionView,
    y: ResearchActionView,
    z: ResearchActionView,
    k: Kind,
)
    ensures
        tally(seq![x, y, z], k) == unit(x, k) + unit(y, k) + unit(z, k),
{
    tally_two(x, y, k);
    tally_push(seq![x, y], z, k);
    assert(seq![x, y].push(z) =~= seq![x, y, z]);
}

proof fn tally_steers(seq: nat, steers: Seq<Seq<char>>, k: Kind)
    requires
        !(k is Other),
    ensures
        tally(steer_stages(seq, steers), k) == 0,
    decreases steers.len(),
{
    if steers.len() > 0 {
        tally_steers(seq, steers.drop_last(), k);
        let last = steer_stages(seq, steers).last();
        tally_push(steer_stages(seq, steers.drop_last()), last, k);
        assert(steer_stages(seq, steers.drop_last()).push(last) =~= steer_stages(seq, steers));
    }
}

/// How many actions of the kind a step into the phase asks for.
spec fn due(k: Kind, phase: ResearchPhase) -> nat {
    match k {
        Kind::Outcome => unit_of(phase is Finished),
        Kind::Plan => unit_of(phase is Approving),
        Kind::Survey => unit_of(phase is Answering),
        Kind::Search => unit_of(phase is Searching || phase is Steering),
        Kind::Other => 0,
    }
}

spec fn is_due(t: Transition, k: Kind) -> bool {
    tally(t.1, k) == due(k, t.0.phase)
}

proof fn survey_due(s: ResearchJobView, ev: ResearchEventView, k: Kind)
    requires
        !(k is Other),
        s.phase is Scoping || s.phase is Answering,
    ensures
        next(s, ev) == (s, Seq::<ResearchActionView>::empty()) || is_due(next(s, ev), k),
{
    let a = next(s, ev).1;
    if a.len() == 1 {
        tally_one(a[0], k);
        assert(a =~= seq![a[0]]);
    } else if a.len() == 2 {
        tally_two(a[0], a[1], k);
        assert(a =~= seq![a[0], a[1]]);
    }
}

proof fn plan_due(s: ResearchJobView, ev: ResearchEventView, k: Kind)
    requires
        !(k is Other),
        s.phase is Gathering || s.phase is Planning || s.phase is Approving || s.phase is Judging,
    ensures
        next(s, ev) == (s, Seq::<ResearchActionView>::empty()) || is_due(next(s, ev), k),
{
    let a = next(s, ev).1;
    if a.len() == 1 {
        tally_one(a[0], k);
        assert(a =~= seq![a[0]]);
    } else if a.len() == 2 {
        tally_two(a[0], a[1], k);
        assert(a =~= seq![a[0], a[1]]);
    } else if a.len() == 3 {
        tally_three(a[0], a[1], a[2], k);
        assert(a =~= seq![a[0], a[1], a[2]]);
    }
}

proof fn search_due(s: ResearchJobView, ev: ResearchEventView, k: Kind)
    requires
        !(k is Other),
        s.phase is Pinning || s.phase is Searching || s.phase is Draining || s.phase is Steering
            || s.phase is Merging,
    ensures
        next(s, ev) == (s, Seq::<ResearchActionView>::empty()) || is_due(next(s, ev), k),
{
    let a = next(s, ev).1;
    if s.phase is Draining && next(s, ev).0.phase is Steering {
        if let ResearchEventView::Steers(steers) = ev {
            tally_steers(s.steer_seq as nat, steers, k);
            tally_push(steer_stages(s.steer_seq as nat, steers), a.last(), k);
        }
    } else if a.len() == 1 {
        tally_one(a[0], k);
        assert(a =~= seq![a[0]]);
    } else if a.len() == 2 {
        tally_two(a[0], a[1], k);
        assert(a =~= seq![a[0], a[1]]);
    } else if a.len() == 3 {
        tally_three(a[0], a[1], a[2], k);
        assert(a =~= seq![a[0], a[1], a[2]]);
    }
}

proof fn report_due(s: ResearchJobView, ev: ResearchEventView, k: Kind)
    requires
        !(k is Other),
        s.phase is Synthesizing || s.phase is Criticizing || s.phase is Resolving
            || s.phase is Verifying || s.phase is Writing || s.phase is Finished,
    ensures
        next(s, ev) == (s, Seq::<ResearchActionView>::empty()) || is_due(next(s, ev), k),
{
    let a = next(s, ev).1;
    if a.len() == 1 {
        tally_one(a[0], k);
        assert(a =~= seq![a[0]]);
    } else if a.len() == 2 {
        tally_two(a[0], a[1], k);
        assert(a =~= seq![a[0], a[1]]);
    } else if a.len() == 3 {
        tally_three(a[0], a[1], a[2], k);
        assert(a =~= seq![a[0], a[1], a[2]]);
    }
}

/// A step that does anything asks for what its new phase is about.
proof fn step_due(s: ResearchJobView, ev: ResearchEventView, k: Kind)
    requires
        !(k is Other),
    ensures
        next(s, ev) == (s, Seq::<ResearchActionView>::empty()) || is_due(next(s, ev), k),
{
    match s.phase {
        ResearchPhase::Scoping | ResearchPhase::Answering => survey_due(s, ev, k),
        ResearchPhase::Gathering
        | ResearchPhase::Planning
        | ResearchPhase::Approving
        | ResearchPhase::Judging => plan_due(s, ev, k),
        ResearchPhase::Pinning
        | ResearchPhase::Searching { .. }
        | ResearchPhase::Draining { .. }
        | ResearchPhase::Steering { .. }
        | ResearchPhase::Merging { .. } => search_due(s, ev, k),
        _ => report_due(s, ev, k),
    }
}

/// How a step moves the phase and the counters, and whether the job is gated.
proof fn step_moves(s: ResearchJobView, ev: ResearchEventView)
    ensures
        next(s, ev).0.gated == s.gated,
        past_approval(next(s, ev).0.phase) ==> past_approval(s.phase) || approves(s, ev)
            || !s.gated,
        s.phase is Finished ==> next(s, ev) == (s, Seq::<ResearchActionView>::empty()),
        next(s, ev).0.phase is Approving && next(s, ev).1.len() > 0 ==> (s.phase is Planning
            && !next(s, ev).0.rework && s.gated) || (s.phase is Judging && !s.rework && next(
            s,
            ev,
        ).0.rework),
        next(s, ev).0.phase is Judging ==> (s.phase is Approving || s.phase is Judging) && next(
            s,
            ev,
        ).0.rework == s.rework,
        next(s, ev).0.phase is Planning ==> s.phase is Planning || s.phase is Gathering,
        next(s, ev).0.phase is Gathering ==> s.phase is Gathering || s.phase is Scoping
            || s.phase is Answering,
        next(s, ev).0.phase is Scoping ==> s.phase is Scoping && next(s, ev).0.round == s.round
            || s.phase is Answering && next(s, ev).0.round == (s.round + 1) as u8,
        next(s, ev).0.phase is Answering ==> next(s, ev).0.round == s.round && (s.phase is Scoping
            || next(s, ev) == (s, Seq::<ResearchActionView>::empty())),
        next(s, ev).0.phase is Searching || next(s, ev).0.phase is Steering
            ==> past_approval(s.phase),
{
}

/// Searchers never run on a plan that the user has not approved: a gated job
/// that sent searchers out has seen the approval before.
pub proof fn no_search_before_approval(topic: Seq<char>, events: Seq<ResearchEventView>)
    ensures
        tally(run(topic, true, events).1, Kind::Search) > 0 ==> approval_seen(topic, true, events),
{
    approval_first(topic, events);
}

proof fn approval_first(topic: Seq<char>, events: Seq<ResearchEventView>)
    ensures
        tally(run(topic, true, events).1, Kind::Search) > 0 ==> approval_seen(topic, true, events),
        past_approval(run(topic, true, events).0.phase) ==> approval_seen(topic, true, events),
        run(topic, true, events).0.gated,
    decreases events.len(),
{
    if events.len() == 0 {
        start_due(topic, true, Kind::Search);
    } else {
        let earlier = events.drop_last();
        approval_first(topic, earlier);
        let before = run(topic, true, earlier);
        let ev = events.last();
        let step = next(before.0, ev);
        step_moves(before.0, ev);
        step_due(before.0, ev, Kind::Search);
        tally_add(before.1, step.1, Kind::Search);
        let n = events.len() - 1;
        if approval_seen(topic, true, earlier) {
            let k = choose|k: int|
                0 <= k < earlier.len() && approves(
                    run(topic, true, earlier.take(k)).0,
                    #[trigger] earlier[k],
                );
            assert(earlier.take(k) =~= events.take(k));
            assert(events[k] == earlier[k]);
            assert(approval_seen(topic, true, events));
        }
        if approves(before.0, ev) {
            assert(events.take(n) =~= earlier);
            assert(events[n] == ev);
            assert(approval_seen(topic, true, events));
        }
    }
}

proof fn start_due(topic: Seq<char>, gated: bool, k: Kind)
    requires
        !(k is Other),
    ensures
        tally(started(topic, gated).1, k) == 0,
{
    let a = started(topic, gated).1;
    tally_three(a[0], a[1], a[2], k);
    assert(a =~= seq![a[0], a[1], a[2]]);
}

/// A finished job does nothing any more.
pub proof fn finished_is_final(s: ResearchJobView, ev: ResearchEventView)
    requires
        s.phase is Finished,
    ensures
        next(s, ev) == (s, Seq::<ResearchActionView>::empty()),
{
}

/// A run tells its outcome exactly once, when it finishes.
pub proof fn one_outcome(topic: Seq<char>, gated: bool, events: Seq<ResearchEventView>)
    ensures
        tally(run(topic, gated, events).1, Kind::Outcome) == (if run(
            topic,
            gated,
            events,
        ).0.phase is Finished {
            1nat
        } else {
            0nat
        }),
    decreases events.len(),
{
    if events.len() == 0 {
        start_due(topic, gated, Kind::Outcome);
    } else {
        one_outcome(topic, gated, events.drop_last());
        let before = run(topic, gated, events.drop_last());
        let step = next(before.0, events.last());
        step_moves(before.0, events.last());
        step_due(before.0, events.last(), Kind::Outcome);
        tally_add(before.1, step.1, Kind::Outcome);
    }
}

/// How many plans a job in this state has shown.
spec fn plan_budget(s: ResearchJobView, shown: nat) -> bool {
    match s.phase {
        ResearchPhase::Scoping
        | ResearchPhase::Answering
        | ResearchPhase::Gathering
        | ResearchPhase::Planning => shown == 0,
        ResearchPhase::Approving | ResearchPhase::Judging => shown == if s.rework {
            2nat
        } else {
            1nat
        },
        _ => shown <= 2,
    }
}

/// A plan is shown for approval at most twice, once as planned and once as
/// revised, and never by a job that is not gated.
pub proof fn plan_shown_at_most_twice(
    topic: Seq<char>,
    gated: bool,
    events: Seq<ResearchEventView>,
)
    ensures
        tally(run(topic, gated, events).1, Kind::Plan) <= if gated { 2nat } else { 0nat },
{
    plans_within_budget(topic, gated, events);
}

proof fn plans_within_budget(topic: Seq<char>, gated: bool, events: Seq<ResearchEventView>)
    ensures
        plan_budget(run(topic, gated, events).0, tally(run(topic, gated, events).1, Kind::Plan)),
        run(topic, gated, events).0.gated == gated,
        !gated ==> tally(run(topic, gated, events).1, Kind::Plan) == 0 && !(run(
            topic,
            gated,
            events,
        ).0.phase is Approving) && !(run(topic, gated, events).0.phase is Judging),
    decreases events.len(),
{
    if events.len() == 0 {
        start_due(topic, gated, Kind::Plan);
    } else {
        plans_within_budget(topic, gated, events.drop_last());
        let before = run(topic, gated, events.drop_last());
        let step = next(before.0, events.last());
        step_moves(before.0, events.last());
        step_due(before.0, events.last(), Kind::Plan);
        tally_add(before.1, step.1, Kind::Plan);
    }
}

/// The user is asked in at most three survey rounds.
pub proof fn surveys_are_bounded(topic: Seq<char>, gated: bool, events: Seq<ResearchEventView>)
    ensures
        tally(run(topic, gated, events).1, Kind::Survey) <= MAX_SURVEY_ROUNDS,
{
    surveys_within_rounds(topic, gated, events);
}

proof fn surveys_within_rounds(topic: Seq<char>, gated: bool, events: Seq<ResearchEventView>)
    ensures
        job_inv(run(topic, gated, events).0),
        ({
            let s = run(topic, gated, events).0;
            let shown = tally(run(topic, gated, events).1, Kind::Survey);
            &&& shown <= MAX_SURVEY_ROUNDS
            &&& s.phase is Scoping ==> shown == s.round - 1
            &&& s.phase is Answering ==> shown == s.round
        }),
    decreases events.len(),
{
    if events.len() == 0 {
        start_due(topic, gated, Kind::Survey);
    } else {
        surveys_within_rounds(topic, gated, events.drop_last());
        let before = run(topic, gated, events.drop_last());
        let step = next(before.0, events.last());
        next_keeps_inv(before.0, events.last());
        step_moves(before.0, events.last());
        step_due(before.0, events.last(), Kind::Survey);
        tally_add(before.1, step.1, Kind::Survey);
    }
}

/// The numbers of the user's instructions grow and never repeat: only taking
/// them up moves the count, by as many as were taken up.
pub proof fn steer_numbers_never_repeat(s: ResearchJobView, ev: ResearchEventView)
    requires
        ev matches ResearchEventView::Steers(steers) ==> s.steer_seq + steers.len() <= usize::MAX,
    ensures
        next(s, ev).0.steer_seq == (match (s.phase, ev) {
            (ResearchPhase::Draining { .. }, ResearchEventView::Steers(steers)) => s.steer_seq
                + steers.len(),
            _ => s.steer_seq as int,
        }),
{
}

/// Whether the event is what the phase waits for.
pub open spec fn awaited(phase: ResearchPhase, ev: ResearchEventView) -> bool {
    match phase {
        ResearchPhase::Scoping
        | ResearchPhase::Planning
        | ResearchPhase::Judging
        | ResearchPhase::Synthesizing { .. }
        | ResearchPhase::Criticizing { .. }
        | ResearchPhase::Resolving
        | ResearchPhase::Writing => ev is Reply,
        ResearchPhase::Answering | ResearchPhase::Approving => ev is UserReply,
        ResearchPhase::Gathering => ev is Gathered,
        ResearchPhase::Pinning => ev is Pinned,
        ResearchPhase::Searching { .. } | ResearchPhase::Steering { .. } => ev is Found,
        ResearchPhase::Draining { .. } => ev is Steers,
        ResearchPhase::Merging { .. } => ev is Deduped,
        ResearchPhase::Verifying => ev is Verified,
        ResearchPhase::Finished => false,
    }
}

/// How many answers a job can still wait for, at most.
pub open spec fn distance(s: ResearchJobView) -> int {
    match s.phase {
        ResearchPhase::Scoping => 32 + 2 * (MAX_SURVEY_ROUNDS - s.round),
        ResearchPhase::Answering => 31 + 2 * (MAX_SURVEY_ROUNDS - s.round),
        ResearchPhase::Gathering => 23,
        ResearchPhase::Planning => 22,
        ResearchPhase::Approving => if s.rework { 19 } else { 21 },
        ResearchPhase::Judging => if s.rework { 18 } else { 20 },
        ResearchPhase::Pinning => 17,
        ResearchPhase::Searching { second } => if second { 9 } else { 16 },
        ResearchPhase::Draining { second } => if second { 8 } else { 15 },
        ResearchPhase::Steering { second } => if second { 7 } else { 14 },
        ResearchPhase::Merging { second } => if second { 6 } else { 13 },
        ResearchPhase::Synthesizing { second } => if second { 5 } else { 12 },
        ResearchPhase::Criticizing { second } => if second { 4 } else { 11 },
        ResearchPhase::Resolving => 3,
        ResearchPhase::Verifying => 2,
        ResearchPhase::Writing => 1,
        ResearchPhase::Finished => 0,
    }
}

proof fn survey_nears_its_end(s: ResearchJobView, ev: ResearchEventView)
    requires
        job_inv(s),
        s.phase is Scoping || s.phase is Answering,
        awaited(s.phase, ev),
    ensures
        distance(next(s, ev).0) < distance(s),
{
}

proof fn plan_nears_its_end(s: ResearchJobView, ev: ResearchEventView)
    requires
        job_inv(s),
        s.phase is Gathering || s.phase is Planning || s.phase is Approving || s.phase is Judging,
        awaited(s.phase, ev),
    ensures
        distance(next(s, ev).0) < distance(s),
{
}

proof fn search_nears_its_end(s: ResearchJobView, ev: ResearchEventView)
    requires
        job_inv(s),
        s.phase is Pinning || s.phase is Searching || s.phase is Draining || s.phase is Steering
            || s.phase is Merging,
        awaited(s.phase, ev),
    ensures
        distance(next(s, ev).0) < distance(s),
{
}

proof fn report_nears_its_end(s: ResearchJobView, ev: ResearchEventView)
    requires
        job_inv(s),
        s.phase is Synthesizing || s.phase is Criticizing || s.phase is Resolving
            || s.phase is Verifying || s.phase is Writing,
        awaited(s.phase, ev),
    ensures
        distance(next(s, ev).0) < distance(s),
{
}

proof fn only_awaited_events_count(s: ResearchJobView, ev: ResearchEventView)
    requires
        !awaited(s.phase, ev),
    ensures
        next(s, ev) == (s, Seq::<ResearchActionView>::empty()),
{
}

/// A job ends: each answer that it waits for brings it closer to its end, and
/// it never waits for more than a fixed number of them.
pub proof fn job_ends(s: ResearchJobView, ev: ResearchEventView)
    requires
        job_inv(s),
    ensures
        0 <= distance(s) <= 36,
        distance(s) == 0 <==> s.phase is Finished,
        awaited(s.phase, ev) ==> distance(next(s, ev).0) < distance(s),
        !awaited(s.phase, ev) ==> next(s, ev) == (s, Seq::<ResearchActionView>::empty()),
{
    if !awaited(s.phase, ev) {
        only_awaited_events_count(s, ev);
    } else {
        match s.phase {
            ResearchPhase::Scoping | ResearchPhase::Answering => survey_nears_its_end(s, ev),
            ResearchPhase::Gathering
            | ResearchPhase::Planning
            | ResearchPhase::Approving
            | ResearchPhase::Judging => plan_nears_its_end(s, ev),
            ResearchPhase::Pinning
            | ResearchPhase::Searching { .. }
            | ResearchPhase::Draining { .. }
            | ResearchPhase::Steering { .. }
            | ResearchPhase::Merging { .. } => search_nears_its_end(s, ev),
            _ => report_nears_its_end(s, ev),
        }
    }
}

/// A job without gates asks nobody: it neither surveys the user nor shows a
/// plan for approval.
pub proof fn ungated_job_asks_nobody(topic: Seq<char>, events: Seq<ResearchEventView>)
    ensures
        tally(run(topic, false, events).1, Kind::Survey) == 0,
        tally(run(topic, false, events).1, Kind::Plan) == 0,
        !run(topic, false, events).0.gated,
        job_inv(run(topic, false, events).0),
    decreases events.len(),
{
    if events.len() == 0 {
        let a = started(topic, false).1;
        assert(forall|i: int| 0 <= i < a.len() ==> kind(#[trigger] a[i]) is Other);
        started_has_none(a, Kind::Survey);
        started_has_none(a, Kind::Plan);
    } else {
        ungated_job_asks_nobody(topic, events.drop_last());
        let before = run(topic, false, events.drop_last());
        let step = next(before.0, events.last());
        next_keeps_inv(before.0, events.last());
        step_moves(before.0, events.last());
        step_due(before.0, events.last(), Kind::Survey);
        step_due(before.0, events.last(), Kind::Plan);
        tally_add(before.1, step.1, Kind::Survey);
        tally_add(before.1, step.1, Kind::Plan);
    }
}

proof fn started_has_none(actions: Seq<ResearchActionView>, k: Kind)
    requires
        !(k is Other),
        forall|i: int| 0 <= i < actions.len() ==> kind(#[trigger] actions[i]) is Other,
    ensures
        tally(actions, k) == 0,
    decreases actions.len(),
{
    if actions.len() > 0 {
        started_has_none(actions.drop_last(), k);
    }
}

} // verus!
