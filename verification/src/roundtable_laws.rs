//! What holds of a whole swarm turn: how often each row of the roster replies,
//! and that one reply sums up and nothing follows it.

use crate::roundtable::{
    all_answered, moderated, progress, round_over, silent_names, speak_next, spoke, suggestions_in,
    swarm_error, swarm_inv, swarm_next, swarm_started, SwarmActionView, SwarmEventView, SwarmPhase,
    SwarmTransition, SwarmTurnView, SwarmUpdateView,
};
use crate::store::PersonaView;
use crate::swarm::{suggested, verdict, ModeratorVerdictView, MAX_ROUNDS};
use crate::text::{decimal, join};
use vstd::prelude::*;

verus! {

/// Where a turn stands after the events, and everything that was to be done.
pub open spec fn swarm_run(s: SwarmTurnView, events: Seq<SwarmEventView>) -> SwarmTransition
    decreases events.len(),
{
    if events.len() == 0 {
        swarm_started(s)
    } else {
        let before = swarm_run(s, events.drop_last());
        let next = swarm_next(before.0, events.last());
        (next.0, before.1 + next.1)
    }
}

/// Whether an action tells the reply that sums up.
pub open spec fn is_summary(a: SwarmActionView) -> bool {
    a matches SwarmActionView::Update(SwarmUpdateView::Synthesis(_))
}

/// Whether an action tells a persona's reply.
pub open spec fn is_reply(a: SwarmActionView) -> bool {
    a matches SwarmActionView::Update(SwarmUpdateView::Reply { .. })
}

/// Whether an event makes the row of the roster that speaks reply.
pub open spec fn replies(s: SwarmTurnView, ev: SwarmEventView) -> bool {
    let told = swarm_next(s, ev).1;
    told.len() > 0 && is_reply(told[0])
}

/// How many replies the row of the roster gives in the course of the events.
pub open spec fn reply_count(s: SwarmTurnView, events: Seq<SwarmEventView>, row: int) -> nat
    decreases events.len(),
{
    if events.len() == 0 {
        0
    } else {
        let before = swarm_run(s, events.drop_last()).0;
        reply_count(s, events.drop_last(), row) + (if before.idx == row && replies(
            before,
            events.last(),
        ) {
            1nat
        } else {
            0nat
        })
    }
}

/// Whether no action tells a reply or a summary.
pub open spec fn tells_no_reply(actions: Seq<SwarmActionView>) -> bool {
    forall|i: int| 0 <= i < actions.len() ==> !is_reply(#[trigger] actions[i]) && !is_summary(
        actions[i],
    )
}

proof fn speak_tells_no_reply(s: SwarmTurnView, before: Seq<SwarmActionView>)
    ensures
        ({
            let told = speak_next(s, before).1;
            &&& told.len() > before.len()
            &&& forall|i: int| 0 <= i < before.len() ==> #[trigger] told[i] == before[i]
            &&& forall|i: int|
                before.len() <= i < told.len() ==> !is_reply(#[trigger] told[i]) && !is_summary(
                    told[i],
                )
        }),
{
}

/// A reply is told only when the row of the roster that speaks gave it, and
/// first of all; and a summary only when one was asked for, and alone.
pub proof fn replies_come_from_the_speaker(s: SwarmTurnView, ev: SwarmEventView)
    requires
        swarm_inv(s),
    ensures
        ({
            let (t, told) = swarm_next(s, ev);
            &&& replies(s, ev) ==> s.phase is Speaking
            &&& forall|i: int| 0 < i < told.len() ==> !is_reply(#[trigger] told[i])
            &&& forall|i: int|
                0 <= i < told.len() && is_summary(#[trigger] told[i]) ==> s.phase is Synthesizing
                    && t.phase is Finished && told.len() == 1
        }),
{
    match (s.phase, ev) {
        (SwarmPhase::Suggesting, SwarmEventView::Suggested { reply, items }) => {
            let r = suggestions_in(reply, items, s.default_model);
            if let Ok(personas) = r {
                let t = SwarmTurnView { personas, ..s };
                let told = seq![SwarmActionView::Update(SwarmUpdateView::RosterSuggested(personas))];
                speak_tells_no_reply(SwarmTurnView { round: 1, idx: 0, ..t }, told);
            }
        },
        (SwarmPhase::Speaking, SwarmEventView::Spoke(r)) => {
            spoken_tells(s, r);
        },
        (SwarmPhase::Moderating, SwarmEventView::Moderated(r)) => {
            moderated_tells(s, r);
        },
        _ => {},
    }
}

proof fn spoken_tells(s: SwarmTurnView, r: Result<Seq<char>, Seq<char>>)
    ensures
        ({
            let told = spoke(s, r).1;
            &&& told.len() > 1
            &&& !is_summary(told[0])
            &&& forall|i: int|
                0 < i < told.len() ==> !is_reply(#[trigger] told[i]) && !is_summary(told[i])
        }),
{
    let p = s.personas[s.idx as int];
    let (t, told) = match r {
        Ok(content) => (
            SwarmTurnView {
                discussion: s.discussion.push((p.name, content)),
                answered: s.answered.insert(s.idx),
                ..s
            },
            seq![
                SwarmActionView::Update(
                    SwarmUpdateView::Reply { persona: p.name, model: p.model, content },
                ),
            ],
        ),
        Err(e) => (s, seq![swarm_error(p.name + " failed: "@ + e)]),
    };
    if s.idx + 1 < s.personas.len() {
        speak_tells_no_reply(SwarmTurnView { idx: (s.idx + 1) as usize, ..t }, told);
    } else if t.round < MAX_ROUNDS && !all_answered(t) {
        let more = round_over(t, told).1;
        let waiting = progress(
            "round "@ + decimal(t.round as nat)
                + " complete — waiting for replies from: "@ + join(
                silent_names(t.personas, t.answered, t.personas.len()),
                ", "@,
            ),
        );
        speak_tells_no_reply(
            SwarmTurnView { round: (t.round + 1) as usize, idx: 0, ..t },
            told.push(waiting),
        );
        assert(more[0] == told.push(waiting)[0]);
        assert(more[1] == told.push(waiting)[1]);
    }
}

proof fn moderated_tells(s: SwarmTurnView, r: Result<Seq<char>, Seq<char>>)
    ensures
        tells_no_reply(moderated(s, r).1),
{
    let round = (s.round + 1) as usize;
    speak_tells_no_reply(SwarmTurnView { round, idx: 0, ..s }, Seq::empty());
    if let Ok(raw) = r {
        if let ModeratorVerdictView::AddPersona { name, blurb } = verdict(raw) {
            let p = PersonaView { name, model: s.default_model, blurb };
            let joined = seq![SwarmActionView::Update(SwarmUpdateView::PersonaJoined(p))];
            speak_tells_no_reply(
                SwarmTurnView { personas: s.personas.push(p), round, idx: 0, ..s },
                joined,
            );
        }
    }
}

proof fn start_tells(s: SwarmTurnView)
    ensures
        tells_no_reply(swarm_started(s).1),
{
    speak_tells_no_reply(SwarmTurnView { round: 1, idx: 0, ..s }, Seq::empty());
}

/// Whether a turn can begin with this state: nobody has spoken.
pub open spec fn fresh(s: SwarmTurnView) -> bool {
    s.round == 1 && s.idx == 0 && s.personas.len() <= usize::MAX
}

/// Whether the lists that the events bring are no longer than a list can be.
pub open spec fn fits(events: Seq<SwarmEventView>) -> bool {
    forall|i: int|
        0 <= i < events.len() ==> (#[trigger] events[i] matches SwarmEventView::Suggested {
            items: Ok(v),
            ..
        } ==> v.len() <= usize::MAX)
}

proof fn suggested_are_fewer(items: Seq<(Seq<char>, Seq<char>)>, model: Seq<char>)
    ensures
        suggested(items, model).len() <= items.len(),
    decreases items.len(),
{
    if items.len() > 0 {
        suggested_are_fewer(items.drop_last(), model);
    }
}

proof fn run_is_sound(s: SwarmTurnView, events: Seq<SwarmEventView>)
    requires
        fresh(s),
        fits(events),
    ensures
        swarm_inv(swarm_run(s, events).0),
    decreases events.len(),
{
    if events.len() > 0 {
        shorter_fits(events);
        run_is_sound(s, events.drop_last());
        let before = swarm_run(s, events.drop_last()).0;
        let ev = events.last();
        assert(ev == events[events.len() - 1]);
        if let SwarmEventView::Suggested { reply, items } = ev {
            if let Ok(v) = items {
                suggested_are_fewer(v, before.default_model);
            }
        }
    }
}

proof fn shorter_fits(events: Seq<SwarmEventView>)
    requires
        events.len() > 0,
        fits(events),
    ensures
        fits(events.drop_last()),
{
    let shorter = events.drop_last();
    assert forall|i: int| 0 <= i < shorter.len() implies (
    #[trigger] shorter[i] matches SwarmEventView::Suggested { items: Ok(v), .. } ==> v.len()
        <= usize::MAX) by {
        assert(shorter[i] == events[i]);
    }
}

/// In the course of a turn at most one reply sums up, and nothing is done after
/// it.
pub proof fn one_summary_ends_the_turn(s: SwarmTurnView, events: Seq<SwarmEventView>)
    requires
        fresh(s),
        fits(events),
    ensures
        ({
            let (t, told) = swarm_run(s, events);
            forall|i: int|
                0 <= i < told.len() && is_summary(#[trigger] told[i]) ==> i == told.len() - 1
                    && t.phase is Finished
        }),
    decreases events.len(),
{
    if events.len() == 0 {
        start_tells(s);
    } else {
        shorter_fits(events);
        run_is_sound(s, events.drop_last());
        one_summary_ends_the_turn(s, events.drop_last());
        let before = swarm_run(s, events.drop_last());
        replies_come_from_the_speaker(before.0, events.last());
        let next = swarm_next(before.0, events.last());
        let told = swarm_run(s, events).1;
        assert forall|i: int| 0 <= i < told.len() && is_summary(#[trigger] told[i]) implies i
            == told.len() - 1 && next.0.phase is Finished by {
            if i < before.1.len() {
                assert(before.1[i] == told[i]);
            } else {
                assert(next.1[i - before.1.len()] == told[i]);
            }
        }
    }
}

/// Where the count of replies of a row stands: at most one for each round that
/// the row has had its chance in.
pub open spec fn chances(s: SwarmTurnView, row: int) -> int {
    match s.phase {
        SwarmPhase::Suggesting => 0,
        SwarmPhase::Speaking => if row < s.idx { s.round as int } else { s.round - 1 },
        SwarmPhase::Moderating => s.round as int,
        _ => MAX_ROUNDS as int,
    }
}

proof fn replies_within_chances(s: SwarmTurnView, events: Seq<SwarmEventView>, row: int)
    requires
        fresh(s),
        fits(events),
    ensures
        reply_count(s, events, row) <= chances(swarm_run(s, events).0, row),
    decreases events.len(),
{
    if events.len() > 0 {
        shorter_fits(events);
        run_is_sound(s, events.drop_last());
        replies_within_chances(s, events.drop_last(), row);
        let before = swarm_run(s, events.drop_last()).0;
        replies_come_from_the_speaker(before, events.last());
    }
}

/// Every row of the roster replies at most four times in the course of a turn.
pub proof fn four_replies_per_row(s: SwarmTurnView, events: Seq<SwarmEventView>, row: int)
    requires
        fresh(s),
        fits(events),
    ensures
        reply_count(s, events, row) <= MAX_ROUNDS,
{
    replies_within_chances(s, events, row);
    run_is_sound(s, events);
}

} // verus!
