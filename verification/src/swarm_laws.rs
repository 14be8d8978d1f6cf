//! What a swarm turn carries from one voice to the next, and what ends it.

use crate::roundtable::{
    all_answered, persona_messages, persona_prompt, silent_names, swarm_next, swarm_started,
    turn_prompt, voice_step, SwarmActionView, SwarmEventView, SwarmPhase, SwarmTurnView,
    SwarmUpdateView, VoiceStepView,
};
use crate::provider::StreamEventView;
use crate::searcher::grown;
use crate::store::PersonaView;
use crate::swarm::{spoken, suggested, transcript, verdict, ModeratorVerdictView};
use crate::text::{
    ascii_upper, contains, decimal, find, find_char, find_char_found, find_found, lines, occurs_at,
    trim,
};
use crate::text_laws::{
    blank, joined_parts_stand, stands_between, stands_first, stands_last, trimming_cuts_whitespace,
    within, within_carries, within_is_contained,
};
use vstd::prelude::*;

verus! {

/// Whether the actions let nobody speak.
pub open spec fn nobody_speaks(actions: Seq<SwarmActionView>) -> bool {
    forall|i: int| 0 <= i < actions.len() ==> !(#[trigger] actions[i] is Speak)
}

/// Whether a prompt holds a text and everything that was said.
pub open spec fn knows_all(
    prompt: Seq<char>,
    message: Seq<char>,
    discussion: Seq<(Seq<char>, Seq<char>)>,
) -> bool {
    &&& within(message, prompt)
    &&& forall|i: int|
        0 <= i < discussion.len() ==> within(
            "**"@ + (#[trigger] discussion[i]).0 + "**: "@ + discussion[i].1,
            prompt,
        )
}

/// Whether the last action asks for the reply that sums up, from the message
/// and everything that was said.
pub open spec fn asks_for_summary(
    actions: Seq<SwarmActionView>,
    message: Seq<char>,
    discussion: Seq<(Seq<char>, Seq<char>)>,
) -> bool {
    actions.last() matches SwarmActionView::Synthesize { prompt } && knows_all(
        prompt,
        message,
        discussion,
    )
}

/// Whether the last action lets the persona speak in the round, told of its
/// part and of everything that was said.
pub open spec fn lets_speak(
    actions: Seq<SwarmActionView>,
    p: PersonaView,
    round: int,
    discussion: Seq<(Seq<char>, Seq<char>)>,
) -> bool {
    actions.last() matches SwarmActionView::Speak { messages, .. } && {
        &&& messages.len() == 2
        &&& messages[0].role == "system"@ && within(p.name, messages[0].content) && within(
            p.blurb,
            messages[0].content,
        )
        &&& messages[1].role == "user"@ && knows_all(messages[1].content, p.name, discussion)
            && within("Round "@ + decimal(round as nat) + ": "@, messages[1].content)
    }
}

/// A transcript shows everything that was said, under the speaker's name.
pub proof fn a_transcript_shows_all(discussion: Seq<(Seq<char>, Seq<char>)>, i: int)
    requires
        0 <= i < discussion.len(),
    ensures
        within("**"@ + discussion[i].0 + "**: "@ + discussion[i].1, transcript(discussion)),
        within(discussion[i].1, transcript(discussion)),
{
    joined_parts_stand(spoken(discussion), "\n\n"@, i);
    stands_last("**"@ + discussion[i].0 + "**: "@, discussion[i].1);
    within_carries(discussion[i].1, spoken(discussion)[i], transcript(discussion));
}

proof fn told_all(
    a: Seq<char>,
    message: Seq<char>,
    b: Seq<char>,
    discussion: Seq<(Seq<char>, Seq<char>)>,
    c: Seq<char>,
)
    ensures
        knows_all(a + message + b + transcript(discussion) + c, message, discussion),
{
    let t = transcript(discussion);
    let prompt = a + message + b + t + c;
    assert(prompt =~= a + message + (b + t + c));
    stands_between(a, message, b + t + c);
    stands_between(a + message + b, t, c);
    assert forall|i: int| 0 <= i < discussion.len() implies within(
        "**"@ + (#[trigger] discussion[i]).0 + "**: "@ + discussion[i].1,
        prompt,
    ) by {
        a_transcript_shows_all(discussion, i);
        within_carries("**"@ + discussion[i].0 + "**: "@ + discussion[i].1, t, prompt);
    }
}

proof fn summary_knows(message: Seq<char>, discussion: Seq<(Seq<char>, Seq<char>)>)
    ensures
        knows_all(crate::roundtable::synthesis_prompt(message, discussion), message, discussion),
{
    told_all(
        "A panel of personas had this conversation about a message:\n\n"@,
        message,
        "\n\nConversation:\n\n"@,
        discussion,
        "\n\nWrite one final reply to the original message that states the conclusion this conversation actually reached — the agreement, resolution, or trade-off they settled on — as a clear, useful answer. If they genuinely disagreed to the end, say so and give the best-supported call. Markdown allowed. Don't mention that this came from a panel — just answer well, informed by the conversation."@,
    );
}

proof fn moderator_knows(message: Seq<char>, discussion: Seq<(Seq<char>, Seq<char>)>)
    ensures
        knows_all(crate::roundtable::moderator_prompt(message, discussion), message, discussion),
{
    told_all(
        "A panel of personas is having a live conversation about this message:\n\n"@,
        message,
        "\n\nConversation so far:\n\n"@,
        discussion,
        "\n\nDecide one of three things and reply with ONLY one line, no other text:\n- If they've reached a conclusion (agreement, a clear resolution, or a settled trade-off), reply exactly: CONVERGED\n- If the conversation is missing an important point of view that would meaningfully change it, reply exactly: ADD: <short persona name> | <one-sentence personality and perspective>\n- Otherwise, reply exactly: CONTINUE"@,
    );
}

proof fn speaker_knows(s: SwarmTurnView, p: PersonaView)
    ensures
        ({
            let m = persona_messages(s, p);
            &&& m.len() == 2
            &&& m[0].role == "system"@ && within(p.name, m[0].content) && within(
                p.blurb,
                m[0].content,
            )
            &&& m[1].role == "user"@ && knows_all(m[1].content, p.name, s.discussion) && within(
                "Round "@ + decimal(s.round as nat) + ": "@,
                m[1].content,
            )
        }),
{
    let (a, b, c) = (
        "You are "@,
        " in a live group conversation with the other personas below. Your persona: "@,
        ". This discussion proceeds in rounds and every persona gets one response per round. Speak naturally and briefly (a few sentences), stay in character, and actually engage with what the prior speakers said — agree, push back, build on it, or ask a question. Use the available tools when they would improve your answer. Don't just restate your opening position every round."@,
    );
    let sys = persona_prompt(p);
    assert(sys =~= a + p.name + (b + p.blurb + c));
    stands_between(a, p.name, b + p.blurb + c);
    stands_between(a + p.name + b, p.blurb, c);
    let user = turn_prompt(p, s.round as nat, s.discussion);
    let n = decimal(s.round as nat);
    reveal_strlit(": you're opening the discussion, ");
    reveal_strlit(": it's your chance to respond, ");
    reveal_strlit(": ");
    reveal_strlit("you're opening the discussion, ");
    reveal_strlit("it's your chance to respond, ");
    let head = "Round "@ + n + ": "@;
    if s.discussion.len() == 0 {
        let (d, e) = (": you're opening the discussion, "@, ". Give your first take."@);
        stands_between("Round "@ + n + d, p.name, e);
        let d2 = "you're opening the discussion, "@;
        assert(d =~= ": "@ + d2);
        assert(user =~= head + (d2 + p.name + e));
        stands_first(head, d2 + p.name + e);
    } else {
        let t = transcript(s.discussion);
        let (d, e, f) = (
            "Conversation so far:\n\n"@,
            ": it's your chance to respond, "@,
            ". Engage with what was said."@,
        );
        reveal_strlit("\n\nRound ");
        reveal_strlit("Round ");
        reveal_strlit("\n\n");
        assert("\n\nRound "@ =~= "\n\n"@ + "Round "@);
        stands_between(d + t + "\n\nRound "@ + n + e, p.name, f);
        let e2 = "it's your chance to respond, "@;
        assert(e =~= ": "@ + e2);
        assert(user =~= (d + t + "\n\n"@) + head + (e2 + p.name + f));
        stands_between(d + t + "\n\n"@, head, e2 + p.name + f);
        assert(user =~= d + t + ("\n\nRound "@ + n + e + p.name + f));
        stands_between(d, t, "\n\nRound "@ + n + e + p.name + f);
        assert forall|i: int| 0 <= i < s.discussion.len() implies within(
            "**"@ + (#[trigger] s.discussion[i]).0 + "**: "@ + s.discussion[i].1,
            user,
        ) by {
            a_transcript_shows_all(s.discussion, i);
            within_carries("**"@ + s.discussion[i].0 + "**: "@ + s.discussion[i].1, t, user);
        }
    }
}

/// A reply of the moderator that names convergence, and asks for nobody, reads
/// as converged; one that does neither lets the conversation go on.
pub proof fn a_verdict_is_what_it_names(raw: Seq<char>)
    requires
        !within("ADD:"@, ascii_upper(raw)),
    ensures
        within("CONVERGED"@, ascii_upper(raw)) ==> verdict(raw) is Converged,
        !within("CONVERGED"@, ascii_upper(raw)) ==> verdict(raw) is Continue,
{
    let u = ascii_upper(raw);
    find_found(u, "ADD:"@);
    if contains(u, "ADD:"@) {
        contained_stands("ADD:"@, u);
    }
    if within("CONVERGED"@, u) {
        within_is_contained("CONVERGED"@, u);
    } else if contains(u, "CONVERGED"@) {
        contained_stands("CONVERGED"@, u);
    }
}

proof fn contained_stands(p: Seq<char>, s: Seq<char>)
    requires
        contains(s, p),
    ensures
        within(p, s),
{
    let i = choose|i: int| occurs_at(s, p, i);
    assert(s =~= s.take(i) + p + s.skip(i + p.len())) by {
        assert forall|k: int| 0 <= k < s.len() implies s[k] == (s.take(i) + p + s.skip(
            i + p.len(),
        ))[k] by {
            if i <= k < i + p.len() {
                assert(s.subrange(i, i + p.len())[k - i] == s[k]);
            }
        }
    }
    stands_between(s.take(i), p, s.skip(i + p.len()));
}

/// A reply that asks for a new voice names it before the bar, and tells of it
/// behind the bar.
pub proof fn a_verdict_can_add_a_voice(raw: Seq<char>, name: Seq<char>, blurb: Seq<char>)
    requires
        "ADD:"@.is_prefix_of(ascii_upper(raw)),
        raw.skip(4) == name + seq!['|'] + blurb,
        !name.contains('|'),
        !blurb.contains('\n'),
        !blank(name),
        !blank(blurb),
        trim(name)[0] != '*',
        trim(name).last() != '*',
    ensures
        verdict(raw) == (ModeratorVerdictView::AddPersona { name: trim(name), blurb: trim(blurb) }),
{
    reveal_strlit("ADD:");
    let u = ascii_upper(raw);
    find_found(u, "ADD:"@);
    assert(u.subrange(0, 4) =~= u.take(4));
    assert(occurs_at(u, "ADD:"@, 0));
    assert(find(u, "ADD:"@) == Some(0int));
    let rest = raw.skip(4);
    find_char_found(rest, '|');
    assert(rest[name.len() as int] == '|');
    assert forall|j: int| 0 <= j < name.len() implies rest[j] != '|' by {
        assert(name.contains(name[j]));
        assert(rest[j] == name[j]);
    }
    assert(find_char(rest, '|') == Some(name.len() as int));
    assert(rest.take(name.len() as int) =~= name);
    assert(rest.skip(name.len() as int + 1) =~= blurb);
    trimming_cuts_whitespace(name);
    trimming_cuts_whitespace(blurb);
    find_char_found(blurb, '\n');
    assert(find_char(blurb, '\n') is None) by {
        if let Some(k) = find_char(blurb, '\n') {
            assert(blurb.contains(blurb[k]));
        }
    }
    assert(blurb.len() > 0);
    assert(lines(blurb) == seq![blurb]);
}

/// Convergence ends the rounds: the reply that sums up is asked for, from the
/// message and everything that was said, and nobody speaks again.
pub proof fn convergence_ends_the_rounds(s: SwarmTurnView, raw: Seq<char>)
    requires
        s.phase is Moderating,
        within("CONVERGED"@, ascii_upper(raw)),
        !within("ADD:"@, ascii_upper(raw)),
    ensures
        ({
            let step = swarm_next(s, SwarmEventView::Moderated(Ok(raw)));
            &&& step.0 == (SwarmTurnView { phase: SwarmPhase::Synthesizing, ..s })
            &&& asks_for_summary(step.1, s.user_message, s.discussion)
            &&& nobody_speaks(step.1)
        }),
{
    a_verdict_is_what_it_names(raw);
    summary_knows(s.user_message, s.discussion);
}

/// A moderator that cannot be asked ends the rounds too.
pub proof fn a_failed_moderator_ends_the_rounds(s: SwarmTurnView, e: Seq<char>)
    requires
        s.phase is Moderating,
    ensures
        ({
            let step = swarm_next(s, SwarmEventView::Moderated(Err(e)));
            &&& step.0 == (SwarmTurnView { phase: SwarmPhase::Synthesizing, ..s })
            &&& asks_for_summary(step.1, s.user_message, s.discussion)
            &&& nobody_speaks(step.1)
        }),
{
    summary_knows(s.user_message, s.discussion);
}

/// A verdict that sees no conclusion starts the next round with the first
/// persona, who knows everything that was said.
pub proof fn an_open_conversation_goes_on(s: SwarmTurnView, raw: Seq<char>)
    requires
        s.phase is Moderating,
        s.round < usize::MAX,
        s.personas.len() > 0,
        !within("CONVERGED"@, ascii_upper(raw)),
        !within("ADD:"@, ascii_upper(raw)),
    ensures
        ({
            let step = swarm_next(s, SwarmEventView::Moderated(Ok(raw)));
            &&& step.0 == (SwarmTurnView {
                phase: SwarmPhase::Speaking,
                round: (s.round + 1) as usize,
                idx: 0,
                ..s
            })
            &&& lets_speak(step.1, s.personas[0], s.round + 1, s.discussion)
        }),
{
    a_verdict_is_what_it_names(raw);
    let t = SwarmTurnView { round: (s.round + 1) as usize, idx: 0, ..s };
    speaker_knows(t, s.personas[0]);
}

/// A new voice joins behind the others, speaks with the session's model, and
/// is told of; but not under a name that is there, nor beyond six.
pub proof fn a_new_voice_joins(s: SwarmTurnView, raw: Seq<char>, name: Seq<char>, blurb: Seq<char>)
    requires
        s.phase is Moderating,
        s.round < usize::MAX,
        verdict(raw) == (ModeratorVerdictView::AddPersona { name, blurb }),
    ensures
        ({
            let step = swarm_next(s, SwarmEventView::Moderated(Ok(raw)));
            let p = PersonaView { name, model: s.default_model, blurb };
            &&& step.0.phase is Speaking && step.0.round == s.round + 1 && step.0.idx == 0
            &&& step.0.discussion == s.discussion && step.0.answered == s.answered
            &&& if s.personas.len() < 6 && (forall|i: int|
                0 <= i < s.personas.len() ==> (#[trigger] s.personas[i]).name != name) {
                &&& step.0.personas == s.personas.push(p)
                &&& step.1[0] == SwarmActionView::Update(SwarmUpdateView::PersonaJoined(p))
            } else {
                step.0.personas == s.personas
            }
        }),
{
}

/// A persona's reply is told under its name, joins what was said, and counts
/// as its answer.
pub proof fn a_reply_joins_the_conversation(s: SwarmTurnView, content: Seq<char>)
    requires
        s.phase is Speaking,
        s.idx < s.personas.len(),
    ensures
        ({
            let p = s.personas[s.idx as int];
            let step = swarm_next(s, SwarmEventView::Spoke(Ok(content)));
            &&& step.0.discussion == s.discussion.push((p.name, content))
            &&& step.0.answered == s.answered.insert(s.idx)
            &&& step.0.personas == s.personas
            &&& step.1[0] == SwarmActionView::Update(
                SwarmUpdateView::Reply { persona: p.name, model: p.model, content },
            )
        }),
{
}

/// A persona that fails says nothing and has not answered; the reason is told.
pub proof fn a_failure_adds_nothing(s: SwarmTurnView, e: Seq<char>)
    requires
        s.phase is Speaking,
        s.idx < s.personas.len(),
    ensures
        ({
            let step = swarm_next(s, SwarmEventView::Spoke(Err(e)));
            &&& step.0.discussion == s.discussion
            &&& step.0.answered == s.answered
            &&& step.1[0] matches SwarmActionView::Update(SwarmUpdateView::Error(t)) && within(
                e,
                t,
            ) && within(s.personas[s.idx as int].name, t)
        }),
{
    let p = s.personas[s.idx as int];
    stands_last(p.name + " failed: "@, e);
    assert(p.name + " failed: "@ + e =~= p.name + (" failed: "@ + e));
    stands_first(p.name, " failed: "@ + e);
}

/// Behind a persona the next one speaks in the same round, and knows what was
/// said before, the last reply too.
pub proof fn the_next_persona_hears_it(s: SwarmTurnView, content: Seq<char>)
    requires
        s.phase is Speaking,
        s.idx + 1 < s.personas.len() <= usize::MAX,
    ensures
        ({
            let step = swarm_next(s, SwarmEventView::Spoke(Ok(content)));
            let said = s.discussion.push((s.personas[s.idx as int].name, content));
            &&& step.0.phase is Speaking && step.0.idx == s.idx + 1 && step.0.round == s.round
            &&& lets_speak(step.1, s.personas[s.idx + 1], s.round as int, said)
        }),
{
    let p = s.personas[s.idx as int];
    let t = SwarmTurnView {
        discussion: s.discussion.push((p.name, content)),
        answered: s.answered.insert(s.idx),
        idx: (s.idx + 1) as usize,
        ..s
    };
    speaker_knows(t, s.personas[s.idx + 1]);
}

/// Behind the last persona of a round: the fourth round leads to the reply
/// that sums up; before that the moderator is asked, with everything that was
/// said, once everyone has answered; and else the next round starts.
pub proof fn a_round_ends_as_it_should(s: SwarmTurnView, content: Seq<char>)
    requires
        s.phase is Speaking,
        s.idx + 1 == s.personas.len() <= usize::MAX,
        s.round < usize::MAX,
    ensures
        ({
            let step = swarm_next(s, SwarmEventView::Spoke(Ok(content)));
            let said = s.discussion.push((s.personas[s.idx as int].name, content));
            let everyone = forall|i: usize|
                i < s.personas.len() ==> #[trigger] s.answered.insert(s.idx).contains(i);
            if s.round >= 4 {
                &&& step.0.phase is Synthesizing
                &&& asks_for_summary(step.1, s.user_message, said)
                &&& nobody_speaks(step.1)
            } else if everyone {
                &&& step.0.phase is Moderating
                &&& nobody_speaks(step.1)
                &&& step.1.last() matches SwarmActionView::Moderate { prompt } && knows_all(
                    prompt,
                    s.user_message,
                    said,
                )
            } else {
                &&& step.0.phase is Speaking && step.0.round == s.round + 1 && step.0.idx == 0
                &&& lets_speak(step.1, s.personas[0], s.round + 1, said)
            }
        }),
{
    let p = s.personas[s.idx as int];
    let t = SwarmTurnView {
        discussion: s.discussion.push((p.name, content)),
        answered: s.answered.insert(s.idx),
        ..s
    };
    summary_knows(s.user_message, t.discussion);
    moderator_knows(s.user_message, t.discussion);
    speaker_knows(SwarmTurnView { round: (s.round + 1) as usize, idx: 0, ..t }, s.personas[0]);
    assert(all_answered(t) <==> forall|i: usize|
        i < s.personas.len() ==> #[trigger] s.answered.insert(s.idx).contains(i));
}

/// A persona speaks with its own model where that has a backend, and else with
/// the session's.
pub proof fn a_persona_speaks_with_its_model(s: SwarmTurnView)
    requires
        s.personas.len() > 0,
    ensures
        ({
            let p = s.personas[0];
            let step = swarm_started(s);
            &&& step.1.last() matches SwarmActionView::Speak { backend, model, .. } && match s.backends.route(
                p.model,
            ) {
                Some(route) => (backend, model) == route,
                None => (backend, model) == (s.default_backend, s.raw_default_model),
            }
        }),
{
}

/// A turn starts with the first persona of its roster in the first round; an
/// empty roster is suggested first, for the message.
pub proof fn a_turn_starts_from_its_roster(s: SwarmTurnView)
    ensures
        ({
            let step = swarm_started(s);
            if s.personas.len() == 0 {
                &&& step.0.phase is Suggesting
                &&& nobody_speaks(step.1)
                &&& step.1.last() matches SwarmActionView::Suggest { prompt } && within(
                    s.user_message,
                    prompt,
                )
            } else {
                &&& step.0.phase is Speaking && step.0.round == 1 && step.0.idx == 0
                &&& step.0.personas == s.personas
                &&& lets_speak(step.1, s.personas[0], 1, s.discussion)
            }
        }),
{
    if s.personas.len() == 0 {
        stands_last(
            "Suggest exactly 3 distinct personas to discuss the following message from different points of view. Reply with ONLY a JSON array, no prose, no markdown fences, shaped like: [{\"name\": \"short persona name\", \"blurb\": \"one-sentence personality and perspective\"}, ...]\n\nMessage: "@,
            s.user_message,
        );
    } else {
        speaker_knows(SwarmTurnView { round: 1, idx: 0, ..s }, s.personas[0]);
    }
}

/// The reply that sums up is told as it is and ends the turn; where it fails,
/// the reason is told.
pub proof fn the_summary_ends_the_turn(s: SwarmTurnView, content: Seq<char>)
    requires
        s.phase is Synthesizing,
    ensures
        swarm_next(s, SwarmEventView::Synthesized(Ok(content))) == (
            SwarmTurnView { phase: SwarmPhase::Finished, ..s },
            seq![SwarmActionView::Update(SwarmUpdateView::Synthesis(content))],
        ),
        ({
            let step = swarm_next(s, SwarmEventView::Synthesized(Err(content)));
            &&& step.0.phase is Finished
            &&& step.1.last() matches SwarmActionView::Update(SwarmUpdateView::Error(t)) && within(
                content,
                t,
            )
        }),
{
    stands_last("synthesis failed: "@, content);
}

/// Every suggestion with a name becomes a persona, in the order of the
/// suggestions, with the model that it is given; one without a name does not.
pub proof fn named_suggestions_become_personas(
    a: Seq<(Seq<char>, Seq<char>)>,
    item: (Seq<char>, Seq<char>),
    model: Seq<char>,
)
    ensures
        suggested(Seq::empty(), model) == Seq::<PersonaView>::empty(),
        blank(item.0) ==> suggested(a.push(item), model) == suggested(a, model),
        !blank(item.0) ==> suggested(a.push(item), model) == suggested(a, model).push(
            PersonaView { name: item.0, model, blurb: item.1 },
        ),
{
    trimming_cuts_whitespace(item.0);
    assert(a.push(item).drop_last() =~= a);
}

/// The names that are waited for are those of the personas that have not
/// answered.
pub proof fn only_the_silent_are_waited_for(
    personas: Seq<PersonaView>,
    answered: Set<usize>,
    n: nat,
    i: int,
)
    requires
        n <= personas.len() <= usize::MAX,
        0 <= i < n,
        !answered.contains(i as usize),
    ensures
        silent_names(personas, answered, n).contains(personas[i].name),
    decreases n,
{
    let before = silent_names(personas, answered, (n - 1) as nat);
    let all = silent_names(personas, answered, n);
    if i == n - 1 {
        assert(all[before.len() as int] == personas[i].name);
    } else {
        only_the_silent_are_waited_for(personas, answered, (n - 1) as nat, i);
        let k = choose|k: int| 0 <= k < before.len() && before[k] == personas[i].name;
        assert(all[k] == personas[i].name);
    }
}

/// A voice gathers the tokens of its stream and ends with all of them; an
/// error ends it with the reason, and an empty response is none.
pub proof fn a_voice_gathers_its_tokens(
    round: nat,
    name: Seq<char>,
    buf: Seq<char>,
    t: Seq<char>,
)
    ensures
        grown(buf, Some(StreamEventView::Token(t))) == buf + t,
        voice_step(round, name, buf, Some(StreamEventView::Token(t))) is Continue,
        voice_step(round, name, buf, Some(StreamEventView::Error(t))) == VoiceStepView::End(
            Err(t),
        ),
        !blank(buf) ==> voice_step(round, name, buf, Some(StreamEventView::Done))
            == VoiceStepView::End(Ok(buf)) && voice_step(round, name, buf, None)
            == VoiceStepView::End(Ok(buf)),
        blank(buf) ==> (voice_step(round, name, buf, Some(StreamEventView::Done)) matches
            VoiceStepView::End(Err(_))),
{
    trimming_cuts_whitespace(buf);
}

} // verus!
