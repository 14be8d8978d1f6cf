//! A swarm turn as a state machine: it takes one event at a time and answers
//! with what is to be done next.

use crate::backends::{Backend, Backends};
use crate::pipeline::{concat, outcome};
use crate::provider::{text_message, ChatMessage, ChatMessageView, StreamEvent, StreamEventView};
use crate::searcher::{grown, opt_event};
use crate::store::{copied_roster, Persona, PersonaView};
use crate::swarm::{
    all_personas_answered, parse_moderator_verdict, parse_suggested_personas, read_pairs,
    render_discussion, suggestions, transcript, verdict, ModeratorVerdict, ModeratorVerdictView,
    MAX_PERSONAS, MAX_ROUNDS,
};
use crate::text::{
    decimal, decimal_of, join, joined, pairs, same, texts, texts_push, trim, trimmed, views,
    views_push,
};
use crate::tools::{call_summary, tool_call_summary};
use std::collections::HashSet;
use vstd::prelude::*;
use vstd::string::*;

verus! {

broadcast use vstd::std_specs::hash::group_hash_axioms;

/// What a swarm turn tells of itself.
#[allow(inconsistent_fields)]
pub enum SwarmUpdate {
    /// The roster was empty and this one was suggested for it.
    RosterSuggested(Vec<Persona>),
    Progress(String),
    Reply { persona: String, model: String, content: String },
    /// The moderator called for a new voice.
    PersonaJoined(Persona),
    /// The reply that sums the conversation up.
    Synthesis(String),
    Error(String),
}

/// What a `SwarmUpdate` stands for.
#[allow(inconsistent_fields)]
pub enum SwarmUpdateView {
    RosterSuggested(Seq<PersonaView>),
    Progress(Seq<char>),
    Reply { persona: Seq<char>, model: Seq<char>, content: Seq<char> },
    PersonaJoined(PersonaView),
    Synthesis(Seq<char>),
    Error(Seq<char>),
}

impl View for SwarmUpdate {
    type V = SwarmUpdateView;

    open spec fn view(&self) -> SwarmUpdateView {
        match *self {
            SwarmUpdate::RosterSuggested(v) => SwarmUpdateView::RosterSuggested(views(v@)),
            SwarmUpdate::Progress(s) => SwarmUpdateView::Progress(s@),
            SwarmUpdate::Reply { persona, model, content } => SwarmUpdateView::Reply {
                persona: persona@,
                model: model@,
                content: content@,
            },
            SwarmUpdate::PersonaJoined(p) => SwarmUpdateView::PersonaJoined(p@),
            SwarmUpdate::Synthesis(s) => SwarmUpdateView::Synthesis(s@),
            SwarmUpdate::Error(s) => SwarmUpdateView::Error(s@),
        }
    }
}

/// What is to be done next.
pub enum SwarmAction {
    /// Pass the update on.
    Update(SwarmUpdate),
    /// Ask for personas: answered by `Suggested`.
    Suggest { prompt: String },
    /// Let a persona speak: stream a request of the conversation's history and
    /// these messages to the model. Answered by `Spoke`.
    Speak { backend: Backend, model: String, messages: Vec<ChatMessage> },
    /// Ask the moderator: answered by `Moderated`.
    Moderate { prompt: String },
    /// Ask for the reply that sums up: answered by `Synthesized`.
    Synthesize { prompt: String },
}

/// What a `SwarmAction` stands for.
pub enum SwarmActionView {
    Update(SwarmUpdateView),
    Suggest { prompt: Seq<char> },
    Speak { backend: Backend, model: Seq<char>, messages: Seq<ChatMessageView> },
    Moderate { prompt: Seq<char> },
    Synthesize { prompt: Seq<char> },
}

impl View for SwarmAction {
    type V = SwarmActionView;

    open spec fn view(&self) -> SwarmActionView {
        match *self {
            SwarmAction::Update(u) => SwarmActionView::Update(u@),
            SwarmAction::Suggest { prompt } => SwarmActionView::Suggest { prompt: prompt@ },
            SwarmAction::Speak { backend, model, messages } => SwarmActionView::Speak {
                backend,
                model: model@,
                messages: views(messages@),
            },
            SwarmAction::Moderate { prompt } => SwarmActionView::Moderate { prompt: prompt@ },
            SwarmAction::Synthesize { prompt } => SwarmActionView::Synthesize { prompt: prompt@ },
        }
    }
}

/// What came back from the outside.
pub enum SwarmEvent {
    /// A reply with suggestions, and what its array part reads as a list of
    /// names and blurbs.
    Suggested { reply: Result<String, String>, items: Result<Vec<(String, String)>, String> },
    Spoke(Result<String, String>),
    Moderated(Result<String, String>),
    Synthesized(Result<String, String>),
}

/// What a `SwarmEvent` stands for.
pub enum SwarmEventView {
    Suggested {
        reply: Result<Seq<char>, Seq<char>>,
        items: Result<Seq<(Seq<char>, Seq<char>)>, Seq<char>>,
    },
    Spoke(Result<Seq<char>, Seq<char>>),
    Moderated(Result<Seq<char>, Seq<char>>),
    Synthesized(Result<Seq<char>, Seq<char>>),
}

impl View for SwarmEvent {
    type V = SwarmEventView;

    open spec fn view(&self) -> SwarmEventView {
        match *self {
            SwarmEvent::Suggested { reply, items } => SwarmEventView::Suggested {
                reply: outcome(reply),
                items: read_pairs(items),
            },
            SwarmEvent::Spoke(r) => SwarmEventView::Spoke(outcome(r)),
            SwarmEvent::Moderated(r) => SwarmEventView::Moderated(outcome(r)),
            SwarmEvent::Synthesized(r) => SwarmEventView::Synthesized(outcome(r)),
        }
    }
}

/// What the turn waits for.
#[derive(Clone, Copy, PartialEq, Eq, Structural)]
pub enum SwarmPhase {
    Suggesting,
    Speaking,
    Moderating,
    Synthesizing,
    Finished,
}

/// One swarm turn.
pub struct SwarmTurn {
    pub phase: SwarmPhase,
    pub backends: Backends,
    /// The backend and the raw id of the session's model.
    pub default_backend: Backend,
    pub raw_default_model: String,
    /// The id of the session's model, which a new persona speaks with.
    pub default_model: String,
    pub user_message: String,
    pub personas: Vec<Persona>,
    /// Who said what, in the order of speaking.
    pub discussion: Vec<(String, String)>,
    /// The rows of the roster that have answered.
    pub answered: HashSet<usize>,
    /// The number of the round, from one.
    pub round: usize,
    /// The row of the roster that speaks.
    pub idx: usize,
}

/// What a `SwarmTurn` stands for.
#[verifier::ext_equal]
pub struct SwarmTurnView {
    pub phase: SwarmPhase,
    pub backends: Backends,
    pub default_backend: Backend,
    pub raw_default_model: Seq<char>,
    pub default_model: Seq<char>,
    pub user_message: Seq<char>,
    pub personas: Seq<PersonaView>,
    pub discussion: Seq<(Seq<char>, Seq<char>)>,
    pub answered: Set<usize>,
    pub round: usize,
    pub idx: usize,
}

impl View for SwarmTurn {
    type V = SwarmTurnView;

    open spec fn view(&self) -> SwarmTurnView {
        SwarmTurnView {
            phase: self.phase,
            backends: self.backends,
            default_backend: self.default_backend,
            raw_default_model: self.raw_default_model@,
            default_model: self.default_model@,
            user_message: self.user_message@,
            personas: views(self.personas@),
            discussion: pairs(self.discussion@),
            answered: self.answered@,
            round: self.round,
            idx: self.idx,
        }
    }
}

/// A new state and what is to be done.
pub type SwarmTransition = (SwarmTurnView, Seq<SwarmActionView>);

pub open spec fn progress(s: Seq<char>) -> SwarmActionView {
    SwarmActionView::Update(SwarmUpdateView::Progress(s))
}

pub open spec fn swarm_error(s: Seq<char>) -> SwarmActionView {
    SwarmActionView::Update(SwarmUpdateView::Error(s))
}

pub open spec fn at_phase(s: SwarmTurnView, phase: SwarmPhase) -> SwarmTurnView {
    SwarmTurnView { phase, ..s }
}

/// What a persona is told of its part.
pub open spec fn persona_prompt(p: PersonaView) -> Seq<char> {
    "You are "@ + p.name
        + " in a live group conversation with the other personas below. Your persona: "@ + p.blurb
        + ". This discussion proceeds in rounds and every persona gets one response per round. Speak naturally and briefly (a few sentences), stay in character, and actually engage with what the prior speakers said — agree, push back, build on it, or ask a question. Use the available tools when they would improve your answer. Don't just restate your opening position every round."@
}

/// What a persona is asked.
pub open spec fn turn_prompt(
    p: PersonaView,
    round: nat,
    discussion: Seq<(Seq<char>, Seq<char>)>,
) -> Seq<char> {
    if discussion.len() == 0 {
        "Round "@ + decimal(round) + ": you're opening the discussion, "@ + p.name
            + ". Give your first take."@
    } else {
        "Conversation so far:\n\n"@ + transcript(discussion) + "\n\nRound "@ + decimal(round)
            + ": it's your chance to respond, "@ + p.name + ". Engage with what was said."@
    }
}

/// The messages that a persona's request ends with.
pub open spec fn persona_messages(s: SwarmTurnView, p: PersonaView) -> Seq<ChatMessageView> {
    seq![
        text_message("system"@, persona_prompt(p)),
        text_message("user"@, turn_prompt(p, s.round as nat, s.discussion)),
    ]
}

/// The persona at row `idx` is to speak; `before` was to be done already. One
/// whose model has no backend speaks with the session's model.
pub open spec fn speak_next(s: SwarmTurnView, before: Seq<SwarmActionView>) -> SwarmTransition {
    let p = s.personas[s.idx as int];
    let announced = before.push(
        progress(
            "round "@ + decimal(s.round as nat) + "/4 · persona "@ + decimal((s.idx + 1) as nat)
                + "/"@ + decimal(s.personas.len()) + " — "@ + p.name + " is responding"@,
        ),
    );
    let messages = persona_messages(s, p);
    let actions = match s.backends.route(p.model) {
        Some(route) => announced.push(
            SwarmActionView::Speak { backend: route.0, model: route.1, messages },
        ),
        None => announced.push(
            swarm_error(p.name + " model unavailable ("@ + p.model + "); using session model"@),
        ).push(
            SwarmActionView::Speak {
                backend: s.default_backend,
                model: s.raw_default_model,
                messages,
            },
        ),
    };
    (at_phase(s, SwarmPhase::Speaking), actions)
}

/// A round begins.
pub open spec fn round_next(
    s: SwarmTurnView,
    round: usize,
    before: Seq<SwarmActionView>,
) -> SwarmTransition {
    speak_next(SwarmTurnView { round, idx: 0, ..s }, before)
}

/// What the moderator is asked.
pub open spec fn moderator_prompt(
    topic: Seq<char>,
    discussion: Seq<(Seq<char>, Seq<char>)>,
) -> Seq<char> {
    "A panel of personas is having a live conversation about this message:\n\n"@ + topic
        + "\n\nConversation so far:\n\n"@ + transcript(discussion)
        + "\n\nDecide one of three things and reply with ONLY one line, no other text:\n- If they've reached a conclusion (agreement, a clear resolution, or a settled trade-off), reply exactly: CONVERGED\n- If the conversation is missing an important point of view that would meaningfully change it, reply exactly: ADD: <short persona name> | <one-sentence personality and perspective>\n- Otherwise, reply exactly: CONTINUE"@
}

/// What the reply that sums up is asked to be.
pub open spec fn synthesis_prompt(
    topic: Seq<char>,
    discussion: Seq<(Seq<char>, Seq<char>)>,
) -> Seq<char> {
    "A panel of personas had this conversation about a message:\n\n"@ + topic
        + "\n\nConversation:\n\n"@ + transcript(discussion)
        + "\n\nWrite one final reply to the original message that states the conclusion this conversation actually reached — the agreement, resolution, or trade-off they settled on — as a clear, useful answer. If they genuinely disagreed to the end, say so and give the best-supported call. Markdown allowed. Don't mention that this came from a panel — just answer well, informed by the conversation."@
}

/// What is asked where the roster is empty.
pub open spec fn suggest_prompt(topic: Seq<char>) -> Seq<char> {
    "Suggest exactly 3 distinct personas to discuss the following message from different points of view. Reply with ONLY a JSON array, no prose, no markdown fences, shaped like: [{\"name\": \"short persona name\", \"blurb\": \"one-sentence personality and perspective\"}, ...]\n\nMessage: "@
        + topic
}

/// The reply that sums up is next; `before` was to be done already.
pub open spec fn synthesize_next(s: SwarmTurnView, before: Seq<SwarmActionView>) -> SwarmTransition {
    (
        at_phase(s, SwarmPhase::Synthesizing),
        before.push(progress("writing synthesis…"@)).push(
            SwarmActionView::Synthesize {
                prompt: synthesis_prompt(s.user_message, s.discussion),
            },
        ),
    )
}

/// The names of the first `n` rows that have not answered.
pub open spec fn silent_names(personas: Seq<PersonaView>, answered: Set<usize>, n: nat) -> Seq<
    Seq<char>,
>
    decreases n,
{
    if n == 0 {
        Seq::empty()
    } else if answered.contains((n - 1) as usize) {
        silent_names(personas, answered, (n - 1) as nat)
    } else {
        silent_names(personas, answered, (n - 1) as nat).push(personas[n - 1].name)
    }
}

/// Whether every row of the roster has answered.
pub open spec fn all_answered(s: SwarmTurnView) -> bool {
    s.personas.len() > 0 && forall|i: usize| i < s.personas.len() ==> s.answered.contains(i)
}

/// A round is over. The last one leads to the reply that sums up; before that
/// the moderator is asked, but only once everyone has answered.
pub open spec fn round_over(s: SwarmTurnView, before: Seq<SwarmActionView>) -> SwarmTransition {
    if s.round >= MAX_ROUNDS {
        synthesize_next(s, before)
    } else if !all_answered(s) {
        round_next(
            s,
            (s.round + 1) as usize,
            before.push(
                progress(
                    "round "@ + decimal(s.round as nat)
                        + " complete — waiting for replies from: "@ + join(
                        silent_names(s.personas, s.answered, s.personas.len()),
                        ", "@,
                    ),
                ),
            ),
        )
    } else {
        (
            at_phase(s, SwarmPhase::Moderating),
            before.push(
                progress(
                    "round "@ + decimal(s.round as nat)
                        + " complete — moderator checking for a conclusion…"@,
                ),
            ).push(
                SwarmActionView::Moderate {
                    prompt: moderator_prompt(s.user_message, s.discussion),
                },
            ),
        )
    }
}

/// A persona spoke, or failed to.
pub open spec fn spoke(s: SwarmTurnView, r: Result<Seq<char>, Seq<char>>) -> SwarmTransition {
    let p = s.personas[s.idx as int];
    let (t, told) = match r {
        Ok(content) => (
            SwarmTurnView {
                discussion: s.discussion.push((p.name, content)),
                answered: s.answered.insert(s.idx),
                ..s
            },
            seq![
                SwarmActionView::Update(
                    SwarmUpdateView::Reply { persona: p.name, model: p.model, content },
                ),
            ],
        ),
        Err(e) => (s, seq![swarm_error(p.name + " failed: "@ + e)]),
    };
    if s.idx + 1 < s.personas.len() {
        speak_next(SwarmTurnView { idx: (s.idx + 1) as usize, ..t }, told)
    } else {
        round_over(t, told)
    }
}

/// Whether some persona has the name.
pub open spec fn has_name(personas: Seq<PersonaView>, name: Seq<char>) -> bool {
    exists|i: int| 0 <= i < personas.len() && #[trigger] personas[i].name == name
}

/// The moderator replied. A moderator that cannot be asked ends the rounds.
pub open spec fn moderated(s: SwarmTurnView, r: Result<Seq<char>, Seq<char>>) -> SwarmTransition {
    let round = (s.round + 1) as usize;
    match r {
        Err(_) => synthesize_next(s, Seq::empty()),
        Ok(raw) => match verdict(raw) {
            ModeratorVerdictView::Converged => synthesize_next(s, Seq::empty()),
            ModeratorVerdictView::Continue => round_next(s, round, Seq::empty()),
            ModeratorVerdictView::AddPersona { name, blurb } => {
                let p = PersonaView { name, model: s.default_model, blurb };
                if s.personas.len() >= MAX_PERSONAS || has_name(s.personas, name) {
                    round_next(s, round, Seq::empty())
                } else {
                    round_next(
                        SwarmTurnView { personas: s.personas.push(p), ..s },
                        round,
                        seq![SwarmActionView::Update(SwarmUpdateView::PersonaJoined(p))],
                    )
                }
            },
        },
    }
}

/// Suggestions for an empty roster came in.
pub open spec fn roster_suggested(
    s: SwarmTurnView,
    r: Result<Seq<PersonaView>, Seq<char>>,
) -> SwarmTransition {
    match r {
        Err(e) => (
            at_phase(s, SwarmPhase::Finished),
            seq![swarm_error("couldn't suggest personas: "@ + e)],
        ),
        Ok(personas) => {
            let t = SwarmTurnView { personas, ..s };
            let told = seq![SwarmActionView::Update(SwarmUpdateView::RosterSuggested(personas))];
            if personas.len() == 0 {
                (
                    at_phase(t, SwarmPhase::Finished),
                    told.push(swarm_error("no personas to run"@)),
                )
            } else {
                round_next(t, 1, told)
            }
        },
    }
}

/// The reply that sums up came in.
pub open spec fn summed_up(s: SwarmTurnView, r: Result<Seq<char>, Seq<char>>) -> SwarmTransition {
    (
        at_phase(s, SwarmPhase::Finished),
        seq![
            match r {
                Ok(content) => SwarmActionView::Update(SwarmUpdateView::Synthesis(content)),
                Err(e) => swarm_error("synthesis failed: "@ + e),
            },
        ],
    )
}

/// The reply with suggestions, read.
pub open spec fn suggestions_in(
    reply: Result<Seq<char>, Seq<char>>,
    items: Result<Seq<(Seq<char>, Seq<char>)>, Seq<char>>,
    model: Seq<char>,
) -> Result<Seq<PersonaView>, Seq<char>> {
    match reply {
        Ok(raw) => suggestions(raw, items, model),
        Err(e) => Err(e),
    }
}

/// What a turn does on an event. An event that it does not wait for changes
/// nothing.
pub open spec fn swarm_next(s: SwarmTurnView, ev: SwarmEventView) -> SwarmTransition {
    match (s.phase, ev) {
        (SwarmPhase::Suggesting, SwarmEventView::Suggested { reply, items }) => roster_suggested(
            s,
            suggestions_in(reply, items, s.default_model),
        ),
        (SwarmPhase::Speaking, SwarmEventView::Spoke(r)) => spoke(s, r),
        (SwarmPhase::Moderating, SwarmEventView::Moderated(r)) => moderated(s, r),
        (SwarmPhase::Synthesizing, SwarmEventView::Synthesized(r)) => summed_up(s, r),
        _ => (s, Seq::empty()),
    }
}

/// What a turn begins with.
pub open spec fn swarm_started(s: SwarmTurnView) -> SwarmTransition {
    if s.personas.len() == 0 {
        (
            at_phase(s, SwarmPhase::Suggesting),
            seq![
                progress("suggesting personas…"@),
                SwarmActionView::Suggest { prompt: suggest_prompt(s.user_message) },
            ],
        )
    } else {
        round_next(s, 1, Seq::empty())
    }
}

/// What holds of every turn: the rounds are bounded, a row of the roster
/// speaks, and the moderator is asked only between rounds and once everyone
/// has answered.
pub open spec fn swarm_inv(s: SwarmTurnView) -> bool {
    &&& s.round <= MAX_ROUNDS
    &&& s.phase is Speaking ==> 1 <= s.round && s.idx < s.personas.len()
    &&& s.phase is Moderating ==> 1 <= s.round < MAX_ROUNDS && all_answered(s)
    &&& s.personas.len() <= usize::MAX
}

fn tell_progress(s: String) -> (r: SwarmAction)
    ensures
        r@ == progress(s@),
{
    SwarmAction::Update(SwarmUpdate::Progress(s))
}

fn tell_error(s: String) -> (r: SwarmAction)
    ensures
        r@ == swarm_error(s@),
{
    SwarmAction::Update(SwarmUpdate::Error(s))
}

fn just(a: SwarmAction) -> (r: Vec<SwarmAction>)
    ensures
        views(r@) == seq![a@],
{
    let mut r: Vec<SwarmAction> = Vec::new();
    r.push(a);
    assert(views(r@) =~= seq![a@]);
    r
}

fn nothing() -> (r: Vec<SwarmAction>)
    ensures
        views(r@) == Seq::<SwarmActionView>::empty(),
{
    let r: Vec<SwarmAction> = Vec::new();
    assert(views(r@) =~= Seq::empty());
    r
}

fn joining(a: Vec<SwarmAction>, x: SwarmAction) -> (r: Vec<SwarmAction>)
    ensures
        views(r@) == views(a@).push(x@),
{
    let mut r = a;
    proof {
        views_push(r@, x);
    }
    r.push(x);
    r
}

fn conversation(discussion: &Vec<(String, String)>) -> (r: String)
    ensures
        r@ == transcript(pairs(discussion@)),
{
    match render_discussion(discussion) {
        Some(s) => s,
        None => {
            assert(crate::swarm::spoken(pairs(discussion@)) =~= Seq::empty());
            String::new()
        },
    }
}

fn part_of(p: &Persona) -> (r: String)
    ensures
        r@ == persona_prompt(p@),
{
    let mut s = "You are ".to_owned();
    s.append(p.name.as_str());
    s.append(" in a live group conversation with the other personas below. Your persona: ");
    s.append(p.blurb.as_str());
    s.append(
        ". This discussion proceeds in rounds and every persona gets one response per round. Speak naturally and briefly (a few sentences), stay in character, and actually engage with what the prior speakers said — agree, push back, build on it, or ask a question. Use the available tools when they would improve your answer. Don't just restate your opening position every round.",
    );
    s
}

fn chance_of(p: &Persona, round: usize, discussion: &Vec<(String, String)>) -> (r: String)
    ensures
        r@ == turn_prompt(p@, round as nat, pairs(discussion@)),
{
    assert(pairs(discussion@).len() == discussion@.len());
    if discussion.len() == 0 {
        let mut s = "Round ".to_owned();
        s.append(decimal_of(round as u64).as_str());
        s.append(": you're opening the discussion, ");
        s.append(p.name.as_str());
        s.append(". Give your first take.");
        s
    } else {
        let mut s = "Conversation so far:\n\n".to_owned();
        s.append(conversation(discussion).as_str());
        s.append("\n\nRound ");
        s.append(decimal_of(round as u64).as_str());
        s.append(": it's your chance to respond, ");
        s.append(p.name.as_str());
        s.append(". Engage with what was said.");
        s
    }
}

impl SwarmTurn {
    fn speak(&mut self, before: Vec<SwarmAction>) -> (r: Vec<SwarmAction>)
        requires
            old(self).idx < old(self).personas@.len(),
        ensures
            (final(self)@, views(r@)) == speak_next(old(self)@, views(before@)),
    {
        assert(views(self.personas@).len() == self.personas@.len());
        let p = self.personas[self.idx].clone();
        let n: usize = self.personas.len();
        assert(p@ == self@.personas[self.idx as int]);
        let mut s = "round ".to_owned();
        s.append(decimal_of(self.round as u64).as_str());
        s.append("/4 · persona ");
        s.append(decimal_of(self.idx as u64 + 1).as_str());
        s.append("/");
        s.append(decimal_of(n as u64).as_str());
        s.append(" — ");
        s.append(p.name.as_str());
        s.append(" is responding");
        let announced = joining(before, tell_progress(s));
        let mut messages: Vec<ChatMessage> = Vec::new();
        messages.push(ChatMessage::text("system", part_of(&p)));
        messages.push(ChatMessage::text("user", chance_of(&p, self.round, &self.discussion)));
        assert(views(messages@) =~= persona_messages(self@, p@));
        self.phase = SwarmPhase::Speaking;
        match self.backends.resolve(p.model.as_str()) {
            Some((backend, model)) => joining(
                announced,
                SwarmAction::Speak { backend, model, messages },
            ),
            None => {
                let mut e = p.name.clone();
                e.append(" model unavailable (");
                e.append(p.model.as_str());
                e.append("); using session model");
                joining(
                    joining(announced, tell_error(e)),
                    SwarmAction::Speak {
                        backend: self.default_backend.clone(),
                        model: self.raw_default_model.clone(),
                        messages,
                    },
                )
            },
        }
    }

    fn begin_round(&mut self, round: usize, before: Vec<SwarmAction>) -> (r: Vec<SwarmAction>)
        requires
            old(self).personas@.len() > 0,
        ensures
            (final(self)@, views(r@)) == round_next(old(self)@, round, views(before@)),
    {
        self.round = round;
        self.idx = 0;
        self.speak(before)
    }

    fn sum_up(&mut self, before: Vec<SwarmAction>) -> (r: Vec<SwarmAction>)
        ensures
            (final(self)@, views(r@)) == synthesize_next(old(self)@, views(before@)),
    {
        let mut prompt =
            "A panel of personas had this conversation about a message:\n\n".to_owned();
        prompt.append(self.user_message.as_str());
        prompt.append("\n\nConversation:\n\n");
        prompt.append(conversation(&self.discussion).as_str());
        prompt.append(
            "\n\nWrite one final reply to the original message that states the conclusion this conversation actually reached — the agreement, resolution, or trade-off they settled on — as a clear, useful answer. If they genuinely disagreed to the end, say so and give the best-supported call. Markdown allowed. Don't mention that this came from a panel — just answer well, informed by the conversation.",
        );
        self.phase = SwarmPhase::Synthesizing;
        joining(
            joining(before, tell_progress("writing synthesis…".to_owned())),
            SwarmAction::Synthesize { prompt },
        )
    }

    fn silent(&self) -> (r: Vec<String>)
        ensures
            texts(r@) == silent_names(self@.personas, self@.answered, self@.personas.len()),
    {
        assert(views(self.personas@).len() == self.personas@.len());
        let n: usize = self.personas.len();
        let mut out: Vec<String> = Vec::new();
        let mut i: usize = 0;
        assert(texts(out@) =~= Seq::empty());
        while i < n
            invariant
                i <= n == self.personas@.len(),
                texts(out@) == silent_names(self@.personas, self@.answered, i as nat),
            decreases n - i,
        {
            if !self.answered.contains(&i) {
                let name = self.personas[i].name.clone();
                proof {
                    assert(self@.personas[i as int].name == name@);
                    texts_push(out@, name);
                }
                out.push(name);
            }
            i += 1;
        }
        out
    }

    fn end_round(&mut self, before: Vec<SwarmAction>) -> (r: Vec<SwarmAction>)
        requires
            old(self).personas@.len() > 0,
        ensures
            (final(self)@, views(r@)) == round_over(old(self)@, views(before@)),
    {
        assert(views(self.personas@).len() == self.personas@.len());
        if self.round >= MAX_ROUNDS {
            return self.sum_up(before);
        }
        let mut s = "round ".to_owned();
        s.append(decimal_of(self.round as u64).as_str());
        if !all_personas_answered(self.personas.len(), &self.answered) {
            s.append(" complete — waiting for replies from: ");
            s.append(joined(&self.silent(), ", ").as_str());
            let round: usize = self.round + 1;
            let told = joining(before, tell_progress(s));
            return self.begin_round(round, told);
        }
        s.append(" complete — moderator checking for a conclusion…");
        let mut prompt =
            "A panel of personas is having a live conversation about this message:\n\n".to_owned();
        prompt.append(self.user_message.as_str());
        prompt.append("\n\nConversation so far:\n\n");
        prompt.append(conversation(&self.discussion).as_str());
        prompt.append(
            "\n\nDecide one of three things and reply with ONLY one line, no other text:\n- If they've reached a conclusion (agreement, a clear resolution, or a settled trade-off), reply exactly: CONVERGED\n- If the conversation is missing an important point of view that would meaningfully change it, reply exactly: ADD: <short persona name> | <one-sentence personality and perspective>\n- Otherwise, reply exactly: CONTINUE",
        );
        self.phase = SwarmPhase::Moderating;
        joining(joining(before, tell_progress(s)), SwarmAction::Moderate { prompt })
    }

    fn on_spoke(&mut self, result: Result<String, String>) -> (r: Vec<SwarmAction>)
        requires
            old(self).idx < old(self).personas@.len(),
        ensures
            (final(self)@, views(r@)) == spoke(old(self)@, outcome(result)),
    {
        assert(views(self.personas@).len() == self.personas@.len());
        let p = self.personas[self.idx].clone();
        assert(p@ == self@.personas[self.idx as int]);
        let told = match result {
            Ok(content) => {
                let ghost before = self.discussion@;
                self.discussion.push((p.name.clone(), content.clone()));
                assert(pairs(self.discussion@) =~= pairs(before).push((p.name@, content@)));
                self.answered.insert(self.idx);
                just(
                    SwarmAction::Update(
                        SwarmUpdate::Reply { persona: p.name, model: p.model, content },
                    ),
                )
            },
            Err(e) => {
                let mut s = p.name.clone();
                s.append(" failed: ");
                s.append(e.as_str());
                just(tell_error(s))
            },
        };
        let n: usize = self.personas.len();
        if self.idx + 1 < n {
            self.idx = self.idx + 1;
            self.speak(told)
        } else {
            self.end_round(told)
        }
    }

    fn knows(&self, name: &str) -> (r: bool)
        ensures
            r == has_name(self@.personas, name@),
    {
        let mut i: usize = 0;
        while i < self.personas.len()
            invariant
                i <= self.personas@.len(),
                forall|j: int| 0 <= j < i ==> #[trigger] self@.personas[j].name != name@,
            decreases self.personas@.len() - i,
        {
            assert(self@.personas[i as int].name == self.personas@[i as int].name@);
            if same(self.personas[i].name.as_str(), name) {
                return true;
            }
            i += 1;
        }
        false
    }

    fn on_moderated(&mut self, result: Result<String, String>) -> (r: Vec<SwarmAction>)
        requires
            old(self).personas@.len() > 0,
            old(self).round < MAX_ROUNDS,
        ensures
            (final(self)@, views(r@)) == moderated(old(self)@, outcome(result)),
    {
        assert(views(self.personas@).len() == self.personas@.len());
        let round: usize = self.round + 1;
        match result {
            Err(_) => self.sum_up(nothing()),
            Ok(raw) => match parse_moderator_verdict(raw.as_str()) {
                ModeratorVerdict::Converged => self.sum_up(nothing()),
                ModeratorVerdict::Continue => self.begin_round(round, nothing()),
                ModeratorVerdict::AddPersona { name, blurb } => {
                    if self.personas.len() >= MAX_PERSONAS || self.knows(name.as_str()) {
                        return self.begin_round(round, nothing());
                    }
                    let p = Persona { name, model: self.default_model.clone(), blurb };
                    proof {
                        views_push(self.personas@, p);
                    }
                    self.personas.push(p.clone());
                    self.begin_round(
                        round,
                        just(SwarmAction::Update(SwarmUpdate::PersonaJoined(p))),
                    )
                },
            },
        }
    }

    fn on_suggested(
        &mut self,
        reply: Result<String, String>,
        items: Result<Vec<(String, String)>, String>,
    ) -> (r: Vec<SwarmAction>)
        ensures
            (final(self)@, views(r@)) == roster_suggested(
                old(self)@,
                suggestions_in(outcome(reply), read_pairs(items), old(self)@.default_model),
            ),
    {
        let result = match reply {
            Ok(raw) => parse_suggested_personas(raw.as_str(), items, self.default_model.as_str()),
            Err(e) => Err(e),
        };
        match result {
            Err(e) => {
                self.phase = SwarmPhase::Finished;
                just(tell_error(concat("couldn't suggest personas: ", e.as_str())))
            },
            Ok(personas) => {
                assert(views(personas@).len() == personas@.len());
                let told = just(
                    SwarmAction::Update(SwarmUpdate::RosterSuggested(copied_roster(&personas))),
                );
                let n: usize = personas.len();
                self.personas = personas;
                if n == 0 {
                    self.phase = SwarmPhase::Finished;
                    joining(told, tell_error("no personas to run".to_owned()))
                } else {
                    self.begin_round(1, told)
                }
            },
        }
    }

    fn on_summed_up(&mut self, result: Result<String, String>) -> (r: Vec<SwarmAction>)
        ensures
            (final(self)@, views(r@)) == summed_up(old(self)@, outcome(result)),
    {
        self.phase = SwarmPhase::Finished;
        match result {
            Ok(content) => just(SwarmAction::Update(SwarmUpdate::Synthesis(content))),
            Err(e) => just(tell_error(concat("synthesis failed: ", e.as_str()))),
        }
    }

    /// Begins a turn: an empty roster asks for suggestions first.
    pub fn start(
        personas: Vec<Persona>,
        user_message: String,
        default_model: String,
        backends: Backends,
        default_backend: Backend,
        raw_default_model: String,
    ) -> (r: (SwarmTurn, Vec<SwarmAction>))
        ensures
            ({
                let s = SwarmTurnView {
                    phase: SwarmPhase::Suggesting,
                    backends,
                    default_backend,
                    raw_default_model: raw_default_model@,
                    default_model: default_model@,
                    user_message: user_message@,
                    personas: views(personas@),
                    discussion: Seq::empty(),
                    answered: Set::empty(),
                    round: 1,
                    idx: 0,
                };
                (r.0@, views(r.1@)) == swarm_started(s)
            }),
            swarm_inv(r.0@),
    {
        assert(views(personas@).len() == personas@.len());
        let n: usize = personas.len();
        let mut turn = SwarmTurn {
            phase: SwarmPhase::Suggesting,
            backends,
            default_backend,
            raw_default_model,
            default_model,
            user_message,
            personas,
            discussion: Vec::new(),
            answered: HashSet::new(),
            round: 1,
            idx: 0,
        };
        assert(turn@.discussion =~= Seq::empty());
        if n == 0 {
            let prompt = concat(
                "Suggest exactly 3 distinct personas to discuss the following message from different points of view. Reply with ONLY a JSON array, no prose, no markdown fences, shaped like: [{\"name\": \"short persona name\", \"blurb\": \"one-sentence personality and perspective\"}, ...]\n\nMessage: ",
                turn.user_message.as_str(),
            );
            let actions = joining(
                just(tell_progress("suggesting personas…".to_owned())),
                SwarmAction::Suggest { prompt },
            );
            assert(views(actions@) =~= swarm_started(turn@).1);
            (turn, actions)
        } else {
            let actions = turn.begin_round(1, nothing());
            (turn, actions)
        }
    }

    /// Takes one event and says what is to be done next.
    pub fn step(&mut self, ev: SwarmEvent) -> (r: Vec<SwarmAction>)
        requires
            swarm_inv(old(self)@),
        ensures
            (final(self)@, views(r@)) == swarm_next(old(self)@, ev@),
            swarm_inv(final(self)@),
    {
        assert(views(self.personas@).len() == self.personas@.len());
        let r = match (self.phase, ev) {
            (SwarmPhase::Suggesting, SwarmEvent::Suggested { reply, items }) => self.on_suggested(
                reply,
                items,
            ),
            (SwarmPhase::Speaking, SwarmEvent::Spoke(result)) => self.on_spoke(result),
            (SwarmPhase::Moderating, SwarmEvent::Moderated(result)) => self.on_moderated(result),
            (SwarmPhase::Synthesizing, SwarmEvent::Synthesized(result)) => self.on_summed_up(
                result,
            ),
            _ => nothing(),
        };
        let n: usize = self.personas.len();
        assert(views(self.personas@).len() == n);
        r
    }
}

/// What the stream of a persona's response does on an event: go on, show how
/// it proceeds, or end with the response or the reason why there is none.
pub enum VoiceStep {
    Continue,
    Show(SwarmUpdate),
    End(Result<String, String>),
}

/// What a `VoiceStep` stands for.
pub enum VoiceStepView {
    Continue,
    Show(SwarmUpdateView),
    End(Result<Seq<char>, Seq<char>>),
}

impl View for VoiceStep {
    type V = VoiceStepView;

    open spec fn view(&self) -> VoiceStepView {
        match *self {
            VoiceStep::Continue => VoiceStepView::Continue,
            VoiceStep::Show(u) => VoiceStepView::Show(u@),
            VoiceStep::End(r) => VoiceStepView::End(outcome(r)),
        }
    }
}

/// The response of one persona as it streams in.
pub struct Voice {
    pub round: usize,
    pub name: String,
    pub buf: String,
}

/// How a response proceeds, in words.
pub open spec fn voice_note(round: nat, name: Seq<char>, note: Seq<char>) -> SwarmUpdateView {
    SwarmUpdateView::Progress(
        "round "@ + decimal(round) + "/4 — "@ + name + ": "@ + note,
    )
}

/// What a persona's stream does on an event; the stream's end counts as the
/// end of the response.
pub open spec fn voice_step(
    round: nat,
    name: Seq<char>,
    buf: Seq<char>,
    ev: Option<StreamEventView>,
) -> VoiceStepView {
    match ev {
        Some(StreamEventView::Status(s)) => VoiceStepView::Show(voice_note(round, name, s)),
        Some(StreamEventView::ToolCall { name: tool, arguments, result }) => VoiceStepView::Show(
            voice_note(round, name, call_summary(tool, arguments, result)),
        ),
        Some(StreamEventView::Error(e)) => VoiceStepView::End(Err(e)),
        Some(StreamEventView::Done) | None => if trim(buf).len() == 0 {
            VoiceStepView::End(Err("returned an empty response"@))
        } else {
            VoiceStepView::End(Ok(buf))
        },
        _ => VoiceStepView::Continue,
    }
}

impl Voice {
    fn note(&self, note: &str) -> (r: VoiceStep)
        ensures
            r@ == VoiceStepView::Show(voice_note(self.round as nat, self.name@, note@)),
    {
        let mut s = "round ".to_owned();
        s.append(decimal_of(self.round as u64).as_str());
        s.append("/4 — ");
        s.append(self.name.as_str());
        s.append(": ");
        s.append(note);
        VoiceStep::Show(SwarmUpdate::Progress(s))
    }

    /// A response that has not begun.
    pub fn start(round: usize, name: String) -> (r: Voice)
        ensures
            r.round == round,
            r.name == name,
            r.buf@ == Seq::<char>::empty(),
    {
        Voice { round, name, buf: String::new() }
    }

    /// Takes one event of the stream, `None` where the stream has ended.
    pub fn on_event(&mut self, ev: Option<StreamEvent>) -> (r: VoiceStep)
        ensures
            final(self).round == old(self).round,
            final(self).name == old(self).name,
            final(self).buf@ == grown(old(self).buf@, opt_event(ev)),
            r@ == voice_step(
                old(self).round as nat,
                old(self).name@,
                old(self).buf@,
                opt_event(ev),
            ),
    {
        match ev {
            Some(StreamEvent::Token(t)) => {
                self.buf.append(t.as_str());
                VoiceStep::Continue
            },
            Some(StreamEvent::Status(s)) => self.note(s.as_str()),
            Some(StreamEvent::ToolCall { name, arguments, result }) => {
                let summary = tool_call_summary(name.as_str(), arguments.as_str(), result.as_str());
                self.note(summary.as_str())
            },
            Some(StreamEvent::Error(e)) => VoiceStep::End(Err(e)),
            Some(StreamEvent::Done) | None => {
                if trimmed(self.buf.as_str()).is_empty() {
                    VoiceStep::End(Err("returned an empty response".to_owned()))
                } else {
                    VoiceStep::End(Ok(self.buf.clone()))
                }
            },
            _ => VoiceStep::Continue,
        }
    }
}

/// Whether the turn waits for the event.
pub open spec fn awaited(s: SwarmTurnView, ev: SwarmEventView) -> bool {
    match (s.phase, ev) {
        (SwarmPhase::Suggesting, SwarmEventView::Suggested { .. }) => true,
        (SwarmPhase::Speaking, SwarmEventView::Spoke(_)) => true,
        (SwarmPhase::Moderating, SwarmEventView::Moderated(_)) => true,
        (SwarmPhase::Synthesizing, SwarmEventView::Synthesized(_)) => true,
        _ => false,
    }
}

/// How far a turn is from its end: by its phase, then by the rounds that are
/// left, then by the personas that are still to speak in the round.
pub open spec fn rank(s: SwarmTurnView) -> (int, int, int) {
    match s.phase {
        SwarmPhase::Suggesting => (3, 0, 0),
        SwarmPhase::Speaking => (2, 2 * (MAX_ROUNDS - s.round) + 1, s.personas.len() - s.idx),
        SwarmPhase::Moderating => (2, 2 * (MAX_ROUNDS - s.round), 0),
        SwarmPhase::Synthesizing => (1, 0, 0),
        SwarmPhase::Finished => (0, 0, 0),
    }
}

/// Whether one rank is below another.
pub open spec fn below(a: (int, int, int), b: (int, int, int)) -> bool {
    a.0 < b.0 || (a.0 == b.0 && (a.1 < b.1 || (a.1 == b.1 && a.2 < b.2)))
}

/// Every turn ends: each event that it waits for brings it closer to its end.
pub proof fn swarm_turn_ends(s: SwarmTurnView, ev: SwarmEventView)
    requires
        swarm_inv(s),
        awaited(s, ev),
    ensures
        below(rank(swarm_next(s, ev).0), rank(s)),
        rank(s).1 >= 0,
        rank(s).2 >= 0,
{
}

/// Every row of the roster gets one chance per round, in the roster's order:
/// after row `idx` comes the next row of the same round, and behind the last
/// row the round is over.
pub proof fn one_chance_per_round(s: SwarmTurnView, r: Result<Seq<char>, Seq<char>>)
    requires
        swarm_inv(s),
        s.phase is Speaking,
    ensures
        ({
            let t = swarm_next(s, SwarmEventView::Spoke(r)).0;
            if s.idx + 1 < s.personas.len() {
                t.phase is Speaking && t.round == s.round && t.idx == s.idx + 1 && t.personas
                    == s.personas
            } else {
                t.phase is Speaking ==> t.round == s.round + 1 && t.idx == 0
            }
        }),
{
}

/// The moderator is asked only when every row of the roster has answered.
pub proof fn moderator_waits_for_everyone(s: SwarmTurnView, ev: SwarmEventView)
    requires
        swarm_inv(s),
        !(s.phase is Moderating),
        swarm_next(s, ev).0.phase is Moderating,
    ensures
        all_answered(swarm_next(s, ev).0),
{
}

/// A persona joins only between rounds, under a name that is new, and the
/// roster does not grow beyond six by it.
pub proof fn roster_growth_is_bounded(s: SwarmTurnView, ev: SwarmEventView)
    requires
        swarm_inv(s),
        !(s.phase is Suggesting),
    ensures
        ({
            let t = swarm_next(s, ev).0;
            t.personas == s.personas || (s.phase is Moderating && s.personas.len() < MAX_PERSONAS
                && t.personas.drop_last() == s.personas && !has_name(
                s.personas,
                t.personas.last().name,
            ))
        }),
{
    let t = swarm_next(s, ev).0;
    if t.personas != s.personas {
        assert(t.personas.drop_last() =~= s.personas);
    }
}

} // verus!
