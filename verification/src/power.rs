//! The decision loop: which command, if any, each event from the watcher
//! calls for, with a grace period before switching off so that a brief
//! restart of the process does not switch the entity off and on again.
//!
//! The loop is driven from outside. The caller waits as [`DecisionLoop::wait`]
//! says, hands what came of the wait to [`DecisionLoop::step`] and carries
//! out the [`Reaction`].

use crate::config::PowerConfig;
use crate::hass::APIState;
use crate::process::{
    events_emitted, is_watcher_stream, lemma_one_event_per_run, states_seen, Sample, StateEvent,
    VRState,
};
use vstd::prelude::*;

verus! {

/// How the loop is waiting for its next input.
#[derive(Clone, Copy, Debug, PartialEq, Eq, Structural)]
pub enum Phase {
    /// Waiting for the next event, for as long as it takes.
    Listening,
    /// The process has just gone. Waiting for the grace period to pass, or
    /// for an event that arrives before it has.
    Debouncing,
}

/// How long the caller is to wait for the next event.
#[derive(Clone, Copy, Debug, PartialEq, Eq, Structural)]
pub enum Wait {
    /// Until an event arrives.
    Forever,
    /// Until an event arrives, but for this many seconds at most.
    UpTo(u64),
}

/// What came of a wait.
#[derive(Clone, Copy, Debug, PartialEq, Eq, Structural)]
pub enum Input {
    /// An event arrived.
    Event(StateEvent),
    /// The time allowed for the wait passed and nothing had arrived.
    Elapsed,
}

/// What the loop wants done after an input.
#[derive(Clone, Copy, Debug, PartialEq, Eq, Structural)]
pub enum Reaction {
    /// Bring the entity into this state.
    Switch(APIState),
    /// The process has gone. Nothing is done yet: the grace period begins.
    Debounce,
    /// The process came back within the grace period. The entity stays on
    /// and nothing is sent.
    Skipped,
    /// There was nothing to react to.
    Nothing,
}

impl Reaction {
    /// The command that this reaction sends to the entity, if it sends one.
    pub open spec fn spec_command(self) -> Option<APIState> {
        match self {
            Reaction::Switch(state) => Some(state),
            _ => None,
        }
    }

    /// The command that this reaction sends to the entity, if it sends one.
    pub fn command(&self) -> (command: Option<APIState>)
        ensures
            command == self.spec_command(),
    {
        match self {
            Reaction::Switch(state) => Some(*state),
            _ => None,
        }
    }
}

/// The wait that goes with a phase, for a grace period of `delay` seconds.
pub open spec fn spec_wait(phase: Phase, delay: u64) -> Wait {
    match phase {
        Phase::Listening => Wait::Forever,
        Phase::Debouncing => Wait::UpTo(delay),
    }
}

/// The phase after an input, and the reaction to it.
///
/// While listening, a running process switches the entity on, every time
/// it is reported. A process that is away at startup switches the entity
/// off at once. A process that goes away later starts the grace period.
///
/// In the grace period the very next input settles the matter: the entity
/// is switched off when the time has passed or the process is reported
/// away again, and left alone when the process is reported running.
///
/// No time is ever allowed to pass while listening, so `Elapsed` means
/// nothing there.
pub open spec fn spec_step(phase: Phase, input: Input) -> (Phase, Reaction) {
    match phase {
        Phase::Listening => match input {
            Input::Event(StateEvent { state: VRState::Running(_), is_initial: _ }) => (
                Phase::Listening,
                Reaction::Switch(APIState::On),
            ),
            Input::Event(StateEvent { state: VRState::NotRunning, is_initial: true }) => (
                Phase::Listening,
                Reaction::Switch(APIState::Off),
            ),
            Input::Event(StateEvent { state: VRState::NotRunning, is_initial: false }) => (
                Phase::Debouncing,
                Reaction::Debounce,
            ),
            Input::Elapsed => (Phase::Listening, Reaction::Nothing),
        },
        Phase::Debouncing => match input {
            Input::Event(StateEvent { state: VRState::Running(_), is_initial: _ }) => (
                Phase::Listening,
                Reaction::Skipped,
            ),
            Input::Event(StateEvent { state: VRState::NotRunning, is_initial: _ }) => (
                Phase::Listening,
                Reaction::Switch(APIState::Off),
            ),
            Input::Elapsed => (Phase::Listening, Reaction::Switch(APIState::Off)),
        },
    }
}

/// Turns the events of a watcher into commands for the entity.
pub struct DecisionLoop {
    delay: u64,
    phase: Phase,
}

impl DecisionLoop {
    /// The grace period in seconds.
    pub closed spec fn spec_delay(&self) -> u64 {
        self.delay
    }

    /// How the loop is waiting.
    pub closed spec fn spec_phase(&self) -> Phase {
        self.phase
    }

    /// A loop that has seen nothing yet and listens.
    pub fn new(config: &PowerConfig) -> (fresh: DecisionLoop)
        ensures
            fresh.spec_delay() == config.delay,
            fresh.spec_phase() == Phase::Listening,
    {
        DecisionLoop { delay: config.delay, phase: Phase::Listening }
    }

    /// The grace period in seconds.
    pub fn delay(&self) -> (delay: u64)
        ensures
            delay == self.spec_delay(),
    {
        self.delay
    }

    /// How the loop is waiting.
    pub fn phase(&self) -> (phase: Phase)
        ensures
            phase == self.spec_phase(),
    {
        self.phase
    }

    /// How long to wait for the next event: without limit while listening,
    /// for the grace period while debouncing.
    pub fn wait(&self) -> (wait: Wait)
        ensures
            wait == spec_wait(self.spec_phase(), self.spec_delay()),
    {
        match self.phase {
            Phase::Listening => Wait::Forever,
            Phase::Debouncing => Wait::UpTo(self.delay),
        }
    }

    /// Takes what came of the last wait and says what is to be done.
    pub fn step(&mut self, input: Input) -> (reaction: Reaction)
        ensures
            final(self).spec_delay() == old(self).spec_delay(),
            final(self).spec_phase() == spec_step(old(self).spec_phase(), input).0,
            reaction == spec_step(old(self).spec_phase(), input).1,
    {
        let (phase, reaction) = match self.phase {
            Phase::Listening => match input {
                Input::Event(event) => match event.state {
                    VRState::Running(_) => (Phase::Listening, Reaction::Switch(APIState::On)),
                    VRState::NotRunning => if event.is_initial {
                        (Phase::Listening, Reaction::Switch(APIState::Off))
                    } else {
                        (Phase::Debouncing, Reaction::Debounce)
                    },
                },
                Input::Elapsed => (Phase::Listening, Reaction::Nothing),
            },
            Phase::Debouncing => match input {
                Input::Event(event) => match event.state {
                    VRState::Running(_) => (Phase::Listening, Reaction::Skipped),
                    VRState::NotRunning => (Phase::Listening, Reaction::Switch(APIState::Off)),
                },
                Input::Elapsed => (Phase::Listening, Reaction::Switch(APIState::Off)),
            },
        };
        self.phase = phase;
        reaction
    }
}

/// The command that makes the entity agree with a state of the process.
pub open spec fn wanted(state: VRState) -> APIState {
    match state {
        VRState::Running(_) => APIState::On,
        VRState::NotRunning => APIState::Off,
    }
}

/// The phase of a loop that was in `phase` and has since taken `inputs`.
pub open spec fn phase_after(phase: Phase, inputs: Seq<Input>) -> Phase
    decreases inputs.len(),
{
    if inputs.len() == 0 {
        phase
    } else {
        spec_step(phase_after(phase, inputs.drop_last()), inputs.last()).0
    }
}

/// The commands, in order, that a loop sends which was in `phase` and has
/// since taken `inputs`.
pub open spec fn commands(phase: Phase, inputs: Seq<Input>) -> Seq<APIState>
    decreases inputs.len(),
{
    if inputs.len() == 0 {
        Seq::empty()
    } else {
        let earlier = commands(phase, inputs.drop_last());
        let reaction = spec_step(phase_after(phase, inputs.drop_last()), inputs.last()).1;
        match reaction.spec_command() {
            Some(command) => earlier.push(command),
            None => earlier,
        }
    }
}

/// The events among the inputs, in order.
pub open spec fn events_of(inputs: Seq<Input>) -> Seq<StateEvent>
    decreases inputs.len(),
{
    if inputs.len() == 0 {
        Seq::empty()
    } else {
        match inputs.last() {
            Input::Event(event) => events_of(inputs.drop_last()).push(event),
            Input::Elapsed => events_of(inputs.drop_last()),
        }
    }
}

/// The event of a process seen running.
pub open spec fn is_sighting(input: Input) -> bool {
    input matches Input::Event(event) && event.state.spec_is_running()
}

/// The event of a process that was running and has gone.
pub open spec fn is_departure(input: Input) -> bool {
    input == Input::Event(StateEvent { state: VRState::NotRunning, is_initial: false })
}

/// One more input: the loop steps once from where the earlier inputs left it.
proof fn lemma_one_more_input(phase: Phase, inputs: Seq<Input>, next: Input)
    ensures
        phase_after(phase, inputs.push(next)) == spec_step(phase_after(phase, inputs), next).0,
        commands(phase, inputs.push(next)) == match spec_step(
            phase_after(phase, inputs),
            next,
        ).1.spec_command() {
            Some(command) => commands(phase, inputs).push(command),
            None => commands(phase, inputs),
        },
{
    assert(inputs.push(next).drop_last() =~= inputs);
}

/// Sightings are not deduplicated: a listening loop that is shown nothing
/// but a running process switches the entity on once for every event, also
/// when they follow one another, and goes on listening.
pub proof fn lemma_every_sighting_switches_on(inputs: Seq<Input>)
    requires
        forall|i: int| 0 <= i < inputs.len() ==> is_sighting(#[trigger] inputs[i]),
    ensures
        phase_after(Phase::Listening, inputs) == Phase::Listening,
        commands(Phase::Listening, inputs).len() == inputs.len(),
        forall|i: int|
            0 <= i < inputs.len() ==> #[trigger] commands(Phase::Listening, inputs)[i]
                == APIState::On,
    decreases inputs.len(),
{
    if inputs.len() > 0 {
        lemma_every_sighting_switches_on(inputs.drop_last());
        assert(is_sighting(inputs.last()));
    }
}

/// A grace period is over with the very next input, whatever it is: there
/// is never more than one pending, and a second departure is not debounced
/// but settles the first. No timer runs but after a departure, and after
/// every command the loop listens again without one.
pub proof fn lemma_grace_period_ends_with_next_input(phase: Phase, input: Input, next: Input)
    ensures
        spec_step(Phase::Debouncing, next).0 == Phase::Listening,
        spec_step(phase, input).1 is Switch ==> spec_step(phase, input).0 == Phase::Listening,
        spec_step(phase, input).0 == Phase::Debouncing ==> phase == Phase::Listening
            && is_departure(input) && spec_step(phase, input).1 == Reaction::Debounce,
        is_departure(input) && is_departure(next) ==> commands(
            Phase::Listening,
            seq![input, next],
        ) == seq![APIState::Off] && phase_after(Phase::Listening, seq![input, next])
            == Phase::Listening,
{
    let none = Seq::<Input>::empty();
    assert(seq![input] =~= none.push(input));
    assert(seq![input, next] =~= seq![input].push(next));
    lemma_one_more_input(Phase::Listening, none, input);
    lemma_one_more_input(Phase::Listening, seq![input], next);
}

/// A restart within the grace period keeps the entity on. When a departure
/// is followed by a sighting before the time has passed, nothing is sent
/// for either of them, and the loop listens again. Together with the
/// sighting that went before the departure, the entity was switched on
/// once and never off.
pub proof fn lemma_restart_in_time_sends_nothing(before: Input, departure: Input, back: Input)
    requires
        is_sighting(before),
        is_departure(departure),
        is_sighting(back),
    ensures
        spec_step(Phase::Listening, departure) == (Phase::Debouncing, Reaction::Debounce),
        spec_step(Phase::Debouncing, back) == (Phase::Listening, Reaction::Skipped),
        commands(Phase::Listening, seq![departure, back]) == Seq::<APIState>::empty(),
        commands(Phase::Listening, seq![before, departure, back]) == seq![APIState::On],
        phase_after(Phase::Listening, seq![before, departure, back]) == Phase::Listening,
{
    let none = Seq::<Input>::empty();
    assert(seq![departure] =~= none.push(departure));
    assert(seq![departure, back] =~= seq![departure].push(back));
    lemma_one_more_input(Phase::Listening, none, departure);
    lemma_one_more_input(Phase::Listening, seq![departure], back);

    assert(seq![before] =~= none.push(before));
    assert(seq![before, departure] =~= seq![before].push(departure));
    assert(seq![before, departure, back] =~= seq![before, departure].push(back));
    lemma_one_more_input(Phase::Listening, none, before);
    lemma_one_more_input(Phase::Listening, seq![before], departure);
    lemma_one_more_input(Phase::Listening, seq![before, departure], back);
}

/// A departure that nothing follows switches the entity off exactly once,
/// when the grace period has passed and not before: the departure itself
/// sends nothing and asks for a wait of the configured delay, and the end
/// of that wait sends the one command.
pub proof fn lemma_silence_switches_off_once(departure: Input, delay: u64)
    requires
        is_departure(departure),
    ensures
        spec_step(Phase::Listening, departure) == (Phase::Debouncing, Reaction::Debounce),
        spec_wait(Phase::Debouncing, delay) == Wait::UpTo(delay),
        spec_step(Phase::Debouncing, Input::Elapsed) == (
            Phase::Listening,
            Reaction::Switch(APIState::Off),
        ),
        commands(Phase::Listening, seq![departure]) == Seq::<APIState>::empty(),
        commands(Phase::Listening, seq![departure, Input::Elapsed]) == seq![APIState::Off],
        spec_wait(phase_after(Phase::Listening, seq![departure, Input::Elapsed]), delay)
            == Wait::Forever,
{
    let none = Seq::<Input>::empty();
    assert(seq![departure] =~= none.push(departure));
    assert(seq![departure, Input::Elapsed] =~= seq![departure].push(Input::Elapsed));
    lemma_one_more_input(Phase::Listening, none, departure);
    lemma_one_more_input(Phase::Listening, seq![departure], Input::Elapsed);
}

/// The first event of a watcher is acted on at once. Whatever the process
/// table shows at startup, a fresh loop answers the watcher's first event
/// with the command that matches it, on for a process that was found and
/// off for one that was not, and starts no grace period.
pub proof fn lemma_startup_switches_at_once(samples: Seq<Sample>)
    requires
        samples.len() > 0,
    ensures
        events_emitted(samples).len() > 0,
        events_emitted(samples)[0].is_initial,
        spec_step(Phase::Listening, Input::Event(events_emitted(samples)[0])) == (
            Phase::Listening,
            Reaction::Switch(
                match samples[0].by_name {
                    Some(_) => APIState::On,
                    None => APIState::Off,
                },
            ),
        ),
{
    lemma_one_event_per_run(samples);
}

/// The entity follows the process. Let a fresh loop take the events of a
/// watcher, in order, with the end of a wait between them wherever one
/// falls. Then whenever the loop listens, the last command it sent is the
/// one that matches the last event: on while the process runs, off while
/// it does not. While a grace period is pending the process has gone and
/// the entity is still on.
pub proof fn lemma_entity_follows_process(inputs: Seq<Input>)
    requires
        is_watcher_stream(events_of(inputs)),
    ensures
        events_of(inputs).len() == 0 ==> commands(Phase::Listening, inputs).len() == 0
            && phase_after(Phase::Listening, inputs) == Phase::Listening,
        events_of(inputs).len() > 0 ==> commands(Phase::Listening, inputs).len() > 0,
        events_of(inputs).len() > 0 && phase_after(Phase::Listening, inputs) == Phase::Listening
            ==> commands(Phase::Listening, inputs).last() == wanted(
            events_of(inputs).last().state,
        ),
        events_of(inputs).len() > 0 && phase_after(Phase::Listening, inputs) == Phase::Debouncing
            ==> commands(Phase::Listening, inputs).last() == APIState::On && events_of(
            inputs,
        ).last().state == VRState::NotRunning,
    decreases inputs.len(),
{
    if inputs.len() > 0 {
        let shorter = inputs.drop_last();
        let events = events_of(inputs);
        let earlier = events_of(shorter);
        assert(is_watcher_stream(earlier)) by {
            assert(earlier.is_prefix_of(events));
            assert forall|k: int| 0 <= k < earlier.len() implies earlier[k] == events[k] by {}
        }
        lemma_entity_follows_process(shorter);
        if inputs.last() is Event && earlier.len() > 0 {
            let last = earlier.len() - 1;
            assert(events[last].state.spec_is_running() != events[last
                + 1].state.spec_is_running());
        }
    }
}

/// The same of a watcher and a loop put together. When a fresh loop has
/// taken every event that a watcher gave for its samples, then, unless a
/// grace period is pending, the last command sent is the one that matches
/// the state the watcher last saw. While one is pending the watcher last
/// saw the process gone and the entity is on.
pub proof fn lemma_entity_follows_watcher(samples: Seq<Sample>, inputs: Seq<Input>)
    requires
        samples.len() > 0,
        events_of(inputs) == events_emitted(samples),
    ensures
        commands(Phase::Listening, inputs).len() > 0,
        phase_after(Phase::Listening, inputs) == Phase::Listening ==> commands(
            Phase::Listening,
            inputs,
        ).last() == wanted(states_seen(samples).last()),
        phase_after(Phase::Listening, inputs) == Phase::Debouncing ==> commands(
            Phase::Listening,
            inputs,
        ).last() == APIState::On && states_seen(samples).last() == VRState::NotRunning,
{
    lemma_one_event_per_run(samples);
    lemma_entity_follows_process(inputs);
}

} // verus!
