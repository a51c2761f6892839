//! The two-state model of the watched process and the watcher that turns
//! successive looks at the process table into change events.
//!
//! The watcher says which question to ask of the process table
//! ([`Watcher::next_query`]), is told the answer ([`Watcher::observe`]) and
//! reports a [`StateEvent`] when the state moved.

use sysinfo::Pid;
use vstd::prelude::*;

verus! {

/// The current state of the watched process. When running, it includes the pid.
#[derive(Clone, Copy, Debug, PartialEq, Eq, Structural)]
pub enum VRState {
    /// The process is not running.
    NotRunning,
    /// The process is running and has the specified pid.
    Running(Pid),
}

/// A state together with the mark of the very first report after startup.
#[derive(Clone, Copy, Debug, PartialEq, Eq, Structural)]
pub struct StateEvent {
    /// The state that the watcher moved to.
    pub state: VRState,
    /// True for the first event of a watcher and for no other.
    pub is_initial: bool,
}

/// The question that the watcher wants asked of the process table.
#[derive(Clone, Copy, Debug, PartialEq, Eq, Structural)]
pub enum Query {
    /// Search the table for a process with the configured name.
    ByName,
    /// Check only whether the process with this pid still exists.
    ByPid(Pid),
}

/// What the process table said.
#[derive(Clone, Copy, Debug, PartialEq, Eq, Structural)]
pub enum Answer {
    /// Reply to [`Query::ByName`]: the pid of a process with that name, if any.
    Found(Option<Pid>),
    /// Reply to [`Query::ByPid`]: whether the process still exists.
    Alive(bool),
}

/// One instant of the process table, as far as the watcher can ask about it:
/// what a search by name would give and which pids exist.
pub ghost struct Sample {
    pub by_name: Option<Pid>,
    pub alive: Set<Pid>,
}

impl Sample {
    /// The reply that this instant of the table gives to a query.
    pub open spec fn answer(self, query: Query) -> Answer {
        match query {
            Query::ByName => Answer::Found(self.by_name),
            Query::ByPid(pid) => Answer::Alive(self.alive.contains(pid)),
        }
    }
}

impl VRState {
    /// The state that a search of the process table by name shows: running
    /// under the pid that was found, or not running when nothing was found.
    pub open spec fn spec_from_lookup(found: Option<Pid>) -> VRState {
        match found {
            Some(pid) => VRState::Running(pid),
            None => VRState::NotRunning,
        }
    }

    /// While the process is away only a search by name can find it again;
    /// while it runs its pid is known and checking that pid is enough.
    pub open spec fn spec_query(self) -> Query {
        match self {
            VRState::NotRunning => Query::ByName,
            VRState::Running(pid) => Query::ByPid(pid),
        }
    }

    /// The state after an answer. Only the answer to the state's own query
    /// moves it: a find starts a run, a dead pid ends one. An answer to the
    /// other query says nothing about this state and leaves it as it is.
    pub open spec fn spec_advance(self, answer: Answer) -> VRState {
        match (self, answer) {
            (VRState::NotRunning, Answer::Found(Some(pid))) => VRState::Running(pid),
            (VRState::Running(_), Answer::Alive(false)) => VRState::NotRunning,
            _ => self,
        }
    }

    /// The state after one more look at the table: the state's own query is
    /// put to the sample and the reply applied.
    pub open spec fn spec_track(self, sample: Sample) -> VRState {
        self.spec_advance(sample.answer(self.spec_query()))
    }

    /// Whether the process is running, under whatever pid.
    pub open spec fn spec_is_running(self) -> bool {
        self is Running
    }

    /// Turns the result of a search by name into a state.
    pub fn from_lookup(found: Option<Pid>) -> (state: VRState)
        ensures
            state == Self::spec_from_lookup(found),
    {
        match found {
            Some(pid) => VRState::Running(pid),
            None => VRState::NotRunning,
        }
    }

    /// The question to ask of the process table in this state.
    pub fn query(&self) -> (query: Query)
        ensures
            query == self.spec_query(),
    {
        match self {
            VRState::NotRunning => Query::ByName,
            VRState::Running(pid) => Query::ByPid(*pid),
        }
    }

    /// The state after the process table has answered.
    pub fn advance(&self, answer: Answer) -> (next: VRState)
        ensures
            next == self.spec_advance(answer),
    {
        match (self, answer) {
            (VRState::NotRunning, Answer::Found(Some(pid))) => VRState::Running(pid),
            (VRState::Running(_), Answer::Alive(false)) => VRState::NotRunning,
            _ => *self,
        }
    }

    /// Whether the process is running, under whatever pid.
    pub fn is_running(&self) -> (running: bool)
        ensures
            running == self.spec_is_running(),
    {
        match self {
            VRState::NotRunning => false,
            VRState::Running(_) => true,
        }
    }
}

/// The event, if any, that a move from `before` to `after` calls for:
/// none while the state stays, one that is not initial when it changes.
pub open spec fn change_event(before: VRState, after: VRState) -> Option<StateEvent> {
    if before == after {
        None
    } else {
        Some(StateEvent { state: after, is_initial: false })
    }
}

/// Follows the watched process from one look at the process table to the
/// next and reports each change once.
pub struct Watcher {
    state: VRState,
}

impl View for Watcher {
    type V = VRState;

    closed spec fn view(&self) -> VRState {
        self.state
    }
}

impl Watcher {
    /// Begins watching in the state that the first look at the process
    /// table showed. The event that comes back is the only initial one this
    /// watcher gives, and it is given whether or not the process runs.
    pub fn start(initial: VRState) -> (started: (Watcher, StateEvent))
        ensures
            started.0@ == initial,
            started.1 == (StateEvent { state: initial, is_initial: true }),
    {
        (Watcher { state: initial }, StateEvent { state: initial, is_initial: true })
    }

    /// The state as of the last answer.
    pub fn state(&self) -> (state: VRState)
        ensures
            state == self@,
    {
        self.state
    }

    /// The question to ask of the process table at the next poll.
    pub fn next_query(&self) -> (query: Query)
        ensures
            query == self@.spec_query(),
    {
        self.state.query()
    }

    /// Takes the answer of one poll. The state moves as
    /// [`VRState::spec_advance`] says, and an event is returned exactly when
    /// the state changed.
    pub fn observe(&mut self, answer: Answer) -> (event: Option<StateEvent>)
        ensures
            final(self)@ == old(self)@.spec_advance(answer),
            event == change_event(old(self)@, final(self)@),
    {
        let before = self.state;
        let after = before.advance(answer);
        self.state = after;
        if after == before {
            None
        } else {
            Some(StateEvent { state: after, is_initial: false })
        }
    }
}

/// The states that a watcher passes through when it is started on the first
/// sample and shown every later sample in turn: one state for each sample.
pub open spec fn states_seen(samples: Seq<Sample>) -> Seq<VRState>
    decreases samples.len(),
{
    if samples.len() == 0 {
        Seq::empty()
    } else if samples.len() == 1 {
        seq![VRState::spec_from_lookup(samples[0].by_name)]
    } else {
        let earlier = states_seen(samples.drop_last());
        earlier.push(earlier.last().spec_track(samples.last()))
    }
}

/// The events that the same watcher gives, in the order in which it gives
/// them: what [`Watcher::start`] returns for the state that the first sample
/// shows, then whatever [`Watcher::observe`] returns for each later one.
pub open spec fn events_emitted(samples: Seq<Sample>) -> Seq<StateEvent>
    decreases samples.len(),
{
    if samples.len() == 0 {
        Seq::empty()
    } else if samples.len() == 1 {
        seq![
            StateEvent { state: VRState::spec_from_lookup(samples[0].by_name), is_initial: true },
        ]
    } else {
        let earlier = events_emitted(samples.drop_last());
        let before = states_seen(samples.drop_last()).last();
        match change_event(before, before.spec_track(samples.last())) {
            Some(event) => earlier.push(event),
            None => earlier,
        }
    }
}

/// A sequence of states with every repetition of the state just before it
/// taken out: one entry for each unbroken run of equal states.
pub open spec fn runs(states: Seq<VRState>) -> Seq<VRState>
    decreases states.len(),
{
    if states.len() == 0 {
        Seq::empty()
    } else if states.len() == 1 {
        states
    } else if states[0] == states[1] {
        runs(states.drop_first())
    } else {
        seq![states[0]] + runs(states.drop_first())
    }
}

/// What every watcher's events look like, whatever the process table did:
/// the first is the initial one and no other is, and of two events in a row
/// one says running and the other says not running.
pub open spec fn is_watcher_stream(events: Seq<StateEvent>) -> bool {
    &&& forall|k: int| 0 <= k < events.len() ==> ((#[trigger] events[k]).is_initial <==> k == 0)
    &&& forall|k: int|
        0 <= k < events.len() - 1 ==> (#[trigger] events[k]).state.spec_is_running() != events[k
            + 1].state.spec_is_running()
}

/// `runs` read from the back: a last state that repeats the one before it
/// adds nothing, any other last state adds itself.
proof fn lemma_runs_push(states: Seq<VRState>, next: VRState)
    requires
        states.len() > 0,
    ensures
        runs(states).len() > 0,
        runs(states)[0] == states[0],
        runs(states).last() == states.last(),
        runs(states.push(next)) == if next == states.last() {
            runs(states)
        } else {
            runs(states).push(next)
        },
    decreases states.len(),
{
    let longer = states.push(next);
    if states.len() == 1 {
        assert(longer.drop_first() =~= seq![next]);
        assert(runs(longer.drop_first()) == seq![next]);
        if next == states[0] {
            assert(runs(longer) =~= runs(states));
        } else {
            assert(runs(longer) =~= runs(states).push(next));
        }
    } else {
        let tail = states.drop_first();
        lemma_runs_push(tail, next);
        assert(longer.drop_first() =~= tail.push(next));
        assert(seq![states[0]] + runs(tail).push(next) =~= (seq![states[0]] + runs(tail)).push(
            next,
        ));
    }
}

/// The watcher is truthful and never repeats itself. For every non-empty
/// sequence of samples of the process table:
///
/// * it gives exactly one event for each unbroken run of equal states, in
///   the order of the runs, and the event carries the state of its run;
/// * the first event is the initial one and no other is;
/// * two events in a row never carry the same state, and in fact one of
///   them says running and the other not running;
/// * the last event given always carries the state the watcher is in.
pub proof fn lemma_one_event_per_run(samples: Seq<Sample>)
    requires
        samples.len() > 0,
    ensures
        states_seen(samples).len() == samples.len(),
        events_emitted(samples).len() == runs(states_seen(samples)).len(),
        forall|k: int|
            0 <= k < events_emitted(samples).len() ==> (#[trigger] events_emitted(samples)[k]).state
                == runs(states_seen(samples))[k],
        is_watcher_stream(events_emitted(samples)),
        events_emitted(samples).len() > 0,
        events_emitted(samples)[0].state == VRState::spec_from_lookup(samples[0].by_name),
        events_emitted(samples).last().state == states_seen(samples).last(),
    decreases samples.len(),
{
    if samples.len() > 1 {
        let shorter = samples.drop_last();
        lemma_one_event_per_run(shorter);
        lemma_runs_push(
            states_seen(shorter),
            states_seen(shorter).last().spec_track(samples.last()),
        );
    }
}

/// What a watcher has given after fewer samples is the beginning of what it
/// has given after more: events come in the order of the samples and none
/// is taken back.
pub proof fn lemma_events_only_grow(samples: Seq<Sample>, shown: int)
    requires
        0 <= shown <= samples.len(),
    ensures
        events_emitted(samples.take(shown)).is_prefix_of(events_emitted(samples)),
        states_seen(samples.take(shown)).is_prefix_of(states_seen(samples)),
    decreases samples.len(),
{
    if shown == samples.len() {
        assert(samples.take(shown) =~= samples);
    } else {
        let shorter = samples.drop_last();
        lemma_events_only_grow(shorter, shown);
        assert(shorter.take(shown) =~= samples.take(shown));
    }
}

} // verus!
