use vr_hass_power::config::PowerConfig;
use vr_hass_power::hass::APIState;
use vr_hass_power::power::{DecisionLoop, Input, Phase, Reaction, Wait};
use vr_hass_power::process::{StateEvent, VRState, Watcher};

fn present(is_initial: bool) -> Input {
    Input::Event(StateEvent { state: VRState::Running(42), is_initial })
}

fn absent(is_initial: bool) -> Input {
    Input::Event(StateEvent { state: VRState::NotRunning, is_initial })
}

/// Feeds the inputs to a fresh loop and collects the commands it sends.
fn commands(delay: u64, inputs: &[Input]) -> Vec<APIState> {
    let mut decisions = DecisionLoop::new(&PowerConfig { delay });
    let mut sent = Vec::new();
    for input in inputs {
        if let Some(command) = decisions.step(*input).command() {
            sent.push(command);
        }
    }
    sent
}

#[test]
fn a_fresh_loop_listens_without_deadline() {
    let decisions = DecisionLoop::new(&PowerConfig { delay: 60 });
    assert_eq!(decisions.phase(), Phase::Listening);
    assert_eq!(decisions.delay(), 60);
    assert_eq!(decisions.wait(), Wait::Forever);
}

#[test]
fn scenario_initial_present_turns_on() {
    assert_eq!(commands(5, &[present(true)]), vec![APIState::On]);
}

#[test]
fn scenario_initial_absent_turns_off() {
    assert_eq!(commands(5, &[absent(true)]), vec![APIState::Off]);
}

#[test]
fn scenario_absence_that_lasts_turns_off_after_the_delay() {
    let mut decisions = DecisionLoop::new(&PowerConfig { delay: 5 });
    assert_eq!(decisions.step(present(true)), Reaction::Switch(APIState::On));
    assert_eq!(decisions.wait(), Wait::Forever);

    // The departure sends nothing yet and asks for a wait of five seconds.
    assert_eq!(decisions.step(absent(false)), Reaction::Debounce);
    assert_eq!(decisions.phase(), Phase::Debouncing);
    assert_eq!(decisions.wait(), Wait::UpTo(5));

    // Only the end of that wait switches off.
    assert_eq!(decisions.step(Input::Elapsed), Reaction::Switch(APIState::Off));
    assert_eq!(decisions.phase(), Phase::Listening);
    assert_eq!(decisions.wait(), Wait::Forever);

    assert_eq!(
        commands(5, &[present(true), absent(false), Input::Elapsed]),
        vec![APIState::On, APIState::Off]
    );
}

#[test]
fn scenario_restart_within_the_delay_never_turns_off() {
    let mut decisions = DecisionLoop::new(&PowerConfig { delay: 5 });
    assert_eq!(decisions.step(present(true)), Reaction::Switch(APIState::On));
    assert_eq!(decisions.step(absent(false)), Reaction::Debounce);
    assert_eq!(decisions.wait(), Wait::UpTo(5));
    assert_eq!(decisions.step(present(false)), Reaction::Skipped);
    assert_eq!(decisions.phase(), Phase::Listening);
    assert_eq!(decisions.wait(), Wait::Forever);

    assert_eq!(commands(5, &[present(true), absent(false), present(false)]), vec![APIState::On]);
}

#[test]
fn two_sightings_in_a_row_turn_on_twice() {
    assert_eq!(commands(5, &[present(true), present(false)]), vec![APIState::On, APIState::On]);
    assert_eq!(
        commands(5, &[present(false), present(false), present(false)]),
        vec![APIState::On, APIState::On, APIState::On]
    );
}

#[test]
fn a_second_departure_settles_the_first() {
    let mut decisions = DecisionLoop::new(&PowerConfig { delay: 5 });
    assert_eq!(decisions.step(absent(false)), Reaction::Debounce);
    assert_eq!(decisions.step(absent(false)), Reaction::Switch(APIState::Off));
    assert_eq!(decisions.phase(), Phase::Listening);
    assert_eq!(commands(5, &[absent(false), absent(false)]), vec![APIState::Off]);
}

#[test]
fn an_initial_absence_in_the_grace_period_turns_off_too() {
    let mut decisions = DecisionLoop::new(&PowerConfig { delay: 5 });
    assert_eq!(decisions.step(absent(false)), Reaction::Debounce);
    assert_eq!(decisions.step(absent(true)), Reaction::Switch(APIState::Off));
    assert_eq!(decisions.phase(), Phase::Listening);
}

#[test]
fn a_departure_followed_by_a_sighting_sends_nothing() {
    assert_eq!(commands(5, &[absent(false), present(false)]), Vec::<APIState>::new());
    assert_eq!(commands(5, &[absent(false), present(true)]), Vec::<APIState>::new());
}

#[test]
fn every_grace_period_ends_with_the_next_input() {
    for input in [present(true), present(false), absent(true), absent(false), Input::Elapsed] {
        let mut decisions = DecisionLoop::new(&PowerConfig { delay: 1 });
        assert_eq!(decisions.step(absent(false)), Reaction::Debounce);
        assert_eq!(decisions.phase(), Phase::Debouncing);
        decisions.step(input);
        assert_eq!(decisions.phase(), Phase::Listening);
    }
}

#[test]
fn elapsed_time_means_nothing_while_listening() {
    let mut decisions = DecisionLoop::new(&PowerConfig { delay: 5 });
    assert_eq!(decisions.step(Input::Elapsed), Reaction::Nothing);
    assert_eq!(decisions.phase(), Phase::Listening);
    assert_eq!(commands(5, &[Input::Elapsed, Input::Elapsed]), Vec::<APIState>::new());
}

#[test]
fn a_delay_of_zero_still_waits_for_the_timer() {
    let mut decisions = DecisionLoop::new(&PowerConfig { delay: 0 });
    assert_eq!(decisions.step(absent(false)), Reaction::Debounce);
    assert_eq!(decisions.wait(), Wait::UpTo(0));
    assert_eq!(decisions.step(Input::Elapsed), Reaction::Switch(APIState::Off));
}

#[test]
fn the_delay_is_kept_across_steps() {
    let mut decisions = DecisionLoop::new(&PowerConfig { delay: 17 });
    for input in [present(true), absent(false), Input::Elapsed, absent(false)] {
        decisions.step(input);
        assert_eq!(decisions.delay(), 17);
    }
    assert_eq!(decisions.wait(), Wait::UpTo(17));
}

#[test]
fn only_a_switch_carries_a_command() {
    assert_eq!(Reaction::Switch(APIState::On).command(), Some(APIState::On));
    assert_eq!(Reaction::Switch(APIState::Off).command(), Some(APIState::Off));
    assert_eq!(Reaction::Debounce.command(), None);
    assert_eq!(Reaction::Skipped.command(), None);
    assert_eq!(Reaction::Nothing.command(), None);
}

#[test]
fn startup_with_the_process_present_turns_on_first() {
    let (_, first) = Watcher::start(VRState::from_lookup(Some(42)));
    let mut decisions = DecisionLoop::new(&PowerConfig { delay: 60 });
    assert_eq!(decisions.step(Input::Event(first)), Reaction::Switch(APIState::On));
    assert_eq!(decisions.wait(), Wait::Forever);
}

#[test]
fn startup_with_the_process_absent_turns_off_without_delay() {
    let (_, first) = Watcher::start(VRState::from_lookup(None));
    let mut decisions = DecisionLoop::new(&PowerConfig { delay: 60 });
    assert_eq!(decisions.step(Input::Event(first)), Reaction::Switch(APIState::Off));
    assert_eq!(decisions.phase(), Phase::Listening);
    assert_eq!(decisions.wait(), Wait::Forever);
}

#[test]
fn the_entity_ends_in_the_state_of_the_process() {
    // Absent at startup, started, gone for good, started again, restarted
    // within the grace period.
    let inputs = [
        absent(true),
        present(false),
        absent(false),
        Input::Elapsed,
        present(false),
        absent(false),
        present(false),
    ];
    assert_eq!(
        commands(5, &inputs),
        vec![APIState::Off, APIState::On, APIState::Off, APIState::On]
    );
}
