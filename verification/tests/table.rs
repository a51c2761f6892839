use sysinfo::{Pid, ProcessExt, System, SystemExt};
use vr_hass_power::config::CheckConfig;
use vr_hass_power::process::{StateEvent, VRState, Watcher};
use vr_hass_power::table::{find_by_name, get_initial_state};

fn watching(name: &str) -> CheckConfig {
    CheckConfig { process_name: name.to_string(), interval: 3 }
}

/// A name that no process has: control characters round a sentence.
const NOBODY: &str = "\u{1}no process is called this\u{2}";

fn refreshed() -> System {
    let mut system = System::new();
    system.refresh_processes();
    system
}

/// A pid that the table does not list.
fn unlisted(system: &System) -> Pid {
    let mut pid: Pid = 1;
    while system.process(pid).is_some() {
        pid += 1;
    }
    pid
}

#[test]
fn a_table_that_was_never_refreshed_lists_nothing() {
    let system = System::new();
    assert_eq!(find_by_name(&system, "a"), None);
    assert_eq!(find_by_name(&system, ""), None);
    assert_eq!(get_initial_state(&watching("vrserver.exe"), &system), VRState::NotRunning);

    let (mut watcher, _) = Watcher::start(VRState::Running(1));
    assert_eq!(
        watcher.poll(&watching("vrserver.exe"), &system),
        Some(StateEvent { state: VRState::NotRunning, is_initial: false })
    );
    assert_eq!(watcher.poll(&watching("vrserver.exe"), &system), None);
}

#[test]
fn a_name_that_no_process_has_is_not_found() {
    let system = refreshed();
    assert_eq!(find_by_name(&system, NOBODY), None);
    assert_eq!(get_initial_state(&watching(NOBODY), &system), VRState::NotRunning);
}

#[test]
fn what_is_found_is_listed_and_has_the_name_in_it() {
    let system = refreshed();
    let names: Vec<String> = system.processes().values().map(|p| p.name().to_string()).collect();
    for name in names {
        let found = find_by_name(&system, &name).unwrap();
        assert!(system.process(found).unwrap().name().contains(name.as_str()));
        match get_initial_state(&watching(&name), &system) {
            VRState::Running(pid) => {
                assert!(system.process(pid).unwrap().name().contains(name.as_str()))
            }
            VRState::NotRunning => panic!("a listed process was not found"),
        }
    }
}

#[test]
fn a_part_of_a_name_is_enough_to_be_found() {
    let system = refreshed();
    let names: Vec<String> = system.processes().values().map(|p| p.name().to_string()).collect();
    for name in names {
        let part: String = name.chars().skip(1).collect();
        let found = find_by_name(&system, &part).unwrap();
        assert!(system.process(found).unwrap().name().contains(part.as_str()));
    }
}

#[test]
fn polling_a_listed_pid_changes_nothing() {
    let system = refreshed();
    let pids: Vec<Pid> = system.processes().keys().copied().collect();
    for pid in pids {
        let (mut watcher, _) = Watcher::start(VRState::Running(pid));
        // The name is not looked at while the pid is there.
        assert_eq!(watcher.poll(&watching(NOBODY), &system), None);
        assert_eq!(watcher.state(), VRState::Running(pid));
    }
}

#[test]
fn polling_an_unlisted_pid_reports_the_process_gone() {
    let system = refreshed();
    let pid = unlisted(&system);
    let (mut watcher, _) = Watcher::start(VRState::Running(pid));
    assert_eq!(
        watcher.poll(&watching(NOBODY), &system),
        Some(StateEvent { state: VRState::NotRunning, is_initial: false })
    );
    assert_eq!(watcher.state(), VRState::NotRunning);
    assert_eq!(watcher.poll(&watching(NOBODY), &system), None);
}

#[test]
fn polling_while_away_searches_by_name() {
    let system = refreshed();
    let names: Vec<String> = system.processes().values().map(|p| p.name().to_string()).collect();
    for name in names {
        let (mut watcher, _) = Watcher::start(VRState::NotRunning);
        let event = watcher.poll(&watching(&name), &system).unwrap();
        assert!(!event.is_initial);
        assert_eq!(event.state, watcher.state());
        match event.state {
            VRState::Running(pid) => {
                assert!(system.process(pid).unwrap().name().contains(name.as_str()))
            }
            VRState::NotRunning => panic!("a listed process was not found"),
        }
        // Once found, the process is followed by its pid.
        assert_eq!(watcher.poll(&watching(NOBODY), &system), None);
    }
}
