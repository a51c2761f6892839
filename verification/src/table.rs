//! The process table as `sysinfo` keeps it, and the watcher's two
//! questions put to it.
//!
//! Nothing here refreshes the table. The caller does that, and then hands
//! the `System` over to be read.

use crate::config::CheckConfig;
use crate::process::{change_event, Answer, Query, Sample, StateEvent, VRState, Watcher};
use sysinfo::{Pid, System};
use vstd::prelude::*;

verus! {

/// `sysinfo::System`, of which only the list of processes is read here.
#[verifier::external_type_specification]
#[verifier::external_body]
pub struct ExSystem(System);

/// The processes that a `System` lists, as of its last refresh: the name
/// of each process under its pid.
pub uninterp spec fn process_names(system: System) -> Map<Pid, Seq<char>>;

/// `part` occurs somewhere in `whole`, as `str::contains` has it.
pub open spec fn is_part_of(part: Seq<char>, whole: Seq<char>) -> bool {
    exists|at: int|
        0 <= at <= whole.len() - part.len() && #[trigger] whole.subrange(at, at + part.len())
            == part
}

/// The table lists a process under `pid` whose name has `name` in it.
pub open spec fn is_candidate(table: Map<Pid, Seq<char>>, name: Seq<char>, pid: Pid) -> bool {
    table.contains_key(pid) && is_part_of(name, table[pid])
}

/// `found` is a fair result of a search of the table by name: a pid that
/// the table lists with a fitting name, or nothing where no such pid is
/// listed. Where several processes fit, any of them may be found.
pub open spec fn is_found(table: Map<Pid, Seq<char>>, name: Seq<char>, found: Option<Pid>) -> bool {
    match found {
        Some(pid) => is_candidate(table, name, pid),
        None => forall|pid: Pid| !is_candidate(table, name, pid),
    }
}

/// `sample` is what the table gives to a watcher of `name`: the pids that
/// it lists, and a fair result of a search by name.
pub open spec fn is_sample_of(sample: Sample, table: Map<Pid, Seq<char>>, name: Seq<char>) -> bool {
    sample.alive == table.dom() && is_found(table, name, sample.by_name)
}

/// `SystemExt::process`, which looks the pid up among the keys of the
/// list of processes: whether the table lists this pid.
#[verifier::external_body]
fn has_process(system: &System, pid: Pid) -> (listed: bool)
    ensures
        listed == process_names(*system).contains_key(pid),
{
    sysinfo::SystemExt::process(system, pid).is_some()
}

/// `SystemExt::process_by_name`, which walks the list of processes and
/// keeps each one whose name contains `name`. The result holds the pids of
/// just those processes. The list is a hash map, so nothing is said of
/// the order in which they come.
#[verifier::external_body]
fn pids_by_name(system: &System, name: &str) -> (pids: Vec<Pid>)
    ensures
        (forall|pid: Pid|
            #![trigger pids@.contains(pid)]
            #![trigger is_candidate(process_names(*system), name@, pid)]
            pids@.contains(pid) <==> is_candidate(process_names(*system), name@, pid)),
{
    sysinfo::SystemExt::process_by_name(system, name).iter().map(
        |process| sysinfo::ProcessExt::pid(*process),
    ).collect()
}

/// Searches the table for a process whose name contains `name` and gives
/// the pid of the first that the table hands out, if there is any.
pub fn find_by_name(system: &System, name: &str) -> (found: Option<Pid>)
    ensures
        is_found(process_names(*system), name@, found),
{
    let pids = pids_by_name(system, name);
    if pids.len() > 0 {
        let pid = pids[0];
        assert(pids@.contains(pid)) by {
            assert(pids@[0] == pid);
        }
        Some(pid)
    } else {
        assert forall|pid: Pid| !is_candidate(process_names(*system), name@, pid) by {
            assert(!pids@.contains(pid));
        }
        None
    }
}

/// Get the state of the watched process by looking it up by name in a
/// table that the caller has just refreshed.
pub fn get_initial_state(config: &CheckConfig, system: &System) -> (state: VRState)
    ensures
        exists|found: Option<Pid>|
            #![trigger VRState::spec_from_lookup(found)]
            is_found(process_names(*system), config.process_name@, found) && state
                == VRState::spec_from_lookup(found),
        state matches VRState::Running(pid) ==> is_candidate(
            process_names(*system),
            config.process_name@,
            pid,
        ),
        state == VRState::NotRunning ==> forall|pid: Pid|
            !is_candidate(process_names(*system), config.process_name@, pid),
{
    let found = find_by_name(system, config.process_name.as_str());
    VRState::from_lookup(found)
}

impl Watcher {
    /// Has one look at a table that the caller has just refreshed. While
    /// the process is away the table is searched by name. While it runs
    /// only its pid is looked up. An event is returned exactly when the
    /// state changed.
    pub fn poll(&mut self, config: &CheckConfig, system: &System) -> (event: Option<StateEvent>)
        ensures
            exists|sample: Sample|
                #![trigger old(self)@.spec_track(sample)]
                is_sample_of(sample, process_names(*system), config.process_name@) && final(self)@
                    == old(self)@.spec_track(sample),
            event == change_event(old(self)@, final(self)@),
            old(self)@ matches VRState::Running(pid) ==> final(self)@ == if process_names(
                *system,
            ).contains_key(pid) {
                old(self)@
            } else {
                VRState::NotRunning
            },
            old(self)@ == VRState::NotRunning ==> is_found(
                process_names(*system),
                config.process_name@,
                match final(self)@ {
                    VRState::Running(pid) => Some(pid),
                    VRState::NotRunning => None,
                },
            ),
    {
        let ghost table = process_names(*system);
        let ghost name = config.process_name@;
        let ghost before = self@;
        let ghost by_name: Option<Pid>;
        let answer = match self.next_query() {
            Query::ByName => {
                let found = find_by_name(system, config.process_name.as_str());
                proof {
                    by_name = found;
                }
                Answer::Found(found)
            },
            Query::ByPid(pid) => {
                proof {
                    by_name = if exists|other: Pid| is_candidate(table, name, other) {
                        Some(choose|other: Pid| is_candidate(table, name, other))
                    } else {
                        None
                    };
                }
                Answer::Alive(has_process(system, pid))
            },
        };
        let event = self.observe(answer);
        proof {
            let sample = Sample { by_name, alive: table.dom() };
            assert(is_sample_of(sample, table, name));
            assert(self@ == before.spec_track(sample));
        }
        event
    }
}

} // verus!
