//! Ending the previous holder.
//!
//! The operating system's process table is read through the `sysinfo` crate.
//! What it answers depends on the machine at that moment, so nothing is
//! claimed of the answers themselves; [`termination_outcome`] says what each
//! possible answer means for the guard.

use vstd::prelude::*;

verus! {

/// The process table of `sysinfo`, opaque to the verifier.
#[verifier::external_type_specification]
#[verifier::external_body]
pub struct ExSystem(sysinfo::System);

/// One entry of the process table of `sysinfo`, opaque to the verifier.
#[verifier::external_type_specification]
#[verifier::external_body]
pub struct ExProcess(sysinfo::Process);

/// What became of a request to terminate a process.
#[derive(Clone, Copy, Debug, PartialEq, Eq, Structural)]
pub enum Termination {
    /// The process existed and the kill signal was delivered to it.
    Signalled,
    /// No such process exists: it has exited already. This is the common case
    /// after a clean exit and is no error.
    AlreadyGone,
    /// The process exists and the operating system refused the request.
    Refused,
}

/// What the operating system answered to one request.
#[derive(Clone, Copy, Debug, PartialEq, Eq, Structural)]
pub struct Attempt {
    /// The process that was to be terminated.
    pub pid: u32,
    /// The process table had an entry for `pid`.
    pub found: bool,
    /// The kill signal was sent and accepted.
    pub signalled: bool,
    /// The signal was not accepted, and a second look at the process table
    /// still showed `pid`.
    pub remains: bool,
}

/// The meaning of an answer. A process that is not there is gone. One that
/// took the signal is terminated. One that did not take it, and is still
/// there afterwards, is a refusal; one that has vanished in between is gone.
pub open spec fn outcome_of(found: bool, signalled: bool, remains: bool) -> Termination {
    if !found {
        Termination::AlreadyGone
    } else if signalled {
        Termination::Signalled
    } else if remains {
        Termination::Refused
    } else {
        Termination::AlreadyGone
    }
}

/// `sysinfo::System::new`: a process table with nothing loaded. Nothing is
/// claimed of it.
#[verifier::external_body]
fn empty_process_table() -> (table: sysinfo::System) {
    sysinfo::System::new()
}

/// `sysinfo::System::refresh_processes` for the single process `pid`, dead
/// entries removed. Nothing is claimed of the table afterwards.
#[verifier::external_body]
fn load_process(table: &mut sysinfo::System, pid: u32) {
    table.refresh_processes(sysinfo::ProcessesToUpdate::Some(&[sysinfo::Pid::from_u32(pid)]), true);
}

/// `sysinfo::System::process`: the table's entry for `pid`, if it has one.
/// Nothing is claimed of the answer.
#[verifier::external_body]
fn find_process(table: &sysinfo::System, pid: u32) -> (entry: Option<&sysinfo::Process>) {
    table.process(sysinfo::Pid::from_u32(pid))
}

/// `sysinfo::Process::kill`: sends the kill signal and reports whether the
/// operating system accepted it. Nothing is claimed of the answer.
#[verifier::external_body]
fn kill_process(process: &sysinfo::Process) -> (sent: bool) {
    process.kill()
}

/// Classifies an answer of the operating system.
pub fn termination_outcome(found: bool, signalled: bool, remains: bool) -> (outcome: Termination)
    ensures
        outcome == outcome_of(found, signalled, remains),
{
    if !found {
        Termination::AlreadyGone
    } else if signalled {
        Termination::Signalled
    } else if remains {
        Termination::Refused
    } else {
        Termination::AlreadyGone
    }
}

impl Attempt {
    /// The meaning of this answer.
    pub open spec fn outcome_spec(self) -> Termination {
        outcome_of(self.found, self.signalled, self.remains)
    }

    /// The meaning of this answer.
    pub fn outcome(&self) -> (outcome: Termination)
        ensures
            outcome == self.outcome_spec(),
    {
        termination_outcome(self.found, self.signalled, self.remains)
    }
}

/// Asks the operating system to terminate `pid`, forcefully.
///
/// The process table is loaded for `pid` alone. A signal is sent only to a
/// process that the table shows, and the table is looked at again only where
/// the signal was not accepted: a report never says `signalled` or `remains`
/// without `found`, nor both. Whether the process is there, and whether the
/// signal is accepted, is the machine's to say.
///
/// The identifier is all that is known of the process. If the holder that
/// wrote it has exited and the operating system has given its identifier to
/// another program, that program is terminated.
pub fn terminate(pid: u32) -> (attempt: Attempt)
    ensures
        attempt.pid == pid,
        attempt.signalled ==> attempt.found,
        attempt.remains ==> attempt.found && !attempt.signalled,
{
    let mut table = empty_process_table();
    load_process(&mut table, pid);
    let signalled = match find_process(&table, pid) {
        None => {
            return Attempt { pid, found: false, signalled: false, remains: false };
        },
        Some(process) => kill_process(process),
    };
    if signalled {
        return Attempt { pid, found: true, signalled: true, remains: false };
    }
    load_process(&mut table, pid);
    let remains = find_process(&table, pid).is_some();
    Attempt { pid, found: true, signalled: false, remains }
}

} // verus!
