//! The guard's protocol, step by step.
//!
//! The guard itself touches neither files nor processes. It names the next
//! thing to do ([`Action`]); its driver does it and reports what happened
//! ([`Event`]); the guard moves on ([`Guard::step`]). A run starts in
//! [`Phase::Start`] and ends in [`Phase::Registered`], with the lock held and
//! the file naming this process, or in [`Phase::Failed`].

use vstd::prelude::*;
use crate::error::GuardError;
use crate::pid::{decimal_digits, parse_pid, recorded_holder};
use crate::terminate::Termination;

verus! {

/// The lock file's name. The file lies in the directory of the running
/// executable, so the slot belongs to one installed binary, not to a project
/// or a working directory.
pub const LOCK_FILE_NAME: &'static str = "start-godot-instance.lock";

/// Where a run of the protocol stands. Each phase but the last two waits for
/// the answer to one action.
#[derive(Clone, Copy, Debug, PartialEq, Eq, Structural)]
pub enum Phase {
    /// Nothing is known yet; the lock file's path is being resolved.
    Start,
    /// The path is known; the file is being created or opened.
    Opening,
    /// The file is open; a non-blocking attempt at the lock is under way.
    CheckingLock,
    /// Another process holds the lock; the file's contents are being read to
    /// learn who.
    Contended,
    /// The holder `pid` is being terminated.
    Terminating { pid: u32 },
    /// The holder is out of the way; the lock is being taken, waiting for it
    /// if need be.
    Reacquiring,
    /// The lock is held; the file is being overwritten with this process's
    /// identifier.
    Registering,
    /// Done: the lock is held and the file names this process.
    Registered,
    /// The run was given up.
    Failed { error: GuardError },
}

/// What the driver is to do next.
#[derive(Clone, Copy, Debug, PartialEq, Eq, Structural)]
pub enum Action {
    /// Find the lock file's path: the directory of the running executable and
    /// [`LOCK_FILE_NAME`].
    ResolvePath,
    /// Open the lock file for reading and writing without truncating it. If
    /// it does not exist, create the missing directories and an empty file.
    OpenLockFile,
    /// Try once, without waiting, to take the exclusive advisory lock.
    TryLock,
    /// Read the whole file.
    ReadContents,
    /// Ask the operating system to terminate `pid`, forcefully.
    Terminate { pid: u32 },
    /// Let go of the failed attempt and take the exclusive lock, waiting a
    /// bounded time for it.
    LockBlocking,
    /// Replace the file's contents by the decimal digits of `pid`.
    WritePid { pid: u32 },
    /// Keep the file open and the lock held for as long as the process lives.
    Hold,
    /// Report `error` and exit with a non-zero status.
    Abort { error: GuardError },
}

/// What happened when the driver did as it was told.
#[derive(Debug, PartialEq, Eq)]
pub enum Event {
    /// The lock file's path is known.
    PathResolved,
    /// The location of the running executable could not be determined.
    PathUnresolved,
    /// The lock file is open.
    FileOpened,
    /// This process now holds the exclusive lock.
    LockAcquired,
    /// Another process holds the lock, or the wait for it ran out.
    LockContended,
    /// The file was read and holds `bytes`.
    ContentsRead { bytes: Vec<u8> },
    /// The operating system answered the termination request.
    TerminationAnswered { outcome: Termination },
    /// The file was overwritten.
    Written,
    /// The operation failed with an input/output error.
    IoFailed,
}

/// The action that a phase waits for.
pub open spec fn pending(own_pid: u32, phase: Phase) -> Action {
    match phase {
        Phase::Start => Action::ResolvePath,
        Phase::Opening => Action::OpenLockFile,
        Phase::CheckingLock => Action::TryLock,
        Phase::Contended => Action::ReadContents,
        Phase::Terminating { pid } => Action::Terminate { pid },
        Phase::Reacquiring => Action::LockBlocking,
        Phase::Registering => Action::WritePid { pid: own_pid },
        Phase::Registered => Action::Hold,
        Phase::Failed { error } => Action::Abort { error },
    }
}

/// Where the guard goes when the contended file's contents are known: on to
/// terminating the process they name; straight to taking the lock where the
/// file is empty and names nobody; to failure where they are corrupt.
pub open spec fn after_contents(bytes: Seq<u8>) -> Phase {
    match recorded_holder(bytes) {
        Ok(Some(pid)) => Phase::Terminating { pid },
        Ok(None) => Phase::Reacquiring,
        Err(error) => Phase::Failed { error },
    }
}

/// Where the guard goes when the termination request is answered. A process
/// that was already gone is as good as one that was terminated; a refusal is
/// fatal, for going on would leave two holders.
pub open spec fn after_termination(outcome: Termination) -> Phase {
    match outcome {
        Termination::Signalled => Phase::Reacquiring,
        Termination::AlreadyGone => Phase::Reacquiring,
        Termination::Refused => Phase::Failed { error: GuardError::Termination },
    }
}

/// The protocol's transitions. `None` where `event` is no answer to the action
/// that `phase` waits for; the two final phases wait for nothing.
///
/// With the lock granted at the first attempt the guard goes straight to the
/// write: the file's contents are read only under contention. Nothing is tried
/// twice. Every failure is final, and one while the lock is taken for the
/// second time, of whatever sort, means that the holder is still in the way.
pub open spec fn next_phase(phase: Phase, event: Event) -> Option<Phase> {
    match (phase, event) {
        (Phase::Start, Event::PathResolved) => Some(Phase::Opening),
        (Phase::Start, Event::PathUnresolved) => Some(
            Phase::Failed { error: GuardError::PathResolution },
        ),
        (Phase::Opening, Event::FileOpened) => Some(Phase::CheckingLock),
        (Phase::Opening, Event::IoFailed) => Some(Phase::Failed { error: GuardError::FileIo }),
        (Phase::CheckingLock, Event::LockAcquired) => Some(Phase::Registering),
        (Phase::CheckingLock, Event::LockContended) => Some(Phase::Contended),
        (Phase::CheckingLock, Event::IoFailed) => Some(Phase::Failed { error: GuardError::FileIo }),
        (Phase::Contended, Event::ContentsRead { bytes }) => Some(after_contents(bytes@)),
        (Phase::Contended, Event::IoFailed) => Some(Phase::Failed { error: GuardError::FileIo }),
        (Phase::Terminating { pid }, Event::TerminationAnswered { outcome }) => Some(
            after_termination(outcome),
        ),
        (Phase::Reacquiring, Event::LockAcquired) => Some(Phase::Registering),
        (Phase::Reacquiring, Event::LockContended) => Some(
            Phase::Failed { error: GuardError::Reacquisition },
        ),
        (Phase::Reacquiring, Event::IoFailed) => Some(
            Phase::Failed { error: GuardError::Reacquisition },
        ),
        (Phase::Registering, Event::Written) => Some(Phase::Registered),
        (Phase::Registering, Event::IoFailed) => Some(Phase::Failed { error: GuardError::FileIo }),
        _ => None,
    }
}

/// The phase that a run from the start has reached after `events`, or `None`
/// if one of them was no answer to what the guard waited for.
pub open spec fn run(events: Seq<Event>) -> Option<Phase>
    decreases events.len(),
{
    if events.len() == 0 {
        Some(Phase::Start)
    } else {
        match run(events.drop_last()) {
            Some(phase) => next_phase(phase, events.last()),
            None => None,
        }
    }
}

/// The lock file's contents once the driver has done `action`: only
/// `WritePid` touches them, and it leaves nothing of what was there.
pub open spec fn contents_after(before: Seq<u8>, action: Action) -> Seq<u8> {
    match action {
        Action::WritePid { pid } => decimal_digits(pid as nat),
        _ => before,
    }
}

/// One process's run of the protocol.
#[derive(Clone, Copy, Debug, PartialEq, Eq)]
pub struct Guard {
    /// The identifier of the process that runs the guard.
    pub own_pid: u32,
    /// Where the run stands.
    pub phase: Phase,
}

/// A transition: the guard after the event, and what to do next.
#[derive(Clone, Copy, Debug, PartialEq, Eq)]
pub struct Transition {
    pub guard: Guard,
    pub action: Action,
}

impl Guard {
    /// The guard after `event`, if `event` answers what it waits for.
    pub open spec fn after(self, event: Event) -> Option<Guard> {
        match next_phase(self.phase, event) {
            Some(phase) => Some(Guard { own_pid: self.own_pid, phase }),
            None => None,
        }
    }

    /// A guard for the process `own_pid`, at the start of its run.
    pub fn new(own_pid: u32) -> (guard: Guard)
        ensures
            guard == (Guard { own_pid, phase: Phase::Start }),
    {
        Guard { own_pid, phase: Phase::Start }
    }

    /// The action that the guard waits for.
    pub fn action(&self) -> (action: Action)
        ensures
            action == pending(self.own_pid, self.phase),
    {
        match self.phase {
            Phase::Start => Action::ResolvePath,
            Phase::Opening => Action::OpenLockFile,
            Phase::CheckingLock => Action::TryLock,
            Phase::Contended => Action::ReadContents,
            Phase::Terminating { pid } => Action::Terminate { pid },
            Phase::Reacquiring => Action::LockBlocking,
            Phase::Registering => Action::WritePid { pid: self.own_pid },
            Phase::Registered => Action::Hold,
            Phase::Failed { error } => Action::Abort { error },
        }
    }

    /// How the run ended: `None` while it is under way, `Some(Ok(()))` once
    /// this process is registered, `Some(Err(error))` once it has failed.
    pub fn outcome(&self) -> (outcome: Option<Result<(), GuardError>>)
        ensures
            outcome == match self.phase {
                Phase::Registered => Some(Ok::<(), GuardError>(())),
                Phase::Failed { error } => Some(Err::<(), GuardError>(error)),
                _ => None,
            },
    {
        match self.phase {
            Phase::Registered => Some(Ok(())),
            Phase::Failed { error } => Some(Err(error)),
            _ => None,
        }
    }

    /// Takes the driver's report and moves on.
    ///
    /// Returns the guard in its next phase together with the action which
    /// that phase waits for, or `None` if `event` is no answer to the action
    /// that this guard waits for.
    pub fn step(&self, event: &Event) -> (next: Option<Transition>)
        ensures
            next == match self.after(*event) {
                Some(guard) => Some(
                    Transition { guard, action: pending(guard.own_pid, guard.phase) },
                ),
                None => None,
            },
    {
        let failed_io = Phase::Failed { error: GuardError::FileIo };
        let phase = match (self.phase, event) {
            (Phase::Start, Event::PathResolved) => Phase::Opening,
            (Phase::Start, Event::PathUnresolved) => Phase::Failed {
                error: GuardError::PathResolution,
            },
            (Phase::Opening, Event::FileOpened) => Phase::CheckingLock,
            (Phase::Opening, Event::IoFailed) => failed_io,
            (Phase::CheckingLock, Event::LockAcquired) => Phase::Registering,
            (Phase::CheckingLock, Event::LockContended) => Phase::Contended,
            (Phase::CheckingLock, Event::IoFailed) => failed_io,
            (Phase::Contended, Event::ContentsRead { bytes }) => {
                match parse_pid(bytes.as_slice()) {
                    Ok(Some(pid)) => Phase::Terminating { pid },
                    Ok(None) => Phase::Reacquiring,
                    Err(error) => Phase::Failed { error },
                }
            },
            (Phase::Contended, Event::IoFailed) => failed_io,
            (Phase::Terminating { pid: _ }, Event::TerminationAnswered { outcome }) => {
                match outcome {
                    Termination::Signalled => Phase::Reacquiring,
                    Termination::AlreadyGone => Phase::Reacquiring,
                    Termination::Refused => Phase::Failed { error: GuardError::Termination },
                }
            },
            (Phase::Reacquiring, Event::LockAcquired) => Phase::Registering,
            (Phase::Reacquiring, Event::LockContended) => Phase::Failed {
                error: GuardError::Reacquisition,
            },
            (Phase::Reacquiring, Event::IoFailed) => Phase::Failed {
                error: GuardError::Reacquisition,
            },
            (Phase::Registering, Event::Written) => Phase::Registered,
            (Phase::Registering, Event::IoFailed) => failed_io,
            _ => {
                return None;
            },
        };
        let guard = Guard { own_pid: self.own_pid, phase };
        Some(Transition { guard, action: guard.action() })
    }

    /// Runs the protocol for `own_pid` from the start over a whole list of
    /// reports. Returns the guard as the last report left it, or `None` if
    /// some report was no answer to what the guard waited for.
    pub fn replay(own_pid: u32, events: &Vec<Event>) -> (end: Option<Guard>)
        ensures
            end == match run(events@) {
                Some(phase) => Some(Guard { own_pid, phase }),
                None => None,
            },
    {
        let mut guard = Guard::new(own_pid);
        let mut i: usize = 0;
        while i < events.len()
            invariant
                i <= events.len(),
                guard.own_pid == own_pid,
                run(events@.take(i as int)) == Some(guard.phase),
            decreases events.len() - i,
        {
            proof {
                assert(events@.take(i + 1).drop_last() =~= events@.take(i as int));
            }
            match guard.step(&events[i]) {
                Some(transition) => {
                    guard = transition.guard;
                },
                None => {
                    proof {
                        lemma_run_stays_undefined(events@, i + 1);
                    }
                    return None;
                },
            }
            i = i + 1;
        }
        proof {
            assert(events@.take(i as int) =~= events@);
        }
        Some(guard)
    }
}

/// Once a report was out of place, no further report mends the run.
pub proof fn lemma_run_stays_undefined(events: Seq<Event>, k: int)
    requires
        0 <= k <= events.len(),
        run(events.take(k)) is None,
    ensures
        run(events) is None,
    decreases events.len() - k,
{
    if k == events.len() {
        assert(events.take(k) =~= events);
    } else {
        assert(events.take(k + 1).drop_last() =~= events.take(k));
        lemma_run_stays_undefined(events, k + 1);
    }
}

} // verus!
