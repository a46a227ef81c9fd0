//! Several launchers on one machine.
//!
//! The guard is proved exclusive against a model of what the operating
//! system does with the advisory lock: it grants the lock only while nobody
//! holds it, reports it taken only while somebody does, and takes it back
//! when the holder dies. Those facts are the model's premises. What is proved
//! is the guard's side: whatever the launchers do and in whatever order, a
//! launcher that registers holds the lock, so no two of them are registered
//! at once.
//!
//! A terminated process is taken to be gone at once. One that lingers keeps
//! the lock for that long, which delays the newcomer and changes nothing
//! else.

use vstd::prelude::*;
use crate::error::GuardError;
use crate::protocol::{next_phase, Event, Phase};
use crate::terminate::Termination;

verus! {

/// The singleton slot of one machine.
pub struct Machine {
    /// The process that holds the advisory lock, if any does.
    pub holder: Option<u32>,
    /// The launchers that are alive, each with the phase of its guard.
    pub guards: Map<u32, Phase>,
}

/// Something that happens on the machine.
pub enum Move {
    /// A launcher starts as process `pid`.
    Launch { pid: u32 },
    /// The launcher `pid` does what its guard waits for, and `event` is what
    /// comes of it.
    Act { pid: u32, event: Event },
    /// The launcher `pid` exits, or is killed from elsewhere.
    Exit { pid: u32 },
}

/// A machine on which no launcher runs.
pub open spec fn idle() -> Machine {
    Machine { holder: None, guards: Map::empty() }
}

/// The guard of `pid` has the lock file in hand for writing, or has written
/// it.
pub open spec fn registering_or_registered(m: Machine, pid: u32) -> bool {
    m.guards.contains_key(pid) && (m.guards[pid] is Registering || m.guards[pid] is Registered)
}

/// The process that the launcher `pid` has asked to terminate, where `event`
/// says that the signal went through.
pub open spec fn killed_by(m: Machine, pid: u32, event: Event) -> Option<u32> {
    match (m.guards[pid], event) {
        (
            Phase::Terminating { pid: target },
            Event::TerminationAnswered { outcome: Termination::Signalled },
        ) => Some(target),
        _ => None,
    }
}

/// `mv` can happen on `m`. A process identifier names one live process at a
/// time; a launcher acts only by its guard; the lock is granted only while it
/// is free, and reported taken only while it is held.
pub open spec fn possible(m: Machine, mv: Move) -> bool {
    match mv {
        Move::Launch { pid } => !m.guards.contains_key(pid),
        Move::Act { pid, event } => {
            &&& m.guards.contains_key(pid)
            &&& next_phase(m.guards[pid], event) is Some
            &&& event is LockAcquired ==> m.holder is None
            &&& event is LockContended ==> m.holder is Some
        },
        Move::Exit { pid } => m.guards.contains_key(pid),
    }
}

/// The lock's holder once the process `gone` has died: its lock is released.
pub open spec fn released(holder: Option<u32>, gone: u32) -> Option<u32> {
    if holder == Some(gone) {
        None
    } else {
        holder
    }
}

/// The machine after `mv`.
pub open spec fn after_move(m: Machine, mv: Move) -> Machine {
    match mv {
        Move::Launch { pid } => Machine { holder: m.holder, guards: m.guards.insert(pid, Phase::Start) },
        Move::Act { pid, event } => {
            let moved = m.guards.insert(pid, next_phase(m.guards[pid], event).unwrap());
            let holder = if event is LockAcquired {
                Some(pid)
            } else {
                m.holder
            };
            match killed_by(m, pid, event) {
                Some(target) => Machine {
                    holder: released(holder, target),
                    guards: moved.remove(target),
                },
                None => Machine { holder, guards: moved },
            }
        },
        Move::Exit { pid } => Machine {
            holder: released(m.holder, pid),
            guards: m.guards.remove(pid),
        },
    }
}

/// Every launcher that is registering or registered holds the lock, and the
/// lock is held by a live launcher or by nobody.
pub open spec fn exclusive(m: Machine) -> bool {
    &&& forall|pid: u32| #[trigger] registering_or_registered(m, pid) ==> m.holder == Some(pid)
    &&& m.holder matches Some(pid) ==> m.guards.contains_key(pid)
}

/// An idle machine is exclusive.
pub proof fn law_idle_machine_is_exclusive()
    ensures
        exclusive(idle()),
{
}

/// Whatever happens next, in whatever order the launchers act, the machine
/// stays exclusive.
pub proof fn law_moves_keep_exclusion(m: Machine, mv: Move)
    requires
        exclusive(m),
        possible(m, mv),
    ensures
        exclusive(after_move(m, mv)),
{
    let after = after_move(m, mv);
    assert forall|pid: u32| #[trigger] registering_or_registered(after, pid) implies after.holder
        == Some(pid) by {
        match mv {
            Move::Launch { pid: new } => {
                assert(pid != new);
                assert(registering_or_registered(m, pid));
            },
            Move::Act { pid: actor, event } => {
                if pid != actor {
                    assert(registering_or_registered(m, pid));
                } else if !(event is LockAcquired) {
                    assert(registering_or_registered(m, pid));
                }
            },
            Move::Exit { pid: gone } => {
                assert(registering_or_registered(m, pid));
            },
        }
    }
}

/// Only the lock's state counts: while nobody holds the lock, a launcher's
/// first attempt at it is not answered by contention, so its guard goes on to
/// the write, or fails on an input/output error, and neither reads the file
/// nor terminates anybody, whatever the file holds.
pub proof fn law_free_lock_is_taken_at_once(m: Machine, pid: u32, event: Event)
    requires
        m.holder is None,
        possible(m, Move::Act { pid, event }),
        m.guards[pid] is CheckingLock,
    ensures
        ({
            let phase = after_move(m, Move::Act { pid, event }).guards[pid];
            ||| phase is Registering && after_move(m, Move::Act { pid, event }).holder == Some(pid)
            ||| phase == (Phase::Failed { error: GuardError::FileIo })
        }),
{
}

/// Mutual exclusion: on an exclusive machine no two launchers are registering
/// or registered at once.
pub proof fn law_one_launcher_at_most(m: Machine, first: u32, second: u32)
    requires
        exclusive(m),
        registering_or_registered(m, first),
        registering_or_registered(m, second),
    ensures
        first == second,
{
}

} // verus!
