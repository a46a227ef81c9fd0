//! What holds of every run of the protocol.

use vstd::prelude::*;
use crate::error::GuardError;
use crate::pid::{decimal_digits, law_written_pid_is_read_back, names_pid, recorded_holder};
use crate::protocol::{contents_after, next_phase, pending, run, Action, Event, Phase};
use crate::terminate::Termination;

verus! {

/// The last answer that a run got to a request for the lock: `Some(true)` if
/// the lock was granted, `Some(false)` if it was not, `None` if the run has
/// not asked yet.
pub open spec fn last_lock_answer(events: Seq<Event>) -> Option<bool>
    decreases events.len(),
{
    if events.len() == 0 {
        None
    } else if events.last() is LockAcquired {
        Some(true)
    } else if events.last() is LockContended {
        Some(false)
    } else {
        last_lock_answer(events.drop_last())
    }
}

/// The lock was reported taken by another process at some point of the run.
pub open spec fn met_contention(events: Seq<Event>) -> bool {
    exists|j: int| 0 <= j < events.len() && #[trigger] events[j] is LockContended
}

/// The lock file's contents after a run, given what they were before it: each
/// report of a write stands for the write that the guard had asked for.
pub open spec fn contents_along(own_pid: u32, initial: Seq<u8>, events: Seq<Event>) -> Seq<u8>
    decreases events.len(),
{
    if events.len() == 0 {
        initial
    } else {
        let before = contents_along(own_pid, initial, events.drop_last());
        match run(events.drop_last()) {
            Some(phase) => if events.last() is Written {
                contents_after(before, pending(own_pid, phase))
            } else {
                before
            },
            None => before,
        }
    }
}

/// A run that is one report longer goes one transition further.
pub proof fn lemma_run_push(events: Seq<Event>, event: Event)
    ensures
        run(events.push(event)) == match run(events) {
            Some(phase) => next_phase(phase, event),
            None => None,
        },
{
    assert(events.push(event).drop_last() =~= events);
}

/// A guard never registers without the lock: in every run that has reached
/// the write of the identifier, or has completed it, the last answer to a
/// request for the lock was that this process holds it.
pub proof fn law_registration_needs_the_lock(events: Seq<Event>)
    requires
        run(events) == Some(Phase::Registering) || run(events) == Some(Phase::Registered),
    ensures
        last_lock_answer(events) == Some(true),
    decreases events.len(),
{
    if events.len() > 0 {
        if run(events) == Some(Phase::Registered) {
            law_registration_needs_the_lock(events.drop_last());
        }
    }
}

/// The phases that only a contended run passes through lie behind a report
/// that the lock was taken.
proof fn lemma_contended_phases_met_contention(events: Seq<Event>)
    requires
        run(events) matches Some(phase) && (phase is Contended || phase is Terminating
            || phase is Reacquiring),
    ensures
        met_contention(events),
    decreases events.len(),
{
    if events.len() > 0 {
        let earlier = events.drop_last();
        if events.last() is LockContended {
            assert(events[events.len() - 1] is LockContended);
        } else {
            lemma_contended_phases_met_contention(earlier);
            let j = choose|j: int| 0 <= j < earlier.len() && #[trigger] earlier[j] is LockContended;
            assert(events[j] == earlier[j]);
        }
    }
}

/// The lock's state alone is authoritative, never the file's contents: a run
/// in which the lock was never reported taken does not read the file and asks
/// for no termination, at any point. This covers the first run, where the
/// file was just created, and a file left behind by a holder that has exited.
pub proof fn law_uncontended_run_terminates_nobody(own_pid: u32, events: Seq<Event>, k: int)
    requires
        0 <= k <= events.len(),
        !met_contention(events),
    ensures
        run(events.take(k)) matches Some(phase) ==> !(pending(own_pid, phase) is Terminate)
            && !(pending(own_pid, phase) is ReadContents),
{
    let prefix = events.take(k);
    if run(prefix) matches Some(phase) && (phase is Contended || phase is Terminating) {
        lemma_contended_phases_met_contention(prefix);
        let j = choose|j: int| 0 <= j < prefix.len() && #[trigger] prefix[j] is LockContended;
        assert(events[j] == prefix[j]);
    }
}

/// With the lock free, the guard registers in four steps, whatever the file
/// held: resolve, open, lock, write.
pub proof fn law_uncontended_run_registers()
    ensures
        run(seq![Event::PathResolved, Event::FileOpened, Event::LockAcquired, Event::Written])
            == Some(Phase::Registered),
{
    let e0 = Seq::<Event>::empty();
    lemma_run_push(e0, Event::PathResolved);
    let e1 = e0.push(Event::PathResolved);
    lemma_run_push(e1, Event::FileOpened);
    let e2 = e1.push(Event::FileOpened);
    lemma_run_push(e2, Event::LockAcquired);
    let e3 = e2.push(Event::LockAcquired);
    lemma_run_push(e3, Event::Written);
    assert(e3.push(Event::Written) =~= seq![
        Event::PathResolved,
        Event::FileOpened,
        Event::LockAcquired,
        Event::Written,
    ]);
}

/// Registration overwrites: after a run that ended registered, the file holds
/// the decimal digits of this process's identifier and nothing of what it held
/// before, and the next launcher reads this process's identifier from it.
pub proof fn law_registered_file_names_this_process(
    own_pid: u32,
    initial: Seq<u8>,
    events: Seq<Event>,
)
    requires
        run(events) == Some(Phase::Registered),
    ensures
        contents_along(own_pid, initial, events) == decimal_digits(own_pid as nat),
        recorded_holder(contents_along(own_pid, initial, events)) == Ok::<
            Option<u32>,
            GuardError,
        >(Some(own_pid)),
{
    assert(events.len() > 0);
    assert(run(events.drop_last()) == Some(Phase::Registering));
    assert(events.last() is Written);
    law_written_pid_is_read_back(own_pid);
}

/// A holder that is gone by the time its termination is asked for does not
/// stop the run: the guard goes on to take the lock, and registers once it
/// has it.
pub proof fn law_gone_holder_is_tolerated(events: Seq<Event>)
    requires
        run(events) matches Some(phase) && phase is Terminating,
    ensures
        run(events.push(Event::TerminationAnswered { outcome: Termination::AlreadyGone }))
            == Some(Phase::Reacquiring),
        run(
            events.push(Event::TerminationAnswered { outcome: Termination::AlreadyGone }).push(
                Event::LockAcquired,
            ).push(Event::Written),
        ) == Some(Phase::Registered),
{
    let gone = events.push(Event::TerminationAnswered { outcome: Termination::AlreadyGone });
    lemma_run_push(events, Event::TerminationAnswered { outcome: Termination::AlreadyGone });
    lemma_run_push(gone, Event::LockAcquired);
    lemma_run_push(gone.push(Event::LockAcquired), Event::Written);
}

/// Contents that are neither empty nor a process identifier end the run: the
/// guard fails with `CorruptLockContents`, asks for nothing but the abort, and
/// takes no further report.
pub proof fn law_corrupt_contents_fail(own_pid: u32, events: Seq<Event>, bytes: Vec<u8>, later: Event)
    requires
        run(events) == Some(Phase::Contended),
        bytes@.len() > 0,
        !names_pid(bytes@),
    ensures
        run(events.push(Event::ContentsRead { bytes })) == Some(
            Phase::Failed { error: GuardError::CorruptLockContents },
        ),
        pending(own_pid, Phase::Failed { error: GuardError::CorruptLockContents }) == (
            Action::Abort { error: GuardError::CorruptLockContents }
        ),
        run(events.push(Event::ContentsRead { bytes }).push(later)) is None,
{
    lemma_run_push(events, Event::ContentsRead { bytes });
    lemma_run_push(events.push(Event::ContentsRead { bytes }), later);
}

} // verus!
