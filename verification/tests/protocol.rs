use singleton_guard::error::GuardError;
use singleton_guard::protocol::{Action, Event, Guard, Phase, Transition};
use singleton_guard::terminate::Termination;

fn at(own_pid: u32, phase: Phase) -> Guard {
    Guard { own_pid, phase }
}

fn read(text: &str) -> Event {
    Event::ContentsRead { bytes: text.as_bytes().to_vec() }
}

fn answered(outcome: Termination) -> Event {
    Event::TerminationAnswered { outcome }
}

/// Feeds the events one by one and collects the action asked for after each.
fn drive(own_pid: u32, events: &[Event]) -> (Guard, Vec<Action>) {
    let mut guard = Guard::new(own_pid);
    let mut actions = vec![guard.action()];
    for event in events {
        let Transition { guard: next, action } = guard.step(event).expect("event out of place");
        guard = next;
        actions.push(action);
    }
    (guard, actions)
}

#[test]
fn a_new_guard_resolves_the_path_first() {
    let guard = Guard::new(4821);
    assert_eq!(guard, at(4821, Phase::Start));
    assert_eq!(guard.action(), Action::ResolvePath);
    assert_eq!(guard.outcome(), None);
}

#[test]
fn a_fresh_machine_registers_at_once() {
    let events = [Event::PathResolved, Event::FileOpened, Event::LockAcquired, Event::Written];
    let (guard, actions) = drive(4821, &events);
    assert_eq!(guard, at(4821, Phase::Registered));
    assert_eq!(guard.outcome(), Some(Ok(())));
    assert_eq!(
        actions,
        vec![
            Action::ResolvePath,
            Action::OpenLockFile,
            Action::TryLock,
            Action::WritePid { pid: 4821 },
            Action::Hold,
        ]
    );
}

#[test]
fn a_live_holder_is_terminated() {
    let events = [
        Event::PathResolved,
        Event::FileOpened,
        Event::LockContended,
        read("4821"),
        answered(Termination::Signalled),
        Event::LockAcquired,
        Event::Written,
    ];
    let (guard, actions) = drive(5102, &events);
    assert_eq!(guard, at(5102, Phase::Registered));
    assert_eq!(
        actions,
        vec![
            Action::ResolvePath,
            Action::OpenLockFile,
            Action::TryLock,
            Action::ReadContents,
            Action::Terminate { pid: 4821 },
            Action::LockBlocking,
            Action::WritePid { pid: 5102 },
            Action::Hold,
        ]
    );
}

// The file may name a process, or hold anything else: with the lock free it
// is not read, nobody is terminated, and it is overwritten.
#[test]
fn stale_contents_are_not_consulted() {
    let events = [Event::PathResolved, Event::FileOpened, Event::LockAcquired, Event::Written];
    let (guard, actions) = drive(5102, &events);
    assert_eq!(guard.outcome(), Some(Ok(())));
    assert!(!actions.contains(&Action::ReadContents));
    assert!(actions.iter().all(|a| !matches!(a, Action::Terminate { .. })));
    assert_eq!(actions[3], Action::WritePid { pid: 5102 });
}

#[test]
fn corrupt_contents_are_fatal() {
    let events = [Event::PathResolved, Event::FileOpened, Event::LockContended, read("notanumber")];
    let (guard, actions) = drive(5102, &events);
    assert_eq!(guard, at(5102, Phase::Failed { error: GuardError::CorruptLockContents }));
    assert_eq!(guard.outcome(), Some(Err(GuardError::CorruptLockContents)));
    assert_eq!(actions[4], Action::Abort { error: GuardError::CorruptLockContents });
    assert!(actions.iter().all(|a| !matches!(a, Action::Terminate { .. })));
}

#[test]
fn a_holder_that_is_gone_does_not_stop_the_run() {
    let events = [
        Event::PathResolved,
        Event::FileOpened,
        Event::LockContended,
        read("4821"),
        answered(Termination::AlreadyGone),
        Event::LockAcquired,
        Event::Written,
    ];
    let (guard, actions) = drive(5102, &events);
    assert_eq!(guard.outcome(), Some(Ok(())));
    assert_eq!(actions[5], Action::LockBlocking);
    assert_eq!(actions[6], Action::WritePid { pid: 5102 });
}

#[test]
fn an_empty_contended_file_names_nobody() {
    let guard = at(5102, Phase::Contended);
    let next = guard.step(&read("")).unwrap();
    assert_eq!(next.guard, at(5102, Phase::Reacquiring));
    assert_eq!(next.action, Action::LockBlocking);
}

#[test]
fn a_refused_termination_is_fatal() {
    let guard = at(5102, Phase::Terminating { pid: 4821 });
    let next = guard.step(&answered(Termination::Refused)).unwrap();
    assert_eq!(next.guard.outcome(), Some(Err(GuardError::Termination)));
    assert_eq!(next.action, Action::Abort { error: GuardError::Termination });
}

#[test]
fn an_unresolved_path_is_fatal() {
    let next = Guard::new(1).step(&Event::PathUnresolved).unwrap();
    assert_eq!(next.guard.outcome(), Some(Err(GuardError::PathResolution)));
    assert_eq!(next.action, Action::Abort { error: GuardError::PathResolution });
}

#[test]
fn input_output_failures_are_fatal() {
    for phase in [Phase::Opening, Phase::CheckingLock, Phase::Contended, Phase::Registering] {
        let next = at(1, phase).step(&Event::IoFailed).unwrap();
        assert_eq!(next.guard.outcome(), Some(Err(GuardError::FileIo)));
        assert_eq!(next.action, Action::Abort { error: GuardError::FileIo });
    }
}

#[test]
fn a_lock_that_stays_taken_is_fatal() {
    for event in [Event::LockContended, Event::IoFailed] {
        let next = at(1, Phase::Reacquiring).step(&event).unwrap();
        assert_eq!(next.guard.outcome(), Some(Err(GuardError::Reacquisition)));
        assert_eq!(next.action, Action::Abort { error: GuardError::Reacquisition });
    }
}

#[test]
fn the_largest_identifier_is_terminated_as_written() {
    let next = at(1, Phase::Contended).step(&read("4294967295")).unwrap();
    assert_eq!(next.action, Action::Terminate { pid: u32::MAX });
    let next = at(1, Phase::Contended).step(&read("4294967296")).unwrap();
    assert_eq!(next.action, Action::Abort { error: GuardError::CorruptLockContents });
}

#[test]
fn events_out_of_place_are_not_taken() {
    assert_eq!(Guard::new(1).step(&Event::LockAcquired), None);
    assert_eq!(Guard::new(1).step(&Event::IoFailed), None);
    assert_eq!(at(1, Phase::Opening).step(&Event::PathResolved), None);
    assert_eq!(at(1, Phase::CheckingLock).step(&Event::Written), None);
    assert_eq!(at(1, Phase::CheckingLock).step(&read("4821")), None);
    assert_eq!(at(1, Phase::Contended).step(&Event::LockAcquired), None);
    assert_eq!(at(1, Phase::Terminating { pid: 2 }).step(&Event::IoFailed), None);
    assert_eq!(at(1, Phase::Registering).step(&Event::LockAcquired), None);
}

#[test]
fn final_phases_take_no_event() {
    let done = at(1, Phase::Registered);
    let failed = at(1, Phase::Failed { error: GuardError::FileIo });
    let events = [
        Event::PathResolved,
        Event::PathUnresolved,
        Event::FileOpened,
        Event::LockAcquired,
        Event::LockContended,
        read("1"),
        answered(Termination::Signalled),
        Event::Written,
        Event::IoFailed,
    ];
    for event in &events {
        assert_eq!(done.step(event), None);
        assert_eq!(failed.step(event), None);
    }
    assert_eq!(done.action(), Action::Hold);
    assert_eq!(failed.action(), Action::Abort { error: GuardError::FileIo });
}

#[test]
fn replay_follows_the_steps() {
    let events = vec![
        Event::PathResolved,
        Event::FileOpened,
        Event::LockContended,
        read("4821"),
        answered(Termination::Signalled),
        Event::LockAcquired,
    ];
    assert_eq!(Guard::replay(5102, &events), Some(at(5102, Phase::Registering)));
    assert_eq!(Guard::replay(5102, &Vec::new()), Some(at(5102, Phase::Start)));
    let (guard, _) = drive(5102, &events);
    assert_eq!(Guard::replay(5102, &events), Some(guard));
}

#[test]
fn replay_gives_up_at_an_event_out_of_place() {
    let events = vec![Event::PathResolved, Event::LockAcquired, Event::FileOpened];
    assert_eq!(Guard::replay(1, &events), None);
    let events = vec![Event::PathResolved, Event::FileOpened, Event::LockAcquired, Event::Written, Event::Written];
    assert_eq!(Guard::replay(1, &events), None);
}

#[test]
fn two_launchers_in_turn() {
    let first = [Event::PathResolved, Event::FileOpened, Event::LockAcquired, Event::Written];
    let (_, actions) = drive(4821, &first);
    let written = match actions[3] {
        Action::WritePid { pid } => singleton_guard::pid::render_pid(pid),
        other => panic!("unexpected action {:?}", other),
    };
    assert_eq!(written, b"4821".to_vec());
    let next = at(5102, Phase::Contended).step(&Event::ContentsRead { bytes: written }).unwrap();
    assert_eq!(next.action, Action::Terminate { pid: 4821 });
}

#[test]
fn the_write_is_asked_for_only_once_the_lock_is_granted() {
    let phases = [
        Phase::Start,
        Phase::Opening,
        Phase::CheckingLock,
        Phase::Contended,
        Phase::Terminating { pid: 4821 },
        Phase::Reacquiring,
        Phase::Registering,
        Phase::Registered,
        Phase::Failed { error: GuardError::FileIo },
    ];
    let events = [
        Event::PathResolved,
        Event::PathUnresolved,
        Event::FileOpened,
        Event::LockAcquired,
        Event::LockContended,
        read("4821"),
        read(""),
        read("notanumber"),
        answered(Termination::Signalled),
        answered(Termination::AlreadyGone),
        answered(Termination::Refused),
        Event::Written,
        Event::IoFailed,
    ];
    let mut writes = 0;
    for phase in phases {
        for event in &events {
            if let Some(next) = at(5102, phase).step(event) {
                assert_eq!(next.action, next.guard.action());
                assert_eq!(next.guard.own_pid, 5102);
                if next.guard.phase == Phase::Registering {
                    assert_eq!(*event, Event::LockAcquired);
                    assert_eq!(next.action, Action::WritePid { pid: 5102 });
                    writes += 1;
                }
                if next.guard.phase == Phase::Registered {
                    assert_eq!(phase, Phase::Registering);
                    assert_eq!(*event, Event::Written);
                }
                if let Action::Terminate { pid } = next.action {
                    assert_eq!(phase, Phase::Contended);
                    assert_eq!(pid, 4821);
                }
            }
        }
    }
    assert_eq!(writes, 2);
}

#[test]
fn the_lock_file_has_a_fixed_name() {
    assert_eq!(singleton_guard::protocol::LOCK_FILE_NAME, "start-godot-instance.lock");
}
