//! Tests of the remote-injection protocol machine.

use injector::{
    Action, Cause, Event, Injection, Stage, StageFailure, Step, LOAD_WAIT_MILLIS,
};

/// Drives the machine with the given events, recording every action it asks
/// for, and returns the final step together with the actions.
fn drive(target: u32, path: &str, events: &[Event]) -> (Step, Vec<Action>) {
    let (mut machine, first) = Injection::start(target, &path.to_string());
    let mut actions = vec![first];
    let mut last = None;
    for event in events {
        match machine.on_event(*event) {
            Step::Continue(next, action) => {
                actions.push(action);
                machine = next;
                last = Some(Step::Continue(next, action));
            }
            done_or_failed => return (done_or_failed, actions),
        }
    }
    (last.expect("at least one event must be supplied"), actions)
}

#[test]
fn encoded_path_length_counts_wide_units() {
    let (machine, _) = Injection::start(1, &"C:\\mod.dll".to_string());
    assert_eq!(machine.units_len, 10);
    // One character outside the basic plane takes two wide units.
    let (machine, _) = Injection::start(1, &"\u{1D11E}".to_string());
    assert_eq!(machine.units_len, 2);
}

#[test]
fn byte_length_is_twice_units_plus_terminator() {
    let (machine, action) = Injection::start(999, &"C:\\mod.dll".to_string());
    assert_eq!(action, Action::ResolveLoader);
    assert_eq!(machine.stage, Stage::ResolveLoader);
    assert_eq!(machine.units_len, 10);
    match machine.on_event(Event::Resolved(Ok(()))) {
        Step::Continue(next, action) => {
            assert_eq!(next.byte_len, 2 * 10 + 2);
            assert_eq!(action, Action::OpenTarget { pid: 999 });
        }
        _ => panic!("a resolved loader should continue to the open stage"),
    }
}

#[test]
fn full_protocol_succeeds_in_order() {
    let events = [
        Event::Resolved(Ok(())),
        Event::Opened(Ok(())),
        Event::Allocated(Ok(())),
        Event::PathWritten(Ok(22)),
        Event::ThreadSpawned(Ok(false)),
        Event::Waited,
        Event::Zeroed(Ok(22)),
        Event::Released(Ok(())),
        Event::ThreadClosed(Ok(())),
        Event::ProcessClosed(Ok(())),
    ];
    let (outcome, actions) = drive(4242, "C:\\mod.dll", &events);
    assert_eq!(outcome, Step::Done);
    assert_eq!(
        actions,
        vec![
            Action::ResolveLoader,
            Action::OpenTarget { pid: 4242 },
            Action::Allocate { byte_len: 22 },
            Action::WritePath { byte_len: 22 },
            Action::SpawnThread,
            Action::Wait { millis: LOAD_WAIT_MILLIS },
            Action::ZeroOut { byte_len: 22 },
            Action::Release,
            Action::CloseThread,
            Action::CloseProcess,
        ]
    );
    assert_eq!(LOAD_WAIT_MILLIS, 400);
}

#[test]
fn partial_path_write_fails_at_write_stage() {
    let events = [
        Event::Resolved(Ok(())),
        Event::Opened(Ok(())),
        Event::Allocated(Ok(())),
        Event::PathWritten(Ok(21)),
    ];
    let (outcome, actions) = drive(7, "C:\\mod.dll", &events);
    assert_eq!(
        outcome,
        Step::Failed(StageFailure {
            stage: Stage::WritePath,
            cause: Cause::PartialWrite { requested: 22, written: 21 },
        })
    );
    // The protocol stopped before the remote thread was ever requested.
    assert!(!actions.contains(&Action::SpawnThread));
}

#[test]
fn partial_zero_write_fails_at_zero_stage() {
    let events = [
        Event::Resolved(Ok(())),
        Event::Opened(Ok(())),
        Event::Allocated(Ok(())),
        Event::PathWritten(Ok(22)),
        Event::ThreadSpawned(Ok(false)),
        Event::Waited,
        Event::Zeroed(Ok(0)),
    ];
    let (outcome, actions) = drive(7, "C:\\mod.dll", &events);
    assert_eq!(
        outcome,
        Step::Failed(StageFailure {
            stage: Stage::ZeroOut,
            cause: Cause::PartialWrite { requested: 22, written: 0 },
        })
    );
    assert!(!actions.contains(&Action::Release));
}

#[test]
fn null_thread_handle_fails_without_wait_zero_or_release() {
    let events = [
        Event::Resolved(Ok(())),
        Event::Opened(Ok(())),
        Event::Allocated(Ok(())),
        Event::PathWritten(Ok(22)),
        Event::ThreadSpawned(Ok(true)),
    ];
    let (outcome, actions) = drive(7, "C:\\mod.dll", &events);
    assert_eq!(
        outcome,
        Step::Failed(StageFailure { stage: Stage::SpawnThread, cause: Cause::NullThread })
    );
    for action in &actions {
        assert!(!matches!(action, Action::Wait { .. }));
        assert!(!matches!(action, Action::ZeroOut { .. }));
        assert_ne!(*action, Action::Release);
    }
}

#[test]
fn missing_target_fails_at_open_stage_with_os_code() {
    // The identifier names no live process: opening it reports the host's
    // not-found code, and no memory is ever allocated.
    let not_found = -2147024891;
    let events = [Event::Resolved(Ok(())), Event::Opened(Err(not_found))];
    let (outcome, actions) = drive(999, "C:\\mod.dll", &events);
    assert_eq!(
        outcome,
        Step::Failed(StageFailure { stage: Stage::OpenTarget, cause: Cause::Os(not_found) })
    );
    for action in &actions {
        assert!(!matches!(action, Action::Allocate { .. }));
    }
}

#[test]
fn loader_resolution_failure_aborts_first() {
    let (outcome, actions) = drive(1, "C:\\mod.dll", &[Event::Resolved(Err(-5))]);
    assert_eq!(
        outcome,
        Step::Failed(StageFailure { stage: Stage::ResolveLoader, cause: Cause::Os(-5) })
    );
    assert_eq!(actions, vec![Action::ResolveLoader]);
}

#[test]
fn oversized_path_fails_at_size_computation() {
    // A path so long that twice its unit count plus the terminator cannot
    // fit in the address space.
    let machine = Injection {
        stage: Stage::ResolveLoader,
        target: 1,
        units_len: usize::MAX,
        byte_len: 0,
    };
    assert_eq!(
        machine.on_event(Event::Resolved(Ok(()))),
        Step::Failed(StageFailure { stage: Stage::ComputeSize, cause: Cause::SizeOverflow })
    );
}

#[test]
fn os_failures_surface_their_stage() {
    let events = [
        Event::Resolved(Ok(())),
        Event::Opened(Ok(())),
        Event::Allocated(Err(-8)),
    ];
    let (outcome, _) = drive(7, "C:\\mod.dll", &events);
    assert_eq!(
        outcome,
        Step::Failed(StageFailure { stage: Stage::Allocate, cause: Cause::Os(-8) })
    );
}
