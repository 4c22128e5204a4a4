use ftnl_desktop::lifecycle::{
    Command, Completion, Effect, EffectKind, Lifecycle, LifecycleError, OperationId,
    PickerMachine, PickerMachineEvent, PickerMachineState, PickerTransition,
};

use ftnl_desktop::lifecycle::PickerMachineEvent as E;
use ftnl_desktop::lifecycle::PickerMachineState as S;

fn picker() -> PickerMachine {
    let transitions = [
        (S::Idle, E::Start, S::Creating),
        (S::Complete, E::Start, S::Creating),
        (S::Creating, E::Created, S::Pairing),
        (S::Creating, E::Fail, S::FailedWithoutSession),
        (S::Pairing, E::Refresh, S::Refreshing),
        (S::Pairing, E::Cancel, S::Cancelling),
        (S::Refreshing, E::SnapshotEmpty, S::Pairing),
        (S::Refreshing, E::SnapshotFiles, S::Transferring),
        (S::Refreshing, E::AllFilesReceived, S::Complete),
        (S::Refreshing, E::Fail, S::FailedWithSession),
        (S::Transferring, E::Refresh, S::Refreshing),
        (S::Transferring, E::Download, S::Downloading),
        (S::Transferring, E::Cancel, S::Cancelling),
        (S::Downloading, E::Downloaded, S::Transferring),
        (S::Downloading, E::Fail, S::FailedWithSession),
        (S::Cancelling, E::Cancelled, S::Idle),
        (S::Cancelling, E::Fail, S::FailedWithoutSession),
        (S::FailedWithoutSession, E::Retry, S::Creating),
        (S::FailedWithoutSession, E::Reset, S::Idle),
        (S::FailedWithSession, E::Retry, S::Refreshing),
        (S::FailedWithSession, E::Cancel, S::Cancelling),
        (S::Complete, E::Reset, S::Idle),
    ]
    .into_iter()
    .map(|(from, event, to)| PickerTransition { from, event, to })
    .collect();
    PickerMachine {
        transitions,
        in_flight: vec![S::Creating, S::Refreshing, S::Downloading, S::Cancelling],
        requires_session: vec![
            S::Pairing,
            S::Refreshing,
            S::Transferring,
            S::Downloading,
            S::FailedWithSession,
        ],
    }
}

fn require_effect(machine: &mut Lifecycle, command: Command) -> Effect {
    machine
        .dispatch(command)
        .expect("command should be legal")
        .expect("command should start one controlled effect")
}

#[test]
fn happy_path_preserves_session_and_operation_invariants() {
    let mut machine = Lifecycle::new(picker());
    machine.validate_session(false).unwrap();

    let create = require_effect(&mut machine, Command::Start);
    assert_eq!(create.kind, EffectKind::Create);
    machine.validate_session(false).unwrap();
    machine
        .complete(create.operation, Completion::Created)
        .unwrap();
    machine.validate_session(true).unwrap();

    let refresh = require_effect(&mut machine, Command::Refresh);
    assert_eq!(refresh.kind, EffectKind::Refresh);
    machine
        .complete(refresh.operation, Completion::SnapshotFiles)
        .unwrap();
    machine.validate_session(true).unwrap();

    let download = require_effect(&mut machine, Command::Download);
    assert_eq!(download.kind, EffectKind::Download);
    machine
        .complete(download.operation, Completion::Downloaded)
        .unwrap();
    machine.validate_session(true).unwrap();
}

#[test]
fn stale_and_duplicate_responses_stutter() {
    let mut machine = Lifecycle::new(picker());
    let create = require_effect(&mut machine, Command::Start);
    let before = machine.clone();
    assert_eq!(
        machine.complete(
            OperationId::new(create.operation.get() + 1),
            Completion::Created
        ),
        Err(LifecycleError::StaleOperation)
    );
    assert_eq!(machine, before);

    machine
        .complete(create.operation, Completion::Created)
        .unwrap();
    let after = machine.clone();
    assert_eq!(
        machine.complete(create.operation, Completion::Created),
        Err(LifecycleError::StaleOperation)
    );
    assert_eq!(machine, after);
}

#[test]
fn illegal_commands_are_rejected_without_mutation() {
    let mut machine = Lifecycle::new(picker());
    let before = machine.clone();
    assert_eq!(
        machine.dispatch(Command::Download),
        Err(LifecycleError::InvalidTransition)
    );
    assert_eq!(machine, before);
}

#[test]
fn retry_is_deterministic_for_session_ownership() {
    let mut without_session = Lifecycle::new(picker());
    let create = require_effect(&mut without_session, Command::Start);
    without_session
        .complete(create.operation, Completion::Failed)
        .unwrap();
    without_session.validate_session(false).unwrap();
    assert_eq!(
        require_effect(&mut without_session, Command::Retry).kind,
        EffectKind::Create
    );

    let mut with_session = Lifecycle::new(picker());
    let create = require_effect(&mut with_session, Command::Start);
    with_session
        .complete(create.operation, Completion::Created)
        .unwrap();
    let refresh = require_effect(&mut with_session, Command::Refresh);
    with_session
        .complete(refresh.operation, Completion::Failed)
        .unwrap();
    with_session.validate_session(true).unwrap();
    assert_eq!(
        require_effect(&mut with_session, Command::Retry).kind,
        EffectKind::Refresh
    );
}

#[test]
fn operations_are_numbered_from_one_and_owned_one_at_a_time() {
    let mut machine = Lifecycle::new(picker());
    assert_eq!(machine.state(), PickerMachineState::Idle);
    assert!(!machine.is_in_flight());
    assert!(machine.can(Command::Start));
    assert!(!machine.can(Command::Refresh));
    let create = require_effect(&mut machine, Command::Start);
    assert_eq!(create.operation.get(), 1);
    assert_eq!(machine.active_operation(), Some(create.operation));
    assert!(machine.is_in_flight());
    machine.complete(create.operation, Completion::Created).unwrap();
    assert_eq!(machine.active_operation(), None);
    let refresh = require_effect(&mut machine, Command::Refresh);
    assert_eq!(refresh.operation.get(), 2);
    assert!(machine.requires_session());
    assert_eq!(
        machine.validate_session(false),
        Err(LifecycleError::SessionInvariant)
    );
}

#[test]
fn tables_that_disagree_with_the_effects_are_reported() {
    let mut uncontrolled = picker();
    uncontrolled.in_flight.push(PickerMachineState::Pairing);
    let mut machine = Lifecycle::new(uncontrolled);
    let create = require_effect(&mut machine, Command::Start);
    let before = machine.clone();
    assert_eq!(
        machine.complete(create.operation, Completion::Created),
        Err(LifecycleError::UncontrolledEffect)
    );
    assert_eq!(machine, before);

    let mut idle_start = picker();
    idle_start.transitions.insert(
        0,
        PickerTransition {
            from: PickerMachineState::Idle,
            event: PickerMachineEvent::Start,
            to: PickerMachineState::Complete,
        },
    );
    idle_start.in_flight.push(PickerMachineState::Complete);
    assert_eq!(
        Lifecycle::new(idle_start).dispatch(Command::Start),
        Err(LifecycleError::UncontrolledEffect)
    );

    let mut grounded = picker();
    grounded.in_flight.clear();
    assert_eq!(
        Lifecycle::new(grounded).dispatch(Command::Start),
        Err(LifecycleError::InFlightInvariant)
    );
}

#[test]
fn completions_that_the_picker_does_not_know_change_nothing() {
    let mut machine = Lifecycle::new(picker());
    let create = require_effect(&mut machine, Command::Start);
    let before = machine.clone();
    assert_eq!(
        machine.complete(create.operation, Completion::Downloaded),
        Err(LifecycleError::InvalidTransition)
    );
    assert_eq!(machine, before);
}

#[test]
fn a_reset_starts_nothing() {
    let mut machine = Lifecycle::new(picker());
    let create = require_effect(&mut machine, Command::Start);
    machine.complete(create.operation, Completion::Failed).unwrap();
    assert_eq!(machine.dispatch(Command::Reset), Ok(None));
    assert_eq!(machine.state(), PickerMachineState::Idle);
    assert_eq!(machine.active_operation(), None);
}

#[test]
fn lifecycle_errors_have_sentences() {
    assert_eq!(
        LifecycleError::StaleOperation.message(),
        "worker response does not match the active operation"
    );
}
