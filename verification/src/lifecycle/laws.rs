//! What commands and completions do, said of the table and of the numbers.
use crate::lifecycle::{
    command_event, complete_outcome, completion_event, controlled_effect, dispatch_outcome,
    initial_lifecycle, lifecycle_error_text, next_state, Command, Completion, Effect, EffectKind,
    LifecycleError, LifecycleView, MachineView, OperationId, PickerMachine, PickerMachineEvent,
    PickerMachineState, PickerTransition,
};
use vstd::prelude::*;

verus! {

/// The picker moves by the first entry of its table for the state and the event.
pub proof fn the_first_matching_entry_decides(
    machine: MachineView,
    state: PickerMachineState,
    event: PickerMachineEvent,
    i: int,
)
    requires
        0 <= i <= machine.transitions.len(),
        forall|j: int|
            0 <= j < i ==> !((#[trigger] machine.transitions[j]).from == state
                && machine.transitions[j].event == event),
        i < machine.transitions.len() ==> machine.transitions[i].from == state
            && machine.transitions[i].event == event,
    ensures
        i < machine.transitions.len() ==> machine.step(state, event) == Some(
            machine.transitions[i].to,
        ),
        i == machine.transitions.len() ==> machine.step(state, event) is None,
{
    lemma_first_entry(machine.transitions, state, event, i);
}

proof fn lemma_first_entry(
    transitions: Seq<PickerTransition>,
    state: PickerMachineState,
    event: PickerMachineEvent,
    i: int,
)
    requires
        0 <= i <= transitions.len(),
        forall|j: int|
            0 <= j < i ==> !((#[trigger] transitions[j]).from == state && transitions[j].event
                == event),
        i < transitions.len() ==> transitions[i].from == state && transitions[i].event == event,
    ensures
        next_state(transitions, state, event) == (if i < transitions.len() {
            Some(transitions[i].to)
        } else {
            None
        }),
    decreases transitions.len(),
{
    if i > 0 {
        let rest = transitions.drop_first();
        assert(!(transitions[0].from == state && transitions[0].event == event));
        assert forall|j: int| 0 <= j < i - 1 implies !((#[trigger] rest[j]).from == state
            && rest[j].event == event) by {
            assert(rest[j] == transitions[j + 1]);
        }
        lemma_first_entry(rest, state, event, i - 1);
    }
}

/// A state is in flight, or owns a session, where the table lists it so.
pub proof fn states_mean_what_the_table_lists(machine: MachineView, state: PickerMachineState)
    ensures
        machine.runs(state) <==> exists|i: int|
            0 <= i < machine.in_flight.len() && #[trigger] machine.in_flight[i] == state,
        machine.owns_session(state) <==> exists|i: int|
            0 <= i < machine.requires_session.len() && #[trigger] machine.requires_session[i]
                == state,
{
}

/// Each command and each completion is the event of its name.
pub proof fn commands_and_completions_are_events_of_their_names()
    ensures
        command_event(Command::Start) == PickerMachineEvent::Start,
        command_event(Command::Refresh) == PickerMachineEvent::Refresh,
        command_event(Command::Download) == PickerMachineEvent::Download,
        command_event(Command::Cancel) == PickerMachineEvent::Cancel,
        command_event(Command::Retry) == PickerMachineEvent::Retry,
        command_event(Command::Reset) == PickerMachineEvent::Reset,
        completion_event(Completion::Created) == PickerMachineEvent::Created,
        completion_event(Completion::SnapshotEmpty) == PickerMachineEvent::SnapshotEmpty,
        completion_event(Completion::SnapshotFiles) == PickerMachineEvent::SnapshotFiles,
        completion_event(Completion::AllFilesReceived) == PickerMachineEvent::AllFilesReceived,
        completion_event(Completion::Downloaded) == PickerMachineEvent::Downloaded,
        completion_event(Completion::Cancelled) == PickerMachineEvent::Cancelled,
        completion_event(Completion::Failed) == PickerMachineEvent::Fail,
{
}

/// Exactly four states start an operation, each the one of its name.
pub proof fn four_states_start_operations(state: PickerMachineState)
    ensures
        controlled_effect(state) == Some(EffectKind::Create) <==> state is Creating,
        controlled_effect(state) == Some(EffectKind::Refresh) <==> state is Refreshing,
        controlled_effect(state) == Some(EffectKind::Download) <==> state is Downloading,
        controlled_effect(state) == Some(EffectKind::Cancel) <==> state is Cancelling,
{
}

/// A command that the table allows moves the picker there. Into one of the four states that start
/// an operation it hands out the next number, and the picker waits for that operation; into any
/// other state it starts nothing and waits for nothing.
pub proof fn allowed_commands_move_and_number(
    l: LifecycleView,
    command: Command,
    next: PickerMachineState,
)
    requires
        l.machine.step(l.state, command_event(command)) == Some(next),
        l.machine.runs(next) <==> next is Creating || next is Refreshing || next is Downloading
            || next is Cancelling,
    ensures
        ({
            let (outcome, after) = dispatch_outcome(l, command);
            &&& after.state == next
            &&& after.machine == l.machine
            &&& if next is Creating || next is Refreshing || next is Downloading
                || next is Cancelling {
                &&& outcome matches Ok(Some(effect)) && effect.operation.number == l.next_operation
                    && after.active_operation == Some(effect.operation) && (effect.kind is Create
                    <==> next is Creating) && (effect.kind is Refresh <==> next is Refreshing) && (
                effect.kind is Download <==> next is Downloading) && (effect.kind is Cancel
                    <==> next is Cancelling)
                &&& l.next_operation < 0xffff_ffff_ffff_ffff ==> after.next_operation
                    == l.next_operation + 1
                &&& l.next_operation == 0xffff_ffff_ffff_ffff ==> after.next_operation == 1
            } else {
                &&& outcome == Ok::<_, LifecycleError>(None::<Effect>)
                &&& after.active_operation is None
                &&& after.next_operation == l.next_operation
            }
        }),
{
}

/// A table that disagrees with the four states is reported: a state in flight that starts nothing
/// is not entered, one that starts an operation without being in flight is entered with an error.
pub proof fn disagreeing_tables_are_reported(
    l: LifecycleView,
    command: Command,
    next: PickerMachineState,
)
    requires
        l.machine.step(l.state, command_event(command)) == Some(next),
    ensures
        l.machine.runs(next) && !(next is Creating || next is Refreshing || next is Downloading
            || next is Cancelling) ==> dispatch_outcome(l, command) == (
            Err::<Option<Effect>, _>(LifecycleError::UncontrolledEffect),
            l,
        ),
        !l.machine.runs(next) && (next is Creating || next is Refreshing || next is Downloading
            || next is Cancelling) ==> {
            let (outcome, after) = dispatch_outcome(l, command);
            &&& outcome == Err::<Option<Effect>, _>(LifecycleError::InFlightInvariant)
            &&& after.state == next
            &&& after.active_operation == Some(OperationId { number: l.next_operation })
            &&& after.next_operation == if l.next_operation == 0xffff_ffff_ffff_ffff {
                1
            } else {
                l.next_operation + 1
            }
            &&& after.machine == l.machine
        },
{
}

/// The response to the active operation moves the picker where the table says and ends the
/// operation; the numbering goes on. Where the table has no such move, or the move leads into
/// flight, nothing changes.
pub proof fn responses_end_the_active_operation(
    l: LifecycleView,
    operation: OperationId,
    completion: Completion,
)
    requires
        l.active_operation == Some(operation),
    ensures
        ({
            let (outcome, after) = complete_outcome(l, operation, completion);
            match l.machine.step(l.state, completion_event(completion)) {
                Some(next) => if l.machine.runs(next) {
                    outcome == Err::<(), _>(LifecycleError::UncontrolledEffect) && after == l
                } else {
                    &&& outcome is Ok
                    &&& after.state == next
                    &&& after.active_operation is None
                    &&& after.next_operation == l.next_operation
                    &&& after.machine == l.machine
                },
                None => outcome == Err::<(), _>(LifecycleError::InvalidTransition) && after == l,
            }
        }),
{
}

/// A new lifecycle is idle, waits for nothing and numbers from one.
pub proof fn new_lifecycles_are_idle(machine: MachineView)
    ensures
        initial_lifecycle(machine).machine == machine,
        initial_lifecycle(machine).state is Idle,
        initial_lifecycle(machine).active_operation is None,
        initial_lifecycle(machine).next_operation == 1,
{
}

/// Every refusal has its own sentence.
pub proof fn lifecycle_refusals_are_named(error: LifecycleError)
    ensures
        lifecycle_error_text(error) == (match error {
            LifecycleError::InvalidTransition => "picker event is not allowed in the current state",
            LifecycleError::StaleOperation => "worker response does not match the active operation",
            LifecycleError::UncontrolledEffect =>
                "state-machine effect has no controlled worker operation",
            LifecycleError::InFlightInvariant =>
                "state-machine in-flight metadata disagrees with operation ownership",
            LifecycleError::SessionInvariant =>
                "state-machine session metadata disagrees with session ownership",
        })@,
{
}

/// A picker's table is seen as it is.
pub proof fn tables_are_seen_as_they_are(machine: PickerMachine)
    ensures
        machine@.transitions == machine.transitions@,
        machine@.in_flight == machine.in_flight@,
        machine@.requires_session == machine.requires_session@,
{
}

} // verus!
