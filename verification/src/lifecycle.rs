//! Pure, operation-correlated receive lifecycle for every desktop UI effect.
//!
//! Which picker states there are is fixed here; how the picker moves between them, and what each
//! state means for operations and sessions, is the table that the host hands in.
pub mod laws;

use vstd::prelude::*;

verus! {

/// Where the picker is.
#[derive(Clone, Copy, Debug, Eq, PartialEq, Structural)]
pub enum PickerMachineState {
    Idle,
    Creating,
    Cancelling,
    Pairing,
    Refreshing,
    Transferring,
    Downloading,
    Complete,
    FailedWithoutSession,
    FailedWithSession,
}

/// What moves the picker.
#[derive(Clone, Copy, Debug, Eq, PartialEq, Structural)]
pub enum PickerMachineEvent {
    Start,
    Refresh,
    Download,
    Cancel,
    Retry,
    Reset,
    Created,
    SnapshotEmpty,
    SnapshotFiles,
    AllFilesReceived,
    Downloaded,
    Cancelled,
    Fail,
}

/// One allowed move of the picker.
#[derive(Clone, Copy, Debug, Eq, PartialEq, Structural)]
pub struct PickerTransition {
    pub from: PickerMachineState,
    pub event: PickerMachineEvent,
    pub to: PickerMachineState,
}

/// What a state means.
#[derive(Clone, Copy, Debug, Eq, PartialEq, Structural)]
pub struct PickerMetadata {
    pub in_flight: bool,
    pub requires_session: bool,
}

/// The picker's table: its moves, the states in which an operation runs, and those that own a
/// session.
#[derive(Debug, Eq, PartialEq)]
pub struct PickerMachine {
    pub transitions: Vec<PickerTransition>,
    pub in_flight: Vec<PickerMachineState>,
    pub requires_session: Vec<PickerMachineState>,
}

#[verifier::ext_equal]
pub struct MachineView {
    pub transitions: Seq<PickerTransition>,
    pub in_flight: Seq<PickerMachineState>,
    pub requires_session: Seq<PickerMachineState>,
}

impl View for PickerMachine {
    type V = MachineView;

    open spec fn view(&self) -> MachineView {
        MachineView {
            transitions: self.transitions@,
            in_flight: self.in_flight@,
            requires_session: self.requires_session@,
        }
    }
}

/// Where the first move of the table for that state and event leads, `None` where there is none.
pub open spec fn next_state(
    transitions: Seq<PickerTransition>,
    state: PickerMachineState,
    event: PickerMachineEvent,
) -> Option<PickerMachineState>
    decreases transitions.len(),
{
    if transitions.len() == 0 {
        None
    } else if transitions[0].from == state && transitions[0].event == event {
        Some(transitions[0].to)
    } else {
        next_state(transitions.drop_first(), state, event)
    }
}

impl MachineView {
    pub open spec fn step(self, state: PickerMachineState, event: PickerMachineEvent) -> Option<
        PickerMachineState,
    > {
        next_state(self.transitions, state, event)
    }

    pub open spec fn runs(self, state: PickerMachineState) -> bool {
        self.in_flight.contains(state)
    }

    pub open spec fn owns_session(self, state: PickerMachineState) -> bool {
        self.requires_session.contains(state)
    }
}

fn contains_state(states: &Vec<PickerMachineState>, state: PickerMachineState) -> (res: bool)
    ensures
        res == states@.contains(state),
{
    let mut i: usize = 0;
    while i < states.len()
        invariant
            i <= states@.len(),
            forall|j: int| 0 <= j < i ==> states@[j] != state,
        decreases states@.len() - i,
    {
        if states[i] == state {
            return true;
        }
        i += 1;
    }
    false
}

fn clone_states(states: &Vec<PickerMachineState>) -> (res: Vec<PickerMachineState>)
    ensures
        res@ == states@,
{
    let mut res: Vec<PickerMachineState> = Vec::new();
    let mut i: usize = 0;
    while i < states.len()
        invariant
            i <= states@.len(),
            res@ == states@.take(i as int),
        decreases states@.len() - i,
    {
        res.push(states[i]);
        i += 1;
        assert(res@ =~= states@.take(i as int));
    }
    assert(res@ =~= states@);
    res
}

impl Clone for PickerMachine {
    fn clone(&self) -> (res: Self)
        ensures
            res@ == self@,
    {
        let mut transitions: Vec<PickerTransition> = Vec::new();
        let mut i: usize = 0;
        while i < self.transitions.len()
            invariant
                i <= self.transitions@.len(),
                transitions@ == self.transitions@.take(i as int),
            decreases self.transitions@.len() - i,
        {
            transitions.push(self.transitions[i]);
            i += 1;
            assert(transitions@ =~= self.transitions@.take(i as int));
        }
        assert(transitions@ =~= self.transitions@);
        PickerMachine {
            transitions,
            in_flight: clone_states(&self.in_flight),
            requires_session: clone_states(&self.requires_session),
        }
    }
}

impl PickerMachine {
    /// Where an event leads, `None` where it is not allowed.
    pub fn transition(&self, state: PickerMachineState, event: PickerMachineEvent) -> (res: Option<
        PickerMachineState,
    >)
        ensures
            res == self@.step(state, event),
    {
        let ghost all = self.transitions@;
        let mut i: usize = 0;
        assert(all.skip(0) =~= all);
        while i < self.transitions.len()
            invariant
                i <= self.transitions@.len(),
                all == self.transitions@,
                self@.step(state, event) == next_state(all.skip(i as int), state, event),
            decreases self.transitions@.len() - i,
        {
            assert(all.skip(i as int).drop_first() =~= all.skip(i + 1));
            let entry: PickerTransition = self.transitions[i];
            if entry.from == state && entry.event == event {
                return Some(entry.to);
            }
            i += 1;
        }
        None
    }

    /// What a state means.
    pub fn metadata(&self, state: PickerMachineState) -> (res: PickerMetadata)
        ensures
            res.in_flight == self@.runs(state),
            res.requires_session == self@.owns_session(state),
    {
        PickerMetadata {
            in_flight: contains_state(&self.in_flight, state),
            requires_session: contains_state(&self.requires_session, state),
        }
    }
}

#[derive(Clone, Copy, Debug, Eq, Hash, PartialEq, Structural)]
pub struct OperationId {
    pub number: u64,
}

impl OperationId {
    pub fn new(number: u64) -> (res: Self)
        ensures
            res.number == number,
    {
        OperationId { number }
    }

    pub fn get(self) -> (res: u64)
        ensures
            res == self.number,
    {
        self.number
    }
}

#[derive(Clone, Copy, Debug, Eq, PartialEq, Structural)]
pub enum Command {
    Start,
    Refresh,
    Download,
    Cancel,
    Retry,
    Reset,
}

/// The event that a command is.
pub open spec fn command_event(command: Command) -> PickerMachineEvent {
    match command {
        Command::Start => PickerMachineEvent::Start,
        Command::Refresh => PickerMachineEvent::Refresh,
        Command::Download => PickerMachineEvent::Download,
        Command::Cancel => PickerMachineEvent::Cancel,
        Command::Retry => PickerMachineEvent::Retry,
        Command::Reset => PickerMachineEvent::Reset,
    }
}

impl Command {
    pub fn event(self) -> (res: PickerMachineEvent)
        ensures
            res == command_event(self),
    {
        match self {
            Command::Start => PickerMachineEvent::Start,
            Command::Refresh => PickerMachineEvent::Refresh,
            Command::Download => PickerMachineEvent::Download,
            Command::Cancel => PickerMachineEvent::Cancel,
            Command::Retry => PickerMachineEvent::Retry,
            Command::Reset => PickerMachineEvent::Reset,
        }
    }
}

#[derive(Clone, Copy, Debug, Eq, PartialEq, Structural)]
pub enum Completion {
    Created,
    SnapshotEmpty,
    SnapshotFiles,
    AllFilesReceived,
    Downloaded,
    Cancelled,
    Failed,
}

/// The event that a completion is.
pub open spec fn completion_event(completion: Completion) -> PickerMachineEvent {
    match completion {
        Completion::Created => PickerMachineEvent::Created,
        Completion::SnapshotEmpty => PickerMachineEvent::SnapshotEmpty,
        Completion::SnapshotFiles => PickerMachineEvent::SnapshotFiles,
        Completion::AllFilesReceived => PickerMachineEvent::AllFilesReceived,
        Completion::Downloaded => PickerMachineEvent::Downloaded,
        Completion::Cancelled => PickerMachineEvent::Cancelled,
        Completion::Failed => PickerMachineEvent::Fail,
    }
}

impl Completion {
    pub fn event(self) -> (res: PickerMachineEvent)
        ensures
            res == completion_event(self),
    {
        match self {
            Completion::Created => PickerMachineEvent::Created,
            Completion::SnapshotEmpty => PickerMachineEvent::SnapshotEmpty,
            Completion::SnapshotFiles => PickerMachineEvent::SnapshotFiles,
            Completion::AllFilesReceived => PickerMachineEvent::AllFilesReceived,
            Completion::Downloaded => PickerMachineEvent::Downloaded,
            Completion::Cancelled => PickerMachineEvent::Cancelled,
            Completion::Failed => PickerMachineEvent::Fail,
        }
    }
}

#[derive(Clone, Copy, Debug, Eq, PartialEq, Structural)]
pub enum EffectKind {
    Create,
    Refresh,
    Download,
    Cancel,
}

#[derive(Clone, Copy, Debug, Eq, PartialEq, Structural)]
pub struct Effect {
    pub operation: OperationId,
    pub kind: EffectKind,
}

#[derive(Clone, Copy, Debug, Eq, PartialEq, Structural)]
pub enum LifecycleError {
    InvalidTransition,
    StaleOperation,
    UncontrolledEffect,
    InFlightInvariant,
    SessionInvariant,
}

/// The sentence shown for an error.
pub open spec fn lifecycle_error_text(error: LifecycleError) -> Seq<char> {
    match error {
        LifecycleError::InvalidTransition => "picker event is not allowed in the current state"@,
        LifecycleError::StaleOperation => "worker response does not match the active operation"@,
        LifecycleError::UncontrolledEffect =>
            "state-machine effect has no controlled worker operation"@,
        LifecycleError::InFlightInvariant =>
            "state-machine in-flight metadata disagrees with operation ownership"@,
        LifecycleError::SessionInvariant =>
            "state-machine session metadata disagrees with session ownership"@,
    }
}

impl LifecycleError {
    pub fn message(&self) -> (res: &'static str)
        ensures
            res@ == lifecycle_error_text(*self),
    {
        match self {
            LifecycleError::InvalidTransition => "picker event is not allowed in the current state",
            LifecycleError::StaleOperation => "worker response does not match the active operation",
            LifecycleError::UncontrolledEffect =>
                "state-machine effect has no controlled worker operation",
            LifecycleError::InFlightInvariant =>
                "state-machine in-flight metadata disagrees with operation ownership",
            LifecycleError::SessionInvariant =>
                "state-machine session metadata disagrees with session ownership",
        }
    }
}

#[verifier::ext_equal]
pub struct LifecycleView {
    pub machine: MachineView,
    pub state: PickerMachineState,
    pub active_operation: Option<OperationId>,
    pub next_operation: u64,
}

/// The worker operation that entering a state starts.
pub open spec fn controlled_effect(state: PickerMachineState) -> Option<EffectKind> {
    match state {
        PickerMachineState::Creating => Some(EffectKind::Create),
        PickerMachineState::Refreshing => Some(EffectKind::Refresh),
        PickerMachineState::Downloading => Some(EffectKind::Download),
        PickerMachineState::Cancelling => Some(EffectKind::Cancel),
        _ => None,
    }
}

/// The number after an operation's: the numbers are never zero, and start over after the last.
pub open spec fn following(number: u64) -> u64 {
    if number == u64::MAX {
        1
    } else {
        (number + 1) as u64
    }
}

/// What a command gives, and the lifecycle after it.
pub open spec fn dispatch_outcome(l: LifecycleView, command: Command) -> (
    Result<Option<Effect>, LifecycleError>,
    LifecycleView,
) {
    match l.machine.step(l.state, command_event(command)) {
        None => (Err(LifecycleError::InvalidTransition), l),
        Some(next) => match controlled_effect(next) {
            None => if l.machine.runs(next) {
                (Err(LifecycleError::UncontrolledEffect), l)
            } else {
                (Ok(None), LifecycleView { state: next, active_operation: None, ..l })
            },
            Some(kind) => {
                let operation = OperationId { number: l.next_operation };
                let after = LifecycleView {
                    state: next,
                    active_operation: Some(operation),
                    next_operation: following(l.next_operation),
                    ..l
                };
                if l.machine.runs(next) {
                    (Ok(Some(Effect { operation, kind })), after)
                } else {
                    (Err(LifecycleError::InFlightInvariant), after)
                }
            },
        },
    }
}

/// What a completion gives, and the lifecycle after it.
pub open spec fn complete_outcome(
    l: LifecycleView,
    operation: OperationId,
    completion: Completion,
) -> (Result<(), LifecycleError>, LifecycleView) {
    if l.active_operation != Some(operation) {
        (Err(LifecycleError::StaleOperation), l)
    } else {
        match l.machine.step(l.state, completion_event(completion)) {
            None => (Err(LifecycleError::InvalidTransition), l),
            Some(next) => if l.machine.runs(next) {
                (Err(LifecycleError::UncontrolledEffect), l)
            } else {
                (Ok(()), LifecycleView { state: next, active_operation: None, ..l })
            },
        }
    }
}

/// A table in which exactly the states that start a worker operation are in flight.
pub open spec fn controlled_machine(machine: MachineView) -> bool {
    forall|state: PickerMachineState|
        machine.runs(state) <==> #[trigger] controlled_effect(state) is Some
}

/// An operation is active exactly while the picker is in flight, and no number is zero.
pub open spec fn sound(l: LifecycleView) -> bool {
    &&& l.machine.runs(l.state) <==> l.active_operation is Some
    &&& l.next_operation != 0
    &&& l.active_operation matches Some(operation) ==> operation.number != 0
}

/// A new lifecycle is sound: it waits for nothing.
pub proof fn initial_lifecycle_is_sound(machine: MachineView)
    requires
        controlled_machine(machine),
    ensures
        sound(initial_lifecycle(machine)),
{
    assert(controlled_effect(PickerMachineState::Idle) is None);
}

/// Commands keep the lifecycle sound, and a command that fails changes nothing, where exactly the
/// states that start an operation are in flight.
pub proof fn commands_keep_the_lifecycle_sound(l: LifecycleView, command: Command)
    requires
        controlled_machine(l.machine),
        sound(l),
    ensures
        ({
            let (outcome, after) = dispatch_outcome(l, command);
            &&& sound(after)
            &&& outcome is Err ==> after == l && outcome->Err_0
                == LifecycleError::InvalidTransition
            &&& outcome matches Ok(Some(effect)) ==> after.active_operation == Some(
                effect.operation,
            ) && controlled_effect(after.state) == Some(effect.kind)
            &&& outcome matches Ok(None) ==> after.active_operation is None
        }),
{
}

/// Completions keep the lifecycle sound, and one that fails changes nothing.
pub proof fn completions_keep_the_lifecycle_sound(
    l: LifecycleView,
    operation: OperationId,
    completion: Completion,
)
    requires
        sound(l),
    ensures
        ({
            let (outcome, after) = complete_outcome(l, operation, completion);
            &&& sound(after)
            &&& outcome is Err ==> after == l
            &&& outcome is Ok ==> after.active_operation is None
        }),
{
}

/// A command that the picker does not allow changes nothing, whatever the table says of flights.
pub proof fn illegal_commands_change_nothing(l: LifecycleView, command: Command)
    requires
        l.machine.step(l.state, command_event(command)) is None,
    ensures
        dispatch_outcome(l, command) == (
            Err::<Option<Effect>, _>(LifecycleError::InvalidTransition),
            l,
        ),
{
}

/// A response to any other operation than the active one changes nothing.
pub proof fn stale_responses_change_nothing(
    l: LifecycleView,
    operation: OperationId,
    completion: Completion,
)
    requires
        l.active_operation != Some(operation),
    ensures
        complete_outcome(l, operation, completion) == (
            Err::<(), _>(LifecycleError::StaleOperation),
            l,
        ),
{
}

/// An operation completes once: after it was completed, another response to it is stale.
pub proof fn completed_operations_are_stale(
    l: LifecycleView,
    operation: OperationId,
    completion: Completion,
    again: Completion,
)
    requires
        complete_outcome(l, operation, completion).0 is Ok,
    ensures
        ({
            let after = complete_outcome(l, operation, completion).1;
            complete_outcome(after, operation, again) == (
                Err::<(), _>(LifecycleError::StaleOperation),
                after,
            )
        }),
{
}

/// An operation that is started has another number than the one started before it, also where the
/// numbers start over.
pub proof fn consecutive_operations_differ(l: LifecycleView, first: Command, second: Command)
    requires
        dispatch_outcome(l, first).0 matches Ok(Some(_)),
        dispatch_outcome(dispatch_outcome(l, first).1, second).0 matches Ok(Some(_)),
    ensures
        dispatch_outcome(l, first).0->Ok_0->Some_0.operation != dispatch_outcome(
            dispatch_outcome(l, first).1,
            second,
        ).0->Ok_0->Some_0.operation,
{
}

#[derive(Debug, Eq, PartialEq)]
pub struct Lifecycle {
    machine: PickerMachine,
    state: PickerMachineState,
    active_operation: Option<OperationId>,
    next_operation: u64,
}

impl View for Lifecycle {
    type V = LifecycleView;

    closed spec fn view(&self) -> LifecycleView {
        LifecycleView {
            machine: self.machine@,
            state: self.state,
            active_operation: self.active_operation,
            next_operation: self.next_operation,
        }
    }
}

impl Clone for Lifecycle {
    fn clone(&self) -> (res: Self)
        ensures
            res@ == self@,
    {
        Lifecycle {
            machine: self.machine.clone(),
            state: self.state,
            active_operation: self.active_operation,
            next_operation: self.next_operation,
        }
    }
}

/// The lifecycle at its start.
pub open spec fn initial_lifecycle(machine: MachineView) -> LifecycleView {
    LifecycleView {
        machine,
        state: PickerMachineState::Idle,
        active_operation: None,
        next_operation: 1,
    }
}

fn effect_kind(machine: &PickerMachine, state: PickerMachineState) -> (res: Result<
    Option<EffectKind>,
    LifecycleError,
>)
    ensures
        res == (if controlled_effect(state) is None && machine@.runs(state) {
            Err(LifecycleError::UncontrolledEffect)
        } else {
            Ok(controlled_effect(state))
        }),
{
    match state {
        PickerMachineState::Creating => Ok(Some(EffectKind::Create)),
        PickerMachineState::Refreshing => Ok(Some(EffectKind::Refresh)),
        PickerMachineState::Downloading => Ok(Some(EffectKind::Download)),
        PickerMachineState::Cancelling => Ok(Some(EffectKind::Cancel)),
        _ => if machine.metadata(state).in_flight {
            Err(LifecycleError::UncontrolledEffect)
        } else {
            Ok(None)
        },
    }
}

impl Lifecycle {
    /// The lifecycle at its start, moving as the table says.
    pub fn new(machine: PickerMachine) -> (res: Self)
        ensures
            res@ == initial_lifecycle(machine@),
    {
        Lifecycle {
            machine,
            state: PickerMachineState::Idle,
            active_operation: None,
            next_operation: 1,
        }
    }

    pub fn state(&self) -> (res: PickerMachineState)
        ensures
            res == self@.state,
    {
        self.state
    }

    pub fn active_operation(&self) -> (res: Option<OperationId>)
        ensures
            res == self@.active_operation,
    {
        self.active_operation
    }

    pub fn is_in_flight(&self) -> (res: bool)
        ensures
            res == self@.active_operation is Some,
    {
        self.active_operation.is_some()
    }

    /// Whether the current state owns a session.
    pub fn requires_session(&self) -> (res: bool)
        ensures
            res == self@.machine.owns_session(self@.state),
    {
        self.machine.metadata(self.state).requires_session
    }

    pub fn can(&self, command: Command) -> (res: bool)
        ensures
            res == self@.machine.step(self@.state, command_event(command)) is Some,
    {
        self.machine.transition(self.state, command.event()).is_some()
    }

    /// Perform a command: move, and number the worker operation that the new state starts.
    pub fn dispatch(&mut self, command: Command) -> (res: Result<Option<Effect>, LifecycleError>)
        ensures
            (res, final(self)@) == dispatch_outcome(old(self)@, command),
    {
        let next = match self.machine.transition(self.state, command.event()) {
            Some(next) => next,
            None => return Err(LifecycleError::InvalidTransition),
        };
        let effect = match effect_kind(&self.machine, next) {
            Ok(Some(kind)) => Some(Effect { operation: self.allocate_operation(), kind }),
            Ok(None) => None,
            Err(error) => return Err(error),
        };
        self.state = next;
        self.active_operation = match effect {
            Some(effect) => Some(effect.operation),
            None => None,
        };
        match self.validate_in_flight() {
            Ok(()) => Ok(effect),
            Err(error) => Err(error),
        }
    }

    /// Take the worker's response to an operation over.
    pub fn complete(&mut self, operation: OperationId, completion: Completion) -> (res: Result<
        (),
        LifecycleError,
    >)
        ensures
            (res, final(self)@) == complete_outcome(old(self)@, operation, completion),
    {
        match self.active_operation {
            Some(active) => if active != operation {
                return Err(LifecycleError::StaleOperation);
            },
            None => return Err(LifecycleError::StaleOperation),
        }
        let next = match self.machine.transition(self.state, completion.event()) {
            Some(next) => next,
            None => return Err(LifecycleError::InvalidTransition),
        };
        if self.machine.metadata(next).in_flight {
            return Err(LifecycleError::UncontrolledEffect);
        }
        self.state = next;
        self.active_operation = None;
        self.validate_in_flight()
    }

    /// Whether the state and the caller agree on session ownership.
    pub fn validate_session(&self, has_session: bool) -> (res: Result<(), LifecycleError>)
        ensures
            res == (if self@.machine.owns_session(self@.state) == has_session {
                Ok(())
            } else {
                Err(LifecycleError::SessionInvariant)
            }),
    {
        if self.requires_session() == has_session {
            Ok(())
        } else {
            Err(LifecycleError::SessionInvariant)
        }
    }

    fn allocate_operation(&mut self) -> (res: OperationId)
        ensures
            res.number == old(self)@.next_operation,
            final(self)@ == (LifecycleView {
                next_operation: following(old(self)@.next_operation),
                ..old(self)@
            }),
    {
        let operation = OperationId { number: self.next_operation };
        self.next_operation = match self.next_operation.checked_add(1) {
            Some(next) => next,
            None => 1,
        };
        operation
    }

    fn validate_in_flight(&self) -> (res: Result<(), LifecycleError>)
        ensures
            res == (if self@.machine.runs(self@.state) == self@.active_operation is Some {
                Ok(())
            } else {
                Err(LifecycleError::InFlightInvariant)
            }),
    {
        if self.machine.metadata(self.state).in_flight == self.active_operation.is_some() {
            Ok(())
        } else {
            Err(LifecycleError::InFlightInvariant)
        }
    }
}

} // verus!
