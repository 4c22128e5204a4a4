//! The receive page: one tunnel at a time, its files, and what the worker is asked for.
//!
//! Every user action and every worker response goes through the lifecycle. A request that an
//! action hands out is for the worker; where the worker cannot take it, `fail_dispatch` is told.
use crate::clock::{clock_gave, clock_measured, elapsed_nanos, instant_now};
use crate::desktop::worker::{
    effect_matches_request, request_matches, Request, RequestKind, RequestKindView, RequestView,
    Response, ResponseKind, ResponseKindView,
};
use crate::formats::{uuid_text, uuid_to_text};
use crate::lifecycle::{
    command_event, complete_outcome, completion_event, controlled_effect, controlled_machine,
    dispatch_outcome, initial_lifecycle, Command, Completion, Effect, EffectKind, Lifecycle,
    LifecycleView, MachineView, OperationId, PickerMachine, PickerMachineEvent,
    PickerMachineState,
};
use crate::secrets::SecretText;
use crate::std_text::{trim, trimmed};
use crate::text::optional_text;
use crate::transfer::{
    files_view, status_of, FileDescriptor, FileStatus, FileView, ReceiveSession,
    ReceiveSessionView,
};
use std::time::Instant;
use vstd::prelude::*;
use vstd::string::*;

verus! {

/// How long after a refresh the next one is due, in nanoseconds: two seconds.
pub const REFRESH_INTERVAL: u128 = 2_000_000_000;

/// What the picker shows.
#[derive(Clone, Copy, Debug, Eq, PartialEq, Structural)]
pub enum PickerStage {
    Idle,
    Creating,
    Pairing,
    Transferring,
    Complete,
    Failed,
}

/// A file's line in the picker.
#[derive(Debug, Eq, PartialEq)]
pub struct FileProgress {
    pub id: String,
    pub name: String,
    pub bytes_transferred: u64,
    pub size_bytes: u64,
    pub is_complete: bool,
}

#[verifier::ext_equal]
pub struct ProgressView {
    pub id: Seq<char>,
    pub name: Seq<char>,
    pub bytes_transferred: u64,
    pub size_bytes: u64,
    pub is_complete: bool,
}

impl View for FileProgress {
    type V = ProgressView;

    open spec fn view(&self) -> ProgressView {
        ProgressView {
            id: self.id@,
            name: self.name@,
            bytes_transferred: self.bytes_transferred,
            size_bytes: self.size_bytes,
            is_complete: self.is_complete,
        }
    }
}

#[verifier::ext_equal]
pub struct ReceiveView {
    pub lifecycle: LifecycleView,
    pub base_url: Seq<char>,
    pub application_id: Seq<char>,
    pub session: Option<ReceiveSessionView>,
    pub files: Seq<FileView>,
    pub selected_file: Option<u128>,
    pub destination: Seq<char>,
    pub force: bool,
    pub message: Option<Seq<char>>,
    /// The reading of the clock from which the next refresh is timed.
    pub last_refresh: Instant,
}

/// The page before the first tunnel, opened at that reading of the clock.
pub open spec fn initial_page(machine: MachineView, now: Instant) -> ReceiveView {
    ReceiveView {
        lifecycle: initial_lifecycle(machine),
        base_url: "https://api.file-tunnel.dev"@,
        application_id: "ftnl-desktop-app"@,
        session: None,
        files: Seq::empty(),
        selected_file: None,
        destination: Seq::empty(),
        force: false,
        message: None,
        last_refresh: now,
    }
}

// ---- what the files say ----

/// A file whose bytes can be fetched.
pub open spec fn available(status: Seq<char>) -> bool {
    status_of(status) == Some(FileStatus::Available) || status_of(status) == Some(
        FileStatus::Downloaded,
    )
}

/// Whether a file of that status can be downloaded.
pub fn is_available(status: &str) -> (res: bool)
    ensures
        res == available(status@),
{
    match FileStatus::decode(status) {
        Some(FileStatus::Available) => true,
        Some(FileStatus::Downloaded) => true,
        _ => false,
    }
}

pub open spec fn all_downloaded(files: Seq<FileView>) -> bool {
    forall|i: int|
        0 <= i < files.len() ==> status_of((#[trigger] files[i]).status) == Some(
            FileStatus::Downloaded,
        )
}

/// What a list of files completes a refresh with.
pub open spec fn completion_of(files: Seq<FileView>) -> Completion {
    if files.len() == 0 {
        Completion::SnapshotEmpty
    } else if all_downloaded(files) {
        Completion::AllFilesReceived
    } else {
        Completion::SnapshotFiles
    }
}

/// What a list of files completes a refresh with.
pub fn snapshot_completion(files: &[FileDescriptor]) -> (res: Completion)
    ensures
        res == completion_of(files_view(files@)),
{
    if files.len() == 0 {
        return Completion::SnapshotEmpty;
    }
    let ghost all = files_view(files@);
    let mut i: usize = 0;
    while i < files.len()
        invariant
            i <= files@.len(),
            all == files_view(files@),
            files@.len() > 0,
            forall|j: int|
                0 <= j < i ==> status_of((#[trigger] all[j]).status) == Some(
                    FileStatus::Downloaded,
                ),
        decreases files@.len() - i,
    {
        assert(all[i as int] == files@[i as int]@);
        if FileStatus::decode(files[i].status.as_str()) != Some(FileStatus::Downloaded) {
            assert(!all_downloaded(all));
            return Completion::SnapshotFiles;
        }
        i += 1;
    }
    Completion::AllFilesReceived
}

/// The first file of that identifier.
pub open spec fn file_with(files: Seq<FileView>, file_id: u128) -> Option<FileView>
    decreases files.len(),
{
    if files.len() == 0 {
        None
    } else if files[0].file_id == file_id {
        Some(files[0])
    } else {
        file_with(files.drop_first(), file_id)
    }
}

/// The file that is selected and can be downloaded.
pub open spec fn chosen_file(v: ReceiveView) -> Option<FileView> {
    match v.selected_file {
        None => None,
        Some(file_id) => match file_with(v.files, file_id) {
            None => None,
            Some(file) => if available(file.status) {
                Some(file)
            } else {
                None
            },
        },
    }
}

/// A selection that the files still hold.
pub open spec fn kept_selection(files: Seq<FileView>, selected: Option<u128>) -> Option<u128> {
    match selected {
        Some(file_id) => if file_with(files, file_id) is Some {
            Some(file_id)
        } else {
            None
        },
        None => None,
    }
}

pub open spec fn progress_of(file: FileView) -> ProgressView {
    ProgressView {
        id: uuid_text(file.file_id),
        name: file.name,
        bytes_transferred: file.bytes_transferred,
        size_bytes: file.size_bytes,
        is_complete: available(file.status),
    }
}

pub open spec fn stage_of(state: PickerMachineState) -> PickerStage {
    match state {
        PickerMachineState::Idle => PickerStage::Idle,
        PickerMachineState::Creating | PickerMachineState::Cancelling => PickerStage::Creating,
        PickerMachineState::Pairing | PickerMachineState::Refreshing => PickerStage::Pairing,
        PickerMachineState::Transferring | PickerMachineState::Downloading =>
            PickerStage::Transferring,
        PickerMachineState::Complete => PickerStage::Complete,
        PickerMachineState::FailedWithoutSession | PickerMachineState::FailedWithSession =>
            PickerStage::Failed,
    }
}

// ---- what the actions do ----

/// The action was refused: only the message changes.
pub open spec fn rejected(v: ReceiveView) -> ReceiveView {
    ReceiveView {
        message: Some("That action is not available in the current state."@),
        ..v
    }
}

/// No session and no files.
pub open spec fn emptied(v: ReceiveView) -> ReceiveView {
    ReceiveView { session: None, files: Seq::empty(), selected_file: None, ..v }
}

/// The page after the worker could not take an operation.
pub open spec fn failed_dispatch(v: ReceiveView, effect: Effect) -> ReceiveView {
    let (outcome, after) = complete_outcome(v.lifecycle, effect.operation, Completion::Failed);
    if outcome is Ok {
        ReceiveView {
            lifecycle: after,
            session: if after.machine.owns_session(after.state) { v.session } else { None },
            message: Some("The background worker is unavailable. Try again."@),
            ..v
        }
    } else {
        v
    }
}

/// The request of an effect; one that does not match the effect is not handed out.
pub open spec fn issued(v: ReceiveView, effect: Effect, kind: RequestKindView) -> (
    ReceiveView,
    Option<RequestView>,
) {
    if request_matches(effect.kind, kind) {
        (v, Some(RequestView { operation: effect.operation, kind }))
    } else {
        (failed_dispatch(v, effect), None)
    }
}

pub open spec fn create_kind(v: ReceiveView) -> RequestKindView {
    RequestKindView::Create { base_url: v.base_url, application_id: v.application_id }
}

pub open spec fn refresh_kind(v: ReceiveView, session: ReceiveSessionView) -> RequestKindView {
    RequestKindView::Refresh {
        base_url: v.base_url,
        tunnel_id: session.tunnel_id,
        capability: session.desktop_capability,
    }
}

/// Asking for a new tunnel drops the session and the files.
pub open spec fn create_outcome(v: ReceiveView) -> (ReceiveView, Option<RequestView>) {
    let (outcome, lifecycle) = dispatch_outcome(v.lifecycle, Command::Start);
    let moved = ReceiveView { lifecycle, ..v };
    match outcome {
        Ok(Some(effect)) => issued(
            ReceiveView { message: None, ..emptied(moved) },
            effect,
            create_kind(v),
        ),
        _ => (rejected(moved), None),
    }
}

/// A refresh needs a session; where the picker does not allow it, nothing is said. One that
/// starts is timed from `now`.
pub open spec fn refresh_outcome(v: ReceiveView, now: Instant) -> (
    ReceiveView,
    Option<RequestView>,
) {
    match v.session {
        None => (rejected(v), None),
        Some(session) => {
            let (outcome, lifecycle) = dispatch_outcome(v.lifecycle, Command::Refresh);
            let moved = ReceiveView { lifecycle, ..v };
            match outcome {
                Ok(Some(effect)) => issued(
                    ReceiveView { message: None, last_refresh: now, ..moved },
                    effect,
                    refresh_kind(v, session),
                ),
                _ => (moved, None),
            }
        },
    }
}

/// Whether a refresh starts: there is a session, and the picker allows it.
pub open spec fn refresh_starts(v: ReceiveView) -> bool {
    v.session is Some && dispatch_outcome(v.lifecycle, Command::Refresh).0 matches Ok(Some(_))
}

/// A retry creates a new tunnel or refreshes the session, as the picker says.
pub open spec fn retry_outcome(v: ReceiveView) -> (ReceiveView, Option<RequestView>) {
    let (outcome, lifecycle) = dispatch_outcome(v.lifecycle, Command::Retry);
    let moved = ReceiveView { lifecycle, ..v };
    match outcome {
        Ok(Some(effect)) => {
            let clean = ReceiveView { message: None, ..moved };
            match (effect.kind, v.session) {
                (EffectKind::Create, _) => issued(emptied(clean), effect, create_kind(v)),
                (EffectKind::Refresh, Some(session)) => issued(
                    clean,
                    effect,
                    refresh_kind(v, session),
                ),
                _ => (failed_dispatch(clean, effect), None),
            }
        },
        _ => (rejected(moved), None),
    }
}

/// A cancellation drops the session and the files before the worker is asked.
pub open spec fn cancel_outcome(v: ReceiveView) -> (ReceiveView, Option<RequestView>) {
    match v.session {
        None => (rejected(v), None),
        Some(session) => {
            let (outcome, lifecycle) = dispatch_outcome(v.lifecycle, Command::Cancel);
            let moved = ReceiveView { lifecycle, ..v };
            match outcome {
                Ok(Some(effect)) => issued(
                    ReceiveView {
                        message: Some("Closing the secure tunnel…"@),
                        ..emptied(moved)
                    },
                    effect,
                    RequestKindView::Cancel {
                        base_url: v.base_url,
                        tunnel_id: session.tunnel_id,
                        capability: session.desktop_capability,
                    },
                ),
                _ => (rejected(moved), None),
            }
        },
    }
}

/// The path that the user entered, `None` where it is blank.
pub open spec fn entered_path(trimmed_text: Seq<char>) -> Option<Seq<char>> {
    if trimmed_text.len() == 0 {
        None
    } else {
        Some(trimmed_text)
    }
}

/// A download needs a session and an available file; `entered` is the destination without
/// surrounding blanks.
pub open spec fn download_outcome(v: ReceiveView, entered: Seq<char>) -> (
    ReceiveView,
    Option<RequestView>,
) {
    match (v.session, chosen_file(v)) {
        (None, _) => (rejected(v), None),
        (Some(_), None) => (
            ReceiveView { message: Some("Select an available file first."@), ..v },
            None,
        ),
        (Some(session), Some(file)) => {
            let (outcome, lifecycle) = dispatch_outcome(v.lifecycle, Command::Download);
            let moved = ReceiveView { lifecycle, ..v };
            match outcome {
                Ok(Some(effect)) => issued(
                    ReceiveView { message: None, ..moved },
                    effect,
                    RequestKindView::Download {
                        base_url: v.base_url,
                        tunnel_id: session.tunnel_id,
                        capability: session.desktop_capability,
                        file,
                        destination: entered_path(entered),
                        force: v.force,
                    },
                ),
                _ => (rejected(moved), None),
            }
        },
    }
}

/// What a response completes its operation with.
pub open spec fn response_completion(response: ResponseKindView) -> Completion {
    match response {
        ResponseKindView::Created(_) => Completion::Created,
        ResponseKindView::Snapshot(files) => completion_of(files),
        ResponseKindView::Downloaded => Completion::Downloaded,
        ResponseKindView::Cancelled => Completion::Cancelled,
        ResponseKindView::Failed(_) => Completion::Failed,
    }
}

/// The page after the worker's response, and the request that follows from it. A response that
/// the lifecycle refuses changes nothing. A created session, and a refresh that follows a
/// download, are timed from `now`.
pub open spec fn response_outcome(
    v: ReceiveView,
    operation: OperationId,
    response: ResponseKindView,
    now: Instant,
) -> (ReceiveView, Option<RequestView>) {
    let (outcome, lifecycle) = complete_outcome(
        v.lifecycle,
        operation,
        response_completion(response),
    );
    let moved = ReceiveView { lifecycle, ..v };
    if outcome is Err {
        (v, None)
    } else {
        match response {
            ResponseKindView::Created(session) => (
                ReceiveView {
                    session: Some(session),
                    message: None,
                    last_refresh: now,
                    ..moved
                },
                None,
            ),
            ResponseKindView::Snapshot(files) => {
                let listed = ReceiveView {
                    files,
                    selected_file: kept_selection(files, v.selected_file),
                    ..moved
                };
                if completion_of(files) == Completion::AllFilesReceived {
                    (
                        ReceiveView {
                            session: None,
                            message: Some("All files were received."@),
                            ..listed
                        },
                        None,
                    )
                } else {
                    (listed, None)
                }
            },
            ResponseKindView::Downloaded => refresh_outcome(
                ReceiveView { message: Some("File saved successfully."@), ..moved },
                now,
            ),
            ResponseKindView::Cancelled => (
                ReceiveView { message: None, ..emptied(moved) },
                None,
            ),
            ResponseKindView::Failed(message) => (
                ReceiveView {
                    session: if lifecycle.machine.owns_session(lifecycle.state) {
                        v.session
                    } else {
                        None
                    },
                    message: Some(message),
                    ..moved
                },
                None,
            ),
        }
    }
}

/// Whether a response starts the time to the next refresh anew: it completes the creation of a
/// session, or a download that a refresh then follows.
pub open spec fn response_restarts(
    v: ReceiveView,
    operation: OperationId,
    response: ResponseKindView,
) -> bool {
    let (outcome, lifecycle) = complete_outcome(
        v.lifecycle,
        operation,
        response_completion(response),
    );
    outcome is Ok && (response is Created || (response is Downloaded && refresh_starts(
        ReceiveView { lifecycle, ..v },
    )))
}

/// A refresh is due where the picker allows one, a session is open and the interval has passed.
pub open spec fn refresh_due(v: ReceiveView, elapsed: u128) -> bool {
    &&& v.lifecycle.machine.step(v.lifecycle.state, PickerMachineEvent::Refresh) is Some
    &&& v.session is Some
    &&& elapsed >= REFRESH_INTERVAL
}

/// The page after a look at the clock, `elapsed` nanoseconds after the last refresh. A refresh
/// that starts is timed from `now`.
pub open spec fn tick_outcome(v: ReceiveView, elapsed: u128, now: Instant) -> (
    ReceiveView,
    Option<RequestView>,
) {
    if refresh_due(v, elapsed) {
        refresh_outcome(v, now)
    } else {
        (v, None)
    }
}

/// `after` and `request` are what a look at the clock gives, and a refresh that started is timed
/// from a reading of the clock.
pub open spec fn ticked(
    v: ReceiveView,
    elapsed: u128,
    after: ReceiveView,
    request: Option<RequestView>,
) -> bool {
    &&& (after, request) == tick_outcome(v, elapsed, after.last_refresh)
    &&& refresh_due(v, elapsed) && refresh_starts(v) ==> clock_gave(after.last_refresh)
}

// ---- laws ----

/// The picker's state and the page agree on whether there is a session.
pub open spec fn session_agrees(v: ReceiveView) -> bool {
    v.lifecycle.machine.owns_session(v.lifecycle.state) == v.session is Some
}

/// A move keeps to what its event does with the session: a new tunnel, a cancellation and the end
/// of a transfer leave none, a created tunnel opens one, a failure opens none, everything else
/// keeps what there was. The commands of the page start an operation.
pub open spec fn tracked_move(
    machine: MachineView,
    from: PickerMachineState,
    event: PickerMachineEvent,
    to: PickerMachineState,
) -> bool {
    let before = machine.owns_session(from);
    let after = machine.owns_session(to);
    match event {
        PickerMachineEvent::Start | PickerMachineEvent::Cancel => !after && controlled_effect(
            to,
        ) is Some,
        PickerMachineEvent::Refresh | PickerMachineEvent::Download => after == before
            && controlled_effect(to) is Some,
        PickerMachineEvent::Retry => match controlled_effect(to) {
            None => false,
            Some(EffectKind::Create) => !after,
            Some(_) => after == before,
        },
        PickerMachineEvent::Created => after,
        PickerMachineEvent::SnapshotEmpty
        | PickerMachineEvent::SnapshotFiles
        | PickerMachineEvent::Downloaded => after == before,
        PickerMachineEvent::AllFilesReceived | PickerMachineEvent::Cancelled => !after,
        PickerMachineEvent::Fail => after ==> before,
        PickerMachineEvent::Reset => true,
    }
}

/// A table that starts without a session, whose moves all keep to what their events do with the
/// session, and whose states in flight are those that start an operation.
pub open spec fn tracks_sessions(machine: MachineView) -> bool {
    &&& controlled_machine(machine)
    &&& !machine.owns_session(PickerMachineState::Idle)
    &&& forall|from: PickerMachineState, event: PickerMachineEvent|
        (#[trigger] machine.step(from, event)) matches Some(to) ==> tracked_move(
            machine,
            from,
            event,
            to,
        )
}

proof fn lemma_failed_dispatch_agrees(v: ReceiveView, effect: Effect)
    requires
        tracks_sessions(v.lifecycle.machine),
        session_agrees(v),
    ensures
        session_agrees(failed_dispatch(v, effect)),
        failed_dispatch(v, effect).lifecycle.machine == v.lifecycle.machine,
{
    assert(v.lifecycle.machine.step(v.lifecycle.state, PickerMachineEvent::Fail) matches Some(
        to,
    ) ==> tracked_move(v.lifecycle.machine, v.lifecycle.state, PickerMachineEvent::Fail, to));
}

/// A new page agrees with its picker that there is no session.
pub proof fn initial_page_agrees_on_the_session(machine: MachineView, now: Instant)
    requires
        tracks_sessions(machine),
    ensures
        session_agrees(initial_page(machine, now)),
{
}

/// The page never holds credentials that its state does not own, nor lacks those that it owns:
/// every action keeps the picker and the page in agreement on the session.
pub proof fn actions_keep_session_ownership(
    v: ReceiveView,
    entered: Seq<char>,
    effect: Effect,
    now: Instant,
)
    requires
        tracks_sessions(v.lifecycle.machine),
        session_agrees(v),
    ensures
        session_agrees(create_outcome(v).0),
        session_agrees(refresh_outcome(v, now).0),
        session_agrees(retry_outcome(v).0),
        session_agrees(cancel_outcome(v).0),
        session_agrees(download_outcome(v, entered).0),
        session_agrees(failed_dispatch(v, effect)),
{
    let machine = v.lifecycle.machine;
    let state = v.lifecycle.state;
    lemma_failed_dispatch_agrees(v, effect);
    assert forall|event: PickerMachineEvent|
        (#[trigger] machine.step(state, event)) matches Some(to) ==> tracked_move(
            machine,
            state,
            event,
            to,
        ) by {}
    lemma_dispatched_agrees(v, Command::Start, None, v.last_refresh);
    lemma_dispatched_agrees(v, Command::Refresh, None, now);
    lemma_dispatched_agrees(v, Command::Retry, None, v.last_refresh);
    lemma_dispatched_agrees(
        v,
        Command::Cancel,
        Some("Closing the secure tunnel…"@),
        v.last_refresh,
    );
    lemma_dispatched_agrees(v, Command::Download, None, v.last_refresh);
}

/// What a command leaves behind agrees once the session is treated as the event says, also where
/// the operation then fails.
proof fn lemma_dispatched_agrees(
    v: ReceiveView,
    command: Command,
    message: Option<Seq<char>>,
    last_refresh: Instant,
)
    requires
        tracks_sessions(v.lifecycle.machine),
        session_agrees(v),
        !(command is Reset),
    ensures
        ({
            let (outcome, lifecycle) = dispatch_outcome(v.lifecycle, command);
            let moved = ReceiveView { lifecycle, ..v };
            let emptied_page = ReceiveView { message, ..emptied(moved) };
            let kept_page = ReceiveView { message, last_refresh, ..moved };
            &&& lifecycle.machine == v.lifecycle.machine
            &&& !(outcome matches Ok(Some(_))) ==> moved == v
            &&& outcome matches Ok(Some(effect)) ==> if command is Start || command is Cancel || (
            command is Retry && effect.kind == EffectKind::Create) {
                session_agrees(emptied_page) && session_agrees(
                    failed_dispatch(emptied_page, effect),
                )
            } else {
                session_agrees(kept_page) && session_agrees(failed_dispatch(kept_page, effect))
            }
        }),
{
    let machine = v.lifecycle.machine;
    let state = v.lifecycle.state;
    let event = command_event(command);
    let (outcome, lifecycle) = dispatch_outcome(v.lifecycle, command);
    let moved = ReceiveView { lifecycle, ..v };
    if let Some(to) = machine.step(state, event) {
        assert(tracked_move(machine, state, event, to));
        assert(machine.runs(to) <==> controlled_effect(to) is Some);
    }
    if let Ok(Some(effect)) = outcome {
        if command is Start || command is Cancel || (command is Retry && effect.kind
            == EffectKind::Create) {
            lemma_failed_dispatch_agrees(ReceiveView { message, ..emptied(moved) }, effect);
        } else {
            lemma_failed_dispatch_agrees(
                ReceiveView { message, last_refresh, ..moved },
                effect,
            );
        }
    }
}

/// Every response of the worker keeps the picker and the page in agreement on the session.
pub proof fn responses_keep_session_ownership(
    v: ReceiveView,
    operation: OperationId,
    response: ResponseKindView,
    now: Instant,
)
    requires
        tracks_sessions(v.lifecycle.machine),
        session_agrees(v),
    ensures
        session_agrees(response_outcome(v, operation, response, now).0),
{
    let machine = v.lifecycle.machine;
    let state = v.lifecycle.state;
    let event = completion_event(response_completion(response));
    let (outcome, lifecycle) = complete_outcome(
        v.lifecycle,
        operation,
        response_completion(response),
    );
    if let Some(to) = machine.step(state, event) {
        assert(tracked_move(machine, state, event, to));
    }
    if outcome is Ok && response is Downloaded {
        let saved = ReceiveView {
            lifecycle,
            message: Some("File saved successfully."@),
            ..v
        };
        lemma_dispatched_agrees(saved, Command::Refresh, None, now);
    }
}

/// A response to any other operation than the active one changes nothing on the page, the time of
/// the last refresh included, and asks for nothing.
pub proof fn stale_responses_leave_the_page(
    v: ReceiveView,
    operation: OperationId,
    response: ResponseKindView,
    now: Instant,
)
    requires
        v.lifecycle.active_operation != Some(operation),
    ensures
        response_outcome(v, operation, response, now) == (v, None::<RequestView>),
        !response_restarts(v, operation, response),
{
}

/// What is asked of the worker carries the number of the operation that the page then waits for,
/// and is of the kind that the picker's state calls for.
pub proof fn requests_carry_the_active_operation(
    v: ReceiveView,
    entered: Seq<char>,
    elapsed: u128,
    now: Instant,
)
    ensures
        request_is_active(create_outcome(v)),
        request_is_active(refresh_outcome(v, now)),
        request_is_active(tick_outcome(v, elapsed, now)),
        request_is_active(retry_outcome(v)),
        request_is_active(cancel_outcome(v)),
        request_is_active(download_outcome(v, entered)),
{
}

/// The next refresh is timed from the one that starts now; a refused refresh and one that is not
/// yet due leave the time of the last one.
pub proof fn refreshes_are_timed_from_the_last_one(v: ReceiveView, elapsed: u128, now: Instant)
    ensures
        refresh_outcome(v, now).0.last_refresh == (if refresh_starts(v) {
            now
        } else {
            v.last_refresh
        }),
        !refresh_due(v, elapsed) ==> tick_outcome(v, elapsed, now) == (v, None::<RequestView>),
{
}

/// The request, if there is one, is the active operation's.
pub open spec fn request_is_active(outcome: (ReceiveView, Option<RequestView>)) -> bool {
    outcome.1 matches Some(request) ==> {
        &&& outcome.0.lifecycle.active_operation == Some(request.operation)
        &&& controlled_effect(outcome.0.lifecycle.state) matches Some(kind) && request_matches(
            kind,
            request.kind,
        )
    }
}

/// The view of an optional request.
pub open spec fn request_view(request: Option<Request>) -> Option<RequestView> {
    match request {
        Some(request) => Some(request@),
        None => None,
    }
}

/// The receive page.
pub struct ReceiveController {
    lifecycle: Lifecycle,
    base_url: String,
    application_id: String,
    session: Option<ReceiveSession>,
    files: Vec<FileDescriptor>,
    selected_file: Option<u128>,
    destination: String,
    force: bool,
    message: Option<String>,
    last_refresh: Instant,
}

impl View for ReceiveController {
    type V = ReceiveView;

    closed spec fn view(&self) -> ReceiveView {
        ReceiveView {
            lifecycle: self.lifecycle@,
            base_url: self.base_url@,
            application_id: self.application_id@,
            session: match self.session {
                Some(session) => Some(session@),
                None => None,
            },
            files: files_view(self.files@),
            selected_file: self.selected_file,
            destination: self.destination@,
            force: self.force,
            message: optional_text(self.message),
            last_refresh: self.last_refresh,
        }
    }
}

/// Which file of that identifier comes first, the length where there is none.
fn find_file(files: &Vec<FileDescriptor>, file_id: u128) -> (res: usize)
    ensures
        res <= files@.len(),
        file_with(files_view(files@), file_id) == (if res < files@.len() {
            Some(files@[res as int]@)
        } else {
            None
        }),
{
    let ghost all = files_view(files@);
    let mut i: usize = 0;
    assert(all.skip(0) =~= all);
    while i < files.len()
        invariant
            i <= files@.len(),
            all == files_view(files@),
            file_with(all, file_id) == file_with(all.skip(i as int), file_id),
        decreases files@.len() - i,
    {
        assert(all.skip(i as int).drop_first() =~= all.skip(i + 1));
        if files[i].file_id == file_id {
            return i;
        }
        i += 1;
    }
    i
}

impl ReceiveController {
    /// The page before the first tunnel.
    pub fn new(machine: PickerMachine) -> (res: Self)
        ensures
            res@ == initial_page(machine@, res@.last_refresh),
            clock_gave(res@.last_refresh),
    {
        let res = ReceiveController {
            lifecycle: Lifecycle::new(machine),
            base_url: "https://api.file-tunnel.dev".to_owned(),
            application_id: "ftnl-desktop-app".to_owned(),
            session: None,
            files: Vec::new(),
            selected_file: None,
            destination: String::new(),
            force: false,
            message: None,
            last_refresh: instant_now(),
        };
        assert(res@.files =~= Seq::empty());
        assert(res@.destination =~= Seq::empty());
        res
    }

    /// Ask for a new tunnel.
    pub fn create(&mut self) -> (res: Option<Request>)
        ensures
            (final(self)@, request_view(res)) == create_outcome(old(self)@),
    {
        match self.lifecycle.dispatch(Command::Start) {
            Ok(Some(effect)) => {
                self.drop_session();
                self.message = None;
                let kind = self.create_request_kind();
                self.issue(effect, kind)
            },
            _ => {
                self.reject_action();
                None
            },
        }
    }

    /// Ask for the current files.
    pub fn refresh(&mut self) -> (res: Option<Request>)
        ensures
            (final(self)@, request_view(res)) == refresh_outcome(
                old(self)@,
                final(self)@.last_refresh,
            ),
            refresh_starts(old(self)@) ==> clock_gave(final(self)@.last_refresh),
            !refresh_starts(old(self)@) ==> final(self)@.last_refresh == old(self)@.last_refresh,
    {
        let (tunnel_id, capability) = match self.session_authority() {
            Some(authority) => authority,
            None => {
                self.reject_action();
                return None;
            },
        };
        match self.lifecycle.dispatch(Command::Refresh) {
            Ok(Some(effect)) => {
                self.message = None;
                self.last_refresh = instant_now();
                let base_url = self.base_url.clone();
                self.issue(effect, RequestKind::Refresh { base_url, tunnel_id, capability })
            },
            _ => None,
        }
    }

    /// Ask again after a failure.
    pub fn retry(&mut self) -> (res: Option<Request>)
        ensures
            (final(self)@, request_view(res)) == retry_outcome(old(self)@),
    {
        let authority = self.session_authority();
        match self.lifecycle.dispatch(Command::Retry) {
            Ok(Some(effect)) => {
                self.message = None;
                match (effect.kind, authority) {
                    (EffectKind::Create, _) => {
                        self.drop_session();
                        let kind = self.create_request_kind();
                        self.issue(effect, kind)
                    },
                    (EffectKind::Refresh, Some((tunnel_id, capability))) => {
                        let base_url = self.base_url.clone();
                        self.issue(effect, RequestKind::Refresh { base_url, tunnel_id, capability })
                    },
                    _ => {
                        self.fail_dispatch(effect);
                        None
                    },
                }
            },
            _ => {
                self.reject_action();
                None
            },
        }
    }

    /// Close the tunnel. The credentials leave the page at once.
    pub fn cancel(&mut self) -> (res: Option<Request>)
        ensures
            (final(self)@, request_view(res)) == cancel_outcome(old(self)@),
    {
        let (tunnel_id, capability) = match self.session_authority() {
            Some(authority) => authority,
            None => {
                self.reject_action();
                return None;
            },
        };
        match self.lifecycle.dispatch(Command::Cancel) {
            Ok(Some(effect)) => {
                self.drop_session();
                self.message = Some("Closing the secure tunnel…".to_owned());
                let base_url = self.base_url.clone();
                self.issue(effect, RequestKind::Cancel { base_url, tunnel_id, capability })
            },
            _ => {
                self.reject_action();
                None
            },
        }
    }

    /// Fetch the selected file.
    pub fn download(&mut self) -> (res: Option<Request>)
        ensures
            (final(self)@, request_view(res)) == download_outcome(
                old(self)@,
                trimmed(old(self)@.destination),
            ),
    {
        let entered = trim(self.destination.as_str()).to_owned();
        self.download_to(entered)
    }

    /// Fetch the selected file to where the user said, `entered` being the destination without
    /// surrounding blanks.
    pub fn download_to(&mut self, entered: String) -> (res: Option<Request>)
        ensures
            (final(self)@, request_view(res)) == download_outcome(old(self)@, entered@),
    {
        let (tunnel_id, capability) = match self.session_authority() {
            Some(authority) => authority,
            None => {
                self.reject_action();
                return None;
            },
        };
        let file = match self.available_selection() {
            Some(file) => file,
            None => {
                self.message = Some("Select an available file first.".to_owned());
                return None;
            },
        };
        let destination = if entered.as_str().unicode_len() == 0 {
            None
        } else {
            Some(entered)
        };
        match self.lifecycle.dispatch(Command::Download) {
            Ok(Some(effect)) => {
                self.message = None;
                let base_url = self.base_url.clone();
                let force = self.force;
                self.issue(
                    effect,
                    RequestKind::Download {
                        base_url,
                        tunnel_id,
                        capability,
                        file,
                        destination,
                        force,
                    },
                )
            },
            _ => {
                self.reject_action();
                None
            },
        }
    }

    fn issue(&mut self, effect: Effect, kind: RequestKind) -> (res: Option<Request>)
        ensures
            (final(self)@, request_view(res)) == issued(old(self)@, effect, kind@),
    {
        if effect_matches_request(effect.kind, &kind) {
            Some(Request { operation: effect.operation, kind })
        } else {
            self.fail_dispatch(effect);
            None
        }
    }

    /// The worker could not take an operation.
    pub fn fail_dispatch(&mut self, effect: Effect)
        ensures
            final(self)@ == failed_dispatch(old(self)@, effect),
    {
        if self.lifecycle.complete(effect.operation, Completion::Failed).is_ok() {
            if !self.lifecycle.requires_session() {
                self.session = None;
            }
            self.message = Some("The background worker is unavailable. Try again.".to_owned());
        }
    }

    /// Take the worker's response over, and give the request that follows from it.
    pub fn process_response(&mut self, response: Response) -> (res: Option<Request>)
        ensures
            (final(self)@, request_view(res)) == response_outcome(
                old(self)@,
                response.operation,
                response.kind@,
                final(self)@.last_refresh,
            ),
            response_restarts(old(self)@, response.operation, response.kind@) ==> clock_gave(
                final(self)@.last_refresh,
            ),
            old(self)@.lifecycle.active_operation != Some(response.operation) ==> final(self)@
                == old(self)@ && res is None,
    {
        let Response { operation, kind } = response;
        match kind {
            ResponseKind::Created(session) => {
                if self.lifecycle.complete(operation, Completion::Created).is_ok() {
                    self.session = Some(session);
                    self.message = None;
                    self.last_refresh = instant_now();
                }
                None
            },
            ResponseKind::Snapshot(files) => {
                let completion = snapshot_completion(files.as_slice());
                if self.lifecycle.complete(operation, completion).is_ok() {
                    self.files = files;
                    self.selected_file = match self.selected_file {
                        Some(file_id) => if find_file(&self.files, file_id) < self.files.len() {
                            Some(file_id)
                        } else {
                            None
                        },
                        None => None,
                    };
                    if completion == Completion::AllFilesReceived {
                        self.session = None;
                        self.message = Some("All files were received.".to_owned());
                    }
                }
                None
            },
            ResponseKind::Downloaded => {
                if self.lifecycle.complete(operation, Completion::Downloaded).is_ok() {
                    self.message = Some("File saved successfully.".to_owned());
                    self.refresh()
                } else {
                    None
                }
            },
            ResponseKind::Cancelled => {
                if self.lifecycle.complete(operation, Completion::Cancelled).is_ok() {
                    self.drop_session();
                    self.message = None;
                }
                None
            },
            ResponseKind::Failed(message) => {
                if self.lifecycle.complete(operation, Completion::Failed).is_ok() {
                    if !self.lifecycle.requires_session() {
                        self.session = None;
                    }
                    self.message = Some(message.to_owned());
                }
                None
            },
        }
    }

    /// Refresh where one is due.
    pub fn tick(&mut self) -> (res: Option<Request>)
        ensures
            exists|elapsed: u128|
                clock_measured(old(self)@.last_refresh, elapsed) && #[trigger] ticked(
                    old(self)@,
                    elapsed,
                    final(self)@,
                    request_view(res),
                ),
    {
        let elapsed: u128 = elapsed_nanos(&self.last_refresh);
        self.tick_after(elapsed)
    }

    /// Refresh where one is due, `elapsed` nanoseconds after the last one.
    pub fn tick_after(&mut self, elapsed: u128) -> (res: Option<Request>)
        ensures
            ticked(old(self)@, elapsed, final(self)@, request_view(res)),
    {
        if self.lifecycle.can(Command::Refresh) && self.session.is_some() && elapsed
            >= REFRESH_INTERVAL {
            self.refresh()
        } else {
            None
        }
    }

    /// The tunnel and its capability, for a request.
    fn session_authority(&self) -> (res: Option<(u128, SecretText)>)
        ensures
            match res {
                Some((tunnel_id, capability)) => self@.session matches Some(session)
                    && session.tunnel_id == tunnel_id && session.desktop_capability
                    == capability@,
                None => self@.session is None,
            },
    {
        match &self.session {
            Some(session) => Some(
                (session.id(), SecretText::new(session.capability().to_owned())),
            ),
            None => None,
        }
    }

    fn available_selection(&self) -> (res: Option<FileDescriptor>)
        ensures
            match res {
                Some(file) => chosen_file(self@) == Some(file@),
                None => chosen_file(self@) is None,
            },
    {
        match self.selected_file {
            None => None,
            Some(file_id) => {
                let index: usize = find_file(&self.files, file_id);
                if index < self.files.len() && is_available(self.files[index].status.as_str()) {
                    Some(self.files[index].clone())
                } else {
                    None
                }
            },
        }
    }

    fn create_request_kind(&self) -> (res: RequestKind)
        ensures
            res@ == create_kind(self@),
    {
        RequestKind::Create {
            base_url: self.base_url.clone(),
            application_id: self.application_id.clone(),
        }
    }

    fn drop_session(&mut self)
        ensures
            final(self)@ == emptied(old(self)@),
    {
        self.session = None;
        self.clear_files();
    }

    fn clear_files(&mut self)
        ensures
            final(self)@ == (ReceiveView {
                files: Seq::empty(),
                selected_file: None,
                ..old(self)@
            }),
    {
        self.files = Vec::new();
        self.selected_file = None;
        assert(files_view(self.files@) =~= Seq::empty());
    }

    fn reject_action(&mut self)
        ensures
            final(self)@ == rejected(old(self)@),
    {
        self.message = Some("That action is not available in the current state.".to_owned());
    }

    /// The user wanted to browse local files, which this page does not do.
    pub fn choose_local(&mut self)
        ensures
            final(self)@ == (ReceiveView {
                message: Some("Local file browsing remains in the host application."@),
                ..old(self)@
            }),
    {
        self.message = Some("Local file browsing remains in the host application.".to_owned());
    }

    pub fn picker_stage(&self) -> (res: PickerStage)
        ensures
            res == stage_of(self@.lifecycle.state),
    {
        match self.lifecycle.state() {
            PickerMachineState::Idle => PickerStage::Idle,
            PickerMachineState::Creating => PickerStage::Creating,
            PickerMachineState::Cancelling => PickerStage::Creating,
            PickerMachineState::Pairing => PickerStage::Pairing,
            PickerMachineState::Refreshing => PickerStage::Pairing,
            PickerMachineState::Transferring => PickerStage::Transferring,
            PickerMachineState::Downloading => PickerStage::Transferring,
            PickerMachineState::Complete => PickerStage::Complete,
            PickerMachineState::FailedWithoutSession => PickerStage::Failed,
            PickerMachineState::FailedWithSession => PickerStage::Failed,
        }
    }

    /// A line per file.
    pub fn progress(&self) -> (res: Vec<FileProgress>)
        ensures
            Seq::new(res@.len(), |i: int| res@[i]@) == Seq::new(
                self@.files.len(),
                |i: int| progress_of(self@.files[i]),
            ),
    {
        let mut res: Vec<FileProgress> = Vec::new();
        let mut i: usize = 0;
        while i < self.files.len()
            invariant
                i <= self.files@.len(),
                res@.len() == i,
                forall|j: int| 0 <= j < i ==> (#[trigger] res@[j])@ == progress_of(self.files@[j]@),
            decreases self.files@.len() - i,
        {
            let file = &self.files[i];
            res.push(
                FileProgress {
                    id: uuid_to_text(file.file_id),
                    name: file.name.clone(),
                    bytes_transferred: file.bytes_transferred,
                    size_bytes: file.size_bytes,
                    is_complete: is_available(file.status.as_str()),
                },
            );
            i += 1;
        }
        assert(Seq::new(res@.len(), |i: int| res@[i]@) =~= Seq::new(
            self@.files.len(),
            |i: int| progress_of(self@.files[i]),
        ));
        res
    }

    /// Whether the service address and application may be edited.
    pub fn is_editable(&self) -> (res: bool)
        ensures
            res == (self@.session is None && self@.lifecycle.active_operation is None),
    {
        self.session.is_none() && !self.lifecycle.is_in_flight()
    }

    pub fn lifecycle(&self) -> (res: &Lifecycle)
        ensures
            res@ == self@.lifecycle,
    {
        &self.lifecycle
    }

    pub fn base_url(&self) -> (res: &str)
        ensures
            res@ == self@.base_url,
    {
        self.base_url.as_str()
    }

    pub fn set_base_url(&mut self, base_url: String)
        ensures
            final(self)@ == (ReceiveView { base_url: base_url@, ..old(self)@ }),
    {
        self.base_url = base_url;
    }

    pub fn application_id(&self) -> (res: &str)
        ensures
            res@ == self@.application_id,
    {
        self.application_id.as_str()
    }

    pub fn set_application_id(&mut self, application_id: String)
        ensures
            final(self)@ == (ReceiveView { application_id: application_id@, ..old(self)@ }),
    {
        self.application_id = application_id;
    }

    pub fn session(&self) -> (res: Option<&ReceiveSession>)
        ensures
            match res {
                Some(session) => self@.session == Some(session@),
                None => self@.session is None,
            },
    {
        self.session.as_ref()
    }

    pub fn files(&self) -> (res: &[FileDescriptor])
        ensures
            files_view(res@) == self@.files,
    {
        self.files.as_slice()
    }

    pub fn selected_file(&self) -> (res: Option<u128>)
        ensures
            res == self@.selected_file,
    {
        self.selected_file
    }

    pub fn select_file(&mut self, selected_file: Option<u128>)
        ensures
            final(self)@ == (ReceiveView { selected_file, ..old(self)@ }),
    {
        self.selected_file = selected_file;
    }

    pub fn destination(&self) -> (res: &str)
        ensures
            res@ == self@.destination,
    {
        self.destination.as_str()
    }

    pub fn set_destination(&mut self, destination: String)
        ensures
            final(self)@ == (ReceiveView { destination: destination@, ..old(self)@ }),
    {
        self.destination = destination;
    }

    pub fn force(&self) -> (res: bool)
        ensures
            res == self@.force,
    {
        self.force
    }

    pub fn set_force(&mut self, force: bool)
        ensures
            final(self)@ == (ReceiveView { force, ..old(self)@ }),
    {
        self.force = force;
    }

    pub fn message(&self) -> (res: Option<&String>)
        ensures
            match res {
                Some(message) => self@.message == Some(message@),
                None => self@.message is None,
            },
    {
        self.message.as_ref()
    }
}

} // verus!
