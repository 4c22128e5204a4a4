//! What the receive page does, said of what it holds and asks for.
use crate::clock::clock_gave;
use crate::desktop::receive::{
    available, cancel_outcome, chosen_file, completion_of, create_outcome, download_outcome,
    failed_dispatch, file_with, initial_page, kept_selection, progress_of, refresh_due,
    refresh_outcome, refresh_starts, response_completion, response_outcome, response_restarts,
    retry_outcome,
    stage_of, tick_outcome, ticked, FileProgress, ReceiveView,
};
use crate::desktop::worker::{RequestKindView, RequestView, ResponseKindView};
use crate::formats::uuid_text;
use crate::lifecycle::{
    complete_outcome, dispatch_outcome, Command, Completion, Effect, LifecycleError, MachineView,
    OperationId, PickerMachineEvent, PickerMachineState,
};
use crate::transfer::laws::statuses_are_six_words;
use crate::transfer::FileView;
use std::time::Instant;
use vstd::prelude::*;

verus! {

// ---- the files ----

/// A file can be fetched where its status is `available` or `downloaded`.
pub proof fn two_statuses_can_be_fetched(status: Seq<char>)
    ensures
        available(status) <==> status == "available"@ || status == "downloaded"@,
{
    statuses_are_six_words(status);
}

/// A refresh ends the transfer exactly where there are files and every one was downloaded.
pub proof fn transfers_end_with_the_last_download(files: Seq<FileView>)
    ensures
        completion_of(files) == Completion::SnapshotEmpty <==> files.len() == 0,
        completion_of(files) == Completion::AllFilesReceived <==> files.len() > 0 && forall|i: int|
            0 <= i < files.len() ==> (#[trigger] files[i]).status == "downloaded"@,
        completion_of(files) == Completion::SnapshotFiles <==> exists|i: int|
            0 <= i < files.len() && (#[trigger] files[i]).status != "downloaded"@,
{
    assert forall|i: int| 0 <= i < files.len() implies ((#[trigger] files[i]).status
        == "downloaded"@ <==> crate::transfer::status_of(files[i].status) == Some(
        crate::transfer::FileStatus::Downloaded,
    )) by {
        statuses_are_six_words(files[i].status);
    }
    if files.len() > 0 && crate::desktop::receive::all_downloaded(files) {
        assert forall|i: int| 0 <= i < files.len() implies (#[trigger] files[i]).status
            == "downloaded"@ by {
            assert(crate::transfer::status_of(files[i].status) == Some(
                crate::transfer::FileStatus::Downloaded,
            ));
        }
    } else if files.len() > 0 {
        let i = choose|i: int|
            0 <= i < files.len() && crate::transfer::status_of((#[trigger] files[i]).status)
                != Some(crate::transfer::FileStatus::Downloaded);
        assert(files[i].status != "downloaded"@);
    }
}

/// A file is found by its identifier, the first of them where there are more.
pub proof fn files_are_found_by_their_identifier(files: Seq<FileView>, file_id: u128, i: int)
    requires
        0 <= i <= files.len(),
        forall|j: int| 0 <= j < i ==> (#[trigger] files[j]).file_id != file_id,
        i < files.len() ==> files[i].file_id == file_id,
    ensures
        i < files.len() ==> file_with(files, file_id) == Some(files[i]),
        i == files.len() ==> file_with(files, file_id) is None,
    decreases files.len(),
{
    if i > 0 {
        let rest = files.drop_first();
        assert(files[0].file_id != file_id);
        assert forall|j: int| 0 <= j < i - 1 implies (#[trigger] rest[j]).file_id != file_id by {
            assert(rest[j] == files[j + 1]);
        }
        files_are_found_by_their_identifier(rest, file_id, i - 1);
    }
}

/// The file to download is the selected one, where it is listed and can be fetched; a selection
/// stays as long as it is listed.
pub proof fn selections_are_of_listed_files(v: ReceiveView, file: FileView)
    ensures
        chosen_file(v) == Some(file) <==> v.selected_file is Some && file_with(
            v.files,
            v.selected_file->Some_0,
        ) == Some(file) && (file.status == "available"@ || file.status == "downloaded"@),
        kept_selection(v.files, v.selected_file) == (if v.selected_file is Some && file_with(
            v.files,
            v.selected_file->Some_0,
        ) is Some {
            v.selected_file
        } else {
            None
        }),
{
    two_statuses_can_be_fetched(file.status);
}

/// A file's line shows its identifier, name and sizes, and counts as complete where the file can be
/// fetched.
pub proof fn lines_show_their_file(file: FileView)
    ensures
        progress_of(file).id == uuid_text(file.file_id),
        progress_of(file).name == file.name,
        progress_of(file).bytes_transferred == file.bytes_transferred,
        progress_of(file).size_bytes == file.size_bytes,
        progress_of(file).is_complete <==> file.status == "available"@ || file.status
            == "downloaded"@,
{
    two_statuses_can_be_fetched(file.status);
}

/// The picker shows each state under its stage.
pub proof fn stages_show_their_states(state: PickerMachineState)
    ensures
        stage_of(state) is Idle <==> state is Idle,
        stage_of(state) is Creating <==> state is Creating || state is Cancelling,
        stage_of(state) is Pairing <==> state is Pairing || state is Refreshing,
        stage_of(state) is Transferring <==> state is Transferring || state is Downloading,
        stage_of(state) is Complete <==> state is Complete,
        stage_of(state) is Failed <==> state is FailedWithoutSession || state is FailedWithSession,
{
}

// ---- the actions ----

/// A new page is idle, without a session and files, and set up for the public service.
pub proof fn new_pages_are_idle(machine: MachineView, now: Instant)
    ensures
        ({
            let v = initial_page(machine, now);
            &&& v.lifecycle.machine == machine
            &&& v.lifecycle.state is Idle
            &&& v.lifecycle.active_operation is None
            &&& v.lifecycle.next_operation == 1
            &&& v.base_url == "https://api.file-tunnel.dev"@
            &&& v.application_id == "ftnl-desktop-app"@
            &&& v.session is None
            &&& v.files.len() == 0
            &&& v.selected_file is None
            &&& v.destination.len() == 0
            &&& !v.force
            &&& v.message is None
            &&& v.last_refresh == now
        }),
{
}

/// Only the lifecycle and the message differ.
pub open spec fn only_told(v: ReceiveView, after: ReceiveView) -> bool {
    after == ReceiveView { lifecycle: after.lifecycle, message: after.message, ..v }
}

/// Where an action starts no operation, nothing is asked of the worker and the page keeps what it
/// holds. The user is told so, except where a refresh of an open session does not start.
pub proof fn actions_that_start_nothing_are_told(
    v: ReceiveView,
    entered: Seq<char>,
    now: Instant,
)
    ensures
        !(dispatch_outcome(v.lifecycle, Command::Start).0 matches Ok(Some(_))) ==> {
            let (after, request) = create_outcome(v);
            &&& request is None
            &&& only_told(v, after)
            &&& after.message == Some("That action is not available in the current state."@)
            &&& after.lifecycle == dispatch_outcome(v.lifecycle, Command::Start).1
        },
        !(dispatch_outcome(v.lifecycle, Command::Retry).0 matches Ok(Some(_))) ==> {
            let (after, request) = retry_outcome(v);
            &&& request is None
            &&& only_told(v, after)
            &&& after.message == Some("That action is not available in the current state."@)
            &&& after.lifecycle == dispatch_outcome(v.lifecycle, Command::Retry).1
        },
        v.session is None || !(dispatch_outcome(v.lifecycle, Command::Cancel).0 matches Ok(Some(_)))
            ==> {
            let (after, request) = cancel_outcome(v);
            &&& request is None
            &&& only_told(v, after)
            &&& after.message == Some("That action is not available in the current state."@)
            &&& after.lifecycle == if v.session is None {
                v.lifecycle
            } else {
                dispatch_outcome(v.lifecycle, Command::Cancel).1
            }
        },
        v.session is None ==> {
            let (after, request) = refresh_outcome(v, now);
            &&& request is None
            &&& after == (ReceiveView {
                message: Some("That action is not available in the current state."@),
                ..v
            })
        },
        v.session is Some && !(dispatch_outcome(v.lifecycle, Command::Refresh).0 matches Ok(
            Some(_),
        )) ==> {
            let (after, request) = refresh_outcome(v, now);
            &&& request is None
            &&& after == (ReceiveView { lifecycle: after.lifecycle, ..v })
            &&& after.lifecycle == dispatch_outcome(v.lifecycle, Command::Refresh).1
        },
        v.session is None ==> {
            let (after, request) = download_outcome(v, entered);
            &&& request is None
            &&& after == (ReceiveView {
                message: Some("That action is not available in the current state."@),
                ..v
            })
        },
        v.session is Some && chosen_file(v) is None ==> {
            let (after, request) = download_outcome(v, entered);
            &&& request is None
            &&& after == (ReceiveView { message: Some("Select an available file first."@), ..v })
        },
        v.session is Some && chosen_file(v) is Some && !(dispatch_outcome(
            v.lifecycle,
            Command::Download,
        ).0 matches Ok(Some(_))) ==> {
            let (after, request) = download_outcome(v, entered);
            &&& request is None
            &&& only_told(v, after)
            &&& after.message == Some("That action is not available in the current state."@)
            &&& after.lifecycle == dispatch_outcome(v.lifecycle, Command::Download).1
        },
{
}

/// A started creation asks for a tunnel at the page's address for the page's application, and drops
/// the session, the files, the selection and the message.
pub proof fn creations_ask_for_a_tunnel(v: ReceiveView, effect: Effect)
    requires
        dispatch_outcome(v.lifecycle, Command::Start).0 == Ok::<_, LifecycleError>(
            Some(effect),
        ),
        effect.kind is Create,
    ensures
        ({
            let (after, request) = create_outcome(v);
            &&& request matches Some(asked) && asked.operation == effect.operation && asked.kind
                == (RequestKindView::Create {
                base_url: v.base_url,
                application_id: v.application_id,
            })
            &&& after.lifecycle == dispatch_outcome(v.lifecycle, Command::Start).1
            &&& after.session is None
            &&& after.files.len() == 0
            &&& after.selected_file is None
            &&& after.message is None
            &&& after.base_url == v.base_url && after.application_id == v.application_id
            &&& after.destination == v.destination && after.force == v.force && after.last_refresh
                == v.last_refresh
        }),
{
}

/// A started refresh asks for the session's files with the session's capability, clears the message
/// and times the next one; everything else stays.
pub proof fn refreshes_ask_for_the_files(v: ReceiveView, effect: Effect, now: Instant)
    requires
        v.session is Some,
        dispatch_outcome(v.lifecycle, Command::Refresh).0 == Ok::<
            _,
            LifecycleError,
        >(Some(effect)),
        effect.kind is Refresh,
    ensures
        ({
            let (after, request) = refresh_outcome(v, now);
            &&& request matches Some(asked) && asked.operation == effect.operation && asked.kind
                == (RequestKindView::Refresh {
                base_url: v.base_url,
                tunnel_id: v.session->Some_0.tunnel_id,
                capability: v.session->Some_0.desktop_capability,
            })
            &&& after == (ReceiveView {
                lifecycle: dispatch_outcome(v.lifecycle, Command::Refresh).1,
                message: None,
                last_refresh: now,
                ..v
            })
        }),
{
}

/// A retry asks for a new tunnel or for the session's files, as the picker says; one that would
/// need a session without having one, or for which there is no request, fails at once.
pub proof fn retries_ask_for_what_failed(v: ReceiveView, effect: Effect)
    requires
        dispatch_outcome(v.lifecycle, Command::Retry).0 == Ok::<_, LifecycleError>(
            Some(effect),
        ),
    ensures
        ({
            let (after, request) = retry_outcome(v);
            let lifecycle = dispatch_outcome(v.lifecycle, Command::Retry).1;
            &&& effect.kind is Create ==> {
                &&& request matches Some(asked) && asked.operation == effect.operation
                    && asked.kind == (RequestKindView::Create {
                    base_url: v.base_url,
                    application_id: v.application_id,
                })
                &&& after == (ReceiveView {
                    lifecycle,
                    session: None,
                    files: Seq::empty(),
                    selected_file: None,
                    message: None,
                    ..v
                })
            }
            &&& effect.kind is Refresh && v.session is Some ==> {
                &&& request matches Some(asked) && asked.operation == effect.operation
                    && asked.kind == (RequestKindView::Refresh {
                    base_url: v.base_url,
                    tunnel_id: v.session->Some_0.tunnel_id,
                    capability: v.session->Some_0.desktop_capability,
                })
                &&& after == (ReceiveView { lifecycle, message: None, ..v })
            }
            &&& effect.kind is Download || effect.kind is Cancel || (effect.kind is Refresh
                && v.session is None) ==> request is None && after == failed_dispatch(
                ReceiveView { lifecycle, message: None, ..v },
                effect,
            )
        }),
{
}

/// A started cancellation asks to close the session's tunnel with its capability; the session, the
/// files and the selection leave the page at once.
pub proof fn cancellations_ask_to_close_the_tunnel(v: ReceiveView, effect: Effect)
    requires
        v.session is Some,
        dispatch_outcome(v.lifecycle, Command::Cancel).0 == Ok::<
            _,
            LifecycleError,
        >(Some(effect)),
        effect.kind is Cancel,
    ensures
        ({
            let (after, request) = cancel_outcome(v);
            &&& request matches Some(asked) && asked.operation == effect.operation && asked.kind
                == (RequestKindView::Cancel {
                base_url: v.base_url,
                tunnel_id: v.session->Some_0.tunnel_id,
                capability: v.session->Some_0.desktop_capability,
            })
            &&& after == (ReceiveView {
                lifecycle: dispatch_outcome(v.lifecycle, Command::Cancel).1,
                session: None,
                files: Seq::empty(),
                selected_file: None,
                message: Some("Closing the secure tunnel…"@),
                ..v
            })
        }),
{
}

/// A started download asks for the chosen file, to where the user said unless that is blank, and
/// replaces files only where the user allowed it; only the message is cleared.
pub proof fn downloads_ask_for_the_chosen_file(v: ReceiveView, entered: Seq<char>, effect: Effect)
    requires
        v.session is Some,
        chosen_file(v) is Some,
        dispatch_outcome(v.lifecycle, Command::Download).0 == Ok::<
            _,
            LifecycleError,
        >(Some(effect)),
        effect.kind is Download,
    ensures
        ({
            let (after, request) = download_outcome(v, entered);
            &&& request matches Some(asked) && asked.operation == effect.operation && asked.kind
                == (RequestKindView::Download {
                base_url: v.base_url,
                tunnel_id: v.session->Some_0.tunnel_id,
                capability: v.session->Some_0.desktop_capability,
                file: chosen_file(v)->Some_0,
                destination: if entered.len() == 0 { None } else { Some(entered) },
                force: v.force,
            })
            &&& after == (ReceiveView {
                lifecycle: dispatch_outcome(v.lifecycle, Command::Download).1,
                message: None,
                ..v
            })
        }),
{
}

/// An operation that the picker started but that is of another kind than the action fails at once,
/// and nothing is asked of the worker.
pub proof fn operations_of_another_kind_fail_at_once(
    v: ReceiveView,
    entered: Seq<char>,
    now: Instant,
    effect: Effect,
)
    ensures
        dispatch_outcome(v.lifecycle, Command::Start).0 == Ok::<_, LifecycleError>(Some(effect))
            && !(effect.kind is Create) ==> create_outcome(v) == (
            failed_dispatch(
                ReceiveView {
                    lifecycle: dispatch_outcome(v.lifecycle, Command::Start).1,
                    session: None,
                    files: Seq::empty(),
                    selected_file: None,
                    message: None,
                    ..v
                },
                effect,
            ),
            None::<RequestView>,
        ),
        v.session is Some && dispatch_outcome(v.lifecycle, Command::Refresh).0 == Ok::<
            _,
            LifecycleError,
        >(Some(effect)) && !(effect.kind is Refresh) ==> refresh_outcome(v, now) == (
            failed_dispatch(
                ReceiveView {
                    lifecycle: dispatch_outcome(v.lifecycle, Command::Refresh).1,
                    message: None,
                    last_refresh: now,
                    ..v
                },
                effect,
            ),
            None::<RequestView>,
        ),
        v.session is Some && dispatch_outcome(v.lifecycle, Command::Cancel).0 == Ok::<
            _,
            LifecycleError,
        >(Some(effect)) && !(effect.kind is Cancel) ==> cancel_outcome(v) == (
            failed_dispatch(
                ReceiveView {
                    lifecycle: dispatch_outcome(v.lifecycle, Command::Cancel).1,
                    session: None,
                    files: Seq::empty(),
                    selected_file: None,
                    message: Some("Closing the secure tunnel…"@),
                    ..v
                },
                effect,
            ),
            None::<RequestView>,
        ),
        v.session is Some && chosen_file(v) is Some && dispatch_outcome(
            v.lifecycle,
            Command::Download,
        ).0 == Ok::<_, LifecycleError>(Some(effect)) && !(effect.kind is Download) ==>
            download_outcome(v, entered) == (
            failed_dispatch(
                ReceiveView {
                    lifecycle: dispatch_outcome(v.lifecycle, Command::Download).1,
                    message: None,
                    ..v
                },
                effect,
            ),
            None::<RequestView>,
        ),
{
}

/// An operation that the worker could not take fails: the picker moves as for any failure, the
/// session stays only where the new state owns one, and the user is told. Where the picker does
/// not wait for that operation, nothing changes.
pub proof fn operations_that_are_not_taken_fail(v: ReceiveView, effect: Effect)
    ensures
        ({
            let after = failed_dispatch(v, effect);
            let (outcome, lifecycle) = complete_outcome(
                v.lifecycle,
                effect.operation,
                Completion::Failed,
            );
            &&& outcome is Err ==> after == v
            &&& outcome is Ok ==> after == (ReceiveView {
                lifecycle,
                session: if lifecycle.machine.requires_session.contains(lifecycle.state) {
                    v.session
                } else {
                    None
                },
                message: Some("The background worker is unavailable. Try again."@),
                ..v
            })
        }),
{
}

// ---- the responses ----

/// Each response completes its operation with the completion of its name; a list of files by what
/// it says of them.
pub proof fn responses_complete_by_their_names(response: ResponseKindView)
    ensures
        response_completion(response) == (match response {
            ResponseKindView::Created(_) => Completion::Created,
            ResponseKindView::Snapshot(files) => completion_of(files),
            ResponseKindView::Downloaded => Completion::Downloaded,
            ResponseKindView::Cancelled => Completion::Cancelled,
            ResponseKindView::Failed(_) => Completion::Failed,
        }),
{
}

/// A response that the lifecycle takes puts on the page what it brings: a session, a list of files
/// that the selection is checked against, the end of the transfer, of the session or of the
/// operation. A download is followed by a refresh; nothing else asks for anything. Everything
/// that is not named stays. A response that is not taken changes nothing.
pub proof fn responses_put_on_the_page_what_they_bring(
    v: ReceiveView,
    operation: OperationId,
    response: ResponseKindView,
    now: Instant,
)
    ensures
        ({
            let (outcome, lifecycle) = complete_outcome(
                v.lifecycle,
                operation,
                response_completion(response),
            );
            let (after, request) = response_outcome(v, operation, response, now);
            &&& outcome is Err ==> after == v && request is None
            &&& outcome is Ok ==> match response {
                ResponseKindView::Created(session) => request is None && after == (ReceiveView {
                    lifecycle,
                    session: Some(session),
                    message: None,
                    last_refresh: now,
                    ..v
                }),
                ResponseKindView::Snapshot(files) => request is None && after == (ReceiveView {
                    lifecycle,
                    files,
                    selected_file: kept_selection(files, v.selected_file),
                    session: if completion_of(files) is AllFilesReceived {
                        None
                    } else {
                        v.session
                    },
                    message: if completion_of(files) is AllFilesReceived {
                        Some("All files were received."@)
                    } else {
                        v.message
                    },
                    ..v
                }),
                ResponseKindView::Downloaded => (after, request) == refresh_outcome(
                    ReceiveView {
                        lifecycle,
                        message: Some("File saved successfully."@),
                        ..v
                    },
                    now,
                ),
                ResponseKindView::Cancelled => request is None && after == (ReceiveView {
                    lifecycle,
                    session: None,
                    files: Seq::empty(),
                    selected_file: None,
                    message: None,
                    ..v
                }),
                ResponseKindView::Failed(message) => request is None && after == (ReceiveView {
                    lifecycle,
                    session: if lifecycle.machine.requires_session.contains(lifecycle.state) {
                        v.session
                    } else {
                        None
                    },
                    message: Some(message),
                    ..v
                }),
            }
        }),
{
}

/// An open session is refreshed two seconds after the last time, where the picker allows it;
/// sooner, or without a session, nothing happens.
pub proof fn sessions_are_refreshed_every_two_seconds(v: ReceiveView, elapsed: u128, now: Instant)
    ensures
        refresh_due(v, elapsed) <==> v.session is Some && elapsed >= 2_000_000_000
            && v.lifecycle.machine.step(v.lifecycle.state, PickerMachineEvent::Refresh) is Some,
        elapsed < 2_000_000_000 || v.session is None ==> tick_outcome(v, elapsed, now) == (
            v,
            None::<RequestView>,
        ),
        refresh_due(v, elapsed) ==> tick_outcome(v, elapsed, now) == refresh_outcome(v, now),
        refresh_starts(v) <==> v.session is Some && (dispatch_outcome(
            v.lifecycle,
            Command::Refresh,
        ).0 matches Ok(Some(_))),
{
}

/// A file's line is seen field by field.
pub proof fn lines_are_seen_as_they_are(line: FileProgress)
    ensures
        line@.id == line.id@,
        line@.name == line.name@,
        line@.bytes_transferred == line.bytes_transferred,
        line@.size_bytes == line.size_bytes,
        line@.is_complete == line.is_complete,
{
}

/// A look at the clock gives its outcome at the moment from which the next refresh is then timed.
pub proof fn looks_at_the_clock_give_their_outcome(
    v: ReceiveView,
    elapsed: u128,
    after: ReceiveView,
    request: Option<RequestView>,
)
    requires
        ticked(v, elapsed, after, request),
    ensures
        (after, request) == tick_outcome(v, elapsed, after.last_refresh),
        v.session is Some && elapsed >= 2_000_000_000 && v.lifecycle.machine.step(
            v.lifecycle.state,
            PickerMachineEvent::Refresh,
        ) is Some && (dispatch_outcome(v.lifecycle, Command::Refresh).0 matches Ok(Some(_))) ==>
            clock_gave(after.last_refresh),
{
}

/// The time to the next refresh starts anew with a session that was created and with a refresh that
/// follows a download, and with no other response.
pub proof fn two_responses_start_the_time_anew(
    v: ReceiveView,
    operation: OperationId,
    response: ResponseKindView,
)
    ensures
        ({
            let (outcome, lifecycle) = complete_outcome(
                v.lifecycle,
                operation,
                response_completion(response),
            );
            response_restarts(v, operation, response) <==> outcome is Ok && (
            response is Created || (response is Downloaded && v.session is Some && (
            dispatch_outcome(lifecycle, Command::Refresh).0 matches Ok(Some(_)))))
        }),
{
}

} // verus!
