use ftnl_desktop::desktop::clipboard::{
    clipboard_preview, clipboard_row, pin_action, source_fingerprint_preview, tray_hint,
    ClipboardController, ClipboardRead, ClipboardWrite, POLL_INTERVAL,
};
use ftnl_desktop::desktop::receive::{
    is_available, snapshot_completion, PickerStage, ReceiveController, REFRESH_INTERVAL,
};
use ftnl_desktop::desktop::shell::{
    icon_rgba, menu_action, ShellAction, ShellState, WindowCommand, HIDE_ID, OPEN_ID, PAUSE_ID,
    QUIT_ID, RESUME_ID,
};
use ftnl_desktop::desktop::worker::{
    address_refused, cancelled, create_request, created, effect_matches_request, effect_of,
    failed, refreshed, saved, ClientFailure, Request, RequestKind, Response, ResponseKind,
};
use ftnl_desktop::lifecycle::{
    Completion, Effect, EffectKind, OperationId, PickerMachine, PickerTransition,
};
use ftnl_desktop::observability::{event, event_with_count};
use ftnl_desktop::transfer::{FileDescriptor, ReceiveSession, SaveError, Tunnel};
use ftnl_desktop::workspace::{
    content_sha256_hex, RetentionPolicy, Timestamp, WorkspaceAction,
};
use uuid::Uuid;

use ftnl_desktop::lifecycle::PickerMachineEvent as E;
use ftnl_desktop::lifecycle::PickerMachineState as S;

fn picker() -> PickerMachine {
    let transitions = [
        (S::Idle, E::Start, S::Creating),
        (S::Complete, E::Start, S::Creating),
        (S::Creating, E::Created, S::Pairing),
        (S::Creating, E::Fail, S::FailedWithoutSession),
        (S::Pairing, E::Refresh, S::Refreshing),
        (S::Pairing, E::Cancel, S::Cancelling),
        (S::Refreshing, E::SnapshotEmpty, S::Pairing),
        (S::Refreshing, E::SnapshotFiles, S::Transferring),
        (S::Refreshing, E::AllFilesReceived, S::Complete),
        (S::Refreshing, E::Fail, S::FailedWithSession),
        (S::Transferring, E::Refresh, S::Refreshing),
        (S::Transferring, E::Download, S::Downloading),
        (S::Transferring, E::Cancel, S::Cancelling),
        (S::Downloading, E::Downloaded, S::Transferring),
        (S::Downloading, E::Fail, S::FailedWithSession),
        (S::Cancelling, E::Cancelled, S::Idle),
        (S::Cancelling, E::Fail, S::FailedWithoutSession),
        (S::FailedWithoutSession, E::Retry, S::Creating),
        (S::FailedWithSession, E::Retry, S::Refreshing),
        (S::FailedWithSession, E::Cancel, S::Cancelling),
    ]
    .into_iter()
    .map(|(from, event, to)| PickerTransition { from, event, to })
    .collect();
    PickerMachine {
        transitions,
        in_flight: vec![S::Creating, S::Refreshing, S::Downloading, S::Cancelling],
        requires_session: vec![
            S::Pairing,
            S::Refreshing,
            S::Transferring,
            S::Downloading,
            S::FailedWithSession,
        ],
    }
}

fn tunnel() -> Tunnel {
    let id = Uuid::from_u128(1);
    Tunnel {
        tunnel_id: 1,
        pairing_uri: format!("https://host/t/{id}#c={}", "p".repeat(64)),
        desktop_capability: "d".repeat(64),
        expires_at: "2026-01-01T00:00:00Z".into(),
        status: "waiting".into(),
    }
}

fn file(file_id: u128, status: &str) -> FileDescriptor {
    FileDescriptor {
        file_id,
        name: format!("file-{file_id}"),
        media_type: "text/plain".into(),
        size_bytes: 3,
        bytes_transferred: 2,
        status: status.into(),
        created_at: "2026-01-01T00:00:00Z".into(),
    }
}

fn paired() -> ReceiveController {
    let mut page = ReceiveController::new(picker());
    let request = page.create().unwrap();
    let response = Response {
        operation: request.operation,
        kind: ResponseKind::Created(ReceiveSession::from_tunnel(tunnel()).unwrap()),
    };
    assert!(page.process_response(response).is_none());
    page
}

fn with_files(files: Vec<FileDescriptor>) -> ReceiveController {
    let mut page = paired();
    let request = page.refresh().unwrap();
    let response = Response {
        operation: request.operation,
        kind: ResponseKind::Snapshot(files),
    };
    assert!(page.process_response(response).is_none());
    page
}

fn message(page: &ReceiveController) -> Option<&str> {
    page.message().map(String::as_str)
}

fn agrees(page: &ReceiveController) -> bool {
    page.lifecycle()
        .validate_session(page.session().is_some())
        .is_ok()
}

fn moment(seconds: i128) -> Timestamp {
    Timestamp {
        unix_nanos: seconds * 1_000_000_000,
    }
}

#[test]
fn only_contract_available_states_are_downloadable() {
    assert!(is_available("available"));
    assert!(is_available("downloaded"));
    assert!(!is_available("uploading"));
    assert!(!is_available("future_status"));
}

#[test]
fn request_kinds_are_bound_to_exact_effects() {
    let request = RequestKind::Create {
        base_url: String::new(),
        application_id: String::new(),
    };
    assert!(effect_matches_request(EffectKind::Create, &request));
    assert!(!effect_matches_request(EffectKind::Refresh, &request));
}

#[test]
fn close_hides_until_an_explicit_quit() {
    let mut state = ShellState::default();
    assert!(state.on_close_requested(true));
    assert!(!state.window_visible);

    state.apply(ShellAction::OpenWindow);
    state.apply(ShellAction::Quit);
    assert!(!state.on_close_requested(true));
    assert!(state.window_visible);

    let mut unavailable = ShellState::default();
    assert!(!unavailable.on_close_requested(false));
    assert!(unavailable.window_visible);
}

#[test]
fn capture_and_window_transitions_are_independent() {
    let mut state = ShellState::default();
    state.apply(ShellAction::ResumeCapture);
    state.apply(ShellAction::HideWindow);
    assert!(state.capture_active);
    assert!(!state.window_visible);

    state.apply(ShellAction::PauseCapture);
    state.apply(ShellAction::OpenWindow);
    assert!(!state.capture_active);
    assert!(state.window_visible);
}

#[test]
fn menu_ids_are_closed_and_unknown_ids_are_ignored() {
    assert_eq!(menu_action(OPEN_ID), Some(ShellAction::OpenWindow));
    assert_eq!(menu_action(PAUSE_ID), Some(ShellAction::PauseCapture));
    assert_eq!(menu_action("ftnl.future"), None);
}

#[test]
fn every_menu_item_has_its_action() {
    assert_eq!(menu_action(HIDE_ID), Some(ShellAction::HideWindow));
    assert_eq!(menu_action(RESUME_ID), Some(ShellAction::ResumeCapture));
    assert_eq!(menu_action(QUIT_ID), Some(ShellAction::Quit));
    assert_eq!(menu_action(""), None);
}

#[test]
fn generated_icon_has_the_expected_dimensions() {
    let rgba = icon_rgba();
    assert_eq!(rgba.len(), 32 * 32 * 4);
    let pixel = |x: usize, y: usize| &rgba[4 * (32 * y + x)..4 * (32 * y + x) + 4];
    assert_eq!(pixel(0, 0), &[0, 0, 0, 0]);
    assert_eq!(pixel(5, 5), &[29, 99, 237, 255]);
    assert_eq!(pixel(12, 5), &[238, 246, 255, 255]);
    assert_eq!(pixel(26, 19), &[238, 246, 255, 255]);
    assert_eq!(pixel(26, 20), &[29, 99, 237, 255]);
    assert_eq!(pixel(27, 16), &[0, 0, 0, 0]);
}

#[test]
fn logger_accepts_only_constant_test_event() {
    let record = event("desktop.test");
    assert_eq!(record.name, "desktop.test");
    assert_eq!(record.item_count, None);
    assert_eq!(event_with_count("desktop.test", 3).item_count, Some(3));
}

#[test]
fn a_tunnel_is_created_refreshed_and_completed() {
    let mut page = ReceiveController::new(picker());
    assert_eq!(page.picker_stage(), PickerStage::Idle);
    assert_eq!(page.base_url(), "https://api.file-tunnel.dev");
    assert_eq!(page.application_id(), "ftnl-desktop-app");
    assert!(page.is_editable());
    let request = page.create().unwrap();
    assert_eq!(page.picker_stage(), PickerStage::Creating);
    assert!(!page.is_editable());
    match &request.kind {
        RequestKind::Create {
            base_url,
            application_id,
        } => {
            assert_eq!(base_url, "https://api.file-tunnel.dev");
            assert_eq!(application_id, "ftnl-desktop-app");
        }
        _ => panic!("not a creation"),
    }
    assert_eq!(
        effect_of(&request),
        Effect {
            operation: OperationId::new(1),
            kind: EffectKind::Create
        }
    );
    assert!(agrees(&page));

    let mut page = with_files(vec![file(1, "available"), file(2, "uploading")]);
    assert_eq!(page.picker_stage(), PickerStage::Transferring);
    assert_eq!(page.files().len(), 2);
    let progress = page.progress();
    assert_eq!(progress[0].id, "00000000-0000-0000-0000-000000000001");
    assert_eq!(progress[0].name, "file-1");
    assert_eq!(progress[0].bytes_transferred, 2);
    assert_eq!(progress[0].size_bytes, 3);
    assert!(progress[0].is_complete);
    assert!(!progress[1].is_complete);
    assert!(agrees(&page));

    let refresh = page.refresh().unwrap();
    match &refresh.kind {
        RequestKind::Refresh {
            tunnel_id,
            capability,
            ..
        } => {
            assert_eq!(*tunnel_id, 1);
            assert_eq!(capability.as_str(), "d".repeat(64));
        }
        _ => panic!("not a refresh"),
    }
    assert!(page
        .process_response(Response {
            operation: refresh.operation,
            kind: ResponseKind::Snapshot(vec![file(1, "downloaded")]),
        })
        .is_none());
    assert_eq!(page.picker_stage(), PickerStage::Complete);
    assert_eq!(message(&page), Some("All files were received."));
    assert!(page.session().is_none());
    assert!(agrees(&page));
}

#[test]
fn a_download_is_followed_by_a_refresh() {
    let mut page = with_files(vec![file(1, "available"), file(2, "uploading")]);
    assert!(page.download().is_none());
    assert_eq!(message(&page), Some("Select an available file first."));
    page.select_file(Some(2));
    assert!(page.download().is_none());
    page.select_file(Some(1));
    page.set_destination("  /tmp/out file \n".into());
    page.set_force(true);
    let request = page.download().unwrap();
    match &request.kind {
        RequestKind::Download {
            file,
            destination,
            force,
            ..
        } => {
            assert_eq!(file.file_id, 1);
            assert_eq!(destination.as_deref(), Some("/tmp/out file"));
            assert!(*force);
        }
        _ => panic!("not a download"),
    }
    let next = page
        .process_response(Response {
            operation: request.operation,
            kind: ResponseKind::Downloaded,
        })
        .unwrap();
    assert!(matches!(next.kind, RequestKind::Refresh { .. }));
    assert_eq!(message(&page), None);
    assert!(agrees(&page));
    assert!(page
        .process_response(Response {
            operation: next.operation,
            kind: ResponseKind::Snapshot(vec![file(2, "uploading")]),
        })
        .is_none());
    assert_eq!(page.selected_file(), None);
}

#[test]
fn a_blank_destination_is_none() {
    let mut page = with_files(vec![file(1, "available")]);
    page.select_file(Some(1));
    page.set_destination(" \t".into());
    match page.download().unwrap().kind {
        RequestKind::Download { destination, .. } => assert_eq!(destination, None),
        _ => panic!("not a download"),
    }
    let mut page = with_files(vec![file(1, "available")]);
    page.select_file(Some(1));
    match page.download_to("x".into()).unwrap().kind {
        RequestKind::Download { destination, .. } => assert_eq!(destination.as_deref(), Some("x")),
        _ => panic!("not a download"),
    }
}

#[test]
fn a_cancellation_drops_the_credentials_at_once() {
    let mut page = with_files(vec![file(1, "available")]);
    let request = page.cancel().unwrap();
    assert!(page.session().is_none());
    assert!(page.files().is_empty());
    assert_eq!(message(&page), Some("Closing the secure tunnel…"));
    match &request.kind {
        RequestKind::Cancel { capability, .. } => {
            assert_eq!(capability.as_str(), "d".repeat(64));
        }
        _ => panic!("not a cancellation"),
    }
    assert!(agrees(&page));
    page.process_response(Response {
        operation: request.operation,
        kind: ResponseKind::Cancelled,
    });
    assert_eq!(page.picker_stage(), PickerStage::Idle);
    assert_eq!(message(&page), None);
}

#[test]
fn stale_responses_leave_the_page_alone() {
    let mut page = paired();
    let request = page.refresh().unwrap();
    assert!(page
        .process_response(Response {
            operation: OperationId::new(request.operation.get() + 1),
            kind: ResponseKind::Failed("stale"),
        })
        .is_none());
    assert_eq!(message(&page), None);
    assert!(page.session().is_some());
    assert_eq!(page.picker_stage(), PickerStage::Pairing);
}

#[test]
fn failures_keep_or_drop_the_session_as_the_picker_says() {
    let mut page = ReceiveController::new(picker());
    let create = page.create().unwrap();
    page.process_response(Response {
        operation: create.operation,
        kind: ResponseKind::Failed("no network"),
    });
    assert_eq!(page.picker_stage(), PickerStage::Failed);
    assert_eq!(message(&page), Some("no network"));
    assert!(matches!(page.retry().unwrap().kind, RequestKind::Create { .. }));

    let mut page = paired();
    let refresh = page.refresh().unwrap();
    page.process_response(Response {
        operation: refresh.operation,
        kind: ResponseKind::Failed("no network"),
    });
    assert!(page.session().is_some());
    assert!(agrees(&page));
    assert!(matches!(page.retry().unwrap().kind, RequestKind::Refresh { .. }));

    let mut page = paired();
    let refresh = page.refresh().unwrap();
    page.fail_dispatch(effect_of(&refresh));
    assert_eq!(
        message(&page),
        Some("The background worker is unavailable. Try again.")
    );
    assert!(page.session().is_some());
}

#[test]
fn actions_out_of_turn_are_rejected() {
    let rejected = Some("That action is not available in the current state.");
    let mut page = ReceiveController::new(picker());
    assert!(page.refresh().is_none());
    assert_eq!(message(&page), rejected);
    assert!(page.cancel().is_none());
    assert!(page.download().is_none());
    assert!(page.retry().is_none());
    assert_eq!(message(&page), rejected);
    page.choose_local();
    assert_eq!(
        message(&page),
        Some("Local file browsing remains in the host application.")
    );
    let mut page = paired();
    assert!(page.create().is_none());
    assert_eq!(message(&page), rejected);
    assert!(page.session().is_some());
}

#[test]
fn refreshes_come_two_seconds_apart() {
    let mut page = paired();
    assert!(page.tick_after(REFRESH_INTERVAL - 1).is_none());
    assert!(page.tick_after(REFRESH_INTERVAL).is_some());
    assert!(page.tick_after(REFRESH_INTERVAL).is_none());
    let mut idle = ReceiveController::new(picker());
    assert!(idle.tick_after(REFRESH_INTERVAL).is_none());
    assert!(paired().tick().is_none());
}

fn wait(nanos: u128) {
    let start = std::time::Instant::now();
    while start.elapsed().as_nanos() < nanos {}
}

#[test]
fn stale_responses_do_not_put_the_refresh_off() {
    let mut page = paired();
    wait(REFRESH_INTERVAL);
    let stale = Response {
        operation: OperationId::new(u64::MAX),
        kind: ResponseKind::Cancelled,
    };
    assert!(page.process_response(stale).is_none());
    assert!(page.tick().is_some());
    assert!(page.tick().is_none());
}

#[test]
fn a_poll_starts_the_interval_anew() {
    let mut page = clipboard();
    wait(POLL_INTERVAL);
    assert!(page.poll_clipboard());
    assert!(!page.poll_clipboard());
}

#[test]
fn snapshots_complete_by_their_files() {
    assert_eq!(snapshot_completion(&[]), Completion::SnapshotEmpty);
    assert_eq!(
        snapshot_completion(&[file(1, "downloaded"), file(2, "downloaded")]),
        Completion::AllFilesReceived
    );
    assert_eq!(
        snapshot_completion(&[file(1, "downloaded"), file(2, "available")]),
        Completion::SnapshotFiles
    );
}

#[test]
fn the_worker_answers_for_every_outcome() {
    let text = |kind: ResponseKind| match kind {
        ResponseKind::Failed(message) => message,
        _ => panic!("not a failure"),
    };
    for status in [404, 410] {
        assert_eq!(
            text(failed(ClientFailure::Api(status))),
            "The tunnel expired or is no longer available."
        );
    }
    for status in [401, 403] {
        assert_eq!(
            text(failed(ClientFailure::Api(status))),
            "This session is no longer authorized."
        );
    }
    for failure in [ClientFailure::Api(500), ClientFailure::Transport] {
        assert_eq!(
            text(failed(failure)),
            "The network request failed. Check the connection and try again."
        );
    }
    for failure in [
        ClientFailure::InvalidBaseUrl,
        ClientFailure::UnsupportedScheme,
        ClientFailure::InsecureTransport,
        ClientFailure::InvalidTimeout,
    ] {
        assert_eq!(text(failed(failure)), "The service address is not allowed.");
    }
    assert_eq!(text(address_refused()), "The service address is not allowed.");
    assert!(matches!(created(Ok(tunnel())), ResponseKind::Created(_)));
    let mut outside = tunnel();
    outside.status = "closed".into();
    assert_eq!(
        text(created(Ok(outside))),
        "server returned a tunnel outside the desktop receive contract"
    );
    assert_eq!(
        text(created(Err(ClientFailure::Api(401)))),
        "This session is no longer authorized."
    );
    match refreshed(Ok(vec![file(1, "available")])) {
        ResponseKind::Snapshot(files) => assert_eq!(files.len(), 1),
        _ => panic!("not a snapshot"),
    }
    assert!(matches!(saved(Ok(())), ResponseKind::Downloaded));
    assert_eq!(
        text(saved(Err(SaveError::Io("disk full".into())))),
        "The downloaded file could not be safely written at that location."
    );
    assert!(matches!(cancelled(Ok(())), ResponseKind::Cancelled));
    let request = create_request("app".into());
    assert_eq!(request.application_id, "app");
    assert_eq!(request.accept, vec!["*/*"]);
    assert_eq!(request.max_files, 10);
    assert_eq!(request.max_file_bytes, 50 * 1024 * 1024);
    assert_eq!(request.expires_in_seconds, 600);
    let request = Request {
        operation: OperationId::new(4),
        kind: RequestKind::Create {
            base_url: String::new(),
            application_id: String::new(),
        },
    };
    assert_eq!(effect_of(&request).kind, EffectKind::Create);
}

fn clipboard() -> ClipboardController {
    let mut page = ClipboardController::new();
    page.set_capture_active_as(true, 100, moment(1));
    page
}

fn take(page: &mut ClipboardController, number: u128, text: &str, report: bool) {
    page.capture_text_as(
        report,
        ClipboardRead::Text(text.into()),
        number,
        moment(1),
        number + 1000,
        moment(1),
    );
}

#[test]
fn capture_takes_over_what_is_new() {
    let mut page = ClipboardController::new();
    assert!(!page.is_capturing());
    take(&mut page, 1, "one", true);
    assert!(page.workspace().items().is_empty());
    assert!(page.message().is_none());

    page.set_capture_active(true);
    assert!(page.shell().capture_active);
    take(&mut page, 1, "one", false);
    assert_eq!(page.workspace().items()[0].text, "one");
    assert_eq!(page.workspace().items()[0].content_sha256, content_sha256_hex("one"));
    take(&mut page, 2, "one", true);
    assert_eq!(
        page.message().map(String::as_str),
        Some("That clipboard item is already current.")
    );
    take(&mut page, 3, "", true);
    page.capture_clipboard_text(true, ClipboardRead::NoText);
    assert_eq!(
        page.message().map(String::as_str),
        Some("The clipboard does not contain plain text.")
    );
    page.capture_clipboard_text(true, ClipboardRead::Unavailable);
    assert_eq!(
        page.message().map(String::as_str),
        Some("Clipboard access is unavailable on this system.")
    );
    page.capture_clipboard_text(false, ClipboardRead::Text("two".into()));
    // The clock is long past the first item's day, which retention then removes.
    assert_eq!(page.workspace().items().len(), 1);
    assert_eq!(page.workspace().items()[0].text, "two");
    assert!(page.message().is_none());
    page.set_capture_active(false);
    assert!(!page.shell().capture_active);
    assert!(page.shell().window_visible);
}

#[test]
fn refused_actions_are_shown_and_change_nothing() {
    let mut page = clipboard();
    take(&mut page, 1, &"x".repeat(65_537), false);
    assert_eq!(
        page.message().map(String::as_str),
        Some("clipboard content is outside the supported bounds")
    );
    assert!(!page.apply_workspace_action(WorkspaceAction::PinItem(9)));
    assert_eq!(
        page.message().map(String::as_str),
        Some("the clipboard item does not exist")
    );
    assert!(page.apply_workspace_action(WorkspaceAction::ClearUnpinned));
    assert!(page.message().is_none());
    assert!(!page.apply_action_as(WorkspaceAction::ClearUnpinned, 100, moment(1)));
    assert_eq!(
        page.message().map(String::as_str),
        Some("the command was already applied")
    );
}

#[test]
fn copied_items_are_current() {
    let mut page = clipboard();
    take(&mut page, 1, "one", false);
    take(&mut page, 2, "two", false);
    let item = page.workspace().items()[1].clone();
    page.copy_clipboard_item(&item, ClipboardWrite::Unavailable);
    assert_eq!(
        page.message().map(String::as_str),
        Some("Clipboard access is unavailable on this system.")
    );
    page.copy_clipboard_item(&item, ClipboardWrite::Refused);
    assert_eq!(
        page.message().map(String::as_str),
        Some("The clipboard could not be updated.")
    );
    page.copy_clipboard_item(&item, ClipboardWrite::Written);
    assert_eq!(
        page.message().map(String::as_str),
        Some("Copied to the system clipboard.")
    );
    take(&mut page, 3, "one", false);
    assert_eq!(page.workspace().items()[0].text, "two");
}

#[test]
fn polling_follows_the_capture_state() {
    let page = clipboard();
    assert!(page.poll_due_after(POLL_INTERVAL));
    assert!(!page.poll_due_after(POLL_INTERVAL - 1));
    let mut paused = ClipboardController::new();
    assert!(!paused.poll_due_after(POLL_INTERVAL));
    assert!(!paused.poll_clipboard());
}

#[test]
fn tray_actions_move_the_window_and_the_capture() {
    let mut page = ClipboardController::new();
    assert_eq!(page.process_shell(ShellAction::HideWindow), vec![WindowCommand::Hide]);
    assert!(!page.shell().window_visible);
    assert_eq!(
        page.process_shell(ShellAction::OpenWindow),
        vec![WindowCommand::Show, WindowCommand::Focus]
    );
    assert_eq!(page.process_shell(ShellAction::ResumeCapture), vec![]);
    assert!(page.is_capturing());
    assert!(page.shell().capture_active);
    assert_eq!(
        page.process_shell_as(ShellAction::PauseCapture, 5, moment(1)),
        vec![]
    );
    assert!(!page.is_capturing());
    assert_eq!(
        page.close_requested(true),
        vec![WindowCommand::CancelClose, WindowCommand::Hide]
    );
    assert!(!page.shell().window_visible);
    assert_eq!(page.close_requested(false), vec![]);
    assert_eq!(page.process_shell(ShellAction::Quit), vec![WindowCommand::Close]);
    assert_eq!(page.close_requested(true), vec![]);
}

#[test]
fn exclusions_are_added_trimmed_and_removed() {
    let fingerprint = |digit: &str| format!("sha256:{}", digit.repeat(64));
    let mut page = clipboard();
    page.set_exclusion_input("nonsense".into());
    assert!(!page.add_exclusion());
    assert_eq!(page.exclusion_input(), "nonsense");
    page.set_exclusion_input(format!("  {} \n", fingerprint("b")));
    assert!(page.add_exclusion());
    assert_eq!(page.exclusion_input(), "");
    assert!(page.add_exclusion_as(fingerprint("a"), 7, moment(1)));
    assert_eq!(
        *page.workspace().excluded_source_fingerprints(),
        vec![fingerprint("a"), fingerprint("b")]
    );
    assert!(page.remove_exclusion(&fingerprint("a")));
    assert_eq!(
        *page.workspace().excluded_source_fingerprints(),
        vec![fingerprint("b")]
    );
    assert!(page.remove_exclusion_as(&fingerprint("b"), 8, moment(1)));
    assert!(page.workspace().excluded_source_fingerprints().is_empty());
}

#[test]
fn white_space_around_an_entry_is_no_part_of_it() {
    let fingerprint = format!("sha256:{}", "c".repeat(64));
    let mut page = clipboard();
    for code in 1..0x3100u32 {
        let Some(character) = char::from_u32(code) else {
            continue;
        };
        page.set_exclusion_input(format!("{character}{fingerprint}{character}"));
        let white_space = matches!(code, 0x09..=0x0d | 0x20 | 0x85 | 0xa0 | 0x1680
            | 0x2000..=0x200a | 0x2028 | 0x2029 | 0x202f | 0x205f | 0x3000);
        assert_eq!(page.add_exclusion(), white_space, "U+{code:04X}");
    }
}

#[test]
fn the_privacy_page_knows_what_changed() {
    let mut page = clipboard();
    let current = page.workspace().retention();
    assert!(!page.retention_changed(current));
    assert!(page.retention_changed(RetentionPolicy { max_age_days: 31, ..current }));
    assert!(!page.has_unpinned());
    take(&mut page, 1, "one", false);
    assert!(page.has_unpinned());
    assert!(page.apply_workspace_action(WorkspaceAction::PinItem(1)));
    assert!(!page.has_unpinned());
}

#[test]
fn previews_are_short() {
    assert_eq!(clipboard_preview("short"), "short");
    assert_eq!(clipboard_preview(&"é".repeat(240)), "é".repeat(240));
    assert_eq!(
        clipboard_preview(&"é".repeat(241)),
        format!("{}…", "é".repeat(240))
    );
    let fingerprint = format!("sha256:{}{}", "0123456789abcdef".repeat(3), "fedcba9876543210");
    assert_eq!(source_fingerprint_preview(&fingerprint), "sha256:01234567…76543210");
    assert_eq!(source_fingerprint_preview("sha256:0123"), "sha256:0123");
}

#[test]
fn rows_show_the_item_and_turn_its_pin_over() {
    let mut page = clipboard();
    assert_eq!(
        page.empty_hint(),
        "Resume capture to begin a private, in-memory history."
    );
    assert_eq!(page.capture_button(), "Pause capture");
    assert_eq!(page.capture_label(), "Clipboard capture: active");
    take(&mut page, 1, "née", false);
    let item = page.workspace().items()[0].clone();
    let row = clipboard_row(&item);
    assert_eq!(row.heading, "Clipboard");
    assert_eq!(row.size, "4 bytes");
    assert_eq!(row.pin_label, "Pin");
    assert_eq!(row.preview, "née");
    assert_eq!(pin_action(&item), WorkspaceAction::PinItem(1));
    assert!(page.apply_action_as(pin_action(&item), 50, moment(1)));
    let item = page.workspace().items()[0].clone();
    assert_eq!(clipboard_row(&item).heading, "Pinned");
    assert_eq!(clipboard_row(&item).pin_label, "Unpin");
    assert_eq!(pin_action(&item), WorkspaceAction::UnpinItem(1));
    assert!(page.apply_action_as(WorkspaceAction::SetSearch("zzz".into()), 51, moment(1)));
    assert_eq!(page.empty_hint(), "No captured text matches this search.");
    page.set_capture_active_as(false, 52, moment(1));
    assert_eq!(page.capture_button(), "Resume capture");
    assert_eq!(page.capture_label(), "Clipboard capture: paused");
    assert!(tray_hint(true).contains("system tray"));
    assert!(tray_hint(false).contains("quits the app"));
}
