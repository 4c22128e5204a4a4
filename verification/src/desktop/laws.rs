//! What the tray does to the window, and what the worker is asked and answers.
use crate::desktop::receive::request_view;
use crate::desktop::shell::{
    action_of, close_hides, icon_bytes, shell_after, ShellAction, ShellState,
};
use crate::desktop::worker::{
    created_outcome, failure_text, request_matches, ClientFailure, Request, RequestKind,
    RequestKindView, ResponseKind, ResponseKindView,
};
use crate::lifecycle::EffectKind;
use crate::transfer::{files_view, valid_tunnel, TunnelView};
use vstd::prelude::*;

verus! {

// ---- the shell ----

/// Each tray action sets the flag it is named after, and leaves the other two.
pub proof fn tray_actions_set_their_own_flag(state: ShellState, action: ShellAction)
    ensures
        ({
            let after = shell_after(state, action);
            &&& after.window_visible == (action is OpenWindow || (state.window_visible && !(
            action is HideWindow)))
            &&& after.capture_active == (action is ResumeCapture || (state.capture_active && !(
            action is PauseCapture)))
            &&& after.quit_requested == (action is Quit || state.quit_requested)
        }),
{
}

/// A close request hides the window exactly where there is a tray and the user did not ask to quit.
pub proof fn close_requests_hide_only_with_a_tray(state: ShellState)
    ensures
        !close_hides(state, false),
        close_hides(state, true) <==> !state.quit_requested,
{
}

/// Five menu items have an action, and no other does.
pub proof fn menu_items_have_the_actions_of_their_names(id: Seq<char>)
    ensures
        action_of(id) == Some(ShellAction::OpenWindow) <==> id == "ftnl.open"@,
        action_of(id) == Some(ShellAction::HideWindow) <==> id == "ftnl.hide"@,
        action_of(id) == Some(ShellAction::PauseCapture) <==> id == "ftnl.pause"@,
        action_of(id) == Some(ShellAction::ResumeCapture) <==> id == "ftnl.resume"@,
        action_of(id) == Some(ShellAction::Quit) <==> id == "ftnl.quit"@,
{
    reveal_strlit("ftnl.open");
    reveal_strlit("ftnl.hide");
    reveal_strlit("ftnl.pause");
    reveal_strlit("ftnl.resume");
    reveal_strlit("ftnl.quit");
    assert("ftnl.open"@[5] == 'o');
    assert("ftnl.hide"@[5] == 'h');
    assert("ftnl.pause"@[5] == 'p');
    assert("ftnl.resume"@[5] == 'r');
    assert("ftnl.quit"@[5] == 'q');
}

/// The icon has 32 rows of 32 pixels of four bytes: clear at the border of five pixels, and inside
/// it a light cross eight pixels wide on blue.
pub proof fn the_icon_is_a_light_cross_on_blue(x: int, y: int)
    requires
        0 <= x < 32,
        0 <= y < 32,
    ensures
        icon_bytes().len() == 4096,
        icon_bytes().subrange(4 * (32 * y + x), 4 * (32 * y + x) + 4) == (if x < 5 || x > 26 || y
            < 5 || y > 26 {
            seq![0u8, 0u8, 0u8, 0u8]
        } else if (12 <= x && x <= 19) || (12 <= y && y <= 19) {
            seq![238u8, 246u8, 255u8, 255u8]
        } else {
            seq![29u8, 99u8, 237u8, 255u8]
        }),
{
    let n = 32 * y + x;
    let pixel = icon_bytes().subrange(4 * n, 4 * n + 4);
    assert forall|k: int| 0 <= k < 4 implies #[trigger] pixel[k]
        == crate::desktop::shell::icon_pixel(x, y)[k] by {
        assert((4 * n + k) / 4 == n);
        assert((4 * n + k) % 4 == k);
        assert(n % 32 == x && n / 32 == y);
    }
    assert(pixel =~= crate::desktop::shell::icon_pixel(x, y));
}

// ---- the worker ----

/// A request is made for the operation of its name alone.
pub proof fn requests_are_made_for_operations_of_their_names(
    effect: EffectKind,
    request: RequestKindView,
)
    ensures
        request_matches(effect, request) <==> {
            ||| effect is Create && request is Create
            ||| effect is Refresh && request is Refresh
            ||| effect is Download && request is Download
            ||| effect is Cancel && request is Cancel
        },
{
}

/// The sentence for a failed call goes by the kind of the failure: a tunnel that is gone (404 and
/// 410), a session without rights (401 and 403), an address that is not allowed, and everything
/// else.
pub proof fn failures_are_told_by_their_kind(failure: ClientFailure)
    ensures
        failure_text(failure) == (match failure {
            ClientFailure::Api(404) => "The tunnel expired or is no longer available.",
            ClientFailure::Api(410) => "The tunnel expired or is no longer available.",
            ClientFailure::Api(401) => "This session is no longer authorized.",
            ClientFailure::Api(403) => "This session is no longer authorized.",
            ClientFailure::Api(_) =>
                "The network request failed. Check the connection and try again.",
            ClientFailure::InvalidBaseUrl => "The service address is not allowed.",
            ClientFailure::UnsupportedScheme => "The service address is not allowed.",
            ClientFailure::InsecureTransport => "The service address is not allowed.",
            ClientFailure::InvalidTimeout => "The service address is not allowed.",
            ClientFailure::Transport =>
                "The network request failed. Check the connection and try again.",
        })@,
{
}

/// A created tunnel that the receive contract accepts becomes a session with all that it carries;
/// one that it refuses, and a failed call, become their sentences.
pub proof fn created_tunnels_become_sessions(outcome: Result<TunnelView, ClientFailure>)
    ensures
        match outcome {
            Ok(tunnel) => if valid_tunnel(tunnel) {
                created_outcome(outcome) matches ResponseKindView::Created(session) && {
                    &&& session.tunnel_id == tunnel.tunnel_id
                    &&& session.expires_at == tunnel.expires_at
                    &&& session.pairing_uri == tunnel.pairing_uri
                    &&& session.desktop_capability == tunnel.desktop_capability
                }
            } else {
                created_outcome(outcome) == ResponseKindView::Failed(
                    "server returned a tunnel outside the desktop receive contract"@,
                )
            },
            Err(failure) => created_outcome(outcome) == ResponseKindView::Failed(
                failure_text(failure),
            ),
        },
{
}

/// Requests and responses are seen field by field.
pub proof fn requests_and_responses_are_seen_as_they_are(request: Request, response: ResponseKind)
    ensures
        request@.operation == request.operation,
        match request.kind {
            RequestKind::Create { base_url, application_id } => request@.kind == (
            RequestKindView::Create { base_url: base_url@, application_id: application_id@ }),
            RequestKind::Refresh { base_url, tunnel_id, capability } => request@.kind == (
            RequestKindView::Refresh {
                base_url: base_url@,
                tunnel_id,
                capability: capability@,
            }),
            RequestKind::Download {
                base_url,
                tunnel_id,
                capability,
                file,
                destination,
                force,
            } => request@.kind matches RequestKindView::Download {
                base_url: seen_url,
                tunnel_id: seen_id,
                capability: seen_capability,
                file: seen_file,
                destination: seen_destination,
                force: seen_force,
            } && {
                &&& seen_url == base_url@ && seen_id == tunnel_id && seen_capability == capability@
                &&& seen_file == file@ && seen_force == force
                &&& match destination {
                    Some(path) => seen_destination == Some(path@),
                    None => seen_destination is None,
                }
            },
            RequestKind::Cancel { base_url, tunnel_id, capability } => request@.kind == (
            RequestKindView::Cancel { base_url: base_url@, tunnel_id, capability: capability@ }),
        },
        match response {
            ResponseKind::Created(session) => response@ == ResponseKindView::Created(session@),
            ResponseKind::Snapshot(files) => response@ == ResponseKindView::Snapshot(
                files_view(files@),
            ),
            ResponseKind::Downloaded => response@ is Downloaded,
            ResponseKind::Cancelled => response@ is Cancelled,
            ResponseKind::Failed(message) => response@ == ResponseKindView::Failed(message@),
        },
        request_view(None) is None,
        request_view(Some(request)) == Some(request@),
{
}

} // verus!
