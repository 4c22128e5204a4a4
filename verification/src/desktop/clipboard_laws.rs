//! What the clipboard and privacy pages do, said of what the user sees.
use crate::desktop::clipboard::{
    action_outcome, add_outcome, capture_outcome, copy_outcome, fingerprint_preview, initial_pages,
    lists_exclusions, poll_due, preview, read_outcome, row_of, shell_outcome, without,
    ClipboardRead, ClipboardRow, ClipboardView, ClipboardWrite, ReadView,
};
use crate::desktop::shell::{ShellAction, ShellState, WindowCommand};
use crate::text::{decimal_text, text_before};
use crate::workspace::model::{
    apply_outcome, content_hash, initial_workspace, ActionView, ItemView,
};
use crate::workspace::{workspace_error_text, WorkspaceError};
use std::time::Instant;
use vstd::prelude::*;
use vstd::utf8::*;

verus! {

broadcast use vstd::seq_lib::group_filter_ensures;

/// An action goes to the workspace as it stands. Where it is applied the workspace is replaced and
/// no message is left; where it is refused only the message changes, to the reason.
pub proof fn actions_are_applied_or_their_refusal_shown(
    v: ClipboardView,
    action: ActionView,
    command_id: u128,
    now: i128,
)
    ensures
        ({
            let (applied, after) = action_outcome(v, action, command_id, now);
            &&& after.shell == v.shell
            &&& after.last_hash == v.last_hash
            &&& after.exclusion_input == v.exclusion_input
            &&& after.last_poll == v.last_poll
            &&& match apply_outcome(v.workspace, command_id, v.workspace.revision, action, now) {
                Ok(workspace) => applied && after.workspace == workspace && after.message is None,
                Err(error) => !applied && after.workspace == v.workspace && after.message == Some(
                    workspace_error_text(error),
                ),
            }
        }),
{
}

/// Turning capture on or off leaves the workspace in that state, unless the command was already
/// used, and where it already is in that state changes nothing of it. The shell's flag follows the
/// workspace; the window, the history and what was captured last stay.
pub proof fn capture_is_switched(v: ClipboardView, active: bool, command_id: u128, now: i128)
    ensures
        ({
            let after = capture_outcome(v, active, command_id, now);
            &&& (v.workspace.capture_state is Active) == active ==> after.workspace == v.workspace
                && after.message == v.message
            &&& (v.workspace.capture_state is Active) != active && !v.workspace.processed.contains(
                command_id,
            ) ==> (after.workspace.capture_state is Active) == active && after.message is None
                && apply_outcome(
                v.workspace,
                command_id,
                v.workspace.revision,
                if active {
                    ActionView::ResumeCapture
                } else {
                    ActionView::PauseCapture
                },
                now,
            ) == Ok::<_, WorkspaceError>(after.workspace)
            &&& (v.workspace.capture_state is Active) != active && v.workspace.processed.contains(
                command_id,
            ) ==> after.workspace == v.workspace && after.message == Some(
                "the command was already applied"@,
            )
            &&& after.shell.capture_active == (after.workspace.capture_state is Active)
            &&& after.shell.window_visible == v.shell.window_visible
            &&& after.shell.quit_requested == v.shell.quit_requested
            &&& after.workspace.items == v.workspace.items
            &&& after.last_hash == v.last_hash
            &&& after.exclusion_input == v.exclusion_input
            &&& after.last_poll == v.last_poll
        }),
{
}

/// While capture is active, a text that is neither empty nor the current one is offered to the
/// workspace as it is, without a source; where it is taken in it becomes the current one.
pub proof fn new_text_is_offered_to_the_workspace(
    v: ClipboardView,
    report: bool,
    text: Seq<char>,
    item_id: u128,
    captured_at: i128,
    command_id: u128,
    now: i128,
)
    requires
        v.workspace.capture_state is Active,
        text.len() > 0,
        v.last_hash != Some(content_hash(text)),
    ensures
        ({
            let after = read_outcome(
                v,
                report,
                ReadView::Text(text),
                item_id,
                captured_at,
                command_id,
                now,
            );
            let item = ItemView {
                item_id,
                text,
                content_sha256: content_hash(text),
                byte_size: encode_utf8(text).len() as usize,
                captured_at,
                is_pinned: false,
                source_fingerprint: None,
            };
            &&& after.shell == v.shell
            &&& after.exclusion_input == v.exclusion_input
            &&& after.last_poll == v.last_poll
            &&& match apply_outcome(
                v.workspace,
                command_id,
                v.workspace.revision,
                ActionView::IngestText(item),
                now,
            ) {
                Ok(workspace) => after.workspace == workspace && after.message is None
                    && after.last_hash == Some(content_hash(text)),
                Err(error) => after.workspace == v.workspace && after.message == Some(
                    workspace_error_text(error),
                ) && after.last_hash == v.last_hash,
            }
        }),
{
}

/// Where there is nothing new to capture, only the message may change, and only where the user
/// asked for the capture: it then says why.
pub proof fn nothing_new_is_reported_on_request_alone(
    v: ClipboardView,
    report: bool,
    read: ReadView,
    item_id: u128,
    captured_at: i128,
    command_id: u128,
    now: i128,
)
    requires
        read matches ReadView::Text(text) ==> text.len() == 0 || v.last_hash == Some(
            content_hash(text),
        ) || v.workspace.capture_state is Paused,
    ensures
        ({
            let after = read_outcome(v, report, read, item_id, captured_at, command_id, now);
            &&& after == ClipboardView { message: after.message, ..v }
            &&& !report || v.workspace.capture_state is Paused ==> after.message == v.message
            &&& report && v.workspace.capture_state is Active ==> match read {
                ReadView::Unavailable => after.message == Some(
                    "Clipboard access is unavailable on this system."@,
                ),
                ReadView::NoText => after.message == Some(
                    "The clipboard does not contain plain text."@,
                ),
                ReadView::Text(text) => if text.len() == 0 {
                    after.message == v.message
                } else {
                    after.message == Some("That clipboard item is already current."@)
                },
            }
        }),
{
}

/// An item that was copied is the current one; the user is told how the copy went, and nothing else
/// changes.
pub proof fn copies_make_the_item_current(
    v: ClipboardView,
    hash: Seq<char>,
    written: ClipboardWrite,
)
    ensures
        ({
            let after = copy_outcome(v, hash, written);
            &&& after == ClipboardView {
                message: after.message,
                last_hash: after.last_hash,
                ..v
            }
            &&& after.last_hash == (if written is Written { Some(hash) } else { v.last_hash })
            &&& after.message == Some(
                (match written {
                    ClipboardWrite::Unavailable =>
                        "Clipboard access is unavailable on this system.",
                    ClipboardWrite::Refused => "The clipboard could not be updated.",
                    ClipboardWrite::Written => "Copied to the system clipboard.",
                })@,
            )
        }),
{
}

/// What the tray asks of the window is done by the window, and remembered by the shell; what it
/// asks of capture is done by the workspace.
pub proof fn tray_actions_reach_window_and_capture(
    v: ClipboardView,
    action: ShellAction,
    command_id: u128,
    now: i128,
)
    ensures
        ({
            let (commands, after) = shell_outcome(v, action, command_id, now);
            match action {
                ShellAction::OpenWindow => commands == seq![
                    WindowCommand::Show,
                    WindowCommand::Focus,
                ] && after == (ClipboardView {
                    shell: ShellState { window_visible: true, ..v.shell },
                    ..v
                }),
                ShellAction::HideWindow => commands == seq![WindowCommand::Hide] && after == (
                ClipboardView { shell: ShellState { window_visible: false, ..v.shell }, ..v }),
                ShellAction::Quit => commands == seq![WindowCommand::Close] && after == (
                ClipboardView { shell: ShellState { quit_requested: true, ..v.shell }, ..v }),
                ShellAction::PauseCapture => commands.len() == 0 && after == capture_outcome(
                    v,
                    false,
                    command_id,
                    now,
                ),
                ShellAction::ResumeCapture => commands.len() == 0 && after == capture_outcome(
                    v,
                    true,
                    command_id,
                    now,
                ),
            }
        }),
{
}

/// Adding an exclusion offers the listed ones and the new one together; where they are taken over
/// the entry is cleared, and otherwise it stays.
pub proof fn exclusions_are_added_to_the_listed_ones(
    v: ClipboardView,
    listed: Seq<Seq<char>>,
    entered: Seq<char>,
    command_id: u128,
    now: i128,
)
    ensures
        ({
            let (applied, after) = add_outcome(v, listed, entered, command_id, now);
            let offered = ActionView::SetSourceExclusions(listed + seq![entered]);
            &&& match apply_outcome(v.workspace, command_id, v.workspace.revision, offered, now) {
                Ok(workspace) => applied && after.workspace == workspace && after.message is None
                    && after.exclusion_input.len() == 0,
                Err(error) => !applied && after.workspace == v.workspace && after.message == Some(
                    workspace_error_text(error),
                ) && after.exclusion_input == v.exclusion_input,
            }
            &&& after.shell == v.shell && after.last_hash == v.last_hash && after.last_poll
                == v.last_poll
        }),
{
    assert(listed.push(entered) =~= listed + seq![entered]);
}

proof fn lemma_without(
    values: Seq<Seq<char>>,
    value: Seq<char>,
    rest: spec_fn(Seq<char>) -> bool,
)
    requires
        forall|other: Seq<char>| #[trigger] rest(other) == (other != value),
    ensures
        without(values, value) == values.filter(rest),
    decreases values.len(),
{
    reveal(Seq::filter);
    if values.len() > 0 {
        lemma_without(values.drop_last(), value, rest);
    }
}

/// Removing an exclusion keeps all others.
pub proof fn other_exclusions_stay(values: Seq<Seq<char>>, value: Seq<char>)
    ensures
        !without(values, value).contains(value),
        forall|other: Seq<char>|
            other != value ==> (#[trigger] without(values, value).contains(other)
                <==> values.contains(other)),
        without(values, value) == values.filter(|other: Seq<char>| other != value),
{
    let rest = |other: Seq<char>| other != value;
    let kept = without(values, value);
    lemma_without(values, value, rest);
    if kept.contains(value) {
        let k = choose|k: int| 0 <= k < kept.len() && kept[k] == value;
        assert(rest(kept[k]));
    }
    assert forall|other: Seq<char>| other != value implies (#[trigger] kept.contains(other)
        <==> values.contains(other)) by {
        if kept.contains(other) {
            values.lemma_filter_contains_rev(rest, other);
        }
        if values.contains(other) {
            let i = choose|i: int| 0 <= i < values.len() && values[i] == other;
            assert(rest(values[i]));
            assert(kept.contains(values[i]));
        }
    }
}

/// The clipboard is looked at 750 milliseconds after the last time, while capture is active.
pub proof fn the_clipboard_is_polled_every_750_milliseconds(v: ClipboardView, elapsed: u128)
    ensures
        poll_due(v, elapsed) <==> v.workspace.capture_state is Active && elapsed >= 750_000_000,
{
}

/// Of a text the first 240 characters are shown, and an ellipsis where there are more. Of a
/// fingerprint over 24 bytes the first 15 and the last 8 are shown around an ellipsis.
pub proof fn previews_show_the_ends(text: Seq<char>, bytes: Seq<u8>)
    ensures
        text.len() <= 240 ==> preview(text) == text,
        text.len() > 240 ==> preview(text).len() == 241 && preview(text).take(240) == text.take(240)
            && preview(text)[240] == '\u{2026}',
        bytes.len() <= 24 ==> fingerprint_preview(bytes) == bytes,
        bytes.len() > 24 ==> fingerprint_preview(bytes) == bytes.take(15) + encode_utf8(
            seq!['\u{2026}'],
        ) + bytes.skip(bytes.len() - 8),
{
    reveal_strlit("…");
    assert("…"@ =~= seq!['\u{2026}']);
    if text.len() > 240 {
        assert(preview(text).take(240) =~= text.take(240));
    }
    if bytes.len() > 24 {
        assert(bytes.subrange(0, 15) =~= bytes.take(15));
        assert(bytes.subrange(bytes.len() - 8, bytes.len() as int) =~= bytes.skip(bytes.len() - 8));
    }
}

/// An item's row says whether it is pinned, how many bytes it has and how it starts, and its button
/// says what it would do.
pub proof fn rows_show_their_item(item: ItemView)
    ensures
        item.is_pinned ==> row_of(item).heading == "Pinned"@ && row_of(item).pin_label == "Unpin"@,
        !item.is_pinned ==> row_of(item).heading == "Clipboard"@ && row_of(item).pin_label
            == "Pin"@,
        row_of(item).size == decimal_text(item.byte_size as nat) + " bytes"@,
        row_of(item).preview == preview(item.text),
{
}

/// New pages have an empty workspace with capture paused, an open window, and nothing else to show.
pub proof fn new_pages_are_empty(now: Instant)
    ensures
        ({
            let v = initial_pages(now);
            &&& v.workspace == initial_workspace()
            &&& v.workspace.items.len() == 0
            &&& v.workspace.capture_state is Paused
            &&& v.shell.window_visible
            &&& !v.shell.capture_active
            &&& !v.shell.quit_requested
            &&& v.last_hash is None
            &&& v.message is None
            &&& v.exclusion_input.len() == 0
            &&& v.last_poll == now
        }),
{
}

/// What was read, and what is shown of an item, are seen as they are.
pub proof fn reads_and_rows_are_seen_as_they_are(read: ClipboardRead, row: ClipboardRow)
    ensures
        match read {
            ClipboardRead::Unavailable => read@ is Unavailable,
            ClipboardRead::NoText => read@ is NoText,
            ClipboardRead::Text(text) => read@ == ReadView::Text(text@),
        },
        row@.heading == row.heading@,
        row@.size == row.size@,
        row@.pin_label == row.pin_label@,
        row@.preview == row.preview@,
{
}

/// The exclusions that the page lists are those of the workspace, in ascending order.
pub proof fn listed_exclusions_are_the_workspace_s(v: ClipboardView, listed: Seq<Seq<char>>)
    requires
        lists_exclusions(v, listed),
    ensures
        forall|value: Seq<char>| #[trigger]
            listed.contains(value) <==> v.workspace.excluded.contains(value),
        forall|i: int, j: int|
            0 <= i < j < listed.len() ==> text_before(#[trigger] listed[i], #[trigger] listed[j]),
{
    assert forall|value: Seq<char>| #[trigger] listed.contains(value)
        <==> v.workspace.excluded.contains(value) by {
        assert(listed.to_set().contains(value) <==> listed.contains(value));
    }
}

} // verus!
