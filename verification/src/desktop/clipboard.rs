//! The clipboard and privacy pages: what is captured, copied, excluded and retained.
use crate::clock::{calendar_showed, clock_gave, clock_measured, elapsed_nanos, instant_now};
use crate::desktop::shell::{
    close_hides, shell_after, ShellAction, ShellState, WindowCommand,
};
use crate::formats::{drawn_uuid, uuid_random};
use crate::std_text::{trim, trimmed};
use crate::text::{decimal_text, is_lower_hex_char, optional_text, texts, to_decimal};
use crate::workspace::model::{
    apply_outcome, content_hash, initial_workspace, valid_fingerprint, ActionView, ItemView,
    WorkspaceView,
};
use crate::workspace::{
    ascending, clone_texts, content_sha256_hex, workspace_error_text, CaptureState, ClipboardItem,
    ClipboardWorkspace, RetentionPolicy, Timestamp, WorkspaceAction,
};
use std::time::Instant;
use vstd::prelude::*;
use vstd::string::*;
use vstd::utf8::*;

verus! {

/// How often the clipboard is read while capture is active, in nanoseconds: 750 milliseconds.
pub const POLL_INTERVAL: u128 = 750_000_000;

/// How many characters of an item are shown.
pub const PREVIEW_CHARACTERS: usize = 240;

/// What reading the system clipboard gave.
#[derive(Debug, PartialEq, Eq)]
pub enum ClipboardRead {
    /// The system has no clipboard to read.
    Unavailable,
    /// The clipboard holds no plain text.
    NoText,
    Text(String),
}

pub enum ReadView {
    Unavailable,
    NoText,
    Text(Seq<char>),
}

impl View for ClipboardRead {
    type V = ReadView;

    open spec fn view(&self) -> ReadView {
        match *self {
            ClipboardRead::Unavailable => ReadView::Unavailable,
            ClipboardRead::NoText => ReadView::NoText,
            ClipboardRead::Text(text) => ReadView::Text(text@),
        }
    }
}

/// What writing the system clipboard gave.
#[derive(Clone, Copy, Debug, PartialEq, Eq, Structural)]
pub enum ClipboardWrite {
    Unavailable,
    Refused,
    Written,
}

#[verifier::ext_equal]
pub struct ClipboardView {
    pub workspace: WorkspaceView,
    pub shell: ShellState,
    pub last_hash: Option<Seq<char>>,
    pub message: Option<Seq<char>>,
    pub exclusion_input: Seq<char>,
    /// The reading of the clock from which the next look at the clipboard is timed.
    pub last_poll: Instant,
}

/// The pages of a new process: an empty workspace, capture paused, the window open.
pub open spec fn initial_pages(now: Instant) -> ClipboardView {
    ClipboardView {
        workspace: initial_workspace(),
        shell: ShellState { window_visible: true, capture_active: false, quit_requested: false },
        last_hash: None,
        message: None,
        exclusion_input: Seq::empty(),
        last_poll: now,
    }
}

/// The pages after an action on the workspace, and whether it was applied. A refusal is shown.
pub open spec fn action_outcome(
    v: ClipboardView,
    action: ActionView,
    command_id: u128,
    now: i128,
) -> (bool, ClipboardView) {
    match apply_outcome(v.workspace, command_id, v.workspace.revision, action, now) {
        Ok(workspace) => (true, ClipboardView { workspace, message: None, ..v }),
        Err(error) => (
            false,
            ClipboardView { message: Some(workspace_error_text(error)), ..v },
        ),
    }
}

pub open spec fn capture_state_for(active: bool) -> CaptureState {
    if active {
        CaptureState::Active
    } else {
        CaptureState::Paused
    }
}

/// The pages after capture was turned on or off. The shell shows what the workspace then does.
pub open spec fn capture_outcome(
    v: ClipboardView,
    active: bool,
    command_id: u128,
    now: i128,
) -> ClipboardView {
    let after = if v.workspace.capture_state != capture_state_for(active) {
        action_outcome(
            v,
            if active {
                ActionView::ResumeCapture
            } else {
                ActionView::PauseCapture
            },
            command_id,
            now,
        ).1
    } else {
        v
    };
    ClipboardView {
        shell: ShellState {
            capture_active: after.workspace.capture_state == CaptureState::Active,
            ..after.shell
        },
        ..after
    }
}

/// The message where the user asked for the capture; otherwise the pages stay as they are.
pub open spec fn reported(v: ClipboardView, report: bool, message: Seq<char>) -> ClipboardView {
    if report {
        ClipboardView { message: Some(message), ..v }
    } else {
        v
    }
}

/// The item that a captured text becomes.
pub open spec fn captured_item(text: Seq<char>, item_id: u128, captured_at: i128) -> ItemView {
    ItemView {
        item_id,
        text,
        content_sha256: content_hash(text),
        byte_size: encode_utf8(text).len() as usize,
        captured_at,
        is_pinned: false,
        source_fingerprint: None,
    }
}

/// The pages after the clipboard was read. Nothing is taken over while capture is paused, nor
/// what was taken over last.
pub open spec fn read_outcome(
    v: ClipboardView,
    report: bool,
    read: ReadView,
    item_id: u128,
    captured_at: i128,
    command_id: u128,
    now: i128,
) -> ClipboardView {
    if v.workspace.capture_state != CaptureState::Active {
        v
    } else {
        match read {
            ReadView::Unavailable => reported(
                v,
                report,
                "Clipboard access is unavailable on this system."@,
            ),
            ReadView::NoText => reported(v, report, "The clipboard does not contain plain text."@),
            ReadView::Text(text) => if text.len() == 0 {
                v
            } else if v.last_hash == Some(content_hash(text)) {
                reported(v, report, "That clipboard item is already current."@)
            } else {
                let (applied, after) = action_outcome(
                    v,
                    ActionView::IngestText(captured_item(text, item_id, captured_at)),
                    command_id,
                    now,
                );
                if applied {
                    ClipboardView { last_hash: Some(content_hash(text)), ..after }
                } else {
                    after
                }
            },
        }
    }
}

/// The pages after an item was copied to the system clipboard, or not.
pub open spec fn copy_outcome(v: ClipboardView, hash: Seq<char>, written: ClipboardWrite) -> ClipboardView {
    match written {
        ClipboardWrite::Unavailable => ClipboardView {
            message: Some("Clipboard access is unavailable on this system."@),
            ..v
        },
        ClipboardWrite::Refused => ClipboardView {
            message: Some("The clipboard could not be updated."@),
            ..v
        },
        ClipboardWrite::Written => ClipboardView {
            last_hash: Some(hash),
            message: Some("Copied to the system clipboard."@),
            ..v
        },
    }
}

/// The pages and the window after a tray action.
pub open spec fn shell_outcome(
    v: ClipboardView,
    action: ShellAction,
    command_id: u128,
    now: i128,
) -> (Seq<WindowCommand>, ClipboardView) {
    let after = ClipboardView { shell: shell_after(v.shell, action), ..v };
    match action {
        ShellAction::OpenWindow => (seq![WindowCommand::Show, WindowCommand::Focus], after),
        ShellAction::HideWindow => (seq![WindowCommand::Hide], after),
        ShellAction::PauseCapture => (Seq::empty(), capture_outcome(v, false, command_id, now)),
        ShellAction::ResumeCapture => (Seq::empty(), capture_outcome(v, true, command_id, now)),
        ShellAction::Quit => (seq![WindowCommand::Close], after),
    }
}

/// The values without one of them.
pub open spec fn without(values: Seq<Seq<char>>, value: Seq<char>) -> Seq<Seq<char>> {
    values.filter(|other: Seq<char>| other != value)
}

/// The pages after an exclusion was added: the entry is cleared where it was taken over.
/// `listed` are the exclusions so far, in their order.
pub open spec fn add_outcome(
    v: ClipboardView,
    listed: Seq<Seq<char>>,
    entered: Seq<char>,
    command_id: u128,
    now: i128,
) -> (bool, ClipboardView) {
    let (applied, after) = action_outcome(
        v,
        ActionView::SetSourceExclusions(listed.push(entered)),
        command_id,
        now,
    );
    if applied {
        (true, ClipboardView { exclusion_input: Seq::empty(), ..after })
    } else {
        (false, after)
    }
}

/// `listed` are the workspace's exclusions in ascending order.
pub open spec fn lists_exclusions(v: ClipboardView, listed: Seq<Seq<char>>) -> bool {
    ascending(listed) && listed.to_set() == v.workspace.excluded
}

/// The clipboard is read while capture is active, once the interval has passed.
pub open spec fn poll_due(v: ClipboardView, elapsed: u128) -> bool {
    v.workspace.capture_state == CaptureState::Active && elapsed >= POLL_INTERVAL
}

// ---- laws ----

/// While capture is paused, reading the clipboard changes nothing.
pub proof fn paused_capture_changes_nothing(
    v: ClipboardView,
    report: bool,
    read: ReadView,
    item_id: u128,
    captured_at: i128,
    command_id: u128,
    now: i128,
)
    requires
        v.workspace.capture_state == CaptureState::Paused,
    ensures
        read_outcome(v, report, read, item_id, captured_at, command_id, now) == v,
{
}

/// What was captured or copied last is not captured again.
pub proof fn current_content_is_not_captured_again(
    v: ClipboardView,
    report: bool,
    text: Seq<char>,
    item_id: u128,
    captured_at: i128,
    command_id: u128,
    now: i128,
)
    requires
        v.last_hash == Some(content_hash(text)),
    ensures
        read_outcome(
            v,
            report,
            ReadView::Text(text),
            item_id,
            captured_at,
            command_id,
            now,
        ).workspace == v.workspace,
{
}

/// After capture is turned on or off, the shell shows what the workspace does.
pub proof fn shell_shows_the_capture_state(
    v: ClipboardView,
    active: bool,
    command_id: u128,
    now: i128,
)
    ensures
        ({
            let after = capture_outcome(v, active, command_id, now);
            &&& after.shell.capture_active == (after.workspace.capture_state
                == CaptureState::Active)
            &&& !v.workspace.processed.contains(command_id) ==> after.workspace.capture_state
                == capture_state_for(active)
            &&& after.shell.window_visible == v.shell.window_visible
        }),
{
}

// ---- previews ----

/// The first characters of a text, with an ellipsis where there are more.
pub open spec fn preview(text: Seq<char>) -> Seq<char> {
    if text.len() > PREVIEW_CHARACTERS {
        text.take(PREVIEW_CHARACTERS as int) + "…"@
    } else {
        text
    }
}

/// The start of a text.
pub fn clipboard_preview(text: &str) -> (res: String)
    ensures
        res@ == preview(text@),
{
    if text.unicode_len() > PREVIEW_CHARACTERS {
        let start = text.substring_char(0, PREVIEW_CHARACTERS);
        assert(start@ =~= text@.take(PREVIEW_CHARACTERS as int));
        start.to_owned().concat("…")
    } else {
        text.to_owned()
    }
}

/// Whether the 15th byte from the start and the 8th from the end are character boundaries.
pub open spec fn can_shorten(bytes: Seq<u8>) -> bool {
    bytes.len() > 24 ==> is_char_boundary(bytes, 15) && is_char_boundary(bytes, bytes.len() - 8)
}

/// The ends of a long fingerprint, with an ellipsis between them.
pub open spec fn fingerprint_preview(bytes: Seq<u8>) -> Seq<u8> {
    if bytes.len() > 24 {
        bytes.subrange(0, 15) + encode_utf8("…"@) + bytes.subrange(
            bytes.len() - 8,
            bytes.len() as int,
        )
    } else {
        bytes
    }
}

/// The concatenation of texts is encoded as the concatenation of their encodings.
proof fn lemma_encode_concat(a: Seq<char>, b: Seq<char>)
    ensures
        encode_utf8(a + b) == encode_utf8(a) + encode_utf8(b),
    decreases a.len(),
{
    if a.len() == 0 {
        assert(a + b =~= b);
        assert(encode_utf8(a) + encode_utf8(b) =~= encode_utf8(b));
    } else {
        assert((a + b).drop_first() =~= a.drop_first() + b);
        lemma_encode_concat(a.drop_first(), b);
        assert(encode_utf8(a + b) =~= encode_utf8(a) + encode_utf8(b));
    }
}

/// The ends of a long fingerprint.
pub fn source_fingerprint_preview(value: &str) -> (res: String)
    requires
        can_shorten(encode_utf8(value@)),
    ensures
        encode_utf8(res@) == fingerprint_preview(encode_utf8(value@)),
{
    let length: usize = value.as_bytes().len();
    if length > 24 {
        let (start, _) = value.split_at(15);
        let (_, end) = value.split_at(length - 8);
        let res = start.to_owned().concat("…").concat(end);
        proof {
            lemma_encode_concat(start@, "…"@);
            lemma_encode_concat(start@ + "…"@, end@);
        }
        res
    } else {
        value.to_owned()
    }
}

/// Fingerprints that can be excluded can be shortened.
pub proof fn valid_fingerprints_can_be_shortened(value: Seq<char>)
    requires
        valid_fingerprint(value),
    ensures
        can_shorten(encode_utf8(value)),
{
    reveal_strlit("sha256:");
    assert forall|i: int| 0 <= i < value.len() implies '\0' <= #[trigger] value[i] <= '\u{7f}' by {
        if i < 7 {
            assert(value[i] == value.subrange(0, 7)[i]);
        } else {
            assert(is_lower_hex_char(value[i]));
        }
    }
    assert(is_ascii_chars(value));
    is_ascii_chars_encode_utf8(value);
    encode_utf8_valid_utf8(value);
    let bytes = encode_utf8(value);
    assert(bytes[15] == value[15] as u8);
    assert(bytes[63] == value[63] as u8);
    is_char_boundary_iff_is_leading_byte(bytes, 15);
    is_char_boundary_iff_is_leading_byte(bytes, 63);
}

/// What is shown of an item.
#[derive(Debug, PartialEq, Eq)]
pub struct ClipboardRow {
    pub heading: &'static str,
    pub size: String,
    pub pin_label: &'static str,
    pub preview: String,
}

#[verifier::ext_equal]
pub struct RowView {
    pub heading: Seq<char>,
    pub size: Seq<char>,
    pub pin_label: Seq<char>,
    pub preview: Seq<char>,
}

impl View for ClipboardRow {
    type V = RowView;

    open spec fn view(&self) -> RowView {
        RowView {
            heading: self.heading@,
            size: self.size@,
            pin_label: self.pin_label@,
            preview: self.preview@,
        }
    }
}

pub open spec fn row_of(item: ItemView) -> RowView {
    RowView {
        heading: if item.is_pinned { "Pinned"@ } else { "Clipboard"@ },
        size: decimal_text(item.byte_size as nat) + " bytes"@,
        pin_label: if item.is_pinned { "Unpin"@ } else { "Pin"@ },
        preview: preview(item.text),
    }
}

/// What is shown of an item.
pub fn clipboard_row(item: &ClipboardItem) -> (res: ClipboardRow)
    ensures
        res@ == row_of(item@),
{
    ClipboardRow {
        heading: if item.is_pinned { "Pinned" } else { "Clipboard" },
        size: to_decimal(item.byte_size as u64).concat(" bytes"),
        pin_label: if item.is_pinned { "Unpin" } else { "Pin" },
        preview: clipboard_preview(item.text.as_str()),
    }
}

/// What an item's pin button does: it turns the pin over.
pub fn pin_action(item: &ClipboardItem) -> (res: WorkspaceAction)
    ensures
        res@ == (if item@.is_pinned {
            ActionView::UnpinItem(item@.item_id)
        } else {
            ActionView::PinItem(item@.item_id)
        }),
{
    if item.is_pinned {
        WorkspaceAction::UnpinItem(item.item_id)
    } else {
        WorkspaceAction::PinItem(item.item_id)
    }
}

/// What the window says of closing it.
pub fn tray_hint(tray_available: bool) -> (res: &'static str)
    ensures
        res@ == (if tray_available {
            "Closing this window keeps File Tunnel in the system tray."@
        } else {
            "System tray unavailable. Closing this window quits the app."@
        }),
{
    if tray_available {
        "Closing this window keeps File Tunnel in the system tray."
    } else {
        "System tray unavailable. Closing this window quits the app."
    }
}

/// The clipboard and privacy pages with the shell around them.
pub struct ClipboardController {
    workspace: ClipboardWorkspace,
    shell: ShellState,
    last_clipboard_hash: Option<String>,
    last_clipboard_poll: Instant,
    workspace_message: Option<String>,
    source_exclusion_input: String,
}

impl View for ClipboardController {
    type V = ClipboardView;

    closed spec fn view(&self) -> ClipboardView {
        ClipboardView {
            workspace: self.workspace@,
            shell: self.shell,
            last_hash: optional_text(self.last_clipboard_hash),
            message: optional_text(self.workspace_message),
            exclusion_input: self.source_exclusion_input@,
            last_poll: self.last_clipboard_poll,
        }
    }
}

impl ClipboardController {
    /// The pages of a new process: an empty workspace, capture paused, the window open.
    pub fn new() -> (res: Self)
        ensures
            res@ == initial_pages(res@.last_poll),
            clock_gave(res@.last_poll),
    {
        let res = ClipboardController {
            workspace: ClipboardWorkspace::default(),
            shell: ShellState::default(),
            last_clipboard_hash: None,
            last_clipboard_poll: instant_now(),
            workspace_message: None,
            source_exclusion_input: String::new(),
        };
        assert(res@.exclusion_input =~= Seq::empty());
        res
    }

    /// Act on the workspace as the user sees it now, and say whether the action was applied.
    pub fn apply_workspace_action(&mut self, action: WorkspaceAction) -> (res: bool)
        ensures
            exists|command_id: u128, now: i128|
                drawn_uuid(command_id) && calendar_showed(now) && (res, final(self)@)
                    == #[trigger] action_outcome(old(self)@, action@, command_id, now),
    {
        self.apply_action_as(action, uuid_random(), Timestamp::now())
    }

    /// Act on the workspace as that command at that moment.
    pub fn apply_action_as(&mut self, action: WorkspaceAction, command_id: u128, now: Timestamp) -> (res:
        bool)
        ensures
            (res, final(self)@) == action_outcome(
                old(self)@,
                action@,
                command_id,
                now.unix_nanos,
            ),
    {
        let revision: u64 = self.workspace.revision();
        match self.workspace.apply(command_id, revision, action, now) {
            Ok(()) => {
                self.workspace_message = None;
                true
            },
            Err(error) => {
                self.workspace_message = Some(error.message().to_owned());
                false
            },
        }
    }

    /// Turn capture on or off.
    pub fn set_capture_active(&mut self, active: bool)
        ensures
            exists|command_id: u128, now: i128|
                drawn_uuid(command_id) && calendar_showed(now) && final(self)@
                    == #[trigger] capture_outcome(old(self)@, active, command_id, now),
    {
        self.set_capture_active_as(active, uuid_random(), Timestamp::now());
    }

    /// Turn capture on or off as that command at that moment.
    pub fn set_capture_active_as(&mut self, active: bool, command_id: u128, now: Timestamp)
        ensures
            final(self)@ == capture_outcome(old(self)@, active, command_id, now.unix_nanos),
    {
        let expected = if active {
            CaptureState::Active
        } else {
            CaptureState::Paused
        };
        if self.workspace.capture_state() != expected {
            let action = if active {
                WorkspaceAction::ResumeCapture
            } else {
                WorkspaceAction::PauseCapture
            };
            self.apply_action_as(action, command_id, now);
        }
        self.shell.capture_active = self.workspace.capture_state() == CaptureState::Active;
    }

    /// Whether the clipboard is to be read at all.
    pub fn is_capturing(&self) -> (res: bool)
        ensures
            res == (self@.workspace.capture_state == CaptureState::Active),
    {
        self.workspace.capture_state() == CaptureState::Active
    }

    /// Take over what the clipboard holds. `report_empty` is set where the user asked for it.
    pub fn capture_clipboard_text(&mut self, report_empty: bool, read: ClipboardRead)
        ensures
            exists|item_id: u128, captured_at: i128, command_id: u128, now: i128|
                drawn_uuid(item_id) && calendar_showed(captured_at) && drawn_uuid(command_id)
                    && calendar_showed(now) && final(self)@ == #[trigger] read_outcome(
                    old(self)@,
                    report_empty,
                    read@,
                    item_id,
                    captured_at,
                    command_id,
                    now,
                ),
    {
        self.capture_text_as(
            report_empty,
            read,
            uuid_random(),
            Timestamp::now(),
            uuid_random(),
            Timestamp::now(),
        );
    }

    /// Take over what the clipboard holds, as that item captured at that moment, by that command.
    pub fn capture_text_as(
        &mut self,
        report_empty: bool,
        read: ClipboardRead,
        item_id: u128,
        captured_at: Timestamp,
        command_id: u128,
        now: Timestamp,
    )
        ensures
            final(self)@ == read_outcome(
                old(self)@,
                report_empty,
                read@,
                item_id,
                captured_at.unix_nanos,
                command_id,
                now.unix_nanos,
            ),
    {
        if self.workspace.capture_state() != CaptureState::Active {
            return;
        }
        let text = match read {
            ClipboardRead::Unavailable => {
                if report_empty {
                    self.workspace_message =
                    Some("Clipboard access is unavailable on this system.".to_owned());
                }
                return;
            },
            ClipboardRead::NoText => {
                if report_empty {
                    self.workspace_message =
                    Some("The clipboard does not contain plain text.".to_owned());
                }
                return;
            },
            ClipboardRead::Text(text) => text,
        };
        if text.as_str().unicode_len() == 0 {
            return;
        }
        let content_sha256 = content_sha256_hex(text.as_str());
        let is_current = match &self.last_clipboard_hash {
            Some(last) => *last == content_sha256,
            None => false,
        };
        if is_current {
            if report_empty {
                self.workspace_message = Some("That clipboard item is already current.".to_owned());
            }
            return;
        }
        let byte_size: usize = text.as_str().as_bytes().len();
        let action = WorkspaceAction::IngestText {
            item_id,
            byte_size,
            text,
            content_sha256: content_sha256.clone(),
            captured_at,
            source_fingerprint: None,
        };
        if self.apply_action_as(action, command_id, now) {
            self.last_clipboard_hash = Some(content_sha256);
        }
    }

    /// An item was copied to the system clipboard, or not.
    pub fn copy_clipboard_item(&mut self, item: &ClipboardItem, written: ClipboardWrite)
        ensures
            final(self)@ == copy_outcome(old(self)@, item@.content_sha256, written),
    {
        match written {
            ClipboardWrite::Unavailable => {
                self.workspace_message =
                Some("Clipboard access is unavailable on this system.".to_owned());
            },
            ClipboardWrite::Refused => {
                self.workspace_message = Some("The clipboard could not be updated.".to_owned());
            },
            ClipboardWrite::Written => {
                self.last_clipboard_hash = Some(item.content_sha256.clone());
                self.workspace_message = Some("Copied to the system clipboard.".to_owned());
            },
        }
    }

    /// The label of the button that turns capture on or off.
    pub fn capture_button(&self) -> (res: &'static str)
        ensures
            res@ == (if self@.workspace.capture_state == CaptureState::Active {
                "Pause capture"@
            } else {
                "Resume capture"@
            }),
    {
        if self.is_capturing() {
            "Pause capture"
        } else {
            "Resume capture"
        }
    }

    /// What the window says of capture.
    pub fn capture_label(&self) -> (res: &'static str)
        ensures
            res@ == (if self@.workspace.capture_state == CaptureState::Active {
                "Clipboard capture: active"@
            } else {
                "Clipboard capture: paused"@
            }),
    {
        if self.is_capturing() {
            "Clipboard capture: active"
        } else {
            "Clipboard capture: paused"
        }
    }

    /// What is said where no item is shown.
    pub fn empty_hint(&self) -> (res: &'static str)
        ensures
            res@ == (if self@.workspace.search_query.len() == 0 {
                "Resume capture to begin a private, in-memory history."@
            } else {
                "No captured text matches this search."@
            }),
    {
        if self.workspace.search_query().unicode_len() == 0 {
            "Resume capture to begin a private, in-memory history."
        } else {
            "No captured text matches this search."
        }
    }

    /// Whether the clipboard is due to be read, `elapsed` nanoseconds after it was read last.
    pub fn poll_due_after(&self, elapsed: u128) -> (res: bool)
        ensures
            res == poll_due(self@, elapsed),
    {
        self.workspace.capture_state() == CaptureState::Active && elapsed >= POLL_INTERVAL
    }

    /// Whether the clipboard is due to be read; where it is, the interval starts anew.
    pub fn poll_clipboard(&mut self) -> (res: bool)
        ensures
            exists|elapsed: u128|
                clock_measured(old(self)@.last_poll, elapsed) && res == #[trigger] poll_due(
                    old(self)@,
                    elapsed,
                ),
            final(self)@ == (if res {
                ClipboardView { last_poll: final(self)@.last_poll, ..old(self)@ }
            } else {
                old(self)@
            }),
            res ==> clock_gave(final(self)@.last_poll),
    {
        let elapsed: u128 = elapsed_nanos(&self.last_clipboard_poll);
        if self.poll_due_after(elapsed) {
            self.last_clipboard_poll = instant_now();
            true
        } else {
            false
        }
    }

    /// Do what the tray asks for, and say what the window has to do.
    pub fn process_shell(&mut self, action: ShellAction) -> (res: Vec<WindowCommand>)
        ensures
            exists|command_id: u128, now: i128|
                drawn_uuid(command_id) && calendar_showed(now) && (res@, final(self)@)
                    == #[trigger] shell_outcome(old(self)@, action, command_id, now),
    {
        self.process_shell_as(action, uuid_random(), Timestamp::now())
    }

    /// Do what the tray asks for, as that command at that moment.
    pub fn process_shell_as(&mut self, action: ShellAction, command_id: u128, now: Timestamp) -> (res:
        Vec<WindowCommand>)
        ensures
            (res@, final(self)@) == shell_outcome(old(self)@, action, command_id, now.unix_nanos),
    {
        let mut commands: Vec<WindowCommand> = Vec::new();
        match action {
            ShellAction::OpenWindow => {
                self.shell.apply(action);
                commands.push(WindowCommand::Show);
                commands.push(WindowCommand::Focus);
            },
            ShellAction::HideWindow => {
                self.shell.apply(action);
                commands.push(WindowCommand::Hide);
            },
            ShellAction::PauseCapture => self.set_capture_active_as(false, command_id, now),
            ShellAction::ResumeCapture => self.set_capture_active_as(true, command_id, now),
            ShellAction::Quit => {
                self.shell.apply(action);
                commands.push(WindowCommand::Close);
            },
        }
        assert(commands@ =~= shell_outcome(old(self)@, action, command_id, now.unix_nanos).0);
        commands
    }

    /// The window manager asked to close the window.
    pub fn close_requested(&mut self, tray_available: bool) -> (res: Vec<WindowCommand>)
        ensures
            res@ == (if close_hides(old(self)@.shell, tray_available) {
                seq![WindowCommand::CancelClose, WindowCommand::Hide]
            } else {
                Seq::empty()
            }),
            final(self)@ == (if close_hides(old(self)@.shell, tray_available) {
                ClipboardView {
                    shell: ShellState { window_visible: false, ..old(self)@.shell },
                    ..old(self)@
                }
            } else {
                old(self)@
            }),
    {
        let mut commands: Vec<WindowCommand> = Vec::new();
        if self.shell.on_close_requested(tray_available) {
            commands.push(WindowCommand::CancelClose);
            commands.push(WindowCommand::Hide);
        }
        assert(commands@ =~= if close_hides(old(self)@.shell, tray_available) {
            seq![WindowCommand::CancelClose, WindowCommand::Hide]
        } else {
            Seq::empty()
        });
        commands
    }

    /// Exclude the fingerprint that was entered.
    pub fn add_exclusion(&mut self) -> (res: bool)
        ensures
            exists|listed: Seq<Seq<char>>, command_id: u128, now: i128|
                drawn_uuid(command_id) && calendar_showed(now) && #[trigger] lists_exclusions(
                    old(self)@,
                    listed,
                ) && (res, final(self)@)
                    == #[trigger] add_outcome(
                    old(self)@,
                    listed,
                    trimmed(old(self)@.exclusion_input),
                    command_id,
                    now,
                ),
    {
        let entered = trim(self.source_exclusion_input.as_str()).to_owned();
        self.add_exclusion_as(entered, uuid_random(), Timestamp::now())
    }

    /// Exclude a fingerprint as that command at that moment.
    pub fn add_exclusion_as(&mut self, entered: String, command_id: u128, now: Timestamp) -> (res:
        bool)
        ensures
            exists|listed: Seq<Seq<char>>| #[trigger]
                lists_exclusions(old(self)@, listed) && (res, final(self)@) == add_outcome(
                    old(self)@,
                    listed,
                    entered@,
                    command_id,
                    now.unix_nanos,
                ),
    {
        let mut values = clone_texts(self.workspace.excluded_source_fingerprints());
        let ghost listed = texts(values@);
        values.push(entered);
        assert(texts(values@) =~= listed.push(entered@));
        assert(lists_exclusions(old(self)@, listed));
        if self.apply_action_as(WorkspaceAction::SetSourceExclusions(values), command_id, now) {
            self.source_exclusion_input = String::new();
            assert(self.source_exclusion_input@ =~= Seq::empty());
            true
        } else {
            false
        }
    }

    /// Exclude a fingerprint no longer.
    pub fn remove_exclusion(&mut self, fingerprint: &String) -> (res: bool)
        ensures
            exists|listed: Seq<Seq<char>>, command_id: u128, now: i128|
                drawn_uuid(command_id) && calendar_showed(now) && #[trigger] lists_exclusions(
                    old(self)@,
                    listed,
                ) && (res, final(self)@)
                    == #[trigger] action_outcome(
                    old(self)@,
                    ActionView::SetSourceExclusions(without(listed, fingerprint@)),
                    command_id,
                    now,
                ),
    {
        self.remove_exclusion_as(fingerprint, uuid_random(), Timestamp::now())
    }

    /// Exclude a fingerprint no longer, as that command at that moment.
    pub fn remove_exclusion_as(&mut self, fingerprint: &String, command_id: u128, now: Timestamp) -> (res:
        bool)
        ensures
            exists|listed: Seq<Seq<char>>| #[trigger]
                lists_exclusions(old(self)@, listed) && (res, final(self)@) == action_outcome(
                    old(self)@,
                    ActionView::SetSourceExclusions(without(listed, fingerprint@)),
                    command_id,
                    now.unix_nanos,
                ),
    {
        let current = self.workspace.excluded_source_fingerprints();
        let ghost listed = texts(current@);
        let mut values: Vec<String> = Vec::new();
        let mut i: usize = 0;
        assert(texts(values@) =~= without(listed.take(0), fingerprint@));
        while i < current.len()
            invariant
                i <= current@.len(),
                listed == texts(current@),
                texts(values@) == without(listed.take(i as int), fingerprint@),
            decreases current@.len() - i,
        {
            proof {
                reveal(Seq::filter);
                let next = listed.take(i + 1);
                assert(next.drop_last() =~= listed.take(i as int));
                assert(next.last() == current@[i as int]@);
            }
            if current[i] != *fingerprint {
                let ghost before = values@;
                values.push(current[i].clone());
                assert(texts(values@) =~= texts(before).push(current@[i as int]@));
            }
            i += 1;
        }
        assert(listed.take(listed.len() as int) =~= listed);
        assert(lists_exclusions(old(self)@, listed));
        self.apply_action_as(WorkspaceAction::SetSourceExclusions(values), command_id, now)
    }

    /// Whether a policy differs from the current one.
    pub fn retention_changed(&self, policy: RetentionPolicy) -> (res: bool)
        ensures
            res == (policy != self@.workspace.retention),
    {
        let current = self.workspace.retention();
        policy.max_items != current.max_items || policy.max_age_days != current.max_age_days
            || policy.deduplicate != current.deduplicate
    }

    /// Whether there is an item that clearing would remove.
    pub fn has_unpinned(&self) -> (res: bool)
        ensures
            res == exists|i: int|
                0 <= i < self@.workspace.items.len() && !(
                #[trigger] self@.workspace.items[i]).is_pinned,
    {
        let items = self.workspace.items();
        let ghost all = self@.workspace.items;
        let mut i: usize = 0;
        while i < items.len()
            invariant
                i <= items@.len(),
                all == crate::workspace::items_view(items@),
                all == self@.workspace.items,
                forall|j: int| 0 <= j < i ==> (#[trigger] all[j]).is_pinned,
            decreases items@.len() - i,
        {
            assert(all[i as int] == items@[i as int]@);
            if !items[i].is_pinned {
                return true;
            }
            i += 1;
        }
        false
    }

    pub fn workspace(&self) -> (res: &ClipboardWorkspace)
        ensures
            res@ == self@.workspace,
    {
        &self.workspace
    }

    pub fn shell(&self) -> (res: ShellState)
        ensures
            res == self@.shell,
    {
        self.shell
    }

    pub fn message(&self) -> (res: Option<&String>)
        ensures
            match res {
                Some(message) => self@.message == Some(message@),
                None => self@.message is None,
            },
    {
        self.workspace_message.as_ref()
    }

    pub fn exclusion_input(&self) -> (res: &str)
        ensures
            res@ == self@.exclusion_input,
    {
        self.source_exclusion_input.as_str()
    }

    pub fn set_exclusion_input(&mut self, input: String)
        ensures
            final(self)@ == (ClipboardView { exclusion_input: input@, ..old(self)@ }),
    {
        self.source_exclusion_input = input;
    }
}

} // verus!
