//! The window and tray shell.
use crate::text::same_text;
use vstd::prelude::*;

verus! {

pub const OPEN_ID: &'static str = "ftnl.open";

pub const HIDE_ID: &'static str = "ftnl.hide";

pub const PAUSE_ID: &'static str = "ftnl.pause";

pub const RESUME_ID: &'static str = "ftnl.resume";

pub const QUIT_ID: &'static str = "ftnl.quit";

/// The width and height of the tray icon in pixels.
pub const ICON_SIDE: u32 = 32;

#[derive(Clone, Copy, Debug, Eq, PartialEq, Structural)]
pub enum ShellAction {
    OpenWindow,
    HideWindow,
    PauseCapture,
    ResumeCapture,
    Quit,
}

#[derive(Clone, Copy, Debug, Eq, PartialEq, Structural)]
pub struct ShellState {
    pub window_visible: bool,
    pub capture_active: bool,
    pub quit_requested: bool,
}

/// What the window is told to do.
#[derive(Clone, Copy, Debug, Eq, PartialEq, Structural)]
pub enum WindowCommand {
    Show,
    Hide,
    Focus,
    Close,
    CancelClose,
}

impl Default for ShellState {
    fn default() -> (res: Self)
        ensures
            res == (ShellState {
                window_visible: true,
                capture_active: false,
                quit_requested: false,
            }),
    {
        ShellState { window_visible: true, capture_active: false, quit_requested: false }
    }
}

/// The shell after an action. Each action sets one flag and leaves the others.
pub open spec fn shell_after(state: ShellState, action: ShellAction) -> ShellState {
    match action {
        ShellAction::OpenWindow => ShellState { window_visible: true, ..state },
        ShellAction::HideWindow => ShellState { window_visible: false, ..state },
        ShellAction::PauseCapture => ShellState { capture_active: false, ..state },
        ShellAction::ResumeCapture => ShellState { capture_active: true, ..state },
        ShellAction::Quit => ShellState { quit_requested: true, ..state },
    }
}

/// Whether a close request only hides the window: only with a tray to come back from, and not
/// once the user asked to quit.
pub open spec fn close_hides(state: ShellState, tray_available: bool) -> bool {
    !state.quit_requested && tray_available
}

impl ShellState {
    pub fn apply(&mut self, action: ShellAction)
        ensures
            *final(self) == shell_after(*old(self), action),
    {
        match action {
            ShellAction::OpenWindow => self.window_visible = true,
            ShellAction::HideWindow => self.window_visible = false,
            ShellAction::PauseCapture => self.capture_active = false,
            ShellAction::ResumeCapture => self.capture_active = true,
            ShellAction::Quit => self.quit_requested = true,
        }
    }

    /// Whether the close request is turned into hiding the window.
    pub fn on_close_requested(&mut self, tray_available: bool) -> (res: bool)
        ensures
            res == close_hides(*old(self), tray_available),
            *final(self) == (if res {
                ShellState { window_visible: false, ..*old(self) }
            } else {
                *old(self)
            }),
    {
        if self.quit_requested || !tray_available {
            false
        } else {
            self.window_visible = false;
            true
        }
    }
}

/// Capture and the window do not affect each other.
pub proof fn capture_and_window_are_independent(state: ShellState, action: ShellAction)
    ensures
        action is OpenWindow || action is HideWindow || action is Quit ==> shell_after(
            state,
            action,
        ).capture_active == state.capture_active,
        action is PauseCapture || action is ResumeCapture || action is Quit ==> shell_after(
            state,
            action,
        ).window_visible == state.window_visible,
{
}

/// Without a tray the window never becomes unreachable: a close request closes it. With a tray
/// it closes only after the user asked to quit, and nothing takes that back.
pub proof fn closing_quits_only_without_tray_or_on_request(
    state: ShellState,
    tray_available: bool,
    action: ShellAction,
)
    ensures
        !close_hides(state, tray_available) <==> (state.quit_requested || !tray_available),
        state.quit_requested ==> shell_after(state, action).quit_requested,
{
}

/// The action of a menu item, `None` for an item that is not known.
pub open spec fn action_of(id: Seq<char>) -> Option<ShellAction> {
    if id == OPEN_ID@ {
        Some(ShellAction::OpenWindow)
    } else if id == HIDE_ID@ {
        Some(ShellAction::HideWindow)
    } else if id == PAUSE_ID@ {
        Some(ShellAction::PauseCapture)
    } else if id == RESUME_ID@ {
        Some(ShellAction::ResumeCapture)
    } else if id == QUIT_ID@ {
        Some(ShellAction::Quit)
    } else {
        None
    }
}

/// The action of a menu item.
pub fn menu_action(id: &str) -> (res: Option<ShellAction>)
    ensures
        res == action_of(id@),
{
    if same_text(id, OPEN_ID) {
        Some(ShellAction::OpenWindow)
    } else if same_text(id, HIDE_ID) {
        Some(ShellAction::HideWindow)
    } else if same_text(id, PAUSE_ID) {
        Some(ShellAction::PauseCapture)
    } else if same_text(id, RESUME_ID) {
        Some(ShellAction::ResumeCapture)
    } else if same_text(id, QUIT_ID) {
        Some(ShellAction::Quit)
    } else {
        None
    }
}

/// The red, green, blue and alpha of the icon's pixel: a light cross on a blue square on nothing.
pub open spec fn icon_pixel(x: int, y: int) -> Seq<u8> {
    let inside = 5 <= x < 27 && 5 <= y < 27;
    let tunnel = 12 <= x < 20 || 12 <= y < 20;
    if inside && tunnel {
        seq![238u8, 246u8, 255u8, 255u8]
    } else if inside {
        seq![29u8, 99u8, 237u8, 255u8]
    } else {
        seq![0u8, 0u8, 0u8, 0u8]
    }
}

/// The icon row by row, four bytes per pixel.
pub open spec fn icon_bytes() -> Seq<u8> {
    Seq::new(4096, |i: int| icon_pixel(i / 4 % 32, i / 4 / 32)[i % 4])
}

/// The tray icon, four bytes per pixel.
pub fn icon_rgba() -> (res: Vec<u8>)
    ensures
        res@ == icon_bytes(),
{
    let mut rgba: Vec<u8> = Vec::new();
    let mut n: u32 = 0;
    while n < ICON_SIDE * ICON_SIDE
        invariant
            n <= 1024,
            rgba@ == icon_bytes().take(4 * n),
        decreases 1024 - n,
    {
        let x: u32 = n % ICON_SIDE;
        let y: u32 = n / ICON_SIDE;
        let inside = 5 <= x && x < 27 && 5 <= y && y < 27;
        let tunnel = (12 <= x && x < 20) || (12 <= y && y < 20);
        let pixel: [u8; 4] = if inside && tunnel {
            [238, 246, 255, 255]
        } else if inside {
            [29, 99, 237, 255]
        } else {
            [0, 0, 0, 0]
        };
        assert(pixel@ =~= icon_pixel(n as int % 32, n as int / 32));
        rgba.extend_from_slice(&pixel);
        n += 1;
        assert(rgba@ =~= icon_bytes().take(4 * n));
    }
    assert(rgba@ =~= icon_bytes());
    rgba
}

} // verus!
