//! The settings window's lifecycle decisions, and when the window is sent a
//! fresh snapshot of the runtime state.
//!
//! Closing the window hides it. The runtime is told whether the window is
//! open and focused, so it can hold back the OSD while the user is adjusting
//! the same settings in the window; focus changes that arrive after a hide are
//! ignored so they cannot re-arm that suppression. The window is placed above
//! the tray the first time it is shown and stays where the user moves it.

use vstd::prelude::*;

verus! {

/// The settings window keeps clear of the taskbar by a tenth of the screen
/// height below it, and a tenth of that to its right.
pub const PADDING_DIVISOR: u32 = 10;

/// Where the window first appears: the bottom-right corner of the primary
/// monitor, clear of the taskbar, never off the top or left edge. Physical
/// pixels relative to the monitor origin.
pub open spec fn spec_spawn_position(screen_w: int, screen_h: int, window_w: int, window_h: int) -> (int, int) {
    let padding = screen_h / PADDING_DIVISOR as int;
    let x = screen_w - window_w - padding / PADDING_DIVISOR as int;
    let y = screen_h - window_h - padding;
    (if x < 0 { 0 } else { x }, if y < 0 { 0 } else { y })
}

/// The spawn position for a screen and a window, given as (width, height).
/// The padding is a tenth of the height in whole pixels; heights are those
/// a single-precision float holds exactly, and every coordinate computed
/// stays within `i32`.
pub fn spawn_position(screen: (u32, u32), window: (u32, u32)) -> (pos: (i32, i32))
    requires
        screen.1 < 0x100_0000,
        screen.0 <= i32::MAX,
        window.0 <= i32::MAX,
        window.1 <= i32::MAX,
        screen.0 - window.0 - screen.1 / 100 >= i32::MIN,
        screen.1 - window.1 - screen.1 / 10 >= i32::MIN,
    ensures
        pos.0 as int == spec_spawn_position(screen.0 as int, screen.1 as int, window.0 as int, window.1 as int).0,
        pos.1 as int == spec_spawn_position(screen.0 as int, screen.1 as int, window.0 as int, window.1 as int).1,
{
    let padding: i64 = (screen.1 / PADDING_DIVISOR) as i64;
    assert(padding / 10 == screen.1 / 100) by (nonlinear_arith)
        requires padding == screen.1 / 10;
    let x: i64 = screen.0 as i64 - window.0 as i64 - padding / (PADDING_DIVISOR as i64);
    let y: i64 = screen.1 as i64 - window.1 as i64 - padding;
    let x: i64 = if x < 0 { 0 } else { x };
    let y: i64 = if y < 0 { 0 } else { y };
    (x as i32, y as i32)
}

/// What the runtime has been told about the window.
#[derive(Clone, Copy, Debug, Default, PartialEq, Eq, Structural)]
pub struct WindowState {
    /// Whether the window is open, as last reported.
    pub open: bool,
    /// Whether it has been placed since the process started.
    pub placed: bool,
}

/// What to tell the runtime, and whether to push a snapshot to the window.
#[derive(Clone, Copy, Debug, PartialEq, Eq, Structural)]
pub struct WindowReport {
    pub open: bool,
    pub focused: bool,
    pub push_snapshot: bool,
}

/// What a click on the tray icon does.
#[derive(Clone, Copy, Debug, PartialEq, Eq, Structural)]
pub enum WindowAction {
    Show,
    Hide,
}

/// A tray click hides a visible window and shows a hidden one.
pub fn toggle_window(visible: bool) -> (action: WindowAction)
    ensures
        action == (if visible { WindowAction::Hide } else { WindowAction::Show }),
{
    if visible {
        WindowAction::Hide
    } else {
        WindowAction::Show
    }
}

impl WindowState {
    pub fn new() -> (state: Self)
        ensures
            !state.open,
            !state.placed,
    {
        WindowState { open: false, placed: false }
    }

    /// Whether the window is to be placed now: only the first time it is
    /// shown.
    pub fn place_once(&mut self) -> (place: bool)
        ensures
            place == !old(self).placed,
            final(self).placed,
            final(self).open == old(self).open,
    {
        let place = !self.placed;
        self.placed = true;
        place
    }

    /// Records that the window was shown and focused; a snapshot is pushed
    /// since it may have missed updates while hidden.
    pub fn show_window(&mut self) -> (report: WindowReport)
        ensures
            *final(self) == shown(*old(self)),
            report == (WindowReport { open: true, focused: true, push_snapshot: true }),
    {
        self.open = true;
        WindowReport { open: true, focused: true, push_snapshot: true }
    }

    /// Records that the window was hidden.
    pub fn hide_window(&mut self) -> (report: WindowReport)
        ensures
            *final(self) == hidden(*old(self)),
            report == (WindowReport { open: false, focused: false, push_snapshot: false }),
    {
        self.open = false;
        WindowReport { open: false, focused: false, push_snapshot: false }
    }

    /// A focus change of the window's webview: passed on while the window is
    /// open, with a snapshot when it gains focus; ignored once it is hidden.
    pub fn report_focus(&self, focused: bool) -> (report: Option<WindowReport>)
        ensures
            report == spec_report_focus(*self, focused),
    {
        if !self.open {
            return None;
        }
        Some(WindowReport { open: true, focused, push_snapshot: focused })
    }
}

/// The state once the window has been shown.
pub open spec fn shown(state: WindowState) -> WindowState {
    WindowState { open: true, ..state }
}

/// The state once the window has been hidden.
pub open spec fn hidden(state: WindowState) -> WindowState {
    WindowState { open: false, ..state }
}

/// What a focus change reports in a given state.
pub open spec fn spec_report_focus(state: WindowState, focused: bool) -> Option<WindowReport> {
    if state.open {
        Some(WindowReport { open: true, focused, push_snapshot: focused })
    } else {
        None
    }
}

/// Once the window is hidden no focus change reaches the runtime, whatever
/// came before; once it is shown every one does, and gaining focus pushes a
/// snapshot.
pub proof fn focus_follows_visibility(state: WindowState, focused: bool)
    ensures
        spec_report_focus(hidden(state), focused) is None,
        spec_report_focus(shown(state), focused) == Some(
            WindowReport { open: true, focused, push_snapshot: focused },
        ),
        hidden(shown(state)).placed == state.placed,
{
}

/// A request to the snapshot pusher.
#[derive(Clone, Copy, Debug, PartialEq, Eq, Structural)]
pub enum PushRequest {
    /// Something may have changed; push unless nobody is watching.
    Changed,
    /// The window just became visible; push whatever happens.
    Immediate,
}

/// Whether any request in a coalesced burst asked for an immediate push.
pub open spec fn any_immediate(requests: Seq<PushRequest>) -> bool {
    exists|i: int| 0 <= i < requests.len() && requests[i] == PushRequest::Immediate
}

/// Folds a burst of requests into one: forced when any of them was.
pub fn coalesce(first: PushRequest, rest: &[PushRequest]) -> (forced: bool)
    ensures
        forced == (first == PushRequest::Immediate || any_immediate(rest@)),
{
    let mut forced = first == PushRequest::Immediate;
    let mut i: usize = 0;
    while i < rest.len()
        invariant
            i <= rest@.len(),
            forced == (first == PushRequest::Immediate || any_immediate(rest@.take(i as int))),
        decreases rest.len() - i,
    {
        if rest[i] == PushRequest::Immediate {
            forced = true;
        }
        proof {
            let before = rest@.take(i as int);
            let after = rest@.take(i as int + 1);
            assert(after =~= before.push(rest@[i as int]));
            if any_immediate(before) {
                let j = choose|j: int| 0 <= j < before.len() && before[j] == PushRequest::Immediate;
                assert(after[j] == PushRequest::Immediate);
            }
            if any_immediate(after) && !any_immediate(before) {
                let j = choose|j: int| 0 <= j < after.len() && after[j] == PushRequest::Immediate;
                assert(j == i);
            }
            if rest@[i as int] == PushRequest::Immediate {
                assert(after[i as int] == PushRequest::Immediate);
            }
        }
        i += 1;
    }
    assert(rest@.take(rest.len() as int) =~= rest@);
    forced
}

/// Reading the state costs a device round trip, so a snapshot is only read
/// when forced or when the window is there to show it.
pub fn should_push_snapshot(forced: bool, window_visible: bool) -> (push: bool)
    ensures
        push == (forced || window_visible),
{
    forced || window_visible
}

} // verus!
