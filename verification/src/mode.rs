//! The interaction mode, and what pointer motion means in each mode.

use vstd::prelude::*;
use crate::event::{DisplayEvent, DisplayEventView};
use crate::window::WindowHandle;

verus! {

/// What the pointer is doing to windows at the moment.
///
/// Exactly one mode is active at any time. The policy layer leaves
/// `NormalMode` when it starts a drag, and goes back to it when it is told
/// [`DisplayEvent::ChangeToNormalMode`]; translation only reads the mode.
#[derive(Clone, Copy, Debug, PartialEq, Eq, Structural, Hash)]
pub enum DisplayServerMode {
    /// No drag is going on.
    NormalMode,
    /// The pointer drags the given window about.
    MovingWindow(WindowHandle),
    /// The pointer drags an edge of the given window.
    ResizingWindow(WindowHandle),
}

/// What a motion of the pointer to `(x_root, y_root)` over `window` means
/// while `mode` is active and the drag, if any, began at `origin`.
///
/// Without a drag it is a plain movement, at the absolute position. During a
/// drag it concerns the dragged window, whichever window the pointer is
/// over, and carries the offset from the origin: `x_root - origin.0` and
/// `y_root - origin.1`.
pub open spec fn motion_event(
    mode: DisplayServerMode,
    origin: (i32, i32),
    window: u64,
    x_root: i32,
    y_root: i32,
) -> DisplayEventView {
    match mode {
        DisplayServerMode::NormalMode => DisplayEventView::Movement(
            WindowHandle::XlibHandle(window),
            x_root,
            y_root,
        ),
        DisplayServerMode::MovingWindow(h) => DisplayEventView::MoveWindow(
            h,
            x_root - origin.0,
            y_root - origin.1,
        ),
        DisplayServerMode::ResizingWindow(h) => DisplayEventView::ResizeWindow(
            h,
            x_root - origin.0,
            y_root - origin.1,
        ),
    }
}

impl DisplayServerMode {
    /// The event for a motion of the pointer to `(x_root, y_root)` over
    /// `window`, where the drag, if any, began at `origin`.
    ///
    /// The offsets are differences of two `i32`, which an `i64` always holds.
    pub fn on_motion(&self, origin: (i32, i32), window: u64, x_root: i32, y_root: i32) -> (event:
        DisplayEvent)
        ensures
            event@ == motion_event(*self, origin, window, x_root, y_root),
    {
        match self {
            DisplayServerMode::NormalMode => DisplayEvent::Movement(
                WindowHandle::XlibHandle(window),
                x_root,
                y_root,
            ),
            DisplayServerMode::MovingWindow(h) => DisplayEvent::MoveWindow(
                *h,
                x_root as i64 - origin.0 as i64,
                y_root as i64 - origin.1 as i64,
            ),
            DisplayServerMode::ResizingWindow(h) => DisplayEvent::ResizeWindow(
                *h,
                x_root as i64 - origin.0 as i64,
                y_root as i64 - origin.1 as i64,
            ),
        }
    }
}

} // verus!
