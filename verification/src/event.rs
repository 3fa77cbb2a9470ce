//! The events that translation produces for the policy layer.

use vstd::prelude::*;
use crate::window::{Strut, Window, WindowHandle, WindowType, WindowView};

verus! {

/// The modifier keys and pointer buttons held while an input event happened.
pub type ModMask = u32;

/// A pointer button, by its number.
pub type Button = u32;

/// A logical key symbol, as opposed to the physical keycode.
pub type Keysym = u32;

/// Whether a client wants a state switched off, on, or flipped.
#[derive(Clone, Copy, Debug, PartialEq, Eq, Structural, Hash)]
pub enum StateAction {
    Remove,
    Add,
    Toggle,
}

/// What a client asked the window manager to do with a window.
#[derive(Clone, Copy, Debug, PartialEq, Eq, Structural, Hash)]
pub enum Command {
    CloseWindow(WindowHandle),
    FocusWindow(WindowHandle),
    SetFullscreen(WindowHandle, StateAction),
    SetMaximized(WindowHandle, StateAction),
}

impl Command {
    /// The window that the command is about.
    pub open spec fn window(self) -> WindowHandle {
        match self {
            Command::CloseWindow(h) => h,
            Command::FocusWindow(h) => h,
            Command::SetFullscreen(h, _) => h,
            Command::SetMaximized(h, _) => h,
        }
    }
}

/// The new value of one piece of a window's metadata.
#[derive(Clone, Debug, PartialEq, Eq)]
pub enum WindowUpdate {
    Name(String),
    FloatingSize(Option<(u32, u32)>),
    Type(WindowType),
    Strut(Option<Strut>),
}

/// The mathematical value of a [`WindowUpdate`].
pub enum WindowUpdateView {
    Name(Seq<char>),
    FloatingSize(Option<(u32, u32)>),
    Type(WindowType),
    Strut(Option<Strut>),
}

impl View for WindowUpdate {
    type V = WindowUpdateView;

    open spec fn view(&self) -> WindowUpdateView {
        match self {
            WindowUpdate::Name(name) => WindowUpdateView::Name(name@),
            WindowUpdate::FloatingSize(size) => WindowUpdateView::FloatingSize(*size),
            WindowUpdate::Type(type_) => WindowUpdateView::Type(*type_),
            WindowUpdate::Strut(strut) => WindowUpdateView::Strut(*strut),
        }
    }
}

/// A change of a window's metadata: which window, and what it now holds.
#[derive(Clone, Debug, PartialEq, Eq)]
pub struct WindowChange {
    pub handle: WindowHandle,
    pub update: WindowUpdate,
}

/// The mathematical value of a [`WindowChange`].
pub struct WindowChangeView {
    pub handle: WindowHandle,
    pub update: WindowUpdateView,
}

impl View for WindowChange {
    type V = WindowChangeView;

    open spec fn view(&self) -> WindowChangeView {
        WindowChangeView { handle: self.handle, update: self.update@ }
    }
}

/// What happened, in the terms of the window manager.
#[derive(Clone, Debug, PartialEq, Eq)]
pub enum DisplayEvent {
    /// A window asked to be shown and is the window manager's to place.
    WindowCreate(Window),
    /// A window is gone.
    WindowDestroy(WindowHandle),
    /// A pointer button went down over a window.
    MouseCombo(ModMask, Button, WindowHandle),
    /// A drag, if there was one, is over.
    ChangeToNormalMode,
    /// The pointer or the input focus entered a window; the pointer is at
    /// the given screen position.
    FocusedWindow(WindowHandle, i32, i32),
    /// A key went down.
    KeyCombo(ModMask, Keysym),
    /// The pointer moved to the given screen position.
    Movement(WindowHandle, i32, i32),
    /// The window being moved is to be displaced by the given offset from
    /// where the drag began.
    MoveWindow(WindowHandle, i64, i64),
    /// The window being resized is to grow by the given offset from where
    /// the drag began.
    ResizeWindow(WindowHandle, i64, i64),
    /// A window's metadata changed.
    WindowChange(WindowChange),
    /// A client asked for something to be done.
    SendCommand(Command),
}

/// The mathematical value of a [`DisplayEvent`].
pub enum DisplayEventView {
    WindowCreate(WindowView),
    WindowDestroy(WindowHandle),
    MouseCombo(ModMask, Button, WindowHandle),
    ChangeToNormalMode,
    FocusedWindow(WindowHandle, i32, i32),
    KeyCombo(ModMask, Keysym),
    Movement(WindowHandle, i32, i32),
    MoveWindow(WindowHandle, int, int),
    ResizeWindow(WindowHandle, int, int),
    WindowChange(WindowChangeView),
    SendCommand(Command),
}

impl View for DisplayEvent {
    type V = DisplayEventView;

    open spec fn view(&self) -> DisplayEventView {
        match self {
            DisplayEvent::WindowCreate(w) => DisplayEventView::WindowCreate(w@),
            DisplayEvent::WindowDestroy(h) => DisplayEventView::WindowDestroy(*h),
            DisplayEvent::MouseCombo(m, b, h) => DisplayEventView::MouseCombo(*m, *b, *h),
            DisplayEvent::ChangeToNormalMode => DisplayEventView::ChangeToNormalMode,
            DisplayEvent::FocusedWindow(h, x, y) => DisplayEventView::FocusedWindow(*h, *x, *y),
            DisplayEvent::KeyCombo(m, k) => DisplayEventView::KeyCombo(*m, *k),
            DisplayEvent::Movement(h, x, y) => DisplayEventView::Movement(*h, *x, *y),
            DisplayEvent::MoveWindow(h, dx, dy) => DisplayEventView::MoveWindow(
                *h,
                *dx as int,
                *dy as int,
            ),
            DisplayEvent::ResizeWindow(h, dx, dy) => DisplayEventView::ResizeWindow(
                *h,
                *dx as int,
                *dy as int,
            ),
            DisplayEvent::WindowChange(c) => DisplayEventView::WindowChange(c@),
            DisplayEvent::SendCommand(c) => DisplayEventView::SendCommand(*c),
        }
    }
}

/// The mathematical value of what a translation came to: an event, or none.
pub open spec fn event_view(event: Option<DisplayEvent>) -> Option<DisplayEventView> {
    match event {
        Some(e) => Some(e@),
        None => None,
    }
}

} // verus!
