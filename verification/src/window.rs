//! Window identity and the window record handed to the policy layer.

use vstd::prelude::*;

verus! {

/// Identity of a window. Two handles are equal exactly when their ids are.
///
/// A handle owns nothing: it is a key into tables that the window manager
/// keeps elsewhere, and it stays a valid key after the window is gone.
#[derive(Clone, Copy, Debug, PartialEq, Eq, Structural, Hash)]
pub enum WindowHandle {
    /// A window of the X server, by its resource id.
    XlibHandle(u64),
}

impl WindowHandle {
    /// The id that the handle wraps.
    pub open spec fn id(self) -> u64 {
        match self {
            WindowHandle::XlibHandle(id) => id,
        }
    }

    /// The id that the handle wraps.
    pub fn xlib_id(&self) -> (id: u64)
        ensures
            id == self.id(),
            *self == WindowHandle::XlibHandle(id),
    {
        match self {
            WindowHandle::XlibHandle(id) => *id,
        }
    }
}

/// What kind of window a client declared itself to be.
#[derive(Clone, Copy, Debug, PartialEq, Eq, Structural, Hash)]
pub enum WindowType {
    Desktop,
    Dock,
    Toolbar,
    Menu,
    Utility,
    Splash,
    Dialog,
    Normal,
}

/// Space that a window reserves along the edges of the screen, in pixels.
#[derive(Clone, Copy, Debug, PartialEq, Eq, Structural, Hash)]
pub struct Strut {
    pub left: u32,
    pub right: u32,
    pub top: u32,
    pub bottom: u32,
}

/// A window as the policy layer first learns of it.
///
/// A `Window` is handed out only inside a creation event, and by then every
/// field holds what the display connection answered for it.
#[derive(Clone, Debug, PartialEq, Eq)]
pub struct Window {
    pub handle: WindowHandle,
    /// The title; empty when the client set none.
    pub name: String,
    /// The window that this one is a dialog or popup of, if it named one.
    pub transient: Option<WindowHandle>,
    /// Width and height that the client asked for, if it asked.
    pub floating_size: Option<(u32, u32)>,
    pub type_: WindowType,
}

/// The mathematical value of a [`Window`].
pub struct WindowView {
    pub handle: WindowHandle,
    pub name: Seq<char>,
    pub transient: Option<WindowHandle>,
    pub floating_size: Option<(u32, u32)>,
    pub type_: WindowType,
}

impl View for Window {
    type V = WindowView;

    open spec fn view(&self) -> WindowView {
        WindowView {
            handle: self.handle,
            name: self.name@,
            transient: self.transient,
            floating_size: self.floating_size,
            type_: self.type_,
        }
    }
}

impl WindowView {
    /// A window of which only the handle and the title are known yet: no
    /// parent, no size hint, and the type every window has by default.
    pub open spec fn new(handle: WindowHandle, name: Seq<char>) -> WindowView {
        WindowView { handle, name, transient: None, floating_size: None, type_: WindowType::Normal }
    }

    /// The window with the parent that the display server reported for it,
    /// by its id. Where it reported none, the window is as before.
    pub open spec fn with_transient(self, parent: Option<u64>) -> WindowView {
        match parent {
            Some(id) => WindowView { transient: Some(WindowHandle::XlibHandle(id)), ..self },
            None => self,
        }
    }

    pub open spec fn with_floating_size(self, size: Option<(u32, u32)>) -> WindowView {
        WindowView { floating_size: size, ..self }
    }

    pub open spec fn with_type(self, type_: WindowType) -> WindowView {
        WindowView { type_, ..self }
    }
}

impl Window {
    /// A window of which only the handle and the title are known yet.
    pub fn new(handle: WindowHandle, name: String) -> (w: Window)
        ensures
            w@ == WindowView::new(handle, name@),
    {
        Window { handle, name, transient: None, floating_size: None, type_: WindowType::Normal }
    }
}

} // verus!
