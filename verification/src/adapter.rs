//! What translation needs of the connection to the display server: the
//! state that it reads there, the questions that it asks, and the answers.
//!
//! Translation never talks to the server itself. It names the question to
//! ask next as a [`Request`]; whoever owns the connection asks it and hands
//! back the [`Reply`].

use vstd::prelude::*;
use crate::event::Keysym;
use crate::mode::DisplayServerMode;
use crate::window::{Strut, WindowHandle, WindowType};

verus! {

/// The atom of the predefined property `WM_NAME`.
pub const XA_WM_NAME: u64 = 39;

/// The atom of the predefined property `WM_NORMAL_HINTS`.
pub const XA_WM_NORMAL_HINTS: u64 = 40;

/// The atoms that the server gave, when the connection was set up, to the
/// names that translation has to recognise.
#[derive(Clone, Copy, Debug, PartialEq, Eq, Structural, Hash)]
pub struct Atoms {
    /// `_NET_WM_NAME`
    pub net_wm_name: u64,
    /// `_NET_WM_WINDOW_TYPE`
    pub net_wm_window_type: u64,
    /// `_NET_WM_STRUT`
    pub net_wm_strut: u64,
    /// `_NET_WM_STRUT_PARTIAL`
    pub net_wm_strut_partial: u64,
    /// `_NET_WM_STATE`
    pub net_wm_state: u64,
    /// `_NET_WM_STATE_FULLSCREEN`
    pub net_wm_state_fullscreen: u64,
    /// `_NET_WM_STATE_MAXIMIZED_VERT`
    pub net_wm_state_maximized_vert: u64,
    /// `_NET_WM_STATE_MAXIMIZED_HORZ`
    pub net_wm_state_maximized_horz: u64,
    /// `_NET_ACTIVE_WINDOW`
    pub net_active_window: u64,
    /// `_NET_CLOSE_WINDOW`
    pub net_close_window: u64,
}

/// The state kept with the connection that translation reads and never
/// writes.
#[derive(Clone, Copy, Debug, PartialEq, Eq, Hash)]
pub struct AdapterState {
    /// The interaction mode that is active.
    pub mode: DisplayServerMode,
    /// Where the pointer was when the mode last left `NormalMode`.
    pub mode_origin: (i32, i32),
    pub atoms: Atoms,
}

/// The attributes of a window, as far as translation reads them.
#[derive(Clone, Copy, Debug, PartialEq, Eq, Structural, Hash)]
pub struct WindowAttributes {
    /// Greater than zero when the window places itself and is none of the
    /// window manager's business, as menus and tooltips are.
    pub override_redirect: i32,
}

impl WindowAttributes {
    pub open spec fn is_override_redirect(self) -> bool {
        self.override_redirect > 0
    }

    /// Whether the window places itself.
    pub fn overrides_redirect(&self) -> (b: bool)
        ensures
            b == self.is_override_redirect(),
    {
        self.override_redirect > 0
    }
}

/// Why a question about a window got no answer.
#[derive(Clone, Copy, Debug, PartialEq, Eq, Structural, Hash)]
pub enum QueryError {
    /// The window no longer exists.
    WindowGone,
}

/// A question to the display server, or a thing to tell it.
#[derive(Clone, Copy, Debug, PartialEq, Eq, Structural, Hash)]
pub enum Request {
    /// Have the server report what happens to this window from now on.
    SubscribeToWindowEvents(WindowHandle),
    GetWindowAttrs(u64),
    GetWindowName(u64),
    GetTransientFor(u64),
    GetHintSizingAsTuple(u64),
    GetWindowType(u64),
    GetWindowStrut(u64),
    GetPointerLocation,
    KeycodeToKeysym(u32),
}

/// What came back for a [`Request`].
#[derive(Debug, PartialEq, Eq)]
pub enum Reply {
    /// The subscription was made.
    Subscribed,
    WindowAttrs(Result<WindowAttributes, QueryError>),
    /// The title; empty where the window has none.
    WindowName(String),
    TransientFor(Option<u64>),
    /// Width and height.
    HintSizing(Option<(u32, u32)>),
    WindowType(WindowType),
    WindowStrut(Option<Strut>),
    /// The pointer's position on the screen; `None` where the server would
    /// not tell.
    PointerLocation(Option<(i32, i32)>),
    Keysym(Keysym),
}

/// The mathematical value of a [`Reply`].
pub enum ReplyView {
    Subscribed,
    WindowAttrs(Result<WindowAttributes, QueryError>),
    WindowName(Seq<char>),
    TransientFor(Option<u64>),
    HintSizing(Option<(u32, u32)>),
    WindowType(WindowType),
    WindowStrut(Option<Strut>),
    PointerLocation(Option<(i32, i32)>),
    Keysym(Keysym),
}

impl View for Reply {
    type V = ReplyView;

    open spec fn view(&self) -> ReplyView {
        match self {
            Reply::Subscribed => ReplyView::Subscribed,
            Reply::WindowAttrs(r) => ReplyView::WindowAttrs(*r),
            Reply::WindowName(name) => ReplyView::WindowName(name@),
            Reply::TransientFor(parent) => ReplyView::TransientFor(*parent),
            Reply::HintSizing(size) => ReplyView::HintSizing(*size),
            Reply::WindowType(type_) => ReplyView::WindowType(*type_),
            Reply::WindowStrut(strut) => ReplyView::WindowStrut(*strut),
            Reply::PointerLocation(at) => ReplyView::PointerLocation(*at),
            Reply::Keysym(sym) => ReplyView::Keysym(*sym),
        }
    }
}

impl ReplyView {
    /// Whether this is the kind of reply that `request` calls for.
    pub open spec fn answers(self, request: Request) -> bool {
        match request {
            Request::SubscribeToWindowEvents(_) => self is Subscribed,
            Request::GetWindowAttrs(_) => self is WindowAttrs,
            Request::GetWindowName(_) => self is WindowName,
            Request::GetTransientFor(_) => self is TransientFor,
            Request::GetHintSizingAsTuple(_) => self is HintSizing,
            Request::GetWindowType(_) => self is WindowType,
            Request::GetWindowStrut(_) => self is WindowStrut,
            Request::GetPointerLocation => self is PointerLocation,
            Request::KeycodeToKeysym(_) => self is Keysym,
        }
    }
}

impl Reply {
    /// Whether this is the kind of reply that `request` calls for.
    pub fn answers(&self, request: &Request) -> (b: bool)
        ensures
            b == self@.answers(*request),
    {
        match request {
            Request::SubscribeToWindowEvents(_) => matches!(self, Reply::Subscribed),
            Request::GetWindowAttrs(_) => matches!(self, Reply::WindowAttrs(_)),
            Request::GetWindowName(_) => matches!(self, Reply::WindowName(_)),
            Request::GetTransientFor(_) => matches!(self, Reply::TransientFor(_)),
            Request::GetHintSizingAsTuple(_) => matches!(self, Reply::HintSizing(_)),
            Request::GetWindowType(_) => matches!(self, Reply::WindowType(_)),
            Request::GetWindowStrut(_) => matches!(self, Reply::WindowStrut(_)),
            Request::GetPointerLocation => matches!(self, Reply::PointerLocation(_)),
            Request::KeycodeToKeysym(_) => matches!(self, Reply::Keysym(_)),
        }
    }
}

/// What the display server would answer to each question at one moment.
///
/// This is a value of specifications only: it stands for the server's state
/// while one event is translated, and lets a contract say what a whole
/// translation comes to.
pub struct Connection {
    pub window_attrs: spec_fn(u64) -> Result<WindowAttributes, QueryError>,
    pub window_name: spec_fn(u64) -> Seq<char>,
    pub transient_for: spec_fn(u64) -> Option<u64>,
    pub hint_sizing: spec_fn(u64) -> Option<(u32, u32)>,
    pub window_type: spec_fn(u64) -> WindowType,
    pub window_strut: spec_fn(u64) -> Option<Strut>,
    pub pointer_location: Option<(i32, i32)>,
    pub keysym: spec_fn(u32) -> Keysym,
}

impl Connection {
    /// The reply that the server gives to `request`.
    pub open spec fn answer(self, request: Request) -> ReplyView {
        match request {
            Request::SubscribeToWindowEvents(_) => ReplyView::Subscribed,
            Request::GetWindowAttrs(w) => ReplyView::WindowAttrs((self.window_attrs)(w)),
            Request::GetWindowName(w) => ReplyView::WindowName((self.window_name)(w)),
            Request::GetTransientFor(w) => ReplyView::TransientFor((self.transient_for)(w)),
            Request::GetHintSizingAsTuple(w) => ReplyView::HintSizing((self.hint_sizing)(w)),
            Request::GetWindowType(w) => ReplyView::WindowType((self.window_type)(w)),
            Request::GetWindowStrut(w) => ReplyView::WindowStrut((self.window_strut)(w)),
            Request::GetPointerLocation => ReplyView::PointerLocation(self.pointer_location),
            Request::KeycodeToKeysym(code) => ReplyView::Keysym((self.keysym)(code)),
        }
    }
}

/// Every answer of a connection is of the kind that the question calls for.
pub proof fn lemma_connection_answers(connection: Connection, request: Request)
    ensures
        connection.answer(request).answers(request),
{
}

} // verus!
