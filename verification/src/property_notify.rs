//! Property notifications: a window's metadata changed.
//!
//! A notification names the property and carries no value, so the value is
//! asked for again. Four kinds of property matter: the title, the size
//! hints, the window type, and the space reserved along the screen's edges.
//! A notification of any other property, or of a property's deletion, is no
//! event.

use vstd::prelude::*;
use crate::adapter::{Atoms, Connection, Reply, ReplyView, Request, XA_WM_NAME, XA_WM_NORMAL_HINTS};
use crate::event::{
    DisplayEvent,
    DisplayEventView,
    WindowChange,
    WindowChangeView,
    WindowUpdate,
    WindowUpdateView,
    event_view,
};
use crate::raw::{PROPERTY_NEW_VALUE, PropertyEvent};
use crate::window::WindowHandle;

verus! {

/// The kinds of property whose change matters to the window manager.
#[derive(Clone, Copy, Debug, PartialEq, Eq, Structural, Hash)]
pub enum PropertyKind {
    Name,
    SizeHints,
    WindowType,
    Strut,
}

/// The kind of the property with this atom, if it is one that matters.
pub open spec fn kind_of(atoms: Atoms, atom: u64) -> Option<PropertyKind> {
    if atom == XA_WM_NAME || atom == atoms.net_wm_name {
        Some(PropertyKind::Name)
    } else if atom == XA_WM_NORMAL_HINTS {
        Some(PropertyKind::SizeHints)
    } else if atom == atoms.net_wm_window_type {
        Some(PropertyKind::WindowType)
    } else if atom == atoms.net_wm_strut || atom == atoms.net_wm_strut_partial {
        Some(PropertyKind::Strut)
    } else {
        None
    }
}

/// The kind of the property with this atom, if it is one that matters.
pub fn classify(atoms: &Atoms, atom: u64) -> (kind: Option<PropertyKind>)
    ensures
        kind == kind_of(*atoms, atom),
{
    if atom == XA_WM_NAME || atom == atoms.net_wm_name {
        Some(PropertyKind::Name)
    } else if atom == XA_WM_NORMAL_HINTS {
        Some(PropertyKind::SizeHints)
    } else if atom == atoms.net_wm_window_type {
        Some(PropertyKind::WindowType)
    } else if atom == atoms.net_wm_strut || atom == atoms.net_wm_strut_partial {
        Some(PropertyKind::Strut)
    } else {
        None
    }
}

/// A changed property whose new value has yet to be asked for.
#[derive(Clone, Copy, Debug, PartialEq, Eq, Structural, Hash)]
pub struct PropertyQuery {
    pub window: u64,
    pub kind: PropertyKind,
}

impl PropertyQuery {
    /// The question that fetches the property's new value.
    pub open spec fn spec_request(&self) -> Request {
        match self.kind {
            PropertyKind::Name => Request::GetWindowName(self.window),
            PropertyKind::SizeHints => Request::GetHintSizingAsTuple(self.window),
            PropertyKind::WindowType => Request::GetWindowType(self.window),
            PropertyKind::Strut => Request::GetWindowStrut(self.window),
        }
    }

    /// The update that `reply` holds for this property, if it is a reply to
    /// this query's question.
    pub open spec fn update(self, reply: ReplyView) -> Option<WindowUpdateView> {
        match (self.kind, reply) {
            (PropertyKind::Name, ReplyView::WindowName(name)) => Some(WindowUpdateView::Name(name)),
            (PropertyKind::SizeHints, ReplyView::HintSizing(size)) => Some(
                WindowUpdateView::FloatingSize(size),
            ),
            (PropertyKind::WindowType, ReplyView::WindowType(type_)) => Some(
                WindowUpdateView::Type(type_),
            ),
            (PropertyKind::Strut, ReplyView::WindowStrut(strut)) => Some(
                WindowUpdateView::Strut(strut),
            ),
            _ => None,
        }
    }

    /// The event that the query ends in when `reply` comes back: the change
    /// of this window to the value in the reply, or nothing where the reply
    /// is to another question.
    pub open spec fn resumed(self, reply: ReplyView) -> Option<DisplayEventView> {
        match self.update(reply) {
            Some(update) => Some(
                DisplayEventView::WindowChange(
                    WindowChangeView { handle: WindowHandle::XlibHandle(self.window), update },
                ),
            ),
            None => None,
        }
    }

    /// The question that fetches the property's new value.
    #[verifier::when_used_as_spec(spec_request)]
    pub fn request(&self) -> (request: Request)
        ensures
            request == self.spec_request(),
    {
        match self.kind {
            PropertyKind::Name => Request::GetWindowName(self.window),
            PropertyKind::SizeHints => Request::GetHintSizingAsTuple(self.window),
            PropertyKind::WindowType => Request::GetWindowType(self.window),
            PropertyKind::Strut => Request::GetWindowStrut(self.window),
        }
    }

    /// Ends the query with the reply to its question.
    ///
    /// The result is the change of this query's window to the value that the
    /// reply holds. A reply to another question yields no event.
    pub fn resume(self, reply: Reply) -> (translation: Option<DisplayEvent>)
        ensures
            event_view(translation) == self.resumed(reply@),
    {
        let update = match (self.kind, reply) {
            (PropertyKind::Name, Reply::WindowName(name)) => WindowUpdate::Name(name),
            (PropertyKind::SizeHints, Reply::HintSizing(size)) => WindowUpdate::FloatingSize(size),
            (PropertyKind::WindowType, Reply::WindowType(type_)) => WindowUpdate::Type(type_),
            (PropertyKind::Strut, Reply::WindowStrut(strut)) => WindowUpdate::Strut(strut),
            _ => {
                return None;
            },
        };
        Some(
            DisplayEvent::WindowChange(
                WindowChange { handle: WindowHandle::XlibHandle(self.window), update },
            ),
        )
    }
}

/// The query that a property notification calls for: one for the property's
/// new value, where the property got one and is of a kind that matters.
pub open spec fn query_for(atoms: Atoms, event: PropertyEvent) -> Option<PropertyQuery> {
    if event.state != PROPERTY_NEW_VALUE {
        None
    } else {
        match kind_of(atoms, event.atom) {
            Some(kind) => Some(PropertyQuery { window: event.window, kind }),
            None => None,
        }
    }
}

/// What a property notification translates to while the display server
/// answers as `connection` does.
pub open spec fn translated(atoms: Atoms, event: PropertyEvent, connection: Connection) -> Option<
    DisplayEventView,
> {
    match query_for(atoms, event) {
        Some(query) => query.resumed(connection.answer(query.spec_request())),
        None => None,
    }
}

/// Begins the translation of a property notification.
///
/// `None` says that the notification is no event. Otherwise the result is
/// the query to put to the display server; its [`PropertyQuery::resume`]
/// gives the event.
pub fn from_event(atoms: &Atoms, event: &PropertyEvent) -> (query: Option<PropertyQuery>)
    ensures
        query == query_for(*atoms, *event),
{
    if event.state != PROPERTY_NEW_VALUE {
        return None;
    }
    match classify(atoms, event.atom) {
        Some(kind) => Some(PropertyQuery { window: event.window, kind }),
        None => None,
    }
}

/// A notification of a property that is of none of the four kinds yields no
/// event.
pub proof fn lemma_unrecognized_property(atoms: Atoms, event: PropertyEvent, connection: Connection)
    requires
        kind_of(atoms, event.atom) is None,
    ensures
        translated(atoms, event, connection) is None,
{
}

/// A notification that a property was deleted yields no event: there is no
/// new value to report.
pub proof fn lemma_deleted_property(atoms: Atoms, event: PropertyEvent, connection: Connection)
    requires
        event.state != PROPERTY_NEW_VALUE,
    ensures
        translated(atoms, event, connection) is None,
{
}

/// A notification that a property of a kind that matters got a new value
/// yields a change of the window that the notification names, and the
/// change holds what the display server answers for that window now.
pub proof fn lemma_recognized_property(atoms: Atoms, event: PropertyEvent, connection: Connection)
    requires
        event.state == PROPERTY_NEW_VALUE,
        kind_of(atoms, event.atom) is Some,
    ensures
        translated(atoms, event, connection) matches Some(DisplayEventView::WindowChange(change))
            && change.handle == WindowHandle::XlibHandle(event.window) && change.update == (
        match kind_of(atoms, event.atom)->0 {
            PropertyKind::Name => WindowUpdateView::Name((connection.window_name)(event.window)),
            PropertyKind::SizeHints => WindowUpdateView::FloatingSize(
                (connection.hint_sizing)(event.window),
            ),
            PropertyKind::WindowType => WindowUpdateView::Type(
                (connection.window_type)(event.window),
            ),
            PropertyKind::Strut => WindowUpdateView::Strut((connection.window_strut)(event.window)),
        }),
{
}

} // verus!
