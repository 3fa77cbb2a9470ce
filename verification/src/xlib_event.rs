//! Events as Xlib hands them over: a union whose first field is the event's
//! code and whose other fields depend on it.
//!
//! [`decode`] reads the code, then the member of the union that belongs to
//! it, and keeps the fields that translation needs. The reads themselves are
//! `x11_dl`'s and are taken on trust; which member is read for which code is
//! verified.

use vstd::prelude::*;
use x11_dl::xlib;
use crate::adapter::{AdapterState, Connection, Reply, Request};
use crate::event::{DisplayEvent, event_view};
use crate::raw::{
    BUTTON_PRESS,
    BUTTON_RELEASE,
    CIRCULATE_NOTIFY,
    CIRCULATE_REQUEST,
    CLIENT_MESSAGE,
    CLIENT_MESSAGE_WORDS,
    COLORMAP_NOTIFY,
    CONFIGURE_NOTIFY,
    CONFIGURE_REQUEST,
    CREATE_NOTIFY,
    ClientMessage,
    ClientMessageView,
    DESTROY_NOTIFY,
    ENTER_NOTIFY,
    EXPOSE,
    FOCUS_IN,
    FOCUS_OUT,
    GENERIC_EVENT,
    GRAPHICS_EXPOSE,
    GRAVITY_NOTIFY,
    KEYMAP_NOTIFY,
    KEY_PRESS,
    KEY_RELEASE,
    LEAVE_NOTIFY,
    MAPPING_NOTIFY,
    MAP_NOTIFY,
    MAP_REQUEST,
    MOTION_NOTIFY,
    NO_EXPOSE,
    PROPERTY_NOTIFY,
    PropertyEvent,
    REPARENT_NOTIFY,
    RESIZE_REQUEST,
    RawEvent,
    RawEventView,
    SELECTION_CLEAR,
    SELECTION_NOTIFY,
    SELECTION_REQUEST,
    UNMAP_NOTIFY,
    VISIBILITY_NOTIFY,
    is_core_code,
    is_translated_code,
};
use crate::translate::{
    MAX_QUESTIONS,
    Step,
    StepView,
    answers_as,
    begin,
    can_end_in,
    first_step,
    outcome,
    replies_of,
    translate,
};

verus! {

/// `xlib::XEvent`, the union that Xlib fills in for each event. Nothing is
/// known of a value of it but what the functions below read out of it.
#[verifier::external_type_specification]
#[verifier::external_body]
pub struct ExXEvent(xlib::XEvent);

/// `xlib::ClientMessageData`, the twenty bytes of data in a client message.
#[verifier::external_type_specification]
#[verifier::external_body]
pub struct ExClientMessageData(xlib::ClientMessageData);

/// What `xlib::XEvent::get_type` returns: the code at the head of the
/// union, which all its members share.
pub uninterp spec fn event_code(ev: xlib::XEvent) -> i32;

/// The `window` of what `xlib::XMapRequestEvent::from` returns: the union
/// read as a map request.
pub uninterp spec fn map_request_window(ev: xlib::XEvent) -> u64;

/// The `window` of what `xlib::XDestroyWindowEvent::from` returns: the
/// union read as a destroy notification.
pub uninterp spec fn destroy_window(ev: xlib::XEvent) -> u64;

/// The `state`, `button` and `window` of what `xlib::XButtonEvent::from`
/// returns: the union read as a button event.
pub uninterp spec fn button_fields(ev: xlib::XEvent) -> (u32, u32, u64);

/// The `window` of what `xlib::XCrossingEvent::from` returns: the union
/// read as a crossing event.
pub uninterp spec fn crossing_window(ev: xlib::XEvent) -> u64;

/// The `window` of what `xlib::XFocusChangeEvent::from` returns: the union
/// read as a focus change.
pub uninterp spec fn focus_change_window(ev: xlib::XEvent) -> u64;

/// The `state` and `keycode` of what `xlib::XKeyEvent::from` returns: the
/// union read as a key event.
pub uninterp spec fn key_fields(ev: xlib::XEvent) -> (u32, u32);

/// The `window`, `x_root` and `y_root` of what `xlib::XMotionEvent::from`
/// returns: the union read as a motion event.
pub uninterp spec fn motion_fields(ev: xlib::XEvent) -> (u64, i32, i32);

/// The `window`, `atom` and `state` of what `xlib::XPropertyEvent::from`
/// returns: the union read as a property notification.
pub uninterp spec fn property_fields(ev: xlib::XEvent) -> PropertyEvent;

/// The `window`, `message_type` and `data` of what
/// `xlib::XClientMessageEvent::from` returns: the union read as a client
/// message.
pub uninterp spec fn client_message_fields(ev: xlib::XEvent) -> (u64, u64, xlib::ClientMessageData);

/// What `xlib::ClientMessageData::as_longs` returns: the data of a client
/// message as words.
pub uninterp spec fn data_longs(data: xlib::ClientMessageData) -> Seq<i64>;

/// `xlib::XEvent::get_type`: the `type_` field of the union.
#[verifier::external_body]
fn get_type(ev: &xlib::XEvent) -> (code: i32)
    ensures
        code == event_code(*ev),
{
    ev.get_type()
}

/// `xlib::XMapRequestEvent::from`: the union's `map_request` member, of
/// which the `window` field is kept.
#[verifier::external_body]
fn read_map_request(ev: &xlib::XEvent) -> (window: u64)
    ensures
        window == map_request_window(*ev),
{
    xlib::XMapRequestEvent::from(*ev).window as u64
}

/// `xlib::XDestroyWindowEvent::from`: the union's `destroy_window` member,
/// of which the `window` field is kept.
#[verifier::external_body]
fn read_destroy_window(ev: &xlib::XEvent) -> (window: u64)
    ensures
        window == destroy_window(*ev),
{
    xlib::XDestroyWindowEvent::from(*ev).window as u64
}

/// `xlib::XButtonEvent::from`: the union's `button` member, of which the
/// fields `state`, `button` and `window` are kept, in this order.
#[verifier::external_body]
fn read_button(ev: &xlib::XEvent) -> (fields: (u32, u32, u64))
    ensures
        fields == button_fields(*ev),
{
    let e = xlib::XButtonEvent::from(*ev);
    (e.state, e.button, e.window as u64)
}

/// `xlib::XCrossingEvent::from`: the union's `crossing` member, of which the
/// `window` field is kept.
#[verifier::external_body]
fn read_crossing(ev: &xlib::XEvent) -> (window: u64)
    ensures
        window == crossing_window(*ev),
{
    xlib::XCrossingEvent::from(*ev).window as u64
}

/// `xlib::XFocusChangeEvent::from`: the union's `focus_change` member, of
/// which the `window` field is kept.
#[verifier::external_body]
fn read_focus_change(ev: &xlib::XEvent) -> (window: u64)
    ensures
        window == focus_change_window(*ev),
{
    xlib::XFocusChangeEvent::from(*ev).window as u64
}

/// `xlib::XKeyEvent::from`: the union's `key` member, of which the fields
/// `state` and `keycode` are kept, in this order.
#[verifier::external_body]
fn read_key(ev: &xlib::XEvent) -> (fields: (u32, u32))
    ensures
        fields == key_fields(*ev),
{
    let e = xlib::XKeyEvent::from(*ev);
    (e.state, e.keycode)
}

/// `xlib::XMotionEvent::from`: the union's `motion` member, of which the
/// fields `window`, `x_root` and `y_root` are kept, in this order.
#[verifier::external_body]
fn read_motion(ev: &xlib::XEvent) -> (fields: (u64, i32, i32))
    ensures
        fields == motion_fields(*ev),
{
    let e = xlib::XMotionEvent::from(*ev);
    (e.window as u64, e.x_root, e.y_root)
}

/// `xlib::XPropertyEvent::from`: the union's `property` member, of which the
/// fields `window`, `atom` and `state` are kept.
#[verifier::external_body]
fn read_property(ev: &xlib::XEvent) -> (event: PropertyEvent)
    ensures
        event == property_fields(*ev),
{
    let e = xlib::XPropertyEvent::from(*ev);
    PropertyEvent { window: e.window as u64, atom: e.atom as u64, state: e.state }
}

/// `xlib::XClientMessageEvent::from`: the union's `client_message` member,
/// of which the fields `window`, `message_type` and `data` are kept, in this
/// order.
#[verifier::external_body]
fn read_client_message(ev: &xlib::XEvent) -> (fields: (u64, u64, xlib::ClientMessageData))
    ensures
        fields == client_message_fields(*ev),
{
    let e = xlib::XClientMessageEvent::from(*ev);
    (e.window as u64, e.message_type as u64, e.data)
}

/// `xlib::ClientMessageData::as_longs`: the data as a slice of words, of
/// which there are always five.
#[verifier::external_body]
fn as_longs(data: &xlib::ClientMessageData) -> (words: Vec<i64>)
    ensures
        words@ == data_longs(*data),
        words@.len() == CLIENT_MESSAGE_WORDS,
{
    data.as_longs().iter().map(|word| *word as i64).collect()
}

/// The client message that the union holds.
pub open spec fn client_message_of(ev: xlib::XEvent) -> ClientMessageView {
    ClientMessageView {
        window: client_message_fields(ev).0,
        message_type: client_message_fields(ev).1,
        data: data_longs(client_message_fields(ev).2),
    }
}

/// The event that the union holds: the variant that belongs to the union's
/// code, with the fields of the member that belongs to that code.
pub open spec fn decoded(ev: xlib::XEvent) -> RawEventView {
    let code = event_code(ev);
    if code == KEY_PRESS {
        RawEventView::KeyPress { state: key_fields(ev).0, keycode: key_fields(ev).1 }
    } else if code == KEY_RELEASE {
        RawEventView::KeyRelease
    } else if code == BUTTON_PRESS {
        RawEventView::ButtonPress {
            state: button_fields(ev).0,
            button: button_fields(ev).1,
            window: button_fields(ev).2,
        }
    } else if code == BUTTON_RELEASE {
        RawEventView::ButtonRelease
    } else if code == MOTION_NOTIFY {
        RawEventView::MotionNotify {
            window: motion_fields(ev).0,
            x_root: motion_fields(ev).1,
            y_root: motion_fields(ev).2,
        }
    } else if code == ENTER_NOTIFY {
        RawEventView::EnterNotify { window: crossing_window(ev) }
    } else if code == LEAVE_NOTIFY {
        RawEventView::LeaveNotify
    } else if code == FOCUS_IN {
        RawEventView::FocusIn { window: focus_change_window(ev) }
    } else if code == FOCUS_OUT {
        RawEventView::FocusOut
    } else if code == KEYMAP_NOTIFY {
        RawEventView::KeymapNotify
    } else if code == EXPOSE {
        RawEventView::Expose
    } else if code == GRAPHICS_EXPOSE {
        RawEventView::GraphicsExpose
    } else if code == NO_EXPOSE {
        RawEventView::NoExpose
    } else if code == VISIBILITY_NOTIFY {
        RawEventView::VisibilityNotify
    } else if code == CREATE_NOTIFY {
        RawEventView::CreateNotify
    } else if code == DESTROY_NOTIFY {
        RawEventView::DestroyNotify { window: destroy_window(ev) }
    } else if code == UNMAP_NOTIFY {
        RawEventView::UnmapNotify
    } else if code == MAP_NOTIFY {
        RawEventView::MapNotify
    } else if code == MAP_REQUEST {
        RawEventView::MapRequest { window: map_request_window(ev) }
    } else if code == REPARENT_NOTIFY {
        RawEventView::ReparentNotify
    } else if code == CONFIGURE_NOTIFY {
        RawEventView::ConfigureNotify
    } else if code == CONFIGURE_REQUEST {
        RawEventView::ConfigureRequest
    } else if code == GRAVITY_NOTIFY {
        RawEventView::GravityNotify
    } else if code == RESIZE_REQUEST {
        RawEventView::ResizeRequest
    } else if code == CIRCULATE_NOTIFY {
        RawEventView::CirculateNotify
    } else if code == CIRCULATE_REQUEST {
        RawEventView::CirculateRequest
    } else if code == PROPERTY_NOTIFY {
        RawEventView::PropertyNotify(property_fields(ev))
    } else if code == SELECTION_CLEAR {
        RawEventView::SelectionClear
    } else if code == SELECTION_REQUEST {
        RawEventView::SelectionRequest
    } else if code == SELECTION_NOTIFY {
        RawEventView::SelectionNotify
    } else if code == COLORMAP_NOTIFY {
        RawEventView::ColormapNotify
    } else if code == CLIENT_MESSAGE {
        RawEventView::ClientMessage(client_message_of(ev))
    } else if code == MAPPING_NOTIFY {
        RawEventView::MappingNotify
    } else if code == GENERIC_EVENT {
        RawEventView::GenericEvent
    } else {
        RawEventView::Unknown { code }
    }
}

/// Reads an event out of the union.
///
/// The result is [`decoded`] of the union. Its variant is the one of the
/// union's code, so the two have the same code, and it is well formed.
pub fn decode(ev: &xlib::XEvent) -> (raw: RawEvent)
    ensures
        raw@ == decoded(*ev),
        raw@.code() == event_code(*ev),
        raw@.well_formed(),
{
    let code = get_type(ev);
    if code == KEY_PRESS {
        let (state, keycode) = read_key(ev);
        RawEvent::KeyPress { state, keycode }
    } else if code == KEY_RELEASE {
        RawEvent::KeyRelease
    } else if code == BUTTON_PRESS {
        let (state, button, window) = read_button(ev);
        RawEvent::ButtonPress { state, button, window }
    } else if code == BUTTON_RELEASE {
        RawEvent::ButtonRelease
    } else if code == MOTION_NOTIFY {
        let (window, x_root, y_root) = read_motion(ev);
        RawEvent::MotionNotify { window, x_root, y_root }
    } else if code == ENTER_NOTIFY {
        RawEvent::EnterNotify { window: read_crossing(ev) }
    } else if code == LEAVE_NOTIFY {
        RawEvent::LeaveNotify
    } else if code == FOCUS_IN {
        RawEvent::FocusIn { window: read_focus_change(ev) }
    } else if code == FOCUS_OUT {
        RawEvent::FocusOut
    } else if code == KEYMAP_NOTIFY {
        RawEvent::KeymapNotify
    } else if code == EXPOSE {
        RawEvent::Expose
    } else if code == GRAPHICS_EXPOSE {
        RawEvent::GraphicsExpose
    } else if code == NO_EXPOSE {
        RawEvent::NoExpose
    } else if code == VISIBILITY_NOTIFY {
        RawEvent::VisibilityNotify
    } else if code == CREATE_NOTIFY {
        RawEvent::CreateNotify
    } else if code == DESTROY_NOTIFY {
        RawEvent::DestroyNotify { window: read_destroy_window(ev) }
    } else if code == UNMAP_NOTIFY {
        RawEvent::UnmapNotify
    } else if code == MAP_NOTIFY {
        RawEvent::MapNotify
    } else if code == MAP_REQUEST {
        RawEvent::MapRequest { window: read_map_request(ev) }
    } else if code == REPARENT_NOTIFY {
        RawEvent::ReparentNotify
    } else if code == CONFIGURE_NOTIFY {
        RawEvent::ConfigureNotify
    } else if code == CONFIGURE_REQUEST {
        RawEvent::ConfigureRequest
    } else if code == GRAVITY_NOTIFY {
        RawEvent::GravityNotify
    } else if code == RESIZE_REQUEST {
        RawEvent::ResizeRequest
    } else if code == CIRCULATE_NOTIFY {
        RawEvent::CirculateNotify
    } else if code == CIRCULATE_REQUEST {
        RawEvent::CirculateRequest
    } else if code == PROPERTY_NOTIFY {
        RawEvent::PropertyNotify(read_property(ev))
    } else if code == SELECTION_CLEAR {
        RawEvent::SelectionClear
    } else if code == SELECTION_REQUEST {
        RawEvent::SelectionRequest
    } else if code == SELECTION_NOTIFY {
        RawEvent::SelectionNotify
    } else if code == COLORMAP_NOTIFY {
        RawEvent::ColormapNotify
    } else if code == CLIENT_MESSAGE {
        let (window, message_type, data) = read_client_message(ev);
        RawEvent::ClientMessage(ClientMessage { window, message_type, data: as_longs(&data) })
    } else if code == MAPPING_NOTIFY {
        RawEvent::MappingNotify
    } else if code == GENERIC_EVENT {
        RawEvent::GenericEvent
    } else {
        RawEvent::Unknown { code }
    }
}

/// The event read out of a union is of the kind that the union's code
/// names: it has that code, and it is `Unknown` only where the code is none
/// of the core protocol.
pub proof fn lemma_decoded_keeps_code(ev: xlib::XEvent)
    ensures
        decoded(ev).code() == event_code(ev),
        decoded(ev) is Unknown <==> !is_core_code(event_code(ev) as int),
{
}

/// A union whose code is none of those that translation has a rule for
/// yields no event and raises no question, whatever else it holds.
pub proof fn lemma_other_codes_yield_nothing(state: AdapterState, ev: xlib::XEvent)
    requires
        !is_translated_code(event_code(ev) as int),
    ensures
        first_step(state, decoded(ev)) == StepView::Done(None),
{
}

/// An event of Xlib together with the state of the connection that it came
/// over: all that a translation starts from.
pub struct XlibEvent<'a>(pub &'a AdapterState, pub xlib::XEvent);

impl<'a> XlibEvent<'a> {
    /// Begins the translation of the event: decodes it and takes the first
    /// step.
    pub fn begin(&self) -> (step: Step)
        ensures
            step@ == first_step(*self.0, decoded(self.1)),
    {
        let raw = decode(&self.1);
        begin(self.0, &raw)
    }

    /// Translates the event, putting to `ask` each question that comes up:
    /// decodes it and hands it to [`translate`].
    pub fn translate<F: Fn(Request) -> Reply>(&self, ask: F) -> (event: Option<DisplayEvent>)
        requires
            forall|request: Request| call_requires(ask, (request,)),
        ensures
            can_end_in(
                first_step(*self.0, decoded(self.1)),
                replies_of(ask),
                event_view(event),
                MAX_QUESTIONS as nat,
            ),
            forall|connection: Connection|
                answers_as(replies_of(ask), connection) ==> event_view(event) == outcome(
                    *self.0,
                    decoded(self.1),
                    connection,
                ),
    {
        let raw = decode(&self.1);
        translate(self.0, &raw, ask)
    }
}

} // verus!
