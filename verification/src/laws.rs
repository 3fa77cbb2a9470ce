//! What holds of every translation: the laws of the translator, each
//! stated of the steps that [`begin`](crate::translate::begin) and
//! [`Pending::resume`](crate::translate::Pending::resume) take.

use vstd::prelude::*;
use crate::adapter::{AdapterState, Connection, ReplyView, Request};
use crate::client_message;
use crate::event::DisplayEventView;
use crate::property_notify;
use crate::raw::{ClientMessageView, PropertyEvent, RawEventView, is_translated_code};
use crate::translate::{
    MAX_QUESTIONS,
    StageView,
    StepView,
    first_step,
    lemma_translation_ends,
    new_window,
    run,
};
use crate::window::WindowHandle;

verus! {

/// An event of a kind that the translator has no rule for yields no event,
/// and raises no question.
pub proof fn lemma_other_kinds_yield_nothing(state: AdapterState, raw: RawEventView)
    requires
        !is_translated_code(raw.code() as int),
    ensures
        first_step(state, raw) == StepView::Done(None),
{
}

/// The display server is told to report on a new window before anything is
/// asked about the window: the subscription is the first question, and the
/// one for the attributes follows it.
pub proof fn lemma_subscribes_before_looking(state: AdapterState, window: u64)
    ensures
        first_step(state, RawEventView::MapRequest { window }) == StepView::Pending(
            StageView::Subscribe { window },
        ),
        (StageView::Subscribe { window }).request() == Request::SubscribeToWindowEvents(
            WindowHandle::XlibHandle(window),
        ),
        (StageView::Subscribe { window }).resumed(ReplyView::Subscribed) == StepView::Pending(
            StageView::Attrs { window },
        ),
        (StageView::Attrs { window }).request() == Request::GetWindowAttrs(window),
{
}

/// A request to show a window that places itself yields no event.
pub proof fn lemma_override_redirect_window_is_ignored(
    state: AdapterState,
    window: u64,
    connection: Connection,
)
    requires
        (connection.window_attrs)(window) matches Ok(attrs) && attrs.is_override_redirect(),
    ensures
        run(
            first_step(state, RawEventView::MapRequest { window }),
            connection,
            MAX_QUESTIONS as nat,
        ) == StepView::Done(None),
{
    lemma_translation_ends(state, RawEventView::MapRequest { window }, connection);
}

/// A request to show a window that is gone by the time its attributes are
/// asked for yields no event.
pub proof fn lemma_vanished_window_is_dropped(
    state: AdapterState,
    window: u64,
    connection: Connection,
)
    requires
        (connection.window_attrs)(window) is Err,
    ensures
        run(
            first_step(state, RawEventView::MapRequest { window }),
            connection,
            MAX_QUESTIONS as nat,
        ) == StepView::Done(None),
{
    lemma_translation_ends(state, RawEventView::MapRequest { window }, connection);
}

/// A request to show a window that leaves its placement to the window
/// manager yields the creation of exactly that window: the handle is the
/// id in the request, and every other field is what the display server
/// answers for that id.
pub proof fn lemma_normal_window_is_created(
    state: AdapterState,
    window: u64,
    connection: Connection,
)
    requires
        (connection.window_attrs)(window) matches Ok(attrs) && !attrs.is_override_redirect(),
    ensures
        run(
            first_step(state, RawEventView::MapRequest { window }),
            connection,
            MAX_QUESTIONS as nat,
        ) == StepView::Done(Some(DisplayEventView::WindowCreate(new_window(window, connection)))),
        new_window(window, connection).handle == WindowHandle::XlibHandle(window),
{
    lemma_translation_ends(state, RawEventView::MapRequest { window }, connection);
}

/// The destruction of a window is always passed on, with the same id,
/// whatever the state of the connection and whether or not the window was
/// ever heard of.
pub proof fn lemma_destroy_is_unconditional(state: AdapterState, window: u64)
    ensures
        first_step(state, RawEventView::DestroyNotify { window }) == StepView::Done(
            Some(DisplayEventView::WindowDestroy(WindowHandle::XlibHandle(window))),
        ),
{
}

/// The release of a pointer button always ends the drag, whatever mode is
/// active.
pub proof fn lemma_button_release_ends_drag(state: AdapterState)
    ensures
        first_step(state, RawEventView::ButtonRelease) == StepView::Done(
            Some(DisplayEventView::ChangeToNormalMode),
        ),
{
}

/// A client message translates to exactly what the translator of client
/// messages makes of it.
pub proof fn lemma_client_message_delegates(
    state: AdapterState,
    message: ClientMessageView,
    connection: Connection,
)
    ensures
        run(
            first_step(state, RawEventView::ClientMessage(message)),
            connection,
            MAX_QUESTIONS as nat,
        ) == StepView::Done(client_message::translated(state.atoms, message)),
{
    lemma_translation_ends(state, RawEventView::ClientMessage(message), connection);
}

/// A property notification translates to exactly what the translator of
/// property notifications makes of it.
pub proof fn lemma_property_notify_delegates(
    state: AdapterState,
    event: PropertyEvent,
    connection: Connection,
)
    ensures
        run(
            first_step(state, RawEventView::PropertyNotify(event)),
            connection,
            MAX_QUESTIONS as nat,
        ) == StepView::Done(property_notify::translated(state.atoms, event, connection)),
{
    lemma_translation_ends(state, RawEventView::PropertyNotify(event), connection);
}

/// Where the pointer's position cannot be had, the pointer or the focus
/// entering a window yields no event.
pub proof fn lemma_no_pointer_no_focus(state: AdapterState, window: u64, connection: Connection)
    requires
        connection.pointer_location is None,
    ensures
        run(
            first_step(state, RawEventView::EnterNotify { window }),
            connection,
            MAX_QUESTIONS as nat,
        ) == StepView::Done(None),
        run(
            first_step(state, RawEventView::FocusIn { window }),
            connection,
            MAX_QUESTIONS as nat,
        ) == StepView::Done(None),
{
    lemma_translation_ends(state, RawEventView::EnterNotify { window }, connection);
    lemma_translation_ends(state, RawEventView::FocusIn { window }, connection);
}

/// Translating the same event twice, while neither the connection's state
/// nor the display server's answers change, ends in the same result. Each
/// step is a function of what it is given and keeps nothing between calls.
pub proof fn lemma_translation_is_repeatable(
    state: AdapterState,
    raw: RawEventView,
    connection: Connection,
    again_state: AdapterState,
    again_raw: RawEventView,
    again_connection: Connection,
)
    requires
        again_state == state,
        again_raw == raw,
        again_connection == connection,
    ensures
        run(first_step(again_state, again_raw), again_connection, MAX_QUESTIONS as nat) == run(
            first_step(state, raw),
            connection,
            MAX_QUESTIONS as nat,
        ),
{
}

} // verus!
