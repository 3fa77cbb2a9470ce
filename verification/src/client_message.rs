//! Client messages: requests that applications address to the window
//! manager.
//!
//! A request is known by the atom in the message's type. Three are
//! understood: to close a window, to make a window the active one, and to
//! change a window's state, of which the states fullscreen and maximized are
//! known. Anything else, and any message that lacks the data words its kind
//! needs, is no event.

use vstd::prelude::*;
use crate::adapter::Atoms;
use crate::event::{Command, DisplayEvent, DisplayEventView, StateAction, event_view};
use crate::raw::{ClientMessage, ClientMessageView};
use crate::window::WindowHandle;

verus! {

/// In a state request, the first data word when the state is to be removed.
pub const NET_WM_STATE_REMOVE: i64 = 0;

/// In a state request, the first data word when the state is to be added.
pub const NET_WM_STATE_ADD: i64 = 1;

/// In a state request, the first data word when the state is to be flipped.
pub const NET_WM_STATE_TOGGLE: i64 = 2;

/// A state of a window that a client may ask to have changed.
#[derive(Clone, Copy, Debug, PartialEq, Eq, Structural, Hash)]
pub enum WindowState {
    Fullscreen,
    Maximized,
}

/// The action that the first data word of a state request stands for.
pub open spec fn action_of(word: i64) -> Option<StateAction> {
    if word == NET_WM_STATE_REMOVE {
        Some(StateAction::Remove)
    } else if word == NET_WM_STATE_ADD {
        Some(StateAction::Add)
    } else if word == NET_WM_STATE_TOGGLE {
        Some(StateAction::Toggle)
    } else {
        None
    }
}

/// The state that a data word of a state request names by its atom.
/// Maximized is named by either of its two atoms, the vertical and the
/// horizontal.
pub open spec fn state_of(atoms: Atoms, word: i64) -> Option<WindowState> {
    if word == atoms.net_wm_state_fullscreen {
        Some(WindowState::Fullscreen)
    } else if word == atoms.net_wm_state_maximized_vert || word
        == atoms.net_wm_state_maximized_horz {
        Some(WindowState::Maximized)
    } else {
        None
    }
}

/// The state that a state request is about: the one that its second data
/// word names, or else the one that its third names, if it has a third.
pub open spec fn requested_state(atoms: Atoms, data: Seq<i64>) -> Option<WindowState>
    recommends
        data.len() >= 2,
{
    match state_of(atoms, data[1]) {
        Some(state) => Some(state),
        None => if data.len() >= 3 {
            state_of(atoms, data[2])
        } else {
            None
        },
    }
}

/// The command that a state request for `handle` with these data words
/// comes to. It takes an action and at least one state that is known.
pub open spec fn state_command(atoms: Atoms, handle: WindowHandle, data: Seq<i64>) -> Option<
    Command,
> {
    if data.len() < 2 {
        None
    } else {
        match (action_of(data[0]), requested_state(atoms, data)) {
            (Some(action), Some(WindowState::Fullscreen)) => Some(
                Command::SetFullscreen(handle, action),
            ),
            (Some(action), Some(WindowState::Maximized)) => Some(
                Command::SetMaximized(handle, action),
            ),
            _ => None,
        }
    }
}

/// The command that a client message asks for, if it asks for one that is
/// understood.
pub open spec fn command_of(atoms: Atoms, message: ClientMessageView) -> Option<Command> {
    let handle = WindowHandle::XlibHandle(message.window);
    if message.message_type == atoms.net_close_window {
        Some(Command::CloseWindow(handle))
    } else if message.message_type == atoms.net_active_window {
        Some(Command::FocusWindow(handle))
    } else if message.message_type == atoms.net_wm_state {
        state_command(atoms, handle, message.data)
    } else {
        None
    }
}

/// What a client message translates to.
pub open spec fn translated(atoms: Atoms, message: ClientMessageView) -> Option<DisplayEventView> {
    match command_of(atoms, message) {
        Some(command) => Some(DisplayEventView::SendCommand(command)),
        None => None,
    }
}

/// Whether a data word is the given atom.
fn is_atom(word: i64, atom: u64) -> (b: bool)
    ensures
        b == (word == atom),
{
    word >= 0 && word as u64 == atom
}

fn parse_action(word: i64) -> (action: Option<StateAction>)
    ensures
        action == action_of(word),
{
    if word == NET_WM_STATE_REMOVE {
        Some(StateAction::Remove)
    } else if word == NET_WM_STATE_ADD {
        Some(StateAction::Add)
    } else if word == NET_WM_STATE_TOGGLE {
        Some(StateAction::Toggle)
    } else {
        None
    }
}

fn parse_state(atoms: &Atoms, word: i64) -> (state: Option<WindowState>)
    ensures
        state == state_of(*atoms, word),
{
    if is_atom(word, atoms.net_wm_state_fullscreen) {
        Some(WindowState::Fullscreen)
    } else if is_atom(word, atoms.net_wm_state_maximized_vert) || is_atom(
        word,
        atoms.net_wm_state_maximized_horz,
    ) {
        Some(WindowState::Maximized)
    } else {
        None
    }
}

fn parse_state_request(atoms: &Atoms, handle: WindowHandle, data: &Vec<i64>) -> (command: Option<
    Command,
>)
    ensures
        command == state_command(*atoms, handle, data@),
{
    if data.len() < 2 {
        return None;
    }
    let action = match parse_action(data[0]) {
        Some(action) => action,
        None => {
            return None;
        },
    };
    let first = parse_state(atoms, data[1]);
    let state = if first.is_none() && data.len() >= 3 {
        parse_state(atoms, data[2])
    } else {
        first
    };
    match state {
        Some(WindowState::Fullscreen) => Some(Command::SetFullscreen(handle, action)),
        Some(WindowState::Maximized) => Some(Command::SetMaximized(handle, action)),
        None => None,
    }
}

/// Translates a client message.
///
/// The result is the command that the message asks for, as an event, where
/// it asks for one that is understood, and no event otherwise. A message
/// with too few data words for its kind is no event either; no message makes
/// this fail.
pub fn from_event(atoms: &Atoms, event: &ClientMessage) -> (translation: Option<DisplayEvent>)
    ensures
        event_view(translation) == translated(*atoms, event@),
{
    let handle = WindowHandle::XlibHandle(event.window);
    let command = if event.message_type == atoms.net_close_window {
        Some(Command::CloseWindow(handle))
    } else if event.message_type == atoms.net_active_window {
        Some(Command::FocusWindow(handle))
    } else if event.message_type == atoms.net_wm_state {
        parse_state_request(atoms, handle, &event.data)
    } else {
        None
    };
    match command {
        Some(command) => Some(DisplayEvent::SendCommand(command)),
        None => None,
    }
}

/// A message of a type that is none of the three known yields no event,
/// whatever its data.
pub proof fn lemma_unrecognized_message_type(atoms: Atoms, message: ClientMessageView)
    requires
        message.message_type != atoms.net_close_window,
        message.message_type != atoms.net_active_window,
        message.message_type != atoms.net_wm_state,
    ensures
        translated(atoms, message) is None,
{
}

/// A state request that is cut short, before the word that names the state,
/// yields no event.
pub proof fn lemma_truncated_state_request(atoms: Atoms, message: ClientMessageView)
    requires
        message.message_type != atoms.net_close_window,
        message.message_type != atoms.net_active_window,
        message.data.len() < 2,
    ensures
        translated(atoms, message) is None,
{
}

/// Every event that a client message yields is a command about the window
/// that the message names.
pub proof fn lemma_command_names_the_window(atoms: Atoms, message: ClientMessageView)
    ensures
        translated(atoms, message) matches Some(event) ==> {
            &&& event matches DisplayEventView::SendCommand(command)
            &&& command.window() == WindowHandle::XlibHandle(message.window)
        },
{
}

} // verus!
