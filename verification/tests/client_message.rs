use event_translate::adapter::Atoms;
use event_translate::client_message::{
    from_event, NET_WM_STATE_ADD, NET_WM_STATE_REMOVE, NET_WM_STATE_TOGGLE,
};
use event_translate::event::{Command, DisplayEvent, StateAction};
use event_translate::raw::ClientMessage;
use event_translate::window::WindowHandle;

fn message_atoms() -> Atoms {
    Atoms {
        net_wm_name: 301,
        net_wm_window_type: 302,
        net_wm_strut: 303,
        net_wm_strut_partial: 304,
        net_wm_state: 305,
        net_wm_state_fullscreen: 306,
        net_wm_state_maximized_vert: 307,
        net_wm_state_maximized_horz: 308,
        net_active_window: 309,
        net_close_window: 310,
    }
}

fn command(window: u64, message_type: u64, data: Vec<i64>) -> Option<DisplayEvent> {
    from_event(&message_atoms(), &ClientMessage { window, message_type, data })
}

fn sent(command: Command) -> Option<DisplayEvent> {
    Some(DisplayEvent::SendCommand(command))
}

#[test]
fn close_request_yields_close_window() {
    let h = WindowHandle::XlibHandle(50);
    assert_eq!(command(50, 310, vec![0, 0, 0, 0, 0]), sent(Command::CloseWindow(h)));
    assert_eq!(command(50, 310, vec![]), sent(Command::CloseWindow(h)));
}

#[test]
fn active_window_request_yields_focus_window() {
    let h = WindowHandle::XlibHandle(51);
    assert_eq!(command(51, 309, vec![1, 0, 0, 0, 0]), sent(Command::FocusWindow(h)));
    assert_eq!(command(51, 309, vec![]), sent(Command::FocusWindow(h)));
}

#[test]
fn state_request_for_fullscreen_carries_its_action() {
    let h = WindowHandle::XlibHandle(52);
    assert_eq!(
        command(52, 305, vec![NET_WM_STATE_REMOVE, 306, 0, 1, 0]),
        sent(Command::SetFullscreen(h, StateAction::Remove))
    );
    assert_eq!(
        command(52, 305, vec![NET_WM_STATE_ADD, 306, 0, 1, 0]),
        sent(Command::SetFullscreen(h, StateAction::Add))
    );
    assert_eq!(
        command(52, 305, vec![NET_WM_STATE_TOGGLE, 306, 0, 1, 0]),
        sent(Command::SetFullscreen(h, StateAction::Toggle))
    );
}

#[test]
fn state_request_for_maximized_takes_either_atom() {
    let h = WindowHandle::XlibHandle(53);
    assert_eq!(
        command(53, 305, vec![2, 307, 308, 1, 0]),
        sent(Command::SetMaximized(h, StateAction::Toggle))
    );
    assert_eq!(
        command(53, 305, vec![1, 308, 0, 0, 0]),
        sent(Command::SetMaximized(h, StateAction::Add))
    );
    assert_eq!(
        command(53, 305, vec![0, 307]),
        sent(Command::SetMaximized(h, StateAction::Remove))
    );
}

#[test]
fn state_request_falls_back_to_the_second_state() {
    let h = WindowHandle::XlibHandle(54);
    assert_eq!(
        command(54, 305, vec![1, 9999, 306, 0, 0]),
        sent(Command::SetFullscreen(h, StateAction::Add))
    );
    assert_eq!(
        command(54, 305, vec![1, 0, 308]),
        sent(Command::SetMaximized(h, StateAction::Add))
    );
}

#[test]
fn state_request_prefers_the_first_state() {
    let h = WindowHandle::XlibHandle(55);
    assert_eq!(
        command(55, 305, vec![1, 306, 307, 0, 0]),
        sent(Command::SetFullscreen(h, StateAction::Add))
    );
    assert_eq!(
        command(55, 305, vec![1, 307, 306, 0, 0]),
        sent(Command::SetMaximized(h, StateAction::Add))
    );
}

#[test]
fn state_request_for_an_unknown_state_yields_no_event() {
    assert_eq!(command(56, 305, vec![1, 9999, 8888, 0, 0]), None);
    assert_eq!(command(56, 305, vec![1, 9999]), None);
    assert_eq!(command(56, 305, vec![1, 305, 309, 0, 0]), None);
}

#[test]
fn state_request_with_an_unknown_action_yields_no_event() {
    assert_eq!(command(57, 305, vec![3, 306, 0, 0, 0]), None);
    assert_eq!(command(57, 305, vec![-1, 306, 0, 0, 0]), None);
    assert_eq!(command(57, 305, vec![i64::MAX, 306, 0, 0, 0]), None);
}

#[test]
fn truncated_state_request_yields_no_event() {
    assert_eq!(command(58, 305, vec![]), None);
    assert_eq!(command(58, 305, vec![2]), None);
}

#[test]
fn negative_data_word_names_no_state() {
    assert_eq!(command(59, 305, vec![1, -306, 0, 0, 0]), None);
    assert_eq!(command(59, 305, vec![1, i64::MIN, -1, 0, 0]), None);
}

#[test]
fn unrecognized_message_type_yields_no_event() {
    assert_eq!(command(60, 0, vec![2, 306, 0, 0, 0]), None);
    assert_eq!(command(60, 306, vec![2, 306, 0, 0, 0]), None);
    assert_eq!(command(60, u64::MAX, vec![]), None);
}

#[test]
fn close_takes_precedence_where_atoms_coincide() {
    let mut atoms = message_atoms();
    atoms.net_active_window = 310;
    atoms.net_wm_state = 310;
    let message = ClientMessage { window: 61, message_type: 310, data: vec![2, 306] };
    assert_eq!(
        from_event(&atoms, &message),
        sent(Command::CloseWindow(WindowHandle::XlibHandle(61)))
    );
}
