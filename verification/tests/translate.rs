use event_translate::adapter::{
    AdapterState, Atoms, QueryError, Reply, Request, WindowAttributes,
};
use event_translate::client_message;
use event_translate::event::{Command, DisplayEvent, StateAction, WindowChange, WindowUpdate};
use event_translate::mode::DisplayServerMode;
use event_translate::raw::{ClientMessage, PropertyEvent, RawEvent};
use event_translate::translate::{begin, translate, Step, MAX_QUESTIONS};
use std::cell::RefCell;
use event_translate::window::{Strut, Window, WindowHandle, WindowType};

fn atoms() -> Atoms {
    Atoms {
        net_wm_name: 301,
        net_wm_window_type: 302,
        net_wm_strut: 303,
        net_wm_strut_partial: 304,
        net_wm_state: 305,
        net_wm_state_fullscreen: 306,
        net_wm_state_maximized_vert: 307,
        net_wm_state_maximized_horz: 308,
        net_active_window: 309,
        net_close_window: 310,
    }
}

fn state_in(mode: DisplayServerMode, origin: (i32, i32)) -> AdapterState {
    AdapterState { mode, mode_origin: origin, atoms: atoms() }
}

fn idle() -> AdapterState {
    state_in(DisplayServerMode::NormalMode, (0, 0))
}

/// A display server with scripted answers, which notes what it was asked.
struct Server {
    attrs: Result<WindowAttributes, QueryError>,
    name: &'static str,
    transient: Option<u64>,
    hint: Option<(u32, u32)>,
    type_: WindowType,
    strut: Option<Strut>,
    pointer: Option<(i32, i32)>,
    keysym: u32,
    asked: Vec<Request>,
}

impl Server {
    fn new() -> Server {
        Server {
            attrs: Ok(WindowAttributes { override_redirect: 0 }),
            name: "xterm",
            transient: None,
            hint: None,
            type_: WindowType::Normal,
            strut: None,
            pointer: Some((0, 0)),
            keysym: 0,
            asked: Vec::new(),
        }
    }

    fn answer(&mut self, request: Request) -> Reply {
        self.asked.push(request);
        match request {
            Request::SubscribeToWindowEvents(_) => Reply::Subscribed,
            Request::GetWindowAttrs(_) => Reply::WindowAttrs(self.attrs),
            Request::GetWindowName(_) => Reply::WindowName(self.name.to_string()),
            Request::GetTransientFor(_) => Reply::TransientFor(self.transient),
            Request::GetHintSizingAsTuple(_) => Reply::HintSizing(self.hint),
            Request::GetWindowType(_) => Reply::WindowType(self.type_),
            Request::GetWindowStrut(_) => Reply::WindowStrut(self.strut),
            Request::GetPointerLocation => Reply::PointerLocation(self.pointer),
            Request::KeycodeToKeysym(_) => Reply::Keysym(self.keysym),
        }
    }

    fn translate(&mut self, state: &AdapterState, raw: &RawEvent) -> Option<DisplayEvent> {
        let mut step = begin(state, raw);
        loop {
            match step {
                Step::Done(event) => return event,
                Step::Pending(pending) => {
                    let request = pending.request();
                    let reply = self.answer(request);
                    assert!(reply.answers(&request));
                    step = pending.resume(reply);
                }
            }
        }
    }
}

fn kinds_without_translation() -> Vec<RawEvent> {
    vec![
        RawEvent::KeyRelease,
        RawEvent::LeaveNotify,
        RawEvent::FocusOut,
        RawEvent::KeymapNotify,
        RawEvent::Expose,
        RawEvent::GraphicsExpose,
        RawEvent::NoExpose,
        RawEvent::VisibilityNotify,
        RawEvent::CreateNotify,
        RawEvent::UnmapNotify,
        RawEvent::MapNotify,
        RawEvent::ReparentNotify,
        RawEvent::ConfigureNotify,
        RawEvent::ConfigureRequest,
        RawEvent::GravityNotify,
        RawEvent::ResizeRequest,
        RawEvent::CirculateNotify,
        RawEvent::CirculateRequest,
        RawEvent::SelectionClear,
        RawEvent::SelectionRequest,
        RawEvent::SelectionNotify,
        RawEvent::ColormapNotify,
        RawEvent::MappingNotify,
        RawEvent::GenericEvent,
        RawEvent::Unknown { code: 0 },
        RawEvent::Unknown { code: 1 },
        RawEvent::Unknown { code: 36 },
        RawEvent::Unknown { code: 90 },
        RawEvent::Unknown { code: -1 },
    ]
}

#[test]
fn kinds_without_a_rule_yield_no_event_and_ask_nothing() {
    for raw in kinds_without_translation() {
        assert_eq!(begin(&idle(), &raw), Step::Done(None), "{}", raw.name());
        let mut server = Server::new();
        assert_eq!(server.translate(&idle(), &raw), None);
        assert!(server.asked.is_empty());
    }
}

#[test]
fn unmap_and_low_level_create_are_suppressed() {
    let moving = state_in(DisplayServerMode::MovingWindow(WindowHandle::XlibHandle(3)), (1, 1));
    for state in [idle(), moving] {
        assert_eq!(begin(&state, &RawEvent::UnmapNotify), Step::Done(None));
        assert_eq!(begin(&state, &RawEvent::CreateNotify), Step::Done(None));
        assert_eq!(begin(&state, &RawEvent::MapNotify), Step::Done(None));
    }
}

#[test]
fn map_request_of_override_redirect_window_yields_no_event() {
    let mut server = Server::new();
    server.attrs = Ok(WindowAttributes { override_redirect: 1 });
    let event = server.translate(&idle(), &RawEvent::MapRequest { window: 77 });
    assert_eq!(event, None);
    assert_eq!(
        server.asked,
        vec![
            Request::SubscribeToWindowEvents(WindowHandle::XlibHandle(77)),
            Request::GetWindowAttrs(77),
        ]
    );
}

#[test]
fn map_request_of_vanished_window_yields_no_event() {
    let mut server = Server::new();
    server.attrs = Err(QueryError::WindowGone);
    let event = server.translate(&idle(), &RawEvent::MapRequest { window: 77 });
    assert_eq!(event, None);
    assert_eq!(
        server.asked,
        vec![
            Request::SubscribeToWindowEvents(WindowHandle::XlibHandle(77)),
            Request::GetWindowAttrs(77),
        ]
    );
}

#[test]
fn map_request_of_normal_window_creates_the_complete_window() {
    let mut server = Server::new();
    server.name = "editor";
    server.transient = Some(12);
    server.hint = Some((640, 480));
    server.type_ = WindowType::Dialog;
    let event = server.translate(&idle(), &RawEvent::MapRequest { window: 77 });
    assert_eq!(
        event,
        Some(DisplayEvent::WindowCreate(Window {
            handle: WindowHandle::XlibHandle(77),
            name: "editor".to_string(),
            transient: Some(WindowHandle::XlibHandle(12)),
            floating_size: Some((640, 480)),
            type_: WindowType::Dialog,
        }))
    );
    assert_eq!(
        server.asked,
        vec![
            Request::SubscribeToWindowEvents(WindowHandle::XlibHandle(77)),
            Request::GetWindowAttrs(77),
            Request::GetWindowName(77),
            Request::GetTransientFor(77),
            Request::GetHintSizingAsTuple(77),
            Request::GetWindowType(77),
        ]
    );
    assert_eq!(server.asked.len(), MAX_QUESTIONS);
}

#[test]
fn map_request_of_plain_window_has_empty_name_and_no_parent() {
    let mut server = Server::new();
    server.name = "";
    let event = server.translate(&idle(), &RawEvent::MapRequest { window: 5 });
    assert_eq!(
        event,
        Some(DisplayEvent::WindowCreate(Window {
            handle: WindowHandle::XlibHandle(5),
            name: String::new(),
            transient: None,
            floating_size: None,
            type_: WindowType::Normal,
        }))
    );
}

#[test]
fn negative_override_redirect_flag_counts_as_unset() {
    let mut server = Server::new();
    server.attrs = Ok(WindowAttributes { override_redirect: -1 });
    let event = server.translate(&idle(), &RawEvent::MapRequest { window: 5 });
    assert!(matches!(event, Some(DisplayEvent::WindowCreate(_))));
}

#[test]
fn map_request_subscribes_before_it_asks_anything() {
    let step = begin(&idle(), &RawEvent::MapRequest { window: 9 });
    match step {
        Step::Pending(pending) => {
            assert_eq!(
                pending.request(),
                Request::SubscribeToWindowEvents(WindowHandle::XlibHandle(9))
            );
            match pending.resume(Reply::Subscribed) {
                Step::Pending(next) => assert_eq!(next.request(), Request::GetWindowAttrs(9)),
                Step::Done(_) => panic!("ended before the window was looked at"),
            }
        }
        Step::Done(_) => panic!("ended without a question"),
    }
}

#[test]
fn destroy_notify_always_yields_window_destroy() {
    let resizing = state_in(DisplayServerMode::ResizingWindow(WindowHandle::XlibHandle(1)), (5, 5));
    for state in [idle(), resizing] {
        for window in [0u64, 1, 4242, u64::MAX] {
            assert_eq!(
                begin(&state, &RawEvent::DestroyNotify { window }),
                Step::Done(Some(DisplayEvent::WindowDestroy(WindowHandle::XlibHandle(window))))
            );
        }
    }
}

#[test]
fn button_press_yields_mouse_combo() {
    let raw = RawEvent::ButtonPress { state: 8, button: 1, window: 31 };
    assert_eq!(
        begin(&idle(), &raw),
        Step::Done(Some(DisplayEvent::MouseCombo(8, 1, WindowHandle::XlibHandle(31))))
    );
}

#[test]
fn button_release_yields_change_to_normal_mode_in_every_mode() {
    let h = WindowHandle::XlibHandle(6);
    for mode in [
        DisplayServerMode::NormalMode,
        DisplayServerMode::MovingWindow(h),
        DisplayServerMode::ResizingWindow(h),
    ] {
        assert_eq!(
            begin(&state_in(mode, (10, 10)), &RawEvent::ButtonRelease),
            Step::Done(Some(DisplayEvent::ChangeToNormalMode))
        );
    }
}

#[test]
fn motion_while_moving_yields_offset_from_origin() {
    let h = WindowHandle::XlibHandle(11);
    let state = state_in(DisplayServerMode::MovingWindow(h), (100, 100));
    let raw = RawEvent::MotionNotify { window: 99, x_root: 130, y_root: 80 };
    assert_eq!(begin(&state, &raw), Step::Done(Some(DisplayEvent::MoveWindow(h, 30, -20))));
}

#[test]
fn motion_while_resizing_yields_offset_from_origin() {
    let h = WindowHandle::XlibHandle(11);
    let state = state_in(DisplayServerMode::ResizingWindow(h), (100, 100));
    let raw = RawEvent::MotionNotify { window: 99, x_root: 130, y_root: 80 };
    assert_eq!(begin(&state, &raw), Step::Done(Some(DisplayEvent::ResizeWindow(h, 30, -20))));
}

#[test]
fn motion_in_normal_mode_yields_absolute_movement() {
    let state = state_in(DisplayServerMode::NormalMode, (100, 100));
    let raw = RawEvent::MotionNotify { window: 42, x_root: 50, y_root: 60 };
    assert_eq!(
        begin(&state, &raw),
        Step::Done(Some(DisplayEvent::Movement(WindowHandle::XlibHandle(42), 50, 60)))
    );
}

#[test]
fn motion_offsets_hold_the_widest_differences() {
    let h = WindowHandle::XlibHandle(1);
    let state = state_in(DisplayServerMode::MovingWindow(h), (i32::MIN, i32::MAX));
    let raw = RawEvent::MotionNotify { window: 1, x_root: i32::MAX, y_root: i32::MIN };
    assert_eq!(
        begin(&state, &raw),
        Step::Done(Some(DisplayEvent::MoveWindow(h, 4294967295, -4294967295)))
    );
}

#[test]
fn enter_and_focus_in_yield_focused_window_at_the_pointer() {
    for raw in [RawEvent::EnterNotify { window: 8 }, RawEvent::FocusIn { window: 8 }] {
        let mut server = Server::new();
        server.pointer = Some((300, -4));
        assert_eq!(
            server.translate(&idle(), &raw),
            Some(DisplayEvent::FocusedWindow(WindowHandle::XlibHandle(8), 300, -4))
        );
        assert_eq!(server.asked, vec![Request::GetPointerLocation]);
    }
}

#[test]
fn enter_and_focus_in_without_pointer_location_yield_no_event() {
    for raw in [RawEvent::EnterNotify { window: 8 }, RawEvent::FocusIn { window: 8 }] {
        let mut server = Server::new();
        server.pointer = None;
        assert_eq!(server.translate(&idle(), &raw), None);
        assert_eq!(server.asked, vec![Request::GetPointerLocation]);
    }
}

#[test]
fn key_press_yields_key_combo_with_the_resolved_symbol() {
    let mut server = Server::new();
    server.keysym = 0xff0d;
    let event = server.translate(&idle(), &RawEvent::KeyPress { state: 64, keycode: 36 });
    assert_eq!(event, Some(DisplayEvent::KeyCombo(64, 0xff0d)));
    assert_eq!(server.asked, vec![Request::KeycodeToKeysym(36)]);
}

#[test]
fn client_message_output_is_the_sub_translators() {
    let messages = vec![
        ClientMessage { window: 4, message_type: 310, data: vec![0, 0, 0, 0, 0] },
        ClientMessage { window: 4, message_type: 309, data: vec![] },
        ClientMessage { window: 4, message_type: 305, data: vec![2, 306, 0, 1, 0] },
        ClientMessage { window: 4, message_type: 305, data: vec![2] },
        ClientMessage { window: 4, message_type: 999, data: vec![1, 2, 3, 4, 5] },
    ];
    for message in messages {
        let expected = client_message::from_event(&atoms(), &message);
        let mut server = Server::new();
        let event = server.translate(&idle(), &RawEvent::ClientMessage(message));
        assert_eq!(event, expected);
        assert!(server.asked.is_empty());
    }
}

#[test]
fn client_message_close_request_through_the_dispatcher() {
    let message = ClientMessage { window: 4, message_type: 310, data: vec![0; 5] };
    assert_eq!(
        begin(&idle(), &RawEvent::ClientMessage(message)),
        Step::Done(Some(DisplayEvent::SendCommand(Command::CloseWindow(
            WindowHandle::XlibHandle(4)
        ))))
    );
}

#[test]
fn client_message_fullscreen_toggle_through_the_dispatcher() {
    let message = ClientMessage { window: 4, message_type: 305, data: vec![2, 306, 0, 1, 0] };
    assert_eq!(
        begin(&idle(), &RawEvent::ClientMessage(message)),
        Step::Done(Some(DisplayEvent::SendCommand(Command::SetFullscreen(
            WindowHandle::XlibHandle(4),
            StateAction::Toggle
        ))))
    );
}

#[test]
fn property_notify_output_is_the_sub_translators() {
    let events = vec![
        PropertyEvent { window: 21, atom: 39, state: 0 },
        PropertyEvent { window: 21, atom: 40, state: 0 },
        PropertyEvent { window: 21, atom: 302, state: 0 },
        PropertyEvent { window: 21, atom: 304, state: 0 },
        PropertyEvent { window: 21, atom: 39, state: 1 },
        PropertyEvent { window: 21, atom: 777, state: 0 },
    ];
    for event in events {
        let mut direct = Server::new();
        direct.name = "mail";
        direct.hint = Some((10, 20));
        let expected = match event_translate::property_notify::from_event(&atoms(), &event) {
            Some(query) => {
                let reply = direct.answer(query.request());
                query.resume(reply)
            }
            None => None,
        };
        let mut server = Server::new();
        server.name = "mail";
        server.hint = Some((10, 20));
        let got = server.translate(&idle(), &RawEvent::PropertyNotify(event));
        assert_eq!(got, expected);
        assert_eq!(server.asked, direct.asked);
    }
}

#[test]
fn property_notify_of_the_name_through_the_dispatcher() {
    let mut server = Server::new();
    server.name = "mail";
    let event = PropertyEvent { window: 21, atom: 39, state: 0 };
    assert_eq!(
        server.translate(&idle(), &RawEvent::PropertyNotify(event)),
        Some(DisplayEvent::WindowChange(WindowChange {
            handle: WindowHandle::XlibHandle(21),
            update: WindowUpdate::Name("mail".to_string()),
        }))
    );
    assert_eq!(server.asked, vec![Request::GetWindowName(21)]);
}

#[test]
fn reply_to_another_question_ends_in_no_event() {
    let wrong = [
        (RawEvent::MapRequest { window: 1 }, Reply::WindowName("x".to_string())),
        (RawEvent::EnterNotify { window: 1 }, Reply::Keysym(3)),
        (RawEvent::FocusIn { window: 1 }, Reply::Subscribed),
        (RawEvent::KeyPress { state: 0, keycode: 9 }, Reply::PointerLocation(Some((1, 1)))),
        (
            RawEvent::PropertyNotify(PropertyEvent { window: 1, atom: 39, state: 0 }),
            Reply::HintSizing(None),
        ),
    ];
    for (raw, reply) in wrong {
        match begin(&idle(), &raw) {
            Step::Pending(pending) => {
                assert!(!reply.answers(&pending.request()));
                assert_eq!(pending.resume(reply), Step::Done(None));
            }
            Step::Done(_) => panic!("ended without a question"),
        }
    }
}

#[test]
fn reply_to_another_question_mid_window_ends_in_no_event() {
    let step = begin(&idle(), &RawEvent::MapRequest { window: 1 });
    let step = match step {
        Step::Pending(p) => p.resume(Reply::Subscribed),
        Step::Done(_) => panic!("ended without a question"),
    };
    let step = match step {
        Step::Pending(p) => {
            p.resume(Reply::WindowAttrs(Ok(WindowAttributes { override_redirect: 0 })))
        }
        Step::Done(_) => panic!("ended before the name"),
    };
    let step = match step {
        Step::Pending(p) => p.resume(Reply::WindowName("a".to_string())),
        Step::Done(_) => panic!("ended before the parent"),
    };
    match step {
        Step::Pending(p) => {
            assert_eq!(p.request(), Request::GetTransientFor(1));
            assert_eq!(p.resume(Reply::WindowType(WindowType::Dock)), Step::Done(None));
        }
        Step::Done(_) => panic!("ended before the parent"),
    }
}

#[test]
fn translating_twice_gives_the_same_result() {
    let h = WindowHandle::XlibHandle(2);
    let state = state_in(DisplayServerMode::MovingWindow(h), (7, 9));
    let mut events = kinds_without_translation();
    events.push(RawEvent::MapRequest { window: 3 });
    events.push(RawEvent::DestroyNotify { window: 3 });
    events.push(RawEvent::ButtonPress { state: 1, button: 3, window: 3 });
    events.push(RawEvent::ButtonRelease);
    events.push(RawEvent::EnterNotify { window: 3 });
    events.push(RawEvent::FocusIn { window: 3 });
    events.push(RawEvent::KeyPress { state: 1, keycode: 24 });
    events.push(RawEvent::MotionNotify { window: 3, x_root: 1, y_root: 2 });
    events.push(RawEvent::PropertyNotify(PropertyEvent { window: 3, atom: 301, state: 0 }));
    events.push(RawEvent::ClientMessage(ClientMessage {
        window: 3,
        message_type: 305,
        data: vec![1, 307, 308, 0, 0],
    }));
    let before = state;
    for raw in events {
        let mut server = Server::new();
        let first = server.translate(&state, &raw);
        let asked = server.asked.clone();
        server.asked.clear();
        let second = server.translate(&state, &raw);
        assert_eq!(first, second);
        assert_eq!(asked, server.asked);
        assert_eq!(state, before);
    }
}

#[test]
fn translate_asks_the_given_function_and_ends() {
    let server = RefCell::new(Server::new());
    server.borrow_mut().name = "editor";
    server.borrow_mut().transient = Some(12);
    server.borrow_mut().hint = Some((640, 480));
    server.borrow_mut().type_ = WindowType::Dialog;
    let event = translate(&idle(), &RawEvent::MapRequest { window: 77 }, |request| {
        server.borrow_mut().answer(request)
    });
    assert_eq!(
        event,
        Some(DisplayEvent::WindowCreate(Window {
            handle: WindowHandle::XlibHandle(77),
            name: "editor".to_string(),
            transient: Some(WindowHandle::XlibHandle(12)),
            floating_size: Some((640, 480)),
            type_: WindowType::Dialog,
        }))
    );
    assert_eq!(
        server.borrow().asked,
        vec![
            Request::SubscribeToWindowEvents(WindowHandle::XlibHandle(77)),
            Request::GetWindowAttrs(77),
            Request::GetWindowName(77),
            Request::GetTransientFor(77),
            Request::GetHintSizingAsTuple(77),
            Request::GetWindowType(77),
        ]
    );
}

#[test]
fn translate_agrees_with_the_steps_taken_one_by_one() {
    let h = WindowHandle::XlibHandle(2);
    let state = state_in(DisplayServerMode::ResizingWindow(h), (7, 9));
    let mut events = kinds_without_translation();
    events.push(RawEvent::MapRequest { window: 3 });
    events.push(RawEvent::DestroyNotify { window: 3 });
    events.push(RawEvent::ButtonPress { state: 1, button: 3, window: 3 });
    events.push(RawEvent::ButtonRelease);
    events.push(RawEvent::EnterNotify { window: 3 });
    events.push(RawEvent::FocusIn { window: 3 });
    events.push(RawEvent::KeyPress { state: 1, keycode: 24 });
    events.push(RawEvent::MotionNotify { window: 3, x_root: 1, y_root: 2 });
    events.push(RawEvent::PropertyNotify(PropertyEvent { window: 3, atom: 40, state: 0 }));
    events.push(RawEvent::ClientMessage(ClientMessage {
        window: 3,
        message_type: 309,
        data: vec![1, 0, 0, 0, 0],
    }));
    for raw in events {
        let mut stepwise = Server::new();
        let expected = stepwise.translate(&state, &raw);
        let server = RefCell::new(Server::new());
        let event = translate(&state, &raw, |request| server.borrow_mut().answer(request));
        assert_eq!(event, expected);
        assert_eq!(server.borrow().asked, stepwise.asked);
    }
}

#[test]
fn translate_ends_in_no_event_when_replies_do_not_fit() {
    let asked = RefCell::new(0);
    let event = translate(&idle(), &RawEvent::MapRequest { window: 1 }, |_| {
        *asked.borrow_mut() += 1;
        Reply::Keysym(1)
    });
    assert_eq!(event, None);
    assert_eq!(*asked.borrow(), 1);
}

#[test]
fn translate_without_pointer_location_yields_no_event() {
    for raw in [RawEvent::EnterNotify { window: 8 }, RawEvent::FocusIn { window: 8 }] {
        let event = translate(&idle(), &raw, |_| Reply::PointerLocation(None));
        assert_eq!(event, None);
    }
}
