use event_translate::adapter::{Atoms, Reply, Request, XA_WM_NAME, XA_WM_NORMAL_HINTS};
use event_translate::event::{DisplayEvent, WindowChange, WindowUpdate};
use event_translate::property_notify::{classify, from_event, PropertyKind, PropertyQuery};
use event_translate::raw::{PropertyEvent, PROPERTY_DELETE, PROPERTY_NEW_VALUE};
use event_translate::window::{Strut, WindowHandle, WindowType};

fn property_atoms() -> Atoms {
    Atoms {
        net_wm_name: 301,
        net_wm_window_type: 302,
        net_wm_strut: 303,
        net_wm_strut_partial: 304,
        net_wm_state: 305,
        net_wm_state_fullscreen: 306,
        net_wm_state_maximized_vert: 307,
        net_wm_state_maximized_horz: 308,
        net_active_window: 309,
        net_close_window: 310,
    }
}

fn changed(window: u64, atom: u64) -> Option<PropertyQuery> {
    from_event(&property_atoms(), &PropertyEvent { window, atom, state: PROPERTY_NEW_VALUE })
}

fn change(window: u64, update: WindowUpdate) -> Option<DisplayEvent> {
    let handle = WindowHandle::XlibHandle(window);
    Some(DisplayEvent::WindowChange(WindowChange { handle, update }))
}

#[test]
fn classify_knows_the_four_kinds() {
    let atoms = property_atoms();
    assert_eq!(classify(&atoms, XA_WM_NAME), Some(PropertyKind::Name));
    assert_eq!(classify(&atoms, 39), Some(PropertyKind::Name));
    assert_eq!(classify(&atoms, 301), Some(PropertyKind::Name));
    assert_eq!(classify(&atoms, XA_WM_NORMAL_HINTS), Some(PropertyKind::SizeHints));
    assert_eq!(classify(&atoms, 40), Some(PropertyKind::SizeHints));
    assert_eq!(classify(&atoms, 302), Some(PropertyKind::WindowType));
    assert_eq!(classify(&atoms, 303), Some(PropertyKind::Strut));
    assert_eq!(classify(&atoms, 304), Some(PropertyKind::Strut));
}

#[test]
fn classify_rejects_other_atoms() {
    let atoms = property_atoms();
    for atom in [0u64, 1, 35, 38, 41, 68, 300, 305, 306, 310, u64::MAX] {
        assert_eq!(classify(&atoms, atom), None, "{}", atom);
    }
}

#[test]
fn name_change_asks_for_the_name_and_reports_it() {
    for atom in [39u64, 301] {
        let query = changed(70, atom).unwrap();
        assert_eq!(query, PropertyQuery { window: 70, kind: PropertyKind::Name });
        assert_eq!(query.request(), Request::GetWindowName(70));
        assert_eq!(
            query.resume(Reply::WindowName("notes".to_string())),
            change(70, WindowUpdate::Name("notes".to_string()))
        );
    }
}

#[test]
fn name_change_to_nothing_reports_the_empty_name() {
    let query = changed(70, 39).unwrap();
    assert_eq!(
        query.resume(Reply::WindowName(String::new())),
        change(70, WindowUpdate::Name(String::new()))
    );
}

#[test]
fn size_hint_change_asks_for_the_hint_and_reports_it() {
    let query = changed(71, 40).unwrap();
    assert_eq!(query.request(), Request::GetHintSizingAsTuple(71));
    assert_eq!(
        query.resume(Reply::HintSizing(Some((800, 600)))),
        change(71, WindowUpdate::FloatingSize(Some((800, 600))))
    );
    assert_eq!(
        query.resume(Reply::HintSizing(None)),
        change(71, WindowUpdate::FloatingSize(None))
    );
}

#[test]
fn window_type_change_asks_for_the_type_and_reports_it() {
    let query = changed(72, 302).unwrap();
    assert_eq!(query.request(), Request::GetWindowType(72));
    assert_eq!(
        query.resume(Reply::WindowType(WindowType::Dock)),
        change(72, WindowUpdate::Type(WindowType::Dock))
    );
}

#[test]
fn strut_change_asks_for_the_strut_and_reports_it() {
    let strut = Strut { left: 0, right: 0, top: 24, bottom: 0 };
    for atom in [303u64, 304] {
        let query = changed(73, atom).unwrap();
        assert_eq!(query.request(), Request::GetWindowStrut(73));
        assert_eq!(
            query.resume(Reply::WindowStrut(Some(strut))),
            change(73, WindowUpdate::Strut(Some(strut)))
        );
        assert_eq!(query.resume(Reply::WindowStrut(None)), change(73, WindowUpdate::Strut(None)));
    }
}

#[test]
fn unrecognized_property_yields_no_event() {
    for atom in [0u64, 35, 68, 305, 999] {
        assert_eq!(changed(74, atom), None);
    }
}

#[test]
fn deleted_property_yields_no_event() {
    let atoms = property_atoms();
    for atom in [39u64, 40, 301, 302, 303, 304] {
        let event = PropertyEvent { window: 75, atom, state: PROPERTY_DELETE };
        assert_eq!(from_event(&atoms, &event), None);
    }
}

#[test]
fn property_state_out_of_the_protocol_yields_no_event() {
    let atoms = property_atoms();
    for state in [2, -1, i32::MAX] {
        let event = PropertyEvent { window: 75, atom: 39, state };
        assert_eq!(from_event(&atoms, &event), None);
    }
}

#[test]
fn reply_of_another_kind_yields_no_event() {
    let name = changed(76, 39).unwrap();
    assert_eq!(name.resume(Reply::HintSizing(Some((1, 1)))), None);
    assert_eq!(name.resume(Reply::Subscribed), None);
    let hint = changed(76, 40).unwrap();
    assert_eq!(hint.resume(Reply::WindowName("a".to_string())), None);
    let type_ = changed(76, 302).unwrap();
    assert_eq!(type_.resume(Reply::WindowStrut(None)), None);
    let strut = changed(76, 303).unwrap();
    assert_eq!(strut.resume(Reply::WindowType(WindowType::Normal)), None);
}
