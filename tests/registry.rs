use native_windows_gui::controls::{Button, Control, ControlStore, Timer};
use native_windows_gui::error::Error;
use native_windows_gui::events::ControlType;
use native_windows_gui::handles::{AnyHandle, HandleRegistry};

#[test]
fn resolve_after_unregister_yields_nothing() {
    let mut r = HandleRegistry::new();
    assert_eq!(r.register(1, AnyHandle::Window(100)), Ok(()));
    assert_eq!(r.register(2, AnyHandle::MenuItem(7, 3)), Ok(()));
    assert_eq!(r.resolve(&AnyHandle::Window(100)), Some(1));
    assert_eq!(r.unregister(1), Ok(AnyHandle::Window(100)));
    assert_eq!(r.resolve(&AnyHandle::Window(100)), None);
    assert_eq!(r.handle_of(1), None);
    assert_eq!(r.resolve(&AnyHandle::MenuItem(7, 3)), Some(2));
    assert_eq!(r.unregister(1), Err(Error::KeyNotFound));
}

#[test]
fn second_registration_of_a_handle_is_refused() {
    let mut r = HandleRegistry::new();
    assert_eq!(r.register(1, AnyHandle::Window(100)), Ok(()));
    assert_eq!(r.register(2, AnyHandle::Window(100)), Err(Error::KeyExists));
    assert_eq!(r.resolve(&AnyHandle::Window(100)), Some(1));
    assert_eq!(r.handle_of(2), None);
    assert_eq!(r.register(1, AnyHandle::Window(101)), Err(Error::KeyExists));
    assert_eq!(r.handle_of(1), Some(AnyHandle::Window(100)));
}

#[test]
fn custom_handles_differ_by_kind_and_value() {
    let mut r = HandleRegistry::new();
    assert_eq!(r.register(1, AnyHandle::Custom(1, 5)), Ok(()));
    assert_eq!(r.register(2, AnyHandle::Custom(2, 5)), Ok(()));
    assert_eq!(r.resolve(&AnyHandle::Custom(2, 5)), Some(2));
    assert_eq!(r.resolve(&AnyHandle::Custom(1, 6)), None);
}

#[test]
fn store_insert_get_and_types() {
    let mut s = ControlStore::new();
    let b = Button::from_window(200);
    assert_eq!(s.insert(1, Control::Button(b)), Ok(()));
    assert_eq!(s.insert(1, Control::Window(5)), Err(Error::KeyExists));
    assert_eq!(s.get(1), Ok(Control::Button(b)));
    assert_eq!(s.get(2), Err(Error::KeyNotFound));
    assert_eq!(s.get_button(1).map(|b| b.window_handle()), Ok(200));
    assert_eq!(s.get_group_box(1), Err(Error::BadType));
    assert_eq!(s.get_group_box(9), Err(Error::KeyNotFound));
}

#[test]
fn store_remove_frees_once() {
    let mut s = ControlStore::new();
    assert_eq!(s.insert(3, Control::Timer(Timer { id: 4, started_ms: 10 })), Ok(()));
    assert_eq!(s.remove(3), Ok(Control::Timer(Timer { id: 4, started_ms: 10 })));
    assert_eq!(s.remove(3), Err(Error::KeyNotFound));
    assert!(!s.contains(3));
}

#[test]
fn store_use_count_guards_removal() {
    let mut s = ControlStore::new();
    assert_eq!(s.insert(1, Control::Window(5)), Ok(()));
    assert_eq!(s.end_use(1), Err(Error::BorrowError));
    assert_eq!(s.begin_use(1), Ok(()));
    assert_eq!(s.begin_use(1), Ok(()));
    assert_eq!(s.remove(1), Err(Error::ControlInUse));
    assert_eq!(s.end_use(1), Ok(()));
    assert_eq!(s.remove(1), Err(Error::ControlInUse));
    assert_eq!(s.end_use(1), Ok(()));
    assert_eq!(s.remove(1), Ok(Control::Window(5)));
    assert_eq!(s.begin_use(1), Err(Error::KeyNotFound));
}

#[test]
fn control_handles_and_types() {
    assert_eq!(Control::Button(Button::from_window(9)).handle(), AnyHandle::Window(9));
    assert_eq!(Control::Timer(Timer { id: 3, started_ms: 0 }).handle(), AnyHandle::Custom(1, 3));
    assert_eq!(Control::Font(8).handle(), AnyHandle::Custom(2, 8));
    assert_eq!(Control::Font(8).control_type(), ControlType::Font);
    assert_eq!(Control::Other(ControlType::ListBox, AnyHandle::Window(4)).control_type(), ControlType::ListBox);
    assert_eq!(Timer { id: 1, started_ms: 100 }.elapsed(350), 250);
    assert_eq!(Timer { id: 1, started_ms: 100 }.elapsed(50), 0);
}
