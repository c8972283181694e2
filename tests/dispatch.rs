use native_windows_gui::controls::{Button, Control, GroupBox, Timer};
use native_windows_gui::error::{Error, SystemError};
use native_windows_gui::event_loop::{EventLoop, LoopAction};
use native_windows_gui::events::{
    ControlType, Event, EventArgs, Rect, StandardEvent, BN_CLICKED, DTN_CLOSEUP, NWG_CUSTOM_MIN, WM_COMMAND,
    WM_MENUCOMMAND, WM_MOVE, WM_NOTIFY, WM_PAINT, WM_QUIT, WM_SIZE, WM_TIMER,
};
use native_windows_gui::handles::AnyHandle;
use native_windows_gui::templates::{
    groupbox_handles, ButtonT, GroupBoxT, HTextAlign, WS_CHILD, WS_DISABLED, WS_VISIBLE,
};
use native_windows_gui::ui::{Invocation, NotifyHeader, RawMessage, Ui};

fn message(hwnd: usize, msg: u32, w: usize, l: usize) -> RawMessage {
    RawMessage {
        hwnd,
        msg,
        w,
        l,
        notify: None,
        menu_item: 0,
        client: Rect { left: 0, top: 0, right: 100, bottom: 50 },
        now_ms: 0,
    }
}

fn ui_with_window() -> Ui {
    let mut ui = Ui::new();
    assert_eq!(ui.add_control(0, Control::Window(100)), Ok(()));
    ui
}

#[test]
fn button_click_end_to_end() {
    let mut ui = ui_with_window();
    let t = ButtonT {
        text: "Ok".to_string(),
        position: (10, 20),
        size: (80, 30),
        visible: true,
        disabled: false,
        parent: 0,
        font: None,
    };
    let (params, font) = t.build(&ui).unwrap();
    assert_eq!(params.parent, 100);
    assert_eq!(params.class_name, "BUTTON");
    assert_eq!(params.title, "Ok");
    assert_eq!(params.flags, WS_CHILD | 0x4000 | 0x80 | WS_VISIBLE);
    assert_eq!(params.ex_flags, Some(0));
    assert_eq!(font, None);
    assert_eq!(ui.add_control(1, Control::Button(Button::from_window(200))), Ok(()));
    let click = StandardEvent::BtnClick.event();
    assert_eq!(ui.bind(1, click, 7), Ok(()));
    let m = message(100, WM_COMMAND, ((BN_CLICKED as usize) << 16) | 1, 200);
    let fired = ui.process_message(&m);
    assert_eq!(fired, vec![Invocation { callback: 7, id: 1, event: click, args: EventArgs::Empty }]);
}

#[test]
fn callbacks_fire_in_registration_order_then_raw() {
    let mut ui = ui_with_window();
    let moved = StandardEvent::Moved.event();
    assert_eq!(ui.bind(0, Event::Any, 3), Ok(()));
    assert_eq!(ui.bind(0, moved, 1), Ok(()));
    assert_eq!(ui.bind(0, moved, 2), Ok(()));
    let fired = ui.process_message(&message(100, WM_MOVE, 0, 10 | (20 << 16)));
    assert_eq!(
        fired,
        vec![
            Invocation { callback: 1, id: 0, event: moved, args: EventArgs::Position(10, 20) },
            Invocation { callback: 2, id: 0, event: moved, args: EventArgs::Position(10, 20) },
            Invocation { callback: 3, id: 0, event: Event::Any, args: EventArgs::Raw(WM_MOVE, 0, 10 | (20 << 16)) },
        ]
    );
}

#[test]
fn resize_fires_with_client_size() {
    let mut ui = ui_with_window();
    let resized = StandardEvent::Resized.event();
    assert_eq!(ui.bind(0, resized, 4), Ok(()));
    let fired = ui.process_message(&message(100, WM_SIZE, 0, 0));
    assert_eq!(fired, vec![Invocation { callback: 4, id: 0, event: resized, args: EventArgs::Size(100, 50) }]);
}

#[test]
fn char_sentinel_fires_no_callback() {
    let mut ui = ui_with_window();
    let ch = StandardEvent::Char.event();
    assert_eq!(ui.bind(0, ch, 4), Ok(()));
    assert_eq!(ui.process_message(&message(100, 0x0102, 0xFFFF, 0)), vec![]);
    assert_eq!(
        ui.process_message(&message(100, 0x0102, 0x61, 0)),
        vec![Invocation { callback: 4, id: 0, event: ch, args: EventArgs::Char('a') }]
    );
}

#[test]
fn private_codes_fire_no_raw_event() {
    let mut ui = ui_with_window();
    assert_eq!(ui.bind(0, Event::Any, 3), Ok(()));
    assert_eq!(ui.process_message(&message(100, NWG_CUSTOM_MIN, 0, 0)), vec![]);
    assert_eq!(ui.process_message(&message(101, WM_PAINT, 0, 0)), vec![]);
    assert_eq!(ui.process_message(&message(100, WM_PAINT, 0, 0)).len(), 1);
}

#[test]
fn listbox_unknown_code_fires_nothing() {
    let mut ui = ui_with_window();
    assert_eq!(ui.add_control(2, Control::Other(ControlType::ListBox, AnyHandle::Window(300))), Ok(()));
    assert_eq!(ui.bind(2, Event::SelectionChanged, 1), Ok(()));
    assert_eq!(ui.bind(2, Event::DoubleClick, 2), Ok(()));
    assert_eq!(ui.bind(2, Event::Focus, 3), Ok(()));
    assert_eq!(ui.process_message(&message(100, WM_COMMAND, 0x99 << 16, 300)), vec![]);
    assert_eq!(
        ui.process_message(&message(100, WM_COMMAND, 1 << 16, 300)),
        vec![Invocation { callback: 1, id: 2, event: Event::SelectionChanged, args: EventArgs::Empty }]
    );
}

#[test]
fn command_without_source_fires_nothing() {
    let mut ui = ui_with_window();
    assert_eq!(ui.add_control(1, Control::Button(Button::from_window(200))), Ok(()));
    assert_eq!(ui.bind(1, StandardEvent::BtnClick.event(), 7), Ok(()));
    assert_eq!(ui.process_message(&message(100, WM_COMMAND, 0, 0)), vec![]);
    assert_eq!(ui.process_message(&message(100, WM_COMMAND, 0, 999)), vec![]);
}

#[test]
fn date_picker_notification() {
    let mut ui = ui_with_window();
    assert_eq!(ui.add_control(5, Control::Other(ControlType::DatePicker, AnyHandle::Window(500))), Ok(()));
    assert_eq!(ui.bind(5, Event::DateChanged, 9), Ok(()));
    let mut m = message(100, WM_NOTIFY, 0, 0);
    m.notify = Some(NotifyHeader { from: 500, code: DTN_CLOSEUP });
    assert_eq!(
        ui.process_message(&m),
        vec![Invocation { callback: 9, id: 5, event: Event::DateChanged, args: EventArgs::Empty }]
    );
    m.notify = Some(NotifyHeader { from: 500, code: 1 });
    assert_eq!(ui.process_message(&m), vec![]);
}

#[test]
fn menu_command_triggers() {
    let mut ui = ui_with_window();
    assert_eq!(ui.add_control(8, Control::Other(ControlType::MenuItem, AnyHandle::MenuItem(70, 3))), Ok(()));
    assert_eq!(ui.bind(8, Event::Triggered, 1), Ok(()));
    let mut m = message(100, WM_MENUCOMMAND, 0, 70);
    m.menu_item = 3;
    assert_eq!(
        ui.process_message(&m),
        vec![Invocation { callback: 1, id: 8, event: Event::Triggered, args: EventArgs::Empty }]
    );
    m.menu_item = 4;
    assert_eq!(ui.process_message(&m), vec![]);
}

#[test]
fn timer_ticks_with_elapsed_time() {
    let mut ui = ui_with_window();
    assert_eq!(ui.add_control(9, Control::Timer(Timer { id: 12, started_ms: 1000 })), Ok(()));
    assert_eq!(ui.bind(9, Event::Tick, 5), Ok(()));
    let mut m = message(100, WM_TIMER, 12, 0);
    m.now_ms = 1250;
    assert_eq!(
        ui.process_message(&m),
        vec![Invocation { callback: 5, id: 9, event: Event::Tick, args: EventArgs::Tick(250) }]
    );
}

#[test]
fn remove_waits_for_running_callback() {
    let mut ui = ui_with_window();
    assert_eq!(ui.add_control(1, Control::Button(Button::from_window(200))), Ok(()));
    assert_eq!(ui.bind(1, Event::Click, 1), Ok(()));
    assert_eq!(ui.begin_callback(1), Ok(()));
    assert_eq!(ui.remove_control(1), Err(Error::ControlInUse));
    assert_eq!(ui.end_callback(1), Ok(()));
    assert_eq!(ui.remove_control(1), Ok(Control::Button(Button::from_window(200))));
    assert_eq!(ui.inner_id_from_handle(&AnyHandle::Window(200)), None);
    assert_eq!(ui.remove_control(1), Err(Error::KeyNotFound));
    assert_eq!(ui.bind(1, Event::Click, 1), Err(Error::KeyNotFound));
}

#[test]
fn unbind_removes_only_that_event() {
    let mut ui = ui_with_window();
    let moved = StandardEvent::Moved.event();
    assert_eq!(ui.bind(0, moved, 1), Ok(()));
    assert_eq!(ui.bind(0, Event::Any, 2), Ok(()));
    ui.unbind(0, moved);
    assert_eq!(
        ui.process_message(&message(100, WM_MOVE, 0, 0)),
        vec![Invocation { callback: 2, id: 0, event: Event::Any, args: EventArgs::Raw(WM_MOVE, 0, 0) }]
    );
}

#[test]
fn add_control_refuses_taken_id_or_handle() {
    let mut ui = ui_with_window();
    assert_eq!(ui.add_control(0, Control::Window(101)), Err(Error::KeyExists));
    assert_eq!(ui.add_control(1, Control::Window(100)), Err(Error::KeyExists));
    assert_eq!(ui.get(1), Err(Error::KeyNotFound));
    assert_eq!(ui.get(0), Ok(Control::Window(100)));
}

#[test]
fn children_map_back_to_known_ids() {
    let mut ui = ui_with_window();
    assert_eq!(ui.add_control(3, Control::GroupBox(GroupBox::from_window(300))), Ok(()));
    let kids = vec![AnyHandle::Window(300), AnyHandle::Window(999), AnyHandle::Window(100)];
    assert_eq!(ui.children_of(&kids), vec![3, 0]);
    assert_eq!(ui.window_id(300, true), Some(3));
    assert_eq!(ui.window_id(300, false), None);
    assert_eq!(ui.store().get_group_box(3).map(|g| g.window_handle()), Ok(300));
}

#[test]
fn button_template_errors() {
    let mut ui = ui_with_window();
    assert_eq!(ui.add_control(4, Control::Timer(Timer { id: 1, started_ms: 0 })), Ok(()));
    assert_eq!(ui.add_control(6, Control::Font(66)), Ok(()));
    let mut t = ButtonT {
        text: "x".to_string(),
        position: (0, 0),
        size: (1, 1),
        visible: false,
        disabled: true,
        parent: 9,
        font: None,
    };
    assert_eq!(t.build(&ui).unwrap_err(), Error::KeyNotFound);
    t.parent = 4;
    assert_eq!(
        t.build(&ui).unwrap_err(),
        Error::BadParent("The parent of a button must be a window-like control.".to_string())
    );
    t.parent = 0;
    t.font = Some(4);
    assert_eq!(
        t.build(&ui).unwrap_err(),
        Error::BadResource("The font of a button must be a font resource.".to_string())
    );
    t.font = Some(6);
    let (p, f) = t.build(&ui).unwrap();
    assert_eq!(f, Some(66));
    assert_eq!(p.flags, WS_CHILD | 0x4000 | 0x80 | WS_DISABLED);
    assert_eq!(t.resource_type_id(), ControlType::Button);
    assert_eq!(t.events().len(), 7);
    assert_eq!(t.events()[6], Event::Any);
}

#[test]
fn groupbox_template_params() {
    let mut ui = ui_with_window();
    assert_eq!(ui.add_control(6, Control::Font(66)), Ok(()));
    let t = GroupBoxT {
        text: "Group".to_string(),
        position: (5, 6),
        size: (200, 100),
        visible: true,
        disabled: false,
        align: HTextAlign::Center,
        parent: 0,
        font: Some(6),
    };
    let p = t.build(&ui).unwrap();
    assert_eq!(p.title, "");
    assert_eq!(p.class_name, "NWG_BUILTIN_GROUPBOX");
    assert_eq!(p.flags, WS_CHILD | WS_VISIBLE);
    assert_eq!(p.ex_flags, None);
    assert_eq!((p.position, p.size, p.parent), ((5, 6), (200, 100), 100));
    let (l, f) = t.add_label_children(&ui, 300).unwrap();
    assert_eq!(l.title, "Group");
    assert_eq!(l.class_name, "STATIC");
    assert_eq!(l.flags, WS_CHILD | WS_VISIBLE | 0x100 | 0x80 | 0x1);
    assert_eq!((l.position, l.size, l.parent, l.ex_flags), ((0, 0), (0, 0), 300, Some(0)));
    assert_eq!(f, Some(66));
    assert_eq!(t.type_id(), ControlType::GroupBox);
    assert!(groupbox_handles(WM_PAINT));
    assert!(groupbox_handles(1));
    assert!(!groupbox_handles(WM_MOVE));
}

#[test]
fn quit_stops_the_loop() {
    let mut lp = EventLoop::new();
    let done = lp.run(&vec![WM_PAINT, WM_MOVE, WM_QUIT, WM_PAINT]);
    assert_eq!(done, vec![WM_PAINT, WM_MOVE]);
    assert!(lp.is_stopped());
    assert_eq!(lp.step(WM_PAINT), LoopAction::Stop);
    let mut lp = EventLoop::new();
    assert_eq!(lp.run(&vec![WM_PAINT]), vec![WM_PAINT]);
    assert!(!lp.is_stopped());
    assert_eq!(lp.step(WM_QUIT), LoopAction::Stop);
}

#[test]
fn error_messages() {
    assert_eq!(Error::KeyExists.translate(), "The same key already exists in the UI");
    assert_eq!(Error::BadUi("gone".to_string()).translate(), "Ui error: gone");
    assert_eq!(Error::UserError("mine".to_string()).translate(), "mine");
    assert_eq!(
        Error::System(SystemError::FontCreation, 1407, "Cannot find window class.".to_string()).translate(),
        "A system error was raised: Failed to create a system font.\nID 1407 - Cannot find window class."
    );
    assert_eq!(
        SystemError::ComError("bad".to_string()).translate(0, "ok"),
        "An error ocurred while executing a COM method, bad.\nID 0 - ok"
    );
}
