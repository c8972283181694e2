use native_windows_gui::events::{
    command_event_unpack_no_args, notify_event_unpack_no_args, parse_command, parse_datepicker_command,
    parse_edit_command, parse_listbox_command, parse_notify, parse_static_command, system_event_unpack_no_args,
    unpack_btn_focus, unpack_cbn_focus, unpack_cbn_sel_change, unpack_char, unpack_key, unpack_mouseclick,
    unpack_move, unpack_size, unpack_system, CodeGroup, ControlType, Event, EventArgs, MouseButton, Rect,
    StandardEvent, SystemUnpacker, DTN_CLOSEUP, WM_CHAR, WM_MBUTTONUP, WM_MOVE, WM_RBUTTONDOWN,
};

#[test]
fn move_decodes_position() {
    assert_eq!(unpack_move(10 | (20 << 16)), Some(EventArgs::Position(10, 20)));
    assert_eq!(unpack_move(0xFFFF_FFFF), Some(EventArgs::Position(65535, 65535)));
}

#[test]
fn resize_decodes_client_size() {
    let r = Rect { left: 0, top: 0, right: 100, bottom: 50 };
    assert_eq!(unpack_size(r), Some(EventArgs::Size(100, 50)));
    let r = Rect { left: 10, top: 5, right: 30, bottom: 45 };
    assert_eq!(unpack_size(r), Some(EventArgs::Size(20, 40)));
    let r = Rect { left: 10, top: 0, right: 9, bottom: 0 };
    assert_eq!(unpack_size(r), Some(EventArgs::Size(u32::MAX, 0)));
}

#[test]
fn char_sentinel_yields_nothing() {
    assert_eq!(unpack_char(0xFFFF), None);
}

#[test]
fn char_code_point_yields_char() {
    assert_eq!(unpack_char(65), Some(EventArgs::Char('A')));
    assert_eq!(unpack_char(0x263A), Some(EventArgs::Char('\u{263A}')));
    assert_eq!(unpack_char(0x1F600), Some(EventArgs::Char('\u{1F600}')));
}

#[test]
fn char_non_scalar_yields_nothing() {
    assert_eq!(unpack_char(0xD800), None);
    assert_eq!(unpack_char(0x110000), None);
}

#[test]
fn mouse_click_decodes_button_and_signed_position() {
    assert_eq!(
        unpack_mouseclick(WM_RBUTTONDOWN, 5 | (7 << 16)),
        Some(EventArgs::MouseClick { btn: MouseButton::Right, x: 5, y: 7 })
    );
    assert_eq!(
        unpack_mouseclick(WM_MBUTTONUP, 0xFFFF | (0x8000 << 16)),
        Some(EventArgs::MouseClick { btn: MouseButton::Middle, x: -1, y: -32768 })
    );
    assert_eq!(
        unpack_mouseclick(0x0202, 1),
        Some(EventArgs::MouseClick { btn: MouseButton::Left, x: 1, y: 0 })
    );
}

#[test]
fn key_and_focus_payloads() {
    assert_eq!(unpack_key(0x41), Some(EventArgs::Key(0x41)));
    assert_eq!(unpack_btn_focus(6), Some(EventArgs::Focus(true)));
    assert_eq!(unpack_btn_focus(7), Some(EventArgs::Focus(false)));
    assert_eq!(unpack_cbn_focus(3), Some(EventArgs::Focus(true)));
    assert_eq!(unpack_cbn_focus(4), Some(EventArgs::Focus(false)));
    assert_eq!(unpack_cbn_sel_change(1), None);
}

#[test]
fn no_args_unpackers() {
    assert_eq!(system_event_unpack_no_args(1, 2, 3, 4), Some(EventArgs::Empty));
    assert_eq!(command_event_unpack_no_args(1, 0), Some(EventArgs::Empty));
    assert_eq!(notify_event_unpack_no_args(1), EventArgs::Empty);
}

#[test]
fn unpack_system_follows_unpacker() {
    let r = Rect { left: 0, top: 0, right: 1, bottom: 2 };
    assert_eq!(unpack_system(SystemUnpacker::Move, 1, WM_MOVE, 0, 3 | (4 << 16), r), Some(EventArgs::Position(3, 4)));
    assert_eq!(unpack_system(SystemUnpacker::Size, 1, 5, 0, 0, r), Some(EventArgs::Size(1, 2)));
    assert_eq!(unpack_system(SystemUnpacker::Char, 1, WM_CHAR, 0xFFFF, 0, r), None);
    assert_eq!(unpack_system(SystemUnpacker::NoArgs, 1, 15, 0, 0, r), Some(EventArgs::Empty));
}

#[test]
fn listbox_codes() {
    assert_eq!(parse_listbox_command(3, 1), Some((3, Event::SelectionChanged, EventArgs::Empty)));
    assert_eq!(parse_listbox_command(3, 2), Some((3, Event::DoubleClick, EventArgs::Empty)));
    assert_eq!(parse_listbox_command(3, 4), Some((3, Event::Focus, EventArgs::Focus(true))));
    assert_eq!(parse_listbox_command(3, 5), Some((3, Event::Focus, EventArgs::Focus(false))));
    assert_eq!(parse_listbox_command(3, 99), None);
}

#[test]
fn edit_static_and_datepicker_codes() {
    assert_eq!(parse_edit_command(1, 0x400), Some((1, Event::ValueChanged, EventArgs::Empty)));
    assert_eq!(parse_edit_command(1, 0x501), Some((1, Event::LimitReached, EventArgs::Empty)));
    assert_eq!(parse_edit_command(1, 0x100), Some((1, Event::Focus, EventArgs::Focus(true))));
    assert_eq!(parse_edit_command(1, 0x200), Some((1, Event::Focus, EventArgs::Focus(false))));
    assert_eq!(parse_edit_command(1, 7), None);
    assert_eq!(parse_static_command(2, 0), Some((2, Event::Click, EventArgs::Empty)));
    assert_eq!(parse_static_command(2, 1), Some((2, Event::DoubleClick, EventArgs::Empty)));
    assert_eq!(parse_static_command(2, 2), None);
    assert_eq!(parse_datepicker_command(4, DTN_CLOSEUP), Some((4, Event::DateChanged, EventArgs::Empty)));
    assert_eq!(parse_datepicker_command(4, 0), None);
}

#[test]
fn parse_command_reads_high_word_by_type() {
    assert_eq!(parse_command(5, ControlType::ListBox, (1 << 16) | 42), Some((5, Event::SelectionChanged, EventArgs::Empty)));
    assert_eq!(parse_command(5, ControlType::TextBox, 0x400 << 16), Some((5, Event::ValueChanged, EventArgs::Empty)));
    assert_eq!(parse_command(5, ControlType::TextInput, 0x400 << 16), Some((5, Event::ValueChanged, EventArgs::Empty)));
    assert_eq!(parse_command(5, ControlType::Label, 0), Some((5, Event::Click, EventArgs::Empty)));
    assert_eq!(parse_command(5, ControlType::Button, 0), None);
    assert_eq!(parse_command(5, ControlType::ListBox, 1), None);
    assert_eq!(parse_command(5, ControlType::DatePicker, 0xFD0F << 16), None);
}

#[test]
fn parse_notify_only_for_date_pickers() {
    assert_eq!(parse_notify(6, ControlType::DatePicker, DTN_CLOSEUP), Some((6, Event::DateChanged, EventArgs::Empty)));
    assert_eq!(parse_notify(6, ControlType::ListBox, DTN_CLOSEUP), None);
}

#[test]
fn standard_events_table() {
    assert_eq!(StandardEvent::Moved.event(), Event::System(3, SystemUnpacker::Move));
    assert_eq!(
        StandardEvent::Resized.event(),
        Event::SystemGroup(CodeGroup { first: 0x214, second: 5, third: 0x232 }, SystemUnpacker::Size)
    );
    assert!(CodeGroup { first: 1, second: 2, third: 2 }.contains(2));
    assert!(!CodeGroup { first: 1, second: 2, third: 2 }.contains(3));
}
