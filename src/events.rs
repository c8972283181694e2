//! Events, their decoded payloads, and the pure functions that decode raw
//! platform messages.
use vstd::prelude::*;

verus! {

pub const WM_MOVE: u32 = 0x0003;
pub const WM_SIZE: u32 = 0x0005;
pub const WM_PAINT: u32 = 0x000F;
pub const WM_CLOSE: u32 = 0x0010;
pub const WM_QUIT: u32 = 0x0012;
pub const WM_NOTIFY: u32 = 0x004E;
pub const WM_KEYDOWN: u32 = 0x0100;
pub const WM_KEYUP: u32 = 0x0101;
pub const WM_CHAR: u32 = 0x0102;
pub const WM_UNICHAR: u32 = 0x0109;
pub const WM_COMMAND: u32 = 0x0111;
pub const WM_TIMER: u32 = 0x0113;
pub const WM_MENUCOMMAND: u32 = 0x0126;
pub const WM_LBUTTONDOWN: u32 = 0x0201;
pub const WM_LBUTTONUP: u32 = 0x0202;
pub const WM_RBUTTONDOWN: u32 = 0x0204;
pub const WM_RBUTTONUP: u32 = 0x0205;
pub const WM_MBUTTONDOWN: u32 = 0x0207;
pub const WM_MBUTTONUP: u32 = 0x0208;
pub const WM_SIZING: u32 = 0x0214;
pub const WM_EXITSIZEMOVE: u32 = 0x0232;
pub const WM_USER: u32 = 0x0400;

/// First message code of the toolkit's private range.
pub const NWG_CUSTOM_MIN: u32 = 0x0464;
/// Last message code of the toolkit's private range.
pub const NWG_CUSTOM_MAX: u32 = 0x0496;
/// Sent by the toolkit to a window that is about to be destroyed.
pub const NWG_DESTROY: u32 = 0x0465;

/// The character code that carries no character.
pub const UNICODE_NOCHAR: usize = 0xFFFF;

pub const BN_CLICKED: u16 = 0;
pub const BN_DBLCLK: u16 = 5;
pub const BN_SETFOCUS: u16 = 6;
pub const BN_KILLFOCUS: u16 = 7;
pub const CBN_SELCHANGE: u16 = 1;
pub const CBN_SETFOCUS: u16 = 3;
pub const CBN_KILLFOCUS: u16 = 4;
pub const LBN_SELCHANGE: u32 = 1;
pub const LBN_DBLCLK: u32 = 2;
pub const LBN_SETFOCUS: u32 = 4;
pub const LBN_KILLFOCUS: u32 = 5;
pub const EN_SETFOCUS: u32 = 0x0100;
pub const EN_KILLFOCUS: u32 = 0x0200;
pub const EN_UPDATE: u32 = 0x0400;
pub const EN_MAXTEXT: u32 = 0x0501;
pub const STN_CLICKED: u32 = 0;
pub const STN_DBLCLK: u32 = 1;
/// Sent by a date picker when its drop-down calendar closes.
pub const DTN_CLOSEUP: u32 = 0xFFFF_FD0F;

/// The kinds of controls, as the dispatcher tells them apart.
#[derive(Clone, Copy, Debug, PartialEq, Eq, Structural)]
pub enum ControlType {
    Window,
    Button,
    GroupBox,
    TextInput,
    TextBox,
    Label,
    ListBox,
    ComboBox,
    DatePicker,
    Menu,
    MenuItem,
    Timer,
    Font,
    Undefined,
}

#[derive(Clone, Copy, Debug, PartialEq, Eq, Structural)]
pub enum MouseButton {
    Left,
    Right,
    Middle,
}

/// The decoded payload of an event.
#[derive(Clone, Copy, Debug, PartialEq, Eq, Structural)]
pub enum EventArgs {
    Empty,
    Position(i32, i32),
    Size(u32, u32),
    Char(char),
    Key(u32),
    MouseClick { btn: MouseButton, x: i32, y: i32 },
    Focus(bool),
    /// Time elapsed since the timer started, in milliseconds.
    Tick(u64),
    Raw(u32, usize, usize),
}

/// How the payload of a window message is decoded.
#[derive(Clone, Copy, Debug, PartialEq, Eq, Structural)]
pub enum SystemUnpacker {
    NoArgs,
    Move,
    Size,
    Char,
    MouseClick,
    Key,
}

/// How the payload of a command notification is decoded.
#[derive(Clone, Copy, Debug, PartialEq, Eq, Structural)]
pub enum CommandUnpacker {
    NoArgs,
    ButtonFocus,
    ComboFocus,
    ComboSelection,
}

/// A group of up to three codes; a smaller group repeats its last code.
#[derive(Clone, Copy, Debug, PartialEq, Eq, Structural)]
pub struct CodeGroup {
    pub first: u32,
    pub second: u32,
    pub third: u32,
}

impl CodeGroup {
    pub open spec fn has(self, code: u32) -> bool {
        code == self.first || code == self.second || code == self.third
    }

    pub fn contains(&self, code: u32) -> (r: bool)
        ensures
            r == self.has(code),
    {
        code == self.first || code == self.second || code == self.third
    }
}

/// Identifies which raw platform signals an event stands for, and how its
/// payload is decoded.
#[derive(Clone, Copy, Debug, PartialEq, Eq, Structural)]
pub enum Event {
    System(u32, SystemUnpacker),
    SystemGroup(CodeGroup, SystemUnpacker),
    Command(u16, CommandUnpacker),
    CommandGroup(CodeGroup, CommandUnpacker),
    Click,
    DoubleClick,
    Focus,
    SelectionChanged,
    ValueChanged,
    LimitReached,
    DateChanged,
    Triggered,
    Tick,
    Any,
}

/// The events that the toolkit defines for windows and common controls.
#[derive(Clone, Copy, Debug, PartialEq, Eq, Structural)]
pub enum StandardEvent {
    Destroyed,
    Paint,
    Close,
    Moved,
    KeyDown,
    KeyUp,
    Resized,
    Char,
    MouseUp,
    MouseDown,
    BtnClick,
    BtnDoubleClick,
    BtnFocus,
    CbnFocus,
    CbnSelectionChanged,
}

pub open spec fn standard_event(s: StandardEvent) -> Event {
    match s {
        StandardEvent::Destroyed => Event::System(NWG_DESTROY, SystemUnpacker::NoArgs),
        StandardEvent::Paint => Event::System(WM_PAINT, SystemUnpacker::NoArgs),
        StandardEvent::Close => Event::System(WM_CLOSE, SystemUnpacker::NoArgs),
        StandardEvent::Moved => Event::System(WM_MOVE, SystemUnpacker::Move),
        StandardEvent::KeyDown => Event::System(WM_KEYDOWN, SystemUnpacker::Key),
        StandardEvent::KeyUp => Event::System(WM_KEYUP, SystemUnpacker::Key),
        StandardEvent::Resized => Event::SystemGroup(
            CodeGroup { first: WM_SIZING, second: WM_SIZE, third: WM_EXITSIZEMOVE },
            SystemUnpacker::Size,
        ),
        StandardEvent::Char => Event::SystemGroup(
            CodeGroup { first: WM_UNICHAR, second: WM_CHAR, third: WM_CHAR },
            SystemUnpacker::Char,
        ),
        StandardEvent::MouseUp => Event::SystemGroup(
            CodeGroup { first: WM_LBUTTONUP, second: WM_RBUTTONUP, third: WM_MBUTTONUP },
            SystemUnpacker::MouseClick,
        ),
        StandardEvent::MouseDown => Event::SystemGroup(
            CodeGroup { first: WM_LBUTTONDOWN, second: WM_RBUTTONDOWN, third: WM_MBUTTONDOWN },
            SystemUnpacker::MouseClick,
        ),
        StandardEvent::BtnClick => Event::Command(BN_CLICKED, CommandUnpacker::NoArgs),
        StandardEvent::BtnDoubleClick => Event::Command(BN_DBLCLK, CommandUnpacker::NoArgs),
        StandardEvent::BtnFocus => Event::CommandGroup(
            CodeGroup { first: BN_SETFOCUS as u32, second: BN_KILLFOCUS as u32, third: BN_KILLFOCUS as u32 },
            CommandUnpacker::ButtonFocus,
        ),
        StandardEvent::CbnFocus => Event::CommandGroup(
            CodeGroup { first: CBN_SETFOCUS as u32, second: CBN_KILLFOCUS as u32, third: CBN_KILLFOCUS as u32 },
            CommandUnpacker::ComboFocus,
        ),
        StandardEvent::CbnSelectionChanged => Event::Command(CBN_SELCHANGE, CommandUnpacker::ComboSelection),
    }
}

impl StandardEvent {
    /// The event that this name stands for.
    pub fn event(self) -> (r: Event)
        ensures
            r == standard_event(self),
    {
        match self {
            StandardEvent::Destroyed => Event::System(NWG_DESTROY, SystemUnpacker::NoArgs),
            StandardEvent::Paint => Event::System(WM_PAINT, SystemUnpacker::NoArgs),
            StandardEvent::Close => Event::System(WM_CLOSE, SystemUnpacker::NoArgs),
            StandardEvent::Moved => Event::System(WM_MOVE, SystemUnpacker::Move),
            StandardEvent::KeyDown => Event::System(WM_KEYDOWN, SystemUnpacker::Key),
            StandardEvent::KeyUp => Event::System(WM_KEYUP, SystemUnpacker::Key),
            StandardEvent::Resized => Event::SystemGroup(
                CodeGroup { first: WM_SIZING, second: WM_SIZE, third: WM_EXITSIZEMOVE },
                SystemUnpacker::Size,
            ),
            StandardEvent::Char => Event::SystemGroup(
                CodeGroup { first: WM_UNICHAR, second: WM_CHAR, third: WM_CHAR },
                SystemUnpacker::Char,
            ),
            StandardEvent::MouseUp => Event::SystemGroup(
                CodeGroup { first: WM_LBUTTONUP, second: WM_RBUTTONUP, third: WM_MBUTTONUP },
                SystemUnpacker::MouseClick,
            ),
            StandardEvent::MouseDown => Event::SystemGroup(
                CodeGroup { first: WM_LBUTTONDOWN, second: WM_RBUTTONDOWN, third: WM_MBUTTONDOWN },
                SystemUnpacker::MouseClick,
            ),
            StandardEvent::BtnClick => Event::Command(BN_CLICKED, CommandUnpacker::NoArgs),
            StandardEvent::BtnDoubleClick => Event::Command(BN_DBLCLK, CommandUnpacker::NoArgs),
            StandardEvent::BtnFocus => Event::CommandGroup(
                CodeGroup { first: BN_SETFOCUS as u32, second: BN_KILLFOCUS as u32, third: BN_KILLFOCUS as u32 },
                CommandUnpacker::ButtonFocus,
            ),
            StandardEvent::CbnFocus => Event::CommandGroup(
                CodeGroup { first: CBN_SETFOCUS as u32, second: CBN_KILLFOCUS as u32, third: CBN_KILLFOCUS as u32 },
                CommandUnpacker::ComboFocus,
            ),
            StandardEvent::CbnSelectionChanged => Event::Command(CBN_SELCHANGE, CommandUnpacker::ComboSelection),
        }
    }
}

/// A client rectangle, as the platform reports it.
#[derive(Clone, Copy, Debug, PartialEq, Eq, Structural)]
pub struct Rect {
    pub left: i32,
    pub top: i32,
    pub right: i32,
    pub bottom: i32,
}

/// Low 16 bits of the low 32 bits of `x`.
pub open spec fn lo_word(x: int) -> int {
    x % 0x1_0000
}

/// High 16 bits of the low 32 bits of `x`.
pub open spec fn hi_word(x: int) -> int {
    (x / 0x1_0000) % 0x1_0000
}

/// A 16-bit word read as a signed value.
pub open spec fn signed_word(w: int) -> int {
    if w >= 0x8000 { w - 0x1_0000 } else { w }
}

/// `x` reduced to 32 bits.
pub open spec fn wrap32(x: int) -> int {
    x % 0x1_0000_0000
}

/// The low 32 bits of `w`.
pub open spec fn low32(w: usize) -> u32 {
    (w as int % 0x1_0000_0000) as u32
}

fn low32_of(w: usize) -> (r: u32)
    ensures
        r == low32(w),
{
    ((w as u64) % 0x1_0000_0000) as u32
}

/// A Unicode scalar value.
pub open spec fn is_scalar(x: u32) -> bool {
    x < 0xD800 || (0xDFFF < x && x <= 0x10FFFF)
}

pub fn lo_word_of(x: usize) -> (r: u16)
    ensures
        r as int == lo_word(x as int),
{
    (x % 0x1_0000) as u16
}

pub fn hi_word_of(x: usize) -> (r: u16)
    ensures
        r as int == hi_word(x as int),
{
    ((x / 0x1_0000) % 0x1_0000) as u16
}

fn signed_word_of(w: u16) -> (r: i32)
    ensures
        r as int == signed_word(w as int),
{
    if w >= 0x8000 { w as i32 - 0x1_0000 } else { w as i32 }
}

/// Relies on std's `char::from_u32`: `Some` exactly for a Unicode scalar
/// value, holding the one character whose code it is.
#[verifier::external_body]
fn char_from_code(x: u32) -> (r: Option<char>)
    ensures
        r == (if is_scalar(x) { Some(char_of(x)) } else { None::<char> }),
        r matches Some(c) ==> code_of(c) == x,
{
    char::from_u32(x)
}

// Unpackers of events that carry no payload.
pub fn system_event_unpack_no_args(hwnd: usize, msg: u32, w: usize, l: usize) -> (r: Option<EventArgs>)
    ensures
        r == Some(EventArgs::Empty),
{
    Some(EventArgs::Empty)
}

pub fn command_event_unpack_no_args(hwnd: usize, ncode: u16) -> (r: Option<EventArgs>)
    ensures
        r == Some(EventArgs::Empty),
{
    Some(EventArgs::Empty)
}

pub fn notify_event_unpack_no_args(hwnd: usize) -> (r: EventArgs)
    ensures
        r == EventArgs::Empty,
{
    EventArgs::Empty
}

pub open spec fn move_args(l: usize) -> EventArgs {
    EventArgs::Position(lo_word(l as int) as i32, hi_word(l as int) as i32)
}

/// The position of a moved window: low and high word of `l`.
pub fn unpack_move(l: usize) -> (r: Option<EventArgs>)
    ensures
        r == Some(move_args(l)),
{
    let x = lo_word_of(l);
    let y = hi_word_of(l);
    Some(EventArgs::Position(x as i32, y as i32))
}

pub open spec fn size_args(client: Rect) -> EventArgs {
    EventArgs::Size(
        wrap32(client.right - client.left) as u32,
        wrap32(client.bottom - client.top) as u32,
    )
}

fn extent(low: i32, high: i32) -> (r: u32)
    ensures
        r as int == wrap32(high - low),
{
    let d: i64 = high as i64 - low as i64;
    if d >= 0 {
        d as u32
    } else {
        (d + 0x1_0000_0000) as u32
    }
}

/// The size of a resized window: the extent of its client rectangle.
pub fn unpack_size(client: Rect) -> (r: Option<EventArgs>)
    ensures
        r == Some(size_args(client)),
{
    let w = extent(client.left, client.right);
    let h = extent(client.top, client.bottom);
    Some(EventArgs::Size(w, h))
}

pub open spec fn code_of(c: char) -> u32 {
    c as u32
}

/// The character whose code is `x`.
pub open spec fn char_of(x: u32) -> char {
    choose|c: char| #[trigger] code_of(c) == x
}

pub open spec fn char_args(w: usize) -> Option<EventArgs> {
    if w == UNICODE_NOCHAR || !is_scalar(low32(w)) {
        None
    } else {
        Some(EventArgs::Char(char_of(low32(w))))
    }
}

/// A typed character: nothing for the no-character code or for a code that
/// is no Unicode scalar value.
pub fn unpack_char(w: usize) -> (r: Option<EventArgs>)
    ensures
        r == char_args(w),
        r matches Some(EventArgs::Char(c)) ==> code_of(c) == low32(w),
{
    if w == UNICODE_NOCHAR {
        return None;
    }
    match char_from_code(low32_of(w)) {
        Some(c) => Some(EventArgs::Char(c)),
        None => None,
    }
}

pub open spec fn mouse_button(msg: u32) -> MouseButton {
    if msg == WM_RBUTTONUP || msg == WM_RBUTTONDOWN {
        MouseButton::Right
    } else if msg == WM_MBUTTONUP || msg == WM_MBUTTONDOWN {
        MouseButton::Middle
    } else {
        MouseButton::Left
    }
}

pub open spec fn mouse_args(msg: u32, l: usize) -> EventArgs {
    EventArgs::MouseClick {
        btn: mouse_button(msg),
        x: signed_word(lo_word(l as int)) as i32,
        y: signed_word(hi_word(l as int)) as i32,
    }
}

/// A mouse click: the button from the message code, the signed position
/// from `l`.
pub fn unpack_mouseclick(msg: u32, l: usize) -> (r: Option<EventArgs>)
    ensures
        r == Some(mouse_args(msg, l)),
{
    let btn = if msg == WM_RBUTTONUP || msg == WM_RBUTTONDOWN {
        MouseButton::Right
    } else if msg == WM_MBUTTONUP || msg == WM_MBUTTONDOWN {
        MouseButton::Middle
    } else {
        MouseButton::Left
    };
    let x = signed_word_of(lo_word_of(l));
    let y = signed_word_of(hi_word_of(l));
    Some(EventArgs::MouseClick { btn: btn, x: x, y: y })
}

/// A key code.
pub fn unpack_key(w: usize) -> (r: Option<EventArgs>)
    ensures
        r == Some(EventArgs::Key(low32(w))),
{
    Some(EventArgs::Key(low32_of(w)))
}

pub fn unpack_btn_focus(ncode: u16) -> (r: Option<EventArgs>)
    ensures
        r == Some(EventArgs::Focus(ncode == BN_SETFOCUS)),
{
    Some(EventArgs::Focus(ncode == BN_SETFOCUS))
}

pub fn unpack_cbn_focus(ncode: u16) -> (r: Option<EventArgs>)
    ensures
        r == Some(EventArgs::Focus(ncode == CBN_SETFOCUS)),
{
    Some(EventArgs::Focus(ncode == CBN_SETFOCUS))
}

/// The selection payload of a combo box is not decoded: nothing fires.
pub fn unpack_cbn_sel_change(ncode: u16) -> (r: Option<EventArgs>)
    ensures
        r == None::<EventArgs>,
{
    None
}

pub open spec fn system_args(u: SystemUnpacker, msg: u32, w: usize, l: usize, client: Rect) -> Option<EventArgs> {
    match u {
        SystemUnpacker::NoArgs => Some(EventArgs::Empty),
        SystemUnpacker::Move => Some(move_args(l)),
        SystemUnpacker::Size => Some(size_args(client)),
        SystemUnpacker::Char => char_args(w),
        SystemUnpacker::MouseClick => Some(mouse_args(msg, l)),
        SystemUnpacker::Key => Some(EventArgs::Key(low32(w))),
    }
}

/// Decodes the payload of window message `msg` with unpacker `u`.
pub fn unpack_system(u: SystemUnpacker, hwnd: usize, msg: u32, w: usize, l: usize, client: Rect) -> (r: Option<EventArgs>)
    ensures
        r == system_args(u, msg, w, l, client),
{
    match u {
        SystemUnpacker::NoArgs => system_event_unpack_no_args(hwnd, msg, w, l),
        SystemUnpacker::Move => unpack_move(l),
        SystemUnpacker::Size => unpack_size(client),
        SystemUnpacker::Char => unpack_char(w),
        SystemUnpacker::MouseClick => unpack_mouseclick(msg, l),
        SystemUnpacker::Key => unpack_key(w),
    }
}

pub open spec fn command_args(u: CommandUnpacker, ncode: u16) -> Option<EventArgs> {
    match u {
        CommandUnpacker::NoArgs => Some(EventArgs::Empty),
        CommandUnpacker::ButtonFocus => Some(EventArgs::Focus(ncode == BN_SETFOCUS)),
        CommandUnpacker::ComboFocus => Some(EventArgs::Focus(ncode == CBN_SETFOCUS)),
        CommandUnpacker::ComboSelection => None,
    }
}

/// Decodes the payload of command notification `ncode` with unpacker `u`.
pub fn unpack_command(u: CommandUnpacker, hwnd: usize, ncode: u16) -> (r: Option<EventArgs>)
    ensures
        r == command_args(u, ncode),
{
    match u {
        CommandUnpacker::NoArgs => command_event_unpack_no_args(hwnd, ncode),
        CommandUnpacker::ButtonFocus => unpack_btn_focus(ncode),
        CommandUnpacker::ComboFocus => unpack_cbn_focus(ncode),
        CommandUnpacker::ComboSelection => unpack_cbn_sel_change(ncode),
    }
}

pub open spec fn listbox_event(id: u64, ncode: u32) -> Option<(u64, Event, EventArgs)> {
    if ncode == LBN_SELCHANGE {
        Some((id, Event::SelectionChanged, EventArgs::Empty))
    } else if ncode == LBN_DBLCLK {
        Some((id, Event::DoubleClick, EventArgs::Empty))
    } else if ncode == LBN_SETFOCUS || ncode == LBN_KILLFOCUS {
        Some((id, Event::Focus, EventArgs::Focus(ncode == LBN_SETFOCUS)))
    } else {
        None
    }
}

pub open spec fn edit_event(id: u64, ncode: u32) -> Option<(u64, Event, EventArgs)> {
    if ncode == EN_UPDATE {
        Some((id, Event::ValueChanged, EventArgs::Empty))
    } else if ncode == EN_MAXTEXT {
        Some((id, Event::LimitReached, EventArgs::Empty))
    } else if ncode == EN_SETFOCUS || ncode == EN_KILLFOCUS {
        Some((id, Event::Focus, EventArgs::Focus(ncode == EN_SETFOCUS)))
    } else {
        None
    }
}

pub open spec fn static_event(id: u64, ncode: u32) -> Option<(u64, Event, EventArgs)> {
    if ncode == STN_CLICKED {
        Some((id, Event::Click, EventArgs::Empty))
    } else if ncode == STN_DBLCLK {
        Some((id, Event::DoubleClick, EventArgs::Empty))
    } else {
        None
    }
}

/// A date picker reports a change when its calendar closes: the change
/// notification itself arrives twice for one change.
pub open spec fn datepicker_event(id: u64, ncode: u32) -> Option<(u64, Event, EventArgs)> {
    if ncode == DTN_CLOSEUP {
        Some((id, Event::DateChanged, EventArgs::Empty))
    } else {
        None
    }
}

pub open spec fn notify_event(id: u64, control_type: ControlType, code: u32) -> Option<(u64, Event, EventArgs)> {
    match control_type {
        ControlType::DatePicker => datepicker_event(id, code),
        _ => None,
    }
}

pub open spec fn command_event(id: u64, control_type: ControlType, w: usize) -> Option<(u64, Event, EventArgs)> {
    let ncode = hi_word(w as int) as u32;
    match control_type {
        ControlType::ListBox => listbox_event(id, ncode),
        ControlType::TextInput | ControlType::TextBox => edit_event(id, ncode),
        ControlType::Label => static_event(id, ncode),
        ControlType::DatePicker => datepicker_event(id, ncode),
        _ => None,
    }
}

pub fn parse_listbox_command(id: u64, ncode: u32) -> (r: Option<(u64, Event, EventArgs)>)
    ensures
        r == listbox_event(id, ncode),
{
    if ncode == LBN_SELCHANGE {
        Some((id, Event::SelectionChanged, EventArgs::Empty))
    } else if ncode == LBN_DBLCLK {
        Some((id, Event::DoubleClick, EventArgs::Empty))
    } else if ncode == LBN_SETFOCUS || ncode == LBN_KILLFOCUS {
        Some((id, Event::Focus, EventArgs::Focus(ncode == LBN_SETFOCUS)))
    } else {
        None
    }
}

pub fn parse_edit_command(id: u64, ncode: u32) -> (r: Option<(u64, Event, EventArgs)>)
    ensures
        r == edit_event(id, ncode),
{
    if ncode == EN_UPDATE {
        Some((id, Event::ValueChanged, EventArgs::Empty))
    } else if ncode == EN_MAXTEXT {
        Some((id, Event::LimitReached, EventArgs::Empty))
    } else if ncode == EN_SETFOCUS || ncode == EN_KILLFOCUS {
        Some((id, Event::Focus, EventArgs::Focus(ncode == EN_SETFOCUS)))
    } else {
        None
    }
}

pub fn parse_static_command(id: u64, ncode: u32) -> (r: Option<(u64, Event, EventArgs)>)
    ensures
        r == static_event(id, ncode),
{
    if ncode == STN_CLICKED {
        Some((id, Event::Click, EventArgs::Empty))
    } else if ncode == STN_DBLCLK {
        Some((id, Event::DoubleClick, EventArgs::Empty))
    } else {
        None
    }
}

pub fn parse_datepicker_command(id: u64, ncode: u32) -> (r: Option<(u64, Event, EventArgs)>)
    ensures
        r == datepicker_event(id, ncode),
{
    if ncode == DTN_CLOSEUP {
        Some((id, Event::DateChanged, EventArgs::Empty))
    } else {
        None
    }
}

/// Parses a notification of the newer common controls, by control type.
pub fn parse_notify(id: u64, control_type: ControlType, code: u32) -> (r: Option<(u64, Event, EventArgs)>)
    ensures
        r == notify_event(id, control_type, code),
{
    match control_type {
        ControlType::DatePicker => parse_datepicker_command(id, code),
        _ => None,
    }
}

/// Parses the notification code carried in the high word of `w` of a command
/// message, by control type. Other control types yield nothing.
pub fn parse_command(id: u64, control_type: ControlType, w: usize) -> (r: Option<(u64, Event, EventArgs)>)
    ensures
        r == command_event(id, control_type, w),
{
    let ncode = hi_word_of(w) as u32;
    match control_type {
        ControlType::ListBox => parse_listbox_command(id, ncode),
        ControlType::TextInput | ControlType::TextBox => parse_edit_command(id, ncode),
        ControlType::Label => parse_static_command(id, ncode),
        ControlType::DatePicker => parse_datepicker_command(id, ncode),
        _ => None,
    }
}

} // verus!
