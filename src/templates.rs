//! Templates that describe controls to create: from a template and the
//! registry, the parameters of the platform window, resolved and checked.
use vstd::prelude::*;
use vstd::string::*;
use crate::controls::{Control, ControlEntry};
use crate::error::Error;
use crate::events::{ControlType, Event, StandardEvent, standard_event};
use crate::handles::AnyHandle;
use crate::ui::Ui;

verus! {

pub const WS_CHILD: u32 = 0x4000_0000;
pub const WS_VISIBLE: u32 = 0x1000_0000;
pub const WS_DISABLED: u32 = 0x0800_0000;
pub const BS_BITMAP: u32 = 0x0000_0080;
pub const BS_NOTIFY: u32 = 0x0000_4000;
pub const SS_CENTER: u32 = 0x0000_0001;
pub const SS_NOPREFIX: u32 = 0x0000_0080;
pub const SS_NOTIFY: u32 = 0x0000_0100;
pub const WM_CREATE: u32 = 0x0001;

/// Horizontal alignment of a text.
#[derive(Clone, Copy, Debug, PartialEq, Eq, Structural)]
pub enum HTextAlign {
    Left,
    Center,
    Right,
}

/// What the platform needs to create one window.
#[derive(Debug)]
pub struct WindowParams {
    pub title: String,
    pub class_name: String,
    pub position: (i32, i32),
    pub size: (u32, u32),
    pub flags: u32,
    pub ex_flags: Option<u32>,
    pub parent: usize,
}

/// The window handle of control `id`, where its handle is a window's.
pub open spec fn window_of(c: Map<u64, ControlEntry>, id: u64) -> Option<usize> {
    match c[id].control.spec_handle() {
        AnyHandle::Window(h) => Some(h),
        _ => None,
    }
}

/// The font handle of resource `id`, where it is a font.
pub open spec fn font_of(c: Map<u64, ControlEntry>, id: u64) -> Option<usize> {
    match c[id].control {
        Control::Font(h) => Some(h),
        _ => None,
    }
}

/// The window handle of control `id`. Fails with `KeyNotFound`, or with
/// `BadParent(msg)` where the control is not window-like.
pub fn handle_of_window(ui: &Ui, id: u64, msg: &str) -> (r: Result<usize, Error>)
    requires
        ui.wf(),
    ensures
        !ui.controls().contains_key(id) ==> r == Err::<usize, Error>(Error::KeyNotFound),
        ui.controls().contains_key(id) ==> match window_of(ui.controls(), id) {
            Some(h) => r == Ok::<usize, Error>(h),
            None => r matches Err(Error::BadParent(m)) && m@ == msg@,
        },
{
    match ui.get(id) {
        Err(e) => Err(e),
        Ok(c) => match c.handle() {
            AnyHandle::Window(h) => Ok(h),
            _ => Err(Error::BadParent(String::from_str(msg))),
        },
    }
}

/// The font handle of resource `id`. Fails with `KeyNotFound`, or with
/// `BadResource(msg)` where it is not a font.
pub fn handle_of_font(ui: &Ui, id: u64, msg: &str) -> (r: Result<usize, Error>)
    requires
        ui.wf(),
    ensures
        !ui.controls().contains_key(id) ==> r == Err::<usize, Error>(Error::KeyNotFound),
        ui.controls().contains_key(id) ==> match font_of(ui.controls(), id) {
            Some(h) => r == Ok::<usize, Error>(h),
            None => r matches Err(Error::BadResource(m)) && m@ == msg@,
        },
{
    match ui.get(id) {
        Err(e) => Err(e),
        Ok(Control::Font(h)) => Ok(h),
        Ok(_) => Err(Error::BadResource(String::from_str(msg))),
    }
}

/// The optional font of a template: nothing where none is asked for.
fn optional_font(ui: &Ui, font: Option<u64>, msg: &str) -> (r: Result<Option<usize>, Error>)
    requires
        ui.wf(),
    ensures
        font is None ==> r == Ok::<Option<usize>, Error>(None),
        font is Some && !ui.controls().contains_key(font->0) ==> r == Err::<Option<usize>, Error>(Error::KeyNotFound),
        font is Some && ui.controls().contains_key(font->0) ==> match font_of(ui.controls(), font->0) {
            Some(h) => r == Ok::<Option<usize>, Error>(Some(h)),
            None => r matches Err(Error::BadResource(m)) && m@ == msg@,
        },
{
    match font {
        None => Ok(None),
        Some(f) => match handle_of_font(ui, f, msg) {
            Ok(h) => Ok(Some(h)),
            Err(e) => Err(e),
        },
    }
}

pub open spec fn visibility_flags(visible: bool, disabled: bool) -> u32 {
    (if visible { WS_VISIBLE } else { 0u32 }) | (if disabled { WS_DISABLED } else { 0u32 })
}

pub open spec fn button_flags(visible: bool, disabled: bool) -> u32 {
    WS_CHILD | BS_NOTIFY | BS_BITMAP | visibility_flags(visible, disabled)
}

pub open spec fn groupbox_flags(visible: bool, disabled: bool) -> u32 {
    WS_CHILD | visibility_flags(visible, disabled)
}

fn visibility_flags_of(visible: bool, disabled: bool) -> (r: u32)
    ensures
        r == visibility_flags(visible, disabled),
{
    (if visible { WS_VISIBLE } else { 0u32 }) | (if disabled { WS_DISABLED } else { 0u32 })
}

/// A template that creates a standard button under window `parent`, with
/// an optional font resource.
#[derive(Debug)]
pub struct ButtonT {
    pub text: String,
    pub position: (i32, i32),
    pub size: (u32, u32),
    pub visible: bool,
    pub disabled: bool,
    pub parent: u64,
    pub font: Option<u64>,
}

impl ButtonT {
    pub fn resource_type_id(&self) -> (r: ControlType)
        ensures
            r == ControlType::Button,
    {
        ControlType::Button
    }

    /// The events that a button raises.
    pub fn events(&self) -> (r: Vec<Event>)
        ensures
            r@ == seq![
                standard_event(StandardEvent::Destroyed),
                standard_event(StandardEvent::BtnClick),
                standard_event(StandardEvent::BtnDoubleClick),
                standard_event(StandardEvent::BtnFocus),
                standard_event(StandardEvent::Moved),
                standard_event(StandardEvent::Resized),
                Event::Any,
            ],
    {
        let r = vec![
            StandardEvent::Destroyed.event(),
            StandardEvent::BtnClick.event(),
            StandardEvent::BtnDoubleClick.event(),
            StandardEvent::BtnFocus.event(),
            StandardEvent::Moved.event(),
            StandardEvent::Resized.event(),
            Event::Any,
        ];
        assert(r@ =~= seq![
            standard_event(StandardEvent::Destroyed),
            standard_event(StandardEvent::BtnClick),
            standard_event(StandardEvent::BtnDoubleClick),
            standard_event(StandardEvent::BtnFocus),
            standard_event(StandardEvent::Moved),
            standard_event(StandardEvent::Resized),
            Event::Any,
        ]);
        r
    }

    /// The window to create for the button, and its font. The parent must
    /// be a window-like control (else `KeyNotFound` or `BadParent`), then
    /// the font, if any, a font resource (else `KeyNotFound` or
    /// `BadResource`).
    pub fn build(&self, ui: &Ui) -> (r: Result<(WindowParams, Option<usize>), Error>)
        requires
            ui.wf(),
        ensures
            !ui.controls().contains_key(self.parent) ==> r == Err::<(WindowParams, Option<usize>), Error>(Error::KeyNotFound),
            ui.controls().contains_key(self.parent) && window_of(ui.controls(), self.parent) is None ==>
                (r matches Err(Error::BadParent(m)) && m@ == "The parent of a button must be a window-like control."@),
            ui.controls().contains_key(self.parent) && window_of(ui.controls(), self.parent) is Some ==> {
                &&& self.font is Some && !ui.controls().contains_key(self.font->0) ==>
                    r == Err::<(WindowParams, Option<usize>), Error>(Error::KeyNotFound)
                &&& self.font is Some && ui.controls().contains_key(self.font->0) && font_of(ui.controls(), self.font->0) is None ==>
                    (r matches Err(Error::BadResource(m)) && m@ == "The font of a button must be a font resource."@)
                &&& self.font is Some && ui.controls().contains_key(self.font->0) && font_of(ui.controls(), self.font->0) is Some ==>
                    (r matches Ok((_, fh)) && fh == font_of(ui.controls(), self.font->0))
                &&& self.font is None ==> (r matches Ok((_, fh)) && fh is None)
            },
            r matches Ok((p, _)) ==> {
                &&& p.title@ == self.text@
                &&& p.class_name@ == "BUTTON"@
                &&& p.position == self.position
                &&& p.size == self.size
                &&& p.flags == button_flags(self.visible, self.disabled)
                &&& p.ex_flags == Some(0u32)
                &&& Some(p.parent) == window_of(ui.controls(), self.parent)
            },
    {
        let flags = WS_CHILD | BS_NOTIFY | BS_BITMAP | visibility_flags_of(self.visible, self.disabled);
        let parent = match handle_of_window(ui, self.parent, "The parent of a button must be a window-like control.") {
            Ok(h) => h,
            Err(e) => {
                return Err(e);
            },
        };
        let font = match optional_font(ui, self.font, "The font of a button must be a font resource.") {
            Ok(f) => f,
            Err(e) => {
                return Err(e);
            },
        };
        let params = WindowParams {
            title: self.text.clone(),
            class_name: String::from_str("BUTTON"),
            position: self.position,
            size: self.size,
            flags,
            ex_flags: Some(0),
            parent,
        };
        Ok((params, font))
    }
}

/// A template that creates a group box under window `parent`: a frame, and
/// a centred label that holds the text, with an optional font resource.
#[derive(Debug)]
pub struct GroupBoxT {
    pub text: String,
    pub position: (i32, i32),
    pub size: (u32, u32),
    pub visible: bool,
    pub disabled: bool,
    pub align: HTextAlign,
    pub parent: u64,
    pub font: Option<u64>,
}

impl GroupBoxT {
    pub fn type_id(&self) -> (r: ControlType)
        ensures
            r == ControlType::GroupBox,
    {
        ControlType::GroupBox
    }

    /// The window class that draws group boxes.
    pub fn class_name() -> (r: String)
        ensures
            r@ == "NWG_BUILTIN_GROUPBOX"@,
    {
        String::from_str("NWG_BUILTIN_GROUPBOX")
    }

    /// The frame window to create. The parent must be a window-like control
    /// (else `KeyNotFound` or `BadParent`).
    pub fn build(&self, ui: &Ui) -> (r: Result<WindowParams, Error>)
        requires
            ui.wf(),
        ensures
            !ui.controls().contains_key(self.parent) ==> r == Err::<WindowParams, Error>(Error::KeyNotFound),
            ui.controls().contains_key(self.parent) && window_of(ui.controls(), self.parent) is None ==>
                (r matches Err(Error::BadParent(m)) && m@ == "The parent of a groupbox must be a window-like control."@),
            ui.controls().contains_key(self.parent) && window_of(ui.controls(), self.parent) is Some ==> (r matches Ok(p) && {
                &&& p.title@ == ""@
                &&& p.class_name@ == "NWG_BUILTIN_GROUPBOX"@
                &&& p.position == self.position
                &&& p.size == self.size
                &&& p.flags == groupbox_flags(self.visible, self.disabled)
                &&& p.ex_flags is None
                &&& Some(p.parent) == window_of(ui.controls(), self.parent)
            }),
    {
        let flags = WS_CHILD | visibility_flags_of(self.visible, self.disabled);
        let parent = match handle_of_window(ui, self.parent, "The parent of a groupbox must be a window-like control.") {
            Ok(h) => h,
            Err(e) => {
                return Err(e);
            },
        };
        Ok(WindowParams {
            title: String::from_str(""),
            class_name: Self::class_name(),
            position: self.position,
            size: self.size,
            flags,
            ex_flags: None,
            parent,
        })
    }

    /// The label to create inside frame window `handle`, and its font. The
    /// font, if any, must be a font resource (else `KeyNotFound` or
    /// `BadResource`).
    pub fn add_label_children(&self, ui: &Ui, handle: usize) -> (r: Result<(WindowParams, Option<usize>), Error>)
        requires
            ui.wf(),
        ensures
            self.font is Some && !ui.controls().contains_key(self.font->0) ==>
                r == Err::<(WindowParams, Option<usize>), Error>(Error::KeyNotFound),
            self.font is Some && ui.controls().contains_key(self.font->0) && font_of(ui.controls(), self.font->0) is None ==>
                (r matches Err(Error::BadResource(m)) && m@ == "The font of a label must be a font resource."@),
            self.font is Some && ui.controls().contains_key(self.font->0) && font_of(ui.controls(), self.font->0) is Some ==>
                (r matches Ok((_, fh)) && fh == font_of(ui.controls(), self.font->0)),
            self.font is None ==> (r matches Ok((_, fh)) && fh is None),
            r matches Ok((p, _)) ==> {
                &&& p.title@ == self.text@
                &&& p.class_name@ == "STATIC"@
                &&& p.position == (0i32, 0i32)
                &&& p.size == (0u32, 0u32)
                &&& p.flags == WS_CHILD | WS_VISIBLE | SS_NOTIFY | SS_NOPREFIX | SS_CENTER
                &&& p.ex_flags == Some(0u32)
                &&& p.parent == handle
            },
    {
        let font = match optional_font(ui, self.font, "The font of a label must be a font resource.") {
            Ok(f) => f,
            Err(e) => {
                return Err(e);
            },
        };
        let params = WindowParams {
            title: self.text.clone(),
            class_name: String::from_str("STATIC"),
            position: (0, 0),
            size: (0, 0),
            flags: WS_CHILD | WS_VISIBLE | SS_NOTIFY | SS_NOPREFIX | SS_CENTER,
            ex_flags: Some(0),
            parent: handle,
        };
        Ok((params, font))
    }
}

/// Whether the group box's own window procedure handles `msg` (creation and
/// painting) rather than passing it to the default procedure.
pub fn groupbox_handles(msg: u32) -> (r: bool)
    ensures
        r == (msg == WM_CREATE || msg == crate::events::WM_PAINT),
{
    msg == WM_CREATE || msg == crate::events::WM_PAINT
}

} // verus!
