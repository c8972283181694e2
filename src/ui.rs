//! The registry context: handles, controls and event bindings together, and
//! the dispatcher that turns one raw message into the callbacks it fires.
use vstd::prelude::*;
use crate::controls::{Control, ControlEntry, ControlStore, TIMER_KIND, elapsed_since};
use crate::error::Error;
use crate::events::{
    Event, EventArgs, Rect, command_args, command_event, hi_word, hi_word_of, notify_event, parse_command,
    parse_notify, system_args, ControlType, LBN_DBLCLK, LBN_KILLFOCUS, LBN_SELCHANGE, LBN_SETFOCUS, unpack_command, unpack_system, NWG_CUSTOM_MAX, NWG_CUSTOM_MIN, WM_COMMAND,
    WM_MENUCOMMAND, WM_NOTIFY, WM_TIMER,
};
use crate::handles::{AnyHandle, HandleRegistry, injective, resolves};

verus! {

/// A callback registered for an event of a control.
#[derive(Clone, Copy, Debug, PartialEq, Eq, Structural)]
pub struct Binding {
    pub id: u64,
    pub event: Event,
    pub callback: u64,
}

/// One callback to run, with the event and payload it is run for.
#[derive(Clone, Copy, Debug, PartialEq, Eq, Structural)]
pub struct Invocation {
    pub callback: u64,
    pub id: u64,
    pub event: Event,
    pub args: EventArgs,
}

/// The header of a notify message: the sender's window and the code.
#[derive(Clone, Copy, Debug, PartialEq, Eq, Structural)]
pub struct NotifyHeader {
    pub from: usize,
    pub code: u32,
}

/// A raw message delivered to a hooked window, with what the platform
/// reported alongside it.
#[derive(Clone, Copy, Debug)]
pub struct RawMessage {
    pub hwnd: usize,
    pub msg: u32,
    pub w: usize,
    pub l: usize,
    /// The header that a notify message points to.
    pub notify: Option<NotifyHeader>,
    /// For a menu command: the identifier of the chosen item.
    pub menu_item: u32,
    /// The client rectangle of the window.
    pub client: Rect,
    /// The time of delivery, in milliseconds.
    pub now_ms: u64,
}

/// Which bindings a message reaches, and with which payload.
#[derive(Clone, Copy, Debug, PartialEq, Eq, Structural)]
pub enum Selector {
    /// Bindings of exactly this control and event, with this payload.
    Exact(u64, Event, EventArgs),
    /// Window-message bindings of a control whose code matches.
    SystemCode(u64, usize, u32, usize, usize, Rect),
    /// Command-notification bindings of a control whose code matches.
    CommandCode(u64, usize, u16),
}

pub open spec fn selected(s: Selector, b: Binding) -> Option<EventArgs> {
    match s {
        Selector::Exact(id, e, a) => if b.id == id && b.event == e { Some(a) } else { None },
        Selector::SystemCode(id, hwnd, msg, w, l, client) => {
            if b.id != id {
                None
            } else {
                match b.event {
                    Event::System(c, u) => if c == msg { system_args(u, msg, w, l, client) } else { None },
                    Event::SystemGroup(g, u) => if g.has(msg) { system_args(u, msg, w, l, client) } else { None },
                    _ => None,
                }
            }
        },
        Selector::CommandCode(id, hwnd, ncode) => {
            if b.id != id {
                None
            } else {
                match b.event {
                    Event::Command(c, u) => if c == ncode { command_args(u, ncode) } else { None },
                    Event::CommandGroup(g, u) => if g.has(ncode as u32) { command_args(u, ncode) } else { None },
                    _ => None,
                }
            }
        },
    }
}

/// The invocations that selector `s` makes of bindings `bs`, in order.
pub open spec fn fired_by(bs: Seq<Binding>, s: Selector) -> Seq<Invocation>
    decreases bs.len(),
{
    if bs.len() == 0 {
        Seq::empty()
    } else {
        let prev = fired_by(bs.drop_last(), s);
        let b = bs.last();
        match selected(s, b) {
            Some(a) => prev.push(Invocation { callback: b.callback, id: b.id, event: b.event, args: a }),
            None => prev,
        }
    }
}

/// The invocations of all selectors `ss`, one selector after the other.
pub open spec fn fired_all(bs: Seq<Binding>, ss: Seq<Selector>) -> Seq<Invocation>
    decreases ss.len(),
{
    if ss.len() == 0 {
        Seq::empty()
    } else {
        fired_all(bs, ss.drop_last()) + fired_by(bs, ss.last())
    }
}

/// The identifier that handle `h` is bound to in `m`, if any.
pub open spec fn lookup(m: Map<u64, AnyHandle>, h: AnyHandle) -> Option<u64> {
    if exists|id: u64| m.contains_key(id) && m[id] == h {
        Some(choose|id: u64| m.contains_key(id) && m[id] == h)
    } else {
        None
    }
}

proof fn lemma_resolves_lookup(m: Map<u64, AnyHandle>, h: AnyHandle, r: Option<u64>)
    requires
        injective(m),
        resolves(m, h, r),
    ensures
        r == lookup(m, h),
{
    if let Some(id) = r {
        assert(m.contains_key(id) && m[id] == h);
        let c = choose|c: u64| m.contains_key(c) && m[c] == h;
        assert(m[c] == m[id]);
    }
}

/// The specific event that message `m` stands for, before any binding is
/// consulted.
pub open spec fn classify(h: Map<u64, AnyHandle>, c: Map<u64, ControlEntry>, m: RawMessage) -> Option<(u64, Event, EventArgs)> {
    if m.msg == WM_COMMAND {
        if m.l == 0 {
            None
        } else {
            match lookup(h, AnyHandle::Window(m.l)) {
                Some(id) => command_event(id, c[id].control.spec_type(), m.w),
                None => None,
            }
        }
    } else if m.msg == WM_NOTIFY {
        match m.notify {
            Some(hdr) => match lookup(h, AnyHandle::Window(hdr.from)) {
                Some(id) => notify_event(id, c[id].control.spec_type(), hdr.code),
                None => None,
            },
            None => None,
        }
    } else if m.msg == WM_MENUCOMMAND {
        match lookup(h, AnyHandle::MenuItem(m.l, m.menu_item)) {
            Some(id) => Some((id, Event::Triggered, EventArgs::Empty)),
            None => None,
        }
    } else if m.msg == WM_TIMER {
        match lookup(h, AnyHandle::Custom(TIMER_KIND, m.w)) {
            Some(id) => match c[id].control {
                Control::Timer(t) => Some((id, Event::Tick, EventArgs::Tick(elapsed_since(t.started_ms, m.now_ms)))),
                _ => None,
            },
            None => None,
        }
    } else {
        None
    }
}

/// Whether message code `msg` lies outside the toolkit's private range.
pub open spec fn is_public_code(msg: u32) -> bool {
    msg < NWG_CUSTOM_MIN || msg > NWG_CUSTOM_MAX
}

/// The selectors of message `m`, in the order they fire: the specific
/// event, command codes of the sending control, window-message codes of the
/// receiving window, then the catch-all raw event.
pub open spec fn selectors(h: Map<u64, AnyHandle>, c: Map<u64, ControlEntry>, m: RawMessage) -> Seq<Selector> {
    let s1: Seq<Selector> = match classify(h, c, m) {
        Some((id, e, a)) => seq![Selector::Exact(id, e, a)],
        None => Seq::empty(),
    };
    let s2: Seq<Selector> = if m.msg == WM_COMMAND && m.l != 0 {
        match lookup(h, AnyHandle::Window(m.l)) {
            Some(id) => seq![Selector::CommandCode(id, m.l, hi_word(m.w as int) as u16)],
            None => Seq::empty(),
        }
    } else {
        Seq::empty()
    };
    let (s3, s4): (Seq<Selector>, Seq<Selector>) = match lookup(h, AnyHandle::Window(m.hwnd)) {
        Some(id) => (
            seq![Selector::SystemCode(id, m.hwnd, m.msg, m.w, m.l, m.client)],
            if is_public_code(m.msg) {
                seq![Selector::Exact(id, Event::Any, EventArgs::Raw(m.msg, m.w, m.l))]
            } else {
                Seq::empty()
            },
        ),
        None => (Seq::empty(), Seq::empty()),
    };
    s1 + s2 + s3 + s4
}

/// Bindings `bs` without those of control `id` (and of `event`, if given).
pub open spec fn without(bs: Seq<Binding>, id: u64, event: Option<Event>) -> Seq<Binding>
    decreases bs.len(),
{
    if bs.len() == 0 {
        Seq::empty()
    } else {
        let prev = without(bs.drop_last(), id, event);
        let b = bs.last();
        if b.id == id && (event matches Some(e) ==> b.event == e) {
            prev
        } else {
            prev.push(b)
        }
    }
}

/// The identifiers of `handles` that are bound in `m`, in order; unbound
/// handles are skipped.
pub open spec fn known_ids(m: Map<u64, AnyHandle>, handles: Seq<AnyHandle>) -> Seq<u64>
    decreases handles.len(),
{
    if handles.len() == 0 {
        Seq::empty()
    } else {
        let prev = known_ids(m, handles.drop_last());
        match lookup(m, handles.last()) {
            Some(id) => prev.push(id),
            None => prev,
        }
    }
}

/// A list box ignores a command notification whose code it does not define:
/// the message stands for no specific event of it.
pub proof fn lemma_unknown_listbox_code_ignored(h: Map<u64, AnyHandle>, c: Map<u64, ControlEntry>, m: RawMessage)
    requires
        m.msg == WM_COMMAND,
        m.l != 0,
        lookup(h, AnyHandle::Window(m.l)) matches Some(id) && c[id].control.spec_type() == ControlType::ListBox,
        hi_word(m.w as int) != LBN_SELCHANGE,
        hi_word(m.w as int) != LBN_DBLCLK,
        hi_word(m.w as int) != LBN_SETFOCUS,
        hi_word(m.w as int) != LBN_KILLFOCUS,
    ensures
        classify(h, c, m) is None,
{
}

/// A control that a running callback uses cannot be removed; once the
/// callback returns, the store is as before and removal is allowed again.
pub proof fn lemma_removal_waits_for_callback(c: Map<u64, ControlEntry>, id: u64)
    requires
        c.contains_key(id),
        c[id].uses == 0,
    ensures
        ({
            let during = c.insert(id, ControlEntry { control: c[id].control, uses: (c[id].uses + 1) as u32 });
            let after = during.insert(id, ControlEntry { control: during[id].control, uses: (during[id].uses - 1) as u32 });
            &&& during[id].uses > 0
            &&& after == c
            &&& after[id].uses == 0
        }),
{
    let during = c.insert(id, ControlEntry { control: c[id].control, uses: (c[id].uses + 1) as u32 });
    let after = during.insert(id, ControlEntry { control: during[id].control, uses: (during[id].uses - 1) as u32 });
    assert(after =~= c);
}

/// The registry of one user interface: which handle each identifier stands
/// for, the control under each identifier, and the callbacks bound to their
/// events in order of registration.
pub struct Ui {
    handles: HandleRegistry,
    controls: ControlStore,
    bindings: Vec<Binding>,
}

impl Ui {
    pub closed spec fn handles(&self) -> Map<u64, AnyHandle> {
        self.handles@
    }

    pub closed spec fn controls(&self) -> Map<u64, ControlEntry> {
        self.controls@
    }

    pub closed spec fn bindings(&self) -> Seq<Binding> {
        self.bindings@
    }

    /// Every identifier has both a control and that control's handle, and
    /// no handle stands for two identifiers.
    pub closed spec fn wf(&self) -> bool {
        &&& self.handles.wf()
        &&& self.controls.wf()
        &&& injective(self.handles@)
        &&& forall|id: u64| #[trigger] self.handles@.contains_key(id) == self.controls@.contains_key(id)
        &&& forall|id: u64| #[trigger] self.handles@.contains_key(id)
            ==> self.handles@[id] == self.controls@[id].control.spec_handle()
    }

    /// An empty registry.
    pub fn new() -> (r: Ui)
        ensures
            r.wf(),
            r.handles() == Map::<u64, AnyHandle>::empty(),
            r.controls() == Map::<u64, ControlEntry>::empty(),
            r.bindings() == Seq::<Binding>::empty(),
    {
        Ui { handles: HandleRegistry::new(), controls: ControlStore::new(), bindings: Vec::new() }
    }

    /// The identifier that `handle` is bound to, if any.
    pub fn inner_id_from_handle(&self, handle: &AnyHandle) -> (r: Option<u64>)
        requires
            self.wf(),
        ensures
            r == lookup(self.handles(), *handle),
            resolves(self.handles(), *handle, r),
    {
        let r = self.handles.resolve(handle);
        proof { lemma_resolves_lookup(self.handles@, *handle, r); }
        r
    }

    /// The identifier of window `handle`, where the window is hooked to this
    /// registry; nothing otherwise.
    pub fn window_id(&self, handle: usize, hooked_here: bool) -> (r: Option<u64>)
        requires
            self.wf(),
        ensures
            r == (if hooked_here { lookup(self.handles(), AnyHandle::Window(handle)) } else { None::<u64> }),
    {
        if hooked_here {
            self.inner_id_from_handle(&AnyHandle::Window(handle))
        } else {
            None
        }
    }

    /// Adds `control` under `id` and binds `id` to the control's handle.
    /// Fails with `KeyExists`, and changes nothing, where `id` or the handle
    /// is already bound.
    pub fn add_control(&mut self, id: u64, control: Control) -> (r: Result<(), Error>)
        requires
            old(self).wf(),
        ensures
            final(self).wf(),
            final(self).bindings() == old(self).bindings(),
            old(self).handles().contains_key(id) || old(self).handles().values().contains(control.spec_handle()) ==> {
                &&& r == Err::<(), Error>(Error::KeyExists)
                &&& final(self).handles() == old(self).handles()
                &&& final(self).controls() == old(self).controls()
            },
            !(old(self).handles().contains_key(id) || old(self).handles().values().contains(control.spec_handle())) ==> {
                &&& r == Ok::<(), Error>(())
                &&& final(self).handles() == old(self).handles().insert(id, control.spec_handle())
                &&& final(self).controls() == old(self).controls().insert(id, ControlEntry { control, uses: 0 })
            },
    {
        let h = control.handle();
        match self.handles.register(id, h) {
            Err(e) => Err(e),
            Ok(()) => {
                let r = self.controls.insert(id, control);
                proof {
                    assert(r is Ok);
                }
                Ok(())
            },
        }
    }

    /// Removes the control under `id`, its handle and its bindings, and hands
    /// the control back for its handle to be freed, once. Fails with
    /// `KeyNotFound`, or with `ControlInUse` while a callback uses it; a
    /// failure changes nothing.
    pub fn remove_control(&mut self, id: u64) -> (r: Result<Control, Error>)
        requires
            old(self).wf(),
        ensures
            final(self).wf(),
            !old(self).controls().contains_key(id) ==> {
                &&& r == Err::<Control, Error>(Error::KeyNotFound)
                &&& final(self).handles() == old(self).handles()
                &&& final(self).controls() == old(self).controls()
                &&& final(self).bindings() == old(self).bindings()
            },
            old(self).controls().contains_key(id) && old(self).controls()[id].uses > 0 ==> {
                &&& r == Err::<Control, Error>(Error::ControlInUse)
                &&& final(self).handles() == old(self).handles()
                &&& final(self).controls() == old(self).controls()
                &&& final(self).bindings() == old(self).bindings()
            },
            old(self).controls().contains_key(id) && old(self).controls()[id].uses == 0 ==> {
                &&& r == Ok::<Control, Error>(old(self).controls()[id].control)
                &&& final(self).handles() == old(self).handles().remove(id)
                &&& final(self).controls() == old(self).controls().remove(id)
                &&& final(self).bindings() == without(old(self).bindings(), id, None)
            },
    {
        let r = self.controls.remove(id);
        match r {
            Err(e) => Err(e),
            Ok(c) => {
                let u = self.handles.unregister(id);
                proof { assert(u is Ok); }
                self.drop_bindings(id, None);
                proof {
                    assert forall|k: u64| #[trigger] self.handles@.contains_key(k) implies
                        self.handles@[k] == self.controls@[k].control.spec_handle() by {
                        assert(old(self).handles@.contains_key(k));
                    }
                }
                Ok(c)
            },
        }
    }

    fn drop_bindings(&mut self, id: u64, event: Option<Event>)
        ensures
            final(self).handles == old(self).handles,
            final(self).controls == old(self).controls,
            final(self).bindings@ == without(old(self).bindings@, id, event),
    {
        let mut kept: Vec<Binding> = Vec::new();
        let mut i: usize = 0;
        while i < self.bindings.len()
            invariant
                i <= self.bindings@.len(),
                kept@ == without(self.bindings@.subrange(0, i as int), id, event),
            decreases self.bindings@.len() - i,
        {
            let b = self.bindings[i];
            proof {
                assert(self.bindings@.subrange(0, i + 1).drop_last() =~= self.bindings@.subrange(0, i as int));
            }
            let drop = b.id == id && match event {
                Some(e) => b.event == e,
                None => true,
            };
            if !drop {
                kept.push(b);
            }
            i = i + 1;
        }
        proof {
            assert(self.bindings@.subrange(0, self.bindings@.len() as int) =~= self.bindings@);
        }
        self.bindings = kept;
    }

    /// Registers `callback` for `event` of control `id`, after those already
    /// registered. Fails with `KeyNotFound`, and changes nothing, where `id`
    /// holds no control.
    pub fn bind(&mut self, id: u64, event: Event, callback: u64) -> (r: Result<(), Error>)
        requires
            old(self).wf(),
        ensures
            final(self).wf(),
            final(self).handles() == old(self).handles(),
            final(self).controls() == old(self).controls(),
            !old(self).controls().contains_key(id) ==> r == Err::<(), Error>(Error::KeyNotFound)
                && final(self).bindings() == old(self).bindings(),
            old(self).controls().contains_key(id) ==> r == Ok::<(), Error>(())
                && final(self).bindings() == old(self).bindings().push(Binding { id, event, callback }),
    {
        if !self.controls.contains(id) {
            return Err(Error::KeyNotFound);
        }
        self.bindings.push(Binding { id, event, callback });
        Ok(())
    }

    /// Removes every callback registered for `event` of control `id`.
    pub fn unbind(&mut self, id: u64, event: Event)
        requires
            old(self).wf(),
        ensures
            final(self).wf(),
            final(self).handles() == old(self).handles(),
            final(self).controls() == old(self).controls(),
            final(self).bindings() == without(old(self).bindings(), id, Some(event)),
    {
        self.drop_bindings(id, Some(event));
    }

    /// Marks control `id` as used by a running callback; see
    /// `ControlStore::begin_use`.
    pub fn begin_callback(&mut self, id: u64) -> (r: Result<(), Error>)
        requires
            old(self).wf(),
        ensures
            final(self).wf(),
            final(self).handles() == old(self).handles(),
            final(self).bindings() == old(self).bindings(),
            !old(self).controls().contains_key(id) ==> r == Err::<(), Error>(Error::KeyNotFound)
                && final(self).controls() == old(self).controls(),
            old(self).controls().contains_key(id) && old(self).controls()[id].uses == u32::MAX ==>
                r == Err::<(), Error>(Error::BorrowError) && final(self).controls() == old(self).controls(),
            old(self).controls().contains_key(id) && old(self).controls()[id].uses < u32::MAX ==> {
                &&& r == Ok::<(), Error>(())
                &&& final(self).controls() == old(self).controls().insert(
                    id,
                    ControlEntry { control: old(self).controls()[id].control, uses: (old(self).controls()[id].uses + 1) as u32 },
                )
            },
    {
        let r = self.controls.begin_use(id);
        proof {
            assert forall|k: u64| #[trigger] self.handles@.contains_key(k) implies
                self.handles@[k] == self.controls@[k].control.spec_handle() by {
                assert(old(self).controls@.contains_key(k));
            }
        }
        r
    }

    /// Releases the use of control `id` by a callback that has returned; see
    /// `ControlStore::end_use`.
    pub fn end_callback(&mut self, id: u64) -> (r: Result<(), Error>)
        requires
            old(self).wf(),
        ensures
            final(self).wf(),
            final(self).handles() == old(self).handles(),
            final(self).bindings() == old(self).bindings(),
            !old(self).controls().contains_key(id) ==> r == Err::<(), Error>(Error::KeyNotFound)
                && final(self).controls() == old(self).controls(),
            old(self).controls().contains_key(id) && old(self).controls()[id].uses == 0 ==>
                r == Err::<(), Error>(Error::BorrowError) && final(self).controls() == old(self).controls(),
            old(self).controls().contains_key(id) && old(self).controls()[id].uses > 0 ==> {
                &&& r == Ok::<(), Error>(())
                &&& final(self).controls() == old(self).controls().insert(
                    id,
                    ControlEntry { control: old(self).controls()[id].control, uses: (old(self).controls()[id].uses - 1) as u32 },
                )
            },
    {
        let r = self.controls.end_use(id);
        proof {
            assert forall|k: u64| #[trigger] self.handles@.contains_key(k) implies
                self.handles@[k] == self.controls@[k].control.spec_handle() by {
                assert(old(self).controls@.contains_key(k));
            }
        }
        r
    }

    /// The control under `id`. Fails with `KeyNotFound`.
    pub fn get(&self, id: u64) -> (r: Result<Control, Error>)
        requires
            self.wf(),
        ensures
            self.controls().contains_key(id) ==> r == Ok::<Control, Error>(self.controls()[id].control),
            !self.controls().contains_key(id) ==> r == Err::<Control, Error>(Error::KeyNotFound),
    {
        self.controls.get(id)
    }

    /// The identifiers of the child windows `children` of a control, as the
    /// platform listed them; children that are not registered are skipped.
    pub fn children_of(&self, children: &Vec<AnyHandle>) -> (r: Vec<u64>)
        requires
            self.wf(),
        ensures
            r@ == known_ids(self.handles(), children@),
    {
        let mut out: Vec<u64> = Vec::new();
        let mut i: usize = 0;
        while i < children.len()
            invariant
                self.wf(),
                i <= children@.len(),
                out@ == known_ids(self.handles(), children@.subrange(0, i as int)),
            decreases children@.len() - i,
        {
            proof {
                assert(children@.subrange(0, i + 1).drop_last() =~= children@.subrange(0, i as int));
            }
            match self.inner_id_from_handle(&children[i]) {
                Some(id) => out.push(id),
                None => {},
            }
            i = i + 1;
        }
        proof {
            assert(children@.subrange(0, children@.len() as int) =~= children@);
        }
        out
    }

    /// The store of controls, for typed lookups.
    pub fn store(&self) -> (r: &ControlStore)
        requires
            self.wf(),
        ensures
            r.wf(),
            r@ == self.controls(),
    {
        &self.controls
    }
    /// The payload with which selector `s` reaches binding `b`, if it does.
    fn select(s: &Selector, b: &Binding) -> (r: Option<EventArgs>)
        ensures
            r == selected(*s, *b),
    {
        match *s {
            Selector::Exact(id, e, a) => if b.id == id && b.event == e { Some(a) } else { None },
            Selector::SystemCode(id, hwnd, msg, w, l, client) => {
                if b.id != id {
                    None
                } else {
                    match b.event {
                        Event::System(c, u) => if c == msg { unpack_system(u, hwnd, msg, w, l, client) } else { None },
                        Event::SystemGroup(g, u) => if g.contains(msg) {
                            unpack_system(u, hwnd, msg, w, l, client)
                        } else {
                            None
                        },
                        _ => None,
                    }
                }
            },
            Selector::CommandCode(id, hwnd, ncode) => {
                if b.id != id {
                    None
                } else {
                    match b.event {
                        Event::Command(c, u) => if c == ncode { unpack_command(u, hwnd, ncode) } else { None },
                        Event::CommandGroup(g, u) => if g.contains(ncode as u32) {
                            unpack_command(u, hwnd, ncode)
                        } else {
                            None
                        },
                        _ => None,
                    }
                }
            },
        }
    }

    /// Appends to `out` the invocations that selector `s` makes, in order of
    /// registration.
    fn fire(&self, s: &Selector, out: &mut Vec<Invocation>)
        ensures
            final(out)@ == old(out)@ + fired_by(self.bindings@, *s),
    {
        let ghost start = out@;
        let mut i: usize = 0;
        while i < self.bindings.len()
            invariant
                i <= self.bindings@.len(),
                out@ == start + fired_by(self.bindings@.subrange(0, i as int), *s),
            decreases self.bindings@.len() - i,
        {
            let b = self.bindings[i];
            proof {
                assert(self.bindings@.subrange(0, i + 1).drop_last() =~= self.bindings@.subrange(0, i as int));
            }
            match Self::select(s, &b) {
                Some(a) => {
                    out.push(Invocation { callback: b.callback, id: b.id, event: b.event, args: a });
                    proof {
                        assert(out@ =~= start + fired_by(self.bindings@.subrange(0, i + 1), *s));
                    }
                },
                None => {},
            }
            i = i + 1;
        }
        proof {
            assert(self.bindings@.subrange(0, self.bindings@.len() as int) =~= self.bindings@);
        }
    }

    /// The specific event of `m`; see `classify`.
    fn classify_message(&self, m: &RawMessage) -> (r: Option<(u64, Event, EventArgs)>)
        requires
            self.wf(),
        ensures
            r == classify(self.handles(), self.controls(), *m),
    {
        if m.msg == WM_COMMAND {
            if m.l == 0 {
                None
            } else {
                match self.inner_id_from_handle(&AnyHandle::Window(m.l)) {
                    Some(id) => {
                        let c = self.controls.get(id).unwrap();
                        parse_command(id, c.control_type(), m.w)
                    },
                    None => None,
                }
            }
        } else if m.msg == WM_NOTIFY {
            match m.notify {
                Some(hdr) => match self.inner_id_from_handle(&AnyHandle::Window(hdr.from)) {
                    Some(id) => {
                        let c = self.controls.get(id).unwrap();
                        parse_notify(id, c.control_type(), hdr.code)
                    },
                    None => None,
                },
                None => None,
            }
        } else if m.msg == WM_MENUCOMMAND {
            match self.inner_id_from_handle(&AnyHandle::MenuItem(m.l, m.menu_item)) {
                Some(id) => Some((id, Event::Triggered, EventArgs::Empty)),
                None => None,
            }
        } else if m.msg == WM_TIMER {
            match self.inner_id_from_handle(&AnyHandle::Custom(TIMER_KIND, m.w)) {
                Some(id) => match self.controls.get(id).unwrap() {
                    Control::Timer(t) => Some((id, Event::Tick, EventArgs::Tick(t.elapsed(m.now_ms)))),
                    _ => None,
                },
                None => None,
            }
        } else {
            None
        }
    }

    /// The selectors of `m`; see `selectors`.
    fn message_selectors(&self, m: &RawMessage) -> (r: Vec<Selector>)
        requires
            self.wf(),
        ensures
            r@ == selectors(self.handles(), self.controls(), *m),
    {
        let mut r: Vec<Selector> = Vec::new();
        match self.classify_message(m) {
            Some((id, e, a)) => r.push(Selector::Exact(id, e, a)),
            None => {},
        }
        if m.msg == WM_COMMAND && m.l != 0 {
            match self.inner_id_from_handle(&AnyHandle::Window(m.l)) {
                Some(id) => r.push(Selector::CommandCode(id, m.l, hi_word_of(m.w))),
                None => {},
            }
        }
        match self.inner_id_from_handle(&AnyHandle::Window(m.hwnd)) {
            Some(id) => {
                r.push(Selector::SystemCode(id, m.hwnd, m.msg, m.w, m.l, m.client));
                if m.msg < NWG_CUSTOM_MIN || m.msg > NWG_CUSTOM_MAX {
                    r.push(Selector::Exact(id, Event::Any, EventArgs::Raw(m.msg, m.w, m.l)));
                }
            },
            None => {},
        }
        assert(r@ =~= selectors(self.handles(), self.controls(), *m));
        r
    }

    /// The callbacks that message `m` fires, in order, each with its event
    /// and payload. A failed lookup fires nothing; the message itself is
    /// always left for default processing to the caller.
    pub fn process_message(&self, m: &RawMessage) -> (r: Vec<Invocation>)
        requires
            self.wf(),
        ensures
            r@ == fired_all(self.bindings(), selectors(self.handles(), self.controls(), *m)),
    {
        let sels = self.message_selectors(m);
        let mut out: Vec<Invocation> = Vec::new();
        let mut i: usize = 0;
        while i < sels.len()
            invariant
                i <= sels@.len(),
                out@ == fired_all(self.bindings@, sels@.subrange(0, i as int)),
            decreases sels@.len() - i,
        {
            proof {
                assert(sels@.subrange(0, i + 1).drop_last() =~= sels@.subrange(0, i as int));
            }
            self.fire(&sels[i], &mut out);
            i = i + 1;
        }
        proof {
            assert(sels@.subrange(0, sels@.len() as int) =~= sels@);
        }
        out
    }
}

} // verus!
