//! Controls, the store that owns them, and the templates that describe how
//! a control's window is to be created.
use vstd::prelude::*;
use crate::error::Error;
use crate::events::ControlType;
use crate::handles::AnyHandle;

verus! {

/// Kind tag of timer handles.
pub const TIMER_KIND: u64 = 1;
/// Kind tag of font handles.
pub const FONT_KIND: u64 = 2;

/// A standard button, by its window handle.
#[derive(Clone, Copy, Debug, PartialEq, Eq, Structural)]
pub struct Button {
    handle: usize,
}

/// A group box, by its window handle.
#[derive(Clone, Copy, Debug, PartialEq, Eq, Structural)]
pub struct GroupBox {
    handle: usize,
}

/// A timer: its platform identifier and when it started, in milliseconds.
#[derive(Clone, Copy, Debug, PartialEq, Eq, Structural)]
pub struct Timer {
    pub id: usize,
    pub started_ms: u64,
}

impl Button {
    pub closed spec fn window(self) -> usize {
        self.handle
    }

    pub fn from_window(handle: usize) -> (r: Button)
        ensures
            r.window() == handle,
    {
        Button { handle }
    }

    pub fn window_handle(&self) -> (r: usize)
        ensures
            r == self.window(),
    {
        self.handle
    }
}

impl GroupBox {
    pub closed spec fn window(self) -> usize {
        self.handle
    }

    pub fn from_window(handle: usize) -> (r: GroupBox)
        ensures
            r.window() == handle,
    {
        GroupBox { handle }
    }

    pub fn window_handle(&self) -> (r: usize)
        ensures
            r == self.window(),
    {
        self.handle
    }
}

pub open spec fn elapsed_since(started: u64, now: u64) -> u64 {
    if now >= started { (now - started) as u64 } else { 0 }
}

impl Timer {
    /// Milliseconds from the start to `now_ms`; zero for a time before the start.
    pub fn elapsed(&self, now_ms: u64) -> (r: u64)
        ensures
            r == elapsed_since(self.started_ms, now_ms),
    {
        if now_ms >= self.started_ms { now_ms - self.started_ms } else { 0 }
    }
}

/// A control or resource held by the store.
#[derive(Clone, Copy, Debug, PartialEq, Eq, Structural)]
pub enum Control {
    Window(usize),
    Button(Button),
    GroupBox(GroupBox),
    Timer(Timer),
    Font(usize),
    Other(ControlType, AnyHandle),
}

impl Control {
    pub open spec fn spec_handle(self) -> AnyHandle {
        match self {
            Control::Window(h) => AnyHandle::Window(h),
            Control::Button(b) => AnyHandle::Window(b.window()),
            Control::GroupBox(g) => AnyHandle::Window(g.window()),
            Control::Timer(t) => AnyHandle::Custom(TIMER_KIND, t.id),
            Control::Font(h) => AnyHandle::Custom(FONT_KIND, h),
            Control::Other(_, h) => h,
        }
    }

    pub open spec fn spec_type(self) -> ControlType {
        match self {
            Control::Window(_) => ControlType::Window,
            Control::Button(_) => ControlType::Button,
            Control::GroupBox(_) => ControlType::GroupBox,
            Control::Timer(_) => ControlType::Timer,
            Control::Font(_) => ControlType::Font,
            Control::Other(t, _) => t,
        }
    }

    /// The platform handle that the control owns.
    pub fn handle(&self) -> (r: AnyHandle)
        ensures
            r == self.spec_handle(),
    {
        match self {
            Control::Window(h) => AnyHandle::Window(*h),
            Control::Button(b) => AnyHandle::Window(b.window_handle()),
            Control::GroupBox(g) => AnyHandle::Window(g.window_handle()),
            Control::Timer(t) => AnyHandle::Custom(TIMER_KIND, t.id),
            Control::Font(h) => AnyHandle::Custom(FONT_KIND, *h),
            Control::Other(_, h) => *h,
        }
    }

    pub fn control_type(&self) -> (r: ControlType)
        ensures
            r == self.spec_type(),
    {
        match self {
            Control::Window(_) => ControlType::Window,
            Control::Button(_) => ControlType::Button,
            Control::GroupBox(_) => ControlType::GroupBox,
            Control::Timer(_) => ControlType::Timer,
            Control::Font(_) => ControlType::Font,
            Control::Other(t, _) => *t,
        }
    }
}

/// A stored control and the number of callbacks now using it.
#[derive(Clone, Copy, Debug, PartialEq, Eq, Structural)]
pub struct ControlEntry {
    pub control: Control,
    pub uses: u32,
}

/// Holds the controls by logical identifier.
pub struct ControlStore {
    entries: Vec<(u64, ControlEntry)>,
}

impl View for ControlStore {
    type V = Map<u64, ControlEntry>;

    closed spec fn view(&self) -> Map<u64, ControlEntry> {
        Map::new(
            |id: u64| exists|i: int| 0 <= i < self.entries@.len() && #[trigger] self.entries@[i].0 == id,
            |id: u64| self.entries@[choose|i: int| 0 <= i < self.entries@.len() && #[trigger] self.entries@[i].0 == id].1,
        )
    }
}

impl ControlStore {
    /// Identifiers are unique among the entries.
    pub closed spec fn wf(&self) -> bool {
        forall|i: int, j: int|
            0 <= i < self.entries@.len() && 0 <= j < self.entries@.len() && i != j
                ==> #[trigger] self.entries@[i].0 != #[trigger] self.entries@[j].0
    }

    proof fn lemma_view_at(&self, i: int)
        requires
            self.wf(),
            0 <= i < self.entries@.len(),
        ensures
            self@.contains_key(self.entries@[i].0),
            self@[self.entries@[i].0] == self.entries@[i].1,
    {
        let id = self.entries@[i].0;
        assert(exists|k: int| 0 <= k < self.entries@.len() && #[trigger] self.entries@[k].0 == id);
        let k = choose|k: int| 0 <= k < self.entries@.len() && #[trigger] self.entries@[k].0 == id;
        assert(k == i);
    }

    proof fn lemma_key_at(&self, id: u64) -> (i: int)
        requires
            self.wf(),
            self@.contains_key(id),
        ensures
            0 <= i < self.entries@.len(),
            self.entries@[i] == (id, self@[id]),
    {
        let i = choose|i: int| 0 <= i < self.entries@.len() && #[trigger] self.entries@[i].0 == id;
        self.lemma_view_at(i);
        i
    }

    pub fn new() -> (r: ControlStore)
        ensures
            r.wf(),
            r@ == Map::<u64, ControlEntry>::empty(),
    {
        let r = ControlStore { entries: Vec::new() };
        assert(r@ =~= Map::<u64, ControlEntry>::empty());
        r
    }

    fn find(&self, id: u64) -> (r: Option<usize>)
        requires
            self.wf(),
        ensures
            match r {
                Some(i) => i < self.entries@.len() && self.entries@[i as int].0 == id
                    && self@.contains_key(id) && self@[id] == self.entries@[i as int].1,
                None => !self@.contains_key(id),
            },
    {
        let mut i: usize = 0;
        while i < self.entries.len()
            invariant
                self.wf(),
                i <= self.entries@.len(),
                forall|k: int| 0 <= k < i ==> #[trigger] self.entries@[k].0 != id,
            decreases self.entries@.len() - i,
        {
            if self.entries[i].0 == id {
                proof { self.lemma_view_at(i as int); }
                return Some(i);
            }
            i = i + 1;
        }
        None
    }

    /// Whether `id` holds a control.
    pub fn contains(&self, id: u64) -> (r: bool)
        requires
            self.wf(),
        ensures
            r == self@.contains_key(id),
    {
        self.find(id).is_some()
    }

    /// Adds `control` under `id`, not in use. Fails with `KeyExists`, and
    /// changes nothing, where `id` is taken.
    pub fn insert(&mut self, id: u64, control: Control) -> (r: Result<(), Error>)
        requires
            old(self).wf(),
        ensures
            final(self).wf(),
            old(self)@.contains_key(id) ==> r == Err::<(), Error>(Error::KeyExists) && final(self)@ == old(self)@,
            !old(self)@.contains_key(id) ==> r == Ok::<(), Error>(())
                && final(self)@ == old(self)@.insert(id, ControlEntry { control, uses: 0 }),
    {
        if self.find(id).is_some() {
            return Err(Error::KeyExists);
        }
        let ghost before = self@;
        let e = ControlEntry { control, uses: 0 };
        self.entries.push((id, e));
        proof {
            let n = self.entries@.len() - 1;
            assert forall|i: int| 0 <= i < n implies #[trigger] self.entries@[i] == old(self).entries@[i] by {}
            assert(self.wf());
            self.lemma_view_at(n);
            assert forall|k: u64| #[trigger] self@.contains_key(k) <==> before.insert(id, e).contains_key(k) by {
                if before.contains_key(k) {
                    let i = old(self).lemma_key_at(k);
                    assert(self.entries@[i].0 == k);
                }
                if self@.contains_key(k) && k != id {
                    let i = choose|i: int| 0 <= i < self.entries@.len() && #[trigger] self.entries@[i].0 == k;
                    assert(old(self).entries@[i].0 == k);
                }
            }
            assert forall|k: u64| #[trigger] self@.contains_key(k) implies self@[k] == before.insert(id, e)[k] by {
                if k != id {
                    let i = old(self).lemma_key_at(k);
                    self.lemma_view_at(i);
                }
            }
            assert(self@ =~= before.insert(id, e));
        }
        Ok(())
    }

    /// The control under `id`. Fails with `KeyNotFound`.
    pub fn get(&self, id: u64) -> (r: Result<Control, Error>)
        requires
            self.wf(),
        ensures
            self@.contains_key(id) ==> r == Ok::<Control, Error>(self@[id].control),
            !self@.contains_key(id) ==> r == Err::<Control, Error>(Error::KeyNotFound),
    {
        match self.find(id) {
            Some(i) => Ok(self.entries[i].1.control),
            None => Err(Error::KeyNotFound),
        }
    }

    /// The button under `id`. Fails with `KeyNotFound`, or with `BadType`
    /// where another kind of control is stored there.
    pub fn get_button(&self, id: u64) -> (r: Result<Button, Error>)
        requires
            self.wf(),
        ensures
            !self@.contains_key(id) ==> r == Err::<Button, Error>(Error::KeyNotFound),
            self@.contains_key(id) ==> match self@[id].control {
                Control::Button(b) => r == Ok::<Button, Error>(b),
                _ => r == Err::<Button, Error>(Error::BadType),
            },
    {
        match self.get(id) {
            Ok(Control::Button(b)) => Ok(b),
            Ok(_) => Err(Error::BadType),
            Err(e) => Err(e),
        }
    }

    /// The group box under `id`. Fails with `KeyNotFound`, or with `BadType`
    /// where another kind of control is stored there.
    pub fn get_group_box(&self, id: u64) -> (r: Result<GroupBox, Error>)
        requires
            self.wf(),
        ensures
            !self@.contains_key(id) ==> r == Err::<GroupBox, Error>(Error::KeyNotFound),
            self@.contains_key(id) ==> match self@[id].control {
                Control::GroupBox(g) => r == Ok::<GroupBox, Error>(g),
                _ => r == Err::<GroupBox, Error>(Error::BadType),
            },
    {
        match self.get(id) {
            Ok(Control::GroupBox(g)) => Ok(g),
            Ok(_) => Err(Error::BadType),
            Err(e) => Err(e),
        }
    }

    /// Replaces the entry under `id`, which must be there.
    fn set_entry(&mut self, id: u64, e: ControlEntry)
        requires
            old(self).wf(),
            old(self)@.contains_key(id),
        ensures
            final(self).wf(),
            final(self)@ == old(self)@.insert(id, e),
    {
        let i = self.find(id).unwrap();
        let ghost before = self@;
        self.entries.set(i, (id, e));
        proof {
            assert forall|a: int, b: int| 0 <= a < self.entries@.len() && 0 <= b < self.entries@.len() && a != b
                implies #[trigger] self.entries@[a].0 != #[trigger] self.entries@[b].0 by {
                assert(old(self).entries@[a].0 == self.entries@[a].0);
                assert(old(self).entries@[b].0 == self.entries@[b].0);
            }
            assert forall|k: u64| #[trigger] self@.contains_key(k) <==> before.insert(id, e).contains_key(k) by {
                if before.contains_key(k) {
                    let j = old(self).lemma_key_at(k);
                    assert(self.entries@[j].0 == k);
                }
                if self@.contains_key(k) {
                    let j = choose|j: int| 0 <= j < self.entries@.len() && #[trigger] self.entries@[j].0 == k;
                    assert(old(self).entries@[j].0 == k);
                    old(self).lemma_view_at(j);
                }
            }
            assert forall|k: u64| #[trigger] self@.contains_key(k) implies self@[k] == before.insert(id, e)[k] by {
                if k == id {
                    self.lemma_view_at(i as int);
                } else {
                    let j = old(self).lemma_key_at(k);
                    self.lemma_view_at(j);
                }
            }
            assert(self@ =~= before.insert(id, e));
        }
    }

    /// Marks the control under `id` as used by one more callback. Fails with
    /// `KeyNotFound`, or with `BorrowError` where the count is at its limit.
    pub fn begin_use(&mut self, id: u64) -> (r: Result<(), Error>)
        requires
            old(self).wf(),
        ensures
            final(self).wf(),
            !old(self)@.contains_key(id) ==> r == Err::<(), Error>(Error::KeyNotFound) && final(self)@ == old(self)@,
            old(self)@.contains_key(id) && old(self)@[id].uses == u32::MAX ==>
                r == Err::<(), Error>(Error::BorrowError) && final(self)@ == old(self)@,
            old(self)@.contains_key(id) && old(self)@[id].uses < u32::MAX ==> {
                &&& r == Ok::<(), Error>(())
                &&& final(self)@ == old(self)@.insert(
                    id,
                    ControlEntry { control: old(self)@[id].control, uses: (old(self)@[id].uses + 1) as u32 },
                )
            },
    {
        match self.find(id) {
            None => Err(Error::KeyNotFound),
            Some(i) => {
                let e = self.entries[i].1;
                if e.uses == u32::MAX {
                    return Err(Error::BorrowError);
                }
                self.set_entry(id, ControlEntry { control: e.control, uses: e.uses + 1 });
                Ok(())
            },
        }
    }

    /// Releases one use of the control under `id`. Fails with `KeyNotFound`,
    /// or with `BorrowError` where it is not in use.
    pub fn end_use(&mut self, id: u64) -> (r: Result<(), Error>)
        requires
            old(self).wf(),
        ensures
            final(self).wf(),
            !old(self)@.contains_key(id) ==> r == Err::<(), Error>(Error::KeyNotFound) && final(self)@ == old(self)@,
            old(self)@.contains_key(id) && old(self)@[id].uses == 0 ==>
                r == Err::<(), Error>(Error::BorrowError) && final(self)@ == old(self)@,
            old(self)@.contains_key(id) && old(self)@[id].uses > 0 ==> {
                &&& r == Ok::<(), Error>(())
                &&& final(self)@ == old(self)@.insert(
                    id,
                    ControlEntry { control: old(self)@[id].control, uses: (old(self)@[id].uses - 1) as u32 },
                )
            },
    {
        match self.find(id) {
            None => Err(Error::KeyNotFound),
            Some(i) => {
                let e = self.entries[i].1;
                if e.uses == 0 {
                    return Err(Error::BorrowError);
                }
                self.set_entry(id, ControlEntry { control: e.control, uses: e.uses - 1 });
                Ok(())
            },
        }
    }

    /// Takes the control under `id` out of the store and hands it back, for
    /// its handle to be freed. Fails with `KeyNotFound`, or with
    /// `ControlInUse` while a callback uses it; a failure changes nothing.
    pub fn remove(&mut self, id: u64) -> (r: Result<Control, Error>)
        requires
            old(self).wf(),
        ensures
            final(self).wf(),
            !old(self)@.contains_key(id) ==> r == Err::<Control, Error>(Error::KeyNotFound) && final(self)@ == old(self)@,
            old(self)@.contains_key(id) && old(self)@[id].uses > 0 ==>
                r == Err::<Control, Error>(Error::ControlInUse) && final(self)@ == old(self)@,
            old(self)@.contains_key(id) && old(self)@[id].uses == 0 ==> {
                &&& r == Ok::<Control, Error>(old(self)@[id].control)
                &&& final(self)@ == old(self)@.remove(id)
            },
    {
        match self.find(id) {
            None => Err(Error::KeyNotFound),
            Some(i) => {
                if self.entries[i].1.uses > 0 {
                    return Err(Error::ControlInUse);
                }
                let ghost before = self@;
                let (_, e) = self.entries.remove(i);
                proof {
                    let o = old(self).entries@;
                    assert forall|k: int| 0 <= k < self.entries@.len() implies
                        #[trigger] self.entries@[k] == (if k < i { o[k] } else { o[k + 1] }) by {}
                    assert forall|a: int, b: int| 0 <= a < self.entries@.len() && 0 <= b < self.entries@.len() && a != b
                        implies #[trigger] self.entries@[a].0 != #[trigger] self.entries@[b].0 by {
                        let a2 = if a < i { a } else { a + 1 };
                        let b2 = if b < i { b } else { b + 1 };
                        assert(o[a2].0 != o[b2].0);
                    }
                    assert forall|k: u64| #[trigger] self@.contains_key(k) <==> before.remove(id).contains_key(k) by {
                        if before.contains_key(k) && k != id {
                            let j = old(self).lemma_key_at(k);
                            if j < i {
                                assert(self.entries@[j].0 == k);
                            } else {
                                assert(self.entries@[j - 1].0 == k);
                            }
                        }
                        if self@.contains_key(k) {
                            let j = choose|j: int| 0 <= j < self.entries@.len() && #[trigger] self.entries@[j].0 == k;
                            if j < i {
                                assert(o[j].0 == k);
                            } else {
                                assert(o[j + 1].0 == k);
                            }
                        }
                    }
                    assert forall|k: u64| #[trigger] self@.contains_key(k) implies self@[k] == before.remove(id)[k] by {
                        let j = old(self).lemma_key_at(k);
                        if j < i {
                            self.lemma_view_at(j);
                        } else {
                            self.lemma_view_at(j - 1);
                        }
                    }
                    assert(self@ =~= before.remove(id));
                }
                Ok(e.control)
            },
        }
    }
}

} // verus!
