use vstd::prelude::*;
use crate::error::Error;

verus! {

/// An opaque platform handle, as the registry's reverse-lookup key.
#[derive(Clone, Copy, Debug, PartialEq, Eq, Structural)]
pub enum AnyHandle {
    /// A window handle.
    Window(usize),
    /// An item of a menu: the menu's handle and the item's identifier.
    MenuItem(usize, u32),
    /// A handle of a custom kind: a kind tag and a value.
    Custom(u64, usize),
}

/// No handle is bound to two identifiers.
pub open spec fn injective(m: Map<u64, AnyHandle>) -> bool {
    forall|a: u64, b: u64|
        m.contains_key(a) && m.contains_key(b) && #[trigger] m[a] == #[trigger] m[b] ==> a == b
}

/// The identifier that `h` is bound to in `m`, if any.
pub open spec fn resolves(m: Map<u64, AnyHandle>, h: AnyHandle, r: Option<u64>) -> bool {
    match r {
        Some(id) => m.contains_key(id) && m[id] == h,
        None => forall|id: u64| m.contains_key(id) ==> m[id] != h,
    }
}

/// Maps logical identifiers to platform handles, and back.
pub struct HandleRegistry {
    entries: Vec<(u64, AnyHandle)>,
}

impl View for HandleRegistry {
    type V = Map<u64, AnyHandle>;

    closed spec fn view(&self) -> Map<u64, AnyHandle> {
        Map::new(
            |id: u64| exists|i: int| 0 <= i < self.entries@.len() && #[trigger] self.entries@[i].0 == id,
            |id: u64| self.entries@[choose|i: int| 0 <= i < self.entries@.len() && #[trigger] self.entries@[i].0 == id].1,
        )
    }
}

impl HandleRegistry {
    /// Identifiers and handles are each unique among the entries.
    pub closed spec fn wf(&self) -> bool {
        forall|i: int, j: int|
            0 <= i < self.entries@.len() && 0 <= j < self.entries@.len() && i != j ==> {
                &&& #[trigger] self.entries@[i].0 != #[trigger] self.entries@[j].0
                &&& self.entries@[i].1 != self.entries@[j].1
            }
    }

    proof fn lemma_view_at(&self, i: int)
        requires
            self.wf(),
            0 <= i < self.entries@.len(),
        ensures
            self@.contains_key(self.entries@[i].0),
            self@[self.entries@[i].0] == self.entries@[i].1,
    {
        let id = self.entries@[i].0;
        assert(exists|k: int| 0 <= k < self.entries@.len() && #[trigger] self.entries@[k].0 == id);
        let k = choose|k: int| 0 <= k < self.entries@.len() && #[trigger] self.entries@[k].0 == id;
        assert(k == i);
    }

    proof fn lemma_view_wf(&self)
        requires
            self.wf(),
        ensures
            injective(self@),
            forall|id: u64| #[trigger] self@.contains_key(id) ==>
                exists|i: int| 0 <= i < self.entries@.len() && self.entries@[i] == (id, self@[id]),
    {
        assert forall|id: u64| #[trigger] self@.contains_key(id) implies
            exists|i: int| 0 <= i < self.entries@.len() && self.entries@[i] == (id, self@[id]) by {
            let i = choose|i: int| 0 <= i < self.entries@.len() && #[trigger] self.entries@[i].0 == id;
            self.lemma_view_at(i);
        }
        assert forall|a: u64, b: u64|
            self@.contains_key(a) && self@.contains_key(b) && #[trigger] self@[a] == #[trigger] self@[b]
            implies a == b by {
            let i = choose|i: int| 0 <= i < self.entries@.len() && #[trigger] self.entries@[i].0 == a;
            let j = choose|j: int| 0 <= j < self.entries@.len() && #[trigger] self.entries@[j].0 == b;
            self.lemma_view_at(i);
            self.lemma_view_at(j);
        }
    }

    /// An empty registry.
    pub fn new() -> (r: HandleRegistry)
        ensures
            r.wf(),
            r@ == Map::<u64, AnyHandle>::empty(),
    {
        let r = HandleRegistry { entries: Vec::new() };
        assert(r@ =~= Map::<u64, AnyHandle>::empty());
        r
    }

    /// Index of the entry of `id`, if any.
    fn find_id(&self, id: u64) -> (r: Option<usize>)
        requires
            self.wf(),
        ensures
            match r {
                Some(i) => i < self.entries@.len() && self.entries@[i as int].0 == id,
                None => !self@.contains_key(id),
            },
    {
        let mut i: usize = 0;
        while i < self.entries.len()
            invariant
                i <= self.entries@.len(),
                forall|k: int| 0 <= k < i ==> #[trigger] self.entries@[k].0 != id,
            decreases self.entries@.len() - i,
        {
            if self.entries[i].0 == id {
                return Some(i);
            }
            i = i + 1;
        }
        None
    }

    /// Index of the entry of `handle`, if any.
    fn find_handle(&self, handle: &AnyHandle) -> (r: Option<usize>)
        requires
            self.wf(),
        ensures
            match r {
                Some(i) => i < self.entries@.len() && self.entries@[i as int].1 == *handle,
                None => forall|k: int| 0 <= k < self.entries@.len() ==> #[trigger] self.entries@[k].1 != *handle,
            },
    {
        let mut i: usize = 0;
        while i < self.entries.len()
            invariant
                i <= self.entries@.len(),
                forall|k: int| 0 <= k < i ==> #[trigger] self.entries@[k].1 != *handle,
            decreases self.entries@.len() - i,
        {
            if self.entries[i].1 == *handle {
                return Some(i);
            }
            i = i + 1;
        }
        None
    }

    /// The identifier bound to `handle`, if any.
    pub fn resolve(&self, handle: &AnyHandle) -> (r: Option<u64>)
        requires
            self.wf(),
        ensures
            resolves(self@, *handle, r),
    {
        proof { self.lemma_view_wf(); }
        match self.find_handle(handle) {
            Some(i) => {
                proof { self.lemma_view_at(i as int); }
                Some(self.entries[i].0)
            },
            None => None,
        }
    }

    /// The handle bound to `id`, if any.
    pub fn handle_of(&self, id: u64) -> (r: Option<AnyHandle>)
        requires
            self.wf(),
        ensures
            r == (if self@.contains_key(id) { Some(self@[id]) } else { None::<AnyHandle> }),
    {
        match self.find_id(id) {
            Some(i) => {
                proof { self.lemma_view_at(i as int); }
                Some(self.entries[i].1)
            },
            None => None,
        }
    }

    /// Binds `id` to `handle`. Fails with `KeyExists`, and changes nothing,
    /// where the identifier or the handle is already bound.
    pub fn register(&mut self, id: u64, handle: AnyHandle) -> (r: Result<(), Error>)
        requires
            old(self).wf(),
        ensures
            final(self).wf(),
            injective(final(self)@),
            old(self)@.contains_key(id) || old(self)@.values().contains(handle) ==> {
                &&& r == Err::<(), Error>(Error::KeyExists)
                &&& final(self)@ == old(self)@
            },
            !(old(self)@.contains_key(id) || old(self)@.values().contains(handle)) ==> {
                &&& r == Ok::<(), Error>(())
                &&& final(self)@ == old(self)@.insert(id, handle)
            },
    {
        proof { self.lemma_view_wf(); }
        if self.find_id(id).is_some() {
            return Err(Error::KeyExists);
        }
        match self.find_handle(&handle) {
            Some(i) => {
                proof {
                    self.lemma_view_at(i as int);
                    assert(self@.values().contains(handle));
                }
                return Err(Error::KeyExists);
            },
            None => {},
        }
        proof {
            assert(!self@.values().contains(handle)) by {
                if self@.values().contains(handle) {
                    let k = choose|k: u64| self@.contains_key(k) && #[trigger] self@[k] == handle;
                    let i = choose|i: int| 0 <= i < self.entries@.len() && self.entries@[i] == (k, self@[k]);
                    assert(self.entries@[i].1 == handle);
                }
            }
        }
        let ghost before = self@;
        self.entries.push((id, handle));
        proof {
            let n = self.entries@.len() - 1;
            assert forall|i: int| 0 <= i < n implies #[trigger] self.entries@[i] == old(self).entries@[i] by {}
            assert(self.wf());
            self.lemma_view_at(n);
            assert forall|k: u64| #[trigger] self@.contains_key(k) <==> before.insert(id, handle).contains_key(k) by {
                if before.contains_key(k) {
                    let i = choose|i: int| 0 <= i < old(self).entries@.len() && old(self).entries@[i] == (k, before[k]);
                    assert(self.entries@[i].0 == k);
                }
                if self@.contains_key(k) && k != id {
                    let i = choose|i: int| 0 <= i < self.entries@.len() && #[trigger] self.entries@[i].0 == k;
                    assert(i < n);
                    assert(old(self).entries@[i].0 == k);
                }
            }
            assert forall|k: u64| #[trigger] self@.contains_key(k) implies self@[k] == before.insert(id, handle)[k] by {
                if k != id {
                    let i = choose|i: int| 0 <= i < old(self).entries@.len() && old(self).entries@[i] == (k, before[k]);
                    self.lemma_view_at(i);
                }
            }
            assert(self@ =~= before.insert(id, handle));
            self.lemma_view_wf();
        }
        Ok(())
    }
    /// Removes `id` and its handle, in both directions. Fails with
    /// `KeyNotFound`, and changes nothing, where `id` is not bound.
    pub fn unregister(&mut self, id: u64) -> (r: Result<AnyHandle, Error>)
        requires
            old(self).wf(),
        ensures
            final(self).wf(),
            injective(final(self)@),
            old(self)@.contains_key(id) ==> {
                &&& r == Ok::<AnyHandle, Error>(old(self)@[id])
                &&& final(self)@ == old(self)@.remove(id)
            },
            !old(self)@.contains_key(id) ==> {
                &&& r == Err::<AnyHandle, Error>(Error::KeyNotFound)
                &&& final(self)@ == old(self)@
            },
    {
        proof { self.lemma_view_wf(); }
        match self.find_id(id) {
            None => Err(Error::KeyNotFound),
            Some(i) => {
                proof { self.lemma_view_at(i as int); }
                let ghost before = self@;
                let (_, handle) = self.entries.remove(i);
                proof {
                    let o = old(self).entries@;
                    assert forall|k: int| 0 <= k < self.entries@.len() implies
                        #[trigger] self.entries@[k] == (if k < i { o[k] } else { o[k + 1] }) by {}
                    assert forall|a: int, b: int|
                        0 <= a < self.entries@.len() && 0 <= b < self.entries@.len() && a != b implies {
                            &&& #[trigger] self.entries@[a].0 != #[trigger] self.entries@[b].0
                            &&& self.entries@[a].1 != self.entries@[b].1
                        } by {
                        let a2 = if a < i { a } else { a + 1 };
                        let b2 = if b < i { b } else { b + 1 };
                        assert(o[a2].0 != o[b2].0);
                    }
                    assert(self.wf());
                    assert forall|k: u64| #[trigger] self@.contains_key(k) <==> before.remove(id).contains_key(k) by {
                        if before.contains_key(k) && k != id {
                            let j = choose|j: int| 0 <= j < o.len() && o[j] == (k, before[k]);
                            assert(j != i);
                            if j < i {
                                assert(self.entries@[j].0 == k);
                            } else {
                                assert(self.entries@[j - 1].0 == k);
                            }
                        }
                        if self@.contains_key(k) {
                            let j = choose|j: int| 0 <= j < self.entries@.len() && #[trigger] self.entries@[j].0 == k;
                            if j < i {
                                assert(o[j].0 == k);
                            } else {
                                assert(o[j + 1].0 == k);
                            }
                        }
                    }
                    assert forall|k: u64| #[trigger] self@.contains_key(k) implies self@[k] == before.remove(id)[k] by {
                        let j = choose|j: int| 0 <= j < o.len() && o[j] == (k, before[k]);
                        if j < i {
                            self.lemma_view_at(j);
                        } else {
                            self.lemma_view_at(j - 1);
                        }
                    }
                    assert(self@ =~= before.remove(id));
                    self.lemma_view_wf();
                }
                Ok(handle)
            },
        }
    }
}

/// Once `id` is unregistered, the handle it was bound to resolves to nothing,
/// whatever sequence of registrations came before.
pub proof fn lemma_unregister_forgets(m: Map<u64, AnyHandle>, id: u64)
    requires
        injective(m),
        m.contains_key(id),
    ensures
        resolves(m.remove(id), m[id], None),
{
}

/// After `id` is bound to `h`, `h` resolves to `id`, so a second
/// registration of `h` under any identifier is refused.
pub proof fn lemma_second_registration_refused(m: Map<u64, AnyHandle>, id: u64, h: AnyHandle)
    requires
        injective(m),
        !m.contains_key(id),
        !m.values().contains(h),
    ensures
        injective(m.insert(id, h)),
        m.insert(id, h).values().contains(h),
        resolves(m.insert(id, h), h, Some(id)),
{
    assert(m.insert(id, h).contains_key(id));
    assert forall|a: u64, b: u64|
        m.insert(id, h).contains_key(a) && m.insert(id, h).contains_key(b)
            && #[trigger] m.insert(id, h)[a] == #[trigger] m.insert(id, h)[b] implies a == b by {
        if a != id && m.insert(id, h)[a] == h {
            assert(m.values().contains(m[a]));
        }
        if b != id && m.insert(id, h)[b] == h {
            assert(m.values().contains(m[b]));
        }
    }
}

} // verus!
