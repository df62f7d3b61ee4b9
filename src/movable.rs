use vstd::prelude::*;

use crate::arena::Allocation;
use crate::reference::Ref;
use crate::wrapper::{RefWrapper, Struct};

verus! {

/// A handle whose payload locator can be rewritten, for an occupant that may
/// be moved to another slot while keeping its generation.
///
/// A move is a `take` from the old slot followed by `put_with_gen` of the same
/// generation into the new one; the arena's index then finds the new slot.
pub struct MovableRef<T> {
    target: Ref<T>,
}

impl<T> Clone for MovableRef<T> {
    fn clone(&self) -> (r: Self)
        ensures
            r == *self,
    {
        MovableRef { target: self.target }
    }
}

impl<T> MovableRef<T> {
    /// The handle as last recorded, stale or not.
    pub closed spec fn target_spec(&self) -> Ref<T> {
        self.target
    }

    pub fn new(target: Ref<T>) -> (r: MovableRef<T>)
        ensures
            r.target_spec() == target,
    {
        MovableRef { target }
    }

    /// The recorded handle, without any check.
    pub fn force_resolve_prim(&self) -> (r: Ref<T>)
        ensures
            r == self.target_spec(),
    {
        self.target
    }

    /// The recorded handle, without any check, in its type's wrapper.
    pub fn force_resolve(&self) -> (r: T::Wrapper) where T: Struct
        ensures
            r.raw_spec() == self.target_spec(),
    {
        self.force_resolve_prim().wrap()
    }

    /// A live handle to the occupant carrying this handle's generation, if one
    /// is still in the arena.
    ///
    /// If the recorded handle is alive it is returned as it is. Otherwise the
    /// arena's index is asked where the generation lives now; if it lives
    /// somewhere, the locator is rewritten to that slot and the repaired handle
    /// returned. A generation that no slot carries reports `None`.
    pub fn repair_resolve_prim(&mut self, a: &Allocation<T>) -> (r: Option<Ref<T>>)
        requires
            a.wf(),
        ensures
            old(self).target_spec().alive_in(a@) ==> r == Some(old(self).target_spec()),
            r.is_some() ==> r.unwrap().alive_in(a@) && r.unwrap().generation() == old(
                self,
            ).target_spec().generation() && final(self).target_spec() == r.unwrap(),
            r.is_none() ==> forall|i: int| !a@.alive(i, old(self).target_spec().generation()),
            r.is_none() ==> *final(self) == *old(self),
    {
        let current = self.force_resolve_prim();
        if current.is_alive(a) {
            return Some(current);
        }
        match a.lookup(current.captured_gen()) {
            Some(slot) => {
                let repaired = Ref::from_parts(current.captured_gen(), slot);
                self.target = repaired;
                Some(repaired)
            },
            None => None,
        }
    }

    /// `repair_resolve_prim`, with the handle in its type's wrapper.
    pub fn repair_resolve(&mut self, a: &Allocation<T>) -> (r: Option<T::Wrapper>) where T: Struct
        requires
            a.wf(),
        ensures
            old(self).target_spec().alive_in(a@) ==> r.is_some() && r.unwrap().raw_spec()
                == old(self).target_spec(),
            r.is_some() ==> r.unwrap().raw_spec().alive_in(a@)
                && r.unwrap().raw_spec().generation() == old(self).target_spec().generation()
                && final(self).target_spec() == r.unwrap().raw_spec(),
            r.is_none() ==> forall|i: int| !a@.alive(i, old(self).target_spec().generation()),
            r.is_none() ==> *final(self) == *old(self),
    {
        match self.repair_resolve_prim(a) {
            Some(found) => Some(found.wrap()),
            None => None,
        }
    }
}

} // verus!
