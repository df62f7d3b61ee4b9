use vstd::prelude::*;

use crate::arena::{Allocation, ArenaModel};
use crate::generation::EMPTY_GEN;

verus! {

/// A liveness-checked handle to the occupant of one slot of an arena.
///
/// It owns nothing: it records the slot and the generation the slot carried
/// when the handle was made, and every access compares that generation with
/// the one the slot carries now.
pub struct Ref<T> {
    gen: u64,
    slot: usize,
    marker: std::marker::PhantomData<T>,
}

impl<T> Clone for Ref<T> {
    fn clone(&self) -> (r: Self)
        ensures
            r == *self,
    {
        Ref { gen: self.gen, slot: self.slot, marker: std::marker::PhantomData }
    }
}

impl<T> Copy for Ref<T> {
}

impl<T> PartialEq for Ref<T> {
    fn eq(&self, other: &Ref<T>) -> (r: bool) {
        self.gen == other.gen && self.slot == other.slot
    }
}

impl<T> vstd::std_specs::cmp::PartialEqSpecImpl for Ref<T> {
    open spec fn obeys_eq_spec() -> bool {
        true
    }

    open spec fn eq_spec(&self, other: &Ref<T>) -> bool {
        self.generation() == other.generation() && self.slot() == other.slot()
    }
}

impl<T> Ref<T> {
    /// The generation captured when the handle was made.
    pub closed spec fn generation(self) -> u64 {
        self.gen
    }

    /// The slot the handle checks and addresses.
    pub closed spec fn slot(self) -> usize {
        self.slot
    }

    /// The handle is alive in an arena whose slot still carries its generation.
    pub open spec fn alive_in(self, m: ArenaModel<T>) -> bool {
        m.alive(self.slot() as int, self.generation())
    }

    pub(crate) fn from_parts(gen: u64, slot: usize) -> (r: Ref<T>)
        ensures
            r.generation() == gen,
            r.slot() == slot,
    {
        Ref { gen, slot, marker: std::marker::PhantomData }
    }

    /// The generation captured when the handle was made.
    pub fn captured_gen(self) -> (r: u64)
        ensures
            r == self.generation(),
    {
        self.gen
    }

    /// Whether the slot still carries the handle's generation. Safe on a dead
    /// handle and on any arena.
    pub fn is_alive(self, a: &Allocation<T>) -> (r: bool)
        ensures
            r == self.alive_in(a@),
    {
        self.gen != EMPTY_GEN && a.gen_at(self.slot) == self.gen
    }

    /// The payload locator (the slot), without checking liveness.
    pub fn get_unchecked(self) -> (r: usize)
        ensures
            r == self.slot(),
    {
        self.slot
    }

    /// The payload locator, if the handle is alive.
    pub fn try_get(self, a: &Allocation<T>) -> (r: Option<usize>)
        ensures
            r == (if self.alive_in(a@) {
                Some(self.slot())
            } else {
                None
            }),
    {
        if self.is_alive(a) {
            Some(self.get_unchecked())
        } else {
            None
        }
    }

    /// The payload locator of a live handle.
    pub fn get(self, a: &Allocation<T>) -> (r: usize)
        requires
            self.alive_in(a@),
        ensures
            r == self.slot(),
    {
        self.get_unchecked()
    }

    /// A copy of the occupant, if the handle is alive.
    pub fn try_read(self, a: &Allocation<T>) -> (r: Option<T>) where T: Copy
        requires
            a.wf(),
        ensures
            r == (if self.alive_in(a@) {
                Some(a@.value_at(self.slot() as int))
            } else {
                None
            }),
    {
        if self.is_alive(a) {
            proof {
                a.lemma_wf_valid();
            }
            Some(*a.value_ref(self.slot))
        } else {
            None
        }
    }

    /// A copy of the occupant of a live handle.
    pub fn read(self, a: &Allocation<T>) -> (r: T) where T: Copy
        requires
            a.wf(),
            self.alive_in(a@),
        ensures
            r == a@.value_at(self.slot() as int),
    {
        proof {
            a.lemma_wf_valid();
        }
        *a.value_ref(self.slot)
    }

    /// Replaces the occupant with `value` and returns the previous one, if the
    /// handle is alive; otherwise leaves the arena as it is.
    pub fn try_write(self, a: &mut Allocation<T>, value: T) -> (r: Option<T>)
        requires
            old(a).wf(),
        ensures
            final(a).wf(),
            r == (if self.alive_in(old(a)@) {
                Some(old(a)@.value_at(self.slot() as int))
            } else {
                None
            }),
            final(a)@ == if self.alive_in(old(a)@) {
                old(a)@.update(self.slot() as int, value)
            } else {
                old(a)@
            },
    {
        if self.is_alive(a) {
            proof {
                a.lemma_wf_valid();
            }
            let mut v = value;
            a.swap_value(self.slot, &mut v);
            Some(v)
        } else {
            None
        }
    }

    /// Replaces the occupant of a live handle with `value` and returns the
    /// previous one.
    pub fn write(self, a: &mut Allocation<T>, value: T) -> (r: T)
        requires
            old(a).wf(),
            self.alive_in(old(a)@),
        ensures
            final(a).wf(),
            r == old(a)@.value_at(self.slot() as int),
            final(a)@ == old(a)@.update(self.slot() as int, value),
    {
        proof {
            a.lemma_wf_valid();
        }
        let mut v = value;
        a.swap_value(self.slot, &mut v);
        v
    }

    /// Removes and returns the occupant, if the handle is alive. The slot loses
    /// its generation, so this handle and every other one to it die.
    pub fn take(self, a: &mut Allocation<T>) -> (r: Option<T>)
        requires
            old(a).wf(),
        ensures
            final(a).wf(),
            r == (if self.alive_in(old(a)@) {
                Some(old(a)@.value_at(self.slot() as int))
            } else {
                None
            }),
            final(a)@ == if self.alive_in(old(a)@) {
                old(a)@.clear(self.slot() as int)
            } else {
                old(a)@
            },
    {
        if self.is_alive(a) {
            proof {
                a.lemma_wf_valid();
            }
            a.take(self.slot)
        } else {
            None
        }
    }

    /// Drops the occupant in place, if the handle is alive, and reports whether
    /// it did. On a dead handle nothing happens: nothing is dropped twice.
    pub fn try_destroy(self, a: &mut Allocation<T>) -> (r: bool)
        requires
            old(a).wf(),
        ensures
            final(a).wf(),
            r == self.alive_in(old(a)@),
            final(a)@ == if r {
                old(a)@.clear(self.slot() as int)
            } else {
                old(a)@
            },
    {
        if self.is_alive(a) {
            a.take(self.slot);
            true
        } else {
            false
        }
    }

    /// Drops the occupant in place, if the handle is alive; a no-op otherwise.
    pub fn destroy(self, a: &mut Allocation<T>)
        requires
            old(a).wf(),
        ensures
            final(a).wf(),
            final(a)@ == if self.alive_in(old(a)@) {
                old(a)@.clear(self.slot() as int)
            } else {
                old(a)@
            },
    {
        self.try_destroy(a);
    }
}

} // verus!
