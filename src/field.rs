use vstd::prelude::*;

use crate::arena::{Allocation, ArenaModel};
use crate::reference::Ref;

verus! {

/// One field of the struct type `S`, named by a value of the implementing type.
///
/// A struct that supports field projection lists its fields by implementing
/// this once per field type (an enum of field names works when several fields
/// share a type). `project` and `inject` say what the field is; `get` and
/// `get_mut` reach it in place.
pub trait FieldOf<S>: Copy {
    type Value: 'static;

    /// The field's value in `s`.
    spec fn project(self, s: S) -> Self::Value;

    /// `s` with the field set to `v`.
    spec fn inject(self, s: S, v: Self::Value) -> S;

    /// Reading a field just set gives what was set.
    proof fn lemma_project_inject(self, s: S, v: Self::Value)
        ensures
            self.project(self.inject(s, v)) == v,
    ;

    fn get<'a>(&self, s: &'a S) -> (r: &'a Self::Value)
        ensures
            *r == self.project(*s),
    ;

    fn get_mut<'a>(&self, s: &'a mut S) -> (r: &'a mut Self::Value)
        ensures
            *r == self.project(*old(s)),
            *final(s) == self.inject(*old(s), *final(r)),
    ;
}

/// The field `second` of the field `first`: projection composed.
pub struct Then<F, G> {
    pub first: F,
    pub second: G,
}

impl<F: Copy, G: Copy> Clone for Then<F, G> {
    fn clone(&self) -> (r: Self)
        ensures
            r == *self,
    {
        Then { first: self.first, second: self.second }
    }
}

impl<F: Copy, G: Copy> Copy for Then<F, G> {
}

impl<S, F: FieldOf<S>, G: FieldOf<F::Value>> FieldOf<S> for Then<F, G> {
    type Value = G::Value;

    open spec fn project(self, s: S) -> G::Value {
        self.second.project(self.first.project(s))
    }

    open spec fn inject(self, s: S, v: G::Value) -> S {
        self.first.inject(s, self.second.inject(self.first.project(s), v))
    }

    proof fn lemma_project_inject(self, s: S, v: G::Value) {
        let inner = self.second.inject(self.first.project(s), v);
        self.first.lemma_project_inject(s, inner);
        self.second.lemma_project_inject(self.first.project(s), v);
    }

    fn get<'a>(&self, s: &'a S) -> (r: &'a G::Value) {
        self.second.get(self.first.get(s))
    }

    fn get_mut<'a>(&self, s: &'a mut S) -> (r: &'a mut G::Value) {
        self.second.get_mut(self.first.get_mut(s))
    }
}

/// A handle to one field of the occupant of a slot.
///
/// Its liveness is always checked against the owning slot (`gate`); `field`
/// locates the payload inside the slot's value. Projecting never creates a
/// lifetime of its own: the field handle is alive exactly when its gate is.
pub struct WideRef<S, F> {
    gate: Ref<S>,
    field: F,
}

impl<S, F: Copy> Clone for WideRef<S, F> {
    fn clone(&self) -> (r: Self)
        ensures
            r == *self,
    {
        WideRef { gate: self.gate, field: self.field }
    }
}

impl<S, F: Copy> Copy for WideRef<S, F> {
}

impl<T> Ref<T> {
    /// The handle to field `f` of this handle's occupant. No liveness check is
    /// made here: a dead handle gives a dead field handle.
    pub fn subfield<F: FieldOf<T>>(self, f: F) -> (r: WideRef<T, F>)
        ensures
            r.gate_spec() == self,
            r.field_spec() == f,
    {
        WideRef { gate: self, field: f }
    }
}

impl<S, F: FieldOf<S>> WideRef<S, F> {
    /// The handle of the owning slot.
    pub closed spec fn gate_spec(self) -> Ref<S> {
        self.gate
    }

    /// The field inside the slot's value.
    pub closed spec fn field_spec(self) -> F {
        self.field
    }

    pub open spec fn alive_in(self, m: ArenaModel<S>) -> bool {
        self.gate_spec().alive_in(m)
    }

    /// The field's value in the occupant (meaningful while alive).
    pub open spec fn value_in(self, m: ArenaModel<S>) -> F::Value {
        self.field_spec().project(m.value_at(self.gate_spec().slot() as int))
    }

    /// The arena after the field is set to `v`.
    pub open spec fn written(self, m: ArenaModel<S>, v: F::Value) -> ArenaModel<S> {
        let i = self.gate_spec().slot() as int;
        m.update(i, self.field_spec().inject(m.value_at(i), v))
    }

    pub fn field(self) -> (r: F)
        ensures
            r == self.field_spec(),
    {
        self.field
    }

    /// Liveness, checked on the slot this field lives in.
    pub fn is_alive(self, a: &Allocation<S>) -> (r: bool)
        ensures
            r == self.alive_in(a@),
    {
        self.gate.is_alive(a)
    }

    /// The handle to field `g` of this field. It shares this handle's gate.
    pub fn subfield<G: FieldOf<F::Value>>(self, g: G) -> (r: WideRef<S, Then<F, G>>)
        ensures
            r.gate_spec() == self.gate_spec(),
            r.field_spec() == (Then { first: self.field_spec(), second: g }),
    {
        WideRef { gate: self.gate, field: Then { first: self.field, second: g } }
    }

    /// A copy of the field, if the handle is alive.
    pub fn try_read(self, a: &Allocation<S>) -> (r: Option<F::Value>) where F::Value: Copy
        requires
            a.wf(),
        ensures
            r == (if self.alive_in(a@) {
                Some(self.value_in(a@))
            } else {
                None
            }),
    {
        if self.is_alive(a) {
            proof {
                a.lemma_wf_valid();
            }
            let whole = a.value_ref(self.gate.get_unchecked());
            Some(*self.field.get(whole))
        } else {
            None
        }
    }

    /// A copy of the field of a live handle.
    pub fn read(self, a: &Allocation<S>) -> (r: F::Value) where F::Value: Copy
        requires
            a.wf(),
            self.alive_in(a@),
        ensures
            r == self.value_in(a@),
    {
        proof {
            a.lemma_wf_valid();
        }
        let whole = a.value_ref(self.gate.get_unchecked());
        *self.field.get(whole)
    }

    /// Sets the field to `value` and returns its previous value, if the handle
    /// is alive; otherwise leaves the arena as it is.
    pub fn try_write(self, a: &mut Allocation<S>, value: F::Value) -> (r: Option<F::Value>)
        requires
            old(a).wf(),
        ensures
            final(a).wf(),
            r == (if self.alive_in(old(a)@) {
                Some(self.value_in(old(a)@))
            } else {
                None
            }),
            final(a)@ == if self.alive_in(old(a)@) {
                self.written(old(a)@, value)
            } else {
                old(a)@
            },
    {
        if self.is_alive(a) {
            proof {
                a.lemma_wf_valid();
            }
            let mut v = value;
            a.swap_field(self.gate.get_unchecked(), self.field, &mut v);
            Some(v)
        } else {
            None
        }
    }

    /// Sets the field of a live handle to `value` and returns its previous
    /// value.
    pub fn write(self, a: &mut Allocation<S>, value: F::Value) -> (r: F::Value)
        requires
            old(a).wf(),
            self.alive_in(old(a)@),
        ensures
            final(a).wf(),
            r == self.value_in(old(a)@),
            final(a)@ == self.written(old(a)@, value),
    {
        proof {
            a.lemma_wf_valid();
        }
        let mut v = value;
        a.swap_field(self.gate.get_unchecked(), self.field, &mut v);
        v
    }
}

} // verus!
