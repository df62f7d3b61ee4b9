use vstd::prelude::*;

use crate::arena::Allocation;
use crate::field::{FieldOf, WideRef};
use crate::reference::Ref;
use crate::wrapper::{RefWrapper, Struct};

verus! {

/// A plain struct of five counters, with typed field access through handles.
pub struct Example {
    pub a: u32,
    pub b: u32,
    pub c: u32,
    pub d: u32,
    pub e: u32,
}

/// The fields of `Example`.
#[derive(Clone, Copy, PartialEq, Eq, Debug)]
pub enum ExampleField {
    A,
    B,
    C,
    D,
    E,
}

impl FieldOf<Example> for ExampleField {
    type Value = u32;

    open spec fn project(self, s: Example) -> u32 {
        match self {
            ExampleField::A => s.a,
            ExampleField::B => s.b,
            ExampleField::C => s.c,
            ExampleField::D => s.d,
            ExampleField::E => s.e,
        }
    }

    open spec fn inject(self, s: Example, v: u32) -> Example {
        match self {
            ExampleField::A => Example { a: v, ..s },
            ExampleField::B => Example { b: v, ..s },
            ExampleField::C => Example { c: v, ..s },
            ExampleField::D => Example { d: v, ..s },
            ExampleField::E => Example { e: v, ..s },
        }
    }

    proof fn lemma_project_inject(self, s: Example, v: u32) {
    }

    fn get<'a>(&self, s: &'a Example) -> (r: &'a u32) {
        match self {
            ExampleField::A => &s.a,
            ExampleField::B => &s.b,
            ExampleField::C => &s.c,
            ExampleField::D => &s.d,
            ExampleField::E => &s.e,
        }
    }

    fn get_mut<'a>(&self, s: &'a mut Example) -> (r: &'a mut u32) {
        match self {
            ExampleField::A => &mut s.a,
            ExampleField::B => &mut s.b,
            ExampleField::C => &mut s.c,
            ExampleField::D => &mut s.d,
            ExampleField::E => &mut s.e,
        }
    }
}

/// A typed handle to an `Example` in an arena.
pub struct ExampleRef(pub Ref<Example>);

impl Clone for ExampleRef {
    fn clone(&self) -> (r: Self)
        ensures
            r == *self,
    {
        ExampleRef(self.0)
    }
}

impl Copy for ExampleRef {
}

impl RefWrapper for ExampleRef {
    type Pointee = Example;

    open spec fn raw_spec(self) -> Ref<Example> {
        self.0
    }

    fn from_raw(raw: Ref<Example>) -> (r: Self) {
        ExampleRef(raw)
    }

    fn raw(self) -> (r: Ref<Example>) {
        self.0
    }
}

impl Struct for Example {
    type Wrapper = ExampleRef;
}

impl ExampleRef {
    /// The handle to field `f`; it lives exactly as long as this handle.
    pub fn field_ref(self, f: ExampleField) -> (r: WideRef<Example, ExampleField>)
        ensures
            r.gate_spec() == self.0,
            r.field_spec() == f,
    {
        self.0.subfield(f)
    }

    /// The value of field `f`.
    pub fn get(self, a: &Allocation<Example>, f: ExampleField) -> (r: u32)
        requires
            a.wf(),
            self.0.alive_in(a@),
        ensures
            r == f.project(a@.value_at(self.0.slot() as int)),
    {
        self.field_ref(f).read(a)
    }

    /// Sets field `f` to `v`.
    pub fn set(self, a: &mut Allocation<Example>, f: ExampleField, v: u32)
        requires
            old(a).wf(),
            self.0.alive_in(old(a)@),
        ensures
            final(a).wf(),
            final(a)@ == old(a)@.update(
                self.0.slot() as int,
                f.inject(old(a)@.value_at(self.0.slot() as int), v),
            ),
    {
        self.field_ref(f).write(a, v);
    }

    /// Adds one to every field. No field may be at its maximum.
    pub fn increment(self, a: &mut Allocation<Example>)
        requires
            old(a).wf(),
            self.0.alive_in(old(a)@),
            ({
                let s = old(a)@.value_at(self.0.slot() as int);
                s.a < u32::MAX && s.b < u32::MAX && s.c < u32::MAX && s.d < u32::MAX && s.e
                    < u32::MAX
            }),
        ensures
            final(a).wf(),
            ({
                let s = old(a)@.value_at(self.0.slot() as int);
                final(a)@ == old(a)@.update(
                    self.0.slot() as int,
                    Example {
                        a: (s.a + 1) as u32,
                        b: (s.b + 1) as u32,
                        c: (s.c + 1) as u32,
                        d: (s.d + 1) as u32,
                        e: (s.e + 1) as u32,
                    },
                )
            }),
    {
        let ghost i = self.0.slot() as int;
        let ghost start = a@;
        proof {
            a.lemma_wf_valid();
        }
        let v = self.get(a, ExampleField::A);
        self.set(a, ExampleField::A, v + 1);
        let v = self.get(a, ExampleField::B);
        self.set(a, ExampleField::B, v + 1);
        let v = self.get(a, ExampleField::C);
        self.set(a, ExampleField::C, v + 1);
        let v = self.get(a, ExampleField::D);
        self.set(a, ExampleField::D, v + 1);
        let v = self.get(a, ExampleField::E);
        self.set(a, ExampleField::E, v + 1);
        proof {
            let s = start.value_at(i);
            let expected = start.update(
                i,
                Example {
                    a: (s.a + 1) as u32,
                    b: (s.b + 1) as u32,
                    c: (s.c + 1) as u32,
                    d: (s.d + 1) as u32,
                    e: (s.e + 1) as u32,
                },
            );
            assert(a@.slots =~= expected.slots);
        }
    }
}

} // verus!
