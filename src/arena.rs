use vstd::prelude::*;

use crate::field::FieldOf;
use crate::generation::{GenAllocator, EMPTY_GEN, START_GEN};
use crate::index::{index_entries, GenIndex};
use crate::reference::Ref;

verus! {

/// One storage cell: the generation it currently carries and its occupant.
///
/// A slot whose generation is `EMPTY_GEN` holds nothing; any other generation
/// comes with a value.
pub struct Generational<T> {
    pub gen: u64,
    pub value: Option<T>,
}

impl<T> Generational<T> {
    /// The generation is empty exactly when there is no value.
    pub open spec fn wf(&self) -> bool {
        (self.gen == EMPTY_GEN) == self.value.is_none()
    }

    pub open spec fn empty_spec() -> Generational<T> {
        Generational { gen: EMPTY_GEN, value: None }
    }

    pub fn new_empty() -> (r: Generational<T>)
        ensures
            r == Generational::<T>::empty_spec(),
    {
        Generational { gen: EMPTY_GEN, value: None }
    }

    pub fn is_full(&self) -> (r: bool)
        ensures
            r == (self.gen != EMPTY_GEN),
    {
        self.gen != EMPTY_GEN
    }

    pub fn gen(&self) -> (r: u64)
        ensures
            r == self.gen,
    {
        self.gen
    }

    /// Puts `value` (a generation and an occupant) in the slot, or empties it
    /// when `value` is `None`, and hands back the previous occupant. An empty
    /// slot hands back nothing; a value never goes in under `EMPTY_GEN`.
    pub fn replace(&mut self, value: Option<(u64, T)>) -> (r: Option<T>)
        requires
            old(self).wf(),
            value.is_some() ==> value.unwrap().0 != EMPTY_GEN,
        ensures
            final(self).wf(),
            r == old(self).value,
            old(self).gen == EMPTY_GEN ==> r.is_none(),
            *final(self) == (match value {
                Some((g, v)) => Generational { gen: g, value: Some(v) },
                None => Generational::<T>::empty_spec(),
            }),
    {
        let mut previous: Option<T> = None;
        std::mem::swap(&mut previous, &mut self.value);
        match value {
            Some((g, v)) => {
                self.gen = g;
                self.value = Some(v);
            },
            None => {
                self.gen = EMPTY_GEN;
            },
        }
        previous
    }
}

/// What an arena holds, as Verus reasons about it: its slots in order and the
/// largest generation its counter has issued or seen.
pub struct ArenaModel<T> {
    pub slots: Seq<Generational<T>>,
    pub last_gen: u64,
}

impl<T> ArenaModel<T> {
    /// Every slot is consistent, no slot carries a generation the counter could
    /// still issue, and no generation is carried by two occupied slots.
    pub open spec fn valid(self) -> bool {
        &&& self.last_gen >= START_GEN
        &&& forall|i: int|
            0 <= i < self.slots.len() ==> (#[trigger] self.slots[i]).wf() && self.slots[i].gen
                <= self.last_gen
        &&& forall|i: int, j: int|
            #![trigger self.slots[i], self.slots[j]]
            0 <= i < self.slots.len() && 0 <= j < self.slots.len() && i != j
                && self.slots[i].gen != EMPTY_GEN ==> self.slots[i].gen != self.slots[j].gen
    }

    /// Slot `i` exists and currently carries the (non-empty) generation `g`.
    pub open spec fn alive(self, i: int, g: u64) -> bool {
        &&& 0 <= i < self.slots.len()
        &&& g != EMPTY_GEN
        &&& self.slots[i].gen == g
    }

    pub open spec fn occupied(self, i: int) -> bool {
        0 <= i < self.slots.len() && self.slots[i].value.is_some()
    }

    /// The occupant of slot `i` (meaningful when the slot is occupied).
    pub open spec fn value_at(self, i: int) -> T {
        self.slots[i].value.unwrap()
    }

    /// No slot other than `i` carries generation `g`.
    pub open spec fn gen_free_for(self, i: int, g: u64) -> bool {
        forall|j: int| 0 <= j < self.slots.len() && j != i ==> #[trigger] self.slots[j].gen != g
    }

    /// Slot `i` holds `v` under generation `g`; the counter moves past `g`.
    pub open spec fn occupy(self, i: int, g: u64, v: T) -> ArenaModel<T> {
        ArenaModel {
            slots: self.slots.update(i, Generational { gen: g, value: Some(v) }),
            last_gen: if g > self.last_gen {
                g
            } else {
                self.last_gen
            },
        }
    }

    /// The generation the next `put` issues.
    pub open spec fn next_gen(self) -> u64 {
        (self.last_gen + 1) as u64
    }

    /// Slot `i` holds `v` under a freshly issued generation.
    pub open spec fn put(self, i: int, v: T) -> ArenaModel<T> {
        self.occupy(i, self.next_gen(), v)
    }

    /// Slot `i` is emptied; its generation is gone.
    pub open spec fn clear(self, i: int) -> ArenaModel<T> {
        ArenaModel { slots: self.slots.update(i, Generational::<T>::empty_spec()), ..self }
    }

    /// Slot `i` keeps its generation and now holds `v`.
    pub open spec fn update(self, i: int, v: T) -> ArenaModel<T> {
        ArenaModel {
            slots: self.slots.update(i, Generational { gen: self.slots[i].gen, value: Some(v) }),
            ..self
        }
    }

    /// Every occupant is dropped and the storage is released.
    pub open spec fn release(self) -> ArenaModel<T> {
        ArenaModel { slots: Seq::empty(), ..self }
    }
}

/// An arena: a fixed number of slots, the generation counter that tags what is
/// put in them, and an index from each live generation to its slot.
///
/// The arena owns every occupant. References into it are plain values that
/// are checked against it on every use.
pub struct Allocation<T> {
    slots: Vec<Generational<T>>,
    gens: GenAllocator,
    index: GenIndex,
}

impl<T> View for Allocation<T> {
    type V = ArenaModel<T>;

    closed spec fn view(&self) -> ArenaModel<T> {
        ArenaModel { slots: self.slots@, last_gen: self.gens.last_spec() }
    }
}

impl<T> Allocation<T> {
    /// The model is valid and the index lists exactly the occupied slots.
    pub closed spec fn wf(&self) -> bool {
        &&& self@.valid()
        &&& forall|g: u64| #[trigger]
            index_entries(self.index).contains_key(g) ==> {
                let i = index_entries(self.index)[g];
                &&& g != EMPTY_GEN
                &&& i < self.slots@.len()
                &&& self.slots@[i as int].gen == g
            }
        &&& forall|i: int|
            0 <= i < self.slots@.len() && #[trigger] self.slots@[i].gen != EMPTY_GEN
                ==> index_entries(self.index).contains_key(self.slots@[i].gen)
                && index_entries(self.index)[self.slots@[i].gen] == i
    }

    /// A well-formed arena has a valid model.
    pub proof fn lemma_wf_valid(&self)
        requires
            self.wf(),
        ensures
            self@.valid(),
    {
    }

    /// An arena of `len` empty slots.
    pub fn new(len: usize) -> (r: Allocation<T>)
        ensures
            r.wf(),
            r@.slots.len() == len,
            r@.last_gen == START_GEN,
            forall|i: int| 0 <= i < len ==> r@.slots[i] == Generational::<T>::empty_spec(),
    {
        let mut slots: Vec<Generational<T>> = Vec::new();
        let mut k: usize = 0;
        while k < len
            invariant
                k <= len,
                slots@.len() == k,
                forall|i: int| 0 <= i < k ==> slots@[i] == Generational::<T>::empty_spec(),
            decreases len - k,
        {
            slots.push(Generational::new_empty());
            k = k + 1;
        }
        let r = Allocation { slots, gens: GenAllocator::new(), index: GenIndex::new() };
        assert(r@.valid());
        r
    }

    /// Puts `value` (with generation `value.0`) in slot `index`, or empties the
    /// slot; keeps the index in step and hands back the previous occupant.
    fn replace(&mut self, index: usize, value: Option<(u64, T)>) -> (r: Option<T>)
        requires
            old(self).wf(),
            index < old(self)@.slots.len(),
            value.is_some() ==> value.unwrap().0 != EMPTY_GEN && old(self)@.gen_free_for(
                index as int,
                value.unwrap().0,
            ),
        ensures
            final(self).wf(),
            r == old(self)@.slots[index as int].value,
            final(self)@ == if value.is_some() {
                old(self)@.occupy(index as int, value.unwrap().0, value.unwrap().1)
            } else {
                old(self)@.clear(index as int)
            },
    {
        let ghost before = self@;
        let mut slot = Generational::new_empty();
        self.slots.set_and_swap(index, &mut slot);
        if slot.is_full() {
            self.index.remove(slot.gen);
        }
        let ghost mid = index_entries(self.index);
        assert(forall|g: u64| #[trigger] mid.contains_key(g) ==> mid[g] != index);
        match &value {
            Some((g, _)) => {
                self.index.insert(*g, index);
                self.gens.observe(*g);
            },
            None => {},
        }
        let previous = slot.replace(value);
        self.slots.set(index, slot);
        proof {
            let after = self@;
            let expected = if value.is_some() {
                before.occupy(index as int, value.unwrap().0, value.unwrap().1)
            } else {
                before.clear(index as int)
            };
            assert(after.slots =~= expected.slots);
            assert(forall|i: int|
                0 <= i < after.slots.len() && i != index ==> after.slots[i] == before.slots[i]);
        }
        previous
    }

    /// Puts `value` in slot `index` under the caller's generation `gen`,
    /// dropping any previous occupant, and returns a live reference to it.
    ///
    /// The generation must not be carried by any slot, this one included:
    /// reusing a registered generation is a fatal error. The counter is moved
    /// past it so that it is never issued afterwards.
    pub fn put_with_gen(&mut self, index: usize, gen: u64, value: T) -> (r: Ref<T>)
        requires
            old(self).wf(),
            index < old(self)@.slots.len(),
            gen != EMPTY_GEN,
            old(self)@.gen_free_for(index as int, gen),
            old(self)@.slots[index as int].gen != gen,
        ensures
            final(self).wf(),
            final(self)@ == old(self)@.occupy(index as int, gen, value),
            r.generation() == gen,
            r.slot() == index,
            r.alive_in(final(self)@),
    {
        self.replace(index, Some((gen, value)));
        Ref::from_parts(gen, index)
    }

    /// Puts `value` in slot `index` under a freshly issued generation,
    /// dropping any previous occupant, and returns a live reference to it.
    pub fn put(&mut self, index: usize, value: T) -> (r: Ref<T>)
        requires
            old(self).wf(),
            index < old(self)@.slots.len(),
            old(self)@.last_gen < u64::MAX,
        ensures
            final(self).wf(),
            final(self)@ == old(self)@.put(index as int, value),
            r.generation() == old(self)@.next_gen(),
            r.slot() == index,
            r.alive_in(final(self)@),
    {
        let gen = self.gens.gen();
        self.replace(index, Some((gen, value)));
        Ref::from_parts(gen, index)
    }

    /// Removes and returns the occupant of slot `index`, if any. The slot's
    /// generation is dropped, so every reference to it is dead afterwards.
    pub fn take(&mut self, index: usize) -> (r: Option<T>)
        requires
            old(self).wf(),
            index < old(self)@.slots.len(),
        ensures
            final(self).wf(),
            r == old(self)@.slots[index as int].value,
            final(self)@ == old(self)@.clear(index as int),
    {
        self.replace(index, None)
    }

    /// A fresh live reference to the occupant of slot `index`, if there is one.
    pub fn try_get(&self, index: usize) -> (r: Option<Ref<T>>)
        requires
            self.wf(),
            index < self@.slots.len(),
        ensures
            r.is_some() == self@.occupied(index as int),
            r.is_some() ==> r.unwrap().slot() == index && r.unwrap().generation()
                == self@.slots[index as int].gen && r.unwrap().alive_in(self@),
    {
        let slot = &self.slots[index];
        if slot.is_full() {
            Some(Ref::from_parts(slot.gen(), index))
        } else {
            None
        }
    }

    /// A fresh live reference to the occupant of slot `index`, which must be
    /// occupied.
    pub fn get(&self, index: usize) -> (r: Ref<T>)
        requires
            self.wf(),
            self@.occupied(index as int),
        ensures
            r.slot() == index,
            r.generation() == self@.slots[index as int].gen,
            r.alive_in(self@),
    {
        let slot = &self.slots[index];
        Ref::from_parts(slot.gen(), index)
    }

    /// The number of slots.
    pub fn len(&self) -> (r: usize)
        ensures
            r == self@.slots.len(),
    {
        self.slots.len()
    }

    /// Drops every occupant and releases the slots. Every reference issued
    /// from this arena is dead afterwards, and stays dead: no slot is left to
    /// put anything in.
    pub fn dealloc(&mut self)
        requires
            old(self).wf(),
        ensures
            final(self).wf(),
            final(self)@ == old(self)@.release(),
    {
        self.index.clear();
        self.slots = Vec::new();
        assert(self@.slots =~= Seq::<Generational<T>>::empty());
    }

    /// The generation slot `index` carries, or `EMPTY_GEN` past the end.
    pub(crate) fn gen_at(&self, index: usize) -> (r: u64)
        ensures
            r == if index < self@.slots.len() {
                self@.slots[index as int].gen
            } else {
                EMPTY_GEN
            },
    {
        if index < self.slots.len() {
            self.slots[index].gen
        } else {
            EMPTY_GEN
        }
    }

    /// The slot that currently carries generation `g`, found through the
    /// arena's index; `None` when no slot carries it.
    pub fn lookup(&self, g: u64) -> (r: Option<usize>)
        requires
            self.wf(),
        ensures
            r.is_some() ==> self@.alive(r.unwrap() as int, g),
            r.is_none() ==> forall|i: int| !self@.alive(i, g),
    {
        let r = self.index.get(g);
        proof {
            if r.is_none() {
                assert forall|i: int| !self@.alive(i, g) by {
                    if self@.alive(i, g) {
                        assert(self.slots@[i].gen != EMPTY_GEN);
                    }
                }
            }
        }
        r
    }

    /// The occupant of slot `index`, which must be occupied.
    pub(crate) fn value_ref(&self, index: usize) -> (r: &T)
        requires
            self@.occupied(index as int),
        ensures
            *r == self@.value_at(index as int),
    {
        self.slots[index].value.as_ref().unwrap()
    }

    /// Swaps the occupant of slot `index` with `v`; the slot keeps its
    /// generation.
    pub(crate) fn swap_value(&mut self, index: usize, v: &mut T)
        requires
            old(self).wf(),
            old(self)@.occupied(index as int),
        ensures
            final(self).wf(),
            *final(v) == old(self)@.value_at(index as int),
            final(self)@ == old(self)@.update(index as int, *old(v)),
    {
        let ghost before = self@;
        let mut slot = Generational::new_empty();
        self.slots.set_and_swap(index, &mut slot);
        let mut inner = slot.value.unwrap();
        std::mem::swap(&mut inner, v);
        self.slots.set(index, Generational { gen: slot.gen, value: Some(inner) });
        proof {
            assert(self@.slots =~= before.update(index as int, *old(v)).slots);
            assert(forall|i: int|
                0 <= i < self@.slots.len() && i != index ==> self@.slots[i] == before.slots[i]);
        }
    }

    /// Swaps field `f` of the occupant of slot `index` with `v`; the slot
    /// keeps its generation.
    pub(crate) fn swap_field<F: FieldOf<T>>(&mut self, index: usize, f: F, v: &mut F::Value)
        requires
            old(self).wf(),
            old(self)@.occupied(index as int),
        ensures
            final(self).wf(),
            *final(v) == f.project(old(self)@.value_at(index as int)),
            final(self)@ == old(self)@.update(
                index as int,
                f.inject(old(self)@.value_at(index as int), *old(v)),
            ),
    {
        let ghost before = self@;
        let mut slot = Generational::new_empty();
        self.slots.set_and_swap(index, &mut slot);
        let mut inner = slot.value.unwrap();
        std::mem::swap(f.get_mut(&mut inner), v);
        self.slots.set(index, Generational { gen: slot.gen, value: Some(inner) });
        proof {
            let expected = before.update(index as int, f.inject(before.value_at(index as int), *old(v)));
            assert(self@.slots =~= expected.slots);
            assert(forall|i: int|
                0 <= i < self@.slots.len() && i != index ==> self@.slots[i] == before.slots[i]);
        }
    }
}

} // verus!
