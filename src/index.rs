use vstd::prelude::*;

verus! {

/// Side index from a generation to the slot that currently holds it.
///
/// The map itself is a `hashbrown::HashMap`; Verus sees it only through
/// `index_entries` and the methods below.
#[verifier::external_body]
pub struct GenIndex {
    map: hashbrown::HashMap<u64, usize>,
}

/// What the index holds: each registered generation with its slot.
pub uninterp spec fn index_entries(ix: GenIndex) -> Map<u64, usize>;

impl GenIndex {
    /// Relies on hashbrown::HashMap::new: the map starts empty.
    #[verifier::external_body]
    pub fn new() -> (r: GenIndex)
        ensures
            index_entries(r) == (Map::<u64, usize>::empty()),
    {
        GenIndex { map: hashbrown::HashMap::new() }
    }

    /// Relies on hashbrown::HashMap::get: the slot stored under `g`, if any.
    #[verifier::external_body]
    pub fn get(&self, g: u64) -> (r: Option<usize>)
        ensures
            r == (if index_entries(*self).contains_key(g) {
                Some(index_entries(*self)[g])
            } else {
                None
            }),
    {
        self.map.get(&g).copied()
    }

    /// Relies on hashbrown::HashMap::insert: `g` maps to `slot` afterwards and
    /// every other entry is kept; the previous slot of `g` is returned.
    #[verifier::external_body]
    pub fn insert(&mut self, g: u64, slot: usize) -> (r: Option<usize>)
        ensures
            index_entries(*final(self)) == index_entries(*old(self)).insert(g, slot),
            r == (if index_entries(*old(self)).contains_key(g) {
                Some(index_entries(*old(self))[g])
            } else {
                None
            }),
    {
        self.map.insert(g, slot)
    }

    /// Relies on hashbrown::HashMap::remove: `g` is gone afterwards and every
    /// other entry is kept; its slot is returned if it was there.
    #[verifier::external_body]
    pub fn remove(&mut self, g: u64) -> (r: Option<usize>)
        ensures
            index_entries(*final(self)) == index_entries(*old(self)).remove(g),
            r == (if index_entries(*old(self)).contains_key(g) {
                Some(index_entries(*old(self))[g])
            } else {
                None
            }),
    {
        self.map.remove(&g)
    }

    /// Relies on hashbrown::HashMap::clear: no entry is left.
    #[verifier::external_body]
    pub fn clear(&mut self)
        ensures
            index_entries(*final(self)) == (Map::<u64, usize>::empty()),
    {
        self.map.clear()
    }
}

} // verus!
