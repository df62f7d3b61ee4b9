use vstd::prelude::*;

verus! {

/// The generation a slot holds while it has no value.
pub const EMPTY_GEN: u64 = 0;

/// The generation the counter starts from; the first one issued is one past it,
/// so neither the empty marker nor this value is ever handed out.
pub const START_GEN: u64 = 1;

/// Issues generation tags, each strictly greater than every tag issued before.
///
/// One counter belongs to one arena; the arena is the only one that draws from it.
pub struct GenAllocator {
    last: u64,
}

impl GenAllocator {
    /// The largest generation issued so far (or the starting value).
    pub closed spec fn last_spec(&self) -> u64 {
        self.last
    }

    #[verifier::type_invariant]
    spec fn inv(&self) -> bool {
        self.last >= START_GEN
    }

    pub fn new() -> (r: GenAllocator)
        ensures
            r.last_spec() == START_GEN,
    {
        GenAllocator { last: START_GEN }
    }

    /// The largest generation issued so far.
    pub fn last(&self) -> (r: u64)
        ensures
            r == self.last_spec(),
            r >= START_GEN,
    {
        proof {
            use_type_invariant(self);
        }
        self.last
    }

    /// Whether another generation can still be issued.
    pub fn can_issue(&self) -> (r: bool)
        ensures
            r == (self.last_spec() < u64::MAX),
    {
        self.last < u64::MAX
    }

    /// Issues the next generation. Running out of generations is fatal, so the
    /// caller must not ask once the counter has reached its top.
    pub fn gen(&mut self) -> (r: u64)
        requires
            old(self).last_spec() < u64::MAX,
        ensures
            r == old(self).last_spec() + 1,
            final(self).last_spec() == r,
            r > START_GEN,
    {
        proof {
            use_type_invariant(&*self);
        }
        self.last = self.last + 1;
        self.last
    }

    /// Makes sure the counter never issues `g` or anything below it, so that a
    /// generation chosen by a caller is never issued again.
    pub fn observe(&mut self, g: u64)
        ensures
            final(self).last_spec() == if g > old(self).last_spec() { g } else { old(self).last_spec() },
    {
        if g > self.last {
            self.last = g;
        }
    }
}

} // verus!
