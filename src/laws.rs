use vstd::prelude::*;

use crate::arena::ArenaModel;
use crate::field::{FieldOf, WideRef};
use crate::generation::{GenAllocator, EMPTY_GEN};
use crate::reference::Ref;

verus! {

/// One operation on an arena, as the arena's model sees it.
///
/// `Put` is `Allocation::put`; `PutWithGen` is `Allocation::put_with_gen`
/// with a generation the arena has never issued or seen; `Take` is `Allocation::take` and also
/// `Ref::take`, `Ref::destroy` and `Ref::try_destroy` on a live handle;
/// `Update` is every write through a live handle or field handle; `Release`
/// is `Allocation::dealloc`.
pub enum Step<T> {
    Put(usize, T),
    PutWithGen(usize, u64, T),
    Take(usize),
    Update(usize, T),
    Release,
}

/// The arena after `step`; a step the arena would refuse leaves it unchanged.
pub open spec fn apply_step<T>(m: ArenaModel<T>, step: Step<T>) -> ArenaModel<T> {
    match step {
        Step::Put(i, v) => if i < m.slots.len() && m.last_gen < u64::MAX {
            m.put(i as int, v)
        } else {
            m
        },
        Step::PutWithGen(i, g, v) => if i < m.slots.len() && g > m.last_gen {
            m.occupy(i as int, g, v)
        } else {
            m
        },
        Step::Take(i) => if i < m.slots.len() {
            m.clear(i as int)
        } else {
            m
        },
        Step::Update(i, v) => if m.occupied(i as int) {
            m.update(i as int, v)
        } else {
            m
        },
        Step::Release => m.release(),
    }
}

/// The arena after `steps`, in order.
pub open spec fn run<T>(m: ArenaModel<T>, steps: Seq<Step<T>>) -> ArenaModel<T>
    decreases steps.len(),
{
    if steps.len() == 0 {
        m
    } else {
        run(apply_step(m, steps[0]), steps.drop_first())
    }
}

/// `r` carries a generation that `m`'s counter has already reached: every
/// handle the arena gives out is of this kind.
pub open spec fn issued_by<T>(r: Ref<T>, m: ArenaModel<T>) -> bool {
    r.generation() <= m.last_gen
}

proof fn lemma_step_keeps_dead<T>(m: ArenaModel<T>, r: Ref<T>, step: Step<T>)
    requires
        m.valid(),
        issued_by(r, m),
        !r.alive_in(m),
    ensures
        apply_step(m, step).valid(),
        apply_step(m, step).last_gen >= m.last_gen,
        !r.alive_in(apply_step(m, step)),
{
    let n = apply_step(m, step);
    match step {
        Step::Put(i, v) => {
            if i < m.slots.len() && m.last_gen < u64::MAX {
                assert forall|a: int, b: int|
                    #![trigger n.slots[a], n.slots[b]]
                    0 <= a < n.slots.len() && 0 <= b < n.slots.len() && a != b && n.slots[a].gen
                        != EMPTY_GEN implies n.slots[a].gen != n.slots[b].gen by {
                    if a != i && b != i {
                        assert(m.slots[a] == n.slots[a] && m.slots[b] == n.slots[b]);
                    }
                    if a == i {
                        assert(m.slots[b].gen <= m.last_gen);
                    }
                    if b == i {
                        assert(m.slots[a].gen <= m.last_gen);
                    }
                }
            }
        },
        Step::PutWithGen(i, g, v) => {
            if i < m.slots.len() && g > m.last_gen {
                assert forall|a: int, b: int|
                    #![trigger n.slots[a], n.slots[b]]
                    0 <= a < n.slots.len() && 0 <= b < n.slots.len() && a != b && n.slots[a].gen
                        != EMPTY_GEN implies n.slots[a].gen != n.slots[b].gen by {
                    if a != i && b != i {
                        assert(m.slots[a] == n.slots[a] && m.slots[b] == n.slots[b]);
                    }
                    if a == i {
                        assert(m.slots[b].gen <= m.last_gen);
                    }
                    if b == i {
                        assert(m.slots[a].gen <= m.last_gen);
                    }
                }
            }
        },
        Step::Take(i) => {
            if i < m.slots.len() {
                assert forall|a: int, b: int|
                    #![trigger n.slots[a], n.slots[b]]
                    0 <= a < n.slots.len() && 0 <= b < n.slots.len() && a != b && n.slots[a].gen
                        != EMPTY_GEN implies n.slots[a].gen != n.slots[b].gen by {
                    assert(m.slots[a] == n.slots[a]);
                    if b != i {
                        assert(m.slots[b] == n.slots[b]);
                    }
                }
            }
        },
        Step::Update(i, v) => {
            if m.occupied(i as int) {
                assert forall|a: int, b: int|
                    #![trigger n.slots[a], n.slots[b]]
                    0 <= a < n.slots.len() && 0 <= b < n.slots.len() && a != b && n.slots[a].gen
                        != EMPTY_GEN implies n.slots[a].gen != n.slots[b].gen by {
                    assert(m.slots[a].gen == n.slots[a].gen);
                    assert(m.slots[b].gen == n.slots[b].gen);
                }
            }
        },
        Step::Release => {},
    }
}

/// A dead handle stays dead: whatever is put (under a new generation), taken,
/// written or released afterwards, the handle is never alive again (a later
/// `put`, even into the same slot, issues a new generation). The arena stays
/// valid throughout.
pub proof fn lemma_dead_stays_dead<T>(m: ArenaModel<T>, r: Ref<T>, steps: Seq<Step<T>>)
    requires
        m.valid(),
        issued_by(r, m),
        !r.alive_in(m),
    ensures
        run(m, steps).valid(),
        !r.alive_in(run(m, steps)),
    decreases steps.len(),
{
    if steps.len() > 0 {
        lemma_step_keeps_dead(m, r, steps[0]);
        lemma_dead_stays_dead(apply_step(m, steps[0]), r, steps.drop_first());
    }
}

/// Clearing a slot (by `take`, `destroy` or `dealloc`) kills every handle to
/// it, and by the law above the handle stays dead.
pub proof fn lemma_clear_kills<T>(m: ArenaModel<T>, r: Ref<T>)
    requires
        m.valid(),
        r.slot() < m.slots.len(),
    ensures
        !r.alive_in(m.clear(r.slot() as int)),
        !r.alive_in(m.release()),
{
}

/// A later `put` never hands out a handle equal to one issued before.
pub proof fn lemma_put_gives_new_handle<T>(m: ArenaModel<T>, r: Ref<T>)
    requires
        m.valid(),
        issued_by(r, m),
        m.last_gen < u64::MAX,
    ensures
        m.next_gen() != r.generation(),
{
}

/// What is put in a slot is what a handle to that slot reads back.
pub proof fn lemma_put_then_read<T>(m: ArenaModel<T>, i: int, v: T)
    requires
        m.valid(),
        0 <= i < m.slots.len(),
        m.last_gen < u64::MAX,
    ensures
        m.put(i, v).occupied(i),
        m.put(i, v).alive(i, m.next_gen()),
        m.put(i, v).value_at(i) == v,
        m.put(i, v).valid(),
{
    let n = m.put(i, v);
    assert forall|a: int, b: int|
        #![trigger n.slots[a], n.slots[b]]
        0 <= a < n.slots.len() && 0 <= b < n.slots.len() && a != b && n.slots[a].gen != EMPTY_GEN
            implies n.slots[a].gen != n.slots[b].gen by {
        if a == i {
            assert(m.slots[b].gen <= m.last_gen);
        }
        if b == i {
            assert(m.slots[a].gen <= m.last_gen);
        }
    }
}

/// Two writes through a live handle: the handle stays alive and the second
/// write returns what the first one wrote.
pub proof fn lemma_write_returns_prior<T>(m: ArenaModel<T>, r: Ref<T>, v1: T, v2: T)
    requires
        m.valid(),
        r.alive_in(m),
    ensures
        r.alive_in(m.update(r.slot() as int, v1)),
        m.update(r.slot() as int, v1).value_at(r.slot() as int) == v1,
        r.alive_in(m.update(r.slot() as int, v1).update(r.slot() as int, v2)),
{
}

/// The same through a field handle: the field written first is what the
/// second write returns.
pub proof fn lemma_field_write_returns_prior<S, F: FieldOf<S>>(
    m: ArenaModel<S>,
    w: WideRef<S, F>,
    v1: F::Value,
    v2: F::Value,
)
    requires
        m.valid(),
        w.alive_in(m),
    ensures
        w.alive_in(w.written(m, v1)),
        w.value_in(w.written(m, v1)) == v1,
        w.alive_in(w.written(w.written(m, v1), v2)),
{
    let i = w.gate_spec().slot() as int;
    w.field_spec().lemma_project_inject(m.value_at(i), v1);
}

/// A field handle is alive exactly when the handle it was projected from is,
/// in every state of the arena: after its slot is cleared both are dead.
pub proof fn lemma_projection_shares_gate<S, F: FieldOf<S>>(
    m: ArenaModel<S>,
    r: Ref<S>,
    w: WideRef<S, F>,
)
    requires
        w.gate_spec() == r,
    ensures
        w.alive_in(m) == r.alive_in(m),
{
}

/// Two calls of the generation counter give strictly increasing values.
pub proof fn lemma_gens_increase(c0: GenAllocator, c1: GenAllocator, g1: u64, g2: u64)
    requires
        g1 == c0.last_spec() + 1,
        c1.last_spec() == g1,
        g2 == c1.last_spec() + 1,
    ensures
        g1 < g2,
{
}

/// Successive `put`s issue strictly increasing generations.
pub proof fn lemma_puts_increase<T>(m: ArenaModel<T>, i: int, v: T)
    requires
        m.last_gen < u64::MAX - 1,
    ensures
        m.put(i, v).next_gen() > m.next_gen(),
{
}

/// A `put` into one slot leaves every live handle to another slot alive, and
/// the generation it issues differs from theirs.
pub proof fn lemma_put_keeps_others_alive<T>(m: ArenaModel<T>, i: int, v: T, r: Ref<T>)
    requires
        m.valid(),
        0 <= i < m.slots.len(),
        m.last_gen < u64::MAX,
        r.alive_in(m),
        r.slot() != i,
    ensures
        r.alive_in(m.put(i, v)),
        r.generation() != m.next_gen(),
{
    assert(m.slots[r.slot() as int].gen <= m.last_gen);
}

/// Two live handles with the same generation address the same slot.
pub proof fn lemma_live_gens_distinct<T>(m: ArenaModel<T>, r1: Ref<T>, r2: Ref<T>)
    requires
        m.valid(),
        r1.alive_in(m),
        r2.alive_in(m),
        r1.generation() == r2.generation(),
    ensures
        r1.slot() == r2.slot(),
{
    let a = r1.slot() as int;
    let b = r2.slot() as int;
    if a != b {
        assert(m.slots[a].gen != m.slots[b].gen);
    }
}

} // verus!
