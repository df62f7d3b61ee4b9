use bees::{Allocation, GenAllocator, Generational, MovableRef, EMPTY_GEN, START_GEN};

#[test]
fn new_arena_has_empty_slots() {
    let alloc: Allocation<u32> = Allocation::new(4);
    assert_eq!(alloc.len(), 4);
    for i in 0..4 {
        assert!(alloc.try_get(i).is_none());
    }
}

#[test]
fn fresh_put_is_alive() {
    let mut alloc = Allocation::new(2);
    let r = alloc.put(1, 7u32);
    assert!(r.is_alive(&alloc));
    assert_eq!(r.get_unchecked(), 1);
    assert_eq!(r.try_get(&alloc), Some(1));
    assert_eq!(r.get(&alloc), 1);
}

#[test]
fn put_then_get_reads_back() {
    let mut alloc = Allocation::new(3);
    alloc.put(2, 42u32);
    let r = alloc.get(2);
    assert_eq!(r.read(&alloc), 42);
    assert_eq!(r.try_read(&alloc), Some(42));
}

#[test]
fn write_returns_prior_value() {
    let mut alloc = Allocation::new(1);
    let r = alloc.put(0, 1u32);
    assert_eq!(r.write(&mut alloc, 10), 1);
    assert_eq!(r.write(&mut alloc, 20), 10);
    assert_eq!(r.read(&alloc), 20);
    assert_eq!(r.try_write(&mut alloc, 30), Some(20));
}

#[test]
fn take_kills_every_handle_for_good() {
    let mut alloc = Allocation::new(2);
    let r = alloc.put(0, 5u32);
    let copy = alloc.get(0);
    assert_eq!(alloc.take(0), Some(5));
    assert!(!r.is_alive(&alloc));
    assert!(!copy.is_alive(&alloc));
    assert_eq!(r.try_read(&alloc), None);
    assert_eq!(r.try_write(&mut alloc, 9), None);
    assert_eq!(alloc.take(0), None);

    let again = alloc.put(0, 6u32);
    assert!(again != r);
    assert!(again.captured_gen() > r.captured_gen());
    assert!(!r.is_alive(&alloc));
    assert!(again.is_alive(&alloc));
    assert_eq!(r.try_get(&alloc), None);
}

#[test]
fn handle_take_removes_value() {
    let mut alloc = Allocation::new(1);
    let r = alloc.put(0, 3u32);
    assert_eq!(r.take(&mut alloc), Some(3));
    assert!(!r.is_alive(&alloc));
    assert_eq!(r.take(&mut alloc), None);
    assert!(alloc.try_get(0).is_none());
}

#[test]
fn destroy_twice_reports_failure() {
    let mut alloc = Allocation::new(1);
    let r = alloc.put(0, String::from("x"));
    assert!(r.try_destroy(&mut alloc));
    assert!(!r.is_alive(&alloc));
    assert!(!r.try_destroy(&mut alloc));
    r.destroy(&mut alloc);
    assert!(!r.is_alive(&alloc));
}

#[test]
fn destroy_drops_live_value() {
    let mut alloc = Allocation::new(2);
    let r = alloc.put(1, 8u32);
    let other = alloc.put(0, 9u32);
    r.destroy(&mut alloc);
    assert!(!r.is_alive(&alloc));
    assert!(other.is_alive(&alloc));
    assert_eq!(other.read(&alloc), 9);
}

#[test]
fn dealloc_kills_everything() {
    let mut alloc = Allocation::new(3);
    let a = alloc.put(0, 1u32);
    let b = alloc.put(2, 3u32);
    alloc.dealloc();
    assert!(!a.is_alive(&alloc));
    assert!(!b.is_alive(&alloc));
    assert_eq!(alloc.len(), 0);
}

#[test]
fn successive_puts_increase_generations() {
    let mut alloc = Allocation::new(3);
    let a = alloc.put(0, 1u32);
    let b = alloc.put(1, 2u32);
    let c = alloc.put(0, 3u32);
    assert_eq!(a.captured_gen(), START_GEN + 1);
    assert_eq!(b.captured_gen(), START_GEN + 2);
    assert_eq!(c.captured_gen(), START_GEN + 3);
    assert!(!a.is_alive(&alloc));
}

#[test]
fn gen_allocator_is_strictly_increasing() {
    let mut gens = GenAllocator::new();
    assert_eq!(gens.last(), START_GEN);
    let g1 = gens.gen();
    let g2 = gens.gen();
    assert_eq!(g1, 2);
    assert_eq!(g2, 3);
    assert!(g1 > START_GEN && g1 != EMPTY_GEN);
    gens.observe(100);
    assert_eq!(gens.gen(), 101);
    gens.observe(5);
    assert_eq!(gens.gen(), 102);
    assert!(gens.can_issue());
}

#[test]
fn put_with_gen_uses_given_generation() {
    let mut alloc = Allocation::new(2);
    let r = alloc.put_with_gen(0, 50, 1u32);
    assert_eq!(r.captured_gen(), 50);
    assert!(r.is_alive(&alloc));
    let next = alloc.put(1, 2u32);
    assert_eq!(next.captured_gen(), 51);
}

#[test]
fn put_drops_previous_occupant() {
    let mut alloc = Allocation::new(1);
    let old = alloc.put(0, 1u32);
    let new = alloc.put(0, 2u32);
    assert!(!old.is_alive(&alloc));
    assert_eq!(new.read(&alloc), 2);
}

#[test]
fn slot_replace_and_state() {
    let mut slot: Generational<u32> = Generational::new_empty();
    assert!(!slot.is_full());
    assert_eq!(slot.gen(), EMPTY_GEN);
    assert_eq!(slot.replace(Some((4, 11))), None);
    assert!(slot.is_full());
    assert_eq!(slot.gen(), 4);
    assert_eq!(slot.replace(None), Some(11));
    assert_eq!(slot.gen(), EMPTY_GEN);
}

#[test]
fn movable_ref_follows_a_move() {
    let mut alloc = Allocation::new(3);
    let r = alloc.put(0, 77u32);
    let mut m = MovableRef::new(r);
    assert!(m.force_resolve_prim() == r);
    assert!(m.repair_resolve_prim(&alloc) == Some(r));

    // Move the occupant from slot 0 to slot 2, keeping its generation.
    let v = alloc.take(0).unwrap();
    let moved = alloc.put_with_gen(2, r.captured_gen(), v);
    assert!(!m.force_resolve_prim().is_alive(&alloc));
    let repaired = m.repair_resolve_prim(&alloc).unwrap();
    assert!(repaired == moved);
    assert_eq!(repaired.get_unchecked(), 2);
    assert_eq!(repaired.read(&alloc), 77);
    assert!(m.force_resolve_prim() == moved);
}

#[test]
fn movable_ref_reports_dead_generation() {
    let mut alloc = Allocation::new(2);
    let r = alloc.put(1, 5u32);
    let mut m = MovableRef::new(r);
    alloc.take(1);
    assert!(m.repair_resolve_prim(&alloc).is_none());
    assert!(m.force_resolve_prim() == r);
}

#[test]
fn lookup_finds_slot_by_generation() {
    let mut alloc = Allocation::new(4);
    let a = alloc.put(3, 1u32);
    let b = alloc.put(1, 2u32);
    assert_eq!(alloc.lookup(a.captured_gen()), Some(3));
    assert_eq!(alloc.lookup(b.captured_gen()), Some(1));
    assert_eq!(alloc.lookup(999), None);
    alloc.take(3);
    assert_eq!(alloc.lookup(a.captured_gen()), None);
    assert_eq!(alloc.lookup(b.captured_gen()), Some(1));
    alloc.put_with_gen(1, 40, 5u32);
    assert_eq!(alloc.lookup(b.captured_gen()), None);
    assert_eq!(alloc.lookup(40), Some(1));
    alloc.dealloc();
    assert_eq!(alloc.lookup(40), None);
}

#[test]
fn clearing_an_empty_slot_hands_back_nothing() {
    let mut slot: Generational<u32> = Generational::new_empty();
    assert_eq!(slot.replace(None), None);
    assert!(!slot.is_full());
    assert_eq!(slot.gen(), EMPTY_GEN);
}

#[test]
fn put_into_another_slot_keeps_handles_alive() {
    let mut alloc = Allocation::new(2);
    let a = alloc.put(0, 1u32);
    let b = alloc.put(1, 2u32);
    assert!(a.is_alive(&alloc));
    assert!(a.captured_gen() != b.captured_gen());
    assert_eq!(a.read(&alloc), 1);
}
