use bees::{Allocation, Example, ExampleField, ExampleRef, Node, NodeValue, RefWrapper};

fn example(a: u32) -> Example {
    Example { a, b: a + 1, c: a + 2, d: a + 3, e: a + 4 }
}

#[test]
fn field_handle_shares_liveness() {
    let mut alloc = Allocation::new(1);
    let r = alloc.put(0, example(1));
    let fa = r.subfield(ExampleField::A);
    let fb = r.subfield(ExampleField::B);
    assert!(fa.is_alive(&alloc) && r.is_alive(&alloc));
    assert!(fb.is_alive(&alloc) == r.is_alive(&alloc));
    r.destroy(&mut alloc);
    assert!(!r.is_alive(&alloc));
    assert!(!fa.is_alive(&alloc));
    assert!(!fb.is_alive(&alloc));
    assert_eq!(fa.try_read(&alloc), None);
    assert_eq!(fb.try_write(&mut alloc, 3), None);
}

#[test]
fn projection_of_dead_handle_is_dead() {
    let mut alloc = Allocation::new(1);
    let r = alloc.put(0, example(1));
    alloc.take(0);
    let fc = r.subfield(ExampleField::C);
    assert!(!fc.is_alive(&alloc));
}

#[test]
fn field_read_and_write() {
    let mut alloc = Allocation::new(2);
    let r = alloc.put(1, example(10));
    let fc = r.subfield(ExampleField::C);
    assert_eq!(fc.read(&alloc), 12);
    assert_eq!(fc.write(&mut alloc, 100), 12);
    assert_eq!(fc.write(&mut alloc, 200), 100);
    assert_eq!(fc.try_read(&alloc), Some(200));
    assert_eq!(r.subfield(ExampleField::A).read(&alloc), 10);
    assert_eq!(r.subfield(ExampleField::B).read(&alloc), 11);
    assert_eq!(r.subfield(ExampleField::D).read(&alloc), 13);
}

#[test]
fn wrapper_accessors_and_increment() {
    let mut alloc = Allocation::new(1);
    let w: ExampleRef = alloc.put(0, example(1)).wrap();
    assert_eq!(w.get(&alloc, ExampleField::A), 1);
    w.set(&mut alloc, ExampleField::E, 50);
    w.increment(&mut alloc);
    assert_eq!(w.get(&alloc, ExampleField::A), 2);
    assert_eq!(w.get(&alloc, ExampleField::B), 3);
    assert_eq!(w.get(&alloc, ExampleField::C), 4);
    assert_eq!(w.get(&alloc, ExampleField::D), 5);
    assert_eq!(w.get(&alloc, ExampleField::E), 51);
    assert!(w.raw() == w.0);
    assert!(ExampleRef::from_raw(w.raw()).raw() == w.0);
}

#[test]
fn nested_projection_shares_outer_gate() {
    let mut alloc = Allocation::new(1);
    let r = alloc.put(0, Node::new(example(5)));
    let inner = r.subfield(NodeValue).subfield(ExampleField::C);
    assert!(inner.is_alive(&alloc) == r.is_alive(&alloc));
    assert_eq!(inner.read(&alloc), 7);
    assert_eq!(inner.write(&mut alloc, 70), 7);
    assert_eq!(r.subfield(NodeValue).subfield(ExampleField::C).read(&alloc), 70);
    assert_eq!(r.subfield(NodeValue).subfield(ExampleField::B).read(&alloc), 6);
    alloc.take(0);
    assert!(!inner.is_alive(&alloc));
    assert_eq!(inner.try_read(&alloc), None);
}
