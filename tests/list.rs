use bees::{Allocation, Node, NodeLink, NodeRef};

fn three_node_list() -> (Allocation<Node<u32>>, NodeRef<u32>, NodeRef<u32>, NodeRef<u32>) {
    let mut alloc = Allocation::new(3);
    let r0 = alloc.put(0, Node::new(1u32)).wrap();
    let r1 = alloc.put(1, Node::new(2u32)).wrap();
    let r2 = alloc.put(2, Node::new(3u32)).wrap();
    r1.insert_after(&mut alloc, r0);
    r2.insert_after(&mut alloc, r1);
    (alloc, r0, r1, r2)
}

#[test]
fn linked_list_scenario() {
    let (mut alloc, r0, r1, r2) = three_node_list();
    assert_eq!(r0.values_right(&alloc), vec![1, 2, 3]);

    r1.remove(&mut alloc);
    assert_eq!(r0.values_right(&alloc), vec![1, 3]);
    assert!(r1.left(&alloc).is_none());
    assert!(r1.right(&alloc).is_none());

    assert!(r0.is_alive(&alloc));
    alloc.take(0);
    assert!(!r0.is_alive(&alloc));
    assert!(r1.is_alive(&alloc));
    assert!(r2.is_alive(&alloc));
    assert_eq!(r1.value(&alloc), 2);
    assert_eq!(r2.value(&alloc), 3);
}

#[test]
fn list_links_after_inserts() {
    let (alloc, r0, r1, r2) = three_node_list();
    assert!(r0.left(&alloc).is_none());
    assert!(r0.right(&alloc).unwrap().0 == r1.0);
    assert!(r1.left(&alloc).unwrap().0 == r0.0);
    assert!(r1.right(&alloc).unwrap().0 == r2.0);
    assert!(r2.left(&alloc).unwrap().0 == r1.0);
    assert!(r2.right(&alloc).is_none());
}

#[test]
fn insert_before_links_to_the_left() {
    let mut alloc = Allocation::new(2);
    let a = alloc.put(0, Node::new(10u32)).wrap();
    let b = alloc.put(1, Node::new(20u32)).wrap();
    a.insert_before(&mut alloc, b);
    assert_eq!(a.values_right(&alloc), vec![10, 20]);
    assert!(b.link(&alloc, NodeLink::Left).unwrap().0 == a.0);
}

#[test]
fn walk_stops_at_dead_node() {
    let (mut alloc, r0, _r1, r2) = three_node_list();
    r2.0.destroy(&mut alloc);
    assert_eq!(r0.values_right(&alloc), vec![1, 2]);
    alloc.take(0);
    assert_eq!(r0.values_right(&alloc), Vec::<u32>::new());
}

#[test]
fn walk_around_a_cycle_is_bounded() {
    let (mut alloc, r0, _r1, r2) = three_node_list();
    r2.set_link(&mut alloc, NodeLink::Right, Some(r0));
    assert_eq!(r0.values_right(&alloc), vec![1, 2, 3]);
}

#[test]
fn node_value_write() {
    let mut alloc = Allocation::new(1);
    let n = alloc.put(0, Node::new(4u32)).wrap();
    assert_eq!(n.value_ref().write(&mut alloc, 8), 4);
    assert_eq!(n.value(&alloc), 8);
}
