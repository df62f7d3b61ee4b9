use vstd::prelude::*;

use crate::arena::{Allocation, ArenaModel};
use crate::field::{FieldOf, WideRef};
use crate::reference::Ref;
use crate::wrapper::{RefWrapper, Struct};

verus! {

/// A node of a doubly linked list whose nodes live in an arena and point at
/// each other through handles. Cycles need no special care: every link is
/// checked when it is followed.
pub struct Node<T> {
    pub value: T,
    pub left: Option<NodeRef<T>>,
    pub right: Option<NodeRef<T>>,
}

impl<T> Node<T> {
    /// A node with no neighbours.
    pub fn new(value: T) -> (r: Node<T>)
        ensures
            r == (Node { value, left: None::<NodeRef<T>>, right: None::<NodeRef<T>> }),
    {
        Node { value, left: None, right: None }
    }
}

/// The payload field of a `Node`.
#[derive(Clone, Copy, PartialEq, Eq, Debug)]
pub struct NodeValue;

/// The two link fields of a `Node`.
#[derive(Clone, Copy, PartialEq, Eq, Debug)]
pub enum NodeLink {
    Left,
    Right,
}

impl<T: 'static> FieldOf<Node<T>> for NodeValue {
    type Value = T;

    open spec fn project(self, s: Node<T>) -> T {
        s.value
    }

    open spec fn inject(self, s: Node<T>, v: T) -> Node<T> {
        Node { value: v, ..s }
    }

    proof fn lemma_project_inject(self, s: Node<T>, v: T) {
    }

    fn get<'a>(&self, s: &'a Node<T>) -> (r: &'a T) {
        &s.value
    }

    fn get_mut<'a>(&self, s: &'a mut Node<T>) -> (r: &'a mut T) {
        &mut s.value
    }
}

impl<T: 'static> FieldOf<Node<T>> for NodeLink {
    type Value = Option<NodeRef<T>>;

    open spec fn project(self, s: Node<T>) -> Option<NodeRef<T>> {
        match self {
            NodeLink::Left => s.left,
            NodeLink::Right => s.right,
        }
    }

    open spec fn inject(self, s: Node<T>, v: Option<NodeRef<T>>) -> Node<T> {
        match self {
            NodeLink::Left => Node { left: v, ..s },
            NodeLink::Right => Node { right: v, ..s },
        }
    }

    proof fn lemma_project_inject(self, s: Node<T>, v: Option<NodeRef<T>>) {
    }

    fn get<'a>(&self, s: &'a Node<T>) -> (r: &'a Option<NodeRef<T>>) {
        match self {
            NodeLink::Left => &s.left,
            NodeLink::Right => &s.right,
        }
    }

    fn get_mut<'a>(&self, s: &'a mut Node<T>) -> (r: &'a mut Option<NodeRef<T>>) {
        match self {
            NodeLink::Left => &mut s.left,
            NodeLink::Right => &mut s.right,
        }
    }
}

/// A typed handle to a `Node` in an arena.
pub struct NodeRef<T>(pub Ref<Node<T>>);

impl<T> Clone for NodeRef<T> {
    fn clone(&self) -> (r: Self)
        ensures
            r == *self,
    {
        NodeRef(self.0)
    }
}

impl<T> Copy for NodeRef<T> {
}

impl<T> RefWrapper for NodeRef<T> {
    type Pointee = Node<T>;

    open spec fn raw_spec(self) -> Ref<Node<T>> {
        self.0
    }

    fn from_raw(raw: Ref<Node<T>>) -> (r: Self) {
        NodeRef(raw)
    }

    fn raw(self) -> (r: Ref<Node<T>>) {
        self.0
    }
}

impl<T> Struct for Node<T> {
    type Wrapper = NodeRef<T>;
}

/// Link `which` of node `r` in `m`.
pub open spec fn link_of<T: 'static>(m: ArenaModel<Node<T>>, r: NodeRef<T>, which: NodeLink) -> Option<
    NodeRef<T>,
> {
    which.project(m.value_at(r.0.slot() as int))
}

/// `m` with link `which` of node `r` set to `v`.
pub open spec fn with_link<T: 'static>(
    m: ArenaModel<Node<T>>,
    r: NodeRef<T>,
    which: NodeLink,
    v: Option<NodeRef<T>>,
) -> ArenaModel<Node<T>> {
    let i = r.0.slot() as int;
    m.update(i, which.inject(m.value_at(i), v))
}

/// The link is absent or leads to a live node.
pub open spec fn link_alive<T: 'static>(m: ArenaModel<Node<T>>, l: Option<NodeRef<T>>) -> bool {
    l.is_some() ==> l.unwrap().0.alive_in(m)
}

/// The values met walking right from `start`, stopping at a missing link, at
/// a dead node, or after `fuel` nodes.
pub open spec fn values_from<T: 'static>(
    m: ArenaModel<Node<T>>,
    start: Option<NodeRef<T>>,
    fuel: nat,
) -> Seq<T>
    decreases fuel,
{
    if fuel == 0 || start.is_none() || !start.unwrap().0.alive_in(m) {
        Seq::empty()
    } else {
        let n = m.value_at(start.unwrap().0.slot() as int);
        seq![n.value].add(values_from(m, n.right, (fuel - 1) as nat))
    }
}

/// The arena after `x` is linked in to the right of `l`.
pub open spec fn after_insert_after<T: 'static>(
    m: ArenaModel<Node<T>>,
    x: NodeRef<T>,
    l: NodeRef<T>,
) -> ArenaModel<Node<T>> {
    let m1 = with_link(m, x, NodeLink::Left, Some(l));
    let m2 = with_link(m1, x, NodeLink::Right, link_of(m1, l, NodeLink::Right));
    with_link(m2, l, NodeLink::Right, Some(x))
}

/// The arena after `x` is linked in to the left of `r`.
pub open spec fn after_insert_before<T: 'static>(
    m: ArenaModel<Node<T>>,
    x: NodeRef<T>,
    r: NodeRef<T>,
) -> ArenaModel<Node<T>> {
    let m1 = with_link(m, x, NodeLink::Right, Some(r));
    let m2 = with_link(m1, x, NodeLink::Left, link_of(m1, r, NodeLink::Left));
    with_link(m2, r, NodeLink::Left, Some(x))
}

/// The arena after `x` is taken out of its list: its neighbours are joined
/// and its own links cleared.
pub open spec fn after_remove<T: 'static>(m: ArenaModel<Node<T>>, x: NodeRef<T>) -> ArenaModel<
    Node<T>,
> {
    let m1 = match link_of(m, x, NodeLink::Left) {
        Some(l) => with_link(m, l, NodeLink::Right, link_of(m, x, NodeLink::Right)),
        None => m,
    };
    let m2 = match link_of(m1, x, NodeLink::Right) {
        Some(r) => with_link(m1, r, NodeLink::Left, link_of(m1, x, NodeLink::Left)),
        None => m1,
    };
    let m3 = with_link(m2, x, NodeLink::Left, None);
    with_link(m3, x, NodeLink::Right, None)
}

impl<T: 'static> NodeRef<T> {
    pub fn is_alive(self, a: &Allocation<Node<T>>) -> (r: bool)
        ensures
            r == self.0.alive_in(a@),
    {
        self.0.is_alive(a)
    }

    /// The handle to link `which` of this node.
    pub fn link_ref(self, which: NodeLink) -> (r: WideRef<Node<T>, NodeLink>)
        ensures
            r.gate_spec() == self.0,
            r.field_spec() == which,
    {
        self.0.subfield(which)
    }

    /// The handle to this node's value.
    pub fn value_ref(self) -> (r: WideRef<Node<T>, NodeValue>)
        ensures
            r.gate_spec() == self.0,
            r.field_spec() == NodeValue,
    {
        self.0.subfield(NodeValue)
    }

    /// This node's value.
    pub fn value(self, a: &Allocation<Node<T>>) -> (r: T) where T: Copy
        requires
            a.wf(),
            self.0.alive_in(a@),
        ensures
            r == a@.value_at(self.0.slot() as int).value,
    {
        self.value_ref().read(a)
    }

    /// Link `which` of this node.
    pub fn link(self, a: &Allocation<Node<T>>, which: NodeLink) -> (r: Option<NodeRef<T>>)
        requires
            a.wf(),
            self.0.alive_in(a@),
        ensures
            r == link_of(a@, self, which),
    {
        self.link_ref(which).read(a)
    }

    /// Sets link `which` of this node to `v`.
    pub fn set_link(self, a: &mut Allocation<Node<T>>, which: NodeLink, v: Option<NodeRef<T>>)
        requires
            old(a).wf(),
            self.0.alive_in(old(a)@),
        ensures
            final(a).wf(),
            final(a)@ == with_link(old(a)@, self, which, v),
    {
        self.link_ref(which).write(a, v);
    }

    pub fn left(self, a: &Allocation<Node<T>>) -> (r: Option<NodeRef<T>>)
        requires
            a.wf(),
            self.0.alive_in(a@),
        ensures
            r == link_of(a@, self, NodeLink::Left),
    {
        self.link(a, NodeLink::Left)
    }

    pub fn right(self, a: &Allocation<Node<T>>) -> (r: Option<NodeRef<T>>)
        requires
            a.wf(),
            self.0.alive_in(a@),
        ensures
            r == link_of(a@, self, NodeLink::Right),
    {
        self.link(a, NodeLink::Right)
    }

    /// Links this node in directly to the right of `left`.
    pub fn insert_after(self, a: &mut Allocation<Node<T>>, left: NodeRef<T>)
        requires
            old(a).wf(),
            self.0.alive_in(old(a)@),
            left.0.alive_in(old(a)@),
        ensures
            final(a).wf(),
            final(a)@ == after_insert_after(old(a)@, self, left),
    {
        self.set_link(a, NodeLink::Left, Some(left));
        let next = left.right(a);
        self.set_link(a, NodeLink::Right, next);
        left.set_link(a, NodeLink::Right, Some(self));
    }

    /// Links this node in directly to the left of `right`.
    pub fn insert_before(self, a: &mut Allocation<Node<T>>, right: NodeRef<T>)
        requires
            old(a).wf(),
            self.0.alive_in(old(a)@),
            right.0.alive_in(old(a)@),
        ensures
            final(a).wf(),
            final(a)@ == after_insert_before(old(a)@, self, right),
    {
        self.set_link(a, NodeLink::Right, Some(right));
        let prev = right.left(a);
        self.set_link(a, NodeLink::Left, prev);
        right.set_link(a, NodeLink::Left, Some(self));
    }

    /// Takes this node out of its list, joining its neighbours to each other.
    /// The node and both of its neighbours must be alive.
    pub fn remove(self, a: &mut Allocation<Node<T>>)
        requires
            old(a).wf(),
            self.0.alive_in(old(a)@),
            link_alive(old(a)@, link_of(old(a)@, self, NodeLink::Left)),
            link_alive(old(a)@, link_of(old(a)@, self, NodeLink::Right)),
        ensures
            final(a).wf(),
            final(a)@ == after_remove(old(a)@, self),
    {
        let ghost m0 = a@;
        if let Some(l) = self.left(a) {
            let next = self.right(a);
            l.set_link(a, NodeLink::Right, next);
        }
        let ghost m1 = a@;
        if let Some(r) = self.right(a) {
            assert(r.0.alive_in(m1)) by {
                assert(m1.slots.len() == m0.slots.len());
                assert(forall|i: int| 0 <= i < m0.slots.len() ==> m1.slots[i].gen == m0.slots[i].gen);
            };
            let prev = self.left(a);
            r.set_link(a, NodeLink::Left, prev);
        }
        self.set_link(a, NodeLink::Left, None);
        self.set_link(a, NodeLink::Right, None);
    }

    /// The values met walking right from this node, as far as the links lead
    /// to live nodes. A walk longer than the arena has slots must go round a
    /// cycle, so it stops after that many nodes.
    pub fn values_right(self, a: &Allocation<Node<T>>) -> (r: Vec<T>) where T: Copy
        requires
            a.wf(),
        ensures
            r@ == values_from(a@, Some(self), a@.slots.len()),
    {
        let mut out: Vec<T> = Vec::new();
        let mut cur: Option<NodeRef<T>> = Some(self);
        let mut fuel: usize = a.len();
        while fuel > 0
            invariant
                a.wf(),
                fuel <= a@.slots.len(),
                out@ + values_from(a@, cur, fuel as nat) == values_from(
                    a@,
                    Some(self),
                    a@.slots.len(),
                ),
            decreases fuel,
        {
            match cur {
                Some(n) => {
                    if !n.is_alive(a) {
                        assert(out@ + values_from(a@, cur, fuel as nat) =~= out@);
                        return out;
                    }
                    let ghost before = out@;
                    out.push(n.value(a));
                    cur = n.right(a);
                    fuel = fuel - 1;
                    assert(out@ + values_from(a@, cur, fuel as nat) =~= before + values_from(
                        a@,
                        Some(n),
                        (fuel + 1) as nat,
                    ));
                },
                None => {
                    assert(out@ + values_from(a@, cur, fuel as nat) =~= out@);
                    return out;
                },
            }
        }
        assert(out@ + values_from(a@, cur, fuel as nat) =~= out@);
        out
    }
}

} // verus!
