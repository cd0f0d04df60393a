//! An unbounded, append-only vector stored as a linked chain of nodes.

use vstd::prelude::*;

verus! {

/// One link of the chain: an element together with the position of its
/// successor.  Nodes are write-once apart from the single moment at which
/// a pushing caller links the next node behind the current tail.
struct Node<T> {
    data: T,
    /// Arena index of the next node in the chain; `None` for the tail.
    next: Option<usize>,
}

impl<T> Node<T> {
    /// Create a node with no successor yet.
    fn new(val: T) -> (n: Self)
        ensures
            n.data == val,
            n.next is None,
    {
        Node { data: val, next: None }
    }
}

/// An unbounded, append-only vector implemented as a singly-linked chain.
///
/// The nodes live in an arena that owns all of them, and they refer to
/// each other by stable arena index instead of by address, so the chain
/// can be walked with no aliasing and is reclaimed exactly once, in link
/// order, when the arena is dropped.  Random access is deliberately not
/// offered by the storage itself: `get` walks the chain from the head, at
/// a cost linear in the index — the price of unbounded capacity.
pub struct LinkedListVec<T> {
    /// Arena owning every node of the chain, in the order they were
    /// linked.
    nodes: Vec<Node<T>>,
    /// Position of the first node of the chain; `None` while empty.
    head: Option<usize>,
    /// Position of the last linked node; `None` while empty.
    tail: Option<usize>,
    /// Advisory element count.
    len: usize,
}

impl<T> View for LinkedListVec<T> {
    type V = Seq<T>;

    /// The committed elements, in link order.
    closed spec fn view(&self) -> Seq<T> {
        Seq::new(self.nodes@.len(), |i: int| self.nodes@[i].data)
    }
}

impl<T> LinkedListVec<T> {
    /// The chain is a valid singly-linked path through the whole arena:
    /// the count matches the arena, an empty chain has neither head nor
    /// tail, and a nonempty chain starts at the first node, ends at the
    /// last, and links every interior node to its successor.
    pub closed spec fn well_formed(&self) -> bool {
        &&& self.len == self.nodes@.len()
        &&& if self.nodes@.len() == 0 {
            self.head is None && self.tail is None
        } else {
            &&& self.head == Some(0usize)
            &&& self.tail matches Some(t) && t == self.nodes@.len() - 1
            &&& forall|i: int|
                0 <= i < self.nodes@.len() - 1 ==> ((#[trigger] self.nodes@[i]).next matches Some(j)
                    && j == i + 1)
            &&& self.nodes@[self.nodes@.len() - 1].next is None
        }
    }

    /// Create an empty vector: no nodes, no head, no tail.
    pub fn new() -> (v: Self)
        ensures
            v.well_formed(),
            v@ == Seq::<T>::empty(),
    {
        let v = LinkedListVec { nodes: Vec::new(), head: None, tail: None, len: 0 };
        proof {
            assert(v@ =~= Seq::<T>::empty());
        }
        v
    }

    /// Append `val` at the end of the chain.
    ///
    /// Never signals failure: a new node always becomes the new tail, the
    /// element is committed at the old length, and nothing that was
    /// already committed moves.  The only bound is the machine limit on
    /// the element count.
    pub fn push(&mut self, val: T)
        requires
            old(self).well_formed(),
            old(self)@.len() < usize::MAX,
        ensures
            final(self).well_formed(),
            final(self)@ == old(self)@.push(val),
    {
        let node = Node::new(val);
        let new_idx = self.nodes.len();
        self.nodes.push(node);
        match self.tail {
            None => {
                // Empty-to-nonempty transition: the node that wins it
                // becomes both ends of the chain at once.
                self.tail = Some(new_idx);
                self.head = Some(new_idx);
            },
            Some(prev) => {
                // Advance the tail, then link the previous tail onward.
                self.tail = Some(new_idx);
                let prev_node = &mut self.nodes[prev];
                prev_node.next = Some(new_idx);
            },
        }
        self.len = self.len + 1;
        proof {
            assert(self@ =~= old(self)@.push(val));
        }
    }

    /// Read the element at `idx` by walking the chain from the head.
    ///
    /// Returns `None` exactly for the indices at or beyond the length;
    /// for the rest it follows `next` links `idx` times and hands out the
    /// element reached, which never changes once committed.
    pub fn get(&self, idx: usize) -> (r: Option<&T>)
        requires
            self.well_formed(),
        ensures
            r matches Some(v) ==> idx < self@.len() && *v == self@[idx as int],
            r is None <==> idx >= self@.len(),
    {
        let len = self.len;
        if idx >= len {
            return None;
        }
        let mut p: usize = match self.head {
            Some(h) => h,
            None => 0,  // never taken: a nonempty chain always has a head
        };
        let mut steps: usize = 0;
        while steps < idx
            invariant
                self.well_formed(),
                idx < self@.len(),
                steps <= idx,
                p == steps,
            decreases idx - steps,
        {
            p = match self.nodes[p].next {
                Some(nx) => nx,
                None => p,  // never taken: interior nodes always link onward
            };
            steps = steps + 1;
        }
        Some(&self.nodes[p].data)
    }

    /// The number of committed elements.  Under exclusive access this is
    /// exact: it counts precisely the positions that `get` can reach.
    pub fn len(&self) -> (n: usize)
        requires
            self.well_formed(),
        ensures
            n == self@.len(),
    {
        self.len
    }
}

} // verus!
