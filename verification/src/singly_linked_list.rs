//! A stack of `i32` values kept as a chain of exclusively owned nodes.
//!
//! The list owns its head node, each node owns its successor, and the chain
//! is torn down iteratively on drop so that a long list cannot exhaust the
//! call stack.

use vstd::prelude::*;

verus! {

#[derive(Debug)]
struct Node {
    elem: i32,
    next: Link,
}

type Link = Option<Box<Node>>;

/// The sequence of elements reachable from a link, head first.
spec fn link_view(l: Link) -> Seq<i32>
    decreases l,
{
    match l {
        None => Seq::empty(),
        Some(node) => seq![node.elem] + link_view(node.next),
    }
}

#[derive(Debug)]
pub struct List {
    head: Link,
}

impl Default for List {
    /// The default list is the empty list.
    fn default() -> (r: Self)
        ensures
            r@ == Seq::<i32>::empty(),
    {
        List { head: None }
    }
}

impl View for List {
    type V = Seq<i32>;

    closed spec fn view(&self) -> Seq<i32> {
        link_view(self.head)
    }
}

impl List {
    /// Returns the empty list.
    pub fn new() -> (r: Self)
        ensures
            r@ == Seq::<i32>::empty(),
    {
        List { head: None }
    }

    /// Puts `new` in front of every element already in the list.
    pub fn push(&mut self, new: i32)
        ensures
            final(self)@ == seq![new] + old(self)@,
    {
        let node_link: Link = Some(Box::new(Node { elem: new, next: self.head.take() }));
        self.head = node_link;
    }

    /// Detaches the front element and returns it; `None` on the empty list.
    pub fn pop(&mut self) -> (r: Option<i32>)
        ensures
            old(self)@.len() == 0 ==> r is None && final(self)@ == old(self)@,
            old(self)@.len() > 0 ==> r == Some(old(self)@[0]) && final(self)@ == old(self)@.drop_first(),
    {
        match self.head.take() {
            None => None,
            Some(node) => {
                self.head = node.next;
                proof {
                    assert(self@ =~= link_view(old(self).head).drop_first());
                }
                Some(node.elem)
            },
        }
    }
}

/// Detaches every node in turn, so that no chain of ownership is ever
/// released recursively.
fn unlink_all(chain: Link)
    opens_invariants none
    no_unwind
{
    let mut current = chain;
    loop
        decreases link_view(current).len(),
    {
        match current {
            Some(node) => {
                current = node.next;
            },
            None => {
                break ;
            },
        }
    }
}

impl Drop for List {
    /// Tears the chain down iteratively: dropping a long list must not
    /// recurse once per node, or it would exhaust the call stack.
    fn drop(&mut self)
        opens_invariants none
        no_unwind
    {
        let mut current: Link = None;
        core::mem::swap(&mut self.head, &mut current);
        unlink_all(current);
    }
}

} // verus!
