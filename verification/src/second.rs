//! The generic version of the exclusively owned stack, with `peek` and
//! `peek_mut` to inspect or replace the front element in place.

use vstd::prelude::*;

verus! {

#[derive(Debug)]
struct Node<T> {
    elem: T,
    next: Link<T>,
}

type Link<T> = Option<Box<Node<T>>>;

/// The sequence of elements reachable from a link, head first.
spec fn link_view<T>(l: Link<T>) -> Seq<T>
    decreases l,
{
    match l {
        None => Seq::empty(),
        Some(node) => seq![node.elem] + link_view(node.next),
    }
}

#[derive(Debug)]
pub struct List<T> {
    head: Link<T>,
}

impl<T> Default for List<T> {
    /// The default list is the empty list.
    fn default() -> (r: Self)
        ensures
            r@ == Seq::<T>::empty(),
    {
        List { head: None }
    }
}

impl<T> View for List<T> {
    type V = Seq<T>;

    closed spec fn view(&self) -> Seq<T> {
        link_view(self.head)
    }
}

impl<T> List<T> {
    /// Returns the empty list.
    pub fn new() -> (r: Self)
        ensures
            r@ == Seq::<T>::empty(),
    {
        List { head: None }
    }

    /// Puts `new` in front of every element already in the list.
    pub fn push(&mut self, new: T)
        ensures
            final(self)@ == seq![new] + old(self)@,
    {
        let node_link: Link<T> = Some(Box::new(Node { elem: new, next: self.head.take() }));
        self.head = node_link;
    }

    /// Detaches the front element and returns it; `None` on the empty list.
    pub fn pop(&mut self) -> (r: Option<T>)
        ensures
            old(self)@.len() == 0 ==> r is None && final(self)@ == old(self)@,
            old(self)@.len() > 0 ==> r == Some(old(self)@[0]) && final(self)@ == old(self)@.drop_first(),
    {
        match self.head.take() {
            None => None,
            Some(node) => {
                self.head = node.next;
                proof {
                    assert(self@ =~= link_view(old(self).head).drop_first());
                }
                Some(node.elem)
            },
        }
    }

    /// Borrows the front element without removing it.
    pub fn peek(&self) -> (r: Option<&T>)
        ensures
            self@.len() == 0 ==> r is None,
            self@.len() > 0 ==> (r matches Some(v) && *v == self@[0]),
    {
        match &self.head {
            None => None,
            Some(node) => Some(&node.elem),
        }
    }

    /// Borrows the front element mutably, so that the caller can replace it
    /// in place; the rest of the list is untouched.
    pub fn peek_mut(&mut self) -> (r: Option<&mut T>)
        ensures
            old(self)@.len() == 0 ==> r is None && final(self)@ == old(self)@,
            old(self)@.len() > 0 ==> (r matches Some(v) && *v == old(self)@[0]
                && final(self)@ == old(self)@.update(0, *final(v))),
    {
        match &mut self.head {
            None => None,
            Some(node) => Some(&mut node.elem),
        }
    }
}

/// Detaches every node in turn, so that no chain of ownership is ever
/// released recursively.
fn unlink_all<T>(chain: Link<T>)
    opens_invariants none
    no_unwind
{
    let mut current = chain;
    loop
        decreases link_view(current).len(),
    {
        match current {
            Some(node) => {
                current = node.next;
            },
            None => {
                break ;
            },
        }
    }
}

impl<T> Drop for List<T> {
    /// Tears the chain down iteratively: dropping a long list must not
    /// recurse once per node, or it would exhaust the call stack.
    fn drop(&mut self)
        opens_invariants none
        no_unwind
    {
        let mut current: Link<T> = None;
        core::mem::swap(&mut self.head, &mut current);
        unlink_all(current);
    }
}

} // verus!
