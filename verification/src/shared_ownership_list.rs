//! A persistent singly linked list whose handles share their tails. Every
//! operation takes the list by reference: `prepend` and `tail` hand back new
//! handles onto the same reference-counted chain, so several lists converge
//! on a common suffix and no node is ever copied or changed.

use vstd::prelude::*;

use crate::rc_clone;
use crate::rc_strong_count;

verus! {

#[derive(Debug)]
struct Node<T> {
    elem: T,
    next: Option<std::rc::Rc<Node<T>>>,
}

/// The sequence of elements reachable from a link, head first.
spec fn link_view<T>(l: Option<std::rc::Rc<Node<T>>>) -> Seq<T>
    decreases l,
{
    match l {
        None => Seq::empty(),
        Some(node) => seq![node.elem] + link_view(node.next),
    }
}

#[derive(Debug)]
pub struct List<T> {
    head: Option<std::rc::Rc<Node<T>>>,
}

impl<T> Default for List<T> {
    /// The default list is the empty list.
    fn default() -> (r: Self)
        ensures
            r@ == Seq::<T>::empty(),
    {
        List { head: None }
    }
}

impl<T> View for List<T> {
    type V = Seq<T>;

    closed spec fn view(&self) -> Seq<T> {
        link_view(self.head)
    }
}

impl<T> List<T> {
    /// Returns the empty list.
    pub fn new() -> (r: Self)
        ensures
            r@ == Seq::<T>::empty(),
    {
        Self { head: None }
    }

    /// Returns a new list with `elem` in front of everything this list
    /// holds. This list is only read: its chain becomes the new node's
    /// suffix, so both handles stay valid and share every old node.
    pub fn prepend(&self, elem: T) -> (r: Self)
        ensures
            r@ == seq![elem] + self@,
    {
        let next = match &self.head {
            Some(rc) => Some(rc_clone(rc)),
            None => None,
        };
        List { head: Some(std::rc::Rc::new(Node { elem, next })) }
    }

    /// Borrows the front element, or returns `None` on the empty list.
    pub fn head(&self) -> (r: Option<&T>)
        ensures
            self@.len() == 0 ==> r is None,
            self@.len() > 0 ==> (r matches Some(v) && *v == self@[0]),
    {
        match &self.head {
            None => None,
            Some(node) => Some(&node.elem),
        }
    }

    /// Returns a new handle to everything after the front element, sharing
    /// the existing nodes rather than copying them; the tail of the empty
    /// list is again the empty list.
    pub fn tail(&self) -> (r: Self)
        ensures
            self@.len() == 0 ==> r@ == Seq::<T>::empty(),
            self@.len() > 0 ==> r@ == self@.drop_first(),
    {
        match &self.head {
            Some(node) => {
                let next = match &node.next {
                    Some(rc) => Some(rc_clone(rc)),
                    None => None,
                };
                proof {
                    assert(link_view(next) =~= self@.drop_first());
                }
                Self { head: next }
            },
            None => Self { head: None },
        }
    }

    /// Counts the owners of this list's first node: list handles whose head
    /// it is, plus nodes of other lists that link to it. A count above one
    /// shows the node is shared, not copied. Returns `None` on the empty
    /// list; a node always has at least its own handle as an owner.
    pub fn head_strong_count(&self) -> (r: Option<usize>)
        ensures
            self@.len() == 0 ==> r is None,
            self@.len() > 0 ==> (r matches Some(c) && c >= 1),
    {
        match &self.head {
            None => None,
            Some(rc) => Some(rc_strong_count(rc)),
        }
    }

    /// Starts a borrowing walk over the whole list, front to back; the list
    /// itself is left untouched, and a second walk sees the same elements.
    pub fn iter(&self) -> (r: ListIntoIter<'_, T>)
        ensures
            r.remaining() == self@,
    {
        ListIntoIter {
            current: match &self.head {
                Some(rc) => Some(&**rc),
                None => None,
            },
        }
    }
}

/// Hands out a borrow of each element in turn, front to back.
pub struct ListIntoIter<'a, T> {
    current: Option<&'a Node<T>>,
}

impl<'a, T> ListIntoIter<'a, T> {
    /// The elements this walk has not yet visited, in the order it will
    /// visit them.
    pub closed spec fn remaining(self) -> Seq<T> {
        match self.current {
            None => Seq::empty(),
            Some(n) => seq![n.elem] + link_view(n.next),
        }
    }

    /// Borrows the next unvisited element, or returns `None` when every
    /// element has been visited.
    pub fn next(&mut self) -> (r: Option<&'a T>)
        ensures
            old(self).remaining().len() == 0 ==> r is None
                && final(self).remaining() == old(self).remaining(),
            old(self).remaining().len() > 0 ==> (r matches Some(v)
                && *v == old(self).remaining()[0]
                && final(self).remaining() == old(self).remaining().drop_first()),
    {
        match self.current {
            Some(node) => {
                self.current = match &node.next {
                    Some(rc) => Some(&**rc),
                    None => None,
                };
                proof {
                    assert(self.remaining() =~= old(self).remaining().drop_first());
                }
                Some(&node.elem)
            },
            None => None,
        }
    }
}

} // verus!
