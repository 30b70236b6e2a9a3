//! The full version of the exclusively owned stack: generic elements,
//! `peek`/`peek_mut`, and three ways to walk the list — consuming it,
//! borrowing each element, or borrowing each element mutably.

use vstd::prelude::*;
use vstd::seq_lib::*;

verus! {

#[derive(Debug)]
struct Node<T> {
    elem: T,
    next: Link<T>,
}

type Link<T> = Option<Box<Node<T>>>;

/// The sequence of elements reachable from a link, head first.
spec fn link_view<T>(l: Link<T>) -> Seq<T>
    decreases l,
{
    match l {
        None => Seq::empty(),
        Some(node) => seq![node.elem] + link_view(node.next),
    }
}

#[derive(Debug)]
pub struct List<T> {
    head: Link<T>,
}

impl<T> Default for List<T> {
    /// The default list is the empty list.
    fn default() -> (r: Self)
        ensures
            r@ == Seq::<T>::empty(),
    {
        List { head: None }
    }
}

impl<T> View for List<T> {
    type V = Seq<T>;

    closed spec fn view(&self) -> Seq<T> {
        link_view(self.head)
    }
}

impl<T> List<T> {
    /// Returns the empty list.
    pub fn new() -> (r: Self)
        ensures
            r@ == Seq::<T>::empty(),
    {
        List { head: None }
    }

    /// Puts `new` in front of every element already in the list.
    pub fn push(&mut self, new: T)
        ensures
            final(self)@ == seq![new] + old(self)@,
    {
        let node_link: Link<T> = Some(Box::new(Node { elem: new, next: self.head.take() }));
        self.head = node_link;
    }

    /// Detaches the front element and returns it; `None` on the empty list.
    pub fn pop(&mut self) -> (r: Option<T>)
        ensures
            old(self)@.len() == 0 ==> r is None && final(self)@ == old(self)@,
            old(self)@.len() > 0 ==> r == Some(old(self)@[0]) && final(self)@ == old(self)@.drop_first(),
    {
        match self.head.take() {
            None => None,
            Some(node) => {
                self.head = node.next;
                proof {
                    assert(self@ =~= link_view(old(self).head).drop_first());
                }
                Some(node.elem)
            },
        }
    }

    /// Borrows the front element without removing it.
    pub fn peek(&self) -> (r: Option<&T>)
        ensures
            self@.len() == 0 ==> r is None,
            self@.len() > 0 ==> (r matches Some(v) && *v == self@[0]),
    {
        match &self.head {
            None => None,
            Some(node) => Some(&node.elem),
        }
    }

    /// Borrows the front element mutably, so that the caller can replace it
    /// in place; the rest of the list is untouched.
    pub fn peek_mut(&mut self) -> (r: Option<&mut T>)
        ensures
            old(self)@.len() == 0 ==> r is None && final(self)@ == old(self)@,
            old(self)@.len() > 0 ==> (r matches Some(v) && *v == old(self)@[0]
                && final(self)@ == old(self)@.update(0, *final(v))),
    {
        match &mut self.head {
            None => None,
            Some(node) => Some(&mut node.elem),
        }
    }

    /// Starts a borrowing walk over the whole list, front to back; the list
    /// itself is left untouched.
    pub fn iter(&self) -> (r: ListIter<'_, T>)
        ensures
            r.remaining() == self@,
    {
        ListIter {
            current: match &self.head {
                Some(b) => Some(&**b),
                None => None,
            },
        }
    }

    /// Starts a walk that mutably borrows each element in turn, front to
    /// back. The walk holds this list's one mutable borrow, so the elements
    /// it yields never alias, and writes through them land in the list.
    pub fn iter_mut(&mut self) -> (r: ListIterMut<'_, T>)
        ensures
            r.remaining() == old(self)@,
    {
        ListIterMut {
            current: match &mut self.head {
                Some(b) => Some(&mut **b),
                None => None,
            },
        }
    }

    /// Starts a consuming walk over the whole list, front to back.
    pub fn into_iter(self) -> (r: ListIntoIter<T>)
        ensures
            r.remaining() == self@,
    {
        ListIntoIter { list: self }
    }
}

/// Hands out a borrow of each element in turn, front to back.
pub struct ListIter<'a, T> {
    current: Option<&'a Node<T>>,
}

impl<'a, T> ListIter<'a, T> {
    /// The elements this walk has not yet visited, in the order it will
    /// visit them.
    pub closed spec fn remaining(self) -> Seq<T> {
        match self.current {
            None => Seq::empty(),
            Some(n) => seq![n.elem] + link_view(n.next),
        }
    }

    /// Borrows the next unvisited element, or returns `None` when every
    /// element has been visited.
    pub fn next(&mut self) -> (r: Option<&'a T>)
        ensures
            old(self).remaining().len() == 0 ==> r is None
                && final(self).remaining() == old(self).remaining(),
            old(self).remaining().len() > 0 ==> (r matches Some(v)
                && *v == old(self).remaining()[0]
                && final(self).remaining() == old(self).remaining().drop_first()),
    {
        match self.current {
            Some(node) => {
                self.current = match &node.next {
                    Some(b) => Some(&**b),
                    None => None,
                };
                proof {
                    assert(self.remaining() =~= old(self).remaining().drop_first());
                }
                Some(&node.elem)
            },
            None => None,
        }
    }
}

/// Hands out each element by value in turn, front to back, consuming the
/// list as it goes.
pub struct ListIntoIter<T> {
    list: List<T>,
}

impl<T> ListIntoIter<T> {
    /// The elements this walk has not yet yielded, in the order it will
    /// yield them.
    pub closed spec fn remaining(self) -> Seq<T> {
        self.list@
    }

    /// Removes and returns the next element, or `None` when the list has
    /// been exhausted.
    pub fn next(&mut self) -> (r: Option<T>)
        ensures
            old(self).remaining().len() == 0 ==> r is None
                && final(self).remaining() == old(self).remaining(),
            old(self).remaining().len() > 0 ==> (r == Some(old(self).remaining()[0])
                && final(self).remaining() == old(self).remaining().drop_first()),
    {
        self.list.pop()
    }
}

/// Hands out a mutable borrow of each element in turn, front to back, one
/// at a time, so no two of the borrows it yields alias.
pub struct ListIterMut<'a, T> {
    current: Option<&'a mut Node<T>>,
}

impl<'a, T> ListIterMut<'a, T> {
    /// The elements this walk has not yet visited, in the order it will
    /// visit them, with the values they hold now.
    pub closed spec fn remaining(self) -> Seq<T> {
        match self.current {
            None => Seq::empty(),
            Some(n) => seq![(*n).elem] + link_view((*n).next),
        }
    }

    /// Mutably borrows the next unvisited element, or returns `None` when
    /// every element has been visited.
    pub fn next(&mut self) -> (r: Option<&'a mut T>)
        ensures
            old(self).remaining().len() == 0 ==> r is None
                && final(self).remaining() == old(self).remaining(),
            old(self).remaining().len() > 0 ==> (r matches Some(v)
                && *v == old(self).remaining()[0]
                && final(self).remaining() == old(self).remaining().drop_first()),
    {
        match self.current.take() {
            Some(node) => {
                self.current = match &mut node.next {
                    Some(b) => Some(&mut **b),
                    None => None,
                };
                Some(&mut node.elem)
            },
            None => None,
        }
    }
}

/// Detaches every node in turn, so that no chain of ownership is ever
/// released recursively.
fn unlink_all<T>(chain: Link<T>)
    opens_invariants none
    no_unwind
{
    let mut current = chain;
    loop
        decreases link_view(current).len(),
    {
        match current {
            Some(node) => {
                current = node.next;
            },
            None => {
                break ;
            },
        }
    }
}

impl<T> Drop for List<T> {
    /// Tears the chain down iteratively: dropping a long list must not
    /// recurse once per node, or it would exhaust the call stack.
    fn drop(&mut self)
        opens_invariants none
        no_unwind
    {
        let mut current: Link<T> = None;
        core::mem::swap(&mut self.head, &mut current);
        unlink_all(current);
    }
}

/// The contents of a list after the elements of `es` are pushed onto a list
/// holding `s`, first element of `es` first: each push puts its element in
/// front of everything already there.
pub open spec fn after_pushes<T>(s: Seq<T>, es: Seq<T>) -> Seq<T>
    decreases es.len(),
{
    if es.len() == 0 {
        s
    } else {
        after_pushes(seq![es[0]] + s, es.drop_first())
    }
}

/// Last in, first out: a list built by pushing the elements of `es` in order
/// holds them in reverse, in front of whatever the list held before. Since
/// `pop` always returns the front element, the pops that empty such a list
/// return the pushed elements from the last back to the first.
pub proof fn lemma_after_pushes_reverses<T>(s: Seq<T>, es: Seq<T>)
    ensures
        after_pushes(s, es) == es.reverse() + s,
    decreases es.len(),
{
    if es.len() == 0 {
        assert(after_pushes(s, es) =~= es.reverse() + s);
    } else {
        lemma_after_pushes_reverses(seq![es[0]] + s, es.drop_first());
        assert(es.drop_first().reverse() + (seq![es[0]] + s) =~= es.reverse() + s);
    }
}

} // verus!
