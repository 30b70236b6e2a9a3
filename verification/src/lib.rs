//! A family of singly linked list exercises, each exploring a different
//! ownership pattern: exclusive ownership with iterative teardown, and
//! shared ownership with structural sharing via reference counting.

use vstd::prelude::*;

pub mod immutable_singly_linked_list;
pub mod iterable_singly_linked_list;
pub mod second;
pub mod shared_ownership_list;
pub mod singly_linked_list;

verus! {

/// Relies on `Rc::clone`: the clone is a new handle to the same allocation,
/// so it carries the same value as the handle it was cloned from.
#[verifier::external_body]
pub(crate) fn rc_clone<T>(v: &std::rc::Rc<T>) -> (r: std::rc::Rc<T>)
    ensures
        r == *v,
{
    std::rc::Rc::clone(v)
}

/// Relies on `Rc::strong_count`: it returns the number of strong handles
/// that own the allocation, and the handle passed in is one of them, so the
/// count is at least one.
#[verifier::external_body]
pub(crate) fn rc_strong_count<T>(v: &std::rc::Rc<T>) -> (r: usize)
    ensures
        r >= 1,
{
    std::rc::Rc::strong_count(v)
}

} // verus!
