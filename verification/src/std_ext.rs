//! What the crate takes from the standard library beyond vstd's specifications.

use std::collections::VecDeque;
use vstd::prelude::*;

verus! {

/// `std::io::Error`. Nothing is known of a value of it; the crate only passes it on.
#[verifier::external_type_specification]
#[verifier::external_body]
pub struct ExIoError(std::io::Error);

/// `std::time::Instant`. Nothing is known of a value of it; the crate only stores it.
#[verifier::external_type_specification]
#[verifier::external_body]
pub struct ExInstant(std::time::Instant);

/// `Instant::now`. What it returns depends on the clock, so nothing is claimed of it.
pub assume_specification[ std::time::Instant::now ]() -> (now: std::time::Instant)
;

/// `VecDeque::swap_remove_back`: takes out the element at `index` and puts the last element
/// in its place; where there is no element at `index`, it returns `None` and changes
/// nothing.
#[verifier::external_body]
pub(crate) fn swap_remove_back<T>(queue: &mut VecDeque<T>, index: usize) -> (removed: Option<T>)
    ensures
        index < old(queue)@.len() ==> {
            &&& removed == Some(old(queue)@[index as int])
            &&& final(queue)@ == old(queue)@.update(index as int, old(queue)@.last()).drop_last()
        },
        index >= old(queue)@.len() ==> {
            &&& removed is None
            &&& final(queue)@ == old(queue)@
        },
{
    queue.swap_remove_back(index)
}

} // verus!
