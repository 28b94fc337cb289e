//! Addition of machine integers.
use vstd::prelude::*;

verus! {

/// The sum of two numbers that fits the machine word.
pub fn add(left: usize, right: usize) -> (sum: usize)
    requires
        left + right <= usize::MAX,
    ensures
        sum == left + right,
{
    left + right
}

} // verus!
