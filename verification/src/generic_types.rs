//! The largest item of a list, for any type with an order.
use vstd::prelude::*;
use vstd::std_specs::cmp::PartialOrdIs;
use vstd::std_specs::cmp::PartialOrdSpec;

verus! {

/// The position of the largest of the first `n` items of `list`: the first
/// item to begin with, and then each item in turn that is greater than the
/// largest before it. Of several largest items this is the first.
pub open spec fn largest_position<T: PartialOrd>(list: Seq<T>, n: int) -> int
    decreases n,
{
    if n <= 1 {
        0
    } else {
        let best = largest_position(list, n - 1);
        if list[n - 1].is_gt(&list[best]) {
            n - 1
        } else {
            best
        }
    }
}

/// Whether comparing two values of the type does what the type's
/// specification of its order says.
pub open spec fn order_is_specified<T: PartialOrd>() -> bool {
    T::obeys_partial_cmp_spec()
}

/// The largest item of a list that is not empty. The result is always one
/// of the items; for a type whose comparison does what its specification
/// says, it is the item at [`largest_position`].
pub fn largest<T: PartialOrd>(list: &[T]) -> (item: &T)
    requires
        list@.len() > 0,
    ensures
        exists|i: int| 0 <= i < list@.len() && *item == list@[i],
        order_is_specified::<T>() ==> *item == list@[largest_position(
            list@,
            list@.len() as int,
        )],
{
    let mut best: usize = 0;
    let mut i: usize = 1;
    while i < list.len()
        invariant
            1 <= i <= list@.len(),
            best < i,
            order_is_specified::<T>() ==> best == largest_position(list@, i as int),
        decreases list@.len() - i,
    {
        if list[i] > list[best] {
            best = i;
        }
        i = i + 1;
    }
    &list[best]
}

/// For whole numbers the largest item is the greatest: no item of the list
/// is greater than the one at [`largest_position`], and every item before
/// it is smaller.
pub proof fn law_largest_number_is_greatest(list: Seq<i32>, n: int)
    requires
        1 <= n <= list.len(),
    ensures
        0 <= largest_position(list, n) < n,
        forall|i: int| 0 <= i < n ==> #[trigger] list[i] <= list[largest_position(list, n)],
        forall|i: int|
            0 <= i < largest_position(list, n) ==> #[trigger] list[i] < list[largest_position(
                list,
                n,
            )],
    decreases n,
{
    if n > 1 {
        law_largest_number_is_greatest(list, n - 1);
    }
}

} // verus!
