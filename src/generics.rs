//! Routines over values of any type.
use vstd::laws_cmp::obeys_partial_cmp_spec_properties;
use vstd::prelude::*;
use vstd::std_specs::cmp::{PartialOrdIs, PartialOrdSpec};

verus! {

/// A point whose two coordinates may have different types.
pub struct Point<T, U> {
    pub x: T,
    pub y: U,
}

impl<T, U> Point<T, U> {
    /// A point with this point's `x` and `other`'s `y`.
    pub fn mixup<V, W>(self, other: Point<V, W>) -> (r: Point<T, W>)
        ensures
            r.x == self.x,
            r.y == other.y,
    {
        Point { x: self.x, y: other.y }
    }
}

/// The largest element of a non-empty list: one of its elements, and no
/// element is greater.  `T`'s comparison must follow its documented laws and
/// no value may be greater than itself.
pub fn get_largest<T: PartialOrd + Copy>(list: Vec<T>) -> (r: T)
    requires
        list@.len() > 0,
        T::obeys_partial_cmp_spec(),
        obeys_partial_cmp_spec_properties::<T>(),
        forall|x: T| !x.is_gt(&x),
    ensures
        list@.contains(r),
        forall|i: int| 0 <= i < list@.len() ==> !(#[trigger] list@[i]).is_gt(&r),
{
    let mut largest = list[0];
    let mut k: usize = 0;
    while k < list.len()
        invariant
            T::obeys_partial_cmp_spec(),
            obeys_partial_cmp_spec_properties::<T>(),
            forall|x: T| !x.is_gt(&x),
            0 <= k <= list@.len(),
            list@.contains(largest),
            forall|i: int| 0 <= i < k ==> !(#[trigger] list@[i]).is_gt(&largest),
        decreases list@.len() - k,
    {
        let number = list[k];
        let ghost before = largest;
        if number > largest {
            largest = number;
            proof {
                assert forall|i: int| 0 <= i < k implies !(#[trigger] list@[i]).is_gt(&largest) by {
                    reveal(obeys_partial_cmp_spec_properties);
                    if list@[i].is_gt(&largest) {
                        assert(list@[i].is_gt(&before));
                    }
                }
            }
        }
        k = k + 1;
    }
    largest
}

} // verus!
