//! Integer arithmetic.
use vstd::prelude::*;

verus! {

/// The sum of two integers that fits an `i32`.
pub fn add(left: i32, right: i32) -> (r: i32)
    requires
        i32::MIN <= left + right <= i32::MAX,
    ensures
        r == left + right,
{
    left + right
}

} // verus!
