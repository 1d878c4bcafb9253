//! Orderings built field by field, as calendar values are compared.

use vstd::prelude::*;
use core::cmp::Ordering;

verus! {

/// The order of two integers.
pub open spec fn compare(a: int, b: int) -> Ordering {
    if a < b {
        Ordering::Less
    } else if a > b {
        Ordering::Greater
    } else {
        Ordering::Equal
    }
}

/// The lexicographic combination of two orderings: the first decides unless
/// it is `Equal`.
pub open spec fn then(first: Ordering, second: Ordering) -> Ordering {
    if first == Ordering::Equal {
        second
    } else {
        first
    }
}

/// Compares two integers.
pub fn compare_u16(a: u16, b: u16) -> (r: Ordering)
    ensures
        r == compare(a as int, b as int),
{
    if a < b {
        Ordering::Less
    } else if a > b {
        Ordering::Greater
    } else {
        Ordering::Equal
    }
}

/// Combines two orderings lexicographically.
pub fn then_compare(first: Ordering, second: Ordering) -> (r: Ordering)
    ensures
        r == then(first, second),
{
    match first {
        Ordering::Equal => second,
        _ => first,
    }
}

} // verus!
