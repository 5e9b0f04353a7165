//! The order-dependent step of the statistics reducer: which elements of a
//! sorted sequence make up its median.

use vstd::prelude::*;

verus! {

/// Position of the lower central element of a sequence of length `n > 0`.
pub open spec fn median_low(n: nat) -> nat {
    if n % 2 == 0 {
        (n / 2 - 1) as nat
    } else {
        n / 2
    }
}

/// Position of the upper central element of a sequence of length `n > 0`;
/// the same as the lower one where `n` is odd.
pub open spec fn median_high(n: nat) -> nat {
    n / 2
}

/// The positions, in a sorted sequence of `n > 0` elements, of the elements
/// whose average is the median: the two central ones where `n` is even, the
/// single central one, twice, where `n` is odd.
pub fn median_positions(n: usize) -> (r: (usize, usize))
    requires
        n > 0,
    ensures
        r.0 == median_low(n as nat),
        r.1 == median_high(n as nat),
        r.0 <= r.1 < n,
        n % 2 == 0 ==> r.0 + 1 == r.1,
        n % 2 == 1 ==> r.0 == r.1,
{
    let mid = n / 2;
    if n % 2 == 0 {
        (mid - 1, mid)
    } else {
        (mid, mid)
    }
}

/// The central elements of the non-empty, sorted `values`: the caller's
/// median is their average.
pub fn median_pair<T: Copy>(values: &Vec<T>) -> (r: (T, T))
    requires
        values.len() > 0,
    ensures
        r.0 == values@[median_low(values.len() as nat) as int],
        r.1 == values@[median_high(values.len() as nat) as int],
{
    let (lo, hi) = median_positions(values.len());
    (values[lo], values[hi])
}

} // verus!
