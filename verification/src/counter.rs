//! Counters that start over after their largest value.
use vstd::prelude::*;

verus! {

/// The next value of a counter that starts over after its largest value.
pub open spec fn bump(count: u64) -> u64 {
    if count == u64::MAX {
        0
    } else {
        (count + 1) as u64
    }
}

/// Computes [`bump`].
pub fn next_count(count: u64) -> (next: u64)
    ensures
        next == bump(count),
        next != count,
{
    if count == u64::MAX {
        0
    } else {
        count + 1
    }
}

} // verus!
