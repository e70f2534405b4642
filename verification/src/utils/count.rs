//! Counters of what a stage has seen.

use vstd::prelude::*;

verus! {

/// A counter one step further; it stays at the largest value.
pub open spec fn counted(n: u64) -> u64 {
    if n == u64::MAX {
        n
    } else {
        (n + 1) as u64
    }
}

/// One more; the counter stays at the largest value.
pub fn count(n: u64) -> (r: u64)
    ensures
        r == counted(n),
{
    if n == u64::MAX {
        n
    } else {
        n + 1
    }
}

} // verus!
