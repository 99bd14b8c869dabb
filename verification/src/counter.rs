//! Counters of events that a task keeps for tooling to read: each starts at
//! zero, only ever goes up by one, and wraps around at the end of its
//! range.

use vstd::prelude::*;

verus! {

/// A counter after one more event.
pub open spec fn bumped(count: u32) -> u32 {
    if count == u32::MAX {
        0
    } else {
        (count + 1) as u32
    }
}

/// A counter after `by` more events.
pub open spec fn advanced(count: u32, by: nat) -> u32 {
    ((count + by) % 0x1_0000_0000) as u32
}

/// Adds one to a counter, wrapping around at the end of its range.
pub fn bump(count: u32) -> (after: u32)
    ensures
        after == bumped(count),
{
    count.wrapping_add(1)
}

/// Counting one event and then `by` more is counting `by + 1`.
pub proof fn lemma_advanced_step(count: u32, by: nat)
    ensures
        advanced(bumped(count), by) == advanced(count, by + 1),
        advanced(count, 0) == count,
{
}

} // verus!
