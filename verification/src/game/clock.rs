//! Time as the game counts it.
//!
//! The game reads no clock. A shell hands in the current time as a count of
//! milliseconds from a start of its choosing, and durations are counts of
//! milliseconds too.

use vstd::prelude::*;

verus! {

/// The time that has passed from `then` to `now`. A `now` that lies before
/// `then` counts as no time at all.
pub open spec fn elapsed_since(then: u64, now: u64) -> int {
    if now >= then {
        now - then
    } else {
        0
    }
}

/// The time that has passed from `then` to `now`, zero where the clock went
/// backwards.
pub fn elapsed(then: u64, now: u64) -> (passed: u64)
    ensures
        passed == elapsed_since(then, now),
{
    if now >= then {
        now - then
    } else {
        0
    }
}

} // verus!
