//! The cadence of the live preview: one frame every 33 milliseconds.

use vstd::prelude::*;

verus! {

/// Length of a tick in nanoseconds: 33 milliseconds.
pub const TICK_NANOS: u64 = 33_000_000;

/// Time left until the next tick, `elapsed` nanoseconds after the last one.
pub open spec fn time_left(elapsed: nat) -> nat {
    if elapsed >= TICK_NANOS {
        0
    } else {
        (TICK_NANOS - elapsed) as nat
    }
}

/// How long the wait for input may last, in nanoseconds, when `elapsed`
/// nanoseconds have passed since the last tick: the time left until the next
/// tick, and nothing once it is due. A wait of this length never ends after the
/// tick's deadline.
pub fn poll_timeout(elapsed: u128) -> (timeout: u64)
    ensures
        timeout == time_left(elapsed as nat),
        timeout <= TICK_NANOS,
        elapsed < TICK_NANOS ==> elapsed + timeout == TICK_NANOS,
        elapsed >= TICK_NANOS ==> timeout == 0,
{
    if elapsed >= TICK_NANOS as u128 {
        0
    } else {
        TICK_NANOS - (elapsed as u64)
    }
}

/// Whether a tick is due, `elapsed` nanoseconds after the last one.
pub fn tick_due(elapsed: u128) -> (due: bool)
    ensures
        due == (elapsed >= TICK_NANOS),
        due == (time_left(elapsed as nat) == 0),
{
    elapsed >= TICK_NANOS as u128
}

} // verus!
