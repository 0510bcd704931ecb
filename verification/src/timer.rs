//! Timer arithmetic: the `time` counter runs at `CLOCK_FREQ` ticks per second.

use vstd::prelude::*;

use crate::config::CLOCK_FREQ;

verus! {

/// Time slices per second.
pub const TICKS_PER_SEC: usize = 100;

/// Microseconds per second.
pub const MICRO_PER_SEC: usize = 1_000_000;

/// The deadline of the next timer interrupt, one time slice after the
/// counter value `now`: the value the kernel hands to the timer.
pub fn set_next_trigger(now: usize) -> (deadline: usize)
    requires
        now + CLOCK_FREQ / TICKS_PER_SEC <= usize::MAX,
    ensures
        deadline == now + CLOCK_FREQ / TICKS_PER_SEC,
{
    now + CLOCK_FREQ / TICKS_PER_SEC
}

/// The counter value `time` in microseconds.
pub fn get_time_us(time: usize) -> (us: usize)
    ensures
        us == time / (CLOCK_FREQ / MICRO_PER_SEC),
{
    time / (CLOCK_FREQ / MICRO_PER_SEC)
}

} // verus!
