use vstd::prelude::*;

verus! {

/// How many applications the kernel can hold.
pub const MAX_APP_NUM: usize = 10;

/// Frequency of the `time` counter on the qemu `virt` board, in ticks per second.
pub const CLOCK_FREQ: usize = 12500000;

} // verus!
