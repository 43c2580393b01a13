//! Busy-wait delays calibrated for the 3.6864 MHz clock.

use vstd::prelude::*;

verus! {

/// The iterations of the busy loop that wait `us` microseconds.
///
/// Cycles per microsecond = 3.6864, and one iteration of the loop takes 5
/// cycles (three 1-cycle subtractions and a taken 2-cycle branch), so the
/// target is `us * 3.6864 / 5 = us * 0.73728` iterations, computed in
/// fixed point as `us * 189 / 256` (about `us * 0.738`, rounding down).
pub fn delay_loop_iterations(us: u32) -> (r: u32)
    requires
        us * 189 <= u32::MAX,
    ensures
        r == us * 189 / 256,
{
    if us == 0 {
        return 0;
    }
    let prod = us * 189;
    assert(prod >> 8u32 == prod / 256) by (bit_vector);
    prod >> 8
}

/// Microseconds of one step of a millisecond delay; a delay of `ms`
/// milliseconds waits this long `ms` times.
pub const MS_STEP_US: u32 = 1000;

} // verus!
