//! An earlier form of the transmitter's clock (timer 2 with a /128
//! prescaler): the interrupt raises a flag that the main loop reads and
//! clears.

use vstd::prelude::*;

verus! {

/// Returns whether the timer interrupt raised the flag since the last
/// call, and clears it.
pub fn should_tick(flag: &mut bool) -> (r: bool)
    ensures
        r == *old(flag),
        *final(flag) == false,
{
    let flag_value = *flag;
    *flag = false;
    flag_value
}

} // verus!
