use vstd::prelude::*;

verus! {

/// The 3.6864 MHz crystal clock.
pub struct MHz3;

impl MHz3 {
    pub const FREQ: u32 = 3686400;
}

} // verus!
