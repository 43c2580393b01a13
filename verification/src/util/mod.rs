use core::ops::{Div, Rem};

use vstd::prelude::*;
use vstd::std_specs::ops::{DivSpec, RemSpec};

pub mod timer;
pub mod voltage_divider;

verus! {

/// Returns a tuple of (whole number, fraction),
/// where fraction is determined by `n`
pub fn split_fixed_point<T: Div<Output = T> + Rem<Output = T> + Copy>(value: T, n: T) -> (r: (
    T,
    T,
))
    requires
        value.div_req(n),
        value.rem_req(n),
    ensures
        T::obeys_div_spec() ==> r.0 == value.div_spec(n),
        T::obeys_rem_spec() ==> r.1 == value.rem_spec(n),
{
    (value / n, value % n)
}

} // verus!
