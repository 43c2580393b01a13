use vstd::prelude::*;

verus! {

/// A received frame: the id of the sending sensor and its readout bytes.
pub struct ClimateSensorDataFrame<'a> {
    pub sensor_id: u8,
    pub readouts: &'a [u8],
}

} // verus!
