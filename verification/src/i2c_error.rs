use vstd::prelude::*;

verus! {

/// The ways a transfer on the I2C bus can fail.
#[derive(Clone, Copy, Debug, PartialEq, Eq, Structural)]
pub enum I2cError {
    /// Lost arbitration while trying to acquire the bus
    ArbitrationLost,
    /// No slave answered for this address or a slave replied NACK
    AddressNack,
    /// The slave replied NACK to a data byte
    DataNack,
    /// A bus error occurred
    BusError,
    /// An unknown error occurred
    Unknown,
}

} // verus!
