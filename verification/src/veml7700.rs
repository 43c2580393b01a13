//! A VEML7700 ambient light sensor driver whose sensitivity and
//! integration time are type parameters.

use core::marker::PhantomData;

use vstd::prelude::*;

use crate::le_bytes::{u16_from_le_bytes, u16_le_value};

pub mod config;

verus! {

/// The register that holds the ALS reading.
pub const VALUE_REGISTER_INDEX: u8 = 0x5;

/// The configuration words written to registers 0x00 to 0x03 at
/// initialisation: sensitivity x2, integration time 100 ms, no
/// persistence, no interrupt, ALS on; no thresholds; power saving on.
pub const COMMAND_00: u16 = 0b000_01_0_0000_00_00_0_0;

pub const COMMAND_01: u16 = 0b0;

pub const COMMAND_02: u16 = 0b0;

pub const COMMAND_03: u16 = 0b0000000000000_00_1;

pub struct Veml7700<SM, IT> {
    address: u8,
    _sm: PhantomData<SM>,
    _it: PhantomData<IT>,
}

/// The bytes of one register write: register index, then the word least
/// significant byte first.
pub open spec fn register_write(reg: u8, value: u16) -> Seq<u8> {
    seq![reg, (value % 256) as u8, (value / 256) as u8]
}

/// Splits a register word into the three bytes that write it.
pub fn register_write_bytes(reg: u8, value: u16) -> (r: [u8; 3])
    ensures
        r@ == register_write(reg, value),
        u16_le_value(r[1], r[2]) == value,
{
    let lsb = (value & 0xFF) as u8;
    let msb = (value >> 8u16) as u8;
    assert(lsb == (value % 256) as u8 && msb == (value / 256) as u8) by (bit_vector)
        requires
            lsb == (value & 0xFF) as u8,
            msb == (value >> 8u16) as u8,
    ;
    let r = [reg, lsb, msb];
    assert(r@ =~= register_write(reg, value));
    r
}

impl<SM: config::AlsSm, IT: config::AlsIt> Veml7700<SM, IT> {
    pub closed spec fn spec_address(&self) -> u8 {
        self.address
    }

    pub fn new(address: u8) -> (r: Self)
        ensures
            r.spec_address() == address,
    {
        Self { address, _sm: PhantomData, _it: PhantomData }
    }

    /// The bus address the sensor answers on.
    pub fn address(&self) -> (r: u8)
        ensures
            r == self.spec_address(),
    {
        self.address
    }

    /// The four register writes initialisation sends, in order.
    pub fn init_commands() -> (r: [[u8; 3]; 4])
        ensures
            r@[0]@ == register_write(0x00, COMMAND_00),
            r@[1]@ == register_write(0x01, COMMAND_01),
            r@[2]@ == register_write(0x02, COMMAND_02),
            r@[3]@ == register_write(0x03, COMMAND_03),
    {
        [
            register_write_bytes(0x00, COMMAND_00),
            register_write_bytes(0x01, COMMAND_01),
            register_write_bytes(0x02, COMMAND_02),
            register_write_bytes(0x03, COMMAND_03),
        ]
    }

    /// The light level of the two bytes read from the value register.
    pub fn lux_from_bytes(buffer: &[u8; 2]) -> (r: u32)
        ensures
            r == u16_le_value(buffer[0], buffer[1]) * 42 / 1000,
    {
        let raw = u16_from_le_bytes([buffer[0], buffer[1]]);
        Self::raw_to_lux(raw)
    }

    /// Scaled conversion function from the datasheet, scaled to avoid
    /// floating point arithmetic.
    pub fn raw_to_lux(raw: u16) -> (r: u32)
        ensures
            r == raw * 42 / 1000,
    {
        (raw as u32 * 42) / 1000
    }
}

} // verus!
