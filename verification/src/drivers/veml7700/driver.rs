use core::marker::PhantomData;

use vstd::prelude::*;

use crate::drivers::veml7700::config::Config;
use crate::le_bytes::{u16_from_le_bytes, u16_le_value};
use crate::veml7700::{register_write, register_write_bytes};

verus! {

/// The register that holds the ALS reading.
pub const VALUE_REGISTER_INDEX: u8 = 0x05;

pub struct Veml7700<CONFIG> {
    address: u8,
    _config: PhantomData<CONFIG>,
}

/// Light level of a raw reading under a configuration's scaling.
pub open spec fn lux_value(raw: int, num: int, den: int) -> int {
    raw * num / den
}

impl<CONFIG: Config> Veml7700<CONFIG> {
    pub closed spec fn spec_address(&self) -> u8 {
        self.address
    }

    pub fn new(address: u8) -> (r: Self)
        ensures
            r.spec_address() == address,
    {
        Self { address, _config: PhantomData }
    }

    /// The bus address the sensor answers on.
    pub fn address(&self) -> (r: u8)
        ensures
            r == self.spec_address(),
    {
        self.address
    }

    /// The four register writes initialisation sends, in order: registers
    /// 0x00 to 0x03 with the words of the configuration.
    pub fn init_commands() -> (r: [[u8; 3]; 4])
        ensures
            r@[0]@ == register_write(0x00, CONFIG::BITS_0x00),
            r@[1]@ == register_write(0x01, CONFIG::BITS_0x01),
            r@[2]@ == register_write(0x02, CONFIG::BITS_0x02),
            r@[3]@ == register_write(0x03, CONFIG::BITS_0x03),
    {
        let registers: [u16; 4] = [
            CONFIG::BITS_0x00,
            CONFIG::BITS_0x01,
            CONFIG::BITS_0x02,
            CONFIG::BITS_0x03,
        ];
        let mut r: [[u8; 3]; 4] = [[0u8; 3]; 4];
        let mut i: usize = 0;
        while i < registers.len()
            invariant
                i <= 4,
                registers@ == seq![
                    CONFIG::BITS_0x00,
                    CONFIG::BITS_0x01,
                    CONFIG::BITS_0x02,
                    CONFIG::BITS_0x03,
                ],
                forall|k: int| 0 <= k < i ==> #[trigger] r@[k]@ == register_write(
                    k as u8,
                    registers@[k],
                ),
            decreases 4 - i,
        {
            let value = registers[i];
            r[i] = register_write_bytes(i as u8, value);
            i += 1;
        }
        r
    }

    /// The light level of the two bytes read from the value register.
    pub fn lux_from_bytes(buffer: &[u8; 2]) -> (r: u32)
        requires
            u16_le_value(buffer[0], buffer[1]) * CONFIG::LUX_NUM <= u32::MAX,
            CONFIG::LUX_DEN > 0,
        ensures
            r == lux_value(u16_le_value(buffer[0], buffer[1]), CONFIG::LUX_NUM as int, CONFIG::LUX_DEN as int),
    {
        let raw = u16_from_le_bytes([buffer[0], buffer[1]]);
        Self::raw_to_lux(raw)
    }

    /// Scaled conversion function from the datasheet, scaled to avoid
    /// floating point arithmetic.
    pub fn raw_to_lux(raw: u16) -> (r: u32)
        requires
            raw * CONFIG::LUX_NUM <= u32::MAX,
            CONFIG::LUX_DEN > 0,
        ensures
            r == lux_value(raw as int, CONFIG::LUX_NUM as int, CONFIG::LUX_DEN as int),
    {
        (raw as u32 * CONFIG::LUX_NUM) / CONFIG::LUX_DEN
    }
}

} // verus!
