use core::marker::PhantomData;

use vstd::prelude::*;

use crate::drivers::bmp280::config::Config;
use crate::i2c_error::I2cError;
use crate::le_bytes::{i16_from_le_bytes, i16_le_value, u16_from_le_bytes, u16_le_value};

verus! {

pub const CTRL_MEAS_REGISTER_ADDRESS: u8 = 0xf4;

pub const CONFIG_REGISTER_ADDRESS: u8 = 0xf5;

/// The register a measurement read starts at.
pub const TEMPERATURE_MS_BYTE_ADDRESS: u8 = 0xfa;

pub const PRESSURE_MS_BYTE_ADDRESS: u8 = 0xf7;

/// The register the calibration words start at.
pub const COMPENSATION_START_ADDRESS: u8 = 0x88;

pub const N_COMPENSATION_BYTES: usize = 24;

pub struct Bmp280<CONFIG> {
    address: u8,
    compensations: Option<Bmp280Compensations>,
    _config: PhantomData<CONFIG>,
}

impl<CONFIG: Config> Bmp280<CONFIG> {
    pub closed spec fn spec_address(&self) -> u8 {
        self.address
    }

    /// The calibration words read at initialisation, if it has happened.
    pub closed spec fn spec_compensations(&self) -> Option<Seq<int>> {
        match self.compensations {
            Some(c) => Some(c@),
            None => None,
        }
    }

    pub fn new(address: u8) -> (r: Self)
        ensures
            r.spec_address() == address,
            r.spec_compensations() is None,
    {
        Self { address, compensations: None, _config: PhantomData }
    }

    /// The bus address the sensor answers on.
    pub fn address(&self) -> (r: u8)
        ensures
            r == self.spec_address(),
    {
        self.address
    }

    /// The two register writes initialisation sends, in order: the
    /// ctrl_meas value of the configuration, then its config value.
    pub fn init_commands() -> (r: [[u8; 2]; 2])
        ensures
            r@[0]@ == seq![CTRL_MEAS_REGISTER_ADDRESS, CONFIG::CTRL_MEAS_VALUE],
            r@[1]@ == seq![CONFIG_REGISTER_ADDRESS, CONFIG::CONFIG_VALUE],
    {
        let r = [
            [CTRL_MEAS_REGISTER_ADDRESS, CONFIG::CTRL_MEAS_VALUE],
            [CONFIG_REGISTER_ADDRESS, CONFIG::CONFIG_VALUE],
        ];
        assert(r@[0]@ =~= seq![CTRL_MEAS_REGISTER_ADDRESS, CONFIG::CTRL_MEAS_VALUE]);
        assert(r@[1]@ =~= seq![CONFIG_REGISTER_ADDRESS, CONFIG::CONFIG_VALUE]);
        r
    }

    /// Completes initialisation with the calibration words read from the
    /// sensor.
    pub fn store_compensations(&mut self, compensations: Bmp280Compensations)
        ensures
            final(self).spec_address() == old(self).spec_address(),
            final(self).spec_compensations() == Some(compensations@),
    {
        self.compensations = Some(compensations);
    }

    /// The reading made of a raw measurement: the temperature as read and
    /// the pressure as an unsigned value (its 32-bit pattern; the raw
    /// values of `Bmp280RawData::from_buffer` are never negative).
    pub fn read(&self, raw: &Bmp280RawData) -> (r: Bmp280Data)
        ensures
            r.temperature == raw.temperature,
            r.pressure == raw.pressure as u32,
            raw.pressure >= 0 ==> r.pressure == raw.pressure,
    {
        Bmp280Data { temperature: raw.temperature, pressure: raw.pressure as u32 }
    }
}

pub enum Bmp280ReadError {
    NotInitialized,
    I2cError(I2cError),
}

impl From<I2cError> for Bmp280ReadError {
    fn from(value: I2cError) -> (r: Self)
        ensures
            r == Bmp280ReadError::I2cError(value),
    {
        Self::I2cError(value)
    }
}

impl vstd::std_specs::convert::FromSpecImpl<I2cError> for Bmp280ReadError {
    open spec fn obeys_from_spec() -> bool {
        true
    }

    open spec fn from_spec(v: I2cError) -> Self {
        Bmp280ReadError::I2cError(v)
    }
}

/// A 20-bit measurement value from the three bytes that hold it: most
/// significant byte, least significant byte, then four more bits in the
/// high half of the last byte.
pub open spec fn raw_20bit(msb: u8, lsb: u8, xlsb: u8) -> int {
    msb * 0x1000 + lsb * 0x10 + xlsb / 16
}

pub struct Bmp280RawData {
    pub temperature: i32,
    pub pressure: i32,
}

impl Bmp280RawData {
    /// The raw values of the six bytes a measurement read returns: the
    /// pressure from the first three, the temperature from the last three.
    pub fn from_buffer(buffer: &[u8; 6]) -> (r: Self)
        ensures
            r.pressure == raw_20bit(buffer[0], buffer[1], buffer[2]),
            r.temperature == raw_20bit(buffer[3], buffer[4], buffer[5]),
            0 <= r.pressure < 0x10_0000,
            0 <= r.temperature < 0x10_0000,
    {
        let temperature = read_20bit(buffer[3], buffer[4], buffer[5]);
        let pressure = read_20bit(buffer[0], buffer[1], buffer[2]);
        Bmp280RawData { temperature, pressure }
    }
}

fn read_20bit(msb: u8, lsb: u8, xlsb: u8) -> (r: i32)
    ensures
        r == raw_20bit(msb, lsb, xlsb),
        0 <= r < 0x10_0000,
{
    let r = ((msb as i32) << 12i32) | ((lsb as i32) << 4i32) | ((xlsb as i32) >> 4i32);
    assert(r == msb * 0x1000 + lsb * 0x10 + xlsb / 16 && 0 <= r < 0x10_0000) by (bit_vector)
        requires
            r == ((msb as i32) << 12i32) | ((lsb as i32) << 4i32) | ((xlsb as i32) >> 4i32),
    ;
    r
}

pub struct Bmp280Data {
    pub temperature: i32,
    pub pressure: u32,
}

pub struct Bmp280Compensations {
    // Temperature compensations
    dig_t1: u16,
    dig_t2: i16,
    dig_t3: i16,
    // Pressure compensations
    dig_p1: u16,
    dig_p2: i16,
    dig_p3: i16,
    dig_p4: i16,
    dig_p5: i16,
    dig_p6: i16,
    dig_p7: i16,
    dig_p8: i16,
    dig_p9: i16,
}

/// The `i`-th calibration word of the 24 calibration bytes: little endian,
/// unsigned for dig_t1 and dig_p1 (words 0 and 3), signed for the others.
pub open spec fn compensation_word(buffer: Seq<u8>, i: int) -> int {
    if i == 0 || i == 3 {
        u16_le_value(buffer[2 * i], buffer[2 * i + 1])
    } else {
        i16_le_value(buffer[2 * i], buffer[2 * i + 1])
    }
}

impl View for Bmp280Compensations {
    type V = Seq<int>;

    /// dig_t1, dig_t2, dig_t3, dig_p1, ..., dig_p9.
    closed spec fn view(&self) -> Seq<int> {
        seq![
            self.dig_t1 as int,
            self.dig_t2 as int,
            self.dig_t3 as int,
            self.dig_p1 as int,
            self.dig_p2 as int,
            self.dig_p3 as int,
            self.dig_p4 as int,
            self.dig_p5 as int,
            self.dig_p6 as int,
            self.dig_p7 as int,
            self.dig_p8 as int,
            self.dig_p9 as int,
        ]
    }
}

impl Bmp280Compensations {
    /// The calibration words of the 24 bytes read from 0x88 on.
    pub fn from_bytes(buffer: &[u8; 24]) -> (r: Self)
        ensures
            r@.len() == 12,
            forall|i: int| 0 <= i < 12 ==> #[trigger] r@[i] == compensation_word(buffer@, i),
    {
        let r = Self {
            dig_t1: u16_from_le_bytes([buffer[0], buffer[1]]),
            dig_t2: i16_from_le_bytes([buffer[2], buffer[3]]),
            dig_t3: i16_from_le_bytes([buffer[4], buffer[5]]),
            dig_p1: u16_from_le_bytes([buffer[6], buffer[7]]),
            dig_p2: i16_from_le_bytes([buffer[8], buffer[9]]),
            dig_p3: i16_from_le_bytes([buffer[10], buffer[11]]),
            dig_p4: i16_from_le_bytes([buffer[12], buffer[13]]),
            dig_p5: i16_from_le_bytes([buffer[14], buffer[15]]),
            dig_p6: i16_from_le_bytes([buffer[16], buffer[17]]),
            dig_p7: i16_from_le_bytes([buffer[18], buffer[19]]),
            dig_p8: i16_from_le_bytes([buffer[20], buffer[21]]),
            dig_p9: i16_from_le_bytes([buffer[22], buffer[23]]),
        };
        assert forall|i: int| 0 <= i < 12 implies #[trigger] r@[i] == compensation_word(
            buffer@,
            i,
        ) by {
            assert(i == 0 || i == 1 || i == 2 || i == 3 || i == 4 || i == 5 || i == 6 || i == 7
                || i == 8 || i == 9 || i == 10 || i == 11);
        }
        r
    }
}

} // verus!
