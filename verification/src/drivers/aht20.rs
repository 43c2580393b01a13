use vstd::prelude::*;

use crate::i2c_error::I2cError;

verus! {

const DEFAULT_I2C_ADDRESS: u8 = 0x38;

/// Asks for the status byte.
pub const COMMAND_GET_STATUS: [u8; 1] = [0x71];

/// Loads the calibration coefficients.
pub const COMMAND_INITIALIZE: [u8; 3] = [0xBE, 0x08, 0x00];

/// Triggers a measurement.
pub const COMMAND_START_MEASUREMENT: [u8; 3] = [0xAC, 0x33, 0x00];

pub const STATUS_CALIBRATED_BIT: u8 = 1 << 3;

pub const STATUS_BUSY_BIT: u8 = 1 << 7;

/// The frame the sensor answers a measurement with.
pub struct Aht20RawData {
    /// status + 5 data bytes + CRC
    pub bytes: [u8; 7],
}

pub struct Aht20Data {
    pub temperature: i16,
    pub humidity: i16,
    pub crc_passed: bool,
}

pub struct Aht20 {
    address: u8,
}

/// One step of the CRC-8 register (polynomial x^8 + x^5 + x^4 + 1).
pub open spec fn crc8_shift(crc: u8) -> u8 {
    if crc & 0x80u8 != 0 {
        (crc << 1u8) ^ 0x31u8
    } else {
        crc << 1u8
    }
}

/// `n` steps of the CRC-8 register.
pub open spec fn crc8_rounds(crc: u8, n: nat) -> u8
    decreases n,
{
    if n == 0 {
        crc
    } else {
        crc8_rounds(crc8_shift(crc), (n - 1) as nat)
    }
}

/// CRC-8 of `bytes` with polynomial x^8 + x^5 + x^4 + 1 and initial value
/// 0xFF.
pub open spec fn crc8(bytes: Seq<u8>) -> u8
    decreases bytes.len(),
{
    if bytes.len() == 0 {
        0xFF
    } else {
        crc8_rounds(crc8(bytes.drop_last()) ^ bytes.last(), 8)
    }
}

/// The 20 humidity bits of a measurement frame (bits 39..20 of the payload).
pub open spec fn raw_humidity(bytes: Seq<u8>) -> int {
    bytes[1] * 0x1000 + bytes[2] * 0x10 + bytes[3] / 16
}

/// The 20 temperature bits of a measurement frame (bits 19..0 of the payload).
pub open spec fn raw_temperature(bytes: Seq<u8>) -> int {
    (bytes[3] % 16) * 0x1_0000 + bytes[4] * 0x100 + bytes[5]
}

/// Temperature in 1/`precision` degrees Celsius: raw / 2^20 * 200 - 50.
pub open spec fn temperature_value(raw: int, precision: int) -> int {
    (raw * 200 * precision) / 0x10_0000 - 50 * precision
}

/// Relative humidity in 1/`precision` percent: raw / 2^20 * 100.
pub open spec fn humidity_value(raw: int, precision: int) -> int {
    (raw * 100 * precision) / 0x10_0000
}

/// The relative humidity `decode` gives for a frame, in centipercent.
pub open spec fn decoded_humidity(bytes: Seq<u8>) -> i16 {
    humidity_value(raw_humidity(bytes), 100) as i16
}

/// The temperature `decode` gives for a frame, in centidegrees Celsius.
pub open spec fn decoded_temperature(bytes: Seq<u8>) -> i16 {
    temperature_value(raw_temperature(bytes), 100) as i16
}

impl Aht20 {
    pub closed spec fn spec_address(&self) -> u8 {
        self.address
    }

    pub fn new(address: u8) -> (r: Self)
        ensures
            r.spec_address() == address,
    {
        Self { address }
    }

    pub fn default() -> (r: Self)
        ensures
            r.spec_address() == 0x38,
    {
        Self::new(DEFAULT_I2C_ADDRESS)
    }

    /// The bus address the sensor answers on.
    pub fn address(&self) -> (r: u8)
        ensures
            r == self.spec_address(),
    {
        self.address
    }

    /// Whether a status byte says the calibration coefficients are loaded;
    /// the power-on sequence sends `COMMAND_INITIALIZE` when they are not.
    pub fn is_calibrated(status: u8) -> (r: bool)
        ensures
            r == (status & STATUS_CALIBRATED_BIT != 0),
            r == ((status / 8) % 2 == 1),
    {
        assert(STATUS_CALIBRATED_BIT == 8) by (bit_vector);
        assert((status & 8u8 != 0) == ((status / 8) % 2 == 1)) by (bit_vector);
        status & STATUS_CALIBRATED_BIT != 0
    }

    /// Whether a status byte says a measurement is still running; a read
    /// that finds the sensor busy fails with `Aht20Error::SensorBusy`.
    pub fn is_busy(status: u8) -> (r: bool)
        ensures
            r == (status & STATUS_BUSY_BIT != 0),
            r == (status >= 128),
    {
        assert(STATUS_BUSY_BIT == 128) by (bit_vector);
        assert((status & 128u8 != 0) == (status >= 128)) by (bit_vector);
        status & STATUS_BUSY_BIT != 0
    }

    /// The outcome of the status check after a measurement was triggered:
    /// a sensor still busy fails the read with `SensorBusy`.
    pub fn check_measurement_status(status: u8) -> (r: Result<(), Aht20Error>)
        ensures
            r is Ok <==> status < 128,
            r matches Err(e) ==> e == Aht20Error::SensorBusy,
    {
        if Self::is_busy(status) {
            return Err(Aht20Error::SensorBusy);
        }
        Ok(())
    }

    /// The calibrated temperature (centidegrees) and humidity
    /// (centipercent) of a measurement frame, and whether its CRC matches.
    pub fn decode(raw: &Aht20RawData) -> (r: Aht20Data)
        ensures
            r.crc_passed == (crc8(raw.bytes@.take(6)) == raw.bytes@[6]),
            r.humidity == humidity_value(raw_humidity(raw.bytes@), 100) as i16,
            r.temperature == temperature_value(raw_temperature(raw.bytes@), 100) as i16,
            r.humidity == decoded_humidity(raw.bytes@),
            r.temperature == decoded_temperature(raw.bytes@),
    {
        let crc_passed = Self::check_crc(&raw.bytes);
        let b1 = raw.bytes[1];
        let b2 = raw.bytes[2];
        let b3 = raw.bytes[3];
        let b4 = raw.bytes[4];
        let b5 = raw.bytes[5];

        // Humidity: bits [39:20] of the data payload (bytes 1-3)
        let raw_humidity = 0i64 | ((b1 as i64) << 12u64) | ((b2 as i64) << 4u64) | ((b3 as i64)
            >> 4u64);
        assert(raw_humidity == b1 * 0x1000 + b2 * 0x10 + b3 / 16) by (bit_vector)
            requires
                raw_humidity == 0i64 | ((b1 as i64) << 12u64) | ((b2 as i64) << 4u64) | ((
                b3 as i64) >> 4u64),
        ;

        // Temperature: bits [19:0] of the data payload (bytes 3-5)
        let raw_temperature = 0i64 | ((b3 as i64 & 0x0F) << 16u64) | ((b4 as i64) << 8u64) | (
        b5 as i64);
        assert(raw_temperature == (b3 % 16) * 0x1_0000 + b4 * 0x100 + b5) by (bit_vector)
            requires
                raw_temperature == 0i64 | ((b3 as i64 & 0x0F) << 16u64) | ((b4 as i64) << 8u64)
                    | (b5 as i64),
        ;

        Aht20Data {
            temperature: Self::convert_temperature::<100>(raw_temperature),
            humidity: Self::convert_humidity::<100>(raw_humidity),
            crc_passed,
        }
    }

    /// T(°C) = (raw_temp / 2^20) * 200 − 50, scaled by `PRECISION`
    /// (100 gives centidegrees); the result is truncated to 16 bits.
    pub fn convert_temperature<const PRECISION: u32>(raw: i64) -> (r: i16)
        requires
            i64::MIN <= raw * 200 <= i64::MAX,
            i64::MIN <= raw * 200 * PRECISION <= i64::MAX,
        ensures
            r == temperature_value(raw as int, PRECISION as int) as i16,
    {
        let p = PRECISION as i64;
        let x = raw * 200 * p;
        assert(x >> 20u64 == x / 0x10_0000) by (bit_vector);
        ((x >> 20) - 50 * p) as i16
    }

    /// RH(%) = (raw_humidity / 2^20) * 100, scaled by `PRECISION`
    /// (100 gives centipercent); the result is truncated to 16 bits.
    pub fn convert_humidity<const PRECISION: u32>(raw: i64) -> (r: i16)
        requires
            i64::MIN <= raw * 100 <= i64::MAX,
            i64::MIN <= raw * 100 * PRECISION <= i64::MAX,
        ensures
            r == humidity_value(raw as int, PRECISION as int) as i16,
    {
        let p = PRECISION as i64;
        let x = raw * 100 * p;
        assert(x >> 20u64 == x / 0x10_0000) by (bit_vector);
        (x >> 20) as i16
    }

    /// CRC-8 check (polynomial x^8 + x^5 + x^4 + 1, initial value 0xFF).
    /// Covers bytes 0–5, byte 6 is the CRC.
    pub fn check_crc(bytes: &[u8; 7]) -> (r: bool)
        ensures
            r == (crc8(bytes@.take(6)) == bytes@[6]),
    {
        let mut crc: u8 = 0xFF;
        let mut i: usize = 0;
        assert(bytes@.take(0) =~= Seq::<u8>::empty());
        while i < 6
            invariant
                i <= 6,
                crc == crc8(bytes@.take(i as int)),
            decreases 6 - i,
        {
            crc ^= bytes[i];
            let ghost start = crc;
            let mut j: u32 = 0;
            while j < 8
                invariant
                    j <= 8,
                    crc8_rounds(start, 8) == crc8_rounds(crc, (8 - j) as nat),
                decreases 8 - j,
            {
                if crc & 0x80 != 0 {
                    crc = (crc << 1u8) ^ 0x31;
                } else {
                    crc <<= 1u8;
                }
                j += 1;
            }
            assert(bytes@.take(i + 1).drop_last() =~= bytes@.take(i as int));
            i += 1;
        }
        crc == bytes[6]
    }
}

/// The CRC register stays at zero once it is zero.
proof fn lemma_crc8_rounds_zero(n: nat)
    ensures
        crc8_rounds(0, n) == 0,
    decreases n,
{
    assert(crc8_shift(0) == 0) by (bit_vector);
    if n > 0 {
        lemma_crc8_rounds_zero((n - 1) as nat);
    }
}

/// Appending the CRC-8 of a byte string to it gives a string whose CRC-8 is
/// zero: a frame with an intact CRC byte leaves no remainder.
pub proof fn lemma_crc8_residue(bytes: Seq<u8>)
    ensures
        crc8(bytes.push(crc8(bytes))) == 0,
{
    let c = crc8(bytes);
    assert(bytes.push(c).drop_last() =~= bytes);
    assert(c ^ c == 0) by (bit_vector);
    lemma_crc8_rounds_zero(8);
}

/// Carry-less (GF(2)) product of the polynomial whose coefficients are the
/// bits of `q` with that whose coefficients are the bits of `g`.
pub open spec fn gf2_mul(q: u8, g: u16) -> u16 {
    (if q & 0x01u8 != 0 { g } else { 0u16 }) ^ (if q & 0x02u8 != 0 { g << 1u16 } else { 0u16 }) ^ (
    if q & 0x04u8 != 0 { g << 2u16 } else { 0u16 }) ^ (if q & 0x08u8 != 0 { g << 3u16 } else { 0u16 })
        ^ (if q & 0x10u8 != 0 { g << 4u16 } else { 0u16 }) ^ (if q & 0x20u8 != 0 { g << 5u16 } else { 0u16 })
        ^ (if q & 0x40u8 != 0 { g << 6u16 } else { 0u16 }) ^ (if q & 0x80u8 != 0 { g << 7u16 } else { 0u16 })
}

/// The CRC generator polynomial x^8 + x^5 + x^4 + 1, one bit per coefficient.
pub open spec fn crc8_generator() -> u16 {
    0x131
}

/// Eight rounds of the CRC register leave the remainder of the polynomial
/// division of `r`·x^8 by x^8 + x^5 + x^4 + 1 over GF(2).
proof fn lemma_crc8_rounds_remainder(r: u8)
    ensures
        exists|q: u8|
            gf2_mul(q, crc8_generator()) ^ (crc8_rounds(r, 8) as u16) == (r as u16) << 8u16,
{
    let c0 = r;
    let c1 = crc8_shift(c0);
    let c2 = crc8_shift(c1);
    let c3 = crc8_shift(c2);
    let c4 = crc8_shift(c3);
    let c5 = crc8_shift(c4);
    let c6 = crc8_shift(c5);
    let c7 = crc8_shift(c6);
    let c8 = crc8_shift(c7);
    assert(crc8_rounds(c8, 0) == c8);
    assert(crc8_rounds(c7, 1) == c8);
    assert(crc8_rounds(c6, 2) == c8);
    assert(crc8_rounds(c5, 3) == c8);
    assert(crc8_rounds(c4, 4) == c8);
    assert(crc8_rounds(c3, 5) == c8);
    assert(crc8_rounds(c2, 6) == c8);
    assert(crc8_rounds(c1, 7) == c8);
    assert(crc8_rounds(c0, 8) == c8);
    let q: u8 = ((c0 >> 7u8) << 7u8) | ((c1 >> 7u8) << 6u8) | ((c2 >> 7u8) << 5u8) | ((c3 >> 7u8)
        << 4u8) | ((c4 >> 7u8) << 3u8) | ((c5 >> 7u8) << 2u8) | ((c6 >> 7u8) << 1u8) | (c7 >> 7u8);
    let g: u16 = 0x131;
    assert((if q & 0x01u8 != 0 { g } else { 0u16 }) ^ (if q & 0x02u8 != 0 { g << 1u16 } else { 0u16 })
        ^ (if q & 0x04u8 != 0 { g << 2u16 } else { 0u16 }) ^ (if q & 0x08u8 != 0 { g << 3u16 } else { 0u16 })
        ^ (if q & 0x10u8 != 0 { g << 4u16 } else { 0u16 }) ^ (if q & 0x20u8 != 0 { g << 5u16 } else { 0u16 })
        ^ (if q & 0x40u8 != 0 { g << 6u16 } else { 0u16 }) ^ (if q & 0x80u8 != 0 { g << 7u16 } else { 0u16 })
        ^ (c8 as u16) == (c0 as u16) << 8u16) by (bit_vector)
        requires
            g == 0x131u16,
            q == ((c0 >> 7u8) << 7u8) | ((c1 >> 7u8) << 6u8) | ((c2 >> 7u8) << 5u8) | ((c3 >> 7u8)
                << 4u8) | ((c4 >> 7u8) << 3u8) | ((c5 >> 7u8) << 2u8) | ((c6 >> 7u8) << 1u8) | (c7
                >> 7u8),
            c1 == (if c0 & 0x80u8 != 0 { (c0 << 1u8) ^ 0x31u8 } else { c0 << 1u8 }),
            c2 == (if c1 & 0x80u8 != 0 { (c1 << 1u8) ^ 0x31u8 } else { c1 << 1u8 }),
            c3 == (if c2 & 0x80u8 != 0 { (c2 << 1u8) ^ 0x31u8 } else { c2 << 1u8 }),
            c4 == (if c3 & 0x80u8 != 0 { (c3 << 1u8) ^ 0x31u8 } else { c3 << 1u8 }),
            c5 == (if c4 & 0x80u8 != 0 { (c4 << 1u8) ^ 0x31u8 } else { c4 << 1u8 }),
            c6 == (if c5 & 0x80u8 != 0 { (c5 << 1u8) ^ 0x31u8 } else { c5 << 1u8 }),
            c7 == (if c6 & 0x80u8 != 0 { (c6 << 1u8) ^ 0x31u8 } else { c6 << 1u8 }),
            c8 == (if c7 & 0x80u8 != 0 { (c7 << 1u8) ^ 0x31u8 } else { c7 << 1u8 }),
    ;
    assert(gf2_mul(q, crc8_generator()) ^ (crc8_rounds(r, 8) as u16) == (r as u16) << 8u16);
}

/// The CRC-8 is the remainder of polynomial division over GF(2) by
/// x^8 + x^5 + x^4 + 1, starting from 0xFF: the CRC of a string with one
/// more byte is the remainder of (the CRC of the string xor that byte)·x^8.
pub proof fn lemma_crc8_polynomial_division(bytes: Seq<u8>, b: u8)
    ensures
        crc8(Seq::empty()) == 0xFF,
        exists|q: u8|
            gf2_mul(q, crc8_generator()) ^ (crc8(bytes.push(b)) as u16) == ((crc8(bytes) ^ b) as u16)
                << 8u16,
{
    assert(bytes.push(b).drop_last() =~= bytes);
    assert(crc8(bytes.push(b)) == crc8_rounds(crc8(bytes) ^ b, 8));
    lemma_crc8_rounds_remainder(crc8(bytes) ^ b);
}

/// `x / d` rounds down: it is the largest `q` with `q * d <= x`.
proof fn lemma_floor_div_bounds(x: int, d: int)
    requires
        0 < d,
    ensures
        (x / d) * d <= x < (x / d + 1) * d,
{
    vstd::arithmetic::div_mod::lemma_fundamental_div_mod(x, d);
    vstd::arithmetic::div_mod::lemma_mod_bound(x, d);
    assert((x / d) * d == d * (x / d)) by (nonlinear_arith);
    assert((x / d + 1) * d == d * (x / d) + d) by (nonlinear_arith);
}

/// The humidity of a frame is its 20-bit humidity reading (bits 39..20 of
/// the payload, read unsigned) mapped from 0..2^20 onto 0..100 % and
/// rounded down to centipercent: it lies in 0..=9999, and a larger reading
/// never gives a lower humidity.
pub proof fn lemma_humidity_scale(a: Seq<u8>, b: Seq<u8>)
    ensures
        0 <= decoded_humidity(a) <= 9999,
        decoded_humidity(a) * 0x10_0000 <= (a[1] * 0x1000 + a[2] * 0x10 + a[3] / 16) * 10000,
        (a[1] * 0x1000 + a[2] * 0x10 + a[3] / 16) * 10000 < (decoded_humidity(a) + 1) * 0x10_0000,
        a[1] * 0x1000 + a[2] * 0x10 + a[3] / 16 <= b[1] * 0x1000 + b[2] * 0x10 + b[3] / 16
            ==> decoded_humidity(a) <= decoded_humidity(b),
{
    let ua = a[1] * 0x1000 + a[2] * 0x10 + a[3] / 16;
    let ub = b[1] * 0x1000 + b[2] * 0x10 + b[3] / 16;
    assert(0 <= ua < 0x10_0000);
    assert(0 <= ub < 0x10_0000);
    assert(ua * 100 * 100 == ua * 10000) by (nonlinear_arith);
    assert(ub * 100 * 100 == ub * 10000) by (nonlinear_arith);
    let ha = (ua * 10000) / 0x10_0000;
    let hb = (ub * 10000) / 0x10_0000;
    lemma_floor_div_bounds(ua * 10000, 0x10_0000);
    assert(0 <= ua * 10000 <= (0x10_0000 - 1) * 10000) by (nonlinear_arith)
        requires
            0 <= ua < 0x10_0000,
    ;
    assert(0 <= ha <= 9999) by (nonlinear_arith)
        requires
            ha * 0x10_0000 <= ua * 10000,
            ua * 10000 < (ha + 1) * 0x10_0000,
            0 <= ua * 10000 <= (0x10_0000 - 1) * 10000,
    ;
    assert(decoded_humidity(a) == ha);
    if ua <= ub {
        assert(ua * 10000 <= ub * 10000) by (nonlinear_arith)
            requires
                ua <= ub,
        ;
        vstd::arithmetic::div_mod::lemma_div_is_ordered(ua * 10000, ub * 10000, 0x10_0000);
        lemma_floor_div_bounds(ub * 10000, 0x10_0000);
        assert(0 <= ub * 10000 <= (0x10_0000 - 1) * 10000) by (nonlinear_arith)
            requires
                0 <= ub < 0x10_0000,
        ;
        assert(0 <= hb <= 9999) by (nonlinear_arith)
            requires
                hb * 0x10_0000 <= ub * 10000,
                ub * 10000 < (hb + 1) * 0x10_0000,
                0 <= ub * 10000 <= (0x10_0000 - 1) * 10000,
        ;
        assert(decoded_humidity(b) == hb);
    }
}

/// The temperature of a frame is its 20-bit temperature reading (bits
/// 19..0 of the payload, read unsigned) mapped from 0..2^20 onto
/// -50..150 °C and rounded down to centidegrees: it lies in -5000..=14999,
/// and a larger reading never gives a lower temperature.
pub proof fn lemma_temperature_scale(a: Seq<u8>, b: Seq<u8>)
    ensures
        -5000 <= decoded_temperature(a) <= 14999,
        (decoded_temperature(a) + 5000) * 0x10_0000 <= ((a[3] % 16) * 0x1_0000 + a[4] * 0x100 + a[5])
            * 20000,
        ((a[3] % 16) * 0x1_0000 + a[4] * 0x100 + a[5]) * 20000 < (decoded_temperature(a) + 5001)
            * 0x10_0000,
        (a[3] % 16) * 0x1_0000 + a[4] * 0x100 + a[5] <= (b[3] % 16) * 0x1_0000 + b[4] * 0x100 + b[5]
            ==> decoded_temperature(a) <= decoded_temperature(b),
{
    let va = (a[3] % 16) * 0x1_0000 + a[4] * 0x100 + a[5];
    let vb = (b[3] % 16) * 0x1_0000 + b[4] * 0x100 + b[5];
    assert(0 <= va < 0x10_0000);
    assert(0 <= vb < 0x10_0000);
    assert(va * 200 * 100 == va * 20000) by (nonlinear_arith);
    assert(vb * 200 * 100 == vb * 20000) by (nonlinear_arith);
    let ta = (va * 20000) / 0x10_0000;
    let tb = (vb * 20000) / 0x10_0000;
    lemma_floor_div_bounds(va * 20000, 0x10_0000);
    assert(0 <= va * 20000 <= (0x10_0000 - 1) * 20000) by (nonlinear_arith)
        requires
            0 <= va < 0x10_0000,
    ;
    assert(0 <= ta <= 19999) by (nonlinear_arith)
        requires
            ta * 0x10_0000 <= va * 20000,
            va * 20000 < (ta + 1) * 0x10_0000,
            0 <= va * 20000 <= (0x10_0000 - 1) * 20000,
    ;
    assert(decoded_temperature(a) == ta - 5000);
    if va <= vb {
        assert(va * 20000 <= vb * 20000) by (nonlinear_arith)
            requires
                va <= vb,
        ;
        vstd::arithmetic::div_mod::lemma_div_is_ordered(va * 20000, vb * 20000, 0x10_0000);
        lemma_floor_div_bounds(vb * 20000, 0x10_0000);
        assert(0 <= vb * 20000 <= (0x10_0000 - 1) * 20000) by (nonlinear_arith)
            requires
                0 <= vb < 0x10_0000,
        ;
        assert(0 <= tb <= 19999) by (nonlinear_arith)
            requires
                tb * 0x10_0000 <= vb * 20000,
                vb * 20000 < (tb + 1) * 0x10_0000,
                0 <= vb * 20000 <= (0x10_0000 - 1) * 20000,
        ;
        assert(decoded_temperature(b) == tb - 5000);
    }
}

pub enum Aht20Error {
    /// Measurement triggered but sensor still reported busy
    SensorBusy,
    I2cError(I2cError),
}

impl From<I2cError> for Aht20Error {
    fn from(value: I2cError) -> (r: Self)
        ensures
            r == Aht20Error::I2cError(value),
    {
        Self::I2cError(value)
    }
}

impl vstd::std_specs::convert::FromSpecImpl<I2cError> for Aht20Error {
    open spec fn obeys_from_spec() -> bool {
        true
    }

    open spec fn from_spec(v: I2cError) -> Self {
        Aht20Error::I2cError(v)
    }
}

} // verus!
