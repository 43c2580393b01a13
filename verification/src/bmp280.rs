//! A BMP280 driver with fixed settings: temperature and pressure
//! oversampling x1, normal mode, no standby, no IIR filter.

use vstd::prelude::*;

use crate::le_bytes::{i16_from_le_bytes, i16_le_value, u16_from_le_bytes, u16_le_value};

verus! {

pub struct Bmp280 {
    address: u8,
    compensations: Bmp280Compensations,
}

/// The intermediate values of the temperature compensation, with every
/// shift right read as a division rounding down:
/// (var1, var2, result).
pub open spec fn temp_compensation(t1: int, t2: int, t3: int, temp: int) -> (int, int, int) {
    let var1 = (temp / 8 - t1 * 2) * (t2 / 2048);
    let diff = temp / 16 - t1;
    let var2 = ((diff * diff) / 4096 * t3) / 16384;
    (var1, var2, ((var1 + var2) * 5 + 128) / 256)
}

/// Every intermediate product and sum of the temperature compensation fits
/// in an `i32`.
pub open spec fn temp_compensation_fits(t1: int, t2: int, t3: int, temp: int) -> bool {
    let a = temp / 8 - t1 * 2;
    let diff = temp / 16 - t1;
    let sq = diff * diff;
    let var1 = a * (t2 / 2048);
    let var2 = (sq / 4096 * t3) / 16384;
    &&& i32::MIN <= var1 <= i32::MAX
    &&& i32::MIN <= sq <= i32::MAX
    &&& i32::MIN <= sq / 4096 * t3 <= i32::MAX
    &&& i32::MIN <= var1 + var2 <= i32::MAX
    &&& i32::MIN <= (var1 + var2) * 5 + 128 <= i32::MAX
    &&& i32::MIN <= (var1 + var2) * 5 <= i32::MAX
}

/// `x / d` rounds down: it is the largest `q` with `q * d <= x`.
proof fn lemma_floor_div_bounds(x: int, d: int)
    requires
        0 < d,
    ensures
        (x / d) * d <= x < (x / d + 1) * d,
{
    vstd::arithmetic::div_mod::lemma_fundamental_div_mod(x, d);
    vstd::arithmetic::div_mod::lemma_mod_bound(x, d);
    assert((x / d) * d == d * (x / d)) by (nonlinear_arith);
    assert((x / d + 1) * d == d * (x / d) + d) by (nonlinear_arith);
}

/// Two numbers at most `d` apart have quotients by `m` at most `d / m + 1`
/// apart.
proof fn lemma_div_step(a: int, b: int, m: int, d: int)
    requires
        0 < m,
        0 <= d,
        -d <= b - a <= d,
    ensures
        -(d / m + 1) <= b / m - a / m <= d / m + 1,
{
    lemma_floor_div_bounds(a, m);
    lemma_floor_div_bounds(b, m);
    lemma_floor_div_bounds(d, m);
    let qa = a / m;
    let qb = b / m;
    let qd = d / m;
    assert(-(qd + 1) <= qb - qa <= qd + 1) by (nonlinear_arith)
        requires
            0 < m,
            qa * m <= a < (qa + 1) * m,
            qb * m <= b < (qb + 1) * m,
            qd * m <= d < (qd + 1) * m,
            -d <= b - a <= d,
    ;
}

/// The compensation depends on the raw reading only through its distance
/// from 16·dig_T1: moving the reading by 16·k and dig_T1 by k leaves every
/// intermediate value and the result unchanged.
pub proof fn lemma_temp_compensation_offset(t1: int, t2: int, t3: int, temp: int, k: int)
    ensures
        temp_compensation(t1 + k, t2, t3, temp + 16 * k) == temp_compensation(t1, t2, t3, temp),
{
    vstd::arithmetic::div_mod::lemma_hoist_over_denominator(temp, 2 * k, 8);
    vstd::arithmetic::div_mod::lemma_hoist_over_denominator(temp, k, 16);
    assert(temp + (2 * k) * 8 == temp + 16 * k);
    assert(temp + k * 16 == temp + 16 * k);
    assert((temp + 16 * k) / 8 - (t1 + k) * 2 == temp / 8 - t1 * 2);
    assert((temp + 16 * k) / 16 - (t1 + k) == temp / 16 - t1);
}

/// The two terms of the compensation: the linear one grows by
/// dig_T2 / 2048 (rounded down) for every 8 raw counts, and the quadratic
/// one has the sign of dig_T3 and is the same at equal distances above and
/// below 16·dig_T1.
pub proof fn lemma_temp_compensation_terms(t1: int, t2: int, t3: int, temp: int, k: int)
    ensures
        temp_compensation(t1, t2, t3, temp + 8).0 == temp_compensation(t1, t2, t3, temp).0 + t2 / 2048,
        t3 >= 0 ==> temp_compensation(t1, t2, t3, temp).1 >= 0,
        t3 <= 0 ==> temp_compensation(t1, t2, t3, temp).1 <= 0,
        temp_compensation(t1, t2, t3, 16 * (t1 + k)).1 == temp_compensation(t1, t2, t3, 16 * (t1
            - k)).1,
{
    vstd::arithmetic::div_mod::lemma_hoist_over_denominator(temp, 1, 8);
    let c = t2 / 2048;
    let a = temp / 8 - t1 * 2;
    assert((a + 1) * c == a * c + c) by (nonlinear_arith);
    let diff = temp / 16 - t1;
    assert(diff * diff >= 0) by (nonlinear_arith);
    vstd::arithmetic::div_mod::lemma_div_is_ordered(0, diff * diff, 4096);
    let sq = (diff * diff) / 4096;
    if t3 >= 0 {
        assert(sq * t3 >= 0) by (nonlinear_arith)
            requires
                sq >= 0,
                t3 >= 0,
        ;
        vstd::arithmetic::div_mod::lemma_div_is_ordered(0, sq * t3, 16384);
    }
    if t3 <= 0 {
        assert(sq * t3 <= 0) by (nonlinear_arith)
            requires
                sq >= 0,
                t3 <= 0,
        ;
        vstd::arithmetic::div_mod::lemma_div_is_ordered(sq * t3, 0, 16384);
    }
    vstd::arithmetic::div_mod::lemma_hoist_over_denominator(0, t1 + k, 16);
    vstd::arithmetic::div_mod::lemma_hoist_over_denominator(0, t1 - k, 16);
    assert((16 * (t1 + k)) / 16 - t1 == k);
    assert((16 * (t1 - k)) / 16 - t1 == -k);
    assert(k * k == (-k) * (-k)) by (nonlinear_arith);
}

/// For raw readings in the sensor's 20-bit range the compensated
/// temperature moves by at most 0.02 °C when the reading moves by one, and
/// by at most 0.01 °C for calibrations with |dig_T2| < 26624 and
/// |dig_T3| <= 1024 (such as the datasheet's 27504, 26435, -1000).
pub proof fn lemma_temp_compensation_continuous(t1: int, t2: int, t3: int, temp: int)
    requires
        0 <= t1 <= u16::MAX,
        i16::MIN <= t2 <= i16::MAX,
        i16::MIN <= t3 <= i16::MAX,
        0 <= temp,
        temp + 1 < 0x10_0000,
    ensures
        -2 <= temp_compensation(t1, t2, t3, temp + 1).2 - temp_compensation(t1, t2, t3, temp).2 <= 2,
        -26624 <= t2 < 26624 && -1024 <= t3 <= 1024 ==> -1 <= temp_compensation(t1, t2, t3, temp
            + 1).2 - temp_compensation(t1, t2, t3, temp).2 <= 1,
{
    let (v1, v2, r) = temp_compensation(t1, t2, t3, temp);
    let (w1, w2, q) = temp_compensation(t1, t2, t3, temp + 1);
    let small = -26624 <= t2 < 26624 && -1024 <= t3 <= 1024;
    // var1
    let a = temp / 8;
    let a1 = (temp + 1) / 8;
    lemma_div_step(temp, temp + 1, 8, 1);
    vstd::arithmetic::div_mod::lemma_div_is_ordered(temp, temp + 1, 8);
    let c = t2 / 2048;
    lemma_floor_div_bounds(t2, 2048);
    assert(-16 <= c <= 15);
    assert(small ==> -13 <= c <= 12);
    assert(w1 - v1 == (a1 - a) * c) by (nonlinear_arith)
        requires
            v1 == (a - t1 * 2) * c,
            w1 == (a1 - t1 * 2) * c,
    ;
    assert(-16 <= w1 - v1 <= 16 && (small ==> -13 <= w1 - v1 <= 13)) by (nonlinear_arith)
        requires
            w1 - v1 == (a1 - a) * c,
            0 <= a1 - a <= 1,
            -16 <= c <= 15,
            small ==> -13 <= c <= 12,
    ;
    // the square
    let x = temp / 16 - t1;
    let x1 = (temp + 1) / 16 - t1;
    lemma_div_step(temp, temp + 1, 16, 1);
    vstd::arithmetic::div_mod::lemma_div_is_ordered(temp, temp + 1, 16);
    vstd::arithmetic::div_mod::lemma_div_is_ordered(0, temp, 16);
    vstd::arithmetic::div_mod::lemma_div_is_ordered(temp, 0x10_0000, 16);
    assert(-65535 <= x <= 65536);
    assert(-131071 <= x1 * x1 - x * x <= 131071) by (nonlinear_arith)
        requires
            0 <= x1 - x <= 1,
            -65535 <= x <= 65535 || x1 == x,
    ;
    let s = (x * x) / 4096;
    let s1 = (x1 * x1) / 4096;
    lemma_div_step(x * x, x1 * x1, 4096, 131071);
    assert(-32 <= s1 - s <= 32);
    // var2
    assert(-32 * 32768 <= s1 * t3 - s * t3 <= 32 * 32768 && (small ==> -32 * 1024 <= s1 * t3 - s
        * t3 <= 32 * 1024)) by (nonlinear_arith)
        requires
            -32 <= s1 - s <= 32,
            -32768 <= t3 <= 32767,
            small ==> -1024 <= t3 <= 1024,
    ;
    lemma_div_step(s * t3, s1 * t3, 16384, 1048576);
    if small {
        lemma_div_step(s * t3, s1 * t3, 16384, 32768);
    }
    assert(-65 <= w2 - v2 <= 65);
    assert(small ==> -3 <= w2 - v2 <= 3);
    // result
    let u = (v1 + v2) * 5 + 128;
    let u1 = (w1 + w2) * 5 + 128;
    lemma_div_step(u, u1, 256, 405);
    if small {
        lemma_div_step(u, u1, 256, 80);
    }
}

impl Bmp280 {
    // Oversampling settings [x0 - disabled, x1, x2, x4, x8, x16]
    pub const OVERSAMPLING: [u8; 6] = [0b000, 0b001, 0b010, 0b011, 0b100, 0b111];

    // Power mode setting: [Sleep, Forced, Normal]
    pub const POWER_MODES: [u8; 3] = [0b00, 0b01, 0b11];

    // Normal mode standby time settings: [0.5ms, 62.5 * 2^index]
    pub const STANDBY_TIMES: [u8; 8] = [0, 0b1, 0b10, 0b11, 0b100, 0b101, 0b110, 0b111];

    // IIR filter settings [off, 2, 4, 8, 16]
    pub const IIR_FILTER: [u8; 5] = [0, 1, 2, 3, 4];

    pub const CTRL_MEAS_REGISTER_ADDRESS: u8 = 0xf4;

    pub const CONFIG_REGISTER_ADDRESS: u8 = 0xf5;

    pub const TEMPERATURE_MS_BYTE_ADDRESS: u8 = 0xfa;

    pub const PRESSURE_MS_BYTE_ADDRESS: u8 = 0xf7;

    pub const COMPENSATION_START_ADDRESS: u8 = 0x88;

    pub const N_COMPENSATION_BYTES: usize = 24;

    pub closed spec fn spec_address(&self) -> u8 {
        self.address
    }

    /// The temperature calibration words (dig_t1, dig_t2, dig_t3).
    pub closed spec fn spec_dig_t(&self) -> (int, int, int) {
        (
            self.compensations.dig_t1 as int,
            self.compensations.dig_t2 as int,
            self.compensations.dig_t3 as int,
        )
    }

    /// All twelve calibration words: dig_t1, dig_t2, dig_t3, dig_p1, ...,
    /// dig_p9.
    pub closed spec fn spec_compensations(&self) -> Seq<int> {
        seq![
            self.compensations.dig_t1 as int,
            self.compensations.dig_t2 as int,
            self.compensations.dig_t3 as int,
            self.compensations.dig_p1 as int,
            self.compensations.dig_p2 as int,
            self.compensations.dig_p3 as int,
            self.compensations.dig_p4 as int,
            self.compensations.dig_p5 as int,
            self.compensations.dig_p6 as int,
            self.compensations.dig_p7 as int,
            self.compensations.dig_p8 as int,
            self.compensations.dig_p9 as int,
        ]
    }

    /// The two register writes initialisation sends, in order: the config
    /// register (standby 0.5 ms, IIR filter off, 3-wire SPI off), then
    /// ctrl_meas (temperature and pressure oversampling x1, normal mode).
    pub fn init_commands() -> (r: [[u8; 2]; 2])
        ensures
            r@[0]@ == seq![0xf5u8, 0u8],
            r@[1]@ == seq![0xf4u8, 0x27u8],
    {
        // Main config
        let normal_mode_standby_time = Self::STANDBY_TIMES[0];
        let iir_filter = Self::IIR_FILTER[0];
        let isp_3wire_setting = 0u8;

        // Register layout:
        // | 3 bit standby setting | 3 bit iir filter setting | 1 bit space | 1 bit isp setting |
        let config_register_value = (normal_mode_standby_time << 5u8) | (iir_filter << 2u8)
            | isp_3wire_setting;

        // Config measurements
        let temperature_oversampling = Self::OVERSAMPLING[1];
        let pressure_oversampling = Self::OVERSAMPLING[1];
        let power_mode = Self::POWER_MODES[2];

        // Register layout:
        // | 3 bit temp oversampling | 3 bit pressure oversampling | 2 bit power mode |
        let ctrl_meas_register_val = (temperature_oversampling << 5u8) | (pressure_oversampling
            << 2u8) | power_mode;
        assert(config_register_value == 0) by (bit_vector)
            requires
                config_register_value == (0u8 << 5u8) | (0u8 << 2u8) | 0u8,
        ;
        assert(ctrl_meas_register_val == 0x27) by (bit_vector)
            requires
                ctrl_meas_register_val == (1u8 << 5u8) | (1u8 << 2u8) | 3u8,
        ;
        let r = [
            [Self::CONFIG_REGISTER_ADDRESS, config_register_value],
            [Self::CTRL_MEAS_REGISTER_ADDRESS, ctrl_meas_register_val],
        ];
        assert(r@[0]@ =~= seq![0xf5u8, 0u8]);
        assert(r@[1]@ =~= seq![0xf4u8, 0x27u8]);
        r
    }

    /// The driver for the sensor at `address`, given the 24 calibration
    /// bytes read from 0x88 on: the temperature words are read from the
    /// first six bytes, the pressure words are set to 0 and bytes 6..23
    /// are not read.
    pub fn from_compensation_bytes(address: u8, buffer: &[u8; 24]) -> (r: Self)
        ensures
            r.spec_address() == address,
            r.spec_dig_t() == (
                u16_le_value(buffer[0], buffer[1]),
                i16_le_value(buffer[2], buffer[3]),
                i16_le_value(buffer[4], buffer[5]),
            ),
            r.spec_compensations() == seq![
                u16_le_value(buffer[0], buffer[1]),
                i16_le_value(buffer[2], buffer[3]),
                i16_le_value(buffer[4], buffer[5]),
                0int, 0int, 0int, 0int, 0int, 0int, 0int, 0int, 0int,
            ],
    {
        let compensations = Bmp280Compensations {
            dig_t1: u16_from_le_bytes([buffer[0], buffer[1]]),
            dig_t2: i16_from_le_bytes([buffer[2], buffer[3]]),
            dig_t3: i16_from_le_bytes([buffer[4], buffer[5]]),
            dig_p1: 0,
            dig_p2: 0,
            dig_p3: 0,
            dig_p4: 0,
            dig_p5: 0,
            dig_p6: 0,
            dig_p7: 0,
            dig_p8: 0,
            dig_p9: 0,
        };
        Self { address, compensations }
    }

    /// The bus address the sensor answers on.
    pub fn address(&self) -> (r: u8)
        ensures
            r == self.spec_address(),
    {
        self.address
    }

    /// Whether `convert_raw_temp` is defined on `temp`: every intermediate
    /// value of the compensation fits in an `i32`.
    pub fn can_convert_raw_temp(&self, temp: i32) -> (r: bool)
        ensures
            r == temp_compensation_fits(self.spec_dig_t().0, self.spec_dig_t().1, self.spec_dig_t().2, temp as int),
    {
        let t1 = self.compensations.dig_t1 as i64;
        let t2 = self.compensations.dig_t2 as i64;
        let t3 = self.compensations.dig_t3 as i64;
        let temp = temp as i64;
        assert(temp >> 3i64 == temp / 8 && temp >> 4i64 == temp / 16) by (bit_vector);
        assert(t2 >> 11i64 == t2 / 2048) by (bit_vector);
        let a = (temp >> 3) - t1 * 2;
        let diff = (temp >> 4) - t1;
        assert(-0x1000_0000 - 0x1_0000 <= diff <= 0x1000_0000);
        assert(0 <= diff * diff <= 0x400_0000_0000_0000) by (nonlinear_arith)
            requires
                -0x1000_0000 - 0x1_0000 <= diff <= 0x1000_0000,
        ;
        let sq = diff * diff;
        let b = t2 >> 11;
        assert(-16 <= b <= 15);
        assert(-0x2_0000_0000 <= a * b <= 0x2_0000_0000) by (nonlinear_arith)
            requires
                -0x1000_0000 - 0x2_0000 <= a <= 0x1000_0000,
                -16 <= b <= 15,
        ;
        let var1 = a * b;
        let min = i32::MIN as i64;
        let max = i32::MAX as i64;
        if var1 < min || var1 > max || sq < min || sq > max {
            return false;
        }
        assert(sq >> 12i64 == sq / 4096) by (bit_vector);
        assert(-0x8000 * 0x8_0000 <= (sq / 4096) * t3 <= 0x8000 * 0x8_0000) by (nonlinear_arith)
            requires
                0 <= sq / 4096 <= 0x8_0000,
                -0x8000 <= t3 < 0x8000,
        ;
        let prod = (sq >> 12) * t3;
        if prod < min || prod > max {
            return false;
        }
        assert(prod >> 14i64 == prod / 16384) by (bit_vector);
        let var2 = prod >> 14;
        let sum = var1 + var2;
        sum >= min && sum <= max && sum * 5 >= min && sum * 5 <= max && sum * 5 + 128 >= min && sum
            * 5 + 128 <= max
    }

    /// The compensated temperature of a raw reading.
    pub fn convert_raw_temp(&self, temp: i32) -> (r: i32)
        requires
            temp_compensation_fits(self.spec_dig_t().0, self.spec_dig_t().1, self.spec_dig_t().2, temp as int),
        ensures
            r == temp_compensation(self.spec_dig_t().0, self.spec_dig_t().1, self.spec_dig_t().2, temp as int).2,
    {
        let t1 = self.compensations.dig_t1 as i32;
        let t2 = self.compensations.dig_t2 as i32;
        let t3 = self.compensations.dig_t3 as i32;
        assert(temp >> 3i32 == temp / 8 && temp >> 4i32 == temp / 16) by (bit_vector);
        assert(t2 >> 11i32 == t2 / 2048) by (bit_vector);
        assert(t1 << 1i32 == t1 * 2) by (bit_vector)
            requires
                0 <= t1 < 0x1_0000,
        ;
        let var1 = ((temp >> 3) - (t1 << 1)) * (t2 >> 11);
        let diff = (temp >> 4) - t1;
        let sq = diff * diff;
        assert(sq >> 12i32 == sq / 4096) by (bit_vector);
        let prod = (sq >> 12) * t3;
        assert(prod >> 14i32 == prod / 16384) by (bit_vector);
        let var2 = prod >> 14;
        let sum = (var1 + var2) * 5 + 128;
        assert(sum >> 8i32 == sum / 256) by (bit_vector);
        sum >> 8
    }

    /// The reading made of a raw measurement: the compensated temperature
    /// and the raw pressure.
    pub fn read_data(&self, raw: &Bmp280RawData) -> (r: Bmp280Data)
        requires
            temp_compensation_fits(
                self.spec_dig_t().0,
                self.spec_dig_t().1,
                self.spec_dig_t().2,
                raw.temperature as int,
            ),
        ensures
            r.temperature == temp_compensation(
                self.spec_dig_t().0,
                self.spec_dig_t().1,
                self.spec_dig_t().2,
                raw.temperature as int,
            ).2,
            r.pressure == raw.pressure,
    {
        Bmp280Data { temperature: self.convert_raw_temp(raw.temperature), pressure: raw.pressure }
    }
}

struct Bmp280Compensations {
    // Temperature compensations
    dig_t1: u16,
    dig_t2: i16,
    dig_t3: i16,
    // Pressure compensations
    dig_p1: u16,
    dig_p2: i16,
    dig_p3: i16,
    dig_p4: i16,
    dig_p5: i16,
    dig_p6: i16,
    dig_p7: i16,
    dig_p8: i16,
    dig_p9: i16,
}

pub struct Bmp280RawData {
    pub temperature: i32,
    pub pressure: u32,
}

impl Bmp280RawData {
    /// The 20-bit raw values of the six bytes read from 0xf7 on: pressure
    /// from the first three, temperature from the last three.
    pub fn from_buffer(buffer: &[u8; 6]) -> (r: Self)
        ensures
            r.pressure == crate::drivers::bmp280::driver::raw_20bit(buffer[0], buffer[1], buffer[2]),
            r.temperature == crate::drivers::bmp280::driver::raw_20bit(buffer[3], buffer[4], buffer[5]),
            r.pressure < 0x10_0000,
            0 <= r.temperature < 0x10_0000,
    {
        let b0 = buffer[0];
        let b1 = buffer[1];
        let b2 = buffer[2];
        let b3 = buffer[3];
        let b4 = buffer[4];
        let b5 = buffer[5];
        // Temperature and pressure are 20 bit numbers
        let temperature = ((b3 as i32) << 12i32) | ((b4 as i32) << 4i32) | ((b5 as i32) >> 4i32);
        let pressure = ((b0 as u32) << 12u32) | ((b1 as u32) << 4u32) | ((b2 as u32) >> 4u32);
        assert(temperature == b3 * 0x1000 + b4 * 0x10 + b5 / 16 && 0 <= temperature < 0x10_0000)
            by (bit_vector)
            requires
                temperature == ((b3 as i32) << 12i32) | ((b4 as i32) << 4i32) | ((b5 as i32)
                    >> 4i32),
        ;
        assert(pressure == b0 * 0x1000 + b1 * 0x10 + b2 / 16 && pressure < 0x10_0000)
            by (bit_vector)
            requires
                pressure == ((b0 as u32) << 12u32) | ((b1 as u32) << 4u32) | ((b2 as u32)
                    >> 4u32),
        ;
        Bmp280RawData { temperature, pressure }
    }
}

pub struct Bmp280Data {
    pub temperature: i32,
    pub pressure: u32,
}

} // verus!
