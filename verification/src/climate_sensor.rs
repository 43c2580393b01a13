//! The climate sensor: an AHT20 (temperature, humidity), a BMP280
//! (temperature, pressure) and a VEML7700 (light) on one I2C bus, whose
//! readings are sent as one frame of labeled readouts.

use vstd::prelude::*;

use crate::data_handling::dynamic_labeled_readout::{
    labeled_data_model, lemma_readout_decodes, SensorType as DynamicSensorType,
};
use crate::data_handling::labeled_readout::{label_byte, readout_bytes, LabeledReadout};
use crate::le_bytes::u32_le_value;
use crate::data_handling::static_leabeled_readout::{
    lemma_label_field_bits, Barometer, Higrometer, Luxmeter, SensorId, SensorId0, SensorId1, SensorType, Thermometer,
    TypedLabelReadout, UnitScale, UnitScale1_100, UnitScale1_1000,
};
use crate::drivers::aht20::{Aht20Data, Aht20Error};
use crate::drivers::bmp280::driver::{Bmp280Data, Bmp280ReadError};
use crate::i2c_error::I2cError;
use crate::util::voltage_divider::{divider_input_mv, reverse_voltage_divider_mv};

verus! {

pub const BMP280_ADDR: u8 = 0x77;

pub const VEML7700_ADDR: u8 = 0x10;

pub const AHT20_ADDR: u8 = 0x38;

/// Pause after initialising each sensor.
pub const SENSOR_INIT_DELAY_MS: u32 = 5;

/// Bytes of the five readouts of one reading.
pub const N_BYTES: usize = 25;

/// The readouts of one reading, in frame order: AHT20 temperature and
/// humidity (sensor 0, 1/100 units), BMP280 temperature (sensor 1, 1/1000
/// units) and pressure (sensor 0, 1/1000 units), VEML7700 light (sensor 0,
/// 1/100 units). Each value is sent as its 32-bit pattern.
pub open spec fn readouts_seq(aht20: Aht20Data, bmp280: Bmp280Data, lux: u32) -> Seq<u8> {
    readout_bytes(
        label_byte(SensorId0::BITS, UnitScale1_100::BITS, Thermometer::BITS),
        aht20.temperature as u32,
    ) + readout_bytes(
        label_byte(SensorId0::BITS, UnitScale1_100::BITS, Higrometer::BITS),
        aht20.humidity as u32,
    ) + readout_bytes(
        label_byte(SensorId1::BITS, UnitScale1_1000::BITS, Thermometer::BITS),
        bmp280.temperature as u32,
    ) + readout_bytes(
        label_byte(SensorId0::BITS, UnitScale1_1000::BITS, Barometer::BITS),
        bmp280.pressure,
    ) + readout_bytes(label_byte(SensorId0::BITS, UnitScale1_100::BITS, Luxmeter::BITS), lux)
}

/// The readout that starts at `start` in `s` decodes, as
/// `DynamicLabeledReadout::from_bytes` reads it, to `label` and `data`,
/// with the sensor type that the label names.
pub open spec fn readout_decodes_at(s: Seq<u8>, start: int, label: u8, data: u32) -> bool {
    labeled_data_model(
        s[start],
        u32_le_value(s[start + 1], s[start + 2], s[start + 3], s[start + 4]) as u32,
    ) == Some((label, data, 0u8, 0u8, DynamicSensorType::spec_from_bits(label % 16).unwrap()))
}

/// Every readout of a frame decodes back to the label and value that were
/// written: what a receiver reads of a frame is what the sensor sent.
pub proof fn lemma_frame_readouts_decode(aht20: Aht20Data, bmp280: Bmp280Data, lux: u32)
    ensures
        readouts_seq(aht20, bmp280, lux).len() == N_BYTES,
        readout_decodes_at(
            readouts_seq(aht20, bmp280, lux),
            0,
            label_byte(SensorId0::BITS, UnitScale1_100::BITS, Thermometer::BITS),
            aht20.temperature as u32,
        ),
        readout_decodes_at(
            readouts_seq(aht20, bmp280, lux),
            5,
            label_byte(SensorId0::BITS, UnitScale1_100::BITS, Higrometer::BITS),
            aht20.humidity as u32,
        ),
        readout_decodes_at(
            readouts_seq(aht20, bmp280, lux),
            10,
            label_byte(SensorId1::BITS, UnitScale1_1000::BITS, Thermometer::BITS),
            bmp280.temperature as u32,
        ),
        readout_decodes_at(
            readouts_seq(aht20, bmp280, lux),
            15,
            label_byte(SensorId0::BITS, UnitScale1_1000::BITS, Barometer::BITS),
            bmp280.pressure,
        ),
        readout_decodes_at(
            readouts_seq(aht20, bmp280, lux),
            20,
            label_byte(SensorId0::BITS, UnitScale1_100::BITS, Luxmeter::BITS),
            lux,
        ),
{
    let r0 = readout_bytes(
        label_byte(SensorId0::BITS, UnitScale1_100::BITS, Thermometer::BITS),
        aht20.temperature as u32,
    );
    let r1 = readout_bytes(
        label_byte(SensorId0::BITS, UnitScale1_100::BITS, Higrometer::BITS),
        aht20.humidity as u32,
    );
    let r2 = readout_bytes(
        label_byte(SensorId1::BITS, UnitScale1_1000::BITS, Thermometer::BITS),
        bmp280.temperature as u32,
    );
    let r3 = readout_bytes(
        label_byte(SensorId0::BITS, UnitScale1_1000::BITS, Barometer::BITS),
        bmp280.pressure,
    );
    let r4 = readout_bytes(label_byte(SensorId0::BITS, UnitScale1_100::BITS, Luxmeter::BITS), lux);
    let s = r0 + r1 + r2 + r3 + r4;
    assert(s == readouts_seq(aht20, bmp280, lux));
    lemma_readout_len(label_byte(SensorId0::BITS, UnitScale1_100::BITS, Thermometer::BITS), aht20.temperature as u32);
    lemma_readout_len(label_byte(SensorId0::BITS, UnitScale1_100::BITS, Higrometer::BITS), aht20.humidity as u32);
    lemma_readout_len(label_byte(SensorId1::BITS, UnitScale1_1000::BITS, Thermometer::BITS), bmp280.temperature as u32);
    lemma_readout_len(label_byte(SensorId0::BITS, UnitScale1_1000::BITS, Barometer::BITS), bmp280.pressure);
    lemma_readout_len(label_byte(SensorId0::BITS, UnitScale1_100::BITS, Luxmeter::BITS), lux);
    lemma_five_chunks(r0, r1, r2, r3, r4);
    lemma_label_field_bits();
    lemma_chunk_decodes(s, 0, SensorId0::BITS, UnitScale1_100::BITS, Thermometer::BITS, aht20.temperature as u32);
    lemma_chunk_decodes(s, 5, SensorId0::BITS, UnitScale1_100::BITS, Higrometer::BITS, aht20.humidity as u32);
    lemma_chunk_decodes(s, 10, SensorId1::BITS, UnitScale1_1000::BITS, Thermometer::BITS, bmp280.temperature as u32);
    lemma_chunk_decodes(s, 15, SensorId0::BITS, UnitScale1_1000::BITS, Barometer::BITS, bmp280.pressure);
    lemma_chunk_decodes(s, 20, SensorId0::BITS, UnitScale1_100::BITS, Luxmeter::BITS, lux);
}

proof fn lemma_readout_len(label: u8, data: u32)
    ensures
        readout_bytes(label, data).len() == 5,
{
}

proof fn lemma_five_chunks(a: Seq<u8>, b: Seq<u8>, c: Seq<u8>, d: Seq<u8>, e: Seq<u8>)
    requires
        a.len() == 5,
        b.len() == 5,
        c.len() == 5,
        d.len() == 5,
        e.len() == 5,
    ensures
        (a + b + c + d + e).len() == 25,
        (a + b + c + d + e).subrange(0, 5) == a,
        (a + b + c + d + e).subrange(5, 10) == b,
        (a + b + c + d + e).subrange(10, 15) == c,
        (a + b + c + d + e).subrange(15, 20) == d,
        (a + b + c + d + e).subrange(20, 25) == e,
{
    let s = a + b + c + d + e;
    assert(s.subrange(0, 5) =~= a);
    assert(s.subrange(5, 10) =~= b);
    assert(s.subrange(10, 15) =~= c);
    assert(s.subrange(15, 20) =~= d);
    assert(s.subrange(20, 25) =~= e);
}

proof fn lemma_chunk_decodes(
    s: Seq<u8>,
    start: int,
    sensor_id: u8,
    unit_scale: u8,
    sensor_type: u8,
    data: u32,
)
    requires
        0 <= start,
        start + 5 <= s.len(),
        sensor_type < 4,
        s.subrange(start, start + 5) == readout_bytes(
            label_byte(sensor_id, unit_scale, sensor_type),
            data,
        ),
    ensures
        readout_decodes_at(s, start, label_byte(sensor_id, unit_scale, sensor_type), data),
{
    let label = label_byte(sensor_id, unit_scale, sensor_type);
    lemma_readout_decodes(sensor_id, unit_scale, sensor_type, data);
    let c = s.subrange(start, start + 5);
    assert(c[0] == s[start] && c[1] == s[start + 1] && c[2] == s[start + 2] && c[3] == s[start
        + 3] && c[4] == s[start + 4]);
    assert(label % 16 == sensor_type % 16);
}

fn put_readout(output: &mut [u8], offset: usize, bytes: [u8; 5])
    requires
        offset + 5 <= old(output)@.len(),
    ensures
        final(output)@.len() == old(output)@.len(),
        final(output)@ == old(output)@.take(offset as int) + bytes@ + old(output)@.skip(
            offset + 5,
        ),
{
    let len = output.len();
    let mut k: usize = 0;
    while k < 5
        invariant
            k <= 5,
            len == output@.len(),
            offset + 5 <= output@.len(),
            output@.len() == old(output)@.len(),
            output@ == old(output)@.take(offset as int) + bytes@.take(k as int) + old(
                output,
            )@.skip(offset + k),
        decreases 5 - k,
    {
        output[offset + k] = bytes[k];
        assert(output@ =~= old(output)@.take(offset as int) + bytes@.take(k + 1) + old(
            output,
        )@.skip(offset + k + 1));
        k += 1;
    }
    assert(bytes@.take(5) =~= bytes@);
}

/// Writes the readouts of one reading to the start of `output` and
/// returns how many bytes were written: none when `output` is too short.
pub fn write_readouts(output: &mut [u8], aht20: &Aht20Data, bmp280: &Bmp280Data, lux: u32) -> (r:
    usize)
    ensures
        old(output)@.len() < N_BYTES ==> r == 0 && final(output)@ == old(output)@,
        old(output)@.len() >= N_BYTES ==> r == N_BYTES && final(output)@ == readouts_seq(
            *aht20,
            *bmp280,
            lux,
        ) + old(output)@.skip(N_BYTES as int),
{
    if output.len() < N_BYTES {
        return 0;
    }
    let ghost orig = output@;
    let temp = TypedLabelReadout::<SensorId0, UnitScale1_100, Thermometer>::new(
        aht20.temperature as u32,
    );
    let humid = TypedLabelReadout::<SensorId0, UnitScale1_100, Higrometer>::new(
        aht20.humidity as u32,
    );
    put_readout(output, 0, temp.get_bytes());
    put_readout(output, 5, humid.get_bytes());

    let temp = TypedLabelReadout::<SensorId1, UnitScale1_1000, Thermometer>::new(
        bmp280.temperature as u32,
    );
    let pres = TypedLabelReadout::<SensorId0, UnitScale1_1000, Barometer>::new(bmp280.pressure);
    put_readout(output, 10, temp.get_bytes());
    put_readout(output, 15, pres.get_bytes());

    let luxs = TypedLabelReadout::<SensorId0, UnitScale1_100, Luxmeter>::new(lux);
    put_readout(output, 20, luxs.get_bytes());

    assert(output@ =~= readouts_seq(*aht20, *bmp280, lux) + orig.skip(N_BYTES as int));
    N_BYTES
}

/// The 26-byte frame of one reading: the sensor id, then the readouts.
pub fn frame_bytes(sensor_id: u8, aht20: &Aht20Data, bmp280: &Bmp280Data, lux: u32) -> (r: [u8;
    26])
    ensures
        r@ == seq![sensor_id] + readouts_seq(*aht20, *bmp280, lux),
{
    let mut bytes = [0u8; 26];
    bytes[0] = sensor_id;
    let ghost first = bytes@;
    let mut readouts = [0u8; 25];
    let _bytes_written = write_readouts(&mut readouts, aht20, bmp280, lux);
    let mut k: usize = 0;
    while k < 25
        invariant
            k <= 25,
            readouts@ == readouts_seq(*aht20, *bmp280, lux),
            bytes@.len() == 26,
            bytes@[0] == sensor_id,
            forall|j: int| 1 <= j <= k ==> #[trigger] bytes@[j] == readouts@[j - 1],
        decreases 25 - k,
    {
        bytes[k + 1] = readouts[k];
        k += 1;
    }
    assert(bytes@ =~= seq![sensor_id] + readouts_seq(*aht20, *bmp280, lux));
    bytes
}

/// Voltage on the supercapacitor pair, from the ADC reading of its 100k /
/// 1M divider at 3.3 V.
pub open spec fn sum_mv_of(sum_raw: u16) -> u16 {
    divider_input_mv(sum_raw as int, 100_000, 1_000_000, 3300) as u16
}

/// Voltage on the second capacitor, from the ADC reading of its 1M / 100k
/// divider at 3.3 V.
pub open spec fn second_mv_of(second_raw: u16) -> u16 {
    divider_input_mv(second_raw as int, 1_000_000, 100_000, 3300) as u16
}

/// Whether the readings are ones `charge_info` is defined on: both divider
/// computations fit 32 bits and the summed voltage is not below the second
/// capacitor's.
pub fn charge_info_in_range(sum_raw: u16, second_raw: u16) -> (r: bool)
    ensures
        r == (((3300 * sum_raw) / 1023) * 1_100_000 <= u32::MAX && ((3300 * second_raw) / 1023)
            * 1_100_000 <= u32::MAX && sum_mv_of(sum_raw) >= second_mv_of(second_raw)),
{
    let sum_vadc = (3300 * sum_raw as u64) / 1023;
    let second_vadc = (3300 * second_raw as u64) / 1023;
    if sum_vadc * 1_100_000 > 0xffff_ffff || second_vadc * 1_100_000 > 0xffff_ffff {
        return false;
    }
    let sum_mv = reverse_voltage_divider_mv::<100_000, 1_000_000, 3300>(sum_raw);
    let other_mv = reverse_voltage_divider_mv::<1_000_000, 100_000, 3300>(second_raw);
    sum_mv >= other_mv
}

pub struct ChargeInfo {
    pub sum_mv: u16,
    pub first_mv: u16,
    pub second_mv: u16,
}

/// The charge of the two capacitors from the ADC readings of their
/// dividers: the summed voltage, the second capacitor's voltage, and the
/// first capacitor's as their difference.
pub fn charge_info(sum_raw: u16, second_raw: u16) -> (r: ChargeInfo)
    requires
        ((3300 * sum_raw) / 1023) * 1_100_000 <= u32::MAX,
        ((3300 * second_raw) / 1023) * 1_100_000 <= u32::MAX,
        sum_mv_of(sum_raw) >= second_mv_of(second_raw),
    ensures
        r.sum_mv == sum_mv_of(sum_raw),
        r.second_mv == second_mv_of(second_raw),
        r.first_mv + r.second_mv == r.sum_mv,
{
    let sum_mv = reverse_voltage_divider_mv::<100_000, 1_000_000, 3300>(sum_raw);
    let other_mv = reverse_voltage_divider_mv::<1_000_000, 100_000, 3300>(second_raw);

    ChargeInfo { sum_mv, first_mv: sum_mv - other_mv, second_mv: other_mv }
}

// === ERRORS ===
// Initialization
pub enum ModuleInitError {
    Aht20Error(Aht20Error),
    Veml7700(I2cError),
    Bmp280Error(I2cError),
}

impl From<Aht20Error> for ModuleInitError {
    fn from(value: Aht20Error) -> (r: Self)
        ensures
            r == ModuleInitError::Aht20Error(value),
    {
        Self::Aht20Error(value)
    }
}

impl vstd::std_specs::convert::FromSpecImpl<Aht20Error> for ModuleInitError {
    open spec fn obeys_from_spec() -> bool {
        true
    }

    open spec fn from_spec(v: Aht20Error) -> Self {
        ModuleInitError::Aht20Error(v)
    }
}

pub enum ClimateSensorInitError {
    ModuleInitError(ModuleInitError),
}

impl From<ModuleInitError> for ClimateSensorInitError {
    fn from(value: ModuleInitError) -> (r: Self)
        ensures
            r == ClimateSensorInitError::ModuleInitError(value),
    {
        Self::ModuleInitError(value)
    }
}

impl vstd::std_specs::convert::FromSpecImpl<ModuleInitError> for ClimateSensorInitError {
    open spec fn obeys_from_spec() -> bool {
        true
    }

    open spec fn from_spec(v: ModuleInitError) -> Self {
        ClimateSensorInitError::ModuleInitError(v)
    }
}

// Reading
pub enum ModuleReadError {
    Aht20Error(Aht20Error),
    Veml7700(I2cError),
    Bmp280Error(Bmp280ReadError),
}

impl From<Aht20Error> for ModuleReadError {
    fn from(value: Aht20Error) -> (r: Self)
        ensures
            r == ModuleReadError::Aht20Error(value),
    {
        ModuleReadError::Aht20Error(value)
    }
}

impl vstd::std_specs::convert::FromSpecImpl<Aht20Error> for ModuleReadError {
    open spec fn obeys_from_spec() -> bool {
        true
    }

    open spec fn from_spec(v: Aht20Error) -> Self {
        ModuleReadError::Aht20Error(v)
    }
}

impl From<Bmp280ReadError> for ModuleReadError {
    fn from(value: Bmp280ReadError) -> (r: Self)
        ensures
            r == ModuleReadError::Bmp280Error(value),
    {
        ModuleReadError::Bmp280Error(value)
    }
}

impl vstd::std_specs::convert::FromSpecImpl<Bmp280ReadError> for ModuleReadError {
    open spec fn obeys_from_spec() -> bool {
        true
    }

    open spec fn from_spec(v: Bmp280ReadError) -> Self {
        ModuleReadError::Bmp280Error(v)
    }
}

pub enum ClimateSensorReadError {
    ModuleReadError(ModuleReadError),
}

impl From<ModuleReadError> for ClimateSensorReadError {
    fn from(value: ModuleReadError) -> (r: Self)
        ensures
            r == ClimateSensorReadError::ModuleReadError(value),
    {
        ClimateSensorReadError::ModuleReadError(value)
    }
}

impl vstd::std_specs::convert::FromSpecImpl<ModuleReadError> for ClimateSensorReadError {
    open spec fn obeys_from_spec() -> bool {
        true
    }

    open spec fn from_spec(v: ModuleReadError) -> Self {
        ClimateSensorReadError::ModuleReadError(v)
    }
}

} // verus!
