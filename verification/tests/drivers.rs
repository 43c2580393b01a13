use battery_free_climat_sensor::drivers::aht20::{
    Aht20, Aht20Error, Aht20RawData, COMMAND_INITIALIZE, COMMAND_START_MEASUREMENT,
};
use battery_free_climat_sensor::drivers::bmp280::config::{
    Config, DefaultConfig, IIR16, OversamplingX16, PowerModeNormal, Standby4000ms,
};
use battery_free_climat_sensor::drivers::bmp280::driver::{
    Bmp280, Bmp280Compensations, Bmp280RawData, Bmp280ReadError,
};
use battery_free_climat_sensor::drivers::geiger_counter::GeigerCounter;
use battery_free_climat_sensor::drivers::veml7700::config::{
    AlsIt25ms, AlsPsm1, AlsSm_x2, Config as VemlConfig, ConfigFastLowPower,
};
use battery_free_climat_sensor::drivers::veml7700::driver::Veml7700;
use battery_free_climat_sensor::i2c_error::I2cError;

const FRAME: [u8; 7] = [0x1c, 0x6b, 0x3a, 0x25, 0x5e, 0x8f, 0x80];

#[test]
fn aht20_addresses_and_commands() {
    assert_eq!(Aht20::default().address(), 0x38);
    assert_eq!(Aht20::new(0x39).address(), 0x39);
    assert_eq!(COMMAND_INITIALIZE, [0xBE, 0x08, 0x00]);
    assert_eq!(COMMAND_START_MEASUREMENT, [0xAC, 0x33, 0x00]);
}

#[test]
fn aht20_status_bits() {
    assert!(Aht20::is_calibrated(0x08));
    assert!(Aht20::is_calibrated(0x1c));
    assert!(!Aht20::is_calibrated(0x10));
    assert!(Aht20::is_busy(0x80));
    assert!(Aht20::is_busy(0x98));
    assert!(!Aht20::is_busy(0x1c));
}

#[test]
fn aht20_conversions() {
    // half scale: 100 C - 50 C = 50 C, 50 %
    assert_eq!(Aht20::convert_temperature::<100>(1 << 19), 5000);
    assert_eq!(Aht20::convert_humidity::<100>(1 << 19), 5000);
    assert_eq!(Aht20::convert_temperature::<100>(0), -5000);
    assert_eq!(Aht20::convert_humidity::<100>(0), 0);
    assert_eq!(Aht20::convert_temperature::<1>(351887), 17);
    assert_eq!(Aht20::convert_temperature::<100>(351887), 1711);
    assert_eq!(Aht20::convert_humidity::<100>(439202), 4188);
    // full scale does not fit 16 bits: the value is truncated
    assert_eq!(Aht20::convert_humidity::<1000>((1 << 20) - 1), -31073);
}

#[test]
fn aht20_crc() {
    assert!(Aht20::check_crc(&FRAME));
    let mut bad = FRAME;
    bad[6] = 0x81;
    assert!(!Aht20::check_crc(&bad));
    let mut bad = FRAME;
    bad[2] ^= 0x01;
    assert!(!Aht20::check_crc(&bad));
}

#[test]
fn aht20_decode() {
    let data = Aht20::decode(&Aht20RawData { bytes: FRAME });
    assert_eq!(data.temperature, 1711);
    assert_eq!(data.humidity, 4188);
    assert!(data.crc_passed);
    let mut bytes = FRAME;
    bytes[6] = 0;
    let data = Aht20::decode(&Aht20RawData { bytes });
    assert!(!data.crc_passed);
    assert_eq!(data.temperature, 1711);
}

#[test]
fn aht20_error_from_i2c() {
    let e: Aht20Error = I2cError::DataNack.into();
    assert!(matches!(e, Aht20Error::I2cError(I2cError::DataNack)));
    assert!(matches!(Aht20Error::SensorBusy, Aht20Error::SensorBusy));
}

struct Fastest;

impl Config for Fastest {
    type TempOversampling = OversamplingX16;
    type PressOversampling = OversamplingX16;
    type PowerMode = PowerModeNormal;
    type Standby = Standby4000ms;
    type IIR = IIR16;
}

#[test]
fn bmp280_config_values() {
    assert_eq!(DefaultConfig::CTRL_MEAS_VALUE, 0x2a);
    assert_eq!(DefaultConfig::CONFIG_VALUE, 0x00);
    assert_eq!(Fastest::CTRL_MEAS_VALUE, 0b101_101_11);
    assert_eq!(Fastest::CONFIG_VALUE, 0b111_100_00);
    assert_eq!(Bmp280::<DefaultConfig>::init_commands(), [[0xf4, 0x2a], [0xf5, 0x00]]);
    assert_eq!(Bmp280::<Fastest>::init_commands(), [[0xf4, 0xb7], [0xf5, 0xf0]]);
}

#[test]
fn bmp280_raw_values() {
    let raw = Bmp280RawData::from_buffer(&[0x65, 0x5a, 0xc0, 0x7e, 0xed, 0x00]);
    assert_eq!(raw.pressure, 0x655ac);
    assert_eq!(raw.temperature, 0x7eed0);
    let raw = Bmp280RawData::from_buffer(&[0xff, 0xff, 0xff, 0xff, 0xff, 0xff]);
    assert_eq!(raw.pressure, 0xfffff);
    assert_eq!(raw.temperature, 0xfffff);
    let sensor = Bmp280::<DefaultConfig>::new(0x77);
    assert_eq!(sensor.address(), 0x77);
    let data = sensor.read(&raw);
    assert_eq!(data.temperature, 0xfffff);
    assert_eq!(data.pressure, 0xfffff);
}

#[test]
fn bmp280_compensations_and_init() {
    let mut buffer = [0u8; 24];
    buffer[0] = 0x70;
    buffer[1] = 0x6b;
    buffer[2] = 0x43;
    buffer[3] = 0x67;
    buffer[4] = 0x18;
    buffer[5] = 0xfc;
    buffer[6] = 0x7d;
    buffer[7] = 0x8e;
    let compensations = Bmp280Compensations::from_bytes(&buffer);
    let mut sensor = Bmp280::<DefaultConfig>::new(0x76);
    sensor.store_compensations(compensations);
    assert_eq!(sensor.address(), 0x76);
}

#[test]
fn bmp280_read_error_from_i2c() {
    let e: Bmp280ReadError = I2cError::AddressNack.into();
    assert!(matches!(e, Bmp280ReadError::I2cError(I2cError::AddressNack)));
    assert!(matches!(Bmp280ReadError::NotInitialized, Bmp280ReadError::NotInitialized));
}

#[test]
fn geiger_counter_fills_and_scales() {
    let mut counter = GeigerCounter::new();
    assert_eq!(counter.seconds_collected(), 0);
    counter.tick(10);
    counter.tick(20);
    assert_eq!(counter.seconds_collected(), 2);
    // 30 counts in 2 s, scaled to a minute
    assert_eq!(counter.cpm(), 900);
    for _ in 0..58 {
        counter.tick(1);
    }
    assert_eq!(counter.seconds_collected(), 60);
    assert_eq!(counter.cpm(), 88);
}

#[test]
fn geiger_counter_drops_oldest_second() {
    let mut counter = GeigerCounter::new();
    for i in 0..60u16 {
        counter.tick(i);
    }
    // 0 + 1 + ... + 59
    assert_eq!(counter.cpm(), 1770);
    counter.tick(100);
    // the 0 of the first second left, 100 came in
    assert_eq!(counter.cpm(), 1870);
    counter.tick(0);
    // the 1 of the second second left
    assert_eq!(counter.cpm(), 1869);
    assert_eq!(counter.seconds_collected(), 60);
    for _ in 0..200 {
        counter.tick(u16::MAX);
    }
    assert_eq!(counter.cpm(), 60 * u16::MAX as u32);
}

#[test]
fn veml7700_config_and_lux() {
    assert_eq!(ConfigFastLowPower::BITS_0x00, 0b01 << 11 | 0b1100 << 6);
    assert_eq!(ConfigFastLowPower::BITS_0x03, 0b1);
    assert_eq!(ConfigFastLowPower::BITS_0x01, 0);
    assert_eq!(ConfigFastLowPower::LUX_NUM, 10_000);
    assert_eq!(ConfigFastLowPower::LUX_DEN, 25_200);
    let cmds = Veml7700::<ConfigFastLowPower>::init_commands();
    assert_eq!(cmds, [[0x00, 0x00, 0x0b], [0x01, 0, 0], [0x02, 0, 0], [0x03, 0x01, 0x00]]);
    assert_eq!(Veml7700::<ConfigFastLowPower>::raw_to_lux(2520), 1000);
    assert_eq!(Veml7700::<ConfigFastLowPower>::raw_to_lux(u16::MAX), 26005);
    assert_eq!(Veml7700::<ConfigFastLowPower>::lux_from_bytes(&[0xd8, 0x09]), 1000);
    assert_eq!(Veml7700::<ConfigFastLowPower>::new(0x10).address(), 0x10);
}

struct Slow;

impl VemlConfig for Slow {
    type Sm = AlsSm_x2;
    type It = AlsIt25ms;
    type Psm = AlsPsm1;
    const LUX_NUM: u32 = 3;
    const LUX_DEN: u32 = 2;
}

#[test]
fn veml7700_custom_scaling() {
    assert_eq!(Veml7700::<Slow>::raw_to_lux(5), 7);
    assert_eq!(Veml7700::<Slow>::raw_to_lux(0), 0);
}

#[test]
fn aht20_measurement_status() {
    assert!(Aht20::check_measurement_status(0x1c).is_ok());
    assert!(matches!(Aht20::check_measurement_status(0x9c), Err(Aht20Error::SensorBusy)));
    assert!(matches!(Aht20::check_measurement_status(0x80), Err(Aht20Error::SensorBusy)));
    assert!(Aht20::check_measurement_status(0x7f).is_ok());
}

#[test]
fn bmp280_pressure_bit_pattern() {
    let sensor = Bmp280::<DefaultConfig>::new(0x77);
    let data = sensor.read(&Bmp280RawData { temperature: -5, pressure: -1 });
    assert_eq!(data.temperature, -5);
    assert_eq!(data.pressure, u32::MAX);
}

#[test]
fn geiger_counter_seconds_after_many_ticks() {
    let mut counter = GeigerCounter::new();
    for k in 1..=75u32 {
        counter.tick(2);
        assert_eq!(counter.seconds_collected() as u32, k.min(60));
    }
    assert_eq!(counter.cpm(), 120);
}
