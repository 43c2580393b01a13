use battery_free_climat_sensor::bmp280::{Bmp280, Bmp280RawData};
use battery_free_climat_sensor::climate_sensor::{
    charge_info, charge_info_in_range, frame_bytes, write_readouts, ClimateSensorInitError, ClimateSensorReadError,
    ModuleInitError, ModuleReadError, N_BYTES,
};
use battery_free_climat_sensor::drivers::aht20::{Aht20Data, Aht20Error};
use battery_free_climat_sensor::drivers::bmp280::driver::{Bmp280Data, Bmp280ReadError};
use battery_free_climat_sensor::i2c_error::I2cError;
use battery_free_climat_sensor::local_clock::MHz3;
use battery_free_climat_sensor::local_delay::delay_loop_iterations;
use battery_free_climat_sensor::power_controlled_bus::ActiveLowPin;
use battery_free_climat_sensor::power_manager::PowerManager;
use battery_free_climat_sensor::radio::should_tick;
use battery_free_climat_sensor::radio_timer::{raise_tick_flag, should_transmitter_tick};
use battery_free_climat_sensor::sleep::{count_watchdog_wake, ready, INITIAL_WDT_COUNT, WAKE_CYCLES};
use battery_free_climat_sensor::util::split_fixed_point;
use battery_free_climat_sensor::util::timer::count_millisecond;
use battery_free_climat_sensor::util::voltage_divider::reverse_voltage_divider_mv;
use battery_free_climat_sensor::veml7700::config::{It100, Sm2};
use battery_free_climat_sensor::veml7700::Veml7700;

fn compensation_buffer() -> [u8; 24] {
    let mut buffer = [0u8; 24];
    // dig_t1 = 27504, dig_t2 = 26435, dig_t3 = -1000
    buffer[..6].copy_from_slice(&[0x70, 0x6b, 0x43, 0x67, 0x18, 0xfc]);
    buffer
}

#[test]
fn old_bmp280_init_commands() {
    assert_eq!(Bmp280::init_commands(), [[0xf5, 0x00], [0xf4, 0x27]]);
    assert_eq!(Bmp280::OVERSAMPLING[5], 0b111);
    assert_eq!(Bmp280::N_COMPENSATION_BYTES, 24);
}

#[test]
fn old_bmp280_temperature_compensation() {
    let sensor = Bmp280::from_compensation_bytes(0x77, &compensation_buffer());
    assert_eq!(sensor.address(), 0x77);
    assert_eq!(sensor.convert_raw_temp(519888), 2331);
    assert_eq!(sensor.convert_raw_temp(440000), -2);
    let raw = Bmp280RawData::from_buffer(&[0x65, 0x5a, 0xc0, 0x7e, 0xed, 0x00]);
    assert_eq!(raw.temperature, 519888);
    assert_eq!(raw.pressure, 415148);
    let data = sensor.read_data(&raw);
    assert_eq!(data.temperature, 2331);
    assert_eq!(data.pressure, 415148);
}

#[test]
fn old_veml7700() {
    assert_eq!(Veml7700::<Sm2, It100>::raw_to_lux(1000), 42);
    assert_eq!(Veml7700::<Sm2, It100>::raw_to_lux(23), 0);
    assert_eq!(Veml7700::<Sm2, It100>::lux_from_bytes(&[0xe8, 0x03]), 42);
    assert_eq!(
        Veml7700::<Sm2, It100>::init_commands(),
        [[0x00, 0x00, 0x08], [0x01, 0, 0], [0x02, 0, 0], [0x03, 0x01, 0x00]]
    );
    assert_eq!(Veml7700::<Sm2, It100>::new(0x10).address(), 0x10);
}

#[test]
fn frame_layout() {
    let aht = Aht20Data { temperature: -150, humidity: 4188, crc_passed: true };
    let bmp = Bmp280Data { temperature: 2331, pressure: 101_325 };
    let frame = frame_bytes(1, &aht, &bmp, 1000);
    assert_eq!(
        frame,
        [
            1,
            0x20, 0x6a, 0xff, 0xff, 0xff,
            0x21, 0x5c, 0x10, 0x00, 0x00,
            0x70, 0x1b, 0x09, 0x00, 0x00,
            0x32, 0xcd, 0x8b, 0x01, 0x00,
            0x23, 0xe8, 0x03, 0x00, 0x00,
        ]
    );
}

#[test]
fn readouts_need_room() {
    let aht = Aht20Data { temperature: 1, humidity: 2, crc_passed: false };
    let bmp = Bmp280Data { temperature: 3, pressure: 4 };
    let mut short = [0xaau8; 24];
    assert_eq!(write_readouts(&mut short, &aht, &bmp, 5), 0);
    assert_eq!(short, [0xaa; 24]);
    let mut long = [0xaau8; 30];
    assert_eq!(write_readouts(&mut long, &aht, &bmp, 5), N_BYTES);
    assert_eq!(&long[..5], &[0x20, 1, 0, 0, 0]);
    assert_eq!(&long[20..25], &[0x23, 5, 0, 0, 0]);
    assert_eq!(&long[25..], &[0xaa; 5]);
}

#[test]
fn voltage_divider() {
    assert_eq!(reverse_voltage_divider_mv::<100_000, 1_000_000, 3300>(1023), 3630);
    assert_eq!(reverse_voltage_divider_mv::<1_000_000, 100_000, 3300>(500), 17732);
    assert_eq!(reverse_voltage_divider_mv::<100_000, 1_000_000, 3300>(0), 0);
}

#[test]
fn charge_info_splits_the_sum() {
    let info = charge_info(1000, 0);
    assert_eq!(info.sum_mv, 3547);
    assert_eq!(info.second_mv, 0);
    assert_eq!(info.first_mv, 3547);
    let info = charge_info(1000, 50);
    assert_eq!(info.second_mv, 1771);
    assert_eq!(info.first_mv + info.second_mv, info.sum_mv);
}

#[test]
fn wake_up_schedule() {
    let mut count = INITIAL_WDT_COUNT;
    assert!(ready(&mut count));
    assert_eq!(count, 0);
    for _ in 0..WAKE_CYCLES - 1 {
        count_watchdog_wake(&mut count);
        assert!(!ready(&mut count));
    }
    count_watchdog_wake(&mut count);
    assert!(ready(&mut count));
    assert!(!ready(&mut count));
    let mut full = u8::MAX;
    count_watchdog_wake(&mut full);
    assert_eq!(full, u8::MAX);
}

#[test]
fn tick_flags() {
    let mut flag = false;
    assert!(!should_transmitter_tick(&mut flag));
    raise_tick_flag(&mut flag);
    raise_tick_flag(&mut flag);
    assert!(should_transmitter_tick(&mut flag));
    assert!(!should_transmitter_tick(&mut flag));
    let mut flag = true;
    assert!(should_tick(&mut flag));
    assert!(!should_tick(&mut flag));
}

#[test]
fn power_manager_active_low() {
    let mut pm = PowerManager::new(false, false, false, true);
    pm.deactivate_all();
    assert!(pm.rf_vcc_level() && pm.geiger_vcc_level() && pm.i2c_vcc_level());
    pm.activate_all();
    assert!(!pm.rf_vcc_level() && !pm.geiger_vcc_level() && !pm.i2c_vcc_level());
    pm.deactivate_power_hungry();
    assert!(pm.rf_vcc_level());
    assert!(!pm.geiger_vcc_level() && !pm.i2c_vcc_level());
    pm.activate_power_hungry();
    assert!(!pm.rf_vcc_level());
}

#[test]
fn power_manager_active_high() {
    let mut pm = PowerManager::new(true, false, true, false);
    pm.activate_power_hungry();
    assert!(pm.rf_vcc_level());
    assert!(!pm.geiger_vcc_level());
    assert!(pm.i2c_vcc_level());
    pm.deactivate_all();
    assert!(!pm.rf_vcc_level() && !pm.geiger_vcc_level() && !pm.i2c_vcc_level());
}

#[test]
fn active_low_pin() {
    let mut pin = ActiveLowPin::from_pin(true);
    assert!(pin.is_high());
    pin.set_active();
    assert!(!pin.is_high());
    pin.toggle();
    assert!(pin.is_high());
    pin.toggle();
    pin.set_notactive();
    assert!(pin.is_high());
}

#[test]
fn delay_iterations() {
    assert_eq!(delay_loop_iterations(0), 0);
    assert_eq!(delay_loop_iterations(1), 0);
    assert_eq!(delay_loop_iterations(2), 1);
    assert_eq!(delay_loop_iterations(1000), 738);
    assert_eq!(MHz3::FREQ, 3_686_400);
}

#[test]
fn fixed_point_split() {
    assert_eq!(split_fixed_point(2331u32, 100), (23, 31));
    assert_eq!(split_fixed_point(-2331i32, 100), (-23, -31));
    assert_eq!(split_fixed_point(5u8, 10), (0, 5));
}

#[test]
fn millisecond_counter() {
    let mut ms = 41u32;
    count_millisecond(&mut ms);
    assert_eq!(ms, 42);
}

#[test]
fn error_conversions() {
    let e: ModuleInitError = Aht20Error::SensorBusy.into();
    assert!(matches!(e, ModuleInitError::Aht20Error(Aht20Error::SensorBusy)));
    let e: ClimateSensorInitError = ModuleInitError::Bmp280Error(I2cError::BusError).into();
    assert!(matches!(
        e,
        ClimateSensorInitError::ModuleInitError(ModuleInitError::Bmp280Error(I2cError::BusError))
    ));
    let e: ModuleReadError = Bmp280ReadError::NotInitialized.into();
    assert!(matches!(e, ModuleReadError::Bmp280Error(Bmp280ReadError::NotInitialized)));
    let e: ModuleReadError = Aht20Error::I2cError(I2cError::Unknown).into();
    let e: ClimateSensorReadError = e.into();
    assert!(matches!(
        e,
        ClimateSensorReadError::ModuleReadError(ModuleReadError::Aht20Error(Aht20Error::I2cError(
            I2cError::Unknown
        )))
    ));
    assert!(matches!(ModuleReadError::Veml7700(I2cError::ArbitrationLost), ModuleReadError::Veml7700(_)));
}

#[test]
fn charge_info_range() {
    assert!(charge_info_in_range(1000, 0));
    assert!(charge_info_in_range(1000, 50));
    // the second capacitor reads above the sum
    assert!(!charge_info_in_range(10, 50));
    // the divider computation does not fit 32 bits
    assert!(!charge_info_in_range(1300, 0));
    assert!(!charge_info_in_range(1023, 1300));
}

#[test]
fn old_bmp280_conversion_domain() {
    let sensor = Bmp280::from_compensation_bytes(0x77, &compensation_buffer());
    assert!(sensor.can_convert_raw_temp(519888));
    assert!(sensor.can_convert_raw_temp(0));
    assert!(!sensor.can_convert_raw_temp(i32::MAX));
    assert!(!sensor.can_convert_raw_temp(i32::MIN));
    assert!(sensor.can_convert_raw_temp((1 << 20) - 1));
}

#[test]
fn millisecond_counter_counts_interrupts() {
    let mut ms = 0u32;
    let mut last = ms;
    for _ in 0..1500 {
        count_millisecond(&mut ms);
        assert!(ms >= last);
        last = ms;
    }
    assert_eq!(ms, 1500);
}

#[test]
fn tick_flag_reports_latest_interrupt() {
    let mut flag = false;
    raise_tick_flag(&mut flag);
    assert!(should_transmitter_tick(&mut flag));
    assert!(!should_transmitter_tick(&mut flag));
    raise_tick_flag(&mut flag);
    assert!(should_transmitter_tick(&mut flag));
}

#[test]
fn ready_waits_for_wake_cycles_after_a_ready() {
    let mut count = 3u8;
    for _ in 0..20 {
        count_watchdog_wake(&mut count);
    }
    assert!(ready(&mut count));
    let mut calls = 0;
    let mut wakes = 0;
    while !ready(&mut count) {
        calls += 1;
        if calls % 3 == 0 {
            count_watchdog_wake(&mut count);
            wakes += 1;
        }
    }
    assert_eq!(wakes, WAKE_CYCLES);
}
