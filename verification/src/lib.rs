//! The verified logic of a battery-free climate sensor: what its drivers
//! send and how they read the answers, the frame its readings are sent in,
//! and the state kept between wake-ups.

pub mod bmp280;
pub mod climate_sensor;
pub mod climate_sensor_data;
pub mod data_handling;
pub mod drivers;
pub mod i2c_error;
pub mod le_bytes;
pub mod local_clock;
pub mod local_delay;
pub mod power_controlled_bus;
pub mod power_manager;
pub mod radio;
pub mod radio_timer;
pub mod sleep;
pub mod util;
pub mod veml7700;
