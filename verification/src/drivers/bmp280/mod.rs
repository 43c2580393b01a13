//! The BMP280 pressure and temperature sensor.

pub mod config;
pub mod driver;
