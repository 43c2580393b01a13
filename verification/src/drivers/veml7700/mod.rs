//! The VEML7700 ambient light sensor, configured at the type level.

pub mod config;
pub mod driver;
