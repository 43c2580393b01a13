//! Drivers of the sensors on the climate sensor board: what they send on
//! the bus and how they turn what they read into values.

pub mod aht20;
pub mod bmp280;
pub mod geiger_counter;
pub mod veml7700;
