//! Register-level logic for an environmental monitoring node: a BME68x
//! gas/temperature/humidity/pressure sensor, a VEML7700 ambient-light
//! sensor and the adapter around a gas-fusion library.
pub mod bsec;
pub mod calib;
pub mod config;
pub mod driver;
pub mod error;
pub mod field;
pub mod heater;
pub mod registers;
pub mod session;
pub mod settings;
pub mod veml;
