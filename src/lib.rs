//! Register-level driver for the AS5600 magnetic rotary position sensor.

pub mod as5600;
pub mod bus;
pub mod configuration;
pub mod error;
pub mod history;
pub mod persistence;
pub mod register;
pub mod status;
pub mod wire;
