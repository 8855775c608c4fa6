//! Errors of the driver's operations.

use vstd::prelude::*;

use crate::configuration;
use crate::status;

verus! {

/// Errors of the driver.
#[derive(Debug, PartialEq, Eq, Clone, Copy)]
pub enum Error {
    /// The bus transaction failed; the bus reported this kind of failure.
    Communication(embedded_hal::i2c::ErrorKind),
    /// The status register held no defined state.
    Status(status::error::Error),
    /// The configuration register held an undefined bit pattern.
    Configuration(configuration::error::Error),
    /// The maximum angle and configuration cannot be burned any more: the
    /// positions have been burned before.
    MangConfigPersistenceExhausted,
    /// The positions have been burned the maximum number of times.
    MaximumPositionPersistsReached,
    /// The positions can only be burned while a magnet is detected.
    MagnetRequired,
}

} // verus!
