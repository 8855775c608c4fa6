//! Register addresses and command bytes of the sensor.

use vstd::prelude::*;

verus! {

/// The sensor's bus address, unless the hardware variant says otherwise.
pub const DEFAULT_I2C_ADDRESS: u8 = 0x36;

/// Written to the burn register: store the maximum angle and the configuration.
pub const BURN_SETTING: u8 = 0x40;

/// Written to the burn register: store the zero and maximum positions.
pub const BURN_ANGLE: u8 = 0x80;

/// The registers of the sensor.
#[derive(Debug, PartialEq, Eq, Clone, Copy, Structural)]
pub enum Register {
    /// Burn counter of the zero and maximum positions.
    Zmco,
    /// Zero position.
    Zpos,
    /// Maximum position.
    Mpos,
    /// Maximum angle.
    Mang,
    /// Configuration.
    Conf,
    /// Unscaled, unfiltered angle.
    RawAngle,
    /// Scaled, filtered angle.
    Angle,
    /// Magnet detection status.
    Status,
    /// Automatic gain control.
    Agc,
    /// Magnitude of the magnetic field.
    Magnitude,
    /// Burn command.
    Burn,
}

impl Register {
    pub open spec fn spec_address(self) -> u8 {
        match self {
            Register::Zmco => 0x00,
            Register::Zpos => 0x01,
            Register::Mpos => 0x03,
            Register::Mang => 0x05,
            Register::Conf => 0x07,
            Register::RawAngle => 0x0C,
            Register::Angle => 0x0E,
            Register::Status => 0x0B,
            Register::Agc => 0x1A,
            Register::Magnitude => 0x1B,
            Register::Burn => 0xFF,
        }
    }

    /// The register's address on the wire.
    pub fn address(self) -> (r: u8)
        ensures
            r == self.spec_address(),
    {
        match self {
            Register::Zmco => 0x00,
            Register::Zpos => 0x01,
            Register::Mpos => 0x03,
            Register::Mang => 0x05,
            Register::Conf => 0x07,
            Register::RawAngle => 0x0C,
            Register::Angle => 0x0E,
            Register::Status => 0x0B,
            Register::Agc => 0x1A,
            Register::Magnitude => 0x1B,
            Register::Burn => 0xFF,
        }
    }
}

} // verus!
