//! The `STATUS` register: magnet detection flags.
//!
//! Bit 5 is MD (magnet detected), bit 4 ML (magnet too weak) and bit 3 MH
//! (magnet too strong); the other bits are not part of the status.

use vstd::prelude::*;

/// Errors
pub mod error;

use self::error::Error;

verus! {

/// Magnet detection state.
#[derive(Debug, PartialEq, Eq, Clone, Copy, Structural)]
pub enum Status {
    /// No magnet was detected.
    MagnetNotDetected,
    /// A magnet was detected and its field is in range.
    MagnetDetected,
    /// A magnet was detected, but its field is too strong.
    MagnetTooStrong,
    /// A magnet was detected, but its field is too weak.
    MagnetTooWeak,
}

/// The three detection flags of a status byte: MD, ML, MH from high to low.
pub open spec fn flags(byte: u8) -> u8 {
    (byte >> 3) & 0b111
}

impl Status {
    /// The state that a status byte reports.
    pub open spec fn spec_decode(byte: u8) -> Result<Status, Error> {
        let f = flags(byte);
        if f == 0b000 {
            Ok(Status::MagnetNotDetected)
        } else if f == 0b100 {
            Ok(Status::MagnetDetected)
        } else if f == 0b101 {
            Ok(Status::MagnetTooStrong)
        } else if f == 0b110 {
            Ok(Status::MagnetTooWeak)
        } else {
            Err(Error::BitPattern(byte))
        }
    }

    /// Parses the byte read from the status register. A combination of flags
    /// that names none of the four states is an error that carries the byte.
    pub fn decode(bytes: [u8; 1]) -> (r: Result<Status, Error>)
        ensures
            r == Self::spec_decode(bytes[0]),
            r is Err <==> !(flags(bytes[0]) == 0b000 || flags(bytes[0]) == 0b100
                || flags(bytes[0]) == 0b101 || flags(bytes[0]) == 0b110),
    {
        let byte = bytes[0];
        match (byte >> 3) & 0b111 {
            0b000 => Ok(Status::MagnetNotDetected),
            0b100 => Ok(Status::MagnetDetected),
            0b101 => Ok(Status::MagnetTooStrong),
            0b110 => Ok(Status::MagnetTooWeak),
            _ => Err(Error::BitPattern(byte)),
        }
    }
}

} // verus!
