//! The rules that gate the two burn commands.
//!
//! Burning is irreversible and the sensor counts how often the positions were
//! burned (ZMCO). The counter is read fresh before each burn and handed to
//! these checks; they keep no state of their own.

use vstd::prelude::*;

use crate::error::Error;
use crate::status::Status;

verus! {

/// Whether the maximum angle and configuration may be burned at this counter.
pub open spec fn spec_angle_config_guard(zmco: u8) -> Result<(), Error> {
    if zmco == 0 {
        Ok(())
    } else {
        Err(Error::MangConfigPersistenceExhausted)
    }
}

/// Whether the counter leaves room for one more burn of the positions.
pub open spec fn spec_position_counter_guard(zmco: u8) -> Result<(), Error> {
    if zmco >= 3 {
        Err(Error::MaximumPositionPersistsReached)
    } else {
        Ok(())
    }
}

/// Whether the positions may be burned: the counter is checked first, then
/// the magnet.
pub open spec fn spec_position_guard(zmco: u8, status: Status) -> Result<(), Error> {
    if zmco >= 3 {
        Err(Error::MaximumPositionPersistsReached)
    } else if status != Status::MagnetDetected {
        Err(Error::MagnetRequired)
    } else {
        Ok(())
    }
}

/// Allows burning the maximum angle and configuration only if the positions
/// were never burned.
pub fn angle_config_guard(zmco: u8) -> (r: Result<(), Error>)
    ensures
        r == spec_angle_config_guard(zmco),
{
    if zmco != 0 {
        Err(Error::MangConfigPersistenceExhausted)
    } else {
        Ok(())
    }
}

/// Allows burning the positions only while the counter is below three.
pub fn position_counter_guard(zmco: u8) -> (r: Result<(), Error>)
    ensures
        r == spec_position_counter_guard(zmco),
{
    if zmco >= 3 {
        Err(Error::MaximumPositionPersistsReached)
    } else {
        Ok(())
    }
}

/// Allows burning the positions only while the counter is below three and a
/// magnet is detected; an exhausted counter is reported before a missing magnet.
pub fn position_guard(zmco: u8, status: Status) -> (r: Result<(), Error>)
    ensures
        r == spec_position_guard(zmco, status),
{
    position_counter_guard(zmco)?;
    match status {
        Status::MagnetDetected => Ok(()),
        _ => Err(Error::MagnetRequired),
    }
}

/// The thresholds of the two burns over every counter value: the maximum angle
/// and configuration only at zero; the positions at zero, one or two with a
/// magnet detected, never at three, and without a magnet they fail for want of it.
pub proof fn lemma_guard_thresholds(zmco: u8, status: Status)
    requires
        zmco <= 3,
    ensures
        spec_angle_config_guard(zmco) is Ok <==> zmco == 0,
        zmco >= 1 ==> spec_angle_config_guard(zmco) == Err::<(), Error>(
            Error::MangConfigPersistenceExhausted,
        ),
        zmco < 3 && status == Status::MagnetDetected ==> spec_position_guard(zmco, status) is Ok,
        zmco == 3 ==> spec_position_guard(zmco, status) == Err::<(), Error>(
            Error::MaximumPositionPersistsReached,
        ),
        zmco < 3 && status != Status::MagnetDetected ==> spec_position_guard(zmco, status)
            == Err::<(), Error>(Error::MagnetRequired),
        spec_position_counter_guard(zmco) is Err ==> spec_position_guard(zmco, status)
            == spec_position_counter_guard(zmco),
{
}

} // verus!
