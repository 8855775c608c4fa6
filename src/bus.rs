//! The kind of failure that an `embedded_hal` bus reports.

use vstd::prelude::*;

verus! {

/// The kind of failure that a bus reports.
#[verifier::external_type_specification]
#[verifier::external_body]
pub struct ExErrorKind(embedded_hal::i2c::ErrorKind);

} // verus!
