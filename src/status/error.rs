use vstd::prelude::*;

verus! {

/// Errors of parsing the status register.
#[derive(Debug, PartialEq, Eq, Clone, Copy, Structural)]
pub enum Error {
    /// The detection bits of this status byte name no defined state.
    BitPattern(u8),
}

} // verus!
