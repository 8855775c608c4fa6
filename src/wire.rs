//! Big-endian register values as they travel on the bus.

use vstd::prelude::*;

verus! {

/// Mask of the value bits of a 12-bit register.
pub const TWELVE_BITS: u16 = 0x0FFF;

/// The value of two bytes read most significant first.
pub open spec fn spec_from_be(bytes: Seq<u8>) -> int {
    bytes[0] as int * 256 + bytes[1] as int
}

/// The bytes of a 16-bit value, most significant first.
pub open spec fn spec_to_be(value: u16) -> Seq<u8> {
    seq![(value / 256) as u8, (value % 256) as u8]
}

/// Reads a 16-bit value sent most significant byte first.
pub fn from_be_bytes(bytes: [u8; 2]) -> (r: u16)
    ensures
        r as int == spec_from_be(bytes@),
{
    (bytes[0] as u16) * 256 + bytes[1] as u16
}

/// Splits a 16-bit value into its bytes, most significant first.
pub fn to_be_bytes(value: u16) -> (r: [u8; 2])
    ensures
        r@ == spec_to_be(value),
        spec_from_be(r@) == value as int,
{
    [(value / 256) as u8, (value % 256) as u8]
}

/// The 12 value bits of a register read; the top 4 bits are cleared.
pub fn low_12_bits(raw: u16) -> (r: u16)
    ensures
        r == raw & TWELVE_BITS,
        r & 0xF000 == 0,
        r as int == raw as int % 4096,
{
    let r = raw & TWELVE_BITS;
    assert(r & 0xF000 == 0 && r == raw % 4096) by (bit_vector)
        requires
            r == raw & 0x0FFF,
    ;
    r
}

} // verus!
