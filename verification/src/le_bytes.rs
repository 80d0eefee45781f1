//! Little-endian decoding of the fixed-width integer fields that make up a
//! ZIP local file header.

use vstd::prelude::*;

verus! {

/// The value of the two little-endian bytes at offsets `i` and `i + 1`.
pub open spec fn spec_u16_le(b: Seq<u8>, i: int) -> u16
    recommends
        0 <= i,
        i + 2 <= b.len(),
{
    (b[i] + b[i + 1] * 0x100) as u16
}

/// The value of the four little-endian bytes at offsets `i` through `i + 3`.
pub open spec fn spec_u32_le(b: Seq<u8>, i: int) -> u32
    recommends
        0 <= i,
        i + 4 <= b.len(),
{
    (b[i] + b[i + 1] * 0x100 + b[i + 2] * 0x10000 + b[i + 3] * 0x1000000) as u32
}

/// Reassembles a `u16` from its little-endian bytes.
pub fn u16_from_le_bytes(b0: u8, b1: u8) -> (r: u16)
    ensures
        r == b0 + b1 * 0x100,
{
    b0 as u16 + b1 as u16 * 0x100
}

/// Reassembles a `u32` from its little-endian bytes.
pub fn u32_from_le_bytes(b0: u8, b1: u8, b2: u8, b3: u8) -> (r: u32)
    ensures
        r == b0 + b1 * 0x100 + b2 * 0x10000 + b3 * 0x1000000,
{
    b0 as u32 + b1 as u32 * 0x100 + b2 as u32 * 0x10000 + b3 as u32 * 0x1000000
}

} // verus!
