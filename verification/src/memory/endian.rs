//! Little-endian integers as they lie in firmware tables.
//!
//! Each value is defined arithmetically, least significant byte first, so that a caller
//! can compute what a given run of bytes decodes to.

use vstd::prelude::*;

verus! {

/// The 16-bit value whose little-endian encoding starts at index `at` of `bytes`.
pub open spec fn le_u16(bytes: Seq<u8>, at: int) -> u16 {
    (bytes[at] + bytes[at + 1] * 0x100) as u16
}

/// The 32-bit value whose little-endian encoding starts at index `at` of `bytes`.
pub open spec fn le_u32(bytes: Seq<u8>, at: int) -> u32 {
    (bytes[at] + bytes[at + 1] * 0x100 + bytes[at + 2] * 0x1_0000 + bytes[at + 3] * 0x100_0000) as u32
}

/// The 64-bit value whose little-endian encoding starts at index `at` of `bytes`.
pub open spec fn le_u64(bytes: Seq<u8>, at: int) -> u64 {
    (le_u32(bytes, at) + le_u32(bytes, at + 4) * 0x1_0000_0000) as u64
}

/// Decodes the two bytes at `at` as a little-endian integer.
pub fn read_le_u16(bytes: &[u8], at: usize) -> (value: u16)
    requires
        at + 2 <= bytes.len(),
    ensures
        value == le_u16(bytes@, at as int),
{
    let low: u16 = bytes[at] as u16;
    let high: u16 = bytes[at + 1] as u16;
    low + high * 0x100
}

/// Decodes the four bytes at `at` as a little-endian integer.
pub fn read_le_u32(bytes: &[u8], at: usize) -> (value: u32)
    requires
        at + 4 <= bytes.len(),
    ensures
        value == le_u32(bytes@, at as int),
{
    let b0: u32 = bytes[at] as u32;
    let b1: u32 = bytes[at + 1] as u32;
    let b2: u32 = bytes[at + 2] as u32;
    let b3: u32 = bytes[at + 3] as u32;
    b0 + b1 * 0x100 + b2 * 0x1_0000 + b3 * 0x100_0000
}

/// Decodes the eight bytes at `at` as a little-endian integer.
pub fn read_le_u64(bytes: &[u8], at: usize) -> (value: u64)
    requires
        at + 8 <= bytes.len(),
    ensures
        value == le_u64(bytes@, at as int),
{
    let low: u64 = read_le_u32(bytes, at) as u64;
    let high: u64 = read_le_u32(bytes, at + 4) as u64;
    low + high * 0x1_0000_0000
}

} // verus!
