//! Little-endian integers as they lie in a byte sequence.

use vstd::prelude::*;

verus! {

/// The 16-bit little-endian integer whose first byte is `b[at]`.
pub open spec fn u16_at(b: Seq<u8>, at: int) -> u16 {
    (b[at] as int + 0x100 * (b[at + 1] as int)) as u16
}

/// The 32-bit little-endian integer whose first byte is `b[at]`.
pub open spec fn u32_at(b: Seq<u8>, at: int) -> u32 {
    (b[at] as int + 0x100 * (b[at + 1] as int) + 0x1_0000 * (b[at + 2] as int) + 0x100_0000 * (b[at
        + 3] as int)) as u32
}

/// The 64-bit little-endian integer whose first byte is `b[at]`.
pub open spec fn u64_at(b: Seq<u8>, at: int) -> u64 {
    (u32_at(b, at) as int + 0x1_0000_0000 * (u32_at(b, at + 4) as int)) as u64
}

/// The 16-bit little-endian integer at `at` in `b`.
pub fn u16_in(b: &[u8], at: usize) -> (v: u16)
    requires
        at + 2 <= b@.len(),
    ensures
        v == u16_at(b@, at as int),
{
    let lo: u16 = b[at] as u16;
    let hi: u16 = b[at + 1] as u16;
    lo + 0x100 * hi
}

/// The 32-bit little-endian integer at `at` in `b`.
pub fn u32_in(b: &[u8], at: usize) -> (v: u32)
    requires
        at + 4 <= b@.len(),
    ensures
        v == u32_at(b@, at as int),
{
    let b0: u32 = b[at] as u32;
    let b1: u32 = b[at + 1] as u32;
    let b2: u32 = b[at + 2] as u32;
    let b3: u32 = b[at + 3] as u32;
    b0 + 0x100 * b1 + 0x1_0000 * b2 + 0x100_0000 * b3
}

/// The 64-bit little-endian integer at `at` in `b`.
pub fn u64_in(b: &[u8], at: usize) -> (v: u64)
    requires
        at + 8 <= b@.len(),
    ensures
        v == u64_at(b@, at as int),
{
    assert(b@.len() == b.len());
    let lo: u64 = u32_in(b, at) as u64;
    let hi: u64 = u32_in(b, at + 4) as u64;
    lo + 0x1_0000_0000 * hi
}

/// Decodes two bytes, least significant first.
pub fn u16_from_le(b: &[u8; 2]) -> (v: u16)
    ensures
        v == u16_at(b@, 0),
{
    u16_in(b.as_slice(), 0)
}

/// Decodes four bytes, least significant first.
pub fn u32_from_le(b: &[u8; 4]) -> (v: u32)
    ensures
        v == u32_at(b@, 0),
{
    u32_in(b.as_slice(), 0)
}

/// Decodes eight bytes, least significant first.
pub fn u64_from_le(b: &[u8; 8]) -> (v: u64)
    ensures
        v == u64_at(b@, 0),
{
    u64_in(b.as_slice(), 0)
}

} // verus!
