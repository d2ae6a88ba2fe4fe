//! Big-endian integers and single bits, as they lie in a packet.

use vstd::prelude::*;

verus! {

/// The 16-bit big-endian integer whose first byte is `s[at]`.
pub open spec fn be_u16(s: Seq<u8>, at: int) -> u16 {
    (s[at] as int * 0x100 + s[at + 1] as int) as u16
}

/// The 32-bit big-endian integer whose first byte is `s[at]`.
pub open spec fn be_u32(s: Seq<u8>, at: int) -> u32 {
    (be_u16(s, at) as int * 0x1_0000 + be_u16(s, at + 2) as int) as u32
}

/// The 64-bit big-endian integer whose first byte is `s[at]`.
pub open spec fn be_u64(s: Seq<u8>, at: int) -> u64 {
    (be_u32(s, at) as int * 0x1_0000_0000 + be_u32(s, at + 4) as int) as u64
}

/// Whether bit `n` of `byte` is set, bit 0 being the least significant.
pub open spec fn bit(byte: u8, n: u8) -> bool {
    byte & (1u8 << n) != 0
}

/// Reads the 16-bit big-endian integer at offset `at`.
pub fn read_be_u16(buf: &[u8], at: usize) -> (v: u16)
    requires
        at + 2 <= buf.len(),
    ensures
        v == be_u16(buf@, at as int),
{
    buf[at] as u16 * 0x100 + buf[at + 1] as u16
}

/// Reads the 32-bit big-endian integer at offset `at`.
pub fn read_be_u32(buf: &[u8], at: usize) -> (v: u32)
    requires
        at + 4 <= buf.len(),
    ensures
        v == be_u32(buf@, at as int),
{
    read_be_u16(buf, at) as u32 * 0x1_0000 + read_be_u16(buf, at + 2) as u32
}

/// Reads the 64-bit big-endian integer at offset `at`.
pub fn read_be_u64(buf: &[u8], at: usize) -> (v: u64)
    requires
        at + 8 <= buf.len(),
    ensures
        v == be_u64(buf@, at as int),
{
    read_be_u32(buf, at) as u64 * 0x1_0000_0000 + read_be_u32(buf, at + 4) as u64
}

/// Tests bit `n` of `byte`, bit 0 being the least significant.
pub fn test_bit(byte: u8, n: u8) -> (set: bool)
    requires
        n < 8,
    ensures
        set == bit(byte, n),
{
    byte & (1u8 << n) != 0
}

} // verus!
