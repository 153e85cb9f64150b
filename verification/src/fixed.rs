//! Fixed-width numbers: four or eight bytes, least significant byte first.
use vstd::prelude::*;

verus! {

/// The number that the first four of `bytes` spell, least significant byte first.
pub open spec fn le_value_32(bytes: Seq<u8>) -> nat {
    (bytes[0] + bytes[1] * 0x100 + bytes[2] * 0x1_0000 + bytes[3] * 0x100_0000) as nat
}

/// The number that the first eight of `bytes` spell, least significant byte first.
pub open spec fn le_value_64(bytes: Seq<u8>) -> nat {
    (bytes[0] + bytes[1] * 0x100 + bytes[2] * 0x1_0000 + bytes[3] * 0x100_0000 + bytes[4]
        * 0x1_0000_0000 + bytes[5] * 0x100_0000_0000 + bytes[6] * 0x1_0000_0000_0000 + bytes[7]
        * 0x100_0000_0000_0000) as nat
}

/// The signed number that `pattern` stands for in two's complement, where `modulus` is
/// two to the power of the width in bits.
pub open spec fn twos_complement(pattern: nat, modulus: nat) -> int {
    if 2 * pattern < modulus {
        pattern as int
    } else {
        pattern - modulus
    }
}

/// The signed number that the 32 bits of `pattern` stand for in two's complement.
pub open spec fn signed_32(pattern: nat) -> int {
    twos_complement(pattern, 0x1_0000_0000)
}

/// The signed number that the 64 bits of `pattern` stand for in two's complement.
pub open spec fn signed_64(pattern: nat) -> int {
    twos_complement(pattern, 0x1_0000_0000_0000_0000)
}

/// Reads four bytes, least significant first, as an unsigned number.
pub fn u32_from_le(bytes: [u8; 4]) -> (value: u32)
    ensures
        value == le_value_32(bytes@),
{
    let b0: u32 = bytes[0] as u32;
    let b1: u32 = bytes[1] as u32;
    let b2: u32 = bytes[2] as u32;
    let b3: u32 = bytes[3] as u32;
    assert(b0 | b1 << 8 | b2 << 16 | b3 << 24 == b0 + b1 * 0x100 + b2 * 0x1_0000 + b3
        * 0x100_0000) by (bit_vector)
        requires
            b0 < 0x100 && b1 < 0x100 && b2 < 0x100 && b3 < 0x100,
    ;
    b0 | b1 << 8 | b2 << 16 | b3 << 24
}

/// Reads eight bytes, least significant first, as an unsigned number.
pub fn u64_from_le(bytes: [u8; 8]) -> (value: u64)
    ensures
        value == le_value_64(bytes@),
{
    let b0: u64 = bytes[0] as u64;
    let b1: u64 = bytes[1] as u64;
    let b2: u64 = bytes[2] as u64;
    let b3: u64 = bytes[3] as u64;
    let b4: u64 = bytes[4] as u64;
    let b5: u64 = bytes[5] as u64;
    let b6: u64 = bytes[6] as u64;
    let b7: u64 = bytes[7] as u64;
    assert(b0 | b1 << 8 | b2 << 16 | b3 << 24 | b4 << 32 | b5 << 40 | b6 << 48 | b7 << 56 == b0
        + b1 * 0x100 + b2 * 0x1_0000 + b3 * 0x100_0000 + b4 * 0x1_0000_0000 + b5
        * 0x100_0000_0000 + b6 * 0x1_0000_0000_0000 + b7 * 0x100_0000_0000_0000) by (bit_vector)
        requires
            b0 < 0x100 && b1 < 0x100 && b2 < 0x100 && b3 < 0x100 && b4 < 0x100 && b5 < 0x100 && b6
                < 0x100 && b7 < 0x100,
    ;
    b0 | b1 << 8 | b2 << 16 | b3 << 24 | b4 << 32 | b5 << 40 | b6 << 48 | b7 << 56
}

/// Reads four bytes, least significant first, as a signed number in two's complement.
pub fn i32_from_le(bytes: [u8; 4]) -> (value: i32)
    ensures
        value == signed_32(le_value_32(bytes@)),
{
    let pattern: u32 = u32_from_le(bytes);
    assert(pattern as i32 == signed_32(pattern as nat)) by (bit_vector);
    #[verifier::truncate]
    (pattern as i32)
}

/// Reads eight bytes, least significant first, as a signed number in two's complement.
pub fn i64_from_le(bytes: [u8; 8]) -> (value: i64)
    ensures
        value == signed_64(le_value_64(bytes@)),
{
    let pattern: u64 = u64_from_le(bytes);
    assert(pattern as i64 == signed_64(pattern as nat)) by (bit_vector);
    #[verifier::truncate]
    (pattern as i64)
}

} // verus!
