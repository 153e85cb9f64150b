//! Zig-zag coding of signed integers: small magnitudes, of either sign, get small codes.
use crate::fixed::{signed_32, signed_64};
use vstd::prelude::*;

verus! {

/// The zig-zag code of `x`: `0, -1, 1, -2, 2, ...` are coded as `0, 1, 2, 3, 4, ...`.
pub open spec fn zigzag_encode(x: int) -> nat {
    if x >= 0 {
        (2 * x) as nat
    } else {
        (-2 * x - 1) as nat
    }
}

/// The 64-bit number whose zig-zag code is `raw`. Of a `raw` that is wider than 64 bits
/// the bits above bit 64 are left out.
pub open spec fn zigzag_decode_64(raw: nat) -> int {
    let half = signed_64((raw / 2) % 0x1_0000_0000_0000_0000);
    if raw % 2 == 0 {
        half
    } else {
        -half - 1
    }
}

/// The 32-bit number whose zig-zag code is `raw`. Of a `raw` that is wider than 32 bits
/// the bits above bit 32 are left out.
pub open spec fn zigzag_decode_32(raw: nat) -> int {
    let half = signed_32((raw / 2) % 0x1_0000_0000);
    if raw % 2 == 0 {
        half
    } else {
        -half - 1
    }
}

/// Of a code that fits 64 bits, an even one stands for its half and an odd one for
/// the negative of the half of its successor.
pub proof fn lemma_zigzag_decode_64_halves(raw: nat)
    requires
        raw < 0x1_0000_0000_0000_0000,
    ensures
        zigzag_decode_64(raw) == if raw % 2 == 0 {
            (raw / 2) as int
        } else {
            -((raw + 1) / 2)
        },
{
}

/// Of a code that fits 32 bits, an even one stands for its half and an odd one for
/// the negative of the half of its successor.
pub proof fn lemma_zigzag_decode_32_halves(raw: nat)
    requires
        raw < 0x1_0000_0000,
    ensures
        zigzag_decode_32(raw) == if raw % 2 == 0 {
            (raw / 2) as int
        } else {
            -((raw + 1) / 2)
        },
{
}

/// Decoding undoes encoding: every 64-bit number is found again from its zig-zag code,
/// and the code fits 64 bits.
pub proof fn lemma_zigzag_round_trip_64(x: i64)
    ensures
        zigzag_encode(x as int) < 0x1_0000_0000_0000_0000,
        zigzag_decode_64(zigzag_encode(x as int)) == x,
{
}

/// Decoding undoes encoding: every 32-bit number is found again from its zig-zag code,
/// and the code fits 32 bits.
pub proof fn lemma_zigzag_round_trip_32(x: i32)
    ensures
        zigzag_encode(x as int) < 0x1_0000_0000,
        zigzag_decode_32(zigzag_encode(x as int)) == x,
{
}

/// Undoes the zig-zag coding in 64 bits.
pub fn zigzag_decode_i64(raw: u128) -> (value: i64)
    ensures
        value == zigzag_decode_64(raw as nat),
{
    let half: i64 = #[verifier::truncate]
    ((raw >> 1) as i64);
    let odd: i64 = (raw & 1) as i64;
    assert(raw & 1 == raw % 2) by (bit_vector);
    assert(raw >> 1 == raw / 2) by (bit_vector);
    assert(half == signed_64(((raw / 2) % 0x1_0000_0000_0000_0000) as nat)) by (bit_vector)
        requires
            half == ((raw >> 1) as i64),
    ;
    assert(half ^ 0i64 == half) by (bit_vector);
    assert(half ^ (-1i64) == -half - 1) by (bit_vector);
    half ^ -odd
}

/// Undoes the zig-zag coding in 32 bits.
pub fn zigzag_decode_i32(raw: u128) -> (value: i32)
    ensures
        value == zigzag_decode_32(raw as nat),
{
    let half: i32 = #[verifier::truncate]
    ((raw >> 1) as i32);
    let odd: i32 = (raw & 1) as i32;
    assert(raw & 1 == raw % 2) by (bit_vector);
    assert(raw >> 1 == raw / 2) by (bit_vector);
    assert(half == signed_32(((raw / 2) % 0x1_0000_0000) as nat)) by (bit_vector)
        requires
            half == ((raw >> 1) as i32),
    ;
    assert(half ^ 0i32 == half) by (bit_vector);
    assert(half ^ (-1i32) == -half - 1) by (bit_vector);
    half ^ -odd
}

} // verus!
