//! Numbers from their bytes, most significant byte first.
use crate::fixed::twos_complement;
use vstd::arithmetic::power2::{
    lemma2_to64, lemma_pow2_adds, lemma_pow2_strictly_increases, pow2,
};
use vstd::prelude::*;

verus! {

/// The number that the first `n` of `bytes` spell, most significant byte first.
pub open spec fn be_value(bytes: Seq<u8>, n: nat) -> nat
    decreases n,
{
    if n == 0 {
        0
    } else {
        be_value(bytes, (n - 1) as nat) * 0x100 + bytes[n - 1] as nat
    }
}

/// A number that can be made from `N` bytes.
pub trait NumFromBytes<const N: usize>: Sized {
    /// The number of this type that `bytes` spell, most significant byte first.
    spec fn spec_from_be_bytes(bytes: [u8; N]) -> Self;

    /// Makes the number that `bytes` spell, most significant byte first.
    fn from_be_bytes(bytes: [u8; N]) -> (number: Self)
        ensures
            number == Self::spec_from_be_bytes(bytes),
    ;
}

/// `n` bytes spell a number below `2^(8 * n)`.
pub proof fn lemma_be_value_bound(bytes: Seq<u8>, n: nat)
    ensures
        be_value(bytes, n) < pow2(8 * n),
    decreases n,
{
    lemma2_to64();
    if n > 0 {
        lemma_be_value_bound(bytes, (n - 1) as nat);
        lemma_pow2_adds((8 * (n - 1)) as nat, 8);
    }
}

/// Adds up `bytes`, most significant first.
fn be_fold(bytes: &[u8]) -> (value: u128)
    requires
        bytes@.len() <= 16,
    ensures
        value == be_value(bytes@, bytes@.len()),
{
    let mut value: u128 = 0;
    let mut i: usize = 0;
    while i < bytes.len()
        invariant
            i <= bytes@.len() <= 16,
            value == be_value(bytes@, i as nat),
        decreases bytes@.len() - i,
    {
        proof {
            lemma_be_value_bound(bytes@, (i + 1) as nat);
            lemma2_to64();
            lemma_pow2_adds(64, 64);
            if i < 15 {
                lemma_pow2_strictly_increases((8 * (i + 1)) as nat, 128);
            }
        }
        value = value * 0x100 + bytes[i] as u128;
        i += 1;
    }
    value
}

impl NumFromBytes<1> for i8 {
    open spec fn spec_from_be_bytes(bytes: [u8; 1]) -> i8 {
        twos_complement(be_value(bytes@, 1), 0x100) as i8
    }

    fn from_be_bytes(bytes: [u8; 1]) -> (number: i8) {
        proof {
            lemma_be_value_bound(bytes@, 1);
            lemma2_to64();
        }
        let pattern: u128 = be_fold(bytes.as_slice());
        assert(pattern as i8 == twos_complement(pattern as nat, 0x100)) by (bit_vector)
            requires
                pattern < 0x100,
        ;
        #[verifier::truncate]
        (pattern as i8)
    }
}

impl NumFromBytes<2> for i16 {
    open spec fn spec_from_be_bytes(bytes: [u8; 2]) -> i16 {
        twos_complement(be_value(bytes@, 2), 0x1_0000) as i16
    }

    fn from_be_bytes(bytes: [u8; 2]) -> (number: i16) {
        proof {
            lemma_be_value_bound(bytes@, 2);
            lemma2_to64();
        }
        let pattern: u128 = be_fold(bytes.as_slice());
        assert(pattern as i16 == twos_complement(pattern as nat, 0x1_0000)) by (bit_vector)
            requires
                pattern < 0x1_0000,
        ;
        #[verifier::truncate]
        (pattern as i16)
    }
}

impl NumFromBytes<4> for i32 {
    open spec fn spec_from_be_bytes(bytes: [u8; 4]) -> i32 {
        twos_complement(be_value(bytes@, 4), 0x1_0000_0000) as i32
    }

    fn from_be_bytes(bytes: [u8; 4]) -> (number: i32) {
        proof {
            lemma_be_value_bound(bytes@, 4);
            lemma2_to64();
        }
        let pattern: u128 = be_fold(bytes.as_slice());
        assert(pattern as i32 == twos_complement(pattern as nat, 0x1_0000_0000)) by (bit_vector)
            requires
                pattern < 0x1_0000_0000,
        ;
        #[verifier::truncate]
        (pattern as i32)
    }
}

impl NumFromBytes<8> for i64 {
    open spec fn spec_from_be_bytes(bytes: [u8; 8]) -> i64 {
        twos_complement(be_value(bytes@, 8), 0x1_0000_0000_0000_0000) as i64
    }

    fn from_be_bytes(bytes: [u8; 8]) -> (number: i64) {
        proof {
            lemma_be_value_bound(bytes@, 8);
            lemma2_to64();
        }
        let pattern: u128 = be_fold(bytes.as_slice());
        assert(pattern as i64 == twos_complement(pattern as nat, 0x1_0000_0000_0000_0000))
            by (bit_vector)
            requires
                pattern < 0x1_0000_0000_0000_0000,
        ;
        #[verifier::truncate]
        (pattern as i64)
    }
}

impl NumFromBytes<16> for i128 {
    open spec fn spec_from_be_bytes(bytes: [u8; 16]) -> i128 {
        twos_complement(
            be_value(bytes@, 16),
            0x1_0000_0000_0000_0000_0000_0000_0000_0000nat,
        ) as i128
    }

    fn from_be_bytes(bytes: [u8; 16]) -> (number: i128) {
        let pattern: u128 = be_fold(bytes.as_slice());
        assert(pattern as i128 == twos_complement(
            pattern as nat,
            0x1_0000_0000_0000_0000_0000_0000_0000_0000nat,
        )) by (bit_vector);
        #[verifier::truncate]
        (pattern as i128)
    }
}

impl NumFromBytes<1> for u8 {
    open spec fn spec_from_be_bytes(bytes: [u8; 1]) -> u8 {
        be_value(bytes@, 1) as u8
    }

    fn from_be_bytes(bytes: [u8; 1]) -> (number: u8) {
        proof {
            lemma_be_value_bound(bytes@, 1);
            lemma2_to64();
        }
        be_fold(bytes.as_slice()) as u8
    }
}

impl NumFromBytes<2> for u16 {
    open spec fn spec_from_be_bytes(bytes: [u8; 2]) -> u16 {
        be_value(bytes@, 2) as u16
    }

    fn from_be_bytes(bytes: [u8; 2]) -> (number: u16) {
        proof {
            lemma_be_value_bound(bytes@, 2);
            lemma2_to64();
        }
        be_fold(bytes.as_slice()) as u16
    }
}

impl NumFromBytes<4> for u32 {
    open spec fn spec_from_be_bytes(bytes: [u8; 4]) -> u32 {
        be_value(bytes@, 4) as u32
    }

    fn from_be_bytes(bytes: [u8; 4]) -> (number: u32) {
        proof {
            lemma_be_value_bound(bytes@, 4);
            lemma2_to64();
        }
        be_fold(bytes.as_slice()) as u32
    }
}

impl NumFromBytes<8> for u64 {
    open spec fn spec_from_be_bytes(bytes: [u8; 8]) -> u64 {
        be_value(bytes@, 8) as u64
    }

    fn from_be_bytes(bytes: [u8; 8]) -> (number: u64) {
        proof {
            lemma_be_value_bound(bytes@, 8);
            lemma2_to64();
        }
        be_fold(bytes.as_slice()) as u64
    }
}

impl NumFromBytes<16> for u128 {
    open spec fn spec_from_be_bytes(bytes: [u8; 16]) -> u128 {
        be_value(bytes@, 16) as u128
    }

    fn from_be_bytes(bytes: [u8; 16]) -> (number: u128) {
        be_fold(bytes.as_slice())
    }
}

} // verus!
