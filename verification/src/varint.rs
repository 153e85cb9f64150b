//! The base-128 varint: what its bytes mean, and where it ends.
//!
//! A varint is a run of groups, one per byte, least significant first. Bit 7 of a
//! byte says that another group follows, bits 0 to 6 are the group. No varint is
//! longer than ten bytes: the tenth byte ends it whatever its bit 7 says.
use vstd::arithmetic::power2::{lemma2_to64, lemma2_to64_rest, lemma_pow2_adds, pow2};
use vstd::prelude::*;

verus! {

/// The most bytes that one varint occupies.
pub const MAX_VARINT_BYTES: usize = 10;

/// Whether `byte` announces another group: its bit 7.
pub open spec fn continues(byte: u8) -> bool {
    byte >= 0x80
}

/// The group that `byte` carries: its bits 0 to 6.
pub open spec fn payload(byte: u8) -> nat {
    (byte % 0x80) as nat
}

/// The varint at the front of `bytes` is `n` bytes long: each byte before the last
/// announces another group, and the last one either announces none or is the tenth.
pub open spec fn varint_ends_at(bytes: Seq<u8>, n: nat) -> bool {
    &&& 1 <= n <= MAX_VARINT_BYTES
    &&& n <= bytes.len()
    &&& forall|i: int| 0 <= i < n - 1 ==> continues(#[trigger] bytes[i])
    &&& (n == MAX_VARINT_BYTES || !continues(bytes[n - 1]))
}

/// `bytes` stop inside a varint: fewer than ten bytes, each of which announces another.
/// The empty sequence is of this kind.
pub open spec fn varint_truncated(bytes: Seq<u8>) -> bool {
    &&& bytes.len() < MAX_VARINT_BYTES
    &&& forall|i: int| 0 <= i < bytes.len() ==> continues(#[trigger] bytes[i])
}

/// The length of the varint at the front of `bytes`, if a whole one is there.
pub open spec fn varint_len(bytes: Seq<u8>) -> Option<nat> {
    if exists|n: nat| varint_ends_at(bytes, n) {
        Some(choose|n: nat| varint_ends_at(bytes, n))
    } else {
        None
    }
}

/// Group `i` of `bytes` where it is one of the first `n`, and nothing where it is not.
pub open spec fn group_at(bytes: Seq<u8>, n: nat, i: int) -> nat {
    if i < n {
        payload(bytes[i])
    } else {
        0
    }
}

/// The number that the first `n` groups of `bytes` spell, for `n` up to ten: group `i`
/// is shifted left by `7 * i` bits, that is multiplied by `2^(7 * i)`, and the shifted
/// groups are added up.
pub open spec fn groups_value(bytes: Seq<u8>, n: nat) -> nat {
    group_at(bytes, n, 0)
        + group_at(bytes, n, 1) * 0x80
        + group_at(bytes, n, 2) * 0x4000
        + group_at(bytes, n, 3) * 0x20_0000
        + group_at(bytes, n, 4) * 0x1000_0000
        + group_at(bytes, n, 5) * 0x8_0000_0000
        + group_at(bytes, n, 6) * 0x400_0000_0000
        + group_at(bytes, n, 7) * 0x2_0000_0000_0000
        + group_at(bytes, n, 8) * 0x100_0000_0000_0000
        + group_at(bytes, n, 9) * 0x8000_0000_0000_0000
}

/// A varint has one length: if it ends at `n`, then `n` is its length.
pub proof fn lemma_varint_len_unique(bytes: Seq<u8>, n: nat)
    requires
        varint_ends_at(bytes, n),
    ensures
        varint_len(bytes) == Some(n),
{
    let m = choose|m: nat| varint_ends_at(bytes, m);
    if m < n {
        assert(continues(bytes[m - 1]));
    } else if n < m {
        assert(continues(bytes[n - 1]));
    }
}

/// Bytes hold no whole varint exactly when they stop inside one.
pub proof fn lemma_no_varint_iff_truncated(bytes: Seq<u8>)
    ensures
        varint_len(bytes) is None <==> varint_truncated(bytes),
{
    if varint_truncated(bytes) {
        if varint_len(bytes) is Some {
            let n = varint_len(bytes)->0;
            assert(continues(bytes[n - 1]));
        }
    } else {
        lemma_find_end(bytes, 0);
    }
}

/// Looking on from byte `k`, with every byte before it announcing another group,
/// the bytes either run out or the varint's end is found.
proof fn lemma_find_end(bytes: Seq<u8>, k: nat)
    requires
        k < MAX_VARINT_BYTES,
        k <= bytes.len(),
        forall|i: int| 0 <= i < k ==> continues(#[trigger] bytes[i]),
    ensures
        varint_truncated(bytes) || exists|n: nat| varint_ends_at(bytes, n),
    decreases MAX_VARINT_BYTES - k,
{
    if k == bytes.len() {
        assert(varint_truncated(bytes));
    } else if k + 1 == MAX_VARINT_BYTES || !continues(bytes[k as int]) {
        assert(varint_ends_at(bytes, k + 1));
    } else {
        lemma_find_end(bytes, k + 1);
    }
}

/// A product with a factor that is known is the product with what it is known to be.
proof fn lemma_known_factor(x: nat, factor: nat, known: nat)
    by (nonlinear_arith)
    ensures
        factor == known ==> x * factor == x * known,
{
}

/// One more group adds its seven bits, shifted left by seven bits for each group
/// before it.
pub proof fn lemma_groups_value_step(bytes: Seq<u8>, n: nat)
    requires
        n < MAX_VARINT_BYTES,
    ensures
        groups_value(bytes, n + 1) == groups_value(bytes, n) + payload(bytes[n as int]) * pow2(
            7 * n,
        ),
{
    let group = payload(bytes[n as int]);
    let weight = pow2(7 * n);
    lemma2_to64();
    lemma2_to64_rest();
    lemma_known_factor(group, weight, 0x1);
    lemma_known_factor(group, weight, 0x80);
    lemma_known_factor(group, weight, 0x4000);
    lemma_known_factor(group, weight, 0x20_0000);
    lemma_known_factor(group, weight, 0x1000_0000);
    lemma_known_factor(group, weight, 0x8_0000_0000);
    lemma_known_factor(group, weight, 0x400_0000_0000);
    lemma_known_factor(group, weight, 0x2_0000_0000_0000);
    lemma_known_factor(group, weight, 0x100_0000_0000_0000);
    lemma_known_factor(group, weight, 0x8000_0000_0000_0000);
}

/// `n` groups spell a number below `2^(7 * n)`.
pub proof fn lemma_groups_value_bound(bytes: Seq<u8>, n: nat)
    requires
        n <= MAX_VARINT_BYTES,
    ensures
        groups_value(bytes, n) < pow2(7 * n),
{
    lemma2_to64();
    lemma2_to64_rest();
    lemma_pow2_adds(64, 6);
}

/// The value of a varint depends on the bytes of the varint alone, not on what follows.
pub proof fn lemma_groups_value_prefix(a: Seq<u8>, b: Seq<u8>, n: nat)
    requires
        n <= a.len(),
        n <= b.len(),
        a.take(n as int) == b.take(n as int),
    ensures
        groups_value(a, n) == groups_value(b, n),
{
    assert forall|i: int| 0 <= i < n implies a[i] == b[i] by {
        assert(a.take(n as int)[i] == a[i]);
        assert(b.take(n as int)[i] == b[i]);
    }
}

} // verus!
