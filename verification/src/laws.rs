//! What holds of the decoders together, stated over their spec functions.
use crate::errors::ProtobufZeroError;
use crate::varint::{
    groups_value, lemma_groups_value_bound, lemma_groups_value_prefix,
    lemma_no_varint_iff_truncated, lemma_varint_len_unique, varint_ends_at, varint_len,
    varint_truncated,
};
use crate::wire_type::WireType;
use crate::{
    narrowed, spec_decode_fixed, spec_decode_fixed_i32, spec_decode_fixed_i64,
    spec_decode_fixed_u32, spec_decode_fixed_u64, spec_decode_tag, spec_decode_var_int,
    spec_decode_var_int_u128, spec_decode_var_length, spec_decode_var_signed_i32,
    spec_decode_var_signed_i64, tag_of,
};
use vstd::arithmetic::power2::{lemma2_to64, lemma2_to64_rest, lemma_pow2_adds, pow2};
use vstd::prelude::*;

verus! {

/// `rest` is what is left of `bytes` once some of its first bytes have been read.
pub open spec fn is_rest_of(rest: Seq<u8>, bytes: Seq<u8>) -> bool {
    rest.len() <= bytes.len() && rest == bytes.skip(bytes.len() - rest.len())
}

/// A run of one to ten bytes in which every byte but the last announces another group,
/// and the last announces none or is the tenth, is decoded as one varint, whatever
/// follows it: the value that its groups spell is returned, the run's length is the
/// number of bytes read, and the cursor is left on the bytes behind the run.
pub proof fn lemma_whole_varint_is_decoded<T: TryFrom<u128>>(bytes: Seq<u8>, n: nat)
    requires
        varint_ends_at(bytes, n),
    ensures
        groups_value(bytes, n) < pow2(7 * n) <= u128::MAX,
        spec_decode_var_int_u128(bytes) == Ok::<(u128, usize), ProtobufZeroError>(
            (groups_value(bytes, n) as u128, n as usize),
        ),
        spec_decode_var_int_u128(bytes.take(n as int)) == spec_decode_var_int_u128(bytes),
        spec_decode_var_int::<T>(bytes) == (
            narrowed::<T>(groups_value(bytes, n) as u128),
            bytes.skip(n as int),
        ),
{
    let run = bytes.take(n as int);
    assert(varint_ends_at(run, n));
    lemma_varint_len_unique(bytes, n);
    lemma_varint_len_unique(run, n);
    assert(run.take(n as int) == run);
    lemma_groups_value_prefix(bytes, run, n);
    lemma_groups_value_bound(bytes, n);
    lemma2_to64();
    lemma2_to64_rest();
    lemma_pow2_adds(64, 6);
}

/// Fewer than ten bytes, each of which announces another group, or no bytes at all:
/// every decoder that starts with a varint fails with `ShortBuffer` and leaves the
/// cursor where it was.
pub proof fn lemma_truncated_varint_is_refused<T: TryFrom<u128>>(bytes: Seq<u8>)
    requires
        varint_truncated(bytes),
    ensures
        spec_decode_var_int_u128(bytes) == Err::<(u128, usize), ProtobufZeroError>(
            ProtobufZeroError::ShortBuffer,
        ),
        spec_decode_var_int::<T>(bytes) == (
            Err::<T, ProtobufZeroError>(ProtobufZeroError::ShortBuffer),
            bytes,
        ),
        spec_decode_tag(bytes) == (
            Err::<(WireType, u32), ProtobufZeroError>(ProtobufZeroError::ShortBuffer),
            bytes,
        ),
        spec_decode_var_length(bytes) == (
            Err::<Seq<u8>, ProtobufZeroError>(ProtobufZeroError::ShortBuffer),
            bytes,
        ),
        spec_decode_var_signed_i64(bytes) == (
            Err::<i64, ProtobufZeroError>(ProtobufZeroError::ShortBuffer),
            bytes,
        ),
        spec_decode_var_signed_i32(bytes) == (
            Err::<i32, ProtobufZeroError>(ProtobufZeroError::ShortBuffer),
            bytes,
        ),
{
    lemma_no_varint_iff_truncated(bytes);
}

/// A varint is refused exactly where the bytes stop inside it: fewer than ten bytes, each
/// of which announces another group.
pub proof fn lemma_varint_is_refused_iff_truncated(bytes: Seq<u8>)
    ensures
        spec_decode_var_int_u128(bytes) is Err <==> varint_truncated(bytes),
{
    lemma_no_varint_iff_truncated(bytes);
}

/// At `u128` nothing is narrowed: whatever the conversion of a `u128` to `u128` returns,
/// it is the value itself. So `decode_var_int` at `u128` returns the value of every
/// whole varint.
pub proof fn lemma_u128_is_not_narrowed(
    value: u128,
    converted: Result<u128, <u128 as TryFrom<u128>>::Error>,
)
    requires
        call_ensures(<u128 as TryFrom<u128>>::try_from, (value,), converted),
    ensures
        converted == Ok::<u128, <u128 as TryFrom<u128>>::Error>(value),
{
}

/// A tag is found again from the number that spells it: eight times the field number,
/// plus the code of the wire type.
pub proof fn lemma_tag_round_trip(wire_type: WireType, field: u32)
    ensures
        tag_of((8 * field + wire_type.spec_code()) as u128) == Ok::<
            (WireType, u32),
            ProtobufZeroError,
        >((wire_type, field)),
{
}

/// No decoder moves the cursor backwards or past the end: what it leaves under the
/// cursor is what was there, less some of the first bytes.
pub proof fn lemma_cursor_moves_forward<T: TryFrom<u128>>(bytes: Seq<u8>)
    ensures
        is_rest_of(spec_decode_tag(bytes).1, bytes),
        is_rest_of(spec_decode_var_int::<T>(bytes).1, bytes),
        is_rest_of(spec_decode_var_length(bytes).1, bytes),
        is_rest_of(spec_decode_var_signed_i64(bytes).1, bytes),
        is_rest_of(spec_decode_var_signed_i32(bytes).1, bytes),
        forall|width: nat| is_rest_of(#[trigger] spec_decode_fixed(bytes, width).1, bytes),
        is_rest_of(spec_decode_fixed_i64(bytes).1, bytes),
        is_rest_of(spec_decode_fixed_u64(bytes).1, bytes),
        is_rest_of(spec_decode_fixed_i32(bytes).1, bytes),
        is_rest_of(spec_decode_fixed_u32(bytes).1, bytes),
{
    assert(bytes.skip(0) == bytes);
    if let Some(len) = varint_len(bytes) {
        let rest = bytes.skip(len as int);
        assert(is_rest_of(rest, bytes));
        if let Ok((length, _)) = spec_decode_var_int_u128(bytes) {
            if length <= rest.len() {
                assert(rest.skip(length as int) == bytes.skip(len + length));
            }
        }
    }
}

/// A decoder that fails leaves the cursor where it was, so that it fails in the same way
/// when it is asked again. The one exception is a failure of `decode_var_int` or
/// `decode_var_length` behind a varint that was read: a value that does not fit the type
/// asked for, a length that does not fit or is not followed by that many bytes. There
/// the cursor is left behind the varint. A tag that is refused, for its wire type or for
/// its field number, is no exception.
pub proof fn lemma_failure_repeats<T: TryFrom<u128>>(bytes: Seq<u8>, width: nat)
    ensures
        spec_decode_tag(bytes).0 is Err ==> spec_decode_tag(spec_decode_tag(bytes).1)
            == spec_decode_tag(bytes),
        spec_decode_var_signed_i64(bytes).0 is Err ==> spec_decode_var_signed_i64(
            spec_decode_var_signed_i64(bytes).1,
        ) == spec_decode_var_signed_i64(bytes),
        spec_decode_var_signed_i32(bytes).0 is Err ==> spec_decode_var_signed_i32(
            spec_decode_var_signed_i32(bytes).1,
        ) == spec_decode_var_signed_i32(bytes),
        spec_decode_fixed(bytes, width).0 is Err ==> spec_decode_fixed(
            spec_decode_fixed(bytes, width).1,
            width,
        ) == spec_decode_fixed(bytes, width),
        spec_decode_fixed_i64(bytes).0 is Err ==> spec_decode_fixed_i64(
            spec_decode_fixed_i64(bytes).1,
        ) == spec_decode_fixed_i64(bytes),
        spec_decode_fixed_u64(bytes).0 is Err ==> spec_decode_fixed_u64(
            spec_decode_fixed_u64(bytes).1,
        ) == spec_decode_fixed_u64(bytes),
        spec_decode_fixed_i32(bytes).0 is Err ==> spec_decode_fixed_i32(
            spec_decode_fixed_i32(bytes).1,
        ) == spec_decode_fixed_i32(bytes),
        spec_decode_fixed_u32(bytes).0 is Err ==> spec_decode_fixed_u32(
            spec_decode_fixed_u32(bytes).1,
        ) == spec_decode_fixed_u32(bytes),
        spec_decode_var_int::<T>(bytes).0 is Err && spec_decode_var_int::<T>(bytes).1 == bytes
            ==> spec_decode_var_int::<T>(spec_decode_var_int::<T>(bytes).1)
            == spec_decode_var_int::<T>(bytes),
        spec_decode_var_length(bytes).0 is Err && spec_decode_var_length(bytes).1 == bytes
            ==> spec_decode_var_length(spec_decode_var_length(bytes).1)
            == spec_decode_var_length(bytes),
        spec_decode_var_int_u128(bytes) is Err ==> spec_decode_var_int::<T>(bytes).1 == bytes
            && spec_decode_var_length(bytes).1 == bytes,
{
}

} // verus!
