//! Decoding of the primitive values of the Protocol Buffers wire format.
//!
//! A cursor is a `&[u8]` behind a `&mut`: a decoder reads from its front and, where it
//! succeeds, leaves it at the first byte that it did not read. Beside each decoder stands
//! a spec function of the same name with `spec_` before it. It says, for the bytes under
//! the cursor, what the decoder returns and which bytes it leaves under the cursor. What
//! holds of the decoders together is proved in [`laws`].
pub mod errors;
pub mod fixed;
pub mod laws;
pub mod num_from_bytes;
pub mod varint;
pub mod wire_type;
pub mod zigzag;

use crate::errors::ProtobufZeroError;
use crate::fixed::{
    i32_from_le, i64_from_le, le_value_32, le_value_64, signed_32, signed_64, u32_from_le,
    u64_from_le,
};
use crate::varint::{
    continues, groups_value, lemma_groups_value_step, lemma_no_varint_iff_truncated,
    lemma_varint_len_unique, varint_ends_at, varint_len, MAX_VARINT_BYTES,
};
use crate::wire_type::{wire_type_of, WireType};
use crate::zigzag::{zigzag_decode_32, zigzag_decode_64, zigzag_decode_i32, zigzag_decode_i64};
use vstd::arithmetic::power2::{lemma2_to64, lemma2_to64_rest, pow2};
use vstd::prelude::*;
use vstd::std_specs::convert::TryFromSpec;

verus! {

/// Shifting a group left by seven bits for each group before it multiplies it by the
/// matching power of two.
proof fn lemma_shifted_group(group: u128, index: usize)
    requires
        group < 0x80,
        index < MAX_VARINT_BYTES,
    ensures
        group << ((7 * index) as usize) == group * pow2((7 * index) as nat),
{
    lemma2_to64();
    lemma2_to64_rest();
    assert({
        &&& group << 0usize == group * 0x1
        &&& group << 7usize == group * 0x80
        &&& group << 14usize == group * 0x4000
        &&& group << 21usize == group * 0x20_0000
        &&& group << 28usize == group * 0x1000_0000
        &&& group << 35usize == group * 0x8_0000_0000
        &&& group << 42usize == group * 0x400_0000_0000
        &&& group << 49usize == group * 0x2_0000_0000_0000
        &&& group << 56usize == group * 0x100_0000_0000_0000
        &&& group << 63usize == group * 0x8000_0000_0000_0000
    }) by (bit_vector)
        requires
            group < 0x80,
    ;
}

/// What `decode_var_int_u128` returns for `bytes`: the value of the varint at their front
/// and the number of bytes that it occupies, or `ShortBuffer` where they hold no whole
/// varint.
pub open spec fn spec_decode_var_int_u128(bytes: Seq<u8>) -> Result<
    (u128, usize),
    ProtobufZeroError,
> {
    match varint_len(bytes) {
        Some(len) => Ok((groups_value(bytes, len) as u128, len as usize)),
        None => Err(ProtobufZeroError::ShortBuffer),
    }
}

/// Reads one varint from the front of `buffer`, which it leaves as it is.
///
/// Returns the value and the number of bytes that the varint occupies, or
/// `ShortBuffer` where the bytes run out before the varint ends.
pub fn decode_var_int_u128(buffer: &[u8]) -> (result: Result<(u128, usize), ProtobufZeroError>)
    ensures
        result == spec_decode_var_int_u128(buffer@),
{
    let mut result: u128 = 0;
    let mut offset: usize = 0;

    loop
        invariant_except_break
            offset < MAX_VARINT_BYTES,
            forall|i: int| 0 <= i < offset ==> continues(#[trigger] buffer@[i]),
        invariant
            offset <= buffer@.len(),
            result == groups_value(buffer@, offset as nat),
        ensures
            varint_ends_at(buffer@, offset as nat),
        decreases MAX_VARINT_BYTES - offset,
    {
        let next: u8 = match buffer.get(offset) {
            None => {
                proof {
                    lemma_no_varint_iff_truncated(buffer@);
                }
                return Err(ProtobufZeroError::ShortBuffer);
            },
            Some(byte) => *byte,
        };
        proof {
            lemma_shifted_group((next % 128u8) as u128, offset);
            lemma_groups_value_step(buffer@, offset as nat);
        }
        result += ((next % 128u8) as u128) << (7 * offset);
        offset += 1;
        assert((next >> 7 == 0) <==> next < 0x80) by (bit_vector);
        if (offset >= MAX_VARINT_BYTES) || (next >> 7 == 0) {
            break ;
        }
    }

    proof {
        lemma_varint_len_unique(buffer@, offset as nat);
    }
    Ok((result, offset))
}

/// The tag that a varint of value `raw` spells: the wire type from its three low bits,
/// the field number from all the bits above them. A field number that does not fit 32
/// bits is no field number.
pub open spec fn tag_of(raw: u128) -> Result<(WireType, u32), ProtobufZeroError> {
    match wire_type_of((raw % 8) as u8) {
        Ok(wire_type) => if raw / 8 <= u32::MAX {
            Ok((wire_type, (raw / 8) as u32))
        } else {
            Err(ProtobufZeroError::ConversionU128Error)
        },
        Err(_) => Err(ProtobufZeroError::InvalidWireType),
    }
}

/// What `decode_tag` makes of a cursor over `bytes`: what it returns, and the bytes that
/// it leaves under the cursor. A tag is one varint; the cursor moves past it only where
/// both its wire type and its field number are good.
pub open spec fn spec_decode_tag(bytes: Seq<u8>) -> (
    Result<(WireType, u32), ProtobufZeroError>,
    Seq<u8>,
) {
    match spec_decode_var_int_u128(bytes) {
        Ok((raw, len)) => match tag_of(raw) {
            Ok(tag) => (Ok(tag), bytes.skip(len as int)),
            Err(error) => (Err(error), bytes),
        },
        Err(error) => (Err(error), bytes),
    }
}

/// Reads a tag, the wire type and the field number of the field that follows, and moves
/// the cursor past it.
///
/// Fails with `ShortBuffer` where the bytes hold no whole varint, with `InvalidWireType`
/// where the three low bits name no supported wire type, and with `ConversionU128Error`
/// where the bits above them are a number that does not fit `u32`. A failure leaves the
/// cursor where it was.
#[inline]
pub fn decode_tag(buffer: &mut &[u8]) -> (result: Result<(WireType, u32), ProtobufZeroError>)
    ensures
        (result, final(buffer)@) == spec_decode_tag(old(buffer)@),
{
    let (full_var_int, offset) = decode_var_int_u128(*buffer)?;
    let code: u8 = (full_var_int & 7) as u8;
    assert(full_var_int & 7 == full_var_int % 8) by (bit_vector);
    let wire_type = match WireType::try_from(code) {
        Ok(wire_type) => wire_type,
        Err(error) => {
            return Err(ProtobufZeroError::from(error));
        },
    };
    let number: u128 = full_var_int >> 3;
    assert(full_var_int >> 3 == full_var_int / 8) by (bit_vector);
    if number > 0xffff_ffff {
        return Err(ProtobufZeroError::ConversionU128Error);
    }
    let len: usize = buffer.len();
    *buffer = &buffer[offset..len];
    Ok((wire_type, number as u32))
}

/// `From::from` of a type to itself, which std implements for every type: it returns its
/// argument unchanged. A conversion of a `u128` to `u128` ends in it, so that
/// `decode_var_int` at `u128` returns the value of the varint.
pub assume_specification<X>[ <X as core::convert::From<X>>::from ](a: X) -> (ret: X)
    ensures
        ret == a,
;

/// The varint value `value` in the integer type `T`, where it fits.
pub open spec fn narrowed<T: TryFrom<u128>>(value: u128) -> Result<T, ProtobufZeroError> {
    match T::try_from_spec(value) {
        Ok(narrow) => Ok(narrow),
        Err(_) => Err(ProtobufZeroError::ConversionU128Error),
    }
}

/// What `decode_var_int` makes of a cursor over `bytes`, for a `T` whose conversion from
/// `u128` is specified: what it returns, and the bytes that it leaves under the cursor.
/// The cursor moves past a whole varint even where its value does not fit `T`.
pub open spec fn spec_decode_var_int<T: TryFrom<u128>>(bytes: Seq<u8>) -> (
    Result<T, ProtobufZeroError>,
    Seq<u8>,
) {
    match spec_decode_var_int_u128(bytes) {
        Ok((value, len)) => (narrowed::<T>(value), bytes.skip(len as int)),
        Err(error) => (Err(error), bytes),
    }
}

/// Reads one varint as a `T` and moves the cursor past it.
///
/// Fails with `ShortBuffer`, the cursor left where it was, where the bytes hold no whole
/// varint, and with `ConversionU128Error`, the cursor moved past the varint, where the
/// conversion to `T` refuses the value. What is returned for a whole varint is what
/// `T::try_from` makes of its value: for a `T` whose conversion is specified that is
/// `narrowed`, and for `u128` it is the value itself.
#[inline]
pub fn decode_var_int<T: TryFrom<u128>>(buffer: &mut &[u8]) -> (result: Result<
    T,
    ProtobufZeroError,
>)
    ensures
        final(buffer)@ == spec_decode_var_int::<T>(old(buffer)@).1,
        T::obeys_try_from_spec() ==> result == spec_decode_var_int::<T>(old(buffer)@).0,
        match spec_decode_var_int_u128(old(buffer)@) {
            Ok((value, _)) => match result {
                Ok(narrow) => call_ensures(
                    T::try_from,
                    (value,),
                    Ok::<T, <T as TryFrom<u128>>::Error>(narrow),
                ),
                Err(error) => error == ProtobufZeroError::ConversionU128Error && exists|
                    refusal: <T as TryFrom<u128>>::Error,
                |
                    call_ensures(
                        T::try_from,
                        (value,),
                        Err::<T, <T as TryFrom<u128>>::Error>(refusal),
                    ),
            },
            Err(_) => result == Err::<T, ProtobufZeroError>(ProtobufZeroError::ShortBuffer),
        },
{
    let (value, offset) = decode_var_int_u128(*buffer)?;
    let len: usize = buffer.len();
    *buffer = &buffer[offset..len];
    let result = match T::try_from(value) {
        Ok(narrow) => Ok(narrow),
        Err(_) => Err(ProtobufZeroError::ConversionU128Error),
    };
    result
}

/// What `decode_var_length` makes of a cursor over `bytes`: the bytes that it returns, or
/// why it returns none, and the bytes that it leaves under the cursor. Once the length
/// has been read the cursor stays behind it, also where the length fits no `usize` or is
/// not followed by that many bytes.
pub open spec fn spec_decode_var_length(bytes: Seq<u8>) -> (
    Result<Seq<u8>, ProtobufZeroError>,
    Seq<u8>,
) {
    match spec_decode_var_int_u128(bytes) {
        Ok((length, len)) => {
            let rest = bytes.skip(len as int);
            if length > usize::MAX {
                (Err(ProtobufZeroError::ConversionU128Error), rest)
            } else if length > rest.len() {
                (Err(ProtobufZeroError::ShortBuffer), rest)
            } else {
                (Ok(rest.take(length as int)), rest.skip(length as int))
            }
        },
        Err(error) => (Err(error), bytes),
    }
}

/// The bytes that a returned slice holds.
pub open spec fn slice_view(result: Result<&[u8], ProtobufZeroError>) -> Result<
    Seq<u8>,
    ProtobufZeroError,
> {
    match result {
        Ok(slice) => Ok(slice@),
        Err(error) => Err(error),
    }
}

/// Reads a varint length and returns the bytes that follow it, as many as the length
/// says, moving the cursor past them.
///
/// Fails with `ShortBuffer`, the cursor left where it was, where the bytes hold no whole
/// varint. Where the length does not fit `usize` it fails with `ConversionU128Error`, and
/// where fewer bytes follow than the length says with `ShortBuffer`: in both cases the
/// cursor has moved past the length.
pub fn decode_var_length<'a>(buffer: &mut &'a [u8]) -> (result: Result<
    &'a [u8],
    ProtobufZeroError,
>)
    ensures
        (slice_view(result), final(buffer)@) == spec_decode_var_length(old(buffer)@),
{
    let length: usize = decode_var_int::<usize>(buffer)?;
    let rest: &'a [u8] = *buffer;
    if length > rest.len() {
        return Err(ProtobufZeroError::ShortBuffer);
    }
    let slice: &'a [u8] = &rest[0..length];
    *buffer = &rest[length..rest.len()];
    Ok(slice)
}

/// What `decode_var_signed_i64` makes of a cursor over `bytes`.
pub open spec fn spec_decode_var_signed_i64(bytes: Seq<u8>) -> (
    Result<i64, ProtobufZeroError>,
    Seq<u8>,
) {
    match spec_decode_var_int_u128(bytes) {
        Ok((raw, len)) => (Ok(zigzag_decode_64(raw as nat) as i64), bytes.skip(len as int)),
        Err(error) => (Err(error), bytes),
    }
}

/// Reads one varint as a zig-zag coded 64-bit number and moves the cursor past it.
///
/// Fails with `ShortBuffer`, the cursor left where it was, where the bytes hold no whole
/// varint.
#[inline]
pub fn decode_var_signed_i64(buffer: &mut &[u8]) -> (result: Result<i64, ProtobufZeroError>)
    ensures
        (result, final(buffer)@) == spec_decode_var_signed_i64(old(buffer)@),
{
    let (raw, offset) = decode_var_int_u128(*buffer)?;
    let len: usize = buffer.len();
    *buffer = &buffer[offset..len];
    Ok(zigzag_decode_i64(raw))
}

/// What `decode_var_signed_i32` makes of a cursor over `bytes`.
pub open spec fn spec_decode_var_signed_i32(bytes: Seq<u8>) -> (
    Result<i32, ProtobufZeroError>,
    Seq<u8>,
) {
    match spec_decode_var_int_u128(bytes) {
        Ok((raw, len)) => (Ok(zigzag_decode_32(raw as nat) as i32), bytes.skip(len as int)),
        Err(error) => (Err(error), bytes),
    }
}

/// Reads one varint as a zig-zag coded 32-bit number and moves the cursor past it.
///
/// Fails with `ShortBuffer`, the cursor left where it was, where the bytes hold no whole
/// varint.
#[inline]
pub fn decode_var_signed_i32(buffer: &mut &[u8]) -> (result: Result<i32, ProtobufZeroError>)
    ensures
        (result, final(buffer)@) == spec_decode_var_signed_i32(old(buffer)@),
{
    let (raw, offset) = decode_var_int_u128(*buffer)?;
    let len: usize = buffer.len();
    *buffer = &buffer[offset..len];
    Ok(zigzag_decode_i32(raw))
}

/// What reading `width` bytes as they are makes of a cursor over `bytes`: the bytes
/// taken and the bytes left, or `ShortBuffer` and all of `bytes` where they are fewer
/// than `width`.
pub open spec fn spec_decode_fixed(bytes: Seq<u8>, width: nat) -> (
    Result<Seq<u8>, ProtobufZeroError>,
    Seq<u8>,
) {
    if bytes.len() >= width {
        (Ok(bytes.take(width as int)), bytes.skip(width as int))
    } else {
        (Err(ProtobufZeroError::ShortBuffer), bytes)
    }
}

/// The bytes that a returned array holds.
pub open spec fn array_view<const N: usize>(result: Result<[u8; N], ProtobufZeroError>) -> Result<
    Seq<u8>,
    ProtobufZeroError,
> {
    match result {
        Ok(array) => Ok(array@),
        Err(error) => Err(error),
    }
}

/// Takes the next eight bytes and moves the cursor past them.
///
/// Fails with `ShortBuffer`, the cursor left where it was, where fewer than eight bytes
/// are left.
pub fn decode_fixed_64(buffer: &mut &[u8]) -> (result: Result<[u8; 8], ProtobufZeroError>)
    ensures
        (array_view(result), final(buffer)@) == spec_decode_fixed(old(buffer)@, 8),
{
    let len: usize = buffer.len();
    if len < 8 {
        return Err(ProtobufZeroError::ShortBuffer);
    }
    let slice: &[u8] = &buffer[0..8];
    *buffer = &buffer[8..len];
    let array: [u8; 8] = [
        slice[0],
        slice[1],
        slice[2],
        slice[3],
        slice[4],
        slice[5],
        slice[6],
        slice[7],
    ];
    assert(array@ == old(buffer)@.take(8));
    Ok(array)
}

/// Takes the next four bytes and moves the cursor past them.
///
/// Fails with `ShortBuffer`, the cursor left where it was, where fewer than four bytes
/// are left.
pub fn decode_fixed_32(buffer: &mut &[u8]) -> (result: Result<[u8; 4], ProtobufZeroError>)
    ensures
        (array_view(result), final(buffer)@) == spec_decode_fixed(old(buffer)@, 4),
{
    let len: usize = buffer.len();
    if len < 4 {
        return Err(ProtobufZeroError::ShortBuffer);
    }
    let slice: &[u8] = &buffer[0..4];
    *buffer = &buffer[4..len];
    let array: [u8; 4] = [slice[0], slice[1], slice[2], slice[3]];
    assert(array@ == old(buffer)@.take(4));
    Ok(array)
}

/// What `decode_fixed_i64` makes of a cursor over `bytes`.
pub open spec fn spec_decode_fixed_i64(bytes: Seq<u8>) -> (
    Result<i64, ProtobufZeroError>,
    Seq<u8>,
) {
    match spec_decode_fixed(bytes, 8) {
        (Ok(taken), rest) => (Ok(signed_64(le_value_64(taken)) as i64), rest),
        (Err(error), rest) => (Err(error), rest),
    }
}

/// Reads eight bytes, least significant first, as an `i64` in two's complement, and
/// moves the cursor past them.
#[inline]
pub fn decode_fixed_i64(buffer: &mut &[u8]) -> (result: Result<i64, ProtobufZeroError>)
    ensures
        (result, final(buffer)@) == spec_decode_fixed_i64(old(buffer)@),
{
    let array = decode_fixed_64(buffer)?;
    Ok(i64_from_le(array))
}

/// What `decode_fixed_u64` makes of a cursor over `bytes`.
pub open spec fn spec_decode_fixed_u64(bytes: Seq<u8>) -> (
    Result<u64, ProtobufZeroError>,
    Seq<u8>,
) {
    match spec_decode_fixed(bytes, 8) {
        (Ok(taken), rest) => (Ok(le_value_64(taken) as u64), rest),
        (Err(error), rest) => (Err(error), rest),
    }
}

/// Reads eight bytes, least significant first, as a `u64`, and moves the cursor past
/// them.
#[inline]
pub fn decode_fixed_u64(buffer: &mut &[u8]) -> (result: Result<u64, ProtobufZeroError>)
    ensures
        (result, final(buffer)@) == spec_decode_fixed_u64(old(buffer)@),
{
    let array = decode_fixed_64(buffer)?;
    Ok(u64_from_le(array))
}

/// What `decode_fixed_i32` makes of a cursor over `bytes`.
pub open spec fn spec_decode_fixed_i32(bytes: Seq<u8>) -> (
    Result<i32, ProtobufZeroError>,
    Seq<u8>,
) {
    match spec_decode_fixed(bytes, 4) {
        (Ok(taken), rest) => (Ok(signed_32(le_value_32(taken)) as i32), rest),
        (Err(error), rest) => (Err(error), rest),
    }
}

/// Reads four bytes, least significant first, as an `i32` in two's complement, and
/// moves the cursor past them.
#[inline]
pub fn decode_fixed_i32(buffer: &mut &[u8]) -> (result: Result<i32, ProtobufZeroError>)
    ensures
        (result, final(buffer)@) == spec_decode_fixed_i32(old(buffer)@),
{
    let array = decode_fixed_32(buffer)?;
    Ok(i32_from_le(array))
}

/// What `decode_fixed_u32` makes of a cursor over `bytes`.
pub open spec fn spec_decode_fixed_u32(bytes: Seq<u8>) -> (
    Result<u32, ProtobufZeroError>,
    Seq<u8>,
) {
    match spec_decode_fixed(bytes, 4) {
        (Ok(taken), rest) => (Ok(le_value_32(taken) as u32), rest),
        (Err(error), rest) => (Err(error), rest),
    }
}

/// Reads four bytes, least significant first, as a `u32`, and moves the cursor past
/// them.
#[inline]
pub fn decode_fixed_u32(buffer: &mut &[u8]) -> (result: Result<u32, ProtobufZeroError>)
    ensures
        (result, final(buffer)@) == spec_decode_fixed_u32(old(buffer)@),
{
    let array = decode_fixed_32(buffer)?;
    Ok(u32_from_le(array))
}

} // verus!
