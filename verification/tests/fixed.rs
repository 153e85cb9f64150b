use protobuf_zero::errors::ProtobufZeroError;
use protobuf_zero::fixed::{i32_from_le, i64_from_le, u32_from_le, u64_from_le};
use protobuf_zero::{
    decode_fixed_32, decode_fixed_64, decode_fixed_i32, decode_fixed_i64, decode_fixed_u32,
    decode_fixed_u64,
};

#[test]
fn eight_zero_bytes_are_zero() {
    let buffer = [0u8; 8];
    let mut slice = buffer.as_slice();
    assert_eq!(decode_fixed_u64(&mut slice), Ok(0u64));
    assert_eq!(slice.len(), 0);

    let mut slice = buffer.as_slice();
    assert_eq!(decode_fixed_i64(&mut slice), Ok(0i64));
    assert_eq!(slice.len(), 0);

    let mut slice = buffer.as_slice();
    let bytes = decode_fixed_64(&mut slice).unwrap();
    assert_eq!(f64::from_le_bytes(bytes), 0.0);
    assert_eq!(slice.len(), 0);
}

#[test]
fn seven_bytes_are_too_few_for_eight() {
    let buffer = [0u8; 7];
    let mut slice = buffer.as_slice();
    assert_eq!(decode_fixed_u64(&mut slice), Err(ProtobufZeroError::ShortBuffer));
    assert_eq!(slice, buffer.as_slice());
    assert_eq!(decode_fixed_i64(&mut slice), Err(ProtobufZeroError::ShortBuffer));
    assert_eq!(slice, buffer.as_slice());
    assert_eq!(decode_fixed_64(&mut slice), Err(ProtobufZeroError::ShortBuffer));
    assert_eq!(slice, buffer.as_slice());
    // Four of them are enough for a 32-bit number.
    assert_eq!(decode_fixed_u32(&mut slice), Ok(0));
    assert_eq!(slice.len(), 3);
    assert_eq!(decode_fixed_u32(&mut slice), Err(ProtobufZeroError::ShortBuffer));
    assert_eq!(decode_fixed_i32(&mut slice), Err(ProtobufZeroError::ShortBuffer));
    assert_eq!(decode_fixed_32(&mut slice), Err(ProtobufZeroError::ShortBuffer));
    assert_eq!(slice.len(), 3);
}

#[test]
fn fixed_numbers_are_read_least_significant_byte_first() {
    let buffer = [0x01u8, 0x02, 0x03, 0x04, 0x05, 0x06, 0x07, 0x08, 0x09];
    let mut slice = buffer.as_slice();
    assert_eq!(decode_fixed_u64(&mut slice), Ok(0x0807_0605_0403_0201));
    assert_eq!(slice, &[0x09]);

    let mut slice = buffer.as_slice();
    assert_eq!(decode_fixed_i64(&mut slice), Ok(0x0807_0605_0403_0201));
    assert_eq!(slice, &[0x09]);

    let mut slice = buffer.as_slice();
    assert_eq!(decode_fixed_u32(&mut slice), Ok(0x0403_0201));
    assert_eq!(decode_fixed_i32(&mut slice), Ok(0x0807_0605));
    assert_eq!(slice, &[0x09]);

    let mut slice = buffer.as_slice();
    assert_eq!(decode_fixed_32(&mut slice), Ok([0x01, 0x02, 0x03, 0x04]));
    assert_eq!(slice.len(), 5);
    let mut slice = buffer.as_slice();
    assert_eq!(
        decode_fixed_64(&mut slice),
        Ok([0x01, 0x02, 0x03, 0x04, 0x05, 0x06, 0x07, 0x08])
    );
    assert_eq!(slice.len(), 1);
}

#[test]
fn fixed_signed_numbers_are_in_twos_complement() {
    let mut slice: &[u8] = &[0xff; 8];
    assert_eq!(decode_fixed_i64(&mut slice), Ok(-1));
    let mut slice: &[u8] = &[0xff; 8];
    assert_eq!(decode_fixed_u64(&mut slice), Ok(u64::MAX));
    let mut slice: &[u8] = &[0, 0, 0, 0, 0, 0, 0, 0x80];
    assert_eq!(decode_fixed_i64(&mut slice), Ok(i64::MIN));
    let mut slice: &[u8] = &[0xff, 0xff, 0xff, 0xff, 0xff, 0xff, 0xff, 0x7f];
    assert_eq!(decode_fixed_i64(&mut slice), Ok(i64::MAX));

    let mut slice: &[u8] = &[0xff; 4];
    assert_eq!(decode_fixed_i32(&mut slice), Ok(-1));
    let mut slice: &[u8] = &[0xff; 4];
    assert_eq!(decode_fixed_u32(&mut slice), Ok(u32::MAX));
    let mut slice: &[u8] = &[0, 0, 0, 0x80];
    assert_eq!(decode_fixed_i32(&mut slice), Ok(i32::MIN));
    let mut slice: &[u8] = &[0xfe, 0xff, 0xff, 0xff];
    assert_eq!(decode_fixed_i32(&mut slice), Ok(-2));
}

#[test]
fn fixed_numbers_are_the_bit_patterns_of_floats() {
    let mut slice: &[u8] = &1.5f64.to_le_bytes();
    let bits = decode_fixed_u64(&mut slice).unwrap();
    assert_eq!(f64::from_bits(bits), 1.5);
    let mut slice: &[u8] = &(-0.25f32).to_le_bytes();
    let bits = decode_fixed_u32(&mut slice).unwrap();
    assert_eq!(f32::from_bits(bits), -0.25);
    let mut slice: &[u8] = &[0u8; 4];
    assert_eq!(f32::from_le_bytes(decode_fixed_32(&mut slice).unwrap()), 0.0);
}

#[test]
fn le_conversions_agree_with_the_bytes_of_the_number() {
    let samples = [
        0u64,
        1,
        0xff,
        0x100,
        0x1234_5678_9abc_def0,
        0x8000_0000_0000_0000,
        u64::MAX,
        0x00ff_00ff_00ff_00ff,
    ];
    for x in samples {
        assert_eq!(u64_from_le(x.to_le_bytes()), x);
        assert_eq!(i64_from_le(x.to_le_bytes()), x as i64);
        let narrow = x as u32;
        assert_eq!(u32_from_le(narrow.to_le_bytes()), narrow);
        assert_eq!(i32_from_le(narrow.to_le_bytes()), narrow as i32);
    }
}

#[test]
fn a_failed_fixed_read_fails_again_in_the_same_way() {
    let buffer = [1u8, 2, 3];
    let mut slice = buffer.as_slice();
    for _ in 0..3 {
        assert_eq!(decode_fixed_u32(&mut slice), Err(ProtobufZeroError::ShortBuffer));
        assert_eq!(decode_fixed_i64(&mut slice), Err(ProtobufZeroError::ShortBuffer));
        assert_eq!(slice, buffer.as_slice());
    }
}
