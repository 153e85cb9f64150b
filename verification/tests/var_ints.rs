use protobuf_zero::errors::ProtobufZeroError;
use protobuf_zero::{decode_var_int, decode_var_int_u128};

/// Decodes one varint as a `u128` from `buffer`, which must hold `buffer_len` bytes, and
/// expects `expected` with the cursor left `offset` bytes in.
fn run_var_int(
    buffer_len: usize,
    buffer: &[u8],
    offset: usize,
    expected: Result<u128, ProtobufZeroError>,
) {
    assert_eq!(buffer.len(), buffer_len);
    let mut slice = buffer;
    let backup = buffer.get(offset..).unwrap();
    let result = decode_var_int::<u128>(&mut slice);
    assert_eq!(result, expected);
    assert_eq!(slice, backup);
}

#[test]
fn test_var_ints() {
    run_var_int(0, &[], 0, Err(ProtobufZeroError::ShortBuffer));
    run_var_int(1, &[0x07], 1, Ok(7));
    run_var_int(1, &[0x1a], 1, Ok(26));
    run_var_int(1, &[0x00], 1, Ok(0));
    run_var_int(1, &[0x7f], 1, Ok(127));
    run_var_int(1, &[0x2a], 1, Ok(42));
    run_var_int(2, &[0x80, 0x01], 2, Ok(128));
    run_var_int(2, &[0x81, 0x01], 2, Ok(129));
    run_var_int(2, &[0x83, 0x01], 2, Ok(131));
    run_var_int(2, &[0x80, 0x02], 2, Ok(256));
    run_var_int(2, &[0xff, 0x03], 2, Ok(511));
    run_var_int(2, &[0xff, 0x1f], 2, Ok(4095));
    run_var_int(2, &[0x81, 0x77], 2, Ok(15233));
    run_var_int(3, &[0x81, 0x77, 0x01], 2, Ok(15233));
    run_var_int(2, &[0x80, 0x7f], 2, Ok(16256));
    run_var_int(2, &[0x8f, 0x7f], 2, Ok(16271));
    run_var_int(3, &[0x80, 0x80, 0x01], 3, Ok(16384));
    run_var_int(6, &[0x80, 0x80, 0x01, 0x01, 0x00, 0xff], 3, Ok(16384));
    run_var_int(4, &[0x81, 0xfb, 0xf1, 0x77], 4, Ok(251428225));
    run_var_int(6, &[0xc9, 0x98, 0xe6, 0xe9, 0x9b, 0x05], 6, Ok(179268324425));
    run_var_int(
        7,
        &[0xe7, 0xaf, 0xb4, 0xd8, 0xfd, 0xff, 0x3f],
        7,
        Ok(281474356811751),
    );
    run_var_int(
        7,
        &[0xf3, 0xfe, 0xef, 0xb3, 0xd3, 0xfc, 0x59],
        7,
        Ok(395709135978355),
    );
    run_var_int(
        7,
        &[0xdf, 0xb4, 0xd8, 0xbd, 0xfe, 0xff, 0x6c],
        7,
        Ok(479386662214239),
    );
    run_var_int(
        8,
        &[0xb7, 0xf3, 0xa7, 0xbd, 0xbf, 0x9d, 0xa5, 0x46],
        8,
        Ok(39570237932829111),
    );
    run_var_int(
        8,
        &[0x82, 0x80, 0x87, 0x86, 0x80, 0x80, 0x80, 0x40],
        8,
        Ok(36028797031661570),
    );
    run_var_int(
        9,
        &[0xc7, 0xe3, 0x81, 0xa3, 0xf8, 0xde, 0xaf, 0xc5, 0x01],
        9,
        Ok(111111111111111111),
    );
    run_var_int(
        9,
        &[0xe0, 0x80, 0x80, 0x80, 0x80, 0x80, 0x80, 0x80, 0x40],
        9,
        Ok(4611686018427388000),
    );
    run_var_int(
        10,
        &[0xc0, 0x81, 0x80, 0x80, 0x80, 0x80, 0x80, 0x80, 0x80, 0x01],
        10,
        Ok(9223372036854776000),
    );
    run_var_int(
        10,
        &[0xc1, 0x81, 0x80, 0x80, 0x80, 0x80, 0x80, 0x80, 0x80, 0x01],
        10,
        Ok(9223372036854776001),
    );
    run_var_int(1, &[0xf7], 0, Err(ProtobufZeroError::ShortBuffer));
    run_var_int(3, &[0xf7, 0xf1, 0xb1], 0, Err(ProtobufZeroError::ShortBuffer));
}

#[test]
fn var_int_u128_leaves_the_buffer_and_reports_the_length() {
    let buffer = [0x80u8, 0x80, 0x01, 0x01, 0x00, 0xff];
    assert_eq!(decode_var_int_u128(&buffer), Ok((16384, 3)));
    assert_eq!(buffer, [0x80u8, 0x80, 0x01, 0x01, 0x00, 0xff]);
    assert_eq!(decode_var_int_u128(&[0x2a]), Ok((42, 1)));
    assert_eq!(
        decode_var_int_u128(&[]),
        Err(ProtobufZeroError::ShortBuffer)
    );
}

#[test]
fn each_group_is_shifted_by_seven_bits_per_index() {
    for index in 0..10usize {
        let mut buffer = vec![0x80u8; index];
        buffer.push(0x01);
        assert_eq!(
            decode_var_int_u128(&buffer),
            Ok((1u128 << (7 * index), index + 1))
        );
        let mut buffer = vec![0x80u8; index];
        buffer.push(0x7f);
        assert_eq!(
            decode_var_int_u128(&buffer),
            Ok((0x7fu128 << (7 * index), index + 1))
        );
    }
}

#[test]
fn every_whole_varint_of_one_to_ten_bytes_is_read_whatever_follows() {
    for len in 1..=10usize {
        let mut buffer = vec![0xaau8; len - 1];
        buffer.push(0x55);
        let mut expected: u128 = 0;
        for index in 0..len - 1 {
            expected += 0x2au128 << (7 * index);
        }
        expected += 0x55u128 << (7 * (len - 1));
        assert_eq!(decode_var_int_u128(&buffer), Ok((expected, len)));

        let mut followed = buffer.clone();
        followed.extend_from_slice(&[0xff, 0x00, 0x80]);
        assert_eq!(decode_var_int_u128(&followed), Ok((expected, len)));
        let mut slice = followed.as_slice();
        assert_eq!(decode_var_int::<u128>(&mut slice), Ok(expected));
        assert_eq!(slice, &[0xff, 0x00, 0x80]);
    }
}

#[test]
fn bytes_that_stop_inside_a_varint_are_refused_and_the_cursor_stays() {
    for len in 0..10usize {
        let buffer = vec![0x80u8 | (len as u8); len];
        assert_eq!(
            decode_var_int_u128(&buffer),
            Err(ProtobufZeroError::ShortBuffer)
        );
        let mut slice = buffer.as_slice();
        assert_eq!(
            decode_var_int::<u64>(&mut slice),
            Err(ProtobufZeroError::ShortBuffer)
        );
        assert_eq!(slice, buffer.as_slice());
    }
}

#[test]
fn the_tenth_byte_ends_a_varint_whatever_its_high_bit_says() {
    let buffer = [0xffu8; 12];
    assert_eq!(decode_var_int_u128(&buffer), Ok(((1u128 << 70) - 1, 10)));
    let mut slice = buffer.as_slice();
    assert_eq!(decode_var_int::<u128>(&mut slice), Ok((1u128 << 70) - 1));
    assert_eq!(slice, &[0xff, 0xff]);

    let exact = [0x80u8; 10];
    assert_eq!(decode_var_int_u128(&exact), Ok((0, 10)));
    let ends_early = [0x01u8, 0x80];
    assert_eq!(decode_var_int_u128(&ends_early), Ok((1, 1)));
}

#[test]
fn a_value_that_does_not_fit_is_a_conversion_error_behind_the_varint() {
    let buffer = [0xffu8, 0x03, 0x09];
    let mut slice = buffer.as_slice();
    assert_eq!(
        decode_var_int::<u8>(&mut slice),
        Err(ProtobufZeroError::ConversionU128Error)
    );
    assert_eq!(slice, &[0x09]);

    let mut slice = buffer.as_slice();
    assert_eq!(decode_var_int::<u16>(&mut slice), Ok(511));
    assert_eq!(slice, &[0x09]);

    let mut slice = buffer.as_slice();
    assert_eq!(decode_var_int::<i8>(&mut slice), Err(ProtobufZeroError::ConversionU128Error));

    let wide = [0xffu8; 10];
    let mut slice = wide.as_slice();
    assert_eq!(
        decode_var_int::<u64>(&mut slice),
        Err(ProtobufZeroError::ConversionU128Error)
    );
    assert!(slice.is_empty());

    let max = [0xffu8, 0xff, 0xff, 0xff, 0xff, 0xff, 0xff, 0xff, 0xff, 0x01];
    let mut slice = max.as_slice();
    assert_eq!(decode_var_int::<u64>(&mut slice), Ok(u64::MAX));
    let mut slice = max.as_slice();
    assert_eq!(
        decode_var_int::<i64>(&mut slice),
        Err(ProtobufZeroError::ConversionU128Error)
    );
    let mut slice = max.as_slice();
    assert_eq!(decode_var_int::<usize>(&mut slice).ok(), usize::try_from(u64::MAX).ok());
}

#[test]
fn a_failed_varint_fails_again_in_the_same_way() {
    let buffer = [0xf7u8, 0xf1, 0xb1];
    let mut slice = buffer.as_slice();
    let first = decode_var_int::<u64>(&mut slice);
    let second = decode_var_int::<u64>(&mut slice);
    let third = decode_var_int::<u64>(&mut slice);
    assert_eq!(first, Err(ProtobufZeroError::ShortBuffer));
    assert_eq!(second, first);
    assert_eq!(third, first);
    assert_eq!(slice, buffer.as_slice());
    assert_eq!(decode_var_int_u128(&buffer), decode_var_int_u128(&buffer));
}
