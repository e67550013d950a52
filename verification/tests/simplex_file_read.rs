use sharky::simplex_file_read::{
    simplex_be_read, simplex_le_read, simplex_string_read, SimplexReadable,
};

#[test]
fn le_read_u16_full() {
    assert_eq!(simplex_le_read::<u16>(Some(vec![0x34, 0x12])), Some(0x1234));
}

#[test]
fn be_read_u16_full() {
    assert_eq!(simplex_be_read::<u16>(Some(vec![0x12, 0x34])), Some(0x1234));
}

#[test]
fn failed_read_is_none() {
    assert_eq!(simplex_le_read::<u32>(None), None);
    assert_eq!(simplex_be_read::<i64>(None), None);
    assert_eq!(simplex_string_read(None), None);
}

#[test]
fn reads_match_std_byte_order_conversions() {
    let bytes: Vec<u8> = (1..=16).map(|b| b * 15).collect();
    assert_eq!(
        simplex_le_read::<u16>(Some(bytes[..2].to_vec())),
        Some(u16::from_le_bytes(bytes[..2].try_into().unwrap()))
    );
    assert_eq!(
        simplex_be_read::<i16>(Some(bytes[..2].to_vec())),
        Some(i16::from_be_bytes(bytes[..2].try_into().unwrap()))
    );
    assert_eq!(
        simplex_le_read::<u32>(Some(bytes[..4].to_vec())),
        Some(u32::from_le_bytes(bytes[..4].try_into().unwrap()))
    );
    assert_eq!(
        simplex_be_read::<i32>(Some(bytes[..4].to_vec())),
        Some(i32::from_be_bytes(bytes[..4].try_into().unwrap()))
    );
    assert_eq!(
        simplex_le_read::<u64>(Some(bytes[..8].to_vec())),
        Some(u64::from_le_bytes(bytes[..8].try_into().unwrap()))
    );
    assert_eq!(
        simplex_be_read::<i64>(Some(bytes[..8].to_vec())),
        Some(i64::from_be_bytes(bytes[..8].try_into().unwrap()))
    );
    assert_eq!(
        simplex_le_read::<u128>(Some(bytes.clone())),
        Some(u128::from_le_bytes(bytes[..].try_into().unwrap()))
    );
    assert_eq!(
        simplex_be_read::<i128>(Some(bytes.clone())),
        Some(i128::from_be_bytes(bytes[..].try_into().unwrap()))
    );
    assert_eq!(
        simplex_le_read::<i128>(Some(bytes.clone())),
        Some(i128::from_le_bytes(bytes[..].try_into().unwrap()))
    );
    assert_eq!(
        simplex_be_read::<u128>(Some(bytes.clone())),
        Some(u128::from_be_bytes(bytes[..].try_into().unwrap()))
    );
}

#[test]
fn signed_reads_are_twos_complement() {
    assert_eq!(simplex_le_read::<i16>(Some(vec![0xff, 0xff])), Some(-1));
    assert_eq!(simplex_be_read::<i16>(Some(vec![0x80, 0x00])), Some(i16::MIN));
    assert_eq!(simplex_le_read::<i32>(Some(vec![0xfe, 0xff, 0xff, 0xff])), Some(-2));
    assert_eq!(simplex_be_read::<i64>(Some(vec![0x7f, 0xff, 0xff, 0xff, 0xff, 0xff, 0xff, 0xff])), Some(i64::MAX));
    assert_eq!(simplex_le_read::<i128>(Some(vec![0xff; 16])), Some(-1));
    let mut min = vec![0u8; 16];
    min[0] = 0x80;
    assert_eq!(simplex_be_read::<i128>(Some(min)), Some(i128::MIN));
    assert_eq!(simplex_le_read::<u128>(Some(vec![0xff; 16])), Some(u128::MAX));
}

#[test]
fn short_le_read_keeps_value_of_delivered_bytes() {
    assert_eq!(simplex_le_read::<u32>(Some(vec![0x34, 0x12])), Some(0x1234));
    assert_eq!(simplex_le_read::<u64>(Some(vec![])), Some(0));
    assert_eq!(simplex_le_read::<i32>(Some(vec![0xff])), Some(0xff));
}

#[test]
fn short_be_read_shifts_delivered_bytes_up() {
    assert_eq!(simplex_be_read::<u32>(Some(vec![0x12, 0x34])), Some(0x1234_0000));
    assert_eq!(simplex_be_read::<i16>(Some(vec![0xff])), Some(-256));
    assert_eq!(simplex_be_read::<u16>(Some(vec![])), Some(0));
}

#[test]
fn widths() {
    assert_eq!(u16::byte_width(), 2);
    assert_eq!(i16::byte_width(), 2);
    assert_eq!(u32::byte_width(), 4);
    assert_eq!(i32::byte_width(), 4);
    assert_eq!(u64::byte_width(), 8);
    assert_eq!(i64::byte_width(), 8);
    assert_eq!(u128::byte_width(), 16);
    assert_eq!(i128::byte_width(), 16);
}

#[test]
fn law_le_is_reversed_be_on_values() {
    let bytes = vec![1u8, 2, 3, 4, 5, 6, 7, 8];
    let mut reversed = bytes.clone();
    reversed.reverse();
    assert_eq!(simplex_le_read::<u64>(Some(bytes)), simplex_be_read::<u64>(Some(reversed)));
}

#[test]
fn string_read_ascii() {
    assert_eq!(simplex_string_read(Some(b"abc\0".to_vec())), Some("abc\0".to_string()));
}

#[test]
fn string_read_without_terminator() {
    assert_eq!(simplex_string_read(Some(b"tail".to_vec())), Some("tail".to_string()));
    assert_eq!(simplex_string_read(Some(vec![])), Some(String::new()));
}

#[test]
fn string_read_multibyte_round_trip() {
    let text = "héllo, wörld ✓ 🦀\0";
    assert_eq!(simplex_string_read(Some(text.as_bytes().to_vec())), Some(text.to_string()));
}

#[test]
fn string_read_rejects_invalid_utf8() {
    assert_eq!(simplex_string_read(Some(vec![0x61, 0xff, 0x00])), None);
    assert_eq!(simplex_string_read(Some(vec![0xc0, 0x80])), None);
    assert_eq!(simplex_string_read(Some(vec![0xed, 0xa0, 0x80])), None);
}

#[test]
fn real_bit_patterns_read_through_integer_readers() {
    let bytes = 1.5f64.to_le_bytes().to_vec();
    assert_eq!(simplex_le_read::<u64>(Some(bytes)).map(f64::from_bits), Some(1.5));
    let bytes = (-2.25f32).to_be_bytes().to_vec();
    assert_eq!(simplex_be_read::<u32>(Some(bytes)).map(f32::from_bits), Some(-2.25));
}

#[test]
fn law_bytes_read_back_on_values() {
    for x in [0u16, 1, 0x1234, u16::MAX] {
        assert_eq!(simplex_le_read::<u16>(Some(x.to_le_bytes().to_vec())), Some(x));
        assert_eq!(simplex_be_read::<u16>(Some(x.to_be_bytes().to_vec())), Some(x));
    }
    for x in [0i16, -1, i16::MIN, i16::MAX, 300] {
        assert_eq!(simplex_le_read::<i16>(Some(x.to_le_bytes().to_vec())), Some(x));
        assert_eq!(simplex_be_read::<i16>(Some(x.to_be_bytes().to_vec())), Some(x));
    }
    for x in [0u32, 0xdead_beef, u32::MAX] {
        assert_eq!(simplex_le_read::<u32>(Some(x.to_le_bytes().to_vec())), Some(x));
        assert_eq!(simplex_be_read::<u32>(Some(x.to_be_bytes().to_vec())), Some(x));
    }
    for x in [0i32, -123456, i32::MIN, i32::MAX] {
        assert_eq!(simplex_le_read::<i32>(Some(x.to_le_bytes().to_vec())), Some(x));
        assert_eq!(simplex_be_read::<i32>(Some(x.to_be_bytes().to_vec())), Some(x));
    }
    for x in [0u64, 0x0123_4567_89ab_cdef, u64::MAX] {
        assert_eq!(simplex_le_read::<u64>(Some(x.to_le_bytes().to_vec())), Some(x));
        assert_eq!(simplex_be_read::<u64>(Some(x.to_be_bytes().to_vec())), Some(x));
    }
    for x in [0i64, -1, i64::MIN, i64::MAX] {
        assert_eq!(simplex_le_read::<i64>(Some(x.to_le_bytes().to_vec())), Some(x));
        assert_eq!(simplex_be_read::<i64>(Some(x.to_be_bytes().to_vec())), Some(x));
    }
    for x in [0u128, 1 << 100, u128::MAX] {
        assert_eq!(simplex_le_read::<u128>(Some(x.to_le_bytes().to_vec())), Some(x));
        assert_eq!(simplex_be_read::<u128>(Some(x.to_be_bytes().to_vec())), Some(x));
    }
    for x in [0i128, -1, i128::MIN, i128::MAX] {
        assert_eq!(simplex_le_read::<i128>(Some(x.to_le_bytes().to_vec())), Some(x));
        assert_eq!(simplex_be_read::<i128>(Some(x.to_be_bytes().to_vec())), Some(x));
    }
}

#[test]
fn law_be_read_is_swapped_le_read_on_values() {
    for b in [[1u8, 2, 3, 4], [0xff, 0, 0x80, 7], [0, 0, 0, 0]] {
        assert_eq!(
            simplex_be_read::<u32>(Some(b.to_vec())),
            simplex_le_read::<u32>(Some(b.to_vec())).map(u32::swap_bytes)
        );
    }
}
