use early_init::guid::Guid;
use early_init::wire::{read_u128_le, read_u16_le, read_u32_le, read_u64_le};

#[test]
fn integers_are_read_least_significant_byte_first() {
    let bytes: Vec<u8> = (1u8..=17).collect();
    assert_eq!(read_u16_le(&bytes, 0), 0x0201);
    assert_eq!(read_u16_le(&bytes, 15), 0x1110);
    assert_eq!(read_u32_le(&bytes, 1), 0x0504_0302);
    assert_eq!(read_u64_le(&bytes, 2), 0x0a09_0807_0605_0403);
    assert_eq!(read_u128_le(&bytes, 1), 0x1110_0f0e_0d0c_0b0a_0908_0706_0504_0302);
}

#[test]
fn readers_agree_with_the_standard_conversions() {
    let bytes: [u8; 16] = [0xff, 0x00, 0x80, 0x7f, 0x01, 0xfe, 0x10, 0xef, 9, 8, 7, 6, 5, 4, 3, 0xff];
    assert_eq!(read_u16_le(&bytes, 0), u16::from_le_bytes([0xff, 0x00]));
    assert_eq!(read_u32_le(&bytes, 0), u32::from_le_bytes([0xff, 0x00, 0x80, 0x7f]));
    assert_eq!(read_u64_le(&bytes, 8), u64::from_le_bytes([9, 8, 7, 6, 5, 4, 3, 0xff]));
    assert_eq!(read_u128_le(&bytes, 0), u128::from_le_bytes(bytes));
}

#[test]
fn extreme_values_do_not_overflow() {
    let ones = [0xffu8; 16];
    assert_eq!(read_u16_le(&ones, 0), u16::MAX);
    assert_eq!(read_u32_le(&ones, 0), u32::MAX);
    assert_eq!(read_u64_le(&ones, 0), u64::MAX);
    assert_eq!(read_u128_le(&ones, 0), u128::MAX);
    let zeros = [0u8; 16];
    assert_eq!(read_u128_le(&zeros, 0), 0);
}

#[test]
fn guid_is_the_reading_of_its_bytes() {
    let bytes: [u8; 16] = [1, 2, 3, 4, 5, 6, 7, 8, 9, 10, 11, 12, 13, 14, 15, 16];
    let guid = Guid::from_bytes(bytes);
    assert_eq!(guid.value, u128::from_le_bytes(bytes));
    assert_eq!(guid.value.to_le_bytes(), bytes);
}

#[test]
fn guid_read_takes_sixteen_bytes_at_the_offset() {
    let mut buffer = vec![0xaau8; 3];
    let bytes: [u8; 16] = [16, 15, 14, 13, 12, 11, 10, 9, 8, 7, 6, 5, 4, 3, 2, 1];
    buffer.extend_from_slice(&bytes);
    buffer.push(0xbb);
    assert_eq!(Guid::read(&buffer, 3), Guid::from_bytes(bytes));
    assert_ne!(Guid::read(&buffer, 2), Guid::from_bytes(bytes));
}

#[test]
fn guids_differ_when_any_byte_differs() {
    let base = [0x5au8; 16];
    for i in 0..16 {
        let mut other = base;
        other[i] ^= 1;
        assert_ne!(Guid::from_bytes(base), Guid::from_bytes(other));
    }
    assert_eq!(Guid::from_bytes(base), Guid::from_bytes(base));
}
