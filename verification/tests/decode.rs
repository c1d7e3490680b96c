use entity_cache::interface::{EntityList, FromBytes};

#[test]
fn u8_from_bytes_takes_first_byte() {
    assert_eq!(u8::from_bytes(&[7, 9]), Some(7));
    assert_eq!(u8::from_bytes(&[]), None);
}

#[test]
fn u16_from_bytes_is_little_endian() {
    assert_eq!(u16::from_bytes(&[0x34, 0x12]), Some(0x1234));
    assert_eq!(u16::from_bytes(&[0x34]), None);
}

#[test]
fn u32_from_bytes_is_little_endian() {
    assert_eq!(u32::from_bytes(&[0x78, 0x56, 0x34, 0x12]), Some(0x1234_5678));
    assert_eq!(u32::from_bytes(&[1, 2, 3]), None);
}

#[test]
fn u64_from_bytes_is_little_endian() {
    assert_eq!(
        u64::from_bytes(&[0xef, 0xcd, 0xab, 0x89, 0x67, 0x45, 0x23, 0x01]),
        Some(0x0123_4567_89ab_cdef)
    );
    assert_eq!(u64::from_bytes(&[0xff; 8]), Some(u64::MAX));
    assert_eq!(u64::from_bytes(&[1, 2, 3, 4, 5, 6, 7]), None);
}

#[test]
fn i32_from_bytes_is_twos_complement() {
    assert_eq!(i32::from_bytes(&[0xff, 0xff, 0xff, 0xff]), Some(-1));
    assert_eq!(i32::from_bytes(&[0x00, 0x00, 0x00, 0x80]), Some(i32::MIN));
    assert_eq!(i32::from_bytes(&[0xff, 0xff, 0xff, 0x7f]), Some(i32::MAX));
    assert_eq!(i32::from_bytes(&[5, 0, 0]), None);
}

#[test]
fn decoding_ignores_trailing_bytes() {
    assert_eq!(u16::from_bytes(&[0x34, 0x12, 0xff, 0xee]), Some(0x1234));
    assert_eq!(u32::from_bytes(&[1, 0, 0, 0, 9, 9]), Some(1));
    assert_eq!(i32::from_bytes(&[0xfe, 0xff, 0xff, 0xff, 0x01]), Some(-2));
    assert_eq!(u64::from_bytes(&[2, 0, 0, 0, 0, 0, 0, 0, 7]), Some(2));
}

#[test]
fn signed_and_unsigned_agree_as_bits() {
    let bytes = [0x10, 0x32, 0x54, 0x96];
    let u = u32::from_bytes(&bytes).unwrap();
    let i = i32::from_bytes(&bytes).unwrap();
    assert_eq!(u, 0x9654_3210);
    assert_eq!(i as i64, u as i64 - 0x1_0000_0000);
    let small = [0x10, 0x32, 0x54, 0x16];
    assert_eq!(i32::from_bytes(&small).unwrap() as i64, u32::from_bytes(&small).unwrap() as i64);
}

#[test]
fn string_from_bytes_trims_trailing_zeros() {
    assert_eq!(String::from_bytes(b"mp_lobby\0\0\0"), Some("mp_lobby".to_string()));
    assert_eq!(String::from_bytes(b"a\0b\0"), Some("a\0b".to_string()));
}

#[test]
fn string_from_bytes_keeps_all_zero_input() {
    assert_eq!(String::from_bytes(&[0, 0, 0]), Some("\0\0\0".to_string()));
    assert_eq!(String::from_bytes(&[]), Some(String::new()));
}

#[test]
fn string_from_bytes_rejects_invalid_utf8() {
    assert_eq!(String::from_bytes(&[0x61, 0xff, 0x00]), None);
    assert_eq!(String::from_bytes(&[0xc3]), None);
}

#[test]
fn string_from_bytes_decodes_multibyte_text() {
    assert_eq!(String::from_bytes("héllo\0".as_bytes()), Some("héllo".to_string()));
}

#[test]
fn text_ignores_zero_padding() {
    let mut padded = b"wraith".to_vec();
    padded.extend_from_slice(&[0; 26]);
    assert_eq!(String::from_bytes(&padded), String::from_bytes(b"wraith"));
}

fn table_with(len: usize, slots: &[(usize, u64)]) -> Vec<u8> {
    let mut bytes = vec![0u8; len];
    for &(slot, pointer) in slots {
        bytes[slot * 32..slot * 32 + 8].copy_from_slice(&pointer.to_le_bytes());
    }
    bytes
}

#[test]
fn entity_list_needs_sixty_slots() {
    assert!(EntityList::from_bytes(&vec![0u8; 1919]).is_none());
    assert!(EntityList::from_bytes(&[]).is_none());
}

#[test]
fn entity_list_reads_each_slot() {
    let mut bytes = table_with(1920, &[(0, 0x7ff6_0000_1000), (3, 42)]);
    // bytes after the pointer word of a slot do not matter
    bytes[8] = 0xaa;
    bytes[3 * 32 + 31] = 0xbb;
    let list = EntityList::from_bytes(&bytes).unwrap();
    assert_eq!(list.data.len(), 60);
    assert_eq!(list.data[0], (0, Some(0x7ff6_0000_1000)));
    assert_eq!(list.data[1], (1, None));
    assert_eq!(list.data[3], (3, Some(42)));
    assert_eq!(list.data[59], (59, None));
}

#[test]
fn entity_list_ignores_partial_slot() {
    let whole = table_with(1920, &[(59, 9)]);
    let mut partial = whole.clone();
    partial.extend_from_slice(&[1; 31]);
    let a = EntityList::from_bytes(&whole).unwrap();
    let b = EntityList::from_bytes(&partial).unwrap();
    assert_eq!(a.data, b.data);
    let longer = table_with(1952, &[(60, 5)]);
    let c = EntityList::from_bytes(&longer).unwrap();
    assert_eq!(c.data.len(), 61);
    assert_eq!(c.data[60], (60, Some(5)));
}
