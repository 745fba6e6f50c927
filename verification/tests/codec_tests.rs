use cubeb_coreaudio_samples::codec::{
    chunk_bytes, expand_channel_layout, parse_u32_list, read_i32_le, read_u32_le, read_u64_le,
    STATUS_BAD_SIZE,
};

#[test]
fn reads_little_endian_scalars() {
    let b = vec![0x78, 0x56, 0x34, 0x12, 0xff, 0xff, 0xff, 0xff];
    assert_eq!(read_u32_le(&b, 0), 0x12345678);
    assert_eq!(read_i32_le(&b, 4), -1);
    assert_eq!(read_u64_le(&b, 0), 0xffffffff_12345678);
}

#[test]
fn parses_u32_lists_by_whole_elements() {
    let b = vec![1, 0, 0, 0, 2, 0, 0, 0, 99];
    let v = parse_u32_list(&b);
    assert_eq!(v, vec![1, 2]);
    let empty = parse_u32_list(&Vec::new());
    assert!(empty.is_empty());
}

#[test]
fn chunks_drop_trailing_remainder() {
    let b = vec![1, 2, 3, 4, 5, 6, 7];
    let cs = chunk_bytes(&b, 3);
    assert_eq!(cs, vec![vec![1, 2, 3], vec![4, 5, 6]]);
}

fn layout_payload(declared: u32, records: &[(u32, u32)]) -> Vec<u8> {
    let mut b = Vec::new();
    b.extend_from_slice(&0x650000u32.to_le_bytes()); // layout tag
    b.extend_from_slice(&0u32.to_le_bytes()); // bitmap
    b.extend_from_slice(&declared.to_le_bytes());
    for (label, flags) in records {
        b.extend_from_slice(&label.to_le_bytes());
        b.extend_from_slice(&flags.to_le_bytes());
        b.extend_from_slice(&[0u8; 12]); // coordinates
    }
    b
}

#[test]
fn expands_layout_with_count_from_length() {
    let b = layout_payload(2, &[(1, 0), (2, 0)]);
    assert_eq!(b.len(), 12 + 2 * 20);
    let l = expand_channel_layout(&b).unwrap();
    assert_eq!(l.tag, 0x650000);
    assert_eq!(l.declared_channels, 2);
    assert_eq!(l.descriptions.len(), 2);
    assert_eq!(l.descriptions[0].label, 1);
    assert_eq!(l.descriptions[1].label, 2);
}

#[test]
fn rejects_layout_with_mismatched_count() {
    let b = layout_payload(3, &[(1, 0), (2, 0)]);
    assert_eq!(expand_channel_layout(&b), Err(STATUS_BAD_SIZE));
}

#[test]
fn rejects_layout_shorter_than_header() {
    let b = vec![0u8; 8];
    assert_eq!(expand_channel_layout(&b), Err(STATUS_BAD_SIZE));
}

#[test]
fn expands_empty_layout() {
    let b = layout_payload(0, &[]);
    let l = expand_channel_layout(&b).unwrap();
    assert_eq!(l.declared_channels, 0);
    assert!(l.descriptions.is_empty());
}
