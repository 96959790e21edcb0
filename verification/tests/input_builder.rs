use pyr0::errors::ReceiptError;
use pyr0::input_builder::InputBuilder;

#[test]
fn write_u32_pair_concatenates_little_endian() {
    let mut b = InputBuilder::new();
    b.write_u32(7);
    b.write_u32(0x01020304);
    let bytes = b.build();
    let mut expected = 7u32.to_le_bytes().to_vec();
    expected.extend_from_slice(&0x01020304u32.to_le_bytes());
    assert_eq!(bytes, expected);
    assert_eq!(bytes.len(), 8);
}

#[test]
fn write_u64_is_little_endian() {
    let mut b = InputBuilder::new();
    b.write_u64(0x1122334455667788);
    assert_eq!(b.build(), 0x1122334455667788u64.to_le_bytes().to_vec());
}

#[test]
fn frame_is_length_prefixed_and_guest_readable() {
    let payload = vec![9u8, 8, 7, 6, 5];
    let mut b = InputBuilder::new();
    b.write_u32(1);
    b.write_frame(payload.clone());
    let bytes = b.build();
    // A guest reads past the fixed field, then a u64 LE length, then the payload.
    let start = 4;
    let mut len_bytes = [0u8; 8];
    len_bytes.copy_from_slice(&bytes[start..start + 8]);
    let len = u64::from_le_bytes(len_bytes) as usize;
    assert_eq!(len, payload.len());
    assert_eq!(&bytes[start + 8..start + 8 + len], payload.as_slice());
    assert_eq!(bytes.len(), start + 8 + len);
}

#[test]
fn write_bytes32_enforces_length() {
    let mut b = InputBuilder::new();
    assert!(matches!(b.write_bytes32(vec![0u8; 31]), Err(ReceiptError::InvalidLength)));
    assert_eq!(b.size(), 0);
    assert!(b.write_bytes32(vec![5u8; 32]).is_ok());
    assert_eq!(b.size(), 32);
    assert_eq!(b.build(), vec![5u8; 32]);
}

#[test]
fn write_image_id_is_bytes32() {
    let mut b = InputBuilder::new();
    assert!(matches!(b.write_image_id(vec![1u8; 33]), Err(ReceiptError::InvalidLength)));
    assert!(b.write_image_id(vec![1u8; 32]).is_ok());
    assert_eq!(b.build(), vec![1u8; 32]);
}

#[test]
fn raw_and_cbor_append_without_framing() {
    let mut b = InputBuilder::new();
    b.write_raw_bytes(vec![1, 2]);
    b.write_cbor(vec![3, 4]);
    assert_eq!(b.build(), vec![1, 2, 3, 4]);
}

#[test]
fn cbor_frame_matches_frame_layout() {
    let mut a = InputBuilder::new();
    a.write_cbor_frame(vec![0xaa, 0xbb]);
    let mut f = InputBuilder::new();
    f.write_frame(vec![0xaa, 0xbb]);
    assert_eq!(a.build(), f.build());
}

#[test]
fn vec_bytes_and_string_are_length_prefixed() {
    let mut b = InputBuilder::new();
    b.write_vec_bytes(vec![1, 2, 3]);
    let mut expected = 3u64.to_le_bytes().to_vec();
    expected.extend_from_slice(&[1, 2, 3]);
    assert_eq!(b.build(), expected);

    let mut s = InputBuilder::new();
    s.write_string("hi");
    let mut expected = 2u64.to_le_bytes().to_vec();
    expected.extend_from_slice(b"hi");
    assert_eq!(s.build(), expected);
}

#[test]
fn clear_discards_everything() {
    let mut b = InputBuilder::new();
    b.write_u32(1);
    assert_eq!(b.size(), 4);
    b.clear();
    assert_eq!(b.size(), 0);
    assert_eq!(b.build(), Vec::<u8>::new());
}
