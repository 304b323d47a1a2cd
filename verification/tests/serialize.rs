use fuser::abi::{push_u16, push_u32, push_u64};
use zerocopy::IntoBytes;

#[test]
fn serialize_empty() {
    assert!(().as_bytes().is_empty());
}

#[test]
fn serialize_slice() {
    let data: [u8; 4] = [0x12, 0x34, 0x56, 0x78];
    assert_eq!(data.as_bytes(), [0x12, 0x34, 0x56, 0x78]);
}

#[test]
fn serialize_struct() {
    // The layout of `struct Data { a: u8, b: u8, c: u16 }` with a = 0x12, b = 0x34,
    // c = 0x5678, written field by field the way replies are laid out.
    let mut out: Vec<u8> = Vec::new();
    out.push(0x12);
    out.push(0x34);
    push_u16(&mut out, 0x5678);
    assert_eq!(out, [0x12, 0x34, 0x78, 0x56]);
}

#[test]
fn serialize_wider_integers_little_endian() {
    let mut out: Vec<u8> = Vec::new();
    push_u32(&mut out, 0x0102_0304);
    push_u64(&mut out, 0x1122_3344_5566_7788);
    assert_eq!(out, [0x04, 0x03, 0x02, 0x01, 0x88, 0x77, 0x66, 0x55, 0x44, 0x33, 0x22, 0x11]);
}
