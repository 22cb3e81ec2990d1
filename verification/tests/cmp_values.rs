//! Trace values, inline buffers, and the bit-packed header layout.

use fuzzcore::cmp::{AFLppCmpLogHeader, CmplogBytes, CmpValues};

fn buf_from(bytes: &[u8]) -> [u8; 32] {
    let mut buf = [0u8; 32];
    buf[..bytes.len()].copy_from_slice(bytes);
    buf
}

#[test]
fn buffer_view_is_prefix() {
    let mut buf = [0u8; 32];
    for (i, b) in buf.iter_mut().enumerate() {
        *b = i as u8;
    }
    let bytes = CmplogBytes::from_buf_and_len(buf, 5);
    assert_eq!(bytes.as_slice(), &[0, 1, 2, 3, 4]);
    assert_eq!(bytes.len(), 5);
    assert!(!bytes.is_empty());
}

#[test]
fn buffer_empty_and_full() {
    let mut buf = [0u8; 32];
    for (i, b) in buf.iter_mut().enumerate() {
        *b = 0xA0 ^ i as u8;
    }
    let empty = CmplogBytes::from_buf_and_len(buf, 0);
    assert_eq!(empty.as_slice(), &[] as &[u8]);
    assert!(empty.is_empty());
    let full = CmplogBytes::from_buf_and_len(buf, 32);
    assert_eq!(full.as_slice(), &buf[..]);
    assert_eq!(full.len(), 32);
}

#[test]
fn is_numeric() {
    let b = CmplogBytes::from_buf_and_len(buf_from(b"ab"), 2);
    assert!(CmpValues::U8((1, 2)).is_numeric());
    assert!(CmpValues::U16((1, 2)).is_numeric());
    assert!(CmpValues::U32((1, 2)).is_numeric());
    assert!(CmpValues::U64((1, 2)).is_numeric());
    assert!(!CmpValues::Bytes((b, b)).is_numeric());
}

#[test]
fn to_u64_tuple_widens_without_bit_loss() {
    assert_eq!(CmpValues::U8((0xFF, 0x01)).to_u64_tuple(), Some((0xFF, 0x01)));
    assert_eq!(
        CmpValues::U16((0xABCD, 0x0001)).to_u64_tuple(),
        Some((0xABCD, 0x0001))
    );
    assert_eq!(
        CmpValues::U32((0xDEADBEEF, 7)).to_u64_tuple(),
        Some((0xDEADBEEF, 7))
    );
    assert_eq!(
        CmpValues::U64((u64::MAX, u64::MAX - 1)).to_u64_tuple(),
        Some((u64::MAX, u64::MAX - 1))
    );
    let b = CmplogBytes::from_buf_and_len(buf_from(b"xy"), 2);
    assert_eq!(CmpValues::Bytes((b, b)).to_u64_tuple(), None);
}

#[test]
fn header_all_ones_layout() {
    let h = AFLppCmpLogHeader::new([0xFF, 0xFF]);
    assert_eq!(h.hits(), 63);
    assert_eq!(h.shape(), 31);
    assert_eq!(h._type(), 1);
    assert_eq!(h.attribute(), 15);
}

#[test]
fn header_sample_layout() {
    // byte 0 = 0b0111_1010: hits = 0b111010 = 58, low shape bits = 0b01
    // byte 1 = 0b0011_0101: high shape bits = 0b101, type bit = 0,
    //                       attribute = 0b0011
    let h = AFLppCmpLogHeader::new([0x7A, 0x35]);
    assert_eq!(h.hits(), 58);
    assert_eq!(h.shape(), 0b101_01);
    assert_eq!(h._type(), 0);
    assert_eq!(h.attribute(), 3);
}

#[test]
fn header_field_isolation() {
    // only the hits bits set
    let h = AFLppCmpLogHeader::new([0x3F, 0x00]);
    assert_eq!(h.hits(), 63);
    assert_eq!(h.shape(), 0);
    assert_eq!(h._type(), 0);
    assert_eq!(h.attribute(), 0);
    // only the type bit set
    let h = AFLppCmpLogHeader::new([0x00, 0x08]);
    assert_eq!(h.hits(), 0);
    assert_eq!(h.shape(), 0);
    assert_eq!(h._type(), 1);
    assert_eq!(h.attribute(), 0);
    // only the attribute bits set
    let h = AFLppCmpLogHeader::new([0x00, 0xF0]);
    assert_eq!(h.hits(), 0);
    assert_eq!(h.shape(), 0);
    assert_eq!(h._type(), 0);
    assert_eq!(h.attribute(), 15);
}
