//! Cross-checks against the numeric byte-order conversions of num_traits,
//! the collaborator this crate's callers pair it with: what this crate
//! decodes and encodes must agree with `FromBytes` and `ToBytes`.

use num_traits::FromBytes;
use num_traits::ToBytes;
use rw_exact_ext::ReadExactExt;
use rw_exact_ext::SliceReader;
use rw_exact_ext::VecWriter;
use rw_exact_ext::WriteAllExt;

#[test]
fn decode_agrees_with_from_bytes_u32() {
    let bytes = [0xABu8, 0xCD, 0xEF, 0x42];
    let expected_be: u32 = FromBytes::from_be_bytes(&bytes);
    let expected_le: u32 = FromBytes::from_le_bytes(&bytes);
    let mut r = SliceReader::new(bytes.to_vec());
    assert_eq!(r.read_num_be_u32().unwrap(), expected_be);
    let mut r = SliceReader::new(bytes.to_vec());
    assert_eq!(r.read_num_le_u32().unwrap(), expected_le);
}

#[test]
fn decode_agrees_with_from_bytes_i64() {
    let bytes = [0xFFu8, 0x00, 0xAA, 0x55, 0x12, 0x34, 0x56, 0x78];
    let expected_be: i64 = FromBytes::from_be_bytes(&bytes);
    let expected_le: i64 = FromBytes::from_le_bytes(&bytes);
    let mut r = SliceReader::new(bytes.to_vec());
    assert_eq!(r.read_num_be_i64().unwrap(), expected_be);
    let mut r = SliceReader::new(bytes.to_vec());
    assert_eq!(r.read_num_le_i64().unwrap(), expected_le);
}

#[test]
fn decode_agrees_with_from_bytes_ne() {
    let bytes = [0xABu8, 0xCD, 0xEF, 0x42];
    let expected: u32 = FromBytes::from_ne_bytes(&bytes);
    let mut r = SliceReader::new(bytes.to_vec());
    assert_eq!(r.read_num_ne_u32().unwrap(), expected);
}

#[test]
fn encode_agrees_with_to_bytes_u32() {
    for v in [0u32, 1, 1337, 0xABCD_EF42, u32::MAX] {
        let mut w = VecWriter::new();
        w.write_num_be_u32(v).unwrap();
        assert_eq!(w.into_bytes().as_slice(), &v.to_be_bytes());
        let mut w = VecWriter::new();
        w.write_num_le_u32(v).unwrap();
        assert_eq!(w.into_bytes().as_slice(), &v.to_le_bytes());
        let mut w = VecWriter::new();
        w.write_num_ne_u32(v).unwrap();
        assert_eq!(w.into_bytes().as_slice(), &ToBytes::to_ne_bytes(&v));
    }
}

#[test]
fn encode_agrees_with_to_bytes_i128() {
    for v in [0i128, -1, i128::MIN, i128::MAX, -1337] {
        let mut w = VecWriter::new();
        w.write_num_be_i128(v).unwrap();
        assert_eq!(w.into_bytes().as_slice(), &ToBytes::to_be_bytes(&v));
        let mut w = VecWriter::new();
        w.write_num_le_i128(v).unwrap();
        assert_eq!(w.into_bytes().as_slice(), &ToBytes::to_le_bytes(&v));
    }
}

#[test]
fn encode_agrees_with_to_bytes_u16_u64() {
    for v in [0u16, 1, 0x1337, u16::MAX] {
        let mut w = VecWriter::new();
        w.write_num_be_u16(v).unwrap();
        assert_eq!(w.into_bytes().as_slice(), &v.to_be_bytes());
    }
    for v in [0u64, 1, u64::MAX, 0x0123_4567_89AB_CDEF] {
        let mut w = VecWriter::new();
        w.write_num_le_u64(v).unwrap();
        assert_eq!(w.into_bytes().as_slice(), &v.to_le_bytes());
    }
}
