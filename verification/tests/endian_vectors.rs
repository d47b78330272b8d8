//! Concrete endianness vectors: fixed byte blocks and the exact numbers
//! they must decode to, and fixed numbers with the exact bytes they must
//! encode to, in both orders.

use rw_exact_ext::BoundedWriter;
use rw_exact_ext::IoError;
use rw_exact_ext::ReadExactExt;
use rw_exact_ext::SliceReader;
use rw_exact_ext::VecWriter;
use rw_exact_ext::WriteAllExt;

#[test]
fn read_be_u32_vector() {
    let mut r = SliceReader::new(vec![0xABu8, 0xCD, 0xEF, 0x42]);
    assert_eq!(r.read_num_be_u32().unwrap(), 0xABCD_EF42);
}

#[test]
fn read_le_u32_vector() {
    let mut r = SliceReader::new(vec![0xABu8, 0xCD, 0xEF, 0x42]);
    assert_eq!(r.read_num_le_u32().unwrap(), 0x42EF_CDAB);
}

#[test]
fn read_be_i32_vector() {
    let mut r = SliceReader::new(vec![0xABu8, 0xCD, 0xEF, 0x42]);
    assert_eq!(r.read_num_be_i32().unwrap(), -0x5432_10BE);
}

#[test]
fn read_le_i32_vector() {
    let mut r = SliceReader::new(vec![0xABu8, 0xCD, 0xEF, 0x42]);
    assert_eq!(r.read_num_le_i32().unwrap(), 0x42EF_CDAB);
}

#[test]
fn read_be_f32_vector() {
    let mut r = SliceReader::new(vec![0xABu8, 0xCD, 0xEF, 0x42]);
    let f = f32::from_bits(r.read_num_be_u32().unwrap());
    assert_eq!(f, -1.4632533e-12f32);
}

#[test]
fn read_le_f32_vector() {
    let mut r = SliceReader::new(vec![0xABu8, 0xCD, 0xEF, 0x42]);
    let f = f32::from_bits(r.read_num_le_u32().unwrap());
    assert_eq!(f, 119.901695f32);
}

#[test]
fn write_be_u32_vector() {
    let mut w = VecWriter::new();
    w.write_num_be_u32(1337).unwrap();
    assert_eq!(w.into_bytes(), vec![0x00u8, 0x00, 0x05, 0x39]);
}

#[test]
fn write_le_u32_vector() {
    let mut w = VecWriter::new();
    w.write_num_le_u32(1337).unwrap();
    assert_eq!(w.into_bytes(), vec![0x39u8, 0x05, 0x00, 0x00]);
}

#[test]
fn write_be_i32_vector() {
    let mut w = VecWriter::new();
    w.write_num_be_i32(-1337).unwrap();
    assert_eq!(w.into_bytes(), vec![0xFFu8, 0xFF, 0xFA, 0xC7]);
}

#[test]
fn write_le_i32_vector() {
    let mut w = VecWriter::new();
    w.write_num_le_i32(-1337).unwrap();
    assert_eq!(w.into_bytes(), vec![0xC7u8, 0xFA, 0xFF, 0xFF]);
}

#[test]
fn write_be_f32_vector() {
    let mut w = VecWriter::new();
    w.write_num_be_u32(133.7f32.to_bits()).unwrap();
    assert_eq!(w.into_bytes(), vec![0x43u8, 0x05, 0xB3, 0x33]);
}

#[test]
fn write_le_f32_vector() {
    let mut w = VecWriter::new();
    w.write_num_le_u32(133.7f32.to_bits()).unwrap();
    assert_eq!(w.into_bytes(), vec![0x33u8, 0xB3, 0x05, 0x43]);
}

#[test]
fn write_be_u16_u64_vectors() {
    let mut w = VecWriter::new();
    w.write_num_be_u16(0x1234).unwrap();
    assert_eq!(w.into_bytes(), vec![0x12u8, 0x34]);

    let mut w = VecWriter::new();
    w.write_num_be_u64(0x0102_0304_0506_0708).unwrap();
    assert_eq!(
        w.into_bytes(),
        vec![0x01u8, 0x02, 0x03, 0x04, 0x05, 0x06, 0x07, 0x08]
    );
}

#[test]
fn full_sink_refuses_whole_write() {
    let mut w = BoundedWriter::new(2);
    assert_eq!(w.write_num_be_u32(1337), Err(IoError::UnexpectedEnd));
    // The prefix that fit remains accepted, as the underlying primitive
    // left it.
    assert_eq!(w.bytes().as_slice(), &[0x00u8, 0x00]);
}

#[test]
fn bounded_sink_accepts_what_fits() {
    let mut w = BoundedWriter::new(4);
    w.write_num_be_u32(0xABCD_EF42).unwrap();
    assert_eq!(w.into_bytes(), vec![0xABu8, 0xCD, 0xEF, 0x42]);
}
