//! Round-trip coverage: every supported width, every byte order, for
//! representative values including zero, the extremes, minus one, and
//! floating-point bit patterns.

use rw_exact_ext::ReadExactExt;
use rw_exact_ext::SliceReader;
use rw_exact_ext::VecWriter;
use rw_exact_ext::WriteAllExt;

#[test]
fn roundtrip_be_u8() {
    for v in [0u8, 1, 0x7f, 0x80, 0xff] {
        let mut w = VecWriter::new();
        w.write_num_be_u8(v).unwrap();
        let mut r = SliceReader::new(w.into_bytes());
        assert_eq!(r.read_num_be_u8().unwrap(), v);
    }
}

#[test]
fn roundtrip_be_u16() {
    for v in [0u16, 1, 0x1337, u16::MAX] {
        let mut w = VecWriter::new();
        w.write_num_be_u16(v).unwrap();
        let mut r = SliceReader::new(w.into_bytes());
        assert_eq!(r.read_num_be_u16().unwrap(), v);
    }
}

#[test]
fn roundtrip_be_u32() {
    for v in [0u32, 1, 0xabcd_ef42, u32::MAX] {
        let mut w = VecWriter::new();
        w.write_num_be_u32(v).unwrap();
        let mut r = SliceReader::new(w.into_bytes());
        assert_eq!(r.read_num_be_u32().unwrap(), v);
    }
}

#[test]
fn roundtrip_be_u64() {
    for v in [0u64, 1, 0x0123_4567_89ab_cdef, u64::MAX] {
        let mut w = VecWriter::new();
        w.write_num_be_u64(v).unwrap();
        let mut r = SliceReader::new(w.into_bytes());
        assert_eq!(r.read_num_be_u64().unwrap(), v);
    }
}

#[test]
fn roundtrip_be_u128() {
    for v in [0u128, 1, 0x0123_4567_89ab_cdef_0123_4567_89ab_cdef, u128::MAX] {
        let mut w = VecWriter::new();
        w.write_num_be_u128(v).unwrap();
        let mut r = SliceReader::new(w.into_bytes());
        assert_eq!(r.read_num_be_u128().unwrap(), v);
    }
}

#[test]
fn roundtrip_be_signed() {
    for v in [0i8, 1, -1, i8::MIN, i8::MAX] {
        let mut w = VecWriter::new();
        w.write_num_be_i8(v).unwrap();
        let mut r = SliceReader::new(w.into_bytes());
        assert_eq!(r.read_num_be_i8().unwrap(), v);
    }
    for v in [0i16, 1, -1, i16::MIN, i16::MAX] {
        let mut w = VecWriter::new();
        w.write_num_be_i16(v).unwrap();
        let mut r = SliceReader::new(w.into_bytes());
        assert_eq!(r.read_num_be_i16().unwrap(), v);
    }
    for v in [0i32, 1, -1, i32::MIN, i32::MAX] {
        let mut w = VecWriter::new();
        w.write_num_be_i32(v).unwrap();
        let mut r = SliceReader::new(w.into_bytes());
        assert_eq!(r.read_num_be_i32().unwrap(), v);
    }
    for v in [0i64, 1, -1, i64::MIN, i64::MAX] {
        let mut w = VecWriter::new();
        w.write_num_be_i64(v).unwrap();
        let mut r = SliceReader::new(w.into_bytes());
        assert_eq!(r.read_num_be_i64().unwrap(), v);
    }
    for v in [0i128, 1, -1, i128::MIN, i128::MAX] {
        let mut w = VecWriter::new();
        w.write_num_be_i128(v).unwrap();
        let mut r = SliceReader::new(w.into_bytes());
        assert_eq!(r.read_num_be_i128().unwrap(), v);
    }
}

#[test]
fn roundtrip_le_unsigned() {
    for v in [0u8, 1, 0x7f, 0x80, 0xff] {
        let mut w = VecWriter::new();
        w.write_num_le_u8(v).unwrap();
        let mut r = SliceReader::new(w.into_bytes());
        assert_eq!(r.read_num_le_u8().unwrap(), v);
    }
    for v in [0u16, 1, 0x1337, u16::MAX] {
        let mut w = VecWriter::new();
        w.write_num_le_u16(v).unwrap();
        let mut r = SliceReader::new(w.into_bytes());
        assert_eq!(r.read_num_le_u16().unwrap(), v);
    }
    for v in [0u32, 1, 0xabcd_ef42, u32::MAX] {
        let mut w = VecWriter::new();
        w.write_num_le_u32(v).unwrap();
        let mut r = SliceReader::new(w.into_bytes());
        assert_eq!(r.read_num_le_u32().unwrap(), v);
    }
    for v in [0u64, 1, 0x0123_4567_89ab_cdef, u64::MAX] {
        let mut w = VecWriter::new();
        w.write_num_le_u64(v).unwrap();
        let mut r = SliceReader::new(w.into_bytes());
        assert_eq!(r.read_num_le_u64().unwrap(), v);
    }
    for v in [0u128, 1, 0x0123_4567_89ab_cdef_0123_4567_89ab_cdef, u128::MAX] {
        let mut w = VecWriter::new();
        w.write_num_le_u128(v).unwrap();
        let mut r = SliceReader::new(w.into_bytes());
        assert_eq!(r.read_num_le_u128().unwrap(), v);
    }
}

#[test]
fn roundtrip_le_signed() {
    for v in [0i8, 1, -1, i8::MIN, i8::MAX] {
        let mut w = VecWriter::new();
        w.write_num_le_i8(v).unwrap();
        let mut r = SliceReader::new(w.into_bytes());
        assert_eq!(r.read_num_le_i8().unwrap(), v);
    }
    for v in [0i16, 1, -1, i16::MIN, i16::MAX] {
        let mut w = VecWriter::new();
        w.write_num_le_i16(v).unwrap();
        let mut r = SliceReader::new(w.into_bytes());
        assert_eq!(r.read_num_le_i16().unwrap(), v);
    }
    for v in [0i32, 1, -1, i32::MIN, i32::MAX] {
        let mut w = VecWriter::new();
        w.write_num_le_i32(v).unwrap();
        let mut r = SliceReader::new(w.into_bytes());
        assert_eq!(r.read_num_le_i32().unwrap(), v);
    }
    for v in [0i64, 1, -1, i64::MIN, i64::MAX] {
        let mut w = VecWriter::new();
        w.write_num_le_i64(v).unwrap();
        let mut r = SliceReader::new(w.into_bytes());
        assert_eq!(r.read_num_le_i64().unwrap(), v);
    }
    for v in [0i128, 1, -1, i128::MIN, i128::MAX] {
        let mut w = VecWriter::new();
        w.write_num_le_i128(v).unwrap();
        let mut r = SliceReader::new(w.into_bytes());
        assert_eq!(r.read_num_le_i128().unwrap(), v);
    }
}

#[test]
fn roundtrip_ne_self_consistent() {
    for v in [0u16, 1, 0x1337, u16::MAX] {
        let mut w = VecWriter::new();
        w.write_num_ne_u16(v).unwrap();
        let mut r = SliceReader::new(w.into_bytes());
        assert_eq!(r.read_num_ne_u16().unwrap(), v);
    }
    for v in [0u32, 1, 0xabcd_ef42, u32::MAX] {
        let mut w = VecWriter::new();
        w.write_num_ne_u32(v).unwrap();
        let mut r = SliceReader::new(w.into_bytes());
        assert_eq!(r.read_num_ne_u32().unwrap(), v);
    }
    for v in [0u64, 1, 0x0123_4567_89ab_cdef, u64::MAX] {
        let mut w = VecWriter::new();
        w.write_num_ne_u64(v).unwrap();
        let mut r = SliceReader::new(w.into_bytes());
        assert_eq!(r.read_num_ne_u64().unwrap(), v);
    }
    for v in [0u128, 1, u128::MAX - 7] {
        let mut w = VecWriter::new();
        w.write_num_ne_u128(v).unwrap();
        let mut r = SliceReader::new(w.into_bytes());
        assert_eq!(r.read_num_ne_u128().unwrap(), v);
    }
    for v in [0i8, -1, i8::MIN] {
        let mut w = VecWriter::new();
        w.write_num_ne_i8(v).unwrap();
        let mut r = SliceReader::new(w.into_bytes());
        assert_eq!(r.read_num_ne_i8().unwrap(), v);
    }
    for v in [0i16, -1, i16::MIN, i16::MAX] {
        let mut w = VecWriter::new();
        w.write_num_ne_i16(v).unwrap();
        let mut r = SliceReader::new(w.into_bytes());
        assert_eq!(r.read_num_ne_i16().unwrap(), v);
    }
    for v in [0i32, -1, i32::MIN, i32::MAX] {
        let mut w = VecWriter::new();
        w.write_num_ne_i32(v).unwrap();
        let mut r = SliceReader::new(w.into_bytes());
        assert_eq!(r.read_num_ne_i32().unwrap(), v);
    }
    for v in [0i64, -1, i64::MIN, i64::MAX] {
        let mut w = VecWriter::new();
        w.write_num_ne_i64(v).unwrap();
        let mut r = SliceReader::new(w.into_bytes());
        assert_eq!(r.read_num_ne_i64().unwrap(), v);
    }
    for v in [0i128, -1, i128::MIN, i128::MAX] {
        let mut w = VecWriter::new();
        w.write_num_ne_i128(v).unwrap();
        let mut r = SliceReader::new(w.into_bytes());
        assert_eq!(r.read_num_ne_i128().unwrap(), v);
    }
}

#[test]
fn ne_matches_be_or_le() {
    let bytes = vec![0xABu8, 0xCD, 0xEF, 0x42];
    let mut r = SliceReader::new(bytes);
    let v = r.read_num_ne_u32().unwrap();
    assert!(v == 0xABCD_EF42 || v == 0x42EF_CDAB);
}

#[test]
fn roundtrip_float_bit_patterns() {
    for f in [
        0.0f32,
        -0.0f32,
        133.7f32,
        f32::NAN,
        f32::INFINITY,
        f32::NEG_INFINITY,
        f32::from_bits(1),
        f32::MIN,
        f32::MAX,
    ] {
        let mut w = VecWriter::new();
        w.write_num_be_u32(f.to_bits()).unwrap();
        let mut r = SliceReader::new(w.into_bytes());
        assert_eq!(r.read_num_be_u32().unwrap(), f.to_bits());

        let mut w = VecWriter::new();
        w.write_num_le_u32(f.to_bits()).unwrap();
        let mut r = SliceReader::new(w.into_bytes());
        assert_eq!(r.read_num_le_u32().unwrap(), f.to_bits());
    }
    for f in [
        0.0f64,
        -0.0f64,
        133.7f64,
        f64::NAN,
        f64::INFINITY,
        f64::NEG_INFINITY,
        f64::from_bits(1),
        f64::MIN,
        f64::MAX,
    ] {
        let mut w = VecWriter::new();
        w.write_num_be_u64(f.to_bits()).unwrap();
        let mut r = SliceReader::new(w.into_bytes());
        assert_eq!(r.read_num_be_u64().unwrap(), f.to_bits());

        let mut w = VecWriter::new();
        w.write_num_le_u64(f.to_bits()).unwrap();
        let mut r = SliceReader::new(w.into_bytes());
        assert_eq!(r.read_num_le_u64().unwrap(), f.to_bits());
    }
}
