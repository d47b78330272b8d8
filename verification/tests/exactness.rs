//! Exactness and error propagation: a short source always fails, a
//! sufficient source is consumed exactly, and a source that breaks
//! mid-transfer fails the whole typed read with no partial value.

use rw_exact_ext::FailingReader;
use rw_exact_ext::IoError;
use rw_exact_ext::ReadExactExt;
use rw_exact_ext::SliceReader;

#[test]
fn short_source_always_fails() {
    for len in 0..4usize {
        let data = vec![0x11u8; len];
        let mut r = SliceReader::new(data);
        assert_eq!(r.read_array_exact(4), Err(IoError::UnexpectedEnd));
    }
    let mut r = SliceReader::new(Vec::new());
    assert_eq!(r.read_num_be_u16(), Err(IoError::UnexpectedEnd));
    assert_eq!(r.read_num_le_u64(), Err(IoError::UnexpectedEnd));
    assert_eq!(r.read_bool(), Err(IoError::UnexpectedEnd));
}

#[test]
fn sufficient_source_consumes_exactly() {
    let data = vec![0x01u8, 0x02, 0x03, 0x04, 0x05, 0x06];
    let mut r = SliceReader::new(data);
    let first = r.read_array_exact(4).unwrap();
    assert_eq!(first, vec![0x01u8, 0x02, 0x03, 0x04]);
    assert_eq!(r.remaining(), 2);
    let rest = r.read_array_exact(2).unwrap();
    assert_eq!(rest, vec![0x05u8, 0x06]);
    assert_eq!(r.remaining(), 0);
}

#[test]
fn remainder_is_untouched_for_later_reads() {
    let data = vec![0xAAu8, 0xBB, 0x00, 0x01];
    let mut r = SliceReader::new(data);
    assert_eq!(r.read_num_be_u16().unwrap(), 0xAABB);
    assert_eq!(r.read_num_be_u16().unwrap(), 0x0001);
}

#[test]
fn failing_source_fails_whole_read() {
    // The source holds four bytes but breaks after delivering two: the
    // four-byte read must fail as a whole, yielding no partial value.
    let data = vec![0x01u8, 0x02, 0x03, 0x04];
    let mut r = FailingReader::new(data, 2);
    assert_eq!(r.read_array_exact(4), Err(IoError::Broken));
    assert_eq!(r.read_num_be_u32(), Err(IoError::Broken));
}

#[test]
fn failing_source_delivers_until_the_break() {
    let data = vec![0x01u8, 0x02, 0x03, 0x04];
    let mut r = FailingReader::new(data, 2);
    assert_eq!(r.read_num_be_u16().unwrap(), 0x0102);
    assert_eq!(r.read_num_be_u16(), Err(IoError::Broken));
}

#[test]
fn oversized_request_fails_before_allocating() {
    let mut r = SliceReader::new(vec![1u8, 2, 3]);
    assert_eq!(r.read_vec_exact(usize::MAX), Err(IoError::UnexpectedEnd));
    assert_eq!(r.remaining(), 3);
}

#[test]
fn mixed_typed_reads_consume_in_sequence() {
    let data = vec![0x2Au8, 0x01, 0x00, 0x12, 0x34, 0xAB, 0xCD, 0xEF, 0x42];
    let mut r = SliceReader::new(data);
    assert_eq!(r.read_num_be_u8().unwrap(), 0x2A);
    assert_eq!(r.read_bool().unwrap(), true);
    assert_eq!(r.read_bool().unwrap(), false);
    assert_eq!(r.read_num_be_u16().unwrap(), 0x1234);
    assert_eq!(r.read_num_le_u32().unwrap(), 0x42EF_CDAB);
    assert_eq!(r.remaining(), 0);
}

#[test]
fn array_read_of_zero_bytes_succeeds() {
    let mut r = SliceReader::new(Vec::new());
    assert_eq!(r.read_array_exact(0).unwrap(), Vec::<u8>::new());
    let mut broken = FailingReader::new(vec![0x01u8], 0);
    assert_eq!(broken.read_array_exact(0).unwrap(), Vec::<u8>::new());
}
