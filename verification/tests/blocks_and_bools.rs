//! Boolean mapping over every byte value, and variable-size block reads
//! including the empty block.

use rw_exact_ext::IoError;
use rw_exact_ext::ReadExactExt;
use rw_exact_ext::SliceReader;

#[test]
fn bool_mapping_all_byte_values() {
    let mut r = SliceReader::new(vec![0x00u8]);
    assert_eq!(r.read_bool().unwrap(), false);
    for byte in 1..=0xFFu8 {
        let mut r = SliceReader::new(vec![byte]);
        assert_eq!(r.read_bool().unwrap(), true);
    }
}

#[test]
fn bool_sequence() {
    let mut r = SliceReader::new(vec![0x01u8, 0x00, 0xEF, 0x42]);
    assert!(r.read_bool().unwrap());
    assert!(!r.read_bool().unwrap());
    assert!(r.read_bool().unwrap());
    assert!(r.read_bool().unwrap());
}

#[test]
fn vec_exact_zero_is_empty_and_never_fails() {
    let mut r = SliceReader::new(Vec::new());
    assert_eq!(r.read_vec_exact(0).unwrap(), Vec::<u8>::new());
    let mut r = SliceReader::new(vec![0x55u8]);
    assert_eq!(r.read_vec_exact(0).unwrap(), Vec::<u8>::new());
    assert_eq!(r.remaining(), 1);
}

#[test]
fn vec_exact_yields_first_n_bytes_in_order() {
    let data = vec![0xABu8, 0xCD, 0xEF, 0x42];
    let mut r = SliceReader::new(data.clone());
    assert_eq!(r.read_vec_exact(4).unwrap(), data);

    let mut r = SliceReader::new(vec![9u8, 8, 7, 6, 5]);
    assert_eq!(r.read_vec_exact(3).unwrap(), vec![9u8, 8, 7]);
    assert_eq!(r.remaining(), 2);
}

#[test]
fn vec_exact_short_source_fails() {
    let mut r = SliceReader::new(vec![1u8, 2]);
    assert_eq!(r.read_vec_exact(3), Err(IoError::UnexpectedEnd));
}

#[test]
fn array_exact_reads_whole_block() {
    let bytes = vec![0xABu8, 0xCD, 0xEF, 0x42];
    let mut r = SliceReader::new(bytes.clone());
    let array = r.read_array_exact(4).unwrap();
    assert_eq!(array, bytes);
}
