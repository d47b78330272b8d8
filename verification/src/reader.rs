//! Typed exact reads over any byte source: fixed-size blocks, booleans,
//! variable-size blocks, and fixed-width integers in big-, little- or native
//! byte order.  Every operation is built on the single primitive "read
//! exactly `n` bytes or fail", so a caller never observes a partial value.

use vstd::prelude::*;
use crate::endian::be_val;
use crate::endian::decode_be;
use crate::endian::decode_le;
use crate::endian::le_val;
use crate::endian::lemma_be_val_bound;
use crate::endian::lemma_le_val_bound;
use crate::endian::lemma_pow256_mono;
use crate::endian::lemma_pow256_widths;
use crate::endian::signed128;
use crate::endian::signed16;
use crate::endian::signed32;
use crate::endian::signed64;
use crate::endian::signed8;
use crate::endian::u128_to_i128;
use crate::endian::u16_to_i16;
use crate::endian::u32_to_i32;
use crate::endian::u64_to_i64;
use crate::endian::u8_to_i8;
use crate::native::u128_from_ne;
use crate::native::u16_from_ne;
use crate::native::u32_from_ne;
use crate::native::u64_from_ne;
use crate::stream::ByteSource;
use crate::stream::IoError;

verus! {

/// Exact typed reads, available on every byte source.
pub trait ReadExactExt: ByteSource {
    /// Reads a byte block whose size is fixed by the caller.
    ///
    /// On success the block holds exactly the next `size` available bytes
    /// and only those are consumed; the error of the underlying source is
    /// handed through unchanged.
    fn read_array_exact(&mut self, size: usize) -> (r: Result<Vec<u8>, IoError>)
        ensures
            final(self).reliable() == old(self).reliable(),
            (match r {
                Ok(bytes) => {
                    &&& size <= old(self).avail().len()
                    &&& bytes@ == old(self).avail().take(size as int)
                    &&& final(self).avail() == old(self).avail().skip(size as int)
                },
                Err(_) => true,
            }),
            size > old(self).avail().len() ==> r is Err,
            size == 0 ==> r is Ok,
            old(self).reliable() && size <= old(self).avail().len() ==> r is Ok,
    {
        self.read_exact(size)
    }

    /// Reads one byte and interprets it as a boolean: `0x00` is `false`,
    /// every other byte value is `true`.
    fn read_bool(&mut self) -> (r: Result<bool, IoError>)
        ensures
            final(self).reliable() == old(self).reliable(),
            (match r {
                Ok(b) => {
                    &&& 1 <= old(self).avail().len()
                    &&& b == (old(self).avail()[0] != 0)
                    &&& final(self).avail() == old(self).avail().skip(1)
                },
                Err(_) => true,
            }),
            old(self).avail().len() == 0 ==> r is Err,
            old(self).reliable() && old(self).avail().len() >= 1 ==> r is Ok,
    {
        match self.read_exact(1) {
            Ok(bytes) => Ok(bytes[0] != 0),
            Err(e) => Err(e),
        }
    }

    /// Reads a byte block whose size is chosen at run time; a size of zero
    /// yields an empty block and never fails.
    fn read_vec_exact(&mut self, size: usize) -> (r: Result<Vec<u8>, IoError>)
        ensures
            final(self).reliable() == old(self).reliable(),
            (match r {
                Ok(bytes) => {
                    &&& size <= old(self).avail().len()
                    &&& bytes@ == old(self).avail().take(size as int)
                    &&& final(self).avail() == old(self).avail().skip(size as int)
                },
                Err(_) => true,
            }),
            size > old(self).avail().len() ==> r is Err,
            size == 0 ==> r is Ok,
            old(self).reliable() && size <= old(self).avail().len() ==> r is Ok,
    {
        self.read_exact(size)
    }

    /// Reads one byte as an unsigned integer; byte order does not matter
    /// for a single byte.
    fn read_num_be_u8(&mut self) -> (r: Result<u8, IoError>)
        ensures
            final(self).reliable() == old(self).reliable(),
            (match r {
                Ok(v) => {
                    &&& 1 <= old(self).avail().len()
                    &&& v == old(self).avail()[0]
                    &&& final(self).avail() == old(self).avail().skip(1)
                },
                Err(_) => true,
            }),
            old(self).avail().len() < 1 ==> r is Err,
            old(self).reliable() && old(self).avail().len() >= 1 ==> r is Ok,
    {
        match self.read_exact(1) {
            Ok(bytes) => Ok(bytes[0]),
            Err(e) => Err(e),
        }
    }

    /// Reads 2 bytes as a big-endian unsigned integer.
    fn read_num_be_u16(&mut self) -> (r: Result<u16, IoError>)
        ensures
            final(self).reliable() == old(self).reliable(),
            (match r {
                Ok(v) => {
                    &&& 2 <= old(self).avail().len()
                    &&& v == be_val(old(self).avail().take(2))
                    &&& final(self).avail() == old(self).avail().skip(2)
                },
                Err(_) => true,
            }),
            old(self).avail().len() < 2 ==> r is Err,
            old(self).reliable() && old(self).avail().len() >= 2 ==> r is Ok,
    {
        match self.read_exact(2) {
            Ok(bytes) => {
                proof {
                    lemma_be_val_bound(bytes@);
                    lemma_pow256_mono(2, 15);
                    lemma_pow256_widths();
                }
                let wide: u128 = decode_be(&bytes);
                Ok(wide as u16)
            },
            Err(e) => Err(e),
        }
    }

    /// Reads 4 bytes as a big-endian unsigned integer.
    fn read_num_be_u32(&mut self) -> (r: Result<u32, IoError>)
        ensures
            final(self).reliable() == old(self).reliable(),
            (match r {
                Ok(v) => {
                    &&& 4 <= old(self).avail().len()
                    &&& v == be_val(old(self).avail().take(4))
                    &&& final(self).avail() == old(self).avail().skip(4)
                },
                Err(_) => true,
            }),
            old(self).avail().len() < 4 ==> r is Err,
            old(self).reliable() && old(self).avail().len() >= 4 ==> r is Ok,
    {
        match self.read_exact(4) {
            Ok(bytes) => {
                proof {
                    lemma_be_val_bound(bytes@);
                    lemma_pow256_mono(4, 15);
                    lemma_pow256_widths();
                }
                let wide: u128 = decode_be(&bytes);
                Ok(wide as u32)
            },
            Err(e) => Err(e),
        }
    }

    /// Reads 8 bytes as a big-endian unsigned integer.
    fn read_num_be_u64(&mut self) -> (r: Result<u64, IoError>)
        ensures
            final(self).reliable() == old(self).reliable(),
            (match r {
                Ok(v) => {
                    &&& 8 <= old(self).avail().len()
                    &&& v == be_val(old(self).avail().take(8))
                    &&& final(self).avail() == old(self).avail().skip(8)
                },
                Err(_) => true,
            }),
            old(self).avail().len() < 8 ==> r is Err,
            old(self).reliable() && old(self).avail().len() >= 8 ==> r is Ok,
    {
        match self.read_exact(8) {
            Ok(bytes) => {
                proof {
                    lemma_be_val_bound(bytes@);
                    lemma_pow256_mono(8, 15);
                    lemma_pow256_widths();
                }
                let wide: u128 = decode_be(&bytes);
                Ok(wide as u64)
            },
            Err(e) => Err(e),
        }
    }

    /// Reads 16 bytes as a big-endian unsigned integer.
    fn read_num_be_u128(&mut self) -> (r: Result<u128, IoError>)
        ensures
            final(self).reliable() == old(self).reliable(),
            (match r {
                Ok(v) => {
                    &&& 16 <= old(self).avail().len()
                    &&& v == be_val(old(self).avail().take(16))
                    &&& final(self).avail() == old(self).avail().skip(16)
                },
                Err(_) => true,
            }),
            old(self).avail().len() < 16 ==> r is Err,
            old(self).reliable() && old(self).avail().len() >= 16 ==> r is Ok,
    {
        match self.read_exact(16) {
            Ok(bytes) => {
                let wide: u128 = decode_be(&bytes);
                Ok(wide)
            },
            Err(e) => Err(e),
        }
    }

    /// Reads one byte as a signed integer in two's complement; byte order
    /// does not matter for a single byte.
    fn read_num_be_i8(&mut self) -> (r: Result<i8, IoError>)
        ensures
            final(self).reliable() == old(self).reliable(),
            (match r {
                Ok(v) => {
                    &&& 1 <= old(self).avail().len()
                    &&& v as int == signed8(old(self).avail()[0] as nat)
                    &&& final(self).avail() == old(self).avail().skip(1)
                },
                Err(_) => true,
            }),
            old(self).avail().len() < 1 ==> r is Err,
            old(self).reliable() && old(self).avail().len() >= 1 ==> r is Ok,
    {
        match self.read_exact(1) {
            Ok(bytes) => Ok(u8_to_i8(bytes[0])),
            Err(e) => Err(e),
        }
    }

    /// Reads 2 bytes as a big-endian signed integer in two's complement.
    fn read_num_be_i16(&mut self) -> (r: Result<i16, IoError>)
        ensures
            final(self).reliable() == old(self).reliable(),
            (match r {
                Ok(v) => {
                    &&& 2 <= old(self).avail().len()
                    &&& v as int == signed16(be_val(old(self).avail().take(2)))
                    &&& final(self).avail() == old(self).avail().skip(2)
                },
                Err(_) => true,
            }),
            old(self).avail().len() < 2 ==> r is Err,
            old(self).reliable() && old(self).avail().len() >= 2 ==> r is Ok,
    {
        match self.read_exact(2) {
            Ok(bytes) => {
                proof {
                    lemma_be_val_bound(bytes@);
                    lemma_pow256_mono(2, 15);
                    lemma_pow256_widths();
                }
                let wide: u128 = decode_be(&bytes);
                Ok(u16_to_i16(wide as u16))
            },
            Err(e) => Err(e),
        }
    }

    /// Reads 4 bytes as a big-endian signed integer in two's complement.
    fn read_num_be_i32(&mut self) -> (r: Result<i32, IoError>)
        ensures
            final(self).reliable() == old(self).reliable(),
            (match r {
                Ok(v) => {
                    &&& 4 <= old(self).avail().len()
                    &&& v as int == signed32(be_val(old(self).avail().take(4)))
                    &&& final(self).avail() == old(self).avail().skip(4)
                },
                Err(_) => true,
            }),
            old(self).avail().len() < 4 ==> r is Err,
            old(self).reliable() && old(self).avail().len() >= 4 ==> r is Ok,
    {
        match self.read_exact(4) {
            Ok(bytes) => {
                proof {
                    lemma_be_val_bound(bytes@);
                    lemma_pow256_mono(4, 15);
                    lemma_pow256_widths();
                }
                let wide: u128 = decode_be(&bytes);
                Ok(u32_to_i32(wide as u32))
            },
            Err(e) => Err(e),
        }
    }

    /// Reads 8 bytes as a big-endian signed integer in two's complement.
    fn read_num_be_i64(&mut self) -> (r: Result<i64, IoError>)
        ensures
            final(self).reliable() == old(self).reliable(),
            (match r {
                Ok(v) => {
                    &&& 8 <= old(self).avail().len()
                    &&& v as int == signed64(be_val(old(self).avail().take(8)))
                    &&& final(self).avail() == old(self).avail().skip(8)
                },
                Err(_) => true,
            }),
            old(self).avail().len() < 8 ==> r is Err,
            old(self).reliable() && old(self).avail().len() >= 8 ==> r is Ok,
    {
        match self.read_exact(8) {
            Ok(bytes) => {
                proof {
                    lemma_be_val_bound(bytes@);
                    lemma_pow256_mono(8, 15);
                    lemma_pow256_widths();
                }
                let wide: u128 = decode_be(&bytes);
                Ok(u64_to_i64(wide as u64))
            },
            Err(e) => Err(e),
        }
    }

    /// Reads 16 bytes as a big-endian signed integer in two's complement.
    fn read_num_be_i128(&mut self) -> (r: Result<i128, IoError>)
        ensures
            final(self).reliable() == old(self).reliable(),
            (match r {
                Ok(v) => {
                    &&& 16 <= old(self).avail().len()
                    &&& v as int == signed128(be_val(old(self).avail().take(16)))
                    &&& final(self).avail() == old(self).avail().skip(16)
                },
                Err(_) => true,
            }),
            old(self).avail().len() < 16 ==> r is Err,
            old(self).reliable() && old(self).avail().len() >= 16 ==> r is Ok,
    {
        match self.read_exact(16) {
            Ok(bytes) => {
                let wide: u128 = decode_be(&bytes);
                Ok(u128_to_i128(wide))
            },
            Err(e) => Err(e),
        }
    }

    /// Reads one byte as an unsigned integer; byte order does not matter
    /// for a single byte.
    fn read_num_le_u8(&mut self) -> (r: Result<u8, IoError>)
        ensures
            final(self).reliable() == old(self).reliable(),
            (match r {
                Ok(v) => {
                    &&& 1 <= old(self).avail().len()
                    &&& v == old(self).avail()[0]
                    &&& final(self).avail() == old(self).avail().skip(1)
                },
                Err(_) => true,
            }),
            old(self).avail().len() < 1 ==> r is Err,
            old(self).reliable() && old(self).avail().len() >= 1 ==> r is Ok,
    {
        match self.read_exact(1) {
            Ok(bytes) => Ok(bytes[0]),
            Err(e) => Err(e),
        }
    }

    /// Reads 2 bytes as a little-endian unsigned integer.
    fn read_num_le_u16(&mut self) -> (r: Result<u16, IoError>)
        ensures
            final(self).reliable() == old(self).reliable(),
            (match r {
                Ok(v) => {
                    &&& 2 <= old(self).avail().len()
                    &&& v == le_val(old(self).avail().take(2))
                    &&& final(self).avail() == old(self).avail().skip(2)
                },
                Err(_) => true,
            }),
            old(self).avail().len() < 2 ==> r is Err,
            old(self).reliable() && old(self).avail().len() >= 2 ==> r is Ok,
    {
        match self.read_exact(2) {
            Ok(bytes) => {
                proof {
                    lemma_le_val_bound(bytes@);
                    lemma_pow256_mono(2, 15);
                    lemma_pow256_widths();
                }
                let wide: u128 = decode_le(&bytes);
                Ok(wide as u16)
            },
            Err(e) => Err(e),
        }
    }

    /// Reads 4 bytes as a little-endian unsigned integer.
    fn read_num_le_u32(&mut self) -> (r: Result<u32, IoError>)
        ensures
            final(self).reliable() == old(self).reliable(),
            (match r {
                Ok(v) => {
                    &&& 4 <= old(self).avail().len()
                    &&& v == le_val(old(self).avail().take(4))
                    &&& final(self).avail() == old(self).avail().skip(4)
                },
                Err(_) => true,
            }),
            old(self).avail().len() < 4 ==> r is Err,
            old(self).reliable() && old(self).avail().len() >= 4 ==> r is Ok,
    {
        match self.read_exact(4) {
            Ok(bytes) => {
                proof {
                    lemma_le_val_bound(bytes@);
                    lemma_pow256_mono(4, 15);
                    lemma_pow256_widths();
                }
                let wide: u128 = decode_le(&bytes);
                Ok(wide as u32)
            },
            Err(e) => Err(e),
        }
    }

    /// Reads 8 bytes as a little-endian unsigned integer.
    fn read_num_le_u64(&mut self) -> (r: Result<u64, IoError>)
        ensures
            final(self).reliable() == old(self).reliable(),
            (match r {
                Ok(v) => {
                    &&& 8 <= old(self).avail().len()
                    &&& v == le_val(old(self).avail().take(8))
                    &&& final(self).avail() == old(self).avail().skip(8)
                },
                Err(_) => true,
            }),
            old(self).avail().len() < 8 ==> r is Err,
            old(self).reliable() && old(self).avail().len() >= 8 ==> r is Ok,
    {
        match self.read_exact(8) {
            Ok(bytes) => {
                proof {
                    lemma_le_val_bound(bytes@);
                    lemma_pow256_mono(8, 15);
                    lemma_pow256_widths();
                }
                let wide: u128 = decode_le(&bytes);
                Ok(wide as u64)
            },
            Err(e) => Err(e),
        }
    }

    /// Reads 16 bytes as a little-endian unsigned integer.
    fn read_num_le_u128(&mut self) -> (r: Result<u128, IoError>)
        ensures
            final(self).reliable() == old(self).reliable(),
            (match r {
                Ok(v) => {
                    &&& 16 <= old(self).avail().len()
                    &&& v == le_val(old(self).avail().take(16))
                    &&& final(self).avail() == old(self).avail().skip(16)
                },
                Err(_) => true,
            }),
            old(self).avail().len() < 16 ==> r is Err,
            old(self).reliable() && old(self).avail().len() >= 16 ==> r is Ok,
    {
        match self.read_exact(16) {
            Ok(bytes) => {
                let wide: u128 = decode_le(&bytes);
                Ok(wide)
            },
            Err(e) => Err(e),
        }
    }

    /// Reads one byte as a signed integer in two's complement; byte order
    /// does not matter for a single byte.
    fn read_num_le_i8(&mut self) -> (r: Result<i8, IoError>)
        ensures
            final(self).reliable() == old(self).reliable(),
            (match r {
                Ok(v) => {
                    &&& 1 <= old(self).avail().len()
                    &&& v as int == signed8(old(self).avail()[0] as nat)
                    &&& final(self).avail() == old(self).avail().skip(1)
                },
                Err(_) => true,
            }),
            old(self).avail().len() < 1 ==> r is Err,
            old(self).reliable() && old(self).avail().len() >= 1 ==> r is Ok,
    {
        match self.read_exact(1) {
            Ok(bytes) => Ok(u8_to_i8(bytes[0])),
            Err(e) => Err(e),
        }
    }

    /// Reads 2 bytes as a little-endian signed integer in two's complement.
    fn read_num_le_i16(&mut self) -> (r: Result<i16, IoError>)
        ensures
            final(self).reliable() == old(self).reliable(),
            (match r {
                Ok(v) => {
                    &&& 2 <= old(self).avail().len()
                    &&& v as int == signed16(le_val(old(self).avail().take(2)))
                    &&& final(self).avail() == old(self).avail().skip(2)
                },
                Err(_) => true,
            }),
            old(self).avail().len() < 2 ==> r is Err,
            old(self).reliable() && old(self).avail().len() >= 2 ==> r is Ok,
    {
        match self.read_exact(2) {
            Ok(bytes) => {
                proof {
                    lemma_le_val_bound(bytes@);
                    lemma_pow256_mono(2, 15);
                    lemma_pow256_widths();
                }
                let wide: u128 = decode_le(&bytes);
                Ok(u16_to_i16(wide as u16))
            },
            Err(e) => Err(e),
        }
    }

    /// Reads 4 bytes as a little-endian signed integer in two's complement.
    fn read_num_le_i32(&mut self) -> (r: Result<i32, IoError>)
        ensures
            final(self).reliable() == old(self).reliable(),
            (match r {
                Ok(v) => {
                    &&& 4 <= old(self).avail().len()
                    &&& v as int == signed32(le_val(old(self).avail().take(4)))
                    &&& final(self).avail() == old(self).avail().skip(4)
                },
                Err(_) => true,
            }),
            old(self).avail().len() < 4 ==> r is Err,
            old(self).reliable() && old(self).avail().len() >= 4 ==> r is Ok,
    {
        match self.read_exact(4) {
            Ok(bytes) => {
                proof {
                    lemma_le_val_bound(bytes@);
                    lemma_pow256_mono(4, 15);
                    lemma_pow256_widths();
                }
                let wide: u128 = decode_le(&bytes);
                Ok(u32_to_i32(wide as u32))
            },
            Err(e) => Err(e),
        }
    }

    /// Reads 8 bytes as a little-endian signed integer in two's complement.
    fn read_num_le_i64(&mut self) -> (r: Result<i64, IoError>)
        ensures
            final(self).reliable() == old(self).reliable(),
            (match r {
                Ok(v) => {
                    &&& 8 <= old(self).avail().len()
                    &&& v as int == signed64(le_val(old(self).avail().take(8)))
                    &&& final(self).avail() == old(self).avail().skip(8)
                },
                Err(_) => true,
            }),
            old(self).avail().len() < 8 ==> r is Err,
            old(self).reliable() && old(self).avail().len() >= 8 ==> r is Ok,
    {
        match self.read_exact(8) {
            Ok(bytes) => {
                proof {
                    lemma_le_val_bound(bytes@);
                    lemma_pow256_mono(8, 15);
                    lemma_pow256_widths();
                }
                let wide: u128 = decode_le(&bytes);
                Ok(u64_to_i64(wide as u64))
            },
            Err(e) => Err(e),
        }
    }

    /// Reads 16 bytes as a little-endian signed integer in two's complement.
    fn read_num_le_i128(&mut self) -> (r: Result<i128, IoError>)
        ensures
            final(self).reliable() == old(self).reliable(),
            (match r {
                Ok(v) => {
                    &&& 16 <= old(self).avail().len()
                    &&& v as int == signed128(le_val(old(self).avail().take(16)))
                    &&& final(self).avail() == old(self).avail().skip(16)
                },
                Err(_) => true,
            }),
            old(self).avail().len() < 16 ==> r is Err,
            old(self).reliable() && old(self).avail().len() >= 16 ==> r is Ok,
    {
        match self.read_exact(16) {
            Ok(bytes) => {
                let wide: u128 = decode_le(&bytes);
                Ok(u128_to_i128(wide))
            },
            Err(e) => Err(e),
        }
    }
    /// Reads one byte as an unsigned integer in the platform's native byte
    /// order; byte order does not matter for a single byte.
    fn read_num_ne_u8(&mut self) -> (r: Result<u8, IoError>)
        ensures
            final(self).reliable() == old(self).reliable(),
            (match r {
                Ok(v) => {
                    &&& 1 <= old(self).avail().len()
                    &&& v == old(self).avail()[0]
                    &&& final(self).avail() == old(self).avail().skip(1)
                },
                Err(_) => true,
            }),
            old(self).avail().len() < 1 ==> r is Err,
            old(self).reliable() && old(self).avail().len() >= 1 ==> r is Ok,
    {
        match self.read_exact(1) {
            Ok(bytes) => Ok(bytes[0]),
            Err(e) => Err(e),
        }
    }

    /// Reads 2 bytes as an unsigned integer in the platform's native
    /// byte order, which is either big- or little-endian.
    fn read_num_ne_u16(&mut self) -> (r: Result<u16, IoError>)
        ensures
            final(self).reliable() == old(self).reliable(),
            (match r {
                Ok(v) => {
                    &&& 2 <= old(self).avail().len()
                    &&& (v == be_val(old(self).avail().take(2)) || v == le_val(
                        old(self).avail().take(2),
                    ))
                    &&& final(self).avail() == old(self).avail().skip(2)
                },
                Err(_) => true,
            }),
            old(self).avail().len() < 2 ==> r is Err,
            old(self).reliable() && old(self).avail().len() >= 2 ==> r is Ok,
    {
        match self.read_exact(2) {
            Ok(bytes) => Ok(u16_from_ne(&bytes)),
            Err(e) => Err(e),
        }
    }

    /// Reads 4 bytes as an unsigned integer in the platform's native
    /// byte order, which is either big- or little-endian.
    fn read_num_ne_u32(&mut self) -> (r: Result<u32, IoError>)
        ensures
            final(self).reliable() == old(self).reliable(),
            (match r {
                Ok(v) => {
                    &&& 4 <= old(self).avail().len()
                    &&& (v == be_val(old(self).avail().take(4)) || v == le_val(
                        old(self).avail().take(4),
                    ))
                    &&& final(self).avail() == old(self).avail().skip(4)
                },
                Err(_) => true,
            }),
            old(self).avail().len() < 4 ==> r is Err,
            old(self).reliable() && old(self).avail().len() >= 4 ==> r is Ok,
    {
        match self.read_exact(4) {
            Ok(bytes) => Ok(u32_from_ne(&bytes)),
            Err(e) => Err(e),
        }
    }

    /// Reads 8 bytes as an unsigned integer in the platform's native
    /// byte order, which is either big- or little-endian.
    fn read_num_ne_u64(&mut self) -> (r: Result<u64, IoError>)
        ensures
            final(self).reliable() == old(self).reliable(),
            (match r {
                Ok(v) => {
                    &&& 8 <= old(self).avail().len()
                    &&& (v == be_val(old(self).avail().take(8)) || v == le_val(
                        old(self).avail().take(8),
                    ))
                    &&& final(self).avail() == old(self).avail().skip(8)
                },
                Err(_) => true,
            }),
            old(self).avail().len() < 8 ==> r is Err,
            old(self).reliable() && old(self).avail().len() >= 8 ==> r is Ok,
    {
        match self.read_exact(8) {
            Ok(bytes) => Ok(u64_from_ne(&bytes)),
            Err(e) => Err(e),
        }
    }

    /// Reads 16 bytes as an unsigned integer in the platform's native
    /// byte order, which is either big- or little-endian.
    fn read_num_ne_u128(&mut self) -> (r: Result<u128, IoError>)
        ensures
            final(self).reliable() == old(self).reliable(),
            (match r {
                Ok(v) => {
                    &&& 16 <= old(self).avail().len()
                    &&& (v == be_val(old(self).avail().take(16)) || v == le_val(
                        old(self).avail().take(16),
                    ))
                    &&& final(self).avail() == old(self).avail().skip(16)
                },
                Err(_) => true,
            }),
            old(self).avail().len() < 16 ==> r is Err,
            old(self).reliable() && old(self).avail().len() >= 16 ==> r is Ok,
    {
        match self.read_exact(16) {
            Ok(bytes) => Ok(u128_from_ne(&bytes)),
            Err(e) => Err(e),
        }
    }

    /// Reads one byte as a signed integer in two's complement; byte order
    /// does not matter for a single byte.
    fn read_num_ne_i8(&mut self) -> (r: Result<i8, IoError>)
        ensures
            final(self).reliable() == old(self).reliable(),
            (match r {
                Ok(v) => {
                    &&& 1 <= old(self).avail().len()
                    &&& v as int == signed8(old(self).avail()[0] as nat)
                    &&& final(self).avail() == old(self).avail().skip(1)
                },
                Err(_) => true,
            }),
            old(self).avail().len() < 1 ==> r is Err,
            old(self).reliable() && old(self).avail().len() >= 1 ==> r is Ok,
    {
        match self.read_exact(1) {
            Ok(bytes) => Ok(u8_to_i8(bytes[0])),
            Err(e) => Err(e),
        }
    }

    /// Reads 2 bytes as a signed two's-complement integer in the
    /// platform's native byte order, which is either big- or little-endian.
    fn read_num_ne_i16(&mut self) -> (r: Result<i16, IoError>)
        ensures
            final(self).reliable() == old(self).reliable(),
            (match r {
                Ok(v) => {
                    &&& 2 <= old(self).avail().len()
                    &&& (v as int == signed16(be_val(old(self).avail().take(2))) || v as int
                        == signed16(le_val(old(self).avail().take(2))))
                    &&& final(self).avail() == old(self).avail().skip(2)
                },
                Err(_) => true,
            }),
            old(self).avail().len() < 2 ==> r is Err,
            old(self).reliable() && old(self).avail().len() >= 2 ==> r is Ok,
    {
        match self.read_exact(2) {
            Ok(bytes) => {
                let u: u16 = u16_from_ne(&bytes);
                Ok(u16_to_i16(u))
            },
            Err(e) => Err(e),
        }
    }

    /// Reads 4 bytes as a signed two's-complement integer in the
    /// platform's native byte order, which is either big- or little-endian.
    fn read_num_ne_i32(&mut self) -> (r: Result<i32, IoError>)
        ensures
            final(self).reliable() == old(self).reliable(),
            (match r {
                Ok(v) => {
                    &&& 4 <= old(self).avail().len()
                    &&& (v as int == signed32(be_val(old(self).avail().take(4))) || v as int
                        == signed32(le_val(old(self).avail().take(4))))
                    &&& final(self).avail() == old(self).avail().skip(4)
                },
                Err(_) => true,
            }),
            old(self).avail().len() < 4 ==> r is Err,
            old(self).reliable() && old(self).avail().len() >= 4 ==> r is Ok,
    {
        match self.read_exact(4) {
            Ok(bytes) => {
                let u: u32 = u32_from_ne(&bytes);
                Ok(u32_to_i32(u))
            },
            Err(e) => Err(e),
        }
    }

    /// Reads 8 bytes as a signed two's-complement integer in the
    /// platform's native byte order, which is either big- or little-endian.
    fn read_num_ne_i64(&mut self) -> (r: Result<i64, IoError>)
        ensures
            final(self).reliable() == old(self).reliable(),
            (match r {
                Ok(v) => {
                    &&& 8 <= old(self).avail().len()
                    &&& (v as int == signed64(be_val(old(self).avail().take(8))) || v as int
                        == signed64(le_val(old(self).avail().take(8))))
                    &&& final(self).avail() == old(self).avail().skip(8)
                },
                Err(_) => true,
            }),
            old(self).avail().len() < 8 ==> r is Err,
            old(self).reliable() && old(self).avail().len() >= 8 ==> r is Ok,
    {
        match self.read_exact(8) {
            Ok(bytes) => {
                let u: u64 = u64_from_ne(&bytes);
                Ok(u64_to_i64(u))
            },
            Err(e) => Err(e),
        }
    }

    /// Reads 16 bytes as a signed two's-complement integer in the
    /// platform's native byte order, which is either big- or little-endian.
    fn read_num_ne_i128(&mut self) -> (r: Result<i128, IoError>)
        ensures
            final(self).reliable() == old(self).reliable(),
            (match r {
                Ok(v) => {
                    &&& 16 <= old(self).avail().len()
                    &&& (v as int == signed128(be_val(old(self).avail().take(16))) || v as int
                        == signed128(le_val(old(self).avail().take(16))))
                    &&& final(self).avail() == old(self).avail().skip(16)
                },
                Err(_) => true,
            }),
            old(self).avail().len() < 16 ==> r is Err,
            old(self).reliable() && old(self).avail().len() >= 16 ==> r is Ok,
    {
        match self.read_exact(16) {
            Ok(bytes) => {
                let u: u128 = u128_from_ne(&bytes);
                Ok(u128_to_i128(u))
            },
            Err(e) => Err(e),
        }
    }
}

impl<T: ByteSource> ReadExactExt for T {

}

} // verus!
