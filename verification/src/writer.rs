//! Typed exact writes over any byte sink: fixed-width integers serialized
//! in big-, little- or native byte order.  Every operation is built on the
//! single primitive "write this whole block or fail", so each call either
//! pushes the complete representation or fails.

use vstd::prelude::*;
use crate::endian::be_bytes;
use crate::endian::bits128;
use crate::endian::bits16;
use crate::endian::bits32;
use crate::endian::bits64;
use crate::endian::bits8;
use crate::endian::encode_be;
use crate::endian::encode_le;
use crate::endian::i128_to_u128;
use crate::endian::i16_to_u16;
use crate::endian::i32_to_u32;
use crate::endian::i64_to_u64;
use crate::endian::i8_to_u8;
use crate::endian::le_bytes;
use crate::native::u128_to_ne;
use crate::native::u16_to_ne;
use crate::native::u32_to_ne;
use crate::native::u64_to_ne;
use crate::stream::ByteSink;
use crate::stream::IoError;

verus! {

/// Exact typed writes, available on every byte sink.
pub trait WriteAllExt: ByteSink {
    /// Writes `v` as a single byte; byte order does not matter for one
    /// byte.
    fn write_num_be_u8(&mut self, v: u8) -> (r: Result<(), IoError>)
        ensures
            final(self).reliable() == old(self).reliable(),
            r is Ok ==> final(self).accepted() == old(self).accepted() + seq![v],
            r is Err ==> exists|k: int|
                0 <= k <= 1 && final(self).accepted() == old(self).accepted() + (#[trigger] seq![v].take(k)),
            old(self).reliable() ==> r is Ok,
    {
        let mut bytes: Vec<u8> = Vec::new();
        bytes.push(v);
        proof {
            assert(bytes@ =~= seq![v]);
        }
        self.write_all(&bytes)
    }

    /// Writes `v` as its 2-byte big-endian representation.
    fn write_num_be_u16(&mut self, v: u16) -> (r: Result<(), IoError>)
        ensures
            final(self).reliable() == old(self).reliable(),
            r is Ok ==> final(self).accepted() == old(self).accepted() + be_bytes(v as nat, 2),
            r is Err ==> exists|k: int|
                0 <= k <= 2 && final(self).accepted() == old(self).accepted() + be_bytes(
                    v as nat,
                    2,
                ).take(k),
            old(self).reliable() ==> r is Ok,
    {
        let bytes: Vec<u8> = encode_be(v as u128, 2);
        self.write_all(&bytes)
    }

    /// Writes `v` as its 4-byte big-endian representation.
    fn write_num_be_u32(&mut self, v: u32) -> (r: Result<(), IoError>)
        ensures
            final(self).reliable() == old(self).reliable(),
            r is Ok ==> final(self).accepted() == old(self).accepted() + be_bytes(v as nat, 4),
            r is Err ==> exists|k: int|
                0 <= k <= 4 && final(self).accepted() == old(self).accepted() + be_bytes(
                    v as nat,
                    4,
                ).take(k),
            old(self).reliable() ==> r is Ok,
    {
        let bytes: Vec<u8> = encode_be(v as u128, 4);
        self.write_all(&bytes)
    }

    /// Writes `v` as its 8-byte big-endian representation.
    fn write_num_be_u64(&mut self, v: u64) -> (r: Result<(), IoError>)
        ensures
            final(self).reliable() == old(self).reliable(),
            r is Ok ==> final(self).accepted() == old(self).accepted() + be_bytes(v as nat, 8),
            r is Err ==> exists|k: int|
                0 <= k <= 8 && final(self).accepted() == old(self).accepted() + be_bytes(
                    v as nat,
                    8,
                ).take(k),
            old(self).reliable() ==> r is Ok,
    {
        let bytes: Vec<u8> = encode_be(v as u128, 8);
        self.write_all(&bytes)
    }

    /// Writes `v` as its 16-byte big-endian representation.
    fn write_num_be_u128(&mut self, v: u128) -> (r: Result<(), IoError>)
        ensures
            final(self).reliable() == old(self).reliable(),
            r is Ok ==> final(self).accepted() == old(self).accepted() + be_bytes(v as nat, 16),
            r is Err ==> exists|k: int|
                0 <= k <= 16 && final(self).accepted() == old(self).accepted() + be_bytes(
                    v as nat,
                    16,
                ).take(k),
            old(self).reliable() ==> r is Ok,
    {
        let bytes: Vec<u8> = encode_be(v as u128, 16);
        self.write_all(&bytes)
    }

    /// Writes `v` as its one-byte two's-complement bit pattern; byte order
    /// does not matter for one byte.
    fn write_num_be_i8(&mut self, v: i8) -> (r: Result<(), IoError>)
        ensures
            final(self).reliable() == old(self).reliable(),
            r is Ok ==> final(self).accepted() == old(self).accepted() + seq![
                (bits8(v as int) as u8),
            ],
            r is Err ==> exists|k: int|
                0 <= k <= 1 && final(self).accepted() == old(self).accepted() + (#[trigger] seq![
                    (bits8(v as int) as u8),
                ].take(k)),
            old(self).reliable() ==> r is Ok,
    {
        let u: u8 = i8_to_u8(v);
        let mut bytes: Vec<u8> = Vec::new();
        bytes.push(u);
        proof {
            assert(u == bits8(v as int) as u8);
            assert(bytes@ =~= seq![(bits8(v as int) as u8)]);
        }
        self.write_all(&bytes)
    }

    /// Writes `v` as its 2-byte big-endian two's-complement representation.
    fn write_num_be_i16(&mut self, v: i16) -> (r: Result<(), IoError>)
        ensures
            final(self).reliable() == old(self).reliable(),
            r is Ok ==> final(self).accepted() == old(self).accepted() + be_bytes(
                bits16(v as int),
                2,
            ),
            r is Err ==> exists|k: int|
                0 <= k <= 2 && final(self).accepted() == old(self).accepted() + be_bytes(
                    bits16(v as int),
                    2,
                ).take(k),
            old(self).reliable() ==> r is Ok,
    {
        let u: u16 = i16_to_u16(v);
        let bytes: Vec<u8> = encode_be(u as u128, 2);
        self.write_all(&bytes)
    }

    /// Writes `v` as its 4-byte big-endian two's-complement representation.
    fn write_num_be_i32(&mut self, v: i32) -> (r: Result<(), IoError>)
        ensures
            final(self).reliable() == old(self).reliable(),
            r is Ok ==> final(self).accepted() == old(self).accepted() + be_bytes(
                bits32(v as int),
                4,
            ),
            r is Err ==> exists|k: int|
                0 <= k <= 4 && final(self).accepted() == old(self).accepted() + be_bytes(
                    bits32(v as int),
                    4,
                ).take(k),
            old(self).reliable() ==> r is Ok,
    {
        let u: u32 = i32_to_u32(v);
        let bytes: Vec<u8> = encode_be(u as u128, 4);
        self.write_all(&bytes)
    }

    /// Writes `v` as its 8-byte big-endian two's-complement representation.
    fn write_num_be_i64(&mut self, v: i64) -> (r: Result<(), IoError>)
        ensures
            final(self).reliable() == old(self).reliable(),
            r is Ok ==> final(self).accepted() == old(self).accepted() + be_bytes(
                bits64(v as int),
                8,
            ),
            r is Err ==> exists|k: int|
                0 <= k <= 8 && final(self).accepted() == old(self).accepted() + be_bytes(
                    bits64(v as int),
                    8,
                ).take(k),
            old(self).reliable() ==> r is Ok,
    {
        let u: u64 = i64_to_u64(v);
        let bytes: Vec<u8> = encode_be(u as u128, 8);
        self.write_all(&bytes)
    }

    /// Writes `v` as its 16-byte big-endian two's-complement representation.
    fn write_num_be_i128(&mut self, v: i128) -> (r: Result<(), IoError>)
        ensures
            final(self).reliable() == old(self).reliable(),
            r is Ok ==> final(self).accepted() == old(self).accepted() + be_bytes(
                bits128(v as int),
                16,
            ),
            r is Err ==> exists|k: int|
                0 <= k <= 16 && final(self).accepted() == old(self).accepted() + be_bytes(
                    bits128(v as int),
                    16,
                ).take(k),
            old(self).reliable() ==> r is Ok,
    {
        let u: u128 = i128_to_u128(v);
        let bytes: Vec<u8> = encode_be(u as u128, 16);
        self.write_all(&bytes)
    }

    /// Writes `v` as a single byte; byte order does not matter for one
    /// byte.
    fn write_num_le_u8(&mut self, v: u8) -> (r: Result<(), IoError>)
        ensures
            final(self).reliable() == old(self).reliable(),
            r is Ok ==> final(self).accepted() == old(self).accepted() + seq![v],
            r is Err ==> exists|k: int|
                0 <= k <= 1 && final(self).accepted() == old(self).accepted() + (#[trigger] seq![v].take(k)),
            old(self).reliable() ==> r is Ok,
    {
        let mut bytes: Vec<u8> = Vec::new();
        bytes.push(v);
        proof {
            assert(bytes@ =~= seq![v]);
        }
        self.write_all(&bytes)
    }

    /// Writes `v` as its 2-byte little-endian representation.
    fn write_num_le_u16(&mut self, v: u16) -> (r: Result<(), IoError>)
        ensures
            final(self).reliable() == old(self).reliable(),
            r is Ok ==> final(self).accepted() == old(self).accepted() + le_bytes(v as nat, 2),
            r is Err ==> exists|k: int|
                0 <= k <= 2 && final(self).accepted() == old(self).accepted() + le_bytes(
                    v as nat,
                    2,
                ).take(k),
            old(self).reliable() ==> r is Ok,
    {
        let bytes: Vec<u8> = encode_le(v as u128, 2);
        self.write_all(&bytes)
    }

    /// Writes `v` as its 4-byte little-endian representation.
    fn write_num_le_u32(&mut self, v: u32) -> (r: Result<(), IoError>)
        ensures
            final(self).reliable() == old(self).reliable(),
            r is Ok ==> final(self).accepted() == old(self).accepted() + le_bytes(v as nat, 4),
            r is Err ==> exists|k: int|
                0 <= k <= 4 && final(self).accepted() == old(self).accepted() + le_bytes(
                    v as nat,
                    4,
                ).take(k),
            old(self).reliable() ==> r is Ok,
    {
        let bytes: Vec<u8> = encode_le(v as u128, 4);
        self.write_all(&bytes)
    }

    /// Writes `v` as its 8-byte little-endian representation.
    fn write_num_le_u64(&mut self, v: u64) -> (r: Result<(), IoError>)
        ensures
            final(self).reliable() == old(self).reliable(),
            r is Ok ==> final(self).accepted() == old(self).accepted() + le_bytes(v as nat, 8),
            r is Err ==> exists|k: int|
                0 <= k <= 8 && final(self).accepted() == old(self).accepted() + le_bytes(
                    v as nat,
                    8,
                ).take(k),
            old(self).reliable() ==> r is Ok,
    {
        let bytes: Vec<u8> = encode_le(v as u128, 8);
        self.write_all(&bytes)
    }

    /// Writes `v` as its 16-byte little-endian representation.
    fn write_num_le_u128(&mut self, v: u128) -> (r: Result<(), IoError>)
        ensures
            final(self).reliable() == old(self).reliable(),
            r is Ok ==> final(self).accepted() == old(self).accepted() + le_bytes(v as nat, 16),
            r is Err ==> exists|k: int|
                0 <= k <= 16 && final(self).accepted() == old(self).accepted() + le_bytes(
                    v as nat,
                    16,
                ).take(k),
            old(self).reliable() ==> r is Ok,
    {
        let bytes: Vec<u8> = encode_le(v as u128, 16);
        self.write_all(&bytes)
    }

    /// Writes `v` as its one-byte two's-complement bit pattern; byte order
    /// does not matter for one byte.
    fn write_num_le_i8(&mut self, v: i8) -> (r: Result<(), IoError>)
        ensures
            final(self).reliable() == old(self).reliable(),
            r is Ok ==> final(self).accepted() == old(self).accepted() + seq![
                (bits8(v as int) as u8),
            ],
            r is Err ==> exists|k: int|
                0 <= k <= 1 && final(self).accepted() == old(self).accepted() + (#[trigger] seq![
                    (bits8(v as int) as u8),
                ].take(k)),
            old(self).reliable() ==> r is Ok,
    {
        let u: u8 = i8_to_u8(v);
        let mut bytes: Vec<u8> = Vec::new();
        bytes.push(u);
        proof {
            assert(u == bits8(v as int) as u8);
            assert(bytes@ =~= seq![(bits8(v as int) as u8)]);
        }
        self.write_all(&bytes)
    }

    /// Writes `v` as its 2-byte little-endian two's-complement representation.
    fn write_num_le_i16(&mut self, v: i16) -> (r: Result<(), IoError>)
        ensures
            final(self).reliable() == old(self).reliable(),
            r is Ok ==> final(self).accepted() == old(self).accepted() + le_bytes(
                bits16(v as int),
                2,
            ),
            r is Err ==> exists|k: int|
                0 <= k <= 2 && final(self).accepted() == old(self).accepted() + le_bytes(
                    bits16(v as int),
                    2,
                ).take(k),
            old(self).reliable() ==> r is Ok,
    {
        let u: u16 = i16_to_u16(v);
        let bytes: Vec<u8> = encode_le(u as u128, 2);
        self.write_all(&bytes)
    }

    /// Writes `v` as its 4-byte little-endian two's-complement representation.
    fn write_num_le_i32(&mut self, v: i32) -> (r: Result<(), IoError>)
        ensures
            final(self).reliable() == old(self).reliable(),
            r is Ok ==> final(self).accepted() == old(self).accepted() + le_bytes(
                bits32(v as int),
                4,
            ),
            r is Err ==> exists|k: int|
                0 <= k <= 4 && final(self).accepted() == old(self).accepted() + le_bytes(
                    bits32(v as int),
                    4,
                ).take(k),
            old(self).reliable() ==> r is Ok,
    {
        let u: u32 = i32_to_u32(v);
        let bytes: Vec<u8> = encode_le(u as u128, 4);
        self.write_all(&bytes)
    }

    /// Writes `v` as its 8-byte little-endian two's-complement representation.
    fn write_num_le_i64(&mut self, v: i64) -> (r: Result<(), IoError>)
        ensures
            final(self).reliable() == old(self).reliable(),
            r is Ok ==> final(self).accepted() == old(self).accepted() + le_bytes(
                bits64(v as int),
                8,
            ),
            r is Err ==> exists|k: int|
                0 <= k <= 8 && final(self).accepted() == old(self).accepted() + le_bytes(
                    bits64(v as int),
                    8,
                ).take(k),
            old(self).reliable() ==> r is Ok,
    {
        let u: u64 = i64_to_u64(v);
        let bytes: Vec<u8> = encode_le(u as u128, 8);
        self.write_all(&bytes)
    }

    /// Writes `v` as its 16-byte little-endian two's-complement representation.
    fn write_num_le_i128(&mut self, v: i128) -> (r: Result<(), IoError>)
        ensures
            final(self).reliable() == old(self).reliable(),
            r is Ok ==> final(self).accepted() == old(self).accepted() + le_bytes(
                bits128(v as int),
                16,
            ),
            r is Err ==> exists|k: int|
                0 <= k <= 16 && final(self).accepted() == old(self).accepted() + le_bytes(
                    bits128(v as int),
                    16,
                ).take(k),
            old(self).reliable() ==> r is Ok,
    {
        let u: u128 = i128_to_u128(v);
        let bytes: Vec<u8> = encode_le(u as u128, 16);
        self.write_all(&bytes)
    }

    /// Writes `v` as a single byte; byte order does not matter for one
    /// byte.
    fn write_num_ne_u8(&mut self, v: u8) -> (r: Result<(), IoError>)
        ensures
            final(self).reliable() == old(self).reliable(),
            r is Ok ==> final(self).accepted() == old(self).accepted() + seq![v],
            r is Err ==> exists|k: int|
                0 <= k <= 1 && final(self).accepted() == old(self).accepted() + (#[trigger] seq![v].take(k)),
            old(self).reliable() ==> r is Ok,
    {
        let mut bytes: Vec<u8> = Vec::new();
        bytes.push(v);
        proof {
            assert(bytes@ =~= seq![v]);
        }
        self.write_all(&bytes)
    }

    /// Writes `v` as its 2-byte representation in the platform's native
    /// byte order, which is either big- or little-endian.
    fn write_num_ne_u16(&mut self, v: u16) -> (r: Result<(), IoError>)
        ensures
            final(self).reliable() == old(self).reliable(),
            r is Ok ==> final(self).accepted() == old(self).accepted() + be_bytes(v as nat, 2)
                || final(self).accepted() == old(self).accepted() + le_bytes(v as nat, 2),
            r is Err ==> (exists|k: int|
                0 <= k <= 2 && final(self).accepted() == old(self).accepted() + be_bytes(
                    v as nat,
                    2,
                ).take(k)) || (exists|k: int|
                0 <= k <= 2 && final(self).accepted() == old(self).accepted() + le_bytes(
                    v as nat,
                    2,
                ).take(k)),
            old(self).reliable() ==> r is Ok,
    {
        let bytes: Vec<u8> = u16_to_ne(v);
        self.write_all(&bytes)
    }

    /// Writes `v` as its 4-byte representation in the platform's native
    /// byte order, which is either big- or little-endian.
    fn write_num_ne_u32(&mut self, v: u32) -> (r: Result<(), IoError>)
        ensures
            final(self).reliable() == old(self).reliable(),
            r is Ok ==> final(self).accepted() == old(self).accepted() + be_bytes(v as nat, 4)
                || final(self).accepted() == old(self).accepted() + le_bytes(v as nat, 4),
            r is Err ==> (exists|k: int|
                0 <= k <= 4 && final(self).accepted() == old(self).accepted() + be_bytes(
                    v as nat,
                    4,
                ).take(k)) || (exists|k: int|
                0 <= k <= 4 && final(self).accepted() == old(self).accepted() + le_bytes(
                    v as nat,
                    4,
                ).take(k)),
            old(self).reliable() ==> r is Ok,
    {
        let bytes: Vec<u8> = u32_to_ne(v);
        self.write_all(&bytes)
    }

    /// Writes `v` as its 8-byte representation in the platform's native
    /// byte order, which is either big- or little-endian.
    fn write_num_ne_u64(&mut self, v: u64) -> (r: Result<(), IoError>)
        ensures
            final(self).reliable() == old(self).reliable(),
            r is Ok ==> final(self).accepted() == old(self).accepted() + be_bytes(v as nat, 8)
                || final(self).accepted() == old(self).accepted() + le_bytes(v as nat, 8),
            r is Err ==> (exists|k: int|
                0 <= k <= 8 && final(self).accepted() == old(self).accepted() + be_bytes(
                    v as nat,
                    8,
                ).take(k)) || (exists|k: int|
                0 <= k <= 8 && final(self).accepted() == old(self).accepted() + le_bytes(
                    v as nat,
                    8,
                ).take(k)),
            old(self).reliable() ==> r is Ok,
    {
        let bytes: Vec<u8> = u64_to_ne(v);
        self.write_all(&bytes)
    }

    /// Writes `v` as its 16-byte representation in the platform's native
    /// byte order, which is either big- or little-endian.
    fn write_num_ne_u128(&mut self, v: u128) -> (r: Result<(), IoError>)
        ensures
            final(self).reliable() == old(self).reliable(),
            r is Ok ==> final(self).accepted() == old(self).accepted() + be_bytes(v as nat, 16)
                || final(self).accepted() == old(self).accepted() + le_bytes(v as nat, 16),
            r is Err ==> (exists|k: int|
                0 <= k <= 16 && final(self).accepted() == old(self).accepted() + be_bytes(
                    v as nat,
                    16,
                ).take(k)) || (exists|k: int|
                0 <= k <= 16 && final(self).accepted() == old(self).accepted() + le_bytes(
                    v as nat,
                    16,
                ).take(k)),
            old(self).reliable() ==> r is Ok,
    {
        let bytes: Vec<u8> = u128_to_ne(v);
        self.write_all(&bytes)
    }

    /// Writes `v` as its one-byte two's-complement bit pattern; byte order
    /// does not matter for one byte.
    fn write_num_ne_i8(&mut self, v: i8) -> (r: Result<(), IoError>)
        ensures
            final(self).reliable() == old(self).reliable(),
            r is Ok ==> final(self).accepted() == old(self).accepted() + seq![
                (bits8(v as int) as u8),
            ],
            r is Err ==> exists|k: int|
                0 <= k <= 1 && final(self).accepted() == old(self).accepted() + (#[trigger] seq![
                    (bits8(v as int) as u8),
                ].take(k)),
            old(self).reliable() ==> r is Ok,
    {
        let u: u8 = i8_to_u8(v);
        let mut bytes: Vec<u8> = Vec::new();
        bytes.push(u);
        proof {
            assert(u == bits8(v as int) as u8);
            assert(bytes@ =~= seq![(bits8(v as int) as u8)]);
        }
        self.write_all(&bytes)
    }

    /// Writes `v` as its 2-byte two's-complement representation in the
    /// platform's native byte order, which is either big- or little-endian.
    fn write_num_ne_i16(&mut self, v: i16) -> (r: Result<(), IoError>)
        ensures
            final(self).reliable() == old(self).reliable(),
            r is Ok ==> final(self).accepted() == old(self).accepted() + be_bytes(
                bits16(v as int),
                2,
            ) || final(self).accepted() == old(self).accepted() + le_bytes(bits16(v as int), 2),
            r is Err ==> (exists|k: int|
                0 <= k <= 2 && final(self).accepted() == old(self).accepted() + be_bytes(
                    bits16(v as int),
                    2,
                ).take(k)) || (exists|k: int|
                0 <= k <= 2 && final(self).accepted() == old(self).accepted() + le_bytes(
                    bits16(v as int),
                    2,
                ).take(k)),
            old(self).reliable() ==> r is Ok,
    {
        let u: u16 = i16_to_u16(v);
        let bytes: Vec<u8> = u16_to_ne(u);
        self.write_all(&bytes)
    }

    /// Writes `v` as its 4-byte two's-complement representation in the
    /// platform's native byte order, which is either big- or little-endian.
    fn write_num_ne_i32(&mut self, v: i32) -> (r: Result<(), IoError>)
        ensures
            final(self).reliable() == old(self).reliable(),
            r is Ok ==> final(self).accepted() == old(self).accepted() + be_bytes(
                bits32(v as int),
                4,
            ) || final(self).accepted() == old(self).accepted() + le_bytes(bits32(v as int), 4),
            r is Err ==> (exists|k: int|
                0 <= k <= 4 && final(self).accepted() == old(self).accepted() + be_bytes(
                    bits32(v as int),
                    4,
                ).take(k)) || (exists|k: int|
                0 <= k <= 4 && final(self).accepted() == old(self).accepted() + le_bytes(
                    bits32(v as int),
                    4,
                ).take(k)),
            old(self).reliable() ==> r is Ok,
    {
        let u: u32 = i32_to_u32(v);
        let bytes: Vec<u8> = u32_to_ne(u);
        self.write_all(&bytes)
    }

    /// Writes `v` as its 8-byte two's-complement representation in the
    /// platform's native byte order, which is either big- or little-endian.
    fn write_num_ne_i64(&mut self, v: i64) -> (r: Result<(), IoError>)
        ensures
            final(self).reliable() == old(self).reliable(),
            r is Ok ==> final(self).accepted() == old(self).accepted() + be_bytes(
                bits64(v as int),
                8,
            ) || final(self).accepted() == old(self).accepted() + le_bytes(bits64(v as int), 8),
            r is Err ==> (exists|k: int|
                0 <= k <= 8 && final(self).accepted() == old(self).accepted() + be_bytes(
                    bits64(v as int),
                    8,
                ).take(k)) || (exists|k: int|
                0 <= k <= 8 && final(self).accepted() == old(self).accepted() + le_bytes(
                    bits64(v as int),
                    8,
                ).take(k)),
            old(self).reliable() ==> r is Ok,
    {
        let u: u64 = i64_to_u64(v);
        let bytes: Vec<u8> = u64_to_ne(u);
        self.write_all(&bytes)
    }

    /// Writes `v` as its 16-byte two's-complement representation in the
    /// platform's native byte order, which is either big- or little-endian.
    fn write_num_ne_i128(&mut self, v: i128) -> (r: Result<(), IoError>)
        ensures
            final(self).reliable() == old(self).reliable(),
            r is Ok ==> final(self).accepted() == old(self).accepted() + be_bytes(
                bits128(v as int),
                16,
            ) || final(self).accepted() == old(self).accepted() + le_bytes(bits128(v as int), 16),
            r is Err ==> (exists|k: int|
                0 <= k <= 16 && final(self).accepted() == old(self).accepted() + be_bytes(
                    bits128(v as int),
                    16,
                ).take(k)) || (exists|k: int|
                0 <= k <= 16 && final(self).accepted() == old(self).accepted() + le_bytes(
                    bits128(v as int),
                    16,
                ).take(k)),
            old(self).reliable() ==> r is Ok,
    {
        let u: u128 = i128_to_u128(v);
        let bytes: Vec<u8> = u128_to_ne(u);
        self.write_all(&bytes)
    }
}

impl<T: ByteSink> WriteAllExt for T {

}

} // verus!
