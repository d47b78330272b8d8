//! Byte-order arithmetic: the mathematical meaning of big- and little-endian
//! byte blocks, verified executable conversions between fixed-width integers
//! and their wire representation, and the round-trip laws relating them.

use vstd::prelude::*;

verus! {

/// 256 raised to `n`: the number of distinct values an `n`-byte block can hold.
pub open spec fn pow256(n: nat) -> nat
    decreases n,
{
    if n == 0 {
        1
    } else {
        256 * pow256((n - 1) as nat)
    }
}

/// The value of `s` read as a little-endian integer: the byte at index 0 is
/// the least significant.
pub open spec fn le_val(s: Seq<u8>) -> nat
    decreases s.len(),
{
    if s.len() == 0 {
        0
    } else {
        (s[0] as nat) + 256 * le_val(s.skip(1))
    }
}

/// The value of `s` read as a big-endian integer: the byte at index 0 is
/// the most significant.
pub open spec fn be_val(s: Seq<u8>) -> nat
    decreases s.len(),
{
    if s.len() == 0 {
        0
    } else {
        256 * be_val(s.drop_last()) + (s.last() as nat)
    }
}

/// The `n`-byte little-endian representation of `v`, truncated to `n` bytes.
pub open spec fn le_bytes(v: nat, n: nat) -> Seq<u8>
    decreases n,
{
    if n == 0 {
        Seq::empty()
    } else {
        seq![(v % 256) as u8] + le_bytes(v / 256, (n - 1) as nat)
    }
}

/// The `n`-byte big-endian representation of `v`, truncated to `n` bytes.
pub open spec fn be_bytes(v: nat, n: nat) -> Seq<u8> {
    le_bytes(v, n).reverse()
}

/// Concrete powers of 256 for the wire widths used by this crate.
pub proof fn lemma_pow256_widths()
    ensures
        pow256(0) == 1,
        pow256(1) == 0x100,
        pow256(2) == 0x1_0000,
        pow256(4) == 0x1_0000_0000,
        pow256(8) == 0x1_0000_0000_0000_0000,
        pow256(15) == 0x1_0000_0000_0000_0000_0000_0000_0000_00,
        pow256(16) == 0x1_0000_0000_0000_0000_0000_0000_0000_0000,
{
    reveal_with_fuel(pow256, 17);
}

/// `pow256` never vanishes.
pub proof fn lemma_pow256_pos(n: nat)
    ensures
        pow256(n) >= 1,
    decreases n,
{
    if n > 0 {
        lemma_pow256_pos((n - 1) as nat);
    }
}

/// `pow256` is monotonic.
pub proof fn lemma_pow256_mono(a: nat, b: nat)
    requires
        a <= b,
    ensures
        pow256(a) <= pow256(b),
    decreases b,
{
    if a < b {
        lemma_pow256_mono(a, (b - 1) as nat);
        lemma_pow256_pos((b - 1) as nat);
    }
}

/// A sequence of `n` bytes holds a value below `pow256(n)`, read little-endian.
pub proof fn lemma_le_val_bound(s: Seq<u8>)
    ensures
        le_val(s) < pow256(s.len()),
    decreases s.len(),
{
    if s.len() > 0 {
        lemma_le_val_bound(s.skip(1));
    }
}

/// A sequence of `n` bytes holds a value below `pow256(n)`, read big-endian.
pub proof fn lemma_be_val_bound(s: Seq<u8>)
    ensures
        be_val(s) < pow256(s.len()),
    decreases s.len(),
{
    if s.len() > 0 {
        lemma_be_val_bound(s.drop_last());
    }
}

/// `le_bytes` always yields exactly `n` bytes.
pub proof fn lemma_le_bytes_len(v: nat, n: nat)
    ensures
        le_bytes(v, n).len() == n,
    decreases n,
{
    if n > 0 {
        lemma_le_bytes_len(v / 256, (n - 1) as nat);
    }
}

/// Reading back an `n`-byte little-endian block recovers the value modulo
/// `pow256(n)`.
pub proof fn lemma_le_val_le_bytes(v: nat, n: nat)
    ensures
        le_val(le_bytes(v, n)) == v % pow256(n),
    decreases n,
{
    if n == 0 {
        vstd::arithmetic::div_mod::lemma_mod_division_less_than_divisor(v as int, 1);
        assert(v % pow256(0) == 0);
    } else {
        let rest = le_bytes(v / 256, (n - 1) as nat);
        let s = seq![(v % 256) as u8] + rest;
        assert(s[0] == (v % 256) as u8);
        assert(s.skip(1) =~= rest);
        lemma_le_val_le_bytes(v / 256, (n - 1) as nat);
        lemma_pow256_pos((n - 1) as nat);
        vstd::arithmetic::div_mod::lemma_mod_breakdown(
            v as int,
            256,
            pow256((n - 1) as nat) as int,
        );
    }
}

/// Round trip, little-endian: any value an `n`-byte block can hold survives
/// encoding to `n` little-endian bytes and reading them back.
pub proof fn lemma_le_round_trip(v: nat, n: nat)
    requires
        v < pow256(n),
    ensures
        le_val(le_bytes(v, n)) == v,
{
    lemma_le_val_le_bytes(v, n);
    vstd::arithmetic::div_mod::lemma_small_mod(v, pow256(n));
}

/// Encoding is exact, little-endian: writing back the value a byte block
/// holds reproduces the block, byte for byte.
pub proof fn lemma_le_bytes_exact(s: Seq<u8>)
    ensures
        le_bytes(le_val(s), s.len()) == s,
    decreases s.len(),
{
    if s.len() > 0 {
        let x = le_val(s);
        let tail = le_val(s.skip(1));
        assert(x == s[0] + 256 * tail);
        vstd::arithmetic::div_mod::lemma_fundamental_div_mod_converse(
            x as int,
            256,
            tail as int,
            s[0] as int,
        );
        assert(x % 256 == s[0]);
        assert(x / 256 == tail as int);
        lemma_le_bytes_exact(s.skip(1));
        assert(le_bytes(x, s.len()) =~= s);
    }
}

/// A block read big-endian holds the same value as its reversal read
/// little-endian.
pub proof fn lemma_be_val_reverse(s: Seq<u8>)
    ensures
        be_val(s.reverse()) == le_val(s),
    decreases s.len(),
{
    if s.len() > 0 {
        assert(s.reverse().drop_last() =~= s.skip(1).reverse());
        assert(s.reverse().last() == s[0]);
        lemma_be_val_reverse(s.skip(1));
    }
}

/// Reading back an `n`-byte big-endian block recovers the value modulo
/// `pow256(n)`.
pub proof fn lemma_be_val_be_bytes(v: nat, n: nat)
    ensures
        be_val(be_bytes(v, n)) == v % pow256(n),
{
    lemma_be_val_reverse(le_bytes(v, n));
    lemma_le_val_le_bytes(v, n);
}

/// Round trip, big-endian: any value an `n`-byte block can hold survives
/// encoding to `n` big-endian bytes and reading them back.
pub proof fn lemma_be_round_trip(v: nat, n: nat)
    requires
        v < pow256(n),
    ensures
        be_val(be_bytes(v, n)) == v,
{
    lemma_be_val_be_bytes(v, n);
    vstd::arithmetic::div_mod::lemma_small_mod(v, pow256(n));
}

/// Encoding is exact, big-endian: writing back the value a byte block holds
/// reproduces the block, byte for byte.
pub proof fn lemma_be_bytes_exact(s: Seq<u8>)
    ensures
        be_bytes(be_val(s), s.len()) == s,
{
    let r = s.reverse();
    assert(r.reverse() =~= s);
    lemma_be_val_reverse(r);
    assert(le_val(r) == be_val(s));
    lemma_le_bytes_exact(r);
    assert(be_bytes(be_val(s), s.len()) == le_bytes(le_val(r), r.len()).reverse());
}

/// Round trip through a stream, big-endian: after a write has appended the
/// `n`-byte big-endian block of `v` to a sink, a read of `n` bytes from a
/// source that begins with that block takes exactly the block and yields
/// `v` again, whatever follows it.
pub proof fn lemma_be_write_then_read(v: nat, n: nat, rest: Seq<u8>)
    requires
        v < pow256(n),
    ensures
        (be_bytes(v, n) + rest).take(n as int) == be_bytes(v, n),
        be_val((be_bytes(v, n) + rest).take(n as int)) == v,
        (be_bytes(v, n) + rest).skip(n as int) == rest,
{
    lemma_le_bytes_len(v, n);
    assert((be_bytes(v, n) + rest).take(n as int) =~= be_bytes(v, n));
    assert((be_bytes(v, n) + rest).skip(n as int) =~= rest);
    lemma_be_round_trip(v, n);
}

/// Round trip through a stream, little-endian: after a write has appended
/// the `n`-byte little-endian block of `v` to a sink, a read of `n` bytes
/// from a source that begins with that block takes exactly the block and
/// yields `v` again, whatever follows it.
pub proof fn lemma_le_write_then_read(v: nat, n: nat, rest: Seq<u8>)
    requires
        v < pow256(n),
    ensures
        (le_bytes(v, n) + rest).take(n as int) == le_bytes(v, n),
        le_val((le_bytes(v, n) + rest).take(n as int)) == v,
        (le_bytes(v, n) + rest).skip(n as int) == rest,
{
    lemma_le_bytes_len(v, n);
    assert((le_bytes(v, n) + rest).take(n as int) =~= le_bytes(v, n));
    assert((le_bytes(v, n) + rest).skip(n as int) =~= rest);
    lemma_le_round_trip(v, n);
}

/// The signed value whose one-byte two's-complement bit pattern is `u`.
pub open spec fn signed8(u: nat) -> int
    recommends
        u < 0x100,
{
    if u < 0x80 {
        u as int
    } else {
        u - 0x100
    }
}

/// The one-byte two's-complement bit pattern of `v`.
pub open spec fn bits8(v: int) -> nat
    recommends
        -0x80 <= v < 0x80,
{
    if v >= 0 {
        v as nat
    } else {
        (v + 0x100) as nat
    }
}

/// The signed value whose two-byte two's-complement bit pattern is `u`.
pub open spec fn signed16(u: nat) -> int
    recommends
        u < 0x1_0000,
{
    if u < 0x8000 {
        u as int
    } else {
        u - 0x1_0000
    }
}

/// The two-byte two's-complement bit pattern of `v`.
pub open spec fn bits16(v: int) -> nat
    recommends
        -0x8000 <= v < 0x8000,
{
    if v >= 0 {
        v as nat
    } else {
        (v + 0x1_0000) as nat
    }
}

/// The signed value whose four-byte two's-complement bit pattern is `u`.
pub open spec fn signed32(u: nat) -> int
    recommends
        u < 0x1_0000_0000,
{
    if u < 0x8000_0000 {
        u as int
    } else {
        u - 0x1_0000_0000
    }
}

/// The four-byte two's-complement bit pattern of `v`.
pub open spec fn bits32(v: int) -> nat
    recommends
        -0x8000_0000 <= v < 0x8000_0000,
{
    if v >= 0 {
        v as nat
    } else {
        (v + 0x1_0000_0000) as nat
    }
}

/// The signed value whose eight-byte two's-complement bit pattern is `u`.
pub open spec fn signed64(u: nat) -> int
    recommends
        u < 0x1_0000_0000_0000_0000,
{
    if u < 0x8000_0000_0000_0000 {
        u as int
    } else {
        u - 0x1_0000_0000_0000_0000
    }
}

/// The eight-byte two's-complement bit pattern of `v`.
pub open spec fn bits64(v: int) -> nat
    recommends
        -0x8000_0000_0000_0000 <= v < 0x8000_0000_0000_0000,
{
    if v >= 0 {
        v as nat
    } else {
        (v + 0x1_0000_0000_0000_0000) as nat
    }
}

/// The signed value whose sixteen-byte two's-complement bit pattern is `u`.
pub open spec fn signed128(u: nat) -> int
    recommends
        u < 0x1_0000_0000_0000_0000_0000_0000_0000_0000,
{
    if u < 0x8000_0000_0000_0000_0000_0000_0000_0000 {
        u as int
    } else {
        u - 0x1_0000_0000_0000_0000_0000_0000_0000_0000
    }
}

/// The sixteen-byte two's-complement bit pattern of `v`.
pub open spec fn bits128(v: int) -> nat
    recommends
        -0x8000_0000_0000_0000_0000_0000_0000_0000 <= v
            < 0x8000_0000_0000_0000_0000_0000_0000_0000,
{
    if v >= 0 {
        v as nat
    } else {
        (v + 0x1_0000_0000_0000_0000_0000_0000_0000_0000) as nat
    }
}

/// Round trip for one-byte signed values: bit pattern and signed reading
/// are mutually inverse.
pub proof fn lemma_signed8_round_trip(v: int, u: nat)
    requires
        -0x80 <= v < 0x80,
        u < 0x100,
    ensures
        signed8(bits8(v)) == v,
        bits8(signed8(u)) == u,
{
}

/// Round trip for two-byte signed values: bit pattern and signed reading
/// are mutually inverse.
pub proof fn lemma_signed16_round_trip(v: int, u: nat)
    requires
        -0x8000 <= v < 0x8000,
        u < 0x1_0000,
    ensures
        signed16(bits16(v)) == v,
        bits16(signed16(u)) == u,
{
}

/// Round trip for four-byte signed values: bit pattern and signed reading
/// are mutually inverse.
pub proof fn lemma_signed32_round_trip(v: int, u: nat)
    requires
        -0x8000_0000 <= v < 0x8000_0000,
        u < 0x1_0000_0000,
    ensures
        signed32(bits32(v)) == v,
        bits32(signed32(u)) == u,
{
}

/// Round trip for eight-byte signed values: bit pattern and signed reading
/// are mutually inverse.
pub proof fn lemma_signed64_round_trip(v: int, u: nat)
    requires
        -0x8000_0000_0000_0000 <= v < 0x8000_0000_0000_0000,
        u < 0x1_0000_0000_0000_0000,
    ensures
        signed64(bits64(v)) == v,
        bits64(signed64(u)) == u,
{
}

/// Round trip for sixteen-byte signed values: bit pattern and signed reading
/// are mutually inverse.
pub proof fn lemma_signed128_round_trip(v: int, u: nat)
    requires
        -0x8000_0000_0000_0000_0000_0000_0000_0000 <= v
            < 0x8000_0000_0000_0000_0000_0000_0000_0000,
        u < 0x1_0000_0000_0000_0000_0000_0000_0000_0000,
    ensures
        signed128(bits128(v)) == v,
        bits128(signed128(u)) == u,
{
}

/// Converts a one-byte bit pattern to its signed reading.
pub fn u8_to_i8(u: u8) -> (r: i8)
    ensures
        r as int == signed8(u as nat),
{
    if u < 0x80 {
        u as i8
    } else {
        ((u - 0x80) as i8) - 0x7f - 1
    }
}

/// Converts a one-byte signed value to its bit pattern.
pub fn i8_to_u8(v: i8) -> (r: u8)
    ensures
        r as nat == bits8(v as int),
{
    if v >= 0 {
        v as u8
    } else {
        ((v + 0x7f + 1) as u8) + 0x80
    }
}

/// Converts a two-byte bit pattern to its signed reading.
pub fn u16_to_i16(u: u16) -> (r: i16)
    ensures
        r as int == signed16(u as nat),
{
    if u < 0x8000 {
        u as i16
    } else {
        ((u - 0x8000) as i16) - 0x7fff - 1
    }
}

/// Converts a two-byte signed value to its bit pattern.
pub fn i16_to_u16(v: i16) -> (r: u16)
    ensures
        r as nat == bits16(v as int),
{
    if v >= 0 {
        v as u16
    } else {
        ((v + 0x7fff + 1) as u16) + 0x8000
    }
}

/// Converts a four-byte bit pattern to its signed reading.
pub fn u32_to_i32(u: u32) -> (r: i32)
    ensures
        r as int == signed32(u as nat),
{
    if u < 0x8000_0000 {
        u as i32
    } else {
        ((u - 0x8000_0000) as i32) - 0x7fff_ffff - 1
    }
}

/// Converts a four-byte signed value to its bit pattern.
pub fn i32_to_u32(v: i32) -> (r: u32)
    ensures
        r as nat == bits32(v as int),
{
    if v >= 0 {
        v as u32
    } else {
        ((v + 0x7fff_ffff + 1) as u32) + 0x8000_0000
    }
}

/// Converts an eight-byte bit pattern to its signed reading.
pub fn u64_to_i64(u: u64) -> (r: i64)
    ensures
        r as int == signed64(u as nat),
{
    if u < 0x8000_0000_0000_0000 {
        u as i64
    } else {
        ((u - 0x8000_0000_0000_0000) as i64) - 0x7fff_ffff_ffff_ffff - 1
    }
}

/// Converts an eight-byte signed value to its bit pattern.
pub fn i64_to_u64(v: i64) -> (r: u64)
    ensures
        r as nat == bits64(v as int),
{
    if v >= 0 {
        v as u64
    } else {
        ((v + 0x7fff_ffff_ffff_ffff + 1) as u64) + 0x8000_0000_0000_0000
    }
}

/// Converts a sixteen-byte bit pattern to its signed reading.
pub fn u128_to_i128(u: u128) -> (r: i128)
    ensures
        r as int == signed128(u as nat),
{
    if u < 0x8000_0000_0000_0000_0000_0000_0000_0000 {
        u as i128
    } else {
        ((u - 0x8000_0000_0000_0000_0000_0000_0000_0000) as i128)
            - 0x7fff_ffff_ffff_ffff_ffff_ffff_ffff_ffff - 1
    }
}

/// Converts a sixteen-byte signed value to its bit pattern.
pub fn i128_to_u128(v: i128) -> (r: u128)
    ensures
        r as nat == bits128(v as int),
{
    if v >= 0 {
        v as u128
    } else {
        ((v + 0x7fff_ffff_ffff_ffff_ffff_ffff_ffff_ffff + 1) as u128)
            + 0x8000_0000_0000_0000_0000_0000_0000_0000
    }
}

/// Reads `bytes` as an unsigned big-endian integer of up to 16 bytes.
pub fn decode_be(bytes: &Vec<u8>) -> (v: u128)
    requires
        bytes@.len() <= 16,
    ensures
        v == be_val(bytes@),
{
    let n: usize = bytes.len();
    let mut v: u128 = 0;
    let mut i: usize = 0;
    while i < n
        invariant
            i <= n,
            n == bytes@.len() <= 16,
            v == be_val(bytes@.take(i as int)),
        decreases n - i,
    {
        proof {
            lemma_be_val_bound(bytes@.take(i as int));
            lemma_pow256_mono(i as nat, 15);
            lemma_pow256_widths();
            assert(bytes@.take(i + 1).drop_last() =~= bytes@.take(i as int));
            assert(bytes@.take(i + 1).last() == bytes@[i as int]);
        }
        v = v * 256 + (bytes[i] as u128);
        i = i + 1;
    }
    proof {
        assert(bytes@.take(n as int) =~= bytes@);
    }
    v
}

/// Reads `bytes` as an unsigned little-endian integer of up to 16 bytes.
pub fn decode_le(bytes: &Vec<u8>) -> (v: u128)
    requires
        bytes@.len() <= 16,
    ensures
        v == le_val(bytes@),
{
    let n: usize = bytes.len();
    let mut v: u128 = 0;
    let mut k: usize = n;
    while k > 0
        invariant
            k <= n,
            n == bytes@.len() <= 16,
            v == le_val(bytes@.skip(k as int)),
        decreases k,
    {
        proof {
            lemma_le_val_bound(bytes@.skip(k as int));
            lemma_pow256_mono((n - k) as nat, 15);
            lemma_pow256_widths();
            assert(bytes@.skip(k - 1).skip(1) =~= bytes@.skip(k as int));
            assert(bytes@.skip(k - 1)[0] == bytes@[k - 1]);
        }
        k = k - 1;
        v = v * 256 + (bytes[k] as u128);
    }
    proof {
        assert(bytes@.skip(0) =~= bytes@);
    }
    v
}

/// Produces the `n`-byte little-endian representation of `v`.
pub fn encode_le(v: u128, n: usize) -> (out: Vec<u8>)
    ensures
        out@ == le_bytes(v as nat, n as nat),
        out@.len() == n,
{
    let mut out: Vec<u8> = Vec::new();
    let mut x: u128 = v;
    let mut i: usize = 0;
    while i < n
        invariant
            i <= n,
            out@.len() == i,
            le_bytes(v as nat, n as nat) == out@ + le_bytes(x as nat, (n - i) as nat),
        decreases n - i,
    {
        let b: u8 = (x % 256) as u8;
        proof {
            assert(le_bytes(x as nat, (n - i) as nat) == seq![b] + le_bytes(
                (x as nat) / 256,
                (n - i - 1) as nat,
            ));
            assert(out@ + le_bytes(x as nat, (n - i) as nat) =~= (out@ + seq![b]) + le_bytes(
                (x as nat) / 256,
                (n - i - 1) as nat,
            ));
        }
        out.push(b);
        x = x / 256;
        i = i + 1;
    }
    proof {
        assert(le_bytes(x as nat, 0) =~= Seq::<u8>::empty());
        assert(out@ + Seq::<u8>::empty() =~= out@);
        lemma_le_bytes_len(v as nat, n as nat);
    }
    out
}

/// Produces the `n`-byte big-endian representation of `v`.
pub fn encode_be(v: u128, n: usize) -> (out: Vec<u8>)
    ensures
        out@ == be_bytes(v as nat, n as nat),
        out@.len() == n,
{
    let le: Vec<u8> = encode_le(v, n);
    let mut out: Vec<u8> = Vec::new();
    let mut i: usize = n;
    while i > 0
        invariant
            i <= n,
            le@.len() == n,
            out@.len() == n - i,
            forall|j: int| 0 <= j < out@.len() ==> out@[j] == le@[n - 1 - j],
        decreases i,
    {
        i = i - 1;
        out.push(le[i]);
    }
    proof {
        assert(out@ =~= le@.reverse());
    }
    out
}

} // verus!
