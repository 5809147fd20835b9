//! Decoding of unsigned integers from byte slices, honoring a byte order.
//!
//! This is the single place where byte-order arithmetic happens; every other
//! decoder states its fields through [`field_value`] and the helpers here.

use vstd::prelude::*;

use crate::common::Endianness;

verus! {

/// 256 to the power `n`: the number of values a field of `n` bytes can hold.
pub open spec fn pow256(n: nat) -> nat
    decreases n,
{
    if n == 0 {
        1
    } else {
        256 * pow256((n - 1) as nat)
    }
}

/// The value of a byte sequence read least-significant byte first.
pub open spec fn le_bytes_to_nat(s: Seq<u8>) -> nat
    decreases s.len(),
{
    if s.len() == 0 {
        0
    } else {
        (s[0] + 256 * le_bytes_to_nat(s.subrange(1, s.len() as int))) as nat
    }
}

/// The value of a byte sequence read most-significant byte first.
pub open spec fn be_bytes_to_nat(s: Seq<u8>) -> nat
    decreases s.len(),
{
    if s.len() == 0 {
        0
    } else {
        (256 * be_bytes_to_nat(s.subrange(0, s.len() - 1)) + s[s.len() - 1]) as nat
    }
}

/// The value of a field of bytes under the given byte order.
pub open spec fn field_value(s: Seq<u8>, endianness: Endianness) -> nat {
    match endianness {
        Endianness::Little => le_bytes_to_nat(s),
        Endianness::Big => be_bytes_to_nat(s),
    }
}

/// The `n` bytes that encode `v` least-significant byte first.
pub open spec fn nat_to_le_bytes(v: nat, n: nat) -> Seq<u8>
    decreases n,
{
    if n == 0 {
        Seq::<u8>::empty()
    } else {
        seq![(v % 256) as u8] + nat_to_le_bytes(v / 256, (n - 1) as nat)
    }
}

/// The `n` bytes that encode `v` most-significant byte first.
pub open spec fn nat_to_be_bytes(v: nat, n: nat) -> Seq<u8>
    decreases n,
{
    if n == 0 {
        Seq::<u8>::empty()
    } else {
        nat_to_be_bytes(v / 256, (n - 1) as nat) + seq![(v % 256) as u8]
    }
}

/// The `n` bytes that encode `v` under the given byte order.
pub open spec fn field_bytes(v: nat, n: nat, endianness: Endianness) -> Seq<u8> {
    match endianness {
        Endianness::Little => nat_to_le_bytes(v, n),
        Endianness::Big => nat_to_be_bytes(v, n),
    }
}

pub proof fn lemma_pow256_values()
    ensures
        pow256(0) == 1,
        pow256(1) == 0x100,
        pow256(2) == 0x10000,
        pow256(4) == 0x100000000,
        pow256(8) == 0x10000000000000000,
{
    reveal_with_fuel(pow256, 9);
}

/// A field of `n` bytes holds a value below 256^n.
pub proof fn lemma_field_value_bound(s: Seq<u8>, endianness: Endianness)
    ensures
        field_value(s, endianness) < pow256(s.len()),
    decreases s.len(),
{
    if s.len() > 0 {
        lemma_field_value_bound(s.subrange(1, s.len() as int), endianness);
        lemma_field_value_bound(s.subrange(0, s.len() - 1), endianness);
    }
}

proof fn lemma_le_round_trip_bytes(s: Seq<u8>)
    ensures
        nat_to_le_bytes(le_bytes_to_nat(s), s.len()) == s,
    decreases s.len(),
{
    if s.len() > 0 {
        let tail = s.subrange(1, s.len() as int);
        let v = le_bytes_to_nat(s);
        lemma_le_round_trip_bytes(tail);
        vstd::arithmetic::div_mod::lemma_fundamental_div_mod_converse(
            v as int,
            256,
            le_bytes_to_nat(tail) as int,
            s[0] as int,
        );
        assert(seq![(v % 256) as u8] + nat_to_le_bytes(v / 256, (s.len() - 1) as nat) =~= s);
    }
}

proof fn lemma_be_round_trip_bytes(s: Seq<u8>)
    ensures
        nat_to_be_bytes(be_bytes_to_nat(s), s.len()) == s,
    decreases s.len(),
{
    if s.len() > 0 {
        let front = s.subrange(0, s.len() - 1);
        let v = be_bytes_to_nat(s);
        lemma_be_round_trip_bytes(front);
        vstd::arithmetic::div_mod::lemma_fundamental_div_mod_converse(
            v as int,
            256,
            be_bytes_to_nat(front) as int,
            s[s.len() - 1] as int,
        );
        assert(nat_to_be_bytes(v / 256, (s.len() - 1) as nat) + seq![(v % 256) as u8] =~= s);
    }
}

proof fn lemma_le_round_trip_value(v: nat, n: nat)
    requires
        v < pow256(n),
    ensures
        le_bytes_to_nat(nat_to_le_bytes(v, n)) == v,
    decreases n,
{
    if n > 0 {
        vstd::arithmetic::div_mod::lemma_fundamental_div_mod(v as int, 256);
        assert(v / 256 < pow256((n - 1) as nat));
        lemma_le_round_trip_value(v / 256, (n - 1) as nat);
        let s = nat_to_le_bytes(v, n);
        assert(s.subrange(1, s.len() as int) =~= nat_to_le_bytes(v / 256, (n - 1) as nat));
    }
}

proof fn lemma_be_round_trip_value(v: nat, n: nat)
    requires
        v < pow256(n),
    ensures
        be_bytes_to_nat(nat_to_be_bytes(v, n)) == v,
    decreases n,
{
    if n > 0 {
        vstd::arithmetic::div_mod::lemma_fundamental_div_mod(v as int, 256);
        assert(v / 256 < pow256((n - 1) as nat));
        lemma_be_round_trip_value(v / 256, (n - 1) as nat);
        let s = nat_to_be_bytes(v, n);
        assert(s.subrange(0, s.len() - 1) =~= nat_to_be_bytes(v / 256, (n - 1) as nat));
        assert(s[s.len() - 1] == (v % 256) as u8);
    }
}

/// Law: decoding a field and re-encoding the value gives back the original
/// bytes, for every field width and both byte orders.
pub proof fn lemma_field_round_trip_bytes(s: Seq<u8>, endianness: Endianness)
    ensures
        field_bytes(field_value(s, endianness), s.len(), endianness) == s,
{
    match endianness {
        Endianness::Little => lemma_le_round_trip_bytes(s),
        Endianness::Big => lemma_be_round_trip_bytes(s),
    }
}

/// Law: encoding a value that fits in `n` bytes and decoding it again gives
/// back the value, for every field width and both byte orders.
pub proof fn lemma_field_round_trip_value(v: nat, n: nat, endianness: Endianness)
    requires
        v < pow256(n),
    ensures
        field_value(field_bytes(v, n, endianness), endianness) == v,
{
    match endianness {
        Endianness::Little => lemma_le_round_trip_value(v, n),
        Endianness::Big => lemma_be_round_trip_value(v, n),
    }
}

/// Two byte sequences of one length with one value are the same sequence.
pub proof fn lemma_field_value_injective(s1: Seq<u8>, s2: Seq<u8>, endianness: Endianness)
    requires
        s1.len() == s2.len(),
        field_value(s1, endianness) == field_value(s2, endianness),
    ensures
        s1 == s2,
{
    lemma_field_round_trip_bytes(s1, endianness);
    lemma_field_round_trip_bytes(s2, endianness);
}

proof fn lemma_le_2(s: Seq<u8>)
    requires
        s.len() == 2,
    ensures
        le_bytes_to_nat(s) == s[0] + 0x100 * s[1],
{
    reveal_with_fuel(le_bytes_to_nat, 3);
    assert(s.subrange(1, 2)[0] == s[1]);
    assert(s.subrange(1, 2).subrange(1, 1).len() == 0);
}

proof fn lemma_be_2(s: Seq<u8>)
    requires
        s.len() == 2,
    ensures
        be_bytes_to_nat(s) == 0x100 * s[0] + s[1],
{
    reveal_with_fuel(be_bytes_to_nat, 3);
    assert(s.subrange(0, 1)[0] == s[0]);
    assert(s.subrange(0, 1).subrange(0, 0).len() == 0);
}

/// The little-endian value of four bytes, written out as a polynomial.
pub proof fn lemma_le_4(s: Seq<u8>)
    requires
        s.len() == 4,
    ensures
        le_bytes_to_nat(s) == s[0] + 0x100 * s[1] + 0x10000 * s[2] + 0x1000000 * s[3],
{
    reveal_with_fuel(le_bytes_to_nat, 5);
    let t1 = s.subrange(1, 4);
    let t2 = t1.subrange(1, 3);
    let t3 = t2.subrange(1, 2);
    assert(t1[0] == s[1] && t2[0] == s[2] && t3[0] == s[3]);
    assert(t3.subrange(1, 1).len() == 0);
}

proof fn lemma_be_4(s: Seq<u8>)
    requires
        s.len() == 4,
    ensures
        be_bytes_to_nat(s) == 0x1000000 * s[0] + 0x10000 * s[1] + 0x100 * s[2] + s[3],
{
    reveal_with_fuel(be_bytes_to_nat, 5);
    let t1 = s.subrange(0, 3);
    let t2 = t1.subrange(0, 2);
    let t3 = t2.subrange(0, 1);
    assert(t1[2] == s[2] && t2[1] == s[1] && t3[0] == s[0]);
    assert(t3.subrange(0, 0).len() == 0);
}

proof fn lemma_le_8(s: Seq<u8>)
    requires
        s.len() == 8,
    ensures
        le_bytes_to_nat(s) == s[0] + 0x100 * s[1] + 0x10000 * s[2] + 0x1000000 * s[3]
            + 0x100000000 * s[4] + 0x10000000000 * s[5] + 0x1000000000000 * s[6]
            + 0x100000000000000 * s[7],
{
    reveal_with_fuel(le_bytes_to_nat, 9);
    let t1 = s.subrange(1, 8);
    let t2 = t1.subrange(1, 7);
    let t3 = t2.subrange(1, 6);
    let t4 = t3.subrange(1, 5);
    let t5 = t4.subrange(1, 4);
    let t6 = t5.subrange(1, 3);
    let t7 = t6.subrange(1, 2);
    assert(t1[0] == s[1] && t2[0] == s[2] && t3[0] == s[3] && t4[0] == s[4] && t5[0] == s[5]
        && t6[0] == s[6] && t7[0] == s[7]);
    assert(t7.subrange(1, 1).len() == 0);
}

proof fn lemma_be_8(s: Seq<u8>)
    requires
        s.len() == 8,
    ensures
        be_bytes_to_nat(s) == 0x100000000000000 * s[0] + 0x1000000000000 * s[1]
            + 0x10000000000 * s[2] + 0x100000000 * s[3] + 0x1000000 * s[4] + 0x10000 * s[5]
            + 0x100 * s[6] + s[7],
{
    reveal_with_fuel(be_bytes_to_nat, 9);
    let t1 = s.subrange(0, 7);
    let t2 = t1.subrange(0, 6);
    let t3 = t2.subrange(0, 5);
    let t4 = t3.subrange(0, 4);
    let t5 = t4.subrange(0, 3);
    let t6 = t5.subrange(0, 2);
    let t7 = t6.subrange(0, 1);
    assert(t1[6] == s[6] && t2[5] == s[5] && t3[4] == s[4] && t4[3] == s[3] && t5[2] == s[2]
        && t6[1] == s[1] && t7[0] == s[0]);
    assert(t7.subrange(0, 0).len() == 0);
}

/// Decoding of a fixed-width unsigned integer from the front of a byte slice.
pub trait FromBytesEndianned: Sized {
    /// How many bytes one value of this type occupies in the file.
    spec fn spec_byte_width() -> nat;

    /// The decoded value as an unbounded natural number.
    spec fn spec_to_nat(self) -> nat;

    /// Reads the first `spec_byte_width()` bytes of `bytes` in the given byte
    /// order.
    fn from_bytes(bytes: &[u8], endianness: Endianness) -> (r: Self)
        requires
            bytes@.len() >= Self::spec_byte_width(),
        ensures
            r.spec_to_nat() == field_value(
                bytes@.subrange(0, Self::spec_byte_width() as int),
                endianness,
            ),
    ;
}

impl FromBytesEndianned for u16 {
    open spec fn spec_byte_width() -> nat {
        2
    }

    open spec fn spec_to_nat(self) -> nat {
        self as nat
    }

    fn from_bytes(bytes: &[u8], endianness: Endianness) -> (r: u16) {
        let b0 = bytes[0];
        let b1 = bytes[1];
        proof {
            let t = bytes@.subrange(0, 2);
            lemma_le_2(t);
            lemma_be_2(t);
        }
        match endianness {
            Endianness::Little => b0 as u16 + 0x100 * (b1 as u16),
            Endianness::Big => 0x100 * (b0 as u16) + b1 as u16,
        }
    }
}

impl FromBytesEndianned for u32 {
    open spec fn spec_byte_width() -> nat {
        4
    }

    open spec fn spec_to_nat(self) -> nat {
        self as nat
    }

    fn from_bytes(bytes: &[u8], endianness: Endianness) -> (r: u32) {
        let b0 = bytes[0];
        let b1 = bytes[1];
        let b2 = bytes[2];
        let b3 = bytes[3];
        proof {
            let t = bytes@.subrange(0, 4);
            lemma_le_4(t);
            lemma_be_4(t);
        }
        match endianness {
            Endianness::Little => b0 as u32 + 0x100 * (b1 as u32) + 0x10000 * (b2 as u32)
                + 0x1000000 * (b3 as u32),
            Endianness::Big => 0x1000000 * (b0 as u32) + 0x10000 * (b1 as u32) + 0x100 * (
            b2 as u32) + b3 as u32,
        }
    }
}

impl FromBytesEndianned for u64 {
    open spec fn spec_byte_width() -> nat {
        8
    }

    open spec fn spec_to_nat(self) -> nat {
        self as nat
    }

    fn from_bytes(bytes: &[u8], endianness: Endianness) -> (r: u64) {
        let b0 = bytes[0];
        let b1 = bytes[1];
        let b2 = bytes[2];
        let b3 = bytes[3];
        let b4 = bytes[4];
        let b5 = bytes[5];
        let b6 = bytes[6];
        let b7 = bytes[7];
        proof {
            let t = bytes@.subrange(0, 8);
            lemma_le_8(t);
            lemma_be_8(t);
        }
        match endianness {
            Endianness::Little => b0 as u64 + 0x100 * (b1 as u64) + 0x10000 * (b2 as u64)
                + 0x1000000 * (b3 as u64) + 0x100000000 * (b4 as u64) + 0x10000000000 * (
            b5 as u64) + 0x1000000000000 * (b6 as u64) + 0x100000000000000 * (b7 as u64),
            Endianness::Big => 0x100000000000000 * (b0 as u64) + 0x1000000000000 * (b1 as u64)
                + 0x10000000000 * (b2 as u64) + 0x100000000 * (b3 as u64) + 0x1000000 * (
            b4 as u64) + 0x10000 * (b5 as u64) + 0x100 * (b6 as u64) + b7 as u64,
        }
    }
}

/// The `u16` at byte offset `off` of `s`, under byte order `e`.
pub open spec fn spec_u16_at(s: Seq<u8>, off: int, e: Endianness) -> u16 {
    field_value(s.subrange(off, off + 2), e) as u16
}

/// The `u32` at byte offset `off` of `s`, under byte order `e`.
pub open spec fn spec_u32_at(s: Seq<u8>, off: int, e: Endianness) -> u32 {
    field_value(s.subrange(off, off + 4), e) as u32
}

/// The `u64` at byte offset `off` of `s`, under byte order `e`.
pub open spec fn spec_u64_at(s: Seq<u8>, off: int, e: Endianness) -> u64 {
    field_value(s.subrange(off, off + 8), e) as u64
}

/// Reads the `u16` field at byte offset `offset`.
pub fn read_u16(bytes: &[u8], offset: usize, endianness: Endianness) -> (r: u16)
    requires
        offset + 2 <= bytes@.len(),
    ensures
        r == spec_u16_at(bytes@, offset as int, endianness),
{
    // binding the length pins it below usize::MAX for the offset arithmetic
    let _n = bytes.len();
    let s = vstd::slice::slice_subrange(bytes, offset, offset + 2);
    let r = u16::from_bytes(s, endianness);
    proof {
        assert(s@.subrange(0, 2) =~= bytes@.subrange(offset as int, offset as int + 2));
        lemma_field_value_bound(s@.subrange(0, 2), endianness);
        lemma_pow256_values();
    }
    r
}

/// Reads the `u32` field at byte offset `offset`.
pub fn read_u32(bytes: &[u8], offset: usize, endianness: Endianness) -> (r: u32)
    requires
        offset + 4 <= bytes@.len(),
    ensures
        r == spec_u32_at(bytes@, offset as int, endianness),
{
    // binding the length pins it below usize::MAX for the offset arithmetic
    let _n = bytes.len();
    let s = vstd::slice::slice_subrange(bytes, offset, offset + 4);
    let r = u32::from_bytes(s, endianness);
    proof {
        assert(s@.subrange(0, 4) =~= bytes@.subrange(offset as int, offset as int + 4));
        lemma_field_value_bound(s@.subrange(0, 4), endianness);
        lemma_pow256_values();
    }
    r
}

/// Reads the `u64` field at byte offset `offset`.
pub fn read_u64(bytes: &[u8], offset: usize, endianness: Endianness) -> (r: u64)
    requires
        offset + 8 <= bytes@.len(),
    ensures
        r == spec_u64_at(bytes@, offset as int, endianness),
{
    // binding the length pins it below usize::MAX for the offset arithmetic
    let _n = bytes.len();
    let s = vstd::slice::slice_subrange(bytes, offset, offset + 8);
    let r = u64::from_bytes(s, endianness);
    proof {
        assert(s@.subrange(0, 8) =~= bytes@.subrange(offset as int, offset as int + 8));
        lemma_field_value_bound(s@.subrange(0, 8), endianness);
        lemma_pow256_values();
    }
    r
}

} // verus!
