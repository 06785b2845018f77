//! Little-endian fields.

use vstd::prelude::*;

verus! {

/// The two bytes of `v`, least significant first.
pub open spec fn le_u16(v: u16) -> Seq<u8> {
    seq![v as u8, (v >> 8) as u8]
}

/// The eight bytes of `v` in two's complement, least significant first.
pub open spec fn le_i64(v: i64) -> Seq<u8> {
    let u = v as u64;
    seq![
        u as u8,
        (u >> 8) as u8,
        (u >> 16) as u8,
        (u >> 24) as u8,
        (u >> 32) as u8,
        (u >> 40) as u8,
        (u >> 48) as u8,
        (u >> 56) as u8,
    ]
}

/// The number whose two bytes, least significant first, are `s`.
pub open spec fn u16_of_le(s: Seq<u8>) -> u16 {
    s[0] as u16 | (s[1] as u16) << 8
}

/// The number whose eight bytes in two's complement, least significant first,
/// are `s`.
pub open spec fn i64_of_le(s: Seq<u8>) -> i64 {
    (s[0] as u64 | (s[1] as u64) << 8 | (s[2] as u64) << 16 | (s[3] as u64) << 24 | (s[4] as u64)
        << 32 | (s[5] as u64) << 40 | (s[6] as u64) << 48 | (s[7] as u64) << 56) as i64
}

/// Reading back a written number gives that number.
pub proof fn law_u16_reads_back(v: u16)
    ensures
        u16_of_le(le_u16(v)) == v,
{
    assert(v as u8 as u16 | ((v >> 8) as u8 as u16) << 8 == v) by (bit_vector);
}

/// Reading back a written number gives that number.
pub proof fn law_i64_reads_back(v: i64)
    ensures
        i64_of_le(le_i64(v)) == v,
{
    let u = v as u64;
    assert((u as u8 as u64 | ((u >> 8) as u8 as u64) << 8 | ((u >> 16) as u8 as u64) << 16 | ((u
        >> 24) as u8 as u64) << 24 | ((u >> 32) as u8 as u64) << 32 | ((u >> 40) as u8 as u64)
        << 40 | ((u >> 48) as u8 as u64) << 48 | ((u >> 56) as u8 as u64) << 56) == u)
        by (bit_vector);
    assert((v as u64) as i64 == v) by (bit_vector);
}

/// The two bytes of `v`, least significant first.
pub fn u16_to_le(v: u16) -> (bytes: [u8; 2])
    ensures
        bytes@ == le_u16(v),
{
    let bytes: [u8; 2] = [v as u8, (v >> 8) as u8];
    assert(bytes@ =~= le_u16(v));
    bytes
}

/// The eight bytes of `v`, least significant first.
pub fn i64_to_le(v: i64) -> (bytes: [u8; 8])
    ensures
        bytes@ == le_i64(v),
{
    let u: u64 = v as u64;
    let bytes: [u8; 8] = [
        u as u8,
        (u >> 8) as u8,
        (u >> 16) as u8,
        (u >> 24) as u8,
        (u >> 32) as u8,
        (u >> 40) as u8,
        (u >> 48) as u8,
        (u >> 56) as u8,
    ];
    assert(bytes@ =~= le_i64(v));
    bytes
}

/// The number whose bytes stand in `buf` from `at` on.
pub fn u16_from_le(buf: &[u8], at: usize) -> (v: u16)
    requires
        at + 2 <= buf@.len(),
    ensures
        v == u16_of_le(buf@.subrange(at as int, at + 2)),
{
    buf[at] as u16 | (buf[at + 1] as u16) << 8
}

/// The number whose bytes stand in `buf` from `at` on.
pub fn i64_from_le(buf: &[u8], at: usize) -> (v: i64)
    requires
        at + 8 <= buf@.len(),
    ensures
        v == i64_of_le(buf@.subrange(at as int, at + 8)),
{
    (buf[at] as u64 | (buf[at + 1] as u64) << 8 | (buf[at + 2] as u64) << 16 | (buf[at + 3] as u64)
        << 24 | (buf[at + 4] as u64) << 32 | (buf[at + 5] as u64) << 40 | (buf[at + 6] as u64) << 48
        | (buf[at + 7] as u64) << 56) as i64
}

/// The two bytes of a number are its digits to the base 256, lowest first, and the
/// number is read off any two bytes as such.
pub proof fn law_u16_is_little_endian(v: u16, s: Seq<u8>)
    requires
        s.len() == 2,
    ensures
        le_u16(v).len() == 2,
        le_u16(v)[0] + 256 * le_u16(v)[1] == v,
        u16_of_le(s) == s[0] + 256 * s[1],
{
    let a = s[0];
    let b = s[1];
    assert((v as u8) + 256 * ((v >> 8) as u8) == v) by (bit_vector);
    assert((a as u16 | (b as u16) << 8) == a + 256 * b) by (bit_vector);
}

/// The eight bytes of a number are the digits to the base 256, lowest first, of the
/// number itself or, when it is negative, of its two's complement; and the number is
/// read off any eight bytes as such.
pub proof fn law_i64_is_little_endian(v: i64, s: Seq<u8>)
    requires
        s.len() == 8,
    ensures
        le_i64(v).len() == 8,
        digits_value(le_i64(v)) == (if v >= 0 {
            v as int
        } else {
            v + 0x1_0000_0000_0000_0000
        }),
        digits_value(s) == (if i64_of_le(s) >= 0 {
            i64_of_le(s) as int
        } else {
            i64_of_le(s) + 0x1_0000_0000_0000_0000
        }),
{
    let u = v as u64;
    let b = le_i64(v);
    lemma_digits(b[0], b[1], b[2], b[3], b[4], b[5], b[6], b[7]);
    assert((u as u8 as u64 | ((u >> 8) as u8 as u64) << 8 | ((u >> 16) as u8 as u64) << 16 | ((u
        >> 24) as u8 as u64) << 24 | ((u >> 32) as u8 as u64) << 32 | ((u >> 40) as u8 as u64)
        << 40 | ((u >> 48) as u8 as u64) << 48 | ((u >> 56) as u8 as u64) << 56) == u)
        by (bit_vector);
    lemma_twos_complement(u);
    assert((v as u64) as i64 == v) by (bit_vector);
    lemma_digits(s[0], s[1], s[2], s[3], s[4], s[5], s[6], s[7]);
    lemma_twos_complement(
        s[0] as u64 | (s[1] as u64) << 8 | (s[2] as u64) << 16 | (s[3] as u64) << 24 | (s[4] as u64)
            << 32 | (s[5] as u64) << 40 | (s[6] as u64) << 48 | (s[7] as u64) << 56,
    );
}

/// The value of eight digits to the base 256, lowest first.
pub open spec fn digits_value(s: Seq<u8>) -> int {
    s[0] + 0x100 * s[1] + 0x1_0000 * s[2] + 0x100_0000 * s[3] + 0x1_0000_0000 * s[4]
        + 0x100_0000_0000 * s[5] + 0x1_0000_0000_0000 * s[6] + 0x100_0000_0000_0000 * s[7]
}

/// Shifting bytes into place and summing them up is one thing.
proof fn lemma_digits(a: u8, b: u8, c: u8, d: u8, e: u8, f: u8, g: u8, h: u8)
    ensures
        (a as u64 | (b as u64) << 8 | (c as u64) << 16 | (d as u64) << 24 | (e as u64) << 32 | (
        f as u64) << 40 | (g as u64) << 48 | (h as u64) << 56) == a + 0x100 * b + 0x1_0000 * c
            + 0x100_0000 * d + 0x1_0000_0000 * e + 0x100_0000_0000 * f + 0x1_0000_0000_0000 * g
            + 0x100_0000_0000_0000 * h,
{
    let w: u64 = a as u64 | (b as u64) << 8 | (c as u64) << 16 | (d as u64) << 24;
    let x: u64 = w | (e as u64) << 32 | (f as u64) << 40 | (g as u64) << 48 | (h as u64) << 56;
    assert((a as u64 | (b as u64) << 8 | (c as u64) << 16 | (d as u64) << 24) == a + 0x100 * b
        + 0x1_0000 * c + 0x100_0000 * d) by (bit_vector);
    assert((w | (e as u64) << 32 | (f as u64) << 40 | (g as u64) << 48 | (h as u64) << 56) == w
        + 0x1_0000_0000 * e + 0x100_0000_0000 * f + 0x1_0000_0000_0000 * g + 0x100_0000_0000_0000
        * h) by (bit_vector)
        requires
            w <= 0xFFFF_FFFF,
    ;
}

/// What a word stands for as a signed number.
proof fn lemma_twos_complement(u: u64)
    ensures
        u as i64 >= 0 ==> u == u as i64,
        (u as i64) < 0 ==> u == u as i64 + 0x1_0000_0000_0000_0000,
{
    assert((u as i64) >= 0 ==> u == (u as i64)) by (bit_vector);
    assert((u as i64) < 0 ==> u == (u as i64) + 0x1_0000_0000_0000_0000) by (bit_vector);
}

} // verus!
