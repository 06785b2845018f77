//! The packet checksum: CRC-8, polynomial 0x31, initial value 0x00, most
//! significant bit first, no final XOR. This is not CRC-8/MAXIM-DOW, which is
//! reflected.

use vstd::prelude::*;

verus! {

/// Generator polynomial, highest-order term omitted.
pub const CRC_POLY: u8 = 0x31;

/// Register contents before the first message bit.
pub const CRC_INIT: u8 = 0x00;

/// One clock of the shift register: the bit that leaves at the top decides
/// whether the feedback taps fire.
pub open spec fn crc8_bit(poly: u8, register: u8) -> u8 {
    if register & 0x80 != 0 {
        (register << 1) ^ poly
    } else {
        register << 1
    }
}

/// `n` clocks of the shift register.
pub open spec fn crc8_clock(poly: u8, register: u8, n: nat) -> u8
    decreases n,
{
    if n == 0 {
        register
    } else {
        crc8_bit(poly, crc8_clock(poly, register, (n - 1) as nat))
    }
}

/// The register after one message byte has been read, top bit first.
pub open spec fn crc8_byte(poly: u8, register: u8, byte: u8) -> u8 {
    crc8_clock(poly, register ^ byte, 8)
}

/// The register after all of `data` has been read, starting from `init`.
pub open spec fn crc8(poly: u8, init: u8, data: Seq<u8>) -> u8
    decreases data.len(),
{
    if data.len() == 0 {
        init
    } else {
        crc8_byte(poly, crc8(poly, init, data.drop_last()), data.last())
    }
}

/// The checksum that every packet carries.
pub open spec fn packet_crc(data: Seq<u8>) -> u8 {
    crc8(CRC_POLY, CRC_INIT, data)
}

/// Calls `crc::Crc::<u8>::checksum` on an eight-bit algorithm that reads bytes
/// most significant bit first, leaves the result unreflected and applies no
/// final XOR. Claimed: the result is the shift register's contents after
/// `data`, with polynomial `POLY` and initial contents `INIT`. The algorithm's
/// `check` and `residue` values are documentation that `checksum` never reads.
#[verifier::external_body]
fn crc_checksum<const POLY: u8, const INIT: u8>(data: &[u8]) -> (sum: u8)
    ensures
        sum == crc8(POLY, INIT, data@),
{
    crc::Crc::<u8>::new(
        &crc::Algorithm {
            width: 8,
            poly: POLY,
            init: INIT,
            refin: false,
            refout: false,
            xorout: 0x00,
            check: 0x00,
            residue: 0x00,
        },
    ).checksum(data)
}

/// The checksum as the sending side computes it.
pub fn checksum(data: &[u8]) -> (sum: u8)
    ensures
        sum == packet_crc(data@),
{
    crc_checksum::<CRC_POLY, CRC_INIT>(data)
}

/// The checksum as the receiving side computes it: the shift register, clocked
/// bit by bit.
pub fn firefly_crc8(data: &[u8]) -> (sum: u8)
    ensures
        sum == packet_crc(data@),
{
    let mut crc: u8 = CRC_INIT;
    let mut i: usize = 0;
    assert(data@.take(0) =~= Seq::<u8>::empty());
    while i < data.len()
        invariant
            i <= data.len(),
            crc == packet_crc(data@.take(i as int)),
        decreases data.len() - i,
    {
        crc = crc ^ data[i];
        let ghost loaded = crc;
        let mut n: u8 = 0;
        while n < 8
            invariant
                n <= 8,
                crc == crc8_clock(CRC_POLY, loaded, n as nat),
            decreases 8 - n,
        {
            if crc & 0x80 != 0 {
                crc = (crc << 1) ^ CRC_POLY;
            } else {
                crc = crc << 1;
            }
            n = n + 1;
        }
        assert(data@.take(i + 1).drop_last() =~= data@.take(i as int));
        assert(data@.take(i + 1).last() == data@[i as int]);
        i = i + 1;
    }
    assert(data@.take(data.len() as int) =~= data@);
    crc
}

/// The register never forgets: clocked equally often, different contents stay
/// different.
proof fn lemma_clock_injective(a: u8, b: u8, n: nat)
    requires
        a != b,
    ensures
        crc8_clock(CRC_POLY, a, n) != crc8_clock(CRC_POLY, b, n),
    decreases n,
{
    if n > 0 {
        lemma_clock_injective(a, b, (n - 1) as nat);
        let x = crc8_clock(CRC_POLY, a, (n - 1) as nat);
        let y = crc8_clock(CRC_POLY, b, (n - 1) as nat);
        assert(x != y ==> crc8_bit(0x31, x) != crc8_bit(0x31, y)) by (bit_vector);
    }
}

/// A register of zeros stays zero.
proof fn lemma_clock_zero(n: nat)
    ensures
        crc8_clock(CRC_POLY, 0, n) == 0,
    decreases n,
{
    if n > 0 {
        lemma_clock_zero((n - 1) as nat);
        assert(crc8_bit(0x31, 0) == 0) by (bit_vector);
    }
}

/// Damage confined to one byte never goes unnoticed: two messages of one length
/// that differ in exactly one byte have different checksums.
pub proof fn law_one_byte_damage_changes_crc(a: Seq<u8>, b: Seq<u8>, at: int)
    requires
        a.len() == b.len(),
        0 <= at < a.len(),
        a[at] != b[at],
        forall|j: int| 0 <= j < a.len() && j != at ==> a[j] == b[j],
    ensures
        packet_crc(a) != packet_crc(b),
    decreases a.len(),
{
    let n = a.len() - 1;
    let x = packet_crc(a.drop_last());
    let y = packet_crc(b.drop_last());
    let p = a.last();
    let q = b.last();
    if at == n {
        assert(a.drop_last() =~= b.drop_last());
    } else {
        law_one_byte_damage_changes_crc(a.drop_last(), b.drop_last(), at);
        assert(p == q);
    }
    assert(x == y && p != q || x != y && p == q ==> x ^ p != y ^ q) by (bit_vector);
    lemma_clock_injective(x ^ p, y ^ q, 8);
}

/// A message followed by its own checksum leaves the register at zero.
pub proof fn law_crc_residue_is_zero(data: Seq<u8>)
    ensures
        packet_crc(data.push(packet_crc(data))) == 0,
{
    let whole = data.push(packet_crc(data));
    assert(whole.drop_last() =~= data);
    let c = packet_crc(data);
    assert(c ^ c == 0) by (bit_vector);
    lemma_clock_zero(8);
}

/// A message of zeros has checksum zero, whatever its length.
pub proof fn law_crc_of_zeros_is_zero(data: Seq<u8>)
    requires
        forall|j: int| 0 <= j < data.len() ==> data[j] == 0,
    ensures
        packet_crc(data) == 0,
    decreases data.len(),
{
    if data.len() > 0 {
        law_crc_of_zeros_is_zero(data.drop_last());
        assert(0u8 ^ 0u8 == 0) by (bit_vector);
        lemma_clock_zero(8);
    }
}

/// The checksum of a longer message follows from that of the shorter one: the byte
/// that comes next meets the checksum so far, and the two together are read like the
/// one byte of a new message.
pub proof fn law_crc_goes_on_from_its_checksum(data: Seq<u8>, byte: u8)
    ensures
        packet_crc(Seq::empty()) == 0,
        packet_crc(data.push(byte)) == packet_crc(seq![packet_crc(data) ^ byte]),
{
    let c = packet_crc(data);
    let one = seq![c ^ byte];
    assert(data.push(byte).drop_last() =~= data);
    assert(one.drop_last() =~= Seq::<u8>::empty());
    assert(packet_crc(one.drop_last()) == 0);
    assert(0u8 ^ (c ^ byte) == c ^ byte) by (bit_vector);
}

/// The checksum of one byte is linear, and each of its bits adds its own remainder:
/// the powers of the generator's variable from the eighth on, divided by the generator.
pub proof fn law_crc_of_one_byte(a: u8, b: u8)
    ensures
        packet_crc(seq![a ^ b]) == packet_crc(seq![a]) ^ packet_crc(seq![b]),
        packet_crc(seq![0x01u8]) == 0x31,
        packet_crc(seq![0x02u8]) == 0x62,
        packet_crc(seq![0x04u8]) == 0xC4,
        packet_crc(seq![0x08u8]) == 0xB9,
        packet_crc(seq![0x10u8]) == 0x43,
        packet_crc(seq![0x20u8]) == 0x86,
        packet_crc(seq![0x40u8]) == 0x3D,
        packet_crc(seq![0x80u8]) == 0x7A,
{
    lemma_one_byte(a);
    lemma_one_byte(b);
    lemma_one_byte(a ^ b);
    lemma_one_byte(0x01);
    lemma_one_byte(0x02);
    lemma_one_byte(0x04);
    lemma_one_byte(0x08);
    lemma_one_byte(0x10);
    lemma_one_byte(0x20);
    lemma_one_byte(0x40);
    lemma_one_byte(0x80);
    assert(eight_clocks(a ^ b) == eight_clocks(a) ^ eight_clocks(b)) by (bit_vector);
    assert(eight_clocks(0x01) == 0x31 && eight_clocks(0x02) == 0x62 && eight_clocks(0x04) == 0xC4
        && eight_clocks(0x08) == 0xB9 && eight_clocks(0x10) == 0x43 && eight_clocks(0x20) == 0x86
        && eight_clocks(0x40) == 0x3D && eight_clocks(0x80) == 0x7A) by (bit_vector);
}

/// Eight clocks of the shift register, one after the other.
spec fn eight_clocks(x: u8) -> u8 {
    crc8_bit(
        0x31,
        crc8_bit(
            0x31,
            crc8_bit(
                0x31,
                crc8_bit(
                    0x31,
                    crc8_bit(0x31, crc8_bit(0x31, crc8_bit(0x31, crc8_bit(0x31, x)))),
                ),
            ),
        ),
    )
}

/// The checksum of one byte is eight clocks of the register that holds it.
proof fn lemma_one_byte(x: u8)
    ensures
        packet_crc(seq![x]) == eight_clocks(x),
{
    reveal_with_fuel(crc8_clock, 9);
    assert(seq![x].drop_last() =~= Seq::<u8>::empty());
    assert(packet_crc(seq![x].drop_last()) == 0);
    assert(0u8 ^ x == x) by (bit_vector);
}

} // verus!
