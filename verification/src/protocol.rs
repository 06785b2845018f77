//! Wire protocol v2: the 36-byte beat packet.
//!
//! | Offset | Size | Field |
//! |--------|------|-------|
//! | 0      | 2    | sync, `0xBE 0xA7` |
//! | 2      | 1    | version, `0x02` |
//! | 3      | 1    | total length, 36 |
//! | 4      | 8    | send time, microseconds |
//! | 12     | 8    | time of the next downbeat, microseconds |
//! | 20     | 2    | tempo, BPM x 100 |
//! | 22     | 1    | beat in bar, from 0 |
//! | 23     | 1    | flags |
//! | 24     | 8    | time of the next beat, microseconds, 0 when unknown |
//! | 32     | 1    | channels on air, bit N for channel N + 1 |
//! | 33     | 1    | device number of the tempo master, 0 for none |
//! | 34     | 1    | reserved, 0 |
//! | 35     | 1    | CRC-8 over bytes 2 to 34 |
//!
//! Numbers are little-endian.

use vstd::prelude::*;
use crate::crc8::checksum;
use crate::le::{i64_from_le, i64_to_le, u16_from_le, u16_to_le};

verus! {

pub const SYNC_0: u8 = 0xBE;

pub const SYNC_1: u8 = 0xA7;

pub const SYNC: [u8; 2] = [SYNC_0, SYNC_1];

pub const VERSION: u8 = 0x02;

pub const TOTAL_LEN: u8 = 36;

pub const PACKET_SIZE: usize = 36;

/// Flag bit 0: the music is playing.
pub const FLAG_PLAYING: u8 = 0x01;

/// Flag bit 1: a CDJ is the timing authority.
pub const FLAG_CDJ_ACTIVE: u8 = 0x02;

/// What a beat packet says.
#[derive(Debug, Clone, Copy, PartialEq, Eq, Structural)]
pub struct PacketFields {
    pub send_time_us: i64,
    pub next_downbeat_us: i64,
    pub tempo_bpm_x100: u16,
    pub beat_in_bar: u8,
    pub flags: u8,
    pub next_beat_us: i64,
    pub on_air_mask: u8,
    pub master_device: u8,
}

/// The bytes that the checksum covers.
pub open spec fn packet_body(p: PacketFields) -> Seq<u8> {
    seq![VERSION, TOTAL_LEN] + crate::le::le_i64(p.send_time_us) + crate::le::le_i64(
        p.next_downbeat_us,
    ) + crate::le::le_u16(p.tempo_bpm_x100) + seq![p.beat_in_bar, p.flags] + crate::le::le_i64(
        p.next_beat_us,
    ) + seq![p.on_air_mask, p.master_device, 0u8]
}

/// The packet that says `p`.
pub open spec fn packet_bytes(p: PacketFields) -> Seq<u8> {
    seq![SYNC_0, SYNC_1] + packet_body(p) + seq![crate::crc8::packet_crc(packet_body(p))]
}

/// The bytes of a packet that its checksum covers.
pub open spec fn covered(packet: Seq<u8>) -> Seq<u8> {
    packet.subrange(2, 35)
}

/// A packet starts with the sync bytes.
pub open spec fn has_sync(packet: Seq<u8>) -> bool {
    packet[0] == SYNC_0 && packet[1] == SYNC_1
}

/// A packet carries the checksum of the bytes that it covers.
pub open spec fn has_good_crc(packet: Seq<u8>) -> bool {
    packet[35] == crate::crc8::packet_crc(covered(packet))
}

/// A packet that every receiver accepts.
pub open spec fn is_valid_packet(packet: Seq<u8>) -> bool {
    &&& packet.len() == PACKET_SIZE
    &&& has_sync(packet)
    &&& packet[2] == VERSION
    &&& has_good_crc(packet)
}

/// What a packet's bytes say, field by field.
pub open spec fn packet_fields(packet: Seq<u8>) -> PacketFields {
    PacketFields {
        send_time_us: crate::le::i64_of_le(packet.subrange(4, 12)),
        next_downbeat_us: crate::le::i64_of_le(packet.subrange(12, 20)),
        tempo_bpm_x100: crate::le::u16_of_le(packet.subrange(20, 22)),
        beat_in_bar: packet[22],
        flags: packet[23],
        next_beat_us: crate::le::i64_of_le(packet.subrange(24, 32)),
        on_air_mask: packet[32],
        master_device: packet[33],
    }
}

/// Every field stands where the wire format puts it, and nothing else stands in
/// the packet.
pub proof fn law_packet_layout(p: PacketFields)
    ensures
        packet_bytes(p).len() == PACKET_SIZE,
        packet_bytes(p)[0] == SYNC_0,
        packet_bytes(p)[1] == SYNC_1,
        packet_bytes(p)[2] == VERSION,
        packet_bytes(p)[3] == TOTAL_LEN,
        packet_bytes(p).subrange(4, 12) == crate::le::le_i64(p.send_time_us),
        packet_bytes(p).subrange(12, 20) == crate::le::le_i64(p.next_downbeat_us),
        packet_bytes(p).subrange(20, 22) == crate::le::le_u16(p.tempo_bpm_x100),
        packet_bytes(p)[22] == p.beat_in_bar,
        packet_bytes(p)[23] == p.flags,
        packet_bytes(p).subrange(24, 32) == crate::le::le_i64(p.next_beat_us),
        packet_bytes(p)[32] == p.on_air_mask,
        packet_bytes(p)[33] == p.master_device,
        packet_bytes(p)[34] == 0,
        packet_bytes(p)[35] == crate::crc8::packet_crc(packet_bytes(p).subrange(2, 35)),
{
    let b = packet_bytes(p);
    assert(b.subrange(2, 35) =~= packet_body(p));
    assert(b.subrange(4, 12) =~= crate::le::le_i64(p.send_time_us));
    assert(b.subrange(12, 20) =~= crate::le::le_i64(p.next_downbeat_us));
    assert(b.subrange(20, 22) =~= crate::le::le_u16(p.tempo_bpm_x100));
    assert(b.subrange(24, 32) =~= crate::le::le_i64(p.next_beat_us));
}

/// A packet reads back as it was built: it is valid, and its bytes say exactly
/// the fields that it was built from.
pub proof fn law_packet_reads_back(p: PacketFields)
    ensures
        is_valid_packet(packet_bytes(p)),
        packet_fields(packet_bytes(p)) == p,
{
    law_packet_layout(p);
    crate::le::law_i64_reads_back(p.send_time_us);
    crate::le::law_i64_reads_back(p.next_downbeat_us);
    crate::le::law_u16_reads_back(p.tempo_bpm_x100);
    crate::le::law_i64_reads_back(p.next_beat_us);
}

/// Different beats make different packets.
pub proof fn law_packets_differ(p: PacketFields, q: PacketFields)
    requires
        p != q,
    ensures
        packet_bytes(p) != packet_bytes(q),
{
    law_packet_reads_back(p);
    law_packet_reads_back(q);
}

/// A valid packet with one byte changed, whichever byte that is, is no longer
/// valid.
pub proof fn law_one_byte_damage_invalidates(packet: Seq<u8>, damaged: Seq<u8>, at: int)
    requires
        is_valid_packet(packet),
        damaged.len() == packet.len(),
        0 <= at < packet.len(),
        damaged[at] != packet[at],
        forall|j: int| 0 <= j < packet.len() && j != at ==> damaged[j] == packet[j],
    ensures
        !is_valid_packet(damaged),
{
    if 2 <= at < 35 {
        let a = covered(packet);
        let b = covered(damaged);
        assert(a[at - 2] != b[at - 2]);
        crate::crc8::law_one_byte_damage_changes_crc(a, b, at - 2);
    } else if at == 35 {
        assert(covered(packet) =~= covered(damaged));
    }
}

/// Builds the packet that says the given fields.
pub fn build_packet(
    send_time_us: i64,
    next_downbeat_us: i64,
    tempo_bpm_x100: u16,
    beat_in_bar: u8,
    flags: u8,
    next_beat_us: i64,
    on_air_mask: u8,
    master_device: u8,
) -> (packet: [u8; PACKET_SIZE])
    ensures
        packet@ == packet_bytes(
            (PacketFields {
                send_time_us,
                next_downbeat_us,
                tempo_bpm_x100,
                beat_in_bar,
                flags,
                next_beat_us,
                on_air_mask,
                master_device,
            }),
        ),
{
    let ghost p = PacketFields {
        send_time_us,
        next_downbeat_us,
        tempo_bpm_x100,
        beat_in_bar,
        flags,
        next_beat_us,
        on_air_mask,
        master_device,
    };
    let mut buf: [u8; PACKET_SIZE] = [0u8; PACKET_SIZE];
    buf[0] = SYNC_0;
    buf[1] = SYNC_1;
    buf[2] = VERSION;
    buf[3] = TOTAL_LEN;
    put(&mut buf, 4, &i64_to_le(send_time_us));
    put(&mut buf, 12, &i64_to_le(next_downbeat_us));
    put(&mut buf, 20, &u16_to_le(tempo_bpm_x100));
    buf[22] = beat_in_bar;
    buf[23] = flags;
    put(&mut buf, 24, &i64_to_le(next_beat_us));
    buf[32] = on_air_mask;
    buf[33] = master_device;
    buf[34] = 0;
    assert(buf@.subrange(2, 35) =~= packet_body(p));
    buf[35] = checksum(&buf[2..35]);
    assert(buf@ =~= packet_bytes(p));
    buf
}

/// What a packet says.
pub fn read_packet(packet: &[u8; PACKET_SIZE]) -> (fields: PacketFields)
    ensures
        fields == packet_fields(packet@),
{
    PacketFields {
        send_time_us: i64_from_le(packet, 4),
        next_downbeat_us: i64_from_le(packet, 12),
        tempo_bpm_x100: u16_from_le(packet, 20),
        beat_in_bar: packet[22],
        flags: packet[23],
        next_beat_us: i64_from_le(packet, 24),
        on_air_mask: packet[32],
        master_device: packet[33],
    }
}

/// Copies `bytes` into `buf` from `at` on.
fn put(buf: &mut [u8; PACKET_SIZE], at: usize, bytes: &[u8])
    requires
        at + bytes@.len() <= PACKET_SIZE,
    ensures
        final(buf)@ == old(buf)@.take(at as int) + bytes@ + old(buf)@.skip(at + bytes@.len()),
{
    let ghost start = buf@;
    let mut i: usize = 0;
    while i < bytes.len()
        invariant
            i <= bytes.len(),
            at + bytes@.len() <= PACKET_SIZE,
            start.len() == PACKET_SIZE,
            buf@ == start.take(at as int) + bytes@.take(i as int) + start.skip(at + i),
        decreases bytes.len() - i,
    {
        buf[at + i] = bytes[i];
        i = i + 1;
        assert(buf@ =~= start.take(at as int) + bytes@.take(i as int) + start.skip(at + i));
    }
    assert(bytes@.take(bytes@.len() as int) =~= bytes@);
}

/// Every field is read from its own bytes, whatever the rest of the packet holds.
pub proof fn law_fields_are_read_in_place(packet: Seq<u8>)
    requires
        packet.len() == 36,
    ensures
        packet_fields(packet).send_time_us == crate::le::i64_of_le(packet.subrange(4, 12)),
        packet_fields(packet).next_downbeat_us == crate::le::i64_of_le(packet.subrange(12, 20)),
        packet_fields(packet).tempo_bpm_x100 == packet[20] + 256 * packet[21],
        packet_fields(packet).beat_in_bar == packet[22],
        packet_fields(packet).flags == packet[23],
        packet_fields(packet).next_beat_us == crate::le::i64_of_le(packet.subrange(24, 32)),
        packet_fields(packet).on_air_mask == packet[32],
        packet_fields(packet).master_device == packet[33],
{
    crate::le::law_u16_is_little_endian(0, packet.subrange(20, 22));
}

/// A packet is valid exactly when it is 36 bytes long, starts with the sync bytes and
/// the version, and ends with the checksum of what stands between.
pub proof fn law_what_makes_a_packet_valid(packet: Seq<u8>)
    ensures
        is_valid_packet(packet) <==> {
            &&& packet.len() == 36
            &&& packet[0] == 0xBE
            &&& packet[1] == 0xA7
            &&& packet[2] == 0x02
            &&& packet[35] == crate::crc8::packet_crc(packet.subrange(2, 35))
        },
{
}

} // verus!
