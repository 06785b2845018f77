//! Pro DJ Link packets of the decks: beats and status reports.
//!
//! Both kinds share an envelope:
//! - bytes 0..10: magic `Qspt1WmJOL`
//! - byte 10: packet kind, 0x28 for a beat, 0x0A for a status report
//! - bytes 11..31: device name
//! - byte 31: sub-type
//! - byte 32: reporting device number, 1 to 6
//!
//! A beat also has
//! - bytes 84..86: tempo, big-endian, BPM x 100
//! - byte 92: beat within bar, 1 to 4
//!
//! and a status report
//! - byte 0x7B: play state, bit 0x40 set while playing

use vstd::prelude::*;
use crate::beat_state::{Beat, CdjStatus};

verus! {

pub const MAGIC: [u8; 10] = [0x51, 0x73, 0x70, 0x74, 0x31, 0x57, 0x6D, 0x4A, 0x4F, 0x4C];

/// UDP port of beats.
pub const PORT_BEAT: u16 = 50001;

/// UDP port of status reports.
pub const PORT_STATUS: u16 = 50002;

pub const KIND_BEAT: u8 = 0x28;

pub const KIND_CDJ_STATUS: u8 = 0x0A;

/// The shortest beat packet.
pub const BEAT_LEN: usize = 96;

/// The shortest status report.
pub const STATUS_LEN: usize = 0x80;

const AT_KIND: usize = 10;

const AT_DEVICE: usize = 32;

const AT_TEMPO: usize = 84;

const AT_BEAT_WITHIN_BAR: usize = 92;

const AT_PLAY_STATE: usize = 0x7B;

const PLAY_BIT: u8 = 0x40;

/// What the receiver reports.
#[derive(Debug, Clone, Copy)]
pub enum DjLinkEvent {
    Beat(Beat),
    Status(CdjStatus),
}

/// A packet of the given kind, at least `min_len` bytes long.
pub open spec fn is_packet(buf: Seq<u8>, kind: u8, min_len: usize) -> bool {
    &&& buf.len() >= min_len
    &&& buf.subrange(0, 10) == MAGIC@
    &&& buf[10] == kind
}

/// A beat packet.
pub open spec fn is_beat(buf: Seq<u8>) -> bool {
    is_packet(buf, KIND_BEAT, BEAT_LEN)
}

/// A status report.
pub open spec fn is_status(buf: Seq<u8>) -> bool {
    is_packet(buf, KIND_CDJ_STATUS, STATUS_LEN)
}

/// What a beat packet says. The times of the beats to come are left to the beat
/// clock, which counts them from the tempo.
pub open spec fn beat_in(buf: Seq<u8>) -> Beat {
    Beat {
        device_number: buf[32],
        beat_within_bar: buf[92],
        effective_tempo_bpm: (buf[84] * 256 + buf[85]) as u16,
        next_beat_ms: None,
        next_bar_ms: None,
    }
}

/// What a status report says.
pub open spec fn status_in(buf: Seq<u8>) -> CdjStatus {
    CdjStatus { device_number: buf[32], is_playing: buf[0x7B] & 0x40 != 0 }
}

/// Whether `buf` starts with the magic bytes.
fn has_magic(buf: &[u8]) -> (yes: bool)
    requires
        buf@.len() >= 10,
    ensures
        yes == (buf@.subrange(0, 10) == MAGIC@),
{
    let mut i: usize = 0;
    while i < 10
        invariant
            i <= 10,
            buf@.len() >= 10,
            buf@.subrange(0, i as int) == MAGIC@.subrange(0, i as int),
        decreases 10 - i,
    {
        if buf[i] != MAGIC[i] {
            assert(buf@.subrange(0, 10)[i as int] != MAGIC@[i as int]);
            return false;
        }
        i = i + 1;
        assert(buf@.subrange(0, i as int) =~= MAGIC@.subrange(0, i as int));
    }
    assert(MAGIC@.subrange(0, 10) =~= MAGIC@);
    true
}

/// Reads a beat packet.
pub fn parse_beat(buf: &[u8]) -> (beat: Option<Beat>)
    ensures
        beat matches Some(b) ==> {
            &&& buf@.len() >= 96
            &&& b.device_number == buf@[32]
            &&& b.beat_within_bar == buf@[92]
            &&& b.effective_tempo_bpm == 256 * buf@[84] + buf@[85]
            &&& b.next_beat_ms is None
            &&& b.next_bar_ms is None
        },
        beat == (if is_beat(buf@) {
            Some(beat_in(buf@))
        } else {
            None
        }),
{
    if buf.len() < BEAT_LEN || !has_magic(buf) || buf[AT_KIND] != KIND_BEAT {
        return None;
    }
    Some(
        Beat {
            device_number: buf[AT_DEVICE],
            beat_within_bar: buf[AT_BEAT_WITHIN_BAR],
            effective_tempo_bpm: buf[AT_TEMPO] as u16 * 256 + buf[AT_TEMPO + 1] as u16,
            next_beat_ms: None,
            next_bar_ms: None,
        },
    )
}

/// Reads a status report.
pub fn parse_status(buf: &[u8]) -> (status: Option<CdjStatus>)
    ensures
        status matches Some(s) ==> {
            &&& buf@.len() >= 128
            &&& s.device_number == buf@[32]
            &&& s.is_playing == (buf@[123] & 0x40 != 0)
        },
        status == (if is_status(buf@) {
            Some(status_in(buf@))
        } else {
            None
        }),
{
    if buf.len() < STATUS_LEN || !has_magic(buf) || buf[AT_KIND] != KIND_CDJ_STATUS {
        return None;
    }
    Some(
        CdjStatus {
            device_number: buf[AT_DEVICE],
            is_playing: buf[AT_PLAY_STATE] & PLAY_BIT != 0,
        },
    )
}

/// What a datagram reports that came in on the beat port.
pub fn on_beat_port(buf: &[u8]) -> (event: Option<DjLinkEvent>)
    ensures
        event == (if is_beat(buf@) {
            Some(DjLinkEvent::Beat(beat_in(buf@)))
        } else {
            None
        }),
{
    match parse_beat(buf) {
        Some(beat) => Some(DjLinkEvent::Beat(beat)),
        None => None,
    }
}

/// What a datagram reports that came in on the status port.
pub fn on_status_port(buf: &[u8]) -> (event: Option<DjLinkEvent>)
    ensures
        event == (if is_status(buf@) {
            Some(DjLinkEvent::Status(status_in(buf@)))
        } else {
            None
        }),
{
    match parse_status(buf) {
        Some(status) => Some(DjLinkEvent::Status(status)),
        None => None,
    }
}

/// No datagram is both a beat and a status report.
pub proof fn law_kinds_are_disjoint(buf: Seq<u8>)
    ensures
        !(is_beat(buf) && is_status(buf)),
{
}

/// What makes a datagram a beat: at least 96 bytes, the ten magic bytes and the kind.
/// What makes it a status report: at least 128 bytes, the magic bytes and the other
/// kind. Nothing else is looked at.
pub proof fn law_what_makes_a_packet(buf: Seq<u8>)
    ensures
        is_beat(buf) <==> buf.len() >= 96 && buf[10] == 0x28 && forall|i: int|
            0 <= i < 10 ==> #[trigger] buf[i] == MAGIC@[i],
        is_status(buf) <==> buf.len() >= 128 && buf[10] == 0x0A && forall|i: int|
            0 <= i < 10 ==> #[trigger] buf[i] == MAGIC@[i],
        MAGIC@ == seq![0x51u8, 0x73, 0x70, 0x74, 0x31, 0x57, 0x6D, 0x4A, 0x4F, 0x4C],
{
    if buf.len() >= 10 {
        let start = buf.subrange(0, 10);
        if start == MAGIC@ {
            assert forall|i: int| 0 <= i < 10 implies #[trigger] buf[i] == MAGIC@[i] by {
                assert(start[i] == MAGIC@[i]);
            }
        } else if forall|i: int| 0 <= i < 10 ==> #[trigger] buf[i] == MAGIC@[i] {
            assert(start =~= MAGIC@);
        }
    }
}

/// A beat packet gives the deck's own count: beats 1 to 4 of a bar stand at places 0 to
/// 3, the tempo is the deck's, high byte first, and the device is the reporting one.
pub proof fn law_beat_is_read_as_written(buf: Seq<u8>, device: u8, place: u8, tempo: u16)
    requires
        is_beat(buf),
        place < 4,
        buf[32] == device,
        buf[84] == tempo / 256,
        buf[85] == tempo % 256,
        buf[92] == place + 1,
    ensures
        beat_in(buf).device_number == device,
        beat_in(buf).beat_within_bar == place + 1,
        beat_in(buf).place() == place,
        beat_in(buf).effective_tempo_bpm == tempo,
        beat_in(buf).next_beat_ms is None,
        beat_in(buf).next_bar_ms is None,
{
}

/// A status report gives the reporting device and its play bit, whatever the other
/// bits of the play state are.
pub proof fn law_status_is_read_as_written(buf: Seq<u8>, device: u8, rest: u8)
    requires
        is_status(buf),
        buf[32] == device,
        rest & 0x40 == 0,
    ensures
        status_in(buf).device_number == device,
        buf[123] == rest ==> !status_in(buf).is_playing,
        buf[123] == rest + 0x40 ==> status_in(buf).is_playing,
{
    assert(rest & 0x40 == 0 ==> rest + 0x40 <= 255 && ((rest + 0x40) as u8) & 0x40 == 0x40)
        by (bit_vector);
}

/// The place of a beat: one less than its number in the bar, the downbeat when the
/// number is unknown.
pub proof fn law_place_of_a_beat(beat: Beat)
    ensures
        beat.beat_within_bar > 0 ==> beat.place() + 1 == beat.beat_within_bar,
        beat.beat_within_bar == 0 ==> beat.place() == 0,
{
}

} // verus!
