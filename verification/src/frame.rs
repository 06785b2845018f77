//! What the host coordinator and the firmware share in making up a packet.

use vstd::prelude::*;
use crate::protocol::{FLAG_CDJ_ACTIVE, FLAG_PLAYING};

verus! {

/// The place in the bar that stands for "no beat shown yet".
pub const NO_BEAT_YET: u8 = 255;

/// The flags byte.
pub open spec fn flags_byte(playing: bool, cdj_active: bool) -> u8 {
    ((if playing {
        FLAG_PLAYING as int
    } else {
        0
    }) + (if cdj_active {
        FLAG_CDJ_ACTIVE as int
    } else {
        0
    })) as u8
}

/// A receiver reads both flags off the flags byte.
pub proof fn law_flags_read_back(playing: bool, cdj_active: bool)
    ensures
        flags_byte(playing, cdj_active) & FLAG_PLAYING != 0 <==> playing,
        flags_byte(playing, cdj_active) & FLAG_CDJ_ACTIVE != 0 <==> cdj_active,
{
    assert(0u8 & 1 == 0 && 1u8 & 1 == 1 && 2u8 & 1 == 0 && 3u8 & 1 == 1) by (bit_vector);
    assert(0u8 & 2 == 0 && 1u8 & 2 == 0 && 2u8 & 2 == 2 && 3u8 & 2 == 2) by (bit_vector);
}

/// A new bar begins: the beat shown is a downbeat, and the one shown before it
/// was another beat of a bar.
pub open spec fn bar_begins(last_beat_in_bar: u8, beat_in_bar: u8) -> bool {
    beat_in_bar == 0 && last_beat_in_bar != 0 && last_beat_in_bar != NO_BEAT_YET
}

/// The bar counter once `beat_in_bar` is shown. It wraps around.
pub open spec fn bars_counted(bar_counter: u8, last_beat_in_bar: u8, beat_in_bar: u8) -> u8 {
    if bar_begins(last_beat_in_bar, beat_in_bar) {
        ((bar_counter + 1) % 256) as u8
    } else {
        bar_counter
    }
}

/// The flags byte.
pub fn flags_of(playing: bool, cdj_active: bool) -> (flags: u8)
    ensures
        flags == flags_byte(playing, cdj_active),
{
    let mut flags: u8 = 0;
    if playing {
        flags = flags + FLAG_PLAYING;
    }
    if cdj_active {
        flags = flags + FLAG_CDJ_ACTIVE;
    }
    flags
}

/// The bar counter once `beat_in_bar` is shown.
pub fn count_bar(bar_counter: u8, last_beat_in_bar: u8, beat_in_bar: u8) -> (bars: u8)
    ensures
        bars == bars_counted(bar_counter, last_beat_in_bar, beat_in_bar),
{
    if beat_in_bar == 0 && last_beat_in_bar != 0 && last_beat_in_bar != NO_BEAT_YET {
        bar_counter.wrapping_add(1)
    } else {
        bar_counter
    }
}

/// The flags byte has two bits, the playing flag in bit 0 and the deck's in bit 1.
pub proof fn law_flags_have_two_bits(playing: bool, cdj_active: bool)
    ensures
        flags_byte(playing, cdj_active) < 4,
        flags_byte(playing, cdj_active) % 2 == 1 <==> playing,
        flags_byte(playing, cdj_active) / 2 == 1 <==> cdj_active,
{
}

/// Bars are counted on the downbeat: one more, around 256, when a downbeat follows
/// another place of a bar, and none otherwise.
pub proof fn law_bars_are_counted_on_downbeats(bars: u8, last: u8, beat: u8)
    ensures
        beat == 0 && 1 <= last <= 254 && bars < 255 ==> bars_counted(bars, last, beat) == bars + 1,
        beat == 0 && 1 <= last <= 254 && bars == 255 ==> bars_counted(bars, last, beat) == 0,
        beat != 0 || last == 0 || last == 255 ==> bars_counted(bars, last, beat) == bars,
{
}

} // verus!
