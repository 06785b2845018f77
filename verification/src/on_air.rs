//! Mixer channels on air, as the bit mask that packets carry.

use std::collections::HashMap;
use vstd::prelude::*;

verus! {

/// The mixer reports channel `ch` as on air.
pub open spec fn channel_on_air(channels: Map<u8, bool>, ch: u8) -> bool {
    channels.dom().contains(ch) && channels[ch]
}

/// What channel `ch` adds to the mask: `weight` when it is on air.
pub open spec fn channel_weight(channels: Map<u8, bool>, ch: u8, weight: u8) -> u8 {
    if channel_on_air(channels, ch) {
        weight
    } else {
        0
    }
}

/// The mask of the channels on air: each of the channels 1 to 8 has its own
/// power of two, and other channels have none.
pub open spec fn on_air_mask(channels: Map<u8, bool>) -> int {
    channel_weight(channels, 1, 0x01) + channel_weight(channels, 2, 0x02) + channel_weight(
        channels,
        3,
        0x04,
    ) + channel_weight(channels, 4, 0x08) + channel_weight(channels, 5, 0x10) + channel_weight(
        channels,
        6,
        0x20,
    ) + channel_weight(channels, 7, 0x40) + channel_weight(channels, 8, 0x80)
}

/// Bit N of the mask says whether channel N + 1 is on air.
pub proof fn law_mask_bits(channels: Map<u8, bool>, n: u8)
    requires
        n < 8,
    ensures
        0 <= on_air_mask(channels) <= 255,
        ((on_air_mask(channels) as u8) >> n) & 1 == 1 <==> channels.contains_pair(
            (n + 1) as u8,
            true,
        ),
{
    let a = channel_weight(channels, 1, 0x01);
    let b = channel_weight(channels, 2, 0x02);
    let c = channel_weight(channels, 3, 0x04);
    let d = channel_weight(channels, 4, 0x08);
    let e = channel_weight(channels, 5, 0x10);
    let f = channel_weight(channels, 6, 0x20);
    let g = channel_weight(channels, 7, 0x40);
    let h = channel_weight(channels, 8, 0x80);
    let mask: u8 = (a + b + c + d + e + f + g + h) as u8;
    assert(((mask >> n) & 1 == 1) == (n == 0 && a == 0x01 || n == 1 && b == 0x02 || n == 2 && c
        == 0x04 || n == 3 && d == 0x08 || n == 4 && e == 0x10 || n == 5 && f == 0x20 || n == 6 && g
        == 0x40 || n == 7 && h == 0x80)) by (bit_vector)
        requires
            n < 8,
            a == 0 || a == 0x01,
            b == 0 || b == 0x02,
            c == 0 || c == 0x04,
            d == 0 || d == 0x08,
            e == 0 || e == 0x10,
            f == 0 || f == 0x20,
            g == 0 || g == 0x40,
            h == 0 || h == 0x80,
            mask == (a + b + c + d + e + f + g + h) as u8,
    ;
}

/// Channels outside 1 to 8 do not show in the mask.
pub proof fn law_other_channels_do_not_show(a: Map<u8, bool>, b: Map<u8, bool>)
    requires
        forall|ch: u8|
            1 <= ch <= 8 ==> #[trigger] a.contains_pair(ch, true) == b.contains_pair(ch, true),
    ensures
        on_air_mask(a) == on_air_mask(b),
{
    assert forall|ch: u8| 1 <= ch <= 8 implies channel_on_air(a, ch) == channel_on_air(b, ch) by {
        assert(a.contains_pair(ch, true) == b.contains_pair(ch, true));
    }
}

/// The mask of the channels on air.
pub fn on_air_to_mask(channels: &HashMap<u8, bool>) -> (mask: u8)
    ensures
        mask == on_air_mask(channels@),
{
    let low: u8 = weigh(channels, 1, 0x01) + weigh(channels, 2, 0x02) + weigh(channels, 3, 0x04)
        + weigh(channels, 4, 0x08);
    let high: u8 = weigh(channels, 5, 0x10) + weigh(channels, 6, 0x20) + weigh(channels, 7, 0x40)
        + weigh(channels, 8, 0x80);
    low + high
}

/// `weight` when channel `ch` is on air, else 0.
fn weigh(channels: &HashMap<u8, bool>, ch: u8, weight: u8) -> (added: u8)
    ensures
        added == channel_weight(channels@, ch, weight),
{
    broadcast use vstd::std_specs::hash::group_hash_axioms;

    match channels.get(&ch) {
        Some(on) => if *on {
            weight
        } else {
            0
        },
        None => 0,
    }
}

} // verus!
