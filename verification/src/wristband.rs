//! The wristband: reads packets, follows the sender's clock and schedules its
//! flashes.

use vstd::prelude::*;
use crate::crc8::firefly_crc8;
use crate::protocol::{
    read_packet, FLAG_CDJ_ACTIVE, FLAG_PLAYING, PACKET_SIZE, SYNC_0, SYNC_1, VERSION,
};

verus! {

/// The wristband's packet parsing and clock tracking.
pub struct WristbandSim {
    /// How far the sender's clock is ahead of the local one.
    pub clock_offset_us: i64,
    pub offset_initialized: bool,
    pub next_downbeat_us: i64,
    pub next_beat_us: i64,
    pub tempo_x100: u16,
    pub beat_in_bar: u8,
    pub flags: u8,
    pub on_air_mask: u8,
    pub master_device: u8,
    pub packets_received: u32,
}

/// The exponential moving average with weight 1/10 for the new measurement, in
/// whole microseconds.
pub open spec fn ema(offset: int, measured: int) -> int {
    crate::math::div_to_zero(measured + 9 * offset, 10)
}

/// The average lies between the old offset and the new measurement.
proof fn lemma_ema_between(offset: int, measured: int)
    ensures
        offset <= measured ==> offset <= ema(offset, measured) <= measured,
        measured <= offset ==> measured <= ema(offset, measured) <= offset,
{
}

impl WristbandSim {
    /// The playing flag is set.
    pub open spec fn playing(&self) -> bool {
        self.flags & FLAG_PLAYING != 0
    }

    /// The flag that says that a CDJ is the timing authority is set.
    pub open spec fn cdj_active(&self) -> bool {
        self.flags & FLAG_CDJ_ACTIVE != 0
    }

    /// The offset after one more measurement: the first one is taken as it is,
    /// later ones are averaged in.
    pub open spec fn offset_after(&self, measured: int) -> int {
        if self.offset_initialized {
            ema(self.clock_offset_us as int, measured)
        } else {
            measured
        }
    }

    /// The wristband after a packet that says `p`, read at `local_now_us`.
    pub open spec fn received(
        &self,
        p: crate::protocol::PacketFields,
        local_now_us: int,
    ) -> WristbandSim {
        WristbandSim {
            clock_offset_us: self.offset_after(p.send_time_us - local_now_us) as i64,
            offset_initialized: true,
            next_downbeat_us: p.next_downbeat_us,
            next_beat_us: p.next_beat_us,
            tempo_x100: p.tempo_bpm_x100,
            beat_in_bar: p.beat_in_bar,
            flags: p.flags,
            on_air_mask: p.on_air_mask,
            master_device: p.master_device,
            packets_received: (self.packets_received + 1) as u32,
        }
    }

    /// The wristband after the packets `heard`, each with the local time at which
    /// it was read.
    pub open spec fn received_all(
        &self,
        heard: Seq<(crate::protocol::PacketFields, int)>,
    ) -> WristbandSim
        decreases heard.len(),
    {
        if heard.len() == 0 {
            *self
        } else {
            self.received_all(heard.drop_last()).received(heard.last().0, heard.last().1)
        }
    }

    /// The time of the next flash on the sender's clock: the next beat, or the
    /// next downbeat when the next beat is unknown. Nothing is scheduled while
    /// the music does not play or when neither is known.
    pub open spec fn flash_target(&self) -> Option<i64> {
        if !self.playing() {
            None
        } else if self.next_beat_us != 0 {
            Some(self.next_beat_us)
        } else if self.next_downbeat_us != 0 {
            Some(self.next_downbeat_us)
        } else {
            None
        }
    }

    /// A wristband that has received nothing.
    pub fn new() -> (wristband: Self)
        ensures
            wristband == (WristbandSim {
                clock_offset_us: 0,
                offset_initialized: false,
                next_downbeat_us: 0,
                next_beat_us: 0,
                tempo_x100: 0,
                beat_in_bar: 0,
                flags: 0,
                on_air_mask: 0,
                master_device: 0,
                packets_received: 0,
            }),
    {
        WristbandSim {
            clock_offset_us: 0,
            offset_initialized: false,
            next_downbeat_us: 0,
            next_beat_us: 0,
            tempo_x100: 0,
            beat_in_bar: 0,
            flags: 0,
            on_air_mask: 0,
            master_device: 0,
            packets_received: 0,
        }
    }

    /// Reads a packet at local time `local_now_us`. A packet with wrong sync
    /// bytes, version or checksum changes nothing.
    pub fn receive_packet(&mut self, packet: &[u8; PACKET_SIZE], local_now_us: i64)
        requires
            crate::protocol::is_valid_packet(packet@) ==> {
                &&& crate::math::fits_i64(
                    crate::protocol::packet_fields(packet@).send_time_us - local_now_us,
                )
                &&& old(self).packets_received < u32::MAX
            },
        ensures
            *final(self) == (if crate::protocol::is_valid_packet(packet@) {
                old(self).received(
                    crate::protocol::packet_fields(packet@),
                    local_now_us as int,
                )
            } else {
                *old(self)
            }),
    {
        if packet[0] != SYNC_0 || packet[1] != SYNC_1 {
            return;
        }
        if packet[2] != VERSION {
            return;
        }
        let expected_crc: u8 = firefly_crc8(&packet[2..35]);
        if packet[PACKET_SIZE - 1] != expected_crc {
            return;
        }
        let fields = read_packet(packet);
        let measured_offset: i64 = fields.send_time_us - local_now_us;
        if !self.offset_initialized {
            self.clock_offset_us = measured_offset;
            self.offset_initialized = true;
        } else {
            self.clock_offset_us = average_in(self.clock_offset_us, measured_offset);
        }
        self.next_downbeat_us = fields.next_downbeat_us;
        self.next_beat_us = fields.next_beat_us;
        self.tempo_x100 = fields.tempo_bpm_x100;
        self.beat_in_bar = fields.beat_in_bar;
        self.flags = fields.flags;
        self.on_air_mask = fields.on_air_mask;
        self.master_device = fields.master_device;
        self.packets_received = self.packets_received + 1;
    }

    /// A time on the sender's clock, on the local one.
    pub fn to_local_time(&self, coordinator_us: i64) -> (local_us: i64)
        requires
            crate::math::fits_i64(coordinator_us - self.clock_offset_us),
        ensures
            local_us == coordinator_us - self.clock_offset_us,
    {
        coordinator_us - self.clock_offset_us
    }

    pub fn is_playing(&self) -> (playing: bool)
        ensures
            playing == self.playing(),
    {
        self.flags & FLAG_PLAYING != 0
    }

    pub fn is_cdj_active(&self) -> (active: bool)
        ensures
            active == self.cdj_active(),
    {
        self.flags & FLAG_CDJ_ACTIVE != 0
    }

    /// The local time of the next flash, if one is due.
    pub fn next_flash_local_us(&self) -> (flash: Option<i64>)
        requires
            self.flash_target() is Some ==> crate::math::fits_i64(
                self.flash_target()->0 - self.clock_offset_us,
            ),
        ensures
            flash is Some <==> self.flash_target() is Some,
            flash is Some ==> flash->0 == self.flash_target()->0 - self.clock_offset_us,
    {
        if !self.is_playing() {
            return None;
        }
        let target_us: i64 = if self.next_beat_us != 0 {
            self.next_beat_us
        } else if self.next_downbeat_us != 0 {
            self.next_downbeat_us
        } else {
            return None;
        };
        Some(self.to_local_time(target_us))
    }

    /// Whether the next flash is a downbeat.
    pub fn is_next_downbeat(&self) -> (downbeat: bool)
        ensures
            downbeat == (self.beat_in_bar == 0 || (self.next_beat_us != 0 && self.next_beat_us
                == self.next_downbeat_us)),
    {
        self.beat_in_bar == 0 || (self.next_beat_us != 0 && self.next_beat_us
            == self.next_downbeat_us)
    }
}

/// Averages a new measurement into the clock offset.
fn average_in(offset_us: i64, measured_us: i64) -> (average: i64)
    ensures
        average == ema(offset_us as int, measured_us as int),
{
    proof {
        lemma_ema_between(offset_us as int, measured_us as int);
    }
    let weighted: i128 = measured_us as i128 + 9 * offset_us as i128;
    if weighted >= 0 {
        (weighted / 10) as i64
    } else {
        (-((-weighted) / 10)) as i64
    }
}

/// A measurement that agrees with the offset leaves it alone: a constant offset,
/// once seen, is kept exactly.
pub proof fn law_constant_offset_is_kept(w: WristbandSim, p: crate::protocol::PacketFields, now: int)
    requires
        w.offset_initialized ==> p.send_time_us - now == w.clock_offset_us,
        crate::math::fits_i64(p.send_time_us - now),
    ensures
        w.received(p, now).clock_offset_us == p.send_time_us - now,
{
}

/// Jitter stays bounded: while the measurements stay between `lo` and `hi`, so
/// does the offset.
pub proof fn law_offset_stays_within_jitter(
    w: WristbandSim,
    p: crate::protocol::PacketFields,
    now: int,
    lo: int,
    hi: int,
)
    requires
        crate::math::fits_i64(p.send_time_us - now),
        lo <= p.send_time_us - now <= hi,
        w.offset_initialized ==> lo <= w.clock_offset_us <= hi,
    ensures
        lo <= w.received(p, now).clock_offset_us <= hi,
{
    lemma_ema_between(w.clock_offset_us as int, p.send_time_us - now);
}

/// Each measurement takes a tenth of the remaining error away, up to the rounding
/// to whole microseconds.
pub proof fn law_offset_error_shrinks(w: WristbandSim, p: crate::protocol::PacketFields, now: int)
    requires
        w.offset_initialized,
        crate::math::fits_i64(p.send_time_us - now),
    ensures
        ({
            let truth = p.send_time_us - now;
            let before = w.clock_offset_us - truth;
            let after = w.received(p, now).clock_offset_us - truth;
            &&& before >= 0 ==> 0 <= after && 10 * after <= 9 * before + 9
            &&& before <= 0 ==> after <= 0 && 10 * after >= 9 * before - 9
        }),
{
    lemma_ema_between(w.clock_offset_us as int, p.send_time_us - now);
}

/// The offset converges: with a constant true offset, every packet takes at least a
/// microsecond of the error away until no more than nine are left, and then no more
/// than nine stay.
pub proof fn law_offset_converges(
    w: WristbandSim,
    heard: Seq<(crate::protocol::PacketFields, int)>,
    truth: int,
)
    requires
        w.offset_initialized,
        crate::math::fits_i64(truth),
        forall|i: int|
            0 <= i < heard.len() ==> (#[trigger] heard[i]).0.send_time_us - heard[i].1 == truth,
    ensures
        ({
            let before = w.clock_offset_us - truth;
            let after = w.received_all(heard).clock_offset_us - truth;
            &&& w.received_all(heard).offset_initialized
            &&& before >= 0 ==> 0 <= after && (after <= 9 || after <= before - heard.len())
            &&& before <= 0 ==> after <= 0 && (after >= -9 || after >= before + heard.len())
        }),
    decreases heard.len(),
{
    if heard.len() > 0 {
        let shorter = heard.drop_last();
        assert forall|i: int| 0 <= i < shorter.len() implies (#[trigger] shorter[i]).0.send_time_us
            - shorter[i].1 == truth by {
            assert(shorter[i] == heard[i]);
        }
        law_offset_converges(w, shorter, truth);
        let last = heard[heard.len() - 1];
        assert(last.0.send_time_us - last.1 == truth);
        law_offset_error_shrinks(w.received_all(shorter), last.0, last.1);
    }
}

/// Wristbands flash together: two of them that read one packet, each at its own
/// time on its own clock, go for the same beat, or both for none. While jitter
/// stays within `jitter` of each wristband's true offset, each flashes within
/// `jitter` of that beat on the sender's clock, so no two are further than twice
/// that apart.
pub proof fn law_wristbands_flash_together(
    a: WristbandSim,
    b: WristbandSim,
    p: crate::protocol::PacketFields,
    now_a: int,
    now_b: int,
    ahead_a: int,
    ahead_b: int,
    jitter: int,
)
    requires
        crate::math::fits_i64(p.send_time_us - now_a),
        crate::math::fits_i64(p.send_time_us - now_b),
        ahead_a - jitter <= p.send_time_us - now_a <= ahead_a + jitter,
        ahead_b - jitter <= p.send_time_us - now_b <= ahead_b + jitter,
        a.offset_initialized ==> ahead_a - jitter <= a.clock_offset_us <= ahead_a + jitter,
        b.offset_initialized ==> ahead_b - jitter <= b.clock_offset_us <= ahead_b + jitter,
    ensures
        ({
            let x = a.received(p, now_a);
            let y = b.received(p, now_b);
            &&& x.flash_target() == y.flash_target()
            &&& x.flash_target() is Some ==> {
                let target = x.flash_target()->0;
                let flash_a = target - x.clock_offset_us + ahead_a;
                let flash_b = target - y.clock_offset_us + ahead_b;
                &&& target - jitter <= flash_a <= target + jitter
                &&& target - jitter <= flash_b <= target + jitter
                &&& -2 * jitter <= flash_a - flash_b <= 2 * jitter
            }
        }),
{
    law_offset_stays_within_jitter(a, p, now_a, ahead_a - jitter, ahead_a + jitter);
    law_offset_stays_within_jitter(b, p, now_b, ahead_b - jitter, ahead_b + jitter);
}

/// A beat reaches the wristband: the packet that says `p`, sent through a dongle
/// that is between packets, arrives unchanged, and the wristband then shows what
/// `p` says.
pub proof fn law_beat_reaches_wristband(
    d: crate::dongle::DongleView,
    w: WristbandSim,
    p: crate::protocol::PacketFields,
    now: int,
)
    requires
        d.is_idle(),
    ensures
        d.forwards(crate::protocol::packet_bytes(p)) == seq![crate::protocol::packet_bytes(p)],
        d.run(crate::protocol::packet_bytes(p)).packets_forwarded == d.packets_forwarded + 1,
        d.run(crate::protocol::packet_bytes(p)).crc_errors == d.crc_errors,
        d.run(crate::protocol::packet_bytes(p)).version_errors == d.version_errors,
        crate::protocol::is_valid_packet(crate::protocol::packet_bytes(p)),
        w.received(crate::protocol::packet_fields(crate::protocol::packet_bytes(p)), now)
            == w.received(p, now),
{
    crate::protocol::law_packet_reads_back(p);
    crate::dongle::law_valid_packet_is_forwarded(d, crate::protocol::packet_bytes(p));
}

/// The wristband shows exactly what a valid packet says, whatever its flags: tempo,
/// place in the bar, flags, beat times, channels and master stand in it as in the
/// packet's bytes. It counts the packet.
pub proof fn law_wristband_shows_the_packet(w: WristbandSim, packet: Seq<u8>, now: int)
    requires
        packet.len() == 36,
        w.packets_received < u32::MAX,
    ensures
        ({
            let shown = w.received(crate::protocol::packet_fields(packet), now);
            &&& shown.tempo_x100 == packet[20] + 256 * packet[21]
            &&& shown.beat_in_bar == packet[22]
            &&& shown.flags == packet[23]
            &&& shown.on_air_mask == packet[32]
            &&& shown.master_device == packet[33]
            &&& shown.next_downbeat_us == crate::le::i64_of_le(packet.subrange(12, 20))
            &&& shown.next_beat_us == crate::le::i64_of_le(packet.subrange(24, 32))
            &&& shown.packets_received == w.packets_received + 1
        }),
{
    crate::protocol::law_fields_are_read_in_place(packet);
}

/// The clock offset: the first packet's send time less the local time is taken as it
/// is; each later difference counts one part in ten against nine parts of the offset
/// so far, the sum being rounded to whole microseconds towards zero.
pub proof fn law_offset_is_the_average(
    w: WristbandSim,
    p: crate::protocol::PacketFields,
    now: int,
)
    requires
        crate::math::fits_i64(p.send_time_us - now),
    ensures
        ({
            let after = w.received(p, now).clock_offset_us;
            let sum = p.send_time_us - now + 9 * w.clock_offset_us;
            &&& w.received(p, now).offset_initialized
            &&& !w.offset_initialized ==> after == p.send_time_us - now
            &&& w.offset_initialized && sum >= 0 ==> 10 * after <= sum < 10 * after + 10
            &&& w.offset_initialized && sum <= 0 ==> 10 * after - 10 < sum <= 10 * after
        }),
{
    lemma_ema_between(w.clock_offset_us as int, p.send_time_us - now);
}

/// What is flashed for: the next beat when it is known, else the next downbeat when
/// that is known, and nothing else; and nothing at all while the music does not play.
pub proof fn law_what_is_flashed_for(w: WristbandSim)
    ensures
        w.playing() <==> w.flags & 1 != 0,
        w.cdj_active() <==> w.flags & 2 != 0,
        w.flash_target() is Some <==> w.flags & 1 != 0 && (w.next_beat_us != 0
            || w.next_downbeat_us != 0),
        w.flash_target() is Some && w.next_beat_us != 0 ==> w.flash_target()->0 == w.next_beat_us,
        w.flash_target() is Some && w.next_beat_us == 0 ==> w.flash_target()->0
            == w.next_downbeat_us,
{
}

} // verus!
