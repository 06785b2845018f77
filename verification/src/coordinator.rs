//! The host coordinator: takes the beats of the master deck, bridges them to a
//! Link session, and makes up the packets for the dongle.

use std::collections::HashMap;
use vstd::prelude::*;
use crate::beat_state::{Beat, CDJ_TIMEOUT};
use crate::frame::{count_bar, flags_of, NO_BEAT_YET};
use crate::on_air::on_air_to_mask;
use crate::protocol::{build_packet, PacketFields, PACKET_SIZE};

verus! {

/// What the coordinator knows of the decks.
pub struct BeatSourceState {
    /// When the last master beat arrived, in nanoseconds.
    pub last_cdj_beat_time: u64,
    /// The last beat's place in its bar, from 0.
    pub cdj_beat_in_bar: u8,
    pub cdj_next_beat_us: i64,
    pub cdj_next_bar_us: i64,
    /// BPM x 100.
    pub cdj_bpm: u16,
    pub cdj_playing: bool,
    /// Device number of the master deck.
    pub master_device: u8,
    pub channels_on_air: HashMap<u8, bool>,
    pub last_beat_in_bar: u8,
    pub bar_counter: u8,
}

/// What the Link session says at the time of a packet.
#[derive(Debug, Clone, Copy)]
pub struct LinkReading {
    /// BPM x 100.
    pub tempo_x100: u16,
    /// Place in the bar, from 0.
    pub beat_in_bar: u8,
    pub next_downbeat_us: i64,
    pub next_beat_us: i64,
    pub is_playing: bool,
}

/// What the Link session is to be told.
#[derive(Debug, Clone, Copy, PartialEq, Eq, Structural)]
pub struct LinkUpdate {
    /// Take over the deck's tempo.
    pub set_tempo: bool,
    /// Start or stop playing.
    pub set_playing: Option<bool>,
}

/// A time that the deck announces `ms` milliseconds ahead, 0 when it announces
/// none.
pub open spec fn announced(clock: int, ms: Option<u32>) -> int {
    match ms {
        Some(ms) => clock + ms * 1000,
        None => 0,
    }
}

impl BeatSourceState {
    /// The state after a master beat that arrived at `now`, `clock` on the Link
    /// clock.
    pub open spec fn after_beat(&self, beat: Beat, now: u64, clock: int) -> BeatSourceState {
        BeatSourceState {
            last_cdj_beat_time: now,
            cdj_bpm: beat.effective_tempo_bpm,
            cdj_beat_in_bar: beat.place(),
            cdj_playing: true,
            master_device: beat.device_number,
            cdj_next_beat_us: announced(clock, beat.next_beat_ms) as i64,
            cdj_next_bar_us: announced(clock, beat.next_bar_ms) as i64,
            ..*self
        }
    }

    /// The deck is taken to play, but has been silent for too long.
    pub open spec fn timed_out(&self, now: u64) -> bool {
        self.cdj_playing && crate::beat_state::elapsed(self.last_cdj_beat_time, now) > CDJ_TIMEOUT
    }

    /// The state after a timeout check.
    pub open spec fn after_timeout_check(&self, now: u64) -> BeatSourceState {
        if self.timed_out(now) {
            BeatSourceState { cdj_playing: false, ..*self }
        } else {
            *self
        }
    }

    /// The deck is the timing authority.
    pub open spec fn active(&self, now: u64) -> bool {
        self.cdj_playing && crate::beat_state::elapsed(self.last_cdj_beat_time, now) < CDJ_TIMEOUT
    }

    /// What the packet of time `now` says: the deck's beat while the deck is the
    /// timing authority, the Link session's otherwise.
    pub open spec fn packet_at(&self, now: u64, send_time_us: i64, link: LinkReading) -> PacketFields {
        let mask = crate::on_air::on_air_mask(self.channels_on_air@) as u8;
        if self.active(now) {
            PacketFields {
                send_time_us,
                next_downbeat_us: self.cdj_next_bar_us,
                tempo_bpm_x100: self.cdj_bpm,
                beat_in_bar: self.cdj_beat_in_bar,
                flags: crate::frame::flags_byte(true, true),
                next_beat_us: self.cdj_next_beat_us,
                on_air_mask: mask,
                master_device: self.master_device,
            }
        } else {
            PacketFields {
                send_time_us,
                next_downbeat_us: link.next_downbeat_us,
                tempo_bpm_x100: link.tempo_x100,
                beat_in_bar: link.beat_in_bar,
                flags: crate::frame::flags_byte(link.is_playing, false),
                next_beat_us: link.next_beat_us,
                on_air_mask: mask,
                master_device: 0,
            }
        }
    }

    /// The state once a packet has shown `beat_in_bar`.
    pub open spec fn after_packet(&self, beat_in_bar: u8) -> BeatSourceState {
        BeatSourceState {
            bar_counter: crate::frame::bars_counted(
                self.bar_counter,
                self.last_beat_in_bar,
                beat_in_bar,
            ),
            last_beat_in_bar: beat_in_bar,
            ..*self
        }
    }

    /// A state in which no beat has been heard. The last beat is put one timeout
    /// back, so that no deck counts as active.
    pub fn new(now: u64) -> (state: Self)
        requires
            now >= CDJ_TIMEOUT,
        ensures
            state.last_cdj_beat_time == now - CDJ_TIMEOUT,
            state.cdj_beat_in_bar == 0,
            state.cdj_next_beat_us == 0,
            state.cdj_next_bar_us == 0,
            state.cdj_bpm == 0,
            !state.cdj_playing,
            state.master_device == 0,
            state.channels_on_air@ == Map::<u8, bool>::empty(),
            state.last_beat_in_bar == NO_BEAT_YET,
            state.bar_counter == 0,
    {
        BeatSourceState {
            last_cdj_beat_time: now - CDJ_TIMEOUT,
            cdj_beat_in_bar: 0,
            cdj_next_beat_us: 0,
            cdj_next_bar_us: 0,
            cdj_bpm: 0,
            cdj_playing: false,
            master_device: 0,
            channels_on_air: HashMap::new(),
            last_beat_in_bar: NO_BEAT_YET,
            bar_counter: 0,
        }
    }

    /// Takes a beat of the master deck into account. It arrived at `now`, at
    /// `link_clock_us` on the Link clock. The caller passes beats of the master
    /// deck only.
    pub fn process_master_beat(&mut self, beat: &Beat, now: u64, link_clock_us: i64)
        requires
            crate::math::fits_i64(announced(link_clock_us as int, beat.next_beat_ms)),
            crate::math::fits_i64(announced(link_clock_us as int, beat.next_bar_ms)),
        ensures
            *final(self) == old(self).after_beat(*beat, now, link_clock_us as int),
    {
        self.last_cdj_beat_time = now;
        self.cdj_bpm = beat.effective_tempo();
        self.cdj_beat_in_bar =
        if beat.beat_within_bar > 0 {
            beat.beat_within_bar - 1
        } else {
            0
        };
        self.cdj_playing = true;
        self.master_device = beat.device_number;
        self.cdj_next_beat_us =
        match beat.next_beat_ms {
            Some(ms) => link_clock_us + (ms as i64) * 1000,
            None => 0,
        };
        self.cdj_next_bar_us =
        match beat.next_bar_ms {
            Some(ms) => link_clock_us + (ms as i64) * 1000,
            None => 0,
        };
    }

    /// Takes a beat into account if it comes from the tempo master, and says what
    /// to tell the Link session: the deck's tempo when it differs, and to start
    /// playing when it does not play. Beats of other decks change nothing.
    pub fn handle_beat(
        &mut self,
        beat: &Beat,
        master: Option<u8>,
        now: u64,
        link_clock_us: i64,
        tempo_differs: bool,
        link_playing: bool,
    ) -> (update: LinkUpdate)
        requires
            master == Some(beat.device_number) ==> {
                &&& crate::math::fits_i64(announced(link_clock_us as int, beat.next_beat_ms))
                &&& crate::math::fits_i64(announced(link_clock_us as int, beat.next_bar_ms))
            },
        ensures
            master == Some(beat.device_number) ==> {
                &&& *final(self) == old(self).after_beat(*beat, now, link_clock_us as int)
                &&& update.set_tempo == tempo_differs
                &&& update.set_playing == (if link_playing {
                    None
                } else {
                    Some(true)
                })
            },
            master != Some(beat.device_number) ==> {
                &&& *final(self) == *old(self)
                &&& update == (LinkUpdate { set_tempo: false, set_playing: None })
            },
    {
        let is_master: bool = match master {
            Some(device) => device == beat.device_number,
            None => false,
        };
        if !is_master {
            return LinkUpdate { set_tempo: false, set_playing: None };
        }
        self.process_master_beat(beat, now, link_clock_us);
        LinkUpdate {
            set_tempo: tempo_differs,
            set_playing: if link_playing {
                None
            } else {
                Some(true)
            },
        }
    }

    /// Gives the deck up when it has been silent for too long. Says whether it
    /// did.
    pub fn check_cdj_timeout(&mut self, now: u64) -> (timed_out: bool)
        ensures
            *final(self) == old(self).after_timeout_check(now),
            timed_out == old(self).timed_out(now),
    {
        if self.cdj_playing && now.saturating_sub(self.last_cdj_beat_time) > CDJ_TIMEOUT {
            self.cdj_playing = false;
            true
        } else {
            false
        }
    }

    /// Gives the deck up when it has been silent for too long, and says what to
    /// tell the Link session then: to stop playing.
    pub fn handle_timeout(&mut self, now: u64) -> (update: LinkUpdate)
        ensures
            *final(self) == old(self).after_timeout_check(now),
            update == (LinkUpdate {
                set_tempo: false,
                set_playing: if old(self).timed_out(now) {
                    Some(false)
                } else {
                    None
                },
            }),
    {
        if self.check_cdj_timeout(now) {
            LinkUpdate { set_tempo: false, set_playing: Some(false) }
        } else {
            LinkUpdate { set_tempo: false, set_playing: None }
        }
    }

    /// Whether the deck is the timing authority.
    pub fn is_cdj_active(&self, now: u64) -> (active: bool)
        ensures
            active == self.active(now),
    {
        self.cdj_playing && now.saturating_sub(self.last_cdj_beat_time) < CDJ_TIMEOUT
    }

    /// The mask of the channels on air.
    pub fn on_air_mask(&self) -> (mask: u8)
        ensures
            mask == crate::on_air::on_air_mask(self.channels_on_air@),
    {
        on_air_to_mask(&self.channels_on_air)
    }

    /// Replaces what is known about the channels.
    pub fn update_on_air(&mut self, channels: HashMap<u8, bool>)
        ensures
            *final(self) == (BeatSourceState { channels_on_air: channels, ..*old(self) }),
    {
        self.channels_on_air = channels;
    }

    /// Makes up the packet of time `now` and counts the bar that it may begin.
    pub fn next_packet(&mut self, now: u64, send_time_us: i64, link: &LinkReading) -> (packet: [u8;
        PACKET_SIZE])
        ensures
            packet@ == crate::protocol::packet_bytes(old(self).packet_at(now, send_time_us, *link)),
            *final(self) == old(self).after_packet(
                old(self).packet_at(now, send_time_us, *link).beat_in_bar,
            ),
    {
        let cdj_active: bool = self.is_cdj_active(now);
        let reading: LinkReading = if cdj_active {
            LinkReading {
                tempo_x100: self.cdj_bpm,
                beat_in_bar: self.cdj_beat_in_bar,
                next_downbeat_us: self.cdj_next_bar_us,
                next_beat_us: self.cdj_next_beat_us,
                is_playing: true,
            }
        } else {
            *link
        };
        self.bar_counter = count_bar(self.bar_counter, self.last_beat_in_bar, reading.beat_in_bar);
        self.last_beat_in_bar = reading.beat_in_bar;
        let master_dev: u8 = if cdj_active {
            self.master_device
        } else {
            0
        };
        build_packet(
            send_time_us,
            reading.next_downbeat_us,
            reading.tempo_x100,
            reading.beat_in_bar,
            flags_of(reading.is_playing, cdj_active),
            reading.next_beat_us,
            self.on_air_mask(),
            master_dev,
        )
    }
}

/// Microseconds between packets at `rate` packets a second.
pub fn interval_us(rate: u32) -> (interval: u64)
    requires
        rate > 0,
    ensures
        interval == 1_000_000int / rate as int,
{
    1_000_000 / rate as u64
}

/// The deck's beats are authoritative for exactly the timeout after each of them:
/// until then packets say what the deck said, from then on what the Link session
/// says, with no master.
pub proof fn law_deck_is_authoritative_until_timeout(
    s: BeatSourceState,
    beat: Beat,
    heard: u64,
    clock: int,
    now: u64,
    send_time_us: i64,
    link: LinkReading,
)
    requires
        now >= heard,
    ensures
        ({
            let p = s.after_beat(beat, heard, clock).packet_at(now, send_time_us, link);
            if now - heard < CDJ_TIMEOUT {
                &&& p.tempo_bpm_x100 == beat.effective_tempo_bpm
                &&& p.beat_in_bar == beat.place()
                &&& p.next_beat_us == announced(clock, beat.next_beat_ms) as i64
                &&& p.next_downbeat_us == announced(clock, beat.next_bar_ms) as i64
                &&& p.master_device == beat.device_number
                &&& p.flags == crate::frame::flags_byte(true, true)
            } else {
                &&& p.tempo_bpm_x100 == link.tempo_x100
                &&& p.beat_in_bar == link.beat_in_bar
                &&& p.next_beat_us == link.next_beat_us
                &&& p.next_downbeat_us == link.next_downbeat_us
                &&& p.master_device == 0
                &&& p.flags == crate::frame::flags_byte(link.is_playing, false)
            }
        }),
{
}

/// A deck that is given up is no timing authority, before the check or after, at
/// any time; a second check finds nothing to do.
pub proof fn law_timeout_ends_authority(s: BeatSourceState, now: u64, later: u64)
    requires
        s.timed_out(now),
    ensures
        !s.active(now),
        !s.after_timeout_check(now).active(later),
        !s.after_timeout_check(now).timed_out(later),
{
}

/// Host and firmware agree on who is the timing authority: with one last beat and
/// one play state, both follow the deck or neither does, both give it up or neither
/// does, and a timeout check or a beat leaves them in agreement. Without a tempo they
/// also take over the same announced beat times.
pub proof fn law_host_and_firmware_agree_on_authority(
    host: BeatSourceState,
    firmware: crate::beat_state::BeatSourceState,
    beat: Beat,
    heard: u64,
    clock: int,
    now: u64,
)
    requires
        host.cdj_playing == firmware.cdj_playing,
        host.last_cdj_beat_time == firmware.last_cdj_beat_time,
    ensures
        host.active(now) == firmware.active(now),
        host.timed_out(now) == firmware.timed_out(now),
        ({
            let h = host.after_timeout_check(now);
            let f = firmware.after_timeout_check(now);
            &&& h.cdj_playing == f.cdj_playing
            &&& h.last_cdj_beat_time == f.last_cdj_beat_time
        }),
        ({
            let h = host.after_beat(beat, heard, clock);
            let f = firmware.after_beat(beat, heard, clock);
            &&& h.cdj_playing == f.cdj_playing
            &&& h.last_cdj_beat_time == f.last_cdj_beat_time
            &&& h.cdj_bpm == f.cdj_bpm
            &&& h.master_device == f.master_device
            &&& beat.effective_tempo_bpm == 0 ==> {
                &&& h.cdj_next_beat_us == f.cdj_next_beat_us
                &&& h.cdj_next_bar_us == f.cdj_next_bar_us
            }
        }),
{
}

/// The whole way of a beat: the packet made up while the deck is the timing
/// authority comes through an idle dongle unchanged, and the wristband that reads
/// it shows the deck's tempo, place in the bar, beat times, device number and
/// channels, and both flags.
pub proof fn law_deck_beat_reaches_wristband(
    s: BeatSourceState,
    now: u64,
    send_time_us: i64,
    link: LinkReading,
    d: crate::dongle::DongleView,
    w: crate::wristband::WristbandSim,
    local_now: int,
)
    requires
        s.active(now),
        d.is_idle(),
    ensures
        ({
            let packet = crate::protocol::packet_bytes(s.packet_at(now, send_time_us, link));
            let shown = w.received(crate::protocol::packet_fields(packet), local_now);
            &&& d.forwards(packet) == seq![packet]
            &&& crate::protocol::is_valid_packet(packet)
            &&& shown.tempo_x100 == s.cdj_bpm
            &&& shown.beat_in_bar == s.cdj_beat_in_bar
            &&& shown.next_beat_us == s.cdj_next_beat_us
            &&& shown.next_downbeat_us == s.cdj_next_bar_us
            &&& shown.master_device == s.master_device
            &&& shown.on_air_mask == crate::on_air::on_air_mask(s.channels_on_air@)
            &&& shown.playing()
            &&& shown.cdj_active()
        }),
{
    crate::wristband::law_beat_reaches_wristband(
        d,
        w,
        s.packet_at(now, send_time_us, link),
        local_now,
    );
    crate::frame::law_flags_read_back(true, true);
}

/// A master beat says it all at once: when it was heard, tempo, place in the bar,
/// device, and the announced times on the Link clock, unknown where none is
/// announced. Channels and bars are left alone.
pub proof fn law_master_beat_is_taken_over(
    s: BeatSourceState,
    beat: Beat,
    now: u64,
    clock: i64,
)
    requires
        crate::math::fits_i64(announced(clock as int, beat.next_beat_ms)),
        crate::math::fits_i64(announced(clock as int, beat.next_bar_ms)),
    ensures
        ({
            let t = s.after_beat(beat, now, clock as int);
            &&& t.last_cdj_beat_time == now
            &&& t.cdj_bpm == beat.effective_tempo_bpm
            &&& t.cdj_playing
            &&& t.master_device == beat.device_number
            &&& beat.beat_within_bar > 0 ==> t.cdj_beat_in_bar + 1 == beat.beat_within_bar
            &&& beat.beat_within_bar == 0 ==> t.cdj_beat_in_bar == 0
            &&& beat.next_beat_ms matches Some(ms) ==> t.cdj_next_beat_us - clock == ms * 1000
            &&& beat.next_beat_ms is None ==> t.cdj_next_beat_us == 0
            &&& beat.next_bar_ms matches Some(ms) ==> t.cdj_next_bar_us - clock == ms * 1000
            &&& beat.next_bar_ms is None ==> t.cdj_next_bar_us == 0
            &&& t.channels_on_air == s.channels_on_air
            &&& t.last_beat_in_bar == s.last_beat_in_bar
            &&& t.bar_counter == s.bar_counter
        }),
{
}

/// A deck taken to play is the timing authority while its last beat is less than two
/// seconds old, and given up once it is more than two seconds old. Giving it up only
/// ends its playing.
pub proof fn law_two_seconds_of_authority(s: BeatSourceState, now: u64)
    ensures
        s.active(now) <==> s.cdj_playing && now < s.last_cdj_beat_time + 2_000_000_000,
        s.timed_out(now) <==> s.cdj_playing && now > s.last_cdj_beat_time + 2_000_000_000,
        ({
            let t = s.after_timeout_check(now);
            &&& t.cdj_playing <==> s.cdj_playing && now <= s.last_cdj_beat_time + 2_000_000_000
            &&& t.last_cdj_beat_time == s.last_cdj_beat_time
            &&& t.cdj_beat_in_bar == s.cdj_beat_in_bar
            &&& t.cdj_next_beat_us == s.cdj_next_beat_us
            &&& t.cdj_next_bar_us == s.cdj_next_bar_us
            &&& t.cdj_bpm == s.cdj_bpm
            &&& t.master_device == s.master_device
            &&& t.channels_on_air == s.channels_on_air
            &&& t.last_beat_in_bar == s.last_beat_in_bar
            &&& t.bar_counter == s.bar_counter
        }),
{
}

/// Every packet carries the time at which it was made up and the channels on air. What
/// else it says comes from the deck while that is the timing authority, else from the
/// Link session, which has no master.
pub proof fn law_packet_says_who_leads(
    s: BeatSourceState,
    now: u64,
    send_time_us: i64,
    link: LinkReading,
)
    ensures
        ({
            let p = s.packet_at(now, send_time_us, link);
            let deck = s.cdj_playing && now < s.last_cdj_beat_time + 2_000_000_000;
            &&& p.send_time_us == send_time_us
            &&& p.on_air_mask == crate::on_air::on_air_mask(s.channels_on_air@)
            &&& deck ==> {
                &&& p.tempo_bpm_x100 == s.cdj_bpm
                &&& p.beat_in_bar == s.cdj_beat_in_bar
                &&& p.next_beat_us == s.cdj_next_beat_us
                &&& p.next_downbeat_us == s.cdj_next_bar_us
                &&& p.master_device == s.master_device
                &&& p.flags == 3
            }
            &&& !deck ==> {
                &&& p.tempo_bpm_x100 == link.tempo_x100
                &&& p.beat_in_bar == link.beat_in_bar
                &&& p.next_beat_us == link.next_beat_us
                &&& p.next_downbeat_us == link.next_downbeat_us
                &&& p.master_device == 0
                &&& link.is_playing ==> p.flags == 1
                &&& !link.is_playing ==> p.flags == 0
            }
        }),
{
    crate::on_air::law_mask_bits(s.channels_on_air@, 0);
}

/// Making up a packet leaves behind the place that it showed and the bar that it may
/// begin, and nothing else.
pub proof fn law_packet_only_counts_bars(s: BeatSourceState, beat_in_bar: u8)
    ensures
        ({
            let t = s.after_packet(beat_in_bar);
            &&& t.last_beat_in_bar == beat_in_bar
            &&& beat_in_bar != 0 || s.last_beat_in_bar == 0 || s.last_beat_in_bar == 255
                ==> t.bar_counter == s.bar_counter
            &&& beat_in_bar == 0 && 1 <= s.last_beat_in_bar <= 254 ==> (t.bar_counter
                - s.bar_counter - 1) % 256 == 0 && t.bar_counter != s.bar_counter
            &&& t.last_cdj_beat_time == s.last_cdj_beat_time
            &&& t.cdj_beat_in_bar == s.cdj_beat_in_bar
            &&& t.cdj_next_beat_us == s.cdj_next_beat_us
            &&& t.cdj_next_bar_us == s.cdj_next_bar_us
            &&& t.cdj_bpm == s.cdj_bpm
            &&& t.cdj_playing == s.cdj_playing
            &&& t.master_device == s.master_device
            &&& t.channels_on_air == s.channels_on_air
        }),
{
    crate::frame::law_bars_are_counted_on_downbeats(
        s.bar_counter,
        s.last_beat_in_bar,
        beat_in_bar,
    );
}

} // verus!
