//! The all-in-one firmware's main loop, one step at a time: events in, packets
//! out, at a fixed rate.

use vstd::prelude::*;
use crate::beat_state::{BeatSourceState, CdjPlayTransition, MAX_CLOCK_US};
use crate::djlink::DjLinkEvent;
use crate::frame::{count_bar, flags_of};
use crate::protocol::{build_packet, PacketFields, PACKET_SIZE};

verus! {

/// Packets a second.
pub const BROADCAST_HZ: u64 = 100;

/// Nanoseconds between packets.
pub const BROADCAST_PERIOD: u64 = 10_000_000;

/// The pause that a loop that has fallen behind still makes, in nanoseconds.
pub const YIELD: u64 = 1_000_000;

/// Tempo of the packets that go out without a deck, BPM x 100.
pub const IDLE_TEMPO_X100: u16 = 12_000;

/// A packet, and what it was made up from.
pub struct Frame {
    pub packet: [u8; PACKET_SIZE],
    pub fields: PacketFields,
    /// The deck is the timing authority.
    pub cdj_active: bool,
    /// The deck has just been given up.
    pub timed_out: bool,
}

/// Microseconds since boot.
pub fn boot_micros(boot: u64, now: u64) -> (clock: i64)
    ensures
        clock == crate::beat_state::elapsed(boot, now) / 1000,
        now >= boot ==> 1000 * clock <= now - boot < 1000 * clock + 1000,
        now <= boot ==> clock == 0,
        0 <= clock <= MAX_CLOCK_US,
{
    (now.saturating_sub(boot) / 1000) as i64
}

/// The beat comes from the master deck, or from the first deck heard.
pub open spec fn is_followed(s: BeatSourceState, device_number: u8) -> bool {
    s.master_device == 0 || device_number == s.master_device
}

/// The beat clock after an event of the decks.
pub open spec fn after_event(
    s: BeatSourceState,
    event: DjLinkEvent,
    now: u64,
    clock: int,
) -> BeatSourceState {
    match event {
        DjLinkEvent::Beat(beat) => if is_followed(s, beat.device_number) {
            s.after_beat(beat, now, clock)
        } else {
            s
        },
        DjLinkEvent::Status(status) => s.after_status(status),
    }
}

/// Takes an event of the decks into account. It came in at `now`, `clock` on the
/// packets' clock. Beats of decks other than the master are ignored.
pub fn handle_event(state: &mut BeatSourceState, event: &DjLinkEvent, now: u64, clock: i64) -> (
    transition: CdjPlayTransition)
    requires
        old(state).wf(),
        0 <= clock <= MAX_CLOCK_US,
    ensures
        final(state).wf(),
        *final(state) == after_event(*old(state), *event, now, clock as int),
        transition == (match *event {
            DjLinkEvent::Beat(_) => CdjPlayTransition::Unchanged,
            DjLinkEvent::Status(status) => old(state).transition(status),
        }),
{
    match event {
        DjLinkEvent::Beat(beat) => {
            if state.master_device == 0 || beat.device_number == state.master_device {
                proof {
                    crate::beat_state::law_beat_keeps_range(*state, *beat, now, clock as int);
                }
                state.process_master_beat(beat, now, clock);
            }
            CdjPlayTransition::Unchanged
        },
        DjLinkEvent::Status(status) => {
            proof {
                crate::beat_state::law_status_and_timeout_keep_range(*state, *status, now);
            }
            state.process_cdj_status(status)
        },
    }
}

/// What a packet says of a beat clock that has just been ticked. With a deck as
/// timing authority it says the deck's beat; without one it says "not playing", at
/// 120 BPM. A press of play that is still unanswered flashes now, either way.
pub open spec fn fields_at(s: BeatSourceState, clock: i64, cdj_active: bool) -> PacketFields {
    PacketFields {
        send_time_us: clock,
        next_downbeat_us: if cdj_active {
            s.cdj_next_bar_us
        } else {
            0
        },
        tempo_bpm_x100: if cdj_active {
            s.cdj_bpm
        } else {
            IDLE_TEMPO_X100
        },
        beat_in_bar: if cdj_active {
            s.cdj_beat_in_bar
        } else {
            0
        },
        flags: crate::frame::flags_byte(cdj_active || s.pending_play_flash, cdj_active),
        next_beat_us: if s.pending_play_flash {
            clock
        } else if cdj_active {
            s.cdj_next_beat_us
        } else {
            0
        },
        on_air_mask: crate::on_air::on_air_mask(s.channels_on_air@) as u8,
        master_device: if cdj_active {
            s.master_device
        } else {
            0
        },
    }
}

/// The beat clock once the packet has been made up: its bar is counted, and a
/// press of play is answered.
pub open spec fn after_frame(s: BeatSourceState, beat_in_bar: u8) -> BeatSourceState {
    BeatSourceState {
        bar_counter: crate::frame::bars_counted(s.bar_counter, s.last_beat_in_bar, beat_in_bar),
        last_beat_in_bar: beat_in_bar,
        pending_play_flash: false,
        ..s
    }
}

/// The beat clock that a packet is made up from: checked for a timeout at
/// `checked`, then ticked at `clock`.
pub open spec fn ticked(s: BeatSourceState, checked: u64, clock: int) -> BeatSourceState {
    s.after_timeout_check(checked).after_tick(clock)
}

/// One turn of the loop: gives up a silent deck, shows the beats that have come
/// due, and makes up the packet. The times are those at which the loop looks: for
/// the timeout, for the packet, and for the authority.
pub fn next_frame(state: &mut BeatSourceState, checked: u64, clock: i64, now: u64) -> (frame: Frame)
    requires
        old(state).wf(),
        0 <= clock <= MAX_CLOCK_US,
    ensures
        final(state).wf(),
        ({
            let s = ticked(*old(state), checked, clock as int);
            &&& frame.timed_out == old(state).timed_out(checked)
            &&& frame.cdj_active == s.active(now)
            &&& frame.fields == fields_at(s, clock, s.active(now))
            &&& frame.packet@ == crate::protocol::packet_bytes(frame.fields)
            &&& *final(state) == after_frame(s, frame.fields.beat_in_bar)
        }),
        frame.timed_out <==> old(state).cdj_playing && checked > old(state).last_cdj_beat_time
            + 2_000_000_000,
        frame.cdj_active <==> old(state).cdj_playing && !frame.timed_out && now < old(
            state,
        ).last_cdj_beat_time + 2_000_000_000,
        frame.fields.send_time_us == clock,
        frame.fields.master_device == (if frame.cdj_active {
            old(state).master_device
        } else {
            0
        }),
        frame.fields.tempo_bpm_x100 == (if frame.cdj_active {
            old(state).cdj_bpm
        } else {
            IDLE_TEMPO_X100
        }),
        !final(state).pending_play_flash,
        final(state).last_beat_in_bar == frame.fields.beat_in_bar,
{
    proof {
        crate::beat_state::law_status_and_timeout_keep_range(
            *state,
            crate::beat_state::CdjStatus { device_number: 0, is_playing: false },
            checked,
        );
    }
    let timed_out: bool = state.check_cdj_timeout(checked);
    proof {
        crate::beat_state::law_tick_keeps_range(*state, clock as int);
    }
    state.tick_predicted_beats(clock);
    let cdj_active: bool = state.is_cdj_active(now);
    let mut fields: PacketFields = PacketFields {
        send_time_us: clock,
        next_downbeat_us: 0,
        tempo_bpm_x100: IDLE_TEMPO_X100,
        beat_in_bar: 0,
        flags: flags_of(cdj_active || state.pending_play_flash, cdj_active),
        next_beat_us: 0,
        on_air_mask: state.on_air_mask(),
        master_device: 0,
    };
    if cdj_active {
        fields.next_downbeat_us = state.cdj_next_bar_us;
        fields.tempo_bpm_x100 = state.cdj_bpm;
        fields.beat_in_bar = state.cdj_beat_in_bar;
        fields.next_beat_us = state.cdj_next_beat_us;
        fields.master_device = state.master_device;
    }
    if state.pending_play_flash {
        fields.next_beat_us = clock;
        state.pending_play_flash = false;
    }
    state.bar_counter = count_bar(state.bar_counter, state.last_beat_in_bar, fields.beat_in_bar);
    state.last_beat_in_bar = fields.beat_in_bar;
    let packet: [u8; PACKET_SIZE] = build_packet(
        fields.send_time_us,
        fields.next_downbeat_us,
        fields.tempo_bpm_x100,
        fields.beat_in_bar,
        fields.flags,
        fields.next_beat_us,
        fields.on_air_mask,
        fields.master_device,
    );
    Frame { packet, fields, cdj_active, timed_out }
}

/// When the next turn is due, and how long to sleep until then, after a turn that
/// was due at `due` and ended at `now`. A loop on time keeps its rate whatever a
/// turn costs; one that has fallen behind starts afresh from `now` and makes a
/// short pause, so that it never bursts.
pub fn schedule(due: u64, now: u64) -> (next: (u64, u64))
    requires
        due + BROADCAST_PERIOD <= u64::MAX,
        now + BROADCAST_PERIOD <= u64::MAX,
    ensures
        due + BROADCAST_PERIOD > now ==> {
            &&& next.0 == due + BROADCAST_PERIOD
            &&& next.1 == due + BROADCAST_PERIOD - now
        },
        due + BROADCAST_PERIOD <= now ==> {
            &&& next.0 == now + BROADCAST_PERIOD
            &&& next.1 == YIELD
        },
        now < due + 10_000_000 ==> next.0 - due == 10_000_000 && next.1 == next.0 - now,
        now >= due + 10_000_000 ==> next.0 - now == 10_000_000 && next.1 == 1_000_000,
        next.0 > now,
        next.1 > 0,
        now + next.1 <= next.0,
{
    let next_tick: u64 = due + BROADCAST_PERIOD;
    if next_tick > now {
        (next_tick, next_tick - now)
    } else {
        (now + BROADCAST_PERIOD, YIELD)
    }
}

/// The first deck heard stays the one that is followed: once there is a master, no
/// event of another deck changes anything.
pub proof fn law_first_deck_is_followed(
    s: BeatSourceState,
    event: DjLinkEvent,
    now: u64,
    clock: int,
)
    requires
        s.master_device != 0,
        match event {
            DjLinkEvent::Beat(beat) => beat.device_number != s.master_device,
            DjLinkEvent::Status(status) => status.device_number != s.master_device,
        },
    ensures
        after_event(s, event, now, clock) == s,
{
}

/// A master, once there is one, is never lost.
pub proof fn law_master_is_kept(
    s: BeatSourceState,
    event: DjLinkEvent,
    now: u64,
    clock: int,
    checked: u64,
)
    requires
        s.master_device != 0,
    ensures
        after_event(s, event, now, clock).master_device == s.master_device,
        ticked(s, checked, clock).master_device == s.master_device,
{
}

/// Without a deck as timing authority, and with no press of play to answer, the
/// packet says "not playing" and names no master.
pub proof fn law_idle_packet(s: BeatSourceState, clock: i64)
    requires
        !s.pending_play_flash,
    ensures
        ({
            let p = fields_at(s, clock, false);
            &&& p.flags & crate::protocol::FLAG_PLAYING == 0
            &&& p.flags & crate::protocol::FLAG_CDJ_ACTIVE == 0
            &&& p.next_beat_us == 0
            &&& p.next_downbeat_us == 0
            &&& p.master_device == 0
            &&& p.beat_in_bar == 0
            &&& p.tempo_bpm_x100 == IDLE_TEMPO_X100
        }),
{
    crate::frame::law_flags_read_back(false, false);
}

/// A press of play flashes at once and once only: the next packet says that the
/// music plays and that the next beat is now, and the packet after it does so only
/// for a new press.
pub proof fn law_play_flashes_once(s: BeatSourceState, clock: i64, cdj_active: bool)
    requires
        s.pending_play_flash,
    ensures
        fields_at(s, clock, cdj_active).next_beat_us == clock,
        fields_at(s, clock, cdj_active).flags & crate::protocol::FLAG_PLAYING != 0,
        !after_frame(s, fields_at(s, clock, cdj_active).beat_in_bar).pending_play_flash,
{
    crate::frame::law_flags_read_back(true, cdj_active);
}

/// A deck's beat is in the packets for exactly the timeout after it: before that
/// they name the deck and its tempo, from then on they name no deck.
pub proof fn law_deck_is_authoritative_until_timeout(
    s: BeatSourceState,
    beat: crate::beat_state::Beat,
    heard: u64,
    heard_clock: int,
    checked: u64,
    clock: i64,
    now: u64,
)
    requires
        heard <= checked <= now,
    ensures
        ({
            let t = ticked(s.after_beat(beat, heard, heard_clock), checked, clock as int);
            let p = fields_at(t, clock, t.active(now));
            &&& t.active(now) <==> now - heard < crate::beat_state::CDJ_TIMEOUT
            &&& t.active(now) ==> p.master_device == beat.device_number && p.tempo_bpm_x100
                == beat.effective_tempo_bpm
            &&& !t.active(now) ==> p.master_device == 0 && p.tempo_bpm_x100 == IDLE_TEMPO_X100
        }),
{
}

/// Packets say when the next beat will be, not that it is now: once a tick has
/// caught up, the beat that they announce lies ahead of the time at which they go
/// out.
pub proof fn law_packets_announce_beats_to_come(s: BeatSourceState, clock: i64)
    requires
        s.predicts(),
        s.tick_fits(clock as int),
        s.cdj_next_beat_us > 0,
        s.one_tick_suffices(clock as int),
        !s.pending_play_flash,
    ensures
        ({
            let p = fields_at(s.after_tick(clock as int), clock, true);
            &&& p.next_beat_us > p.send_time_us
            &&& p.tempo_bpm_x100 == s.cdj_bpm
        }),
{
    crate::beat_state::law_tick_catches_up(s, clock as int);
}

/// Packets count in bars of four: as long as the decks do, whatever comes in and
/// however long it takes, the place in the bar that a packet gives is 0 to 3.
pub proof fn law_packets_count_in_four(
    s: BeatSourceState,
    event: DjLinkEvent,
    now: u64,
    heard: int,
    checked: u64,
    clock: i64,
    cdj_active: bool,
)
    requires
        s.wf(),
        s.in_four(),
        0 <= heard <= MAX_CLOCK_US,
        0 <= clock <= MAX_CLOCK_US,
        event matches DjLinkEvent::Beat(beat) ==> beat.beat_within_bar <= 4,
    ensures
        after_event(s, event, now, heard).in_four(),
        ticked(s, checked, clock as int).in_four(),
        ({
            let t = ticked(s, checked, clock as int);
            let p = fields_at(t, clock, cdj_active);
            p.beat_in_bar < 4 && after_frame(t, p.beat_in_bar).in_four()
        }),
{
    if let DjLinkEvent::Beat(beat) = event {
        crate::beat_state::law_beat_keeps_range(s, beat, now, heard);
    }
    let silent = crate::beat_state::CdjStatus { device_number: 0, is_playing: false };
    crate::beat_state::law_status_and_timeout_keep_range(s, silent, checked);
    crate::beat_state::law_tick_keeps_range(s.after_timeout_check(checked), clock as int);
}

/// The whole way of a packet: it comes through an idle dongle unchanged, and the
/// wristband that reads it shows what it says. A press of play flashes now, unless
/// now is time 0, which stands for "unknown".
pub proof fn law_packet_reaches_wristband(
    s: BeatSourceState,
    clock: i64,
    cdj_active: bool,
    d: crate::dongle::DongleView,
    w: crate::wristband::WristbandSim,
    local_now: int,
)
    requires
        d.is_idle(),
    ensures
        ({
            let p = fields_at(s, clock, cdj_active);
            let packet = crate::protocol::packet_bytes(p);
            let shown = w.received(crate::protocol::packet_fields(packet), local_now);
            &&& d.forwards(packet) == seq![packet]
            &&& crate::protocol::is_valid_packet(packet)
            &&& shown == w.received(p, local_now)
            &&& shown.playing() <==> cdj_active || s.pending_play_flash
            &&& shown.cdj_active() <==> cdj_active
            &&& s.pending_play_flash && clock != 0 ==> shown.flash_target() == Some(clock)
        }),
{
    crate::wristband::law_beat_reaches_wristband(
        d,
        w,
        fields_at(s, clock, cdj_active),
        local_now,
    );
    crate::frame::law_flags_read_back(cdj_active || s.pending_play_flash, cdj_active);
}

/// Every packet carries the clock at which it was made up, with or without a deck as
/// timing authority. A wristband that reads its first packet at a local time has from
/// then on exactly the difference of the two as its clock offset, and flashes, on its
/// own clock, as long before or after that time as the packet announces.
pub proof fn law_packet_carries_its_clock(
    s: BeatSourceState,
    clock: i64,
    cdj_active: bool,
    w: crate::wristband::WristbandSim,
    local_now: i64,
)
    requires
        !w.offset_initialized,
        crate::math::fits_i64(clock - local_now),
    ensures
        ({
            let p = fields_at(s, clock, cdj_active);
            let packet = crate::protocol::packet_bytes(p);
            let shown = w.received(crate::protocol::packet_fields(packet), local_now as int);
            &&& p.send_time_us == clock
            &&& shown.clock_offset_us == clock - local_now
            &&& shown.flash_target() is Some && p.next_beat_us != 0 ==> shown.flash_target()->0
                - shown.clock_offset_us - local_now == p.next_beat_us - clock
        }),
{
    crate::protocol::law_packet_reads_back(fields_at(s, clock, cdj_active));
}

/// With the deck as timing authority a packet says what the beat clock shows: tempo,
/// place, next bar, device, and the next beat unless a press of play flashes now.
/// Without one it says none of them. The channels on air are said either way.
pub proof fn law_packet_says_what_the_clock_shows(s: BeatSourceState, clock: i64)
    ensures
        ({
            let p = fields_at(s, clock, true);
            &&& p.tempo_bpm_x100 == s.cdj_bpm
            &&& p.beat_in_bar == s.cdj_beat_in_bar
            &&& p.next_downbeat_us == s.cdj_next_bar_us
            &&& p.master_device == s.master_device
            &&& p.on_air_mask == crate::on_air::on_air_mask(s.channels_on_air@)
            &&& p.flags == 3
            &&& s.pending_play_flash ==> p.next_beat_us == clock
            &&& !s.pending_play_flash ==> p.next_beat_us == s.cdj_next_beat_us
        }),
        ({
            let p = fields_at(s, clock, false);
            &&& p.tempo_bpm_x100 == 12_000
            &&& p.beat_in_bar == 0
            &&& p.next_downbeat_us == 0
            &&& p.master_device == 0
            &&& p.on_air_mask == crate::on_air::on_air_mask(s.channels_on_air@)
            &&& s.pending_play_flash ==> p.next_beat_us == clock && p.flags == 1
            &&& !s.pending_play_flash ==> p.next_beat_us == 0 && p.flags == 0
        }),
{
    crate::on_air::law_mask_bits(s.channels_on_air@, 0);
}

/// A turn of the loop first gives up a silent deck, then shows the beats due, and what
/// the packet says is all that making it up leaves behind: its place in the bar, the
/// bar that it may begin, and a press of play answered.
pub proof fn law_turn_of_the_loop(
    s: BeatSourceState,
    checked: u64,
    clock: int,
    beat_in_bar: u8,
)
    ensures
        ticked(s, checked, clock) == s.after_timeout_check(checked).after_tick(clock),
        ({
            let t = after_frame(s, beat_in_bar);
            &&& t.last_beat_in_bar == beat_in_bar
            &&& !t.pending_play_flash
            &&& beat_in_bar != 0 || s.last_beat_in_bar == 0 || s.last_beat_in_bar == 255
                ==> t.bar_counter == s.bar_counter
            &&& beat_in_bar == 0 && 1 <= s.last_beat_in_bar <= 254 ==> (t.bar_counter
                - s.bar_counter - 1) % 256 == 0 && t.bar_counter != s.bar_counter
            &&& t.last_cdj_beat_time == s.last_cdj_beat_time
            &&& t.cdj_beat_in_bar == s.cdj_beat_in_bar
            &&& t.cdj_next_beat_us == s.cdj_next_beat_us
            &&& t.cdj_next_bar_us == s.cdj_next_bar_us
            &&& t.cdj_bpm == s.cdj_bpm
            &&& t.cdj_playing == s.cdj_playing
            &&& t.master_device == s.master_device
            &&& t.channels_on_air == s.channels_on_air
            &&& t.last_smoothed_beat_us == s.last_smoothed_beat_us
            &&& t.have_smoothed_beat == s.have_smoothed_beat
            &&& t.pending_beat_in_bar == s.pending_beat_in_bar
            &&& t.pending_beat_at_us == s.pending_beat_at_us
        }),
{
    crate::frame::law_bars_are_counted_on_downbeats(
        s.bar_counter,
        s.last_beat_in_bar,
        beat_in_bar,
    );
}

/// Beats of the master, or of any deck while there is none, are taken up by the beat
/// clock; status reports of all decks are.
pub proof fn law_events_reach_the_clock(
    s: BeatSourceState,
    beat: crate::beat_state::Beat,
    status: crate::beat_state::CdjStatus,
    now: u64,
    clock: int,
)
    ensures
        s.master_device == 0 || beat.device_number == s.master_device ==> after_event(
            s,
            DjLinkEvent::Beat(beat),
            now,
            clock,
        ) == s.after_beat(beat, now, clock),
        after_event(s, DjLinkEvent::Status(status), now, clock) == s.after_status(status),
{
}

/// A beat that was heard goes out: with the deck's beat put at `clock`, the first packet
/// at that time has the beat's place, its tempo, the next beat one period on and the
/// next bar as many as are missing.
pub proof fn law_heard_beat_goes_out(
    s: BeatSourceState,
    beat: crate::beat_state::Beat,
    heard: u64,
    clock: i64,
)
    requires
        s.beat_fits(beat, clock as int),
        !s.have_smoothed_beat,
        !s.pending_play_flash,
        beat.effective_tempo_bpm > 0,
        1 <= beat.beat_within_bar,
    ensures
        ({
            let t = ticked(
                s.after_beat(beat, heard, clock as int),
                heard,
                clock as int,
            );
            let p = fields_at(t, clock, t.active(heard));
            let period = crate::beat_state::beat_period(beat.effective_tempo_bpm);
            &&& p.send_time_us == clock
            &&& p.beat_in_bar + 1 == beat.beat_within_bar
            &&& p.tempo_bpm_x100 == beat.effective_tempo_bpm
            &&& p.next_beat_us == clock + period
            &&& p.next_downbeat_us == clock + (5 - beat.beat_within_bar) * period
            &&& p.master_device == beat.device_number
            &&& p.flags == 3
        }),
{
    crate::beat_state::law_period_is_nearest(beat.effective_tempo_bpm);
    crate::beat_state::law_where_a_beat_is_put(s, beat, heard, clock);
    crate::beat_state::law_beat_sets_the_times_to_come(s, beat, heard, clock);
    let period = crate::beat_state::beat_period(beat.effective_tempo_bpm);
    assert(period > 0) by (nonlinear_arith)
        requires
            -(beat.effective_tempo_bpm as int) < 2 * beat.effective_tempo_bpm * period
                - 12_000_000_000,
            0 < beat.effective_tempo_bpm <= 65_535,
    ;
    crate::beat_state::law_beat_on_time_is_shown(s, beat, heard, clock, clock as int);
    crate::beat_state::law_heard_beat_is_shown(
        s.after_beat(beat, heard, clock as int),
        clock as int,
    );
}

} // verus!
