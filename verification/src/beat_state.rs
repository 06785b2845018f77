//! The firmware's beat clock: follows the beats of the master deck, smooths
//! their arrival times with a phase-locked loop, and predicts the beats to come.
//!
//! Two clocks appear here. Arrival times of beats are nanoseconds on a monotonic
//! clock. Beat times are microseconds on the clock that packets carry.

use std::collections::HashMap;
use vstd::prelude::*;
use crate::on_air::on_air_to_mask;

verus! {

/// Without a beat for longer than this, in nanoseconds, the deck is given up.
pub const CDJ_TIMEOUT: u64 = 2_000_000_000;

/// Predicted beats that one tick catches up on, at most.
pub const MAX_CATCH_UP: u64 = 8;

/// What a beat packet of a deck says.
#[derive(Debug, Clone, Copy)]
pub struct Beat {
    pub device_number: u8,
    /// 1 to 4; 0 means "unknown".
    pub beat_within_bar: u8,
    /// BPM x 100, already adjusted for the deck's pitch.
    pub effective_tempo_bpm: u16,
    /// Distance in milliseconds to the next beat, if the deck reports it.
    pub next_beat_ms: Option<u32>,
    /// Distance in milliseconds to the next bar, if the deck reports it.
    pub next_bar_ms: Option<u32>,
}

impl Beat {
    /// The tempo, BPM x 100.
    pub fn effective_tempo(&self) -> (tempo: u16)
        ensures
            tempo == self.effective_tempo_bpm,
    {
        self.effective_tempo_bpm
    }

    /// The beat's place in its bar, from 0. An unknown place counts as the
    /// downbeat.
    pub open spec fn place(&self) -> u8 {
        if self.beat_within_bar > 0 {
            (self.beat_within_bar - 1) as u8
        } else {
            0
        }
    }
}

/// What a status packet of a deck says about playing.
#[derive(Debug, Clone, Copy)]
pub struct CdjStatus {
    pub device_number: u8,
    pub is_playing: bool,
}

/// What a status packet changed.
#[derive(Debug, PartialEq, Eq, Clone, Copy, Structural)]
pub enum CdjPlayTransition {
    Unchanged,
    Paused,
    PlayStarted,
}

/// The beat clock.
pub struct BeatSourceState {
    /// When the last master beat arrived, in nanoseconds.
    pub last_cdj_beat_time: u64,
    /// The current beat's place in its bar, from 0.
    pub cdj_beat_in_bar: u8,
    pub cdj_next_beat_us: i64,
    pub cdj_next_bar_us: i64,
    /// BPM x 100; 0 when unknown.
    pub cdj_bpm: u16,
    pub cdj_playing: bool,
    /// Device number of the master deck, 0 for none.
    pub master_device: u8,
    pub channels_on_air: HashMap<u8, bool>,
    pub last_beat_in_bar: u8,
    pub bar_counter: u8,
    /// The smoothed time of the last beat.
    pub last_smoothed_beat_us: i64,
    pub have_smoothed_beat: bool,
    /// The place in its bar of a beat that was heard but not yet shown.
    pub pending_beat_in_bar: Option<u8>,
    pub pending_beat_at_us: i64,
    /// Play was pressed and has not been answered with a flash yet.
    pub pending_play_flash: bool,
}

/// The length of a beat in microseconds: 60 s divided by the tempo, rounded to
/// the nearest microsecond, halves up. Without a tempo it is 0.
pub open spec fn beat_period(bpm_x100: u16) -> int {
    if bpm_x100 == 0 {
        0
    } else {
        (12_000_000_000 + bpm_x100) / (2 * bpm_x100 as int)
    }
}

/// Nanoseconds from `earlier` to `now`, 0 when `now` is not later.
pub open spec fn elapsed(earlier: u64, now: u64) -> int {
    if now >= earlier {
        now - earlier
    } else {
        0
    }
}

/// Beats from place `place` to the next downbeat.
pub open spec fn beats_to_bar(place: int) -> int {
    4 - place
}

/// Predicted beats that have come due by `clock`, the first of them at `next`,
/// as many as one tick catches up on. A time of 0 or less is no prediction.
pub open spec fn beats_due(next: int, period: int, clock: int) -> int {
    if next <= 0 || clock < next {
        0
    } else if (clock - next) / period + 1 <= MAX_CATCH_UP {
        (clock - next) / period + 1
    } else {
        MAX_CATCH_UP as int
    }
}

/// The latest reading of the packets' clock, in microseconds: as far as a 64-bit
/// count of nanoseconds goes.
pub const MAX_CLOCK_US: i64 = 18_446_744_073_709_551;

/// No beat time lies further from 0 than this.
pub const MAX_BEAT_US: i64 = 20_000_000_000_000_000;

/// A beat time that a clock within its range can lead to.
pub open spec fn is_beat_time(t: i64) -> bool {
    -MAX_BEAT_US <= t <= MAX_BEAT_US
}

impl BeatSourceState {
    /// The clock's times are within range, and a place in the bar can be counted
    /// on. Every operation keeps this while the packets' clock is within its
    /// range.
    pub open spec fn wf(&self) -> bool {
        &&& self.cdj_beat_in_bar < u8::MAX
        &&& self.pending_beat_in_bar is Some ==> self.pending_beat_in_bar->0 < u8::MAX
        &&& is_beat_time(self.last_smoothed_beat_us)
        &&& is_beat_time(self.pending_beat_at_us)
        &&& is_beat_time(self.cdj_next_beat_us)
        &&& is_beat_time(self.cdj_next_bar_us)
    }

    /// The places in the bar are places in a bar of four beats.
    pub open spec fn in_four(&self) -> bool {
        &&& self.cdj_beat_in_bar < 4
        &&& self.pending_beat_in_bar is Some ==> self.pending_beat_in_bar->0 < 4
    }

    /// Where the phase-locked loop puts a beat heard at `clock`. A beat that
    /// comes within half a period of the expected time pulls that time by an
    /// eighth of the difference; any other beat is taken as heard.
    pub open spec fn smoothed(&self, period: int, clock: int) -> int {
        let expected = self.last_smoothed_beat_us + period;
        let error = clock - expected;
        if !self.have_smoothed_beat || period <= 0 {
            clock
        } else if error > period / 2 || -error > period / 2 {
            clock
        } else {
            expected + crate::math::div_to_zero(error, 8)
        }
    }

    /// Beats heard at `clock` lead to times that the clock can show.
    pub open spec fn beat_fits(&self, beat: Beat, clock: int) -> bool {
        let period = beat_period(beat.effective_tempo_bpm);
        let expected = self.last_smoothed_beat_us + period;
        if period > 0 {
            &&& self.have_smoothed_beat ==> {
                &&& crate::math::fits_i64(expected)
                &&& i64::MIN < clock - expected <= i64::MAX
            }
            &&& crate::math::fits_i64(self.smoothed(period, clock) + period)
            &&& crate::math::fits_i64(
                self.smoothed(period, clock) + beats_to_bar(beat.place() as int) * period,
            )
        } else {
            &&& beat.next_beat_ms is Some ==> crate::math::fits_i64(
                clock + beat.next_beat_ms->0 * 1000,
            )
            &&& beat.next_bar_ms is Some ==> crate::math::fits_i64(
                clock + beat.next_bar_ms->0 * 1000,
            )
        }
    }

    /// The clock after a master beat that arrived at `now`, `clock` on the
    /// packets' clock. The beat is shown at its smoothed time, by the first tick
    /// that comes then. With a tempo, the beats to come are counted from that
    /// time; without one, the deck's own announcements stand, 0 where it makes
    /// none.
    pub open spec fn after_beat(&self, beat: Beat, now: u64, clock: int) -> BeatSourceState {
        let period = beat_period(beat.effective_tempo_bpm);
        let at = self.smoothed(period, clock);
        BeatSourceState {
            last_cdj_beat_time: now,
            cdj_bpm: beat.effective_tempo_bpm,
            cdj_playing: true,
            master_device: beat.device_number,
            last_smoothed_beat_us: at as i64,
            have_smoothed_beat: true,
            pending_beat_in_bar: Some(beat.place()),
            pending_beat_at_us: at as i64,
            cdj_next_beat_us: (if period > 0 {
                at + period
            } else if beat.next_beat_ms is Some {
                clock + beat.next_beat_ms->0 * 1000
            } else {
                0
            }) as i64,
            cdj_next_bar_us: (if period > 0 {
                at + beats_to_bar(beat.place() as int) * period
            } else if beat.next_bar_ms is Some {
                clock + beat.next_bar_ms->0 * 1000
            } else {
                0
            }) as i64,
            ..*self
        }
    }

    /// What a status packet changes. Without a master, the first deck that plays
    /// becomes master; with one, other decks are ignored.
    pub open spec fn transition(&self, status: CdjStatus) -> CdjPlayTransition {
        if self.master_device == 0 {
            if status.is_playing {
                CdjPlayTransition::PlayStarted
            } else {
                CdjPlayTransition::Unchanged
            }
        } else if status.device_number != self.master_device {
            CdjPlayTransition::Unchanged
        } else if self.cdj_playing && !status.is_playing {
            CdjPlayTransition::Paused
        } else if !self.cdj_playing && status.is_playing {
            CdjPlayTransition::PlayStarted
        } else {
            CdjPlayTransition::Unchanged
        }
    }

    /// The clock after a status packet. Starting to play asks for a flash at
    /// once. Pausing drops the smoothed beat and whatever is pending.
    pub open spec fn after_status(&self, status: CdjStatus) -> BeatSourceState {
        match self.transition(status) {
            CdjPlayTransition::PlayStarted => BeatSourceState {
                master_device: if self.master_device == 0 {
                    status.device_number
                } else {
                    self.master_device
                },
                cdj_playing: true,
                pending_play_flash: true,
                ..*self
            },
            CdjPlayTransition::Paused => BeatSourceState {
                cdj_playing: false,
                have_smoothed_beat: false,
                pending_beat_in_bar: None,
                pending_play_flash: false,
                ..*self
            },
            CdjPlayTransition::Unchanged => *self,
        }
    }

    /// The deck is taken to play, but has been silent for too long.
    pub open spec fn timed_out(&self, now: u64) -> bool {
        self.cdj_playing && elapsed(self.last_cdj_beat_time, now) > CDJ_TIMEOUT
    }

    /// The clock after a timeout check.
    pub open spec fn after_timeout_check(&self, now: u64) -> BeatSourceState {
        if self.timed_out(now) {
            BeatSourceState {
                cdj_playing: false,
                have_smoothed_beat: false,
                pending_beat_in_bar: None,
                ..*self
            }
        } else {
            *self
        }
    }

    /// The deck is the timing authority.
    pub open spec fn active(&self, now: u64) -> bool {
        self.cdj_playing && elapsed(self.last_cdj_beat_time, now) < CDJ_TIMEOUT
    }

    /// The deck plays at a known tempo, so beats can be predicted.
    pub open spec fn predicts(&self) -> bool {
        self.cdj_playing && self.cdj_bpm > 0
    }

    /// A heard beat is waiting, and its time has come.
    pub open spec fn pending_due(&self, clock: int) -> bool {
        self.pending_beat_in_bar is Some && clock >= self.pending_beat_at_us
    }

    /// The clock once a heard beat whose time has come is shown.
    pub open spec fn with_pending_shown(&self, clock: int) -> BeatSourceState {
        if self.pending_due(clock) {
            BeatSourceState {
                cdj_beat_in_bar: self.pending_beat_in_bar->0,
                pending_beat_in_bar: None,
                ..*self
            }
        } else {
            *self
        }
    }

    /// The clock `k` predicted beats on.
    pub open spec fn beats_later(&self, k: int) -> BeatSourceState {
        let period = beat_period(self.cdj_bpm);
        let place = (self.cdj_beat_in_bar + k) % 4;
        if k <= 0 {
            *self
        } else {
            BeatSourceState {
                cdj_beat_in_bar: place as u8,
                cdj_next_beat_us: (self.cdj_next_beat_us + k * period) as i64,
                cdj_next_bar_us: (self.cdj_next_beat_us + (k - 1) * period + beats_to_bar(place)
                    * period) as i64,
                ..*self
            }
        }
    }

    /// The predicted beats that a tick at `clock` shows.
    pub open spec fn due(&self, clock: int) -> int {
        beats_due(self.cdj_next_beat_us as int, beat_period(self.cdj_bpm), clock)
    }

    /// One tick at `clock` shows all the predicted beats that have come due.
    pub open spec fn one_tick_suffices(&self, clock: int) -> bool {
        self.predicts() && self.cdj_next_beat_us > 0 ==> clock < self.cdj_next_beat_us
            + MAX_CATCH_UP * beat_period(self.cdj_bpm)
    }

    /// A tick at `clock` leads to times that the clock can show.
    pub open spec fn tick_fits(&self, clock: int) -> bool {
        let k = self.due(clock);
        let period = beat_period(self.cdj_bpm);
        let shown = self.with_pending_shown(clock);
        self.predicts() && k > 0 ==> {
            &&& shown.cdj_beat_in_bar < u8::MAX
            &&& crate::math::fits_i64(self.cdj_next_beat_us + k * period)
            &&& crate::math::fits_i64(
                self.cdj_next_beat_us + (k - 1) * period + beats_to_bar(
                    (shown.cdj_beat_in_bar + k) % 4,
                ) * period,
            )
        }
    }

    /// The clock after a tick: a heard beat whose time has come is shown, then
    /// the predicted beats that have come due.
    pub open spec fn after_tick(&self, clock: int) -> BeatSourceState {
        if self.predicts() {
            self.with_pending_shown(clock).beats_later(self.due(clock))
        } else {
            *self
        }
    }

    /// A tick at `clock` shows a beat.
    pub open spec fn tick_advances(&self, clock: int) -> bool {
        self.predicts() && (self.pending_due(clock) || self.due(clock) > 0)
    }
}

/// The length of a beat in microseconds, 0 without a tempo.
pub fn beat_period_us(bpm_x100: u16) -> (period: i64)
    ensures
        period == beat_period(bpm_x100),
        0 <= period <= 6_000_000_000,
        bpm_x100 > 0 ==> period > 0,
{
    if bpm_x100 == 0 {
        0
    } else {
        let x: u64 = bpm_x100 as u64;
        proof {
            lemma_period_bounds(bpm_x100);
        }
        ((12_000_000_000 + x) / (2 * x)) as i64
    }
}

/// A beat takes between a tenth of a second, nearly, and 100 minutes.
proof fn lemma_period_bounds(bpm_x100: u16)
    requires
        bpm_x100 > 0,
    ensures
        91_553 <= beat_period(bpm_x100) <= 6_000_000_000,
{
    let x = bpm_x100 as int;
    assert(91_553 <= (12_000_000_000 + x) / (2 * x) <= 6_000_000_000) by (nonlinear_arith)
        requires
            1 <= x <= 65_535,
    ;
}

/// Due beats by counting: `k` beats on, the next one is still to come, unless the
/// limit was reached.
proof fn lemma_due_counts(next: int, period: int, clock: int, j: int)
    requires
        period > 0,
        0 <= j <= MAX_CATCH_UP,
    ensures
        next > 0 && clock >= next + j * period && j < MAX_CATCH_UP ==> j < beats_due(
            next,
            period,
            clock,
        ),
        j <= beats_due(next, period, clock) && !(next + j * period > 0 && clock >= next + j * period
            && j < MAX_CATCH_UP) ==> j == beats_due(next, period, clock),
{
    assert(0 <= j * period) by (nonlinear_arith)
        requires
            period > 0,
            0 <= j,
    ;
    if next > 0 && clock >= next {
        let a = clock - next;
        let q = a / period;
        assert(q * period <= a < q * period + period) by (nonlinear_arith)
            requires
                period > 0,
                q == a / period,
        ;
        assert(a >= j * period ==> q >= j) by (nonlinear_arith)
            requires
                a < q * period + period,
                period > 0,
        ;
        assert(a < j * period ==> q < j) by (nonlinear_arith)
            requires
                q * period <= a,
                period > 0,
        ;
    }
}

/// Bars only move forward: the downbeat that follows a later beat is no earlier.
proof fn lemma_bar_moves_forward(place: int, i: int, k: int, period: int)
    requires
        0 <= place,
        1 <= i <= k,
        period > 0,
    ensures
        (i - 1) * period + beats_to_bar((place + i) % 4) * period <= (k - 1) * period
            + beats_to_bar((place + k) % 4) * period,
        0 <= (i - 1) * period,
        0 <= beats_to_bar((place + i) % 4) * period,
        i * period <= k * period,
{
    let x = i - 1 + beats_to_bar((place + i) % 4);
    let y = k - 1 + beats_to_bar((place + k) % 4);
    assert(x <= y);
    assert((i - 1) * period + beats_to_bar((place + i) % 4) * period == x * period)
        by (nonlinear_arith)
        requires
            x == i - 1 + beats_to_bar((place + i) % 4),
    ;
    assert((k - 1) * period + beats_to_bar((place + k) % 4) * period == y * period)
        by (nonlinear_arith)
        requires
            y == k - 1 + beats_to_bar((place + k) % 4),
    ;
    assert(x * period <= y * period) by (nonlinear_arith)
        requires
            x <= y,
            period > 0,
    ;
    assert(0 <= (i - 1) * period) by (nonlinear_arith)
        requires
            1 <= i,
            period > 0,
    ;
    let left = beats_to_bar((place + i) % 4);
    assert(0 <= left * period) by (nonlinear_arith)
        requires
            0 <= left,
            period > 0,
    ;
    assert(i * period <= k * period) by (nonlinear_arith)
        requires
            i <= k,
            period > 0,
    ;
}

/// `error / 8`, rounded towards zero.
fn eighth(error: i64) -> (part: i64)
    requires
        error > i64::MIN,
    ensures
        part == crate::math::div_to_zero(error as int, 8),
{
    if error >= 0 {
        error / 8
    } else {
        -((-error) / 8)
    }
}

impl BeatSourceState {
    /// A clock that has heard no beat. The last beat is put one timeout back, so
    /// that no deck counts as active; on a clock too young for that, it is put at
    /// `now`.
    pub fn new(now: u64) -> (state: Self)
        ensures
            state.last_cdj_beat_time == (if now >= CDJ_TIMEOUT {
                (now - CDJ_TIMEOUT) as u64
            } else {
                now
            }),
            state.cdj_beat_in_bar == 0,
            state.cdj_next_beat_us == 0,
            state.cdj_next_bar_us == 0,
            state.cdj_bpm == 0,
            !state.cdj_playing,
            state.master_device == 0,
            state.wf(),
            state.channels_on_air@ == Map::<u8, bool>::empty(),
            state.last_beat_in_bar == u8::MAX,
            state.bar_counter == 0,
            state.last_smoothed_beat_us == 0,
            !state.have_smoothed_beat,
            state.pending_beat_in_bar is None,
            state.pending_beat_at_us == 0,
            !state.pending_play_flash,
    {
        BeatSourceState {
            last_cdj_beat_time: if now >= CDJ_TIMEOUT {
                now - CDJ_TIMEOUT
            } else {
                now
            },
            cdj_beat_in_bar: 0,
            cdj_next_beat_us: 0,
            cdj_next_bar_us: 0,
            cdj_bpm: 0,
            cdj_playing: false,
            master_device: 0,
            channels_on_air: HashMap::new(),
            last_beat_in_bar: u8::MAX,
            bar_counter: 0,
            last_smoothed_beat_us: 0,
            have_smoothed_beat: false,
            pending_beat_in_bar: None,
            pending_beat_at_us: 0,
            pending_play_flash: false,
        }
    }

    /// Takes a beat of the master deck into account. It arrived at `now`, at
    /// `link_clock_us` on the packets' clock.
    pub fn process_master_beat(&mut self, beat: &Beat, now: u64, link_clock_us: i64)
        requires
            old(self).beat_fits(*beat, link_clock_us as int),
        ensures
            *final(self) == old(self).after_beat(*beat, now, link_clock_us as int),
    {
        self.last_cdj_beat_time = now;
        self.cdj_bpm = beat.effective_tempo();
        let target_beat_in_bar: u8 = if beat.beat_within_bar > 0 {
            beat.beat_within_bar - 1
        } else {
            0
        };
        self.cdj_playing = true;
        self.master_device = beat.device_number;
        let beat_period_us: i64 = beat_period_us(self.cdj_bpm);
        let smoothed_beat_us: i64 = if self.have_smoothed_beat && beat_period_us > 0 {
            let expected: i64 = self.last_smoothed_beat_us + beat_period_us;
            let error: i64 = link_clock_us - expected;
            if error > beat_period_us / 2 || -error > beat_period_us / 2 {
                link_clock_us
            } else {
                expected + eighth(error)
            }
        } else {
            link_clock_us
        };
        self.last_smoothed_beat_us = smoothed_beat_us;
        self.have_smoothed_beat = true;
        self.pending_beat_in_bar = Some(target_beat_in_bar);
        self.pending_beat_at_us = smoothed_beat_us;
        if beat_period_us > 0 {
            self.cdj_next_beat_us = smoothed_beat_us + beat_period_us;
            let beats_to_bar: i64 = 4 - target_beat_in_bar as i64;
            assert(-1_500_000_000_000 <= beats_to_bar * beat_period_us <= 24_000_000_000)
                by (nonlinear_arith)
                requires
                    -250 <= beats_to_bar <= 4,
                    0 <= beat_period_us <= 6_000_000_000,
            ;
            self.cdj_next_bar_us = smoothed_beat_us + beats_to_bar * beat_period_us;
        } else {
            self.cdj_next_beat_us = match beat.next_beat_ms {
                Some(ms) => link_clock_us + (ms as i64) * 1000,
                None => 0,
            };
            self.cdj_next_bar_us = match beat.next_bar_ms {
                Some(ms) => link_clock_us + (ms as i64) * 1000,
                None => 0,
            };
        }
    }

    /// Takes a status packet into account, and says what it changed.
    pub fn process_cdj_status(&mut self, status: &CdjStatus) -> (transition: CdjPlayTransition)
        ensures
            *final(self) == old(self).after_status(*status),
            transition == old(self).transition(*status),
    {
        let now_playing: bool = status.is_playing;
        if self.master_device == 0 {
            if now_playing {
                self.master_device = status.device_number;
                self.cdj_playing = true;
                self.pending_play_flash = true;
                return CdjPlayTransition::PlayStarted;
            }
            return CdjPlayTransition::Unchanged;
        }
        if status.device_number != self.master_device {
            return CdjPlayTransition::Unchanged;
        }
        if self.cdj_playing && !now_playing {
            self.cdj_playing = false;
            self.have_smoothed_beat = false;
            self.pending_beat_in_bar = None;
            self.pending_play_flash = false;
            return CdjPlayTransition::Paused;
        }
        if !self.cdj_playing && now_playing {
            self.cdj_playing = true;
            self.pending_play_flash = true;
            return CdjPlayTransition::PlayStarted;
        }
        CdjPlayTransition::Unchanged
    }

    /// Gives the deck up when it has been silent for too long. Says whether it
    /// did.
    pub fn check_cdj_timeout(&mut self, now: u64) -> (timed_out: bool)
        ensures
            *final(self) == old(self).after_timeout_check(now),
            timed_out == old(self).timed_out(now),
    {
        if self.cdj_playing && now.saturating_sub(self.last_cdj_beat_time) > CDJ_TIMEOUT {
            self.cdj_playing = false;
            self.have_smoothed_beat = false;
            self.pending_beat_in_bar = None;
            true
        } else {
            false
        }
    }

    /// Whether the deck is the timing authority.
    pub fn is_cdj_active(&self, now: u64) -> (active: bool)
        ensures
            active == self.active(now),
    {
        self.cdj_playing && now.saturating_sub(self.last_cdj_beat_time) < CDJ_TIMEOUT
    }

    /// Shows the beats whose time has come. Says whether there was one.
    pub fn tick_predicted_beats(&mut self, link_clock_us: i64) -> (advanced: bool)
        requires
            old(self).tick_fits(link_clock_us as int),
        ensures
            *final(self) == old(self).after_tick(link_clock_us as int),
            advanced == old(self).tick_advances(link_clock_us as int),
    {
        if !self.cdj_playing || self.cdj_bpm == 0 {
            return false;
        }
        let beat_period_us: i64 = beat_period_us(self.cdj_bpm);
        let mut advanced: bool = false;
        let ghost start = *self;
        if let Some(target) = self.pending_beat_in_bar {
            if link_clock_us >= self.pending_beat_at_us {
                self.cdj_beat_in_bar = target;
                self.pending_beat_in_bar = None;
                advanced = true;
            }
        }
        let ghost shown = *self;
        assert(shown == start.with_pending_shown(link_clock_us as int));
        let ghost due = start.due(link_clock_us as int);
        let mut guard: u64 = 0;
        while self.cdj_next_beat_us > 0 && link_clock_us >= self.cdj_next_beat_us && guard
            < MAX_CATCH_UP
            invariant
                guard <= MAX_CATCH_UP,
                guard <= due,
                beat_period_us == beat_period(shown.cdj_bpm),
                0 < beat_period_us <= 6_000_000_000,
                due == beats_due(
                    shown.cdj_next_beat_us as int,
                    beat_period_us as int,
                    link_clock_us as int,
                ),
                *self == shown.beats_later(guard as int),
                self.cdj_next_beat_us == shown.cdj_next_beat_us + guard * beat_period_us,
                guard > 0 ==> self.cdj_beat_in_bar < 4,
                guard > 0 ==> self.cdj_beat_in_bar == (shown.cdj_beat_in_bar + guard) % 4,
                advanced == (start.pending_due(link_clock_us as int) || guard > 0),
                due > 0 ==> {
                    &&& shown.cdj_beat_in_bar < u8::MAX
                    &&& crate::math::fits_i64(shown.cdj_next_beat_us + due * beat_period_us)
                    &&& crate::math::fits_i64(
                        shown.cdj_next_beat_us + (due - 1) * beat_period_us + beats_to_bar(
                            (shown.cdj_beat_in_bar + due) % 4,
                        ) * beat_period_us,
                    )
                },
            decreases MAX_CATCH_UP - guard,
        {
            proof {
                let j = guard as int;
                assert(0 <= j * beat_period_us) by (nonlinear_arith)
                    requires
                        0 <= j,
                        0 < beat_period_us,
                ;
                if j > 0 {
                    lemma_due_counts(
                        shown.cdj_next_beat_us as int,
                        beat_period_us as int,
                        link_clock_us as int,
                        0,
                    );
                }
                lemma_due_counts(
                    shown.cdj_next_beat_us as int,
                    beat_period_us as int,
                    link_clock_us as int,
                    j,
                );
                lemma_bar_moves_forward(
                    shown.cdj_beat_in_bar as int,
                    j + 1,
                    due,
                    beat_period_us as int,
                );
                assert((j + 1) * beat_period_us == j * beat_period_us + beat_period_us)
                    by (nonlinear_arith);
            }
            self.cdj_beat_in_bar = (self.cdj_beat_in_bar + 1) % 4;
            let just_advanced_at: i64 = self.cdj_next_beat_us;
            self.cdj_next_beat_us = self.cdj_next_beat_us + beat_period_us;
            let beats_to_bar: i64 = 4 - self.cdj_beat_in_bar as i64;
            self.cdj_next_bar_us = just_advanced_at + beats_to_bar * beat_period_us;
            guard = guard + 1;
            advanced = true;
        }
        proof {
            lemma_due_counts(
                shown.cdj_next_beat_us as int,
                beat_period_us as int,
                link_clock_us as int,
                guard as int,
            );
        }
        advanced
    }

    /// The mask of the channels on air.
    pub fn on_air_mask(&self) -> (mask: u8)
        ensures
            mask == crate::on_air::on_air_mask(self.channels_on_air@),
    {
        on_air_to_mask(&self.channels_on_air)
    }

    /// Replaces what is known about the channels.
    pub fn update_on_air(&mut self, channels: HashMap<u8, bool>)
        ensures
            *final(self) == (BeatSourceState { channels_on_air: channels, ..*old(self) }),
    {
        self.channels_on_air = channels;
    }
}

/// The beat period is the nearest whole number of microseconds: it is off by half
/// a microsecond at most, and by exactly that only upwards.
pub proof fn law_period_is_nearest(bpm_x100: u16)
    requires
        bpm_x100 > 0,
    ensures
        -(bpm_x100 as int) < 2 * bpm_x100 * beat_period(bpm_x100) - 12_000_000_000 <= bpm_x100,
        beat_period(0) == 0,
{
    let x = bpm_x100 as int;
    let n = 12_000_000_000 + x;
    let q = n / (2 * x);
    assert((2 * x) * q <= n < (2 * x) * q + 2 * x) by (nonlinear_arith)
        requires
            x > 0,
            q == n / (2 * x),
    ;
}

/// The phase-locked loop stays close: where it puts a beat lies between the
/// expected time and the time at which the beat was heard, and never further than
/// half a period from the latter.
pub proof fn law_smoothing_stays_close(s: BeatSourceState, period: int, clock: int)
    requires
        period > 0,
    ensures
        ({
            let at = s.smoothed(period, clock);
            let expected = s.last_smoothed_beat_us + period;
            &&& -(period / 2) <= at - clock <= period / 2
            &&& s.have_smoothed_beat ==> at == clock || expected <= at <= clock || clock <= at
                <= expected
        }),
{
}

/// The phase-locked loop locks: a beat within half a period of the expected time
/// leaves an eighth less of the difference, up to the rounding to whole
/// microseconds, and never overshoots.
pub proof fn law_phase_error_shrinks(s: BeatSourceState, period: int, clock: int)
    requires
        s.have_smoothed_beat,
        period > 0,
        -(period / 2) <= clock - (s.last_smoothed_beat_us + period) <= period / 2,
    ensures
        ({
            let before = clock - (s.last_smoothed_beat_us + period);
            let after = clock - s.smoothed(period, clock);
            &&& before >= 0 ==> 0 <= after && 8 * after <= 7 * before + 7
            &&& before <= 0 ==> after <= 0 && 8 * after >= 7 * before - 7
        }),
{
}

/// A beat exactly on time leaves the grid alone: it is put where it was expected,
/// and the predicted beats go on one period apart.
pub proof fn law_steady_beat_keeps_the_grid(
    s: BeatSourceState,
    beat: Beat,
    now: u64,
    clock: int,
)
    requires
        beat.effective_tempo_bpm > 0,
        s.have_smoothed_beat,
        s.beat_fits(beat, clock),
        clock == s.last_smoothed_beat_us + beat_period(beat.effective_tempo_bpm),
    ensures
        s.after_beat(beat, now, clock).last_smoothed_beat_us == clock,
        s.after_beat(beat, now, clock).pending_beat_at_us == clock,
        s.after_beat(beat, now, clock).cdj_next_beat_us == clock + beat_period(
            beat.effective_tempo_bpm,
        ),
{
    lemma_period_bounds(beat.effective_tempo_bpm);
}

/// A beat leaves the clock within its range, and its times can be computed.
pub proof fn law_beat_keeps_range(s: BeatSourceState, beat: Beat, now: u64, clock: int)
    requires
        s.wf(),
        0 <= clock <= MAX_CLOCK_US,
    ensures
        s.beat_fits(beat, clock),
        s.after_beat(beat, now, clock).wf(),
        s.in_four() && beat.beat_within_bar <= 4 ==> s.after_beat(beat, now, clock).in_four(),
{
    let period = beat_period(beat.effective_tempo_bpm);
    if period > 0 {
        lemma_period_bounds(beat.effective_tempo_bpm);
        law_smoothing_stays_close(s, period, clock);
        let n = beats_to_bar(beat.place() as int);
        assert(-1_500_000_000_000 <= n * period <= 24_000_000_000) by (nonlinear_arith)
            requires
                -250 <= n <= 4,
                0 <= period <= 6_000_000_000,
        ;
    }
}

/// A status packet or a timeout check leaves the clock within its range.
pub proof fn law_status_and_timeout_keep_range(s: BeatSourceState, status: CdjStatus, now: u64)
    requires
        s.wf(),
    ensures
        s.after_status(status).wf(),
        s.after_timeout_check(now).wf(),
        s.in_four() ==> s.after_status(status).in_four() && s.after_timeout_check(now).in_four(),
{
}

/// A tick leaves the clock within its range, and its times can be computed.
pub proof fn law_tick_keeps_range(s: BeatSourceState, clock: int)
    requires
        s.wf(),
        0 <= clock <= MAX_CLOCK_US,
    ensures
        s.tick_fits(clock),
        s.after_tick(clock).wf(),
        s.in_four() ==> s.after_tick(clock).in_four(),
{
    if s.predicts() {
        let period = beat_period(s.cdj_bpm);
        let k = s.due(clock);
        lemma_period_bounds(s.cdj_bpm);
        if k > 0 {
            let next = s.cdj_next_beat_us as int;
            let q = (clock - next) / period;
            assert(q * period <= clock - next && 0 <= q) by (nonlinear_arith)
                requires
                    period > 0,
                    q == (clock - next) / period,
                    clock >= next,
            ;
            assert(0 <= (k - 1) * period <= q * period && k * period == (k - 1) * period + period)
                by (nonlinear_arith)
                requires
                    1 <= k <= q + 1,
                    period > 0,
            ;
            let n = beats_to_bar((s.with_pending_shown(clock).cdj_beat_in_bar + k) % 4);
            assert(0 <= n * period <= 24_000_000_000) by (nonlinear_arith)
                requires
                    0 <= n <= 4,
                    0 <= period <= 6_000_000_000,
            ;
        }
    }
}

/// With no more beats due than one tick shows, all of them are counted.
proof fn lemma_all_due(next: int, period: int, clock: int)
    requires
        period > 0,
        0 < next <= clock,
        clock < next + MAX_CATCH_UP * period,
    ensures
        beats_due(next, period, clock) == (clock - next) / period + 1,
{
    let a = clock - next;
    assert(a / period < 8) by (nonlinear_arith)
        requires
            period > 0,
            a < 8 * period,
    ;
}

/// Ticks catch up: with no more predicted beats due than one tick shows, the next
/// beat then lies in the future. After a tick that shows a predicted beat it is at
/// most a period away, and it stands in the bar where the time of the next bar says
/// it does.
pub proof fn law_tick_catches_up(s: BeatSourceState, clock: int)
    requires
        s.predicts(),
        s.tick_fits(clock),
        s.cdj_next_beat_us > 0,
    ensures
        ({
            let t = s.after_tick(clock);
            let period = beat_period(s.cdj_bpm);
            &&& s.one_tick_suffices(clock) ==> t.cdj_next_beat_us > clock
            &&& s.due(clock) > 0 ==> {
                &&& t.cdj_next_bar_us - t.cdj_next_beat_us == (3 - t.cdj_beat_in_bar) * period
                &&& t.cdj_next_beat_us <= clock + period
            }
        }),
{
    let period = beat_period(s.cdj_bpm);
    let k = s.due(clock);
    let next = s.cdj_next_beat_us as int;
    lemma_period_bounds(s.cdj_bpm);
    lemma_due_counts(next, period, clock, 0);
    if s.one_tick_suffices(clock) && clock >= next {
        lemma_all_due(next, period, clock);
    }
    let place = (s.with_pending_shown(clock).cdj_beat_in_bar + k) % 4;
    assert((k - 1) * period + beats_to_bar(place) * period - k * period == (3 - place) * period)
        by (nonlinear_arith)
        requires
            beats_to_bar(place) == 4 - place,
    ;
    let q = (clock - next) / period;
    assert(q * period <= clock - next < q * period + period) by (nonlinear_arith)
        requires
            period > 0,
            q == (clock - next) / period,
    ;
    assert(k <= q + 1 ==> k * period <= q * period + period) by (nonlinear_arith)
        requires
            period > 0,
    ;
    assert(k == q + 1 ==> k * period == q * period + period) by (nonlinear_arith);
}

/// A second tick at the same time finds nothing to do, once the first has caught
/// up.
pub proof fn law_tick_is_idempotent(s: BeatSourceState, clock: int)
    requires
        s.tick_fits(clock),
        s.one_tick_suffices(clock),
    ensures
        !s.after_tick(clock).tick_advances(clock),
        s.after_tick(clock).after_tick(clock) == s.after_tick(clock),
{
    if s.predicts() && s.cdj_next_beat_us > 0 {
        law_tick_catches_up(s, clock);
    }
}

/// Due beats add up: those due by `a` and those that follow by `b`.
proof fn lemma_due_adds_up(next: int, period: int, a: int, b: int)
    requires
        period > 0,
        a <= b,
        next > 0,
        b < next + MAX_CATCH_UP * period,
    ensures
        ({
            let k = beats_due(next, period, a);
            &&& 0 <= k <= beats_due(next, period, b)
            &&& next + k * period > 0
            &&& beats_due(next + k * period, period, b) == beats_due(next, period, b) - k
        }),
{
    let k = beats_due(next, period, a);
    let m = beats_due(next, period, b);
    if b >= next {
        lemma_all_due(next, period, b);
    }
    if a < next {
        assert(0 * period == 0);
        if b >= next {
            assert(0 <= (b - next) / period) by (nonlinear_arith)
                requires
                    period > 0,
                    b >= next,
            ;
        }
    } else {
        lemma_all_due(next, period, a);
        let q = (a - next) / period;
        let r = (b - next) / period;
        assert(0 <= q <= r && r * period <= b - next < r * period + period) by (nonlinear_arith)
            requires
                period > 0,
                0 <= a - next <= b - next,
                q == (a - next) / period,
                r == (b - next) / period,
        ;
        let later = next + k * period;
        assert(0 <= k * period) by (nonlinear_arith)
            requires
                0 <= k,
                period > 0,
        ;
        assert(b < later ==> r < k) by (nonlinear_arith)
            requires
                later == next + k * period,
                r * period <= b - next,
                period > 0,
        ;
        assert(b >= later ==> r >= k) by (nonlinear_arith)
            requires
                later == next + k * period,
                b - next < r * period + period,
                period > 0,
        ;
        if b >= later {
            assert((b - later) / period == r - k) by (nonlinear_arith)
                requires
                    later == next + k * period,
                    r * period <= b - next < r * period + period,
                    period > 0,
            ;
            lemma_all_due(later, period, b);
        }
    }
}

/// `k` predicted beats and then `m` more are `k + m` predicted beats.
proof fn lemma_later_beats_add_up(s: BeatSourceState, k: int, m: int)
    requires
        0 <= k,
        0 <= m,
        crate::math::fits_i64(s.cdj_next_beat_us + k * beat_period(s.cdj_bpm)),
    ensures
        s.beats_later(k).beats_later(m) == s.beats_later(k + m),
{
    if k > 0 && m > 0 {
        let period = beat_period(s.cdj_bpm);
        assert(k * period + m * period == (k + m) * period) by (nonlinear_arith);
        assert(k * period + (m - 1) * period == (k + m - 1) * period) by (nonlinear_arith);
    }
}

/// How often the clock is ticked makes no difference: a tick at `a` and one at `b`
/// leave it as one at `b` does, as long as that one catches up and a beat that was
/// heard is shown before the beats predicted from it.
#[verifier::spinoff_prover]
pub proof fn law_ticks_add_up(s: BeatSourceState, a: int, b: int)
    requires
        s.wf(),
        0 <= a <= b <= MAX_CLOCK_US,
        s.pending_beat_in_bar is Some && s.cdj_next_beat_us > 0 ==> s.pending_beat_at_us
            <= s.cdj_next_beat_us,
        s.one_tick_suffices(b),
    ensures
        s.after_tick(a).after_tick(b) == s.after_tick(b),
{
    if s.predicts() && s.cdj_next_beat_us > 0 {
        let period = beat_period(s.cdj_bpm);
        let next = s.cdj_next_beat_us as int;
        let k = s.due(a);
        lemma_period_bounds(s.cdj_bpm);
        lemma_due_adds_up(next, period, a, b);
        if k > 0 {
            let shown = s.with_pending_shown(a);
            assert(shown == s.with_pending_shown(b));
            assert(crate::math::fits_i64(next + k * period)) by {
                law_tick_keeps_range(s, a);
            }
            lemma_later_beats_add_up(shown, k, s.due(b) - k);
            assert(s.after_tick(a) == shown.beats_later(k));
            assert(s.after_tick(a).with_pending_shown(b) == s.after_tick(a));
            assert(s.after_tick(a).due(b) == s.due(b) - k);
        } else {
            assert(0 * period == 0);
        }
    }
}

/// A beat that was heard is shown before the beats predicted from it.
pub proof fn law_heard_beat_comes_first(s: BeatSourceState, beat: Beat, now: u64, clock: int)
    requires
        s.wf(),
        0 <= clock <= MAX_CLOCK_US,
        beat.effective_tempo_bpm > 0,
    ensures
        s.after_beat(beat, now, clock).pending_beat_at_us < s.after_beat(
            beat,
            now,
            clock,
        ).cdj_next_beat_us,
{
    lemma_period_bounds(beat.effective_tempo_bpm);
    law_beat_keeps_range(s, beat, now, clock);
}

/// The deck is the timing authority for exactly the timeout after each beat: from
/// then on it is not, and after any longer silence a check gives it up.
pub proof fn law_beat_makes_deck_active(
    s: BeatSourceState,
    beat: Beat,
    heard: u64,
    clock: int,
    now: u64,
)
    requires
        now >= heard,
    ensures
        s.after_beat(beat, heard, clock).active(now) <==> now - heard < CDJ_TIMEOUT,
        s.after_beat(beat, heard, clock).timed_out(now) <==> now - heard > CDJ_TIMEOUT,
{
}

/// A deck that is given up is no timing authority, before the check or after, at
/// any time; a second check finds nothing to do.
pub proof fn law_timeout_ends_authority(s: BeatSourceState, now: u64, later: u64)
    requires
        s.timed_out(now),
    ensures
        !s.active(now),
        !s.after_timeout_check(now).active(later),
        !s.after_timeout_check(now).timed_out(later),
{
}

/// Once there is a master, no other deck's status changes anything.
pub proof fn law_other_decks_are_ignored(s: BeatSourceState, status: CdjStatus)
    requires
        s.master_device != 0,
        status.device_number != s.master_device,
    ensures
        s.after_status(status) == s,
        s.transition(status) is Unchanged,
{
}

/// Every beat of a known tempo, whether or not the loop was locked, puts the next
/// beat one period after it and the next bar as many periods after it as beats are
/// missing to the next downbeat. A beat of unknown place counts as the downbeat.
pub proof fn law_beat_sets_the_times_to_come(
    s: BeatSourceState,
    beat: Beat,
    now: u64,
    clock: i64,
)
    requires
        s.beat_fits(beat, clock as int),
        beat.effective_tempo_bpm > 0,
    ensures
        ({
            let t = s.after_beat(beat, now, clock as int);
            let period = beat_period(beat.effective_tempo_bpm);
            let place = if beat.beat_within_bar == 0 {
                0
            } else {
                beat.beat_within_bar - 1
            };
            &&& t.cdj_next_beat_us - t.last_smoothed_beat_us == period
            &&& t.cdj_next_bar_us - t.last_smoothed_beat_us == (4 - place) * period
            &&& t.cdj_next_bar_us - t.cdj_next_beat_us == (3 - place) * period
        }),
{
    let period = beat_period(beat.effective_tempo_bpm);
    let n = beats_to_bar(beat.place() as int);
    lemma_period_bounds(beat.effective_tempo_bpm);
    law_smoothing_stays_close(s, period, clock as int);
    assert(n * period - period == (n - 1) * period) by (nonlinear_arith);
}

/// Where a beat is put. Without a lock or a tempo, or more than half a period away
/// from the expected time, it is put where it was heard. Otherwise it is put off the
/// expected time by an eighth of the difference, without its fraction.
pub proof fn law_where_a_beat_is_put(s: BeatSourceState, beat: Beat, now: u64, clock: i64)
    requires
        s.beat_fits(beat, clock as int),
    ensures
        ({
            let at = s.after_beat(beat, now, clock as int).last_smoothed_beat_us;
            let period = beat_period(beat.effective_tempo_bpm);
            let expected = s.last_smoothed_beat_us + period;
            let error = clock - expected;
            let near = -period <= 2 * error <= period;
            if s.have_smoothed_beat && beat.effective_tempo_bpm > 0 && near {
                &&& error >= 0 ==> 8 * (at - expected) <= error < 8 * (at - expected) + 8
                &&& error <= 0 ==> 8 * (at - expected) - 8 < error <= 8 * (at - expected)
            } else {
                at == clock
            }
        }),
{
    if beat.effective_tempo_bpm > 0 {
        lemma_period_bounds(beat.effective_tempo_bpm);
        law_smoothing_stays_close(s, beat_period(beat.effective_tempo_bpm), clock as int);
    }
}

/// A beat makes its deck the playing master at its tempo, heard now, and waits to be
/// shown in its own place at the time at which it was put. Nothing that is shown
/// changes yet.
pub proof fn law_beat_waits_in_its_place(s: BeatSourceState, beat: Beat, now: u64, clock: int)
    ensures
        ({
            let t = s.after_beat(beat, now, clock);
            &&& t.last_cdj_beat_time == now
            &&& t.cdj_bpm == beat.effective_tempo_bpm
            &&& t.cdj_playing
            &&& t.master_device == beat.device_number
            &&& t.have_smoothed_beat
            &&& t.pending_beat_at_us == t.last_smoothed_beat_us
            &&& beat.beat_within_bar == 0 ==> t.pending_beat_in_bar == Some(0u8)
            &&& beat.beat_within_bar > 0 ==> t.pending_beat_in_bar is Some
                && t.pending_beat_in_bar->0 + 1 == beat.beat_within_bar
            &&& t.cdj_beat_in_bar == s.cdj_beat_in_bar
            &&& t.channels_on_air == s.channels_on_air
            &&& t.last_beat_in_bar == s.last_beat_in_bar
            &&& t.bar_counter == s.bar_counter
            &&& t.pending_play_flash == s.pending_play_flash
        }),
{
}

/// Without a tempo the times to come are those that the deck announces, on the
/// packets' clock, and unknown where it announces none.
pub proof fn law_announced_times_stand(s: BeatSourceState, beat: Beat, now: u64, clock: i64)
    requires
        s.beat_fits(beat, clock as int),
        beat.effective_tempo_bpm == 0,
    ensures
        ({
            let t = s.after_beat(beat, now, clock as int);
            &&& beat.next_beat_ms matches Some(ms) ==> t.cdj_next_beat_us - clock == ms * 1000
            &&& beat.next_beat_ms is None ==> t.cdj_next_beat_us == 0
            &&& beat.next_bar_ms matches Some(ms) ==> t.cdj_next_bar_us - clock == ms * 1000
            &&& beat.next_bar_ms is None ==> t.cdj_next_bar_us == 0
        }),
{
}

/// What a status report does. A deck starts when it plays and is the master that did
/// not, or when there is no master. It pauses when it is the master, played and no
/// longer does. Starting asks for a flash; pausing drops the lock and what is
/// pending; nothing else is touched.
pub proof fn law_status_starts_or_pauses(s: BeatSourceState, status: CdjStatus)
    ensures
        ({
            let t = s.after_status(status);
            let started = status.is_playing && (s.master_device == 0 || (status.device_number
                == s.master_device && !s.cdj_playing));
            let paused = !status.is_playing && s.master_device != 0 && status.device_number
                == s.master_device && s.cdj_playing;
            &&& s.transition(status) is PlayStarted <==> started
            &&& s.transition(status) is Paused <==> paused
            &&& started ==> t.cdj_playing && t.pending_play_flash
            &&& started && s.master_device == 0 ==> t.master_device == status.device_number
            &&& !(started && s.master_device == 0) ==> t.master_device == s.master_device
            &&& paused ==> !t.cdj_playing && !t.pending_play_flash && !t.have_smoothed_beat
            &&& paused ==> t.pending_beat_in_bar is None
            &&& !started && !paused ==> t.cdj_playing == s.cdj_playing && t.pending_play_flash
                == s.pending_play_flash
            &&& !paused ==> t.have_smoothed_beat == s.have_smoothed_beat && t.pending_beat_in_bar
                == s.pending_beat_in_bar
            &&& t.last_cdj_beat_time == s.last_cdj_beat_time
            &&& t.cdj_beat_in_bar == s.cdj_beat_in_bar
            &&& t.cdj_next_beat_us == s.cdj_next_beat_us
            &&& t.cdj_next_bar_us == s.cdj_next_bar_us
            &&& t.cdj_bpm == s.cdj_bpm
            &&& t.channels_on_air == s.channels_on_air
            &&& t.last_beat_in_bar == s.last_beat_in_bar
            &&& t.bar_counter == s.bar_counter
            &&& t.last_smoothed_beat_us == s.last_smoothed_beat_us
            &&& t.pending_beat_at_us == s.pending_beat_at_us
        }),
{
}

/// A deck taken to play is the timing authority while its last beat is less than two
/// seconds old, and given up once it is more than two seconds old; a clock that steps
/// back counts as no time. Giving it up drops the lock and the beat that waits, and
/// touches nothing else.
pub proof fn law_two_seconds_of_authority(s: BeatSourceState, now: u64)
    ensures
        s.active(now) <==> s.cdj_playing && now < s.last_cdj_beat_time + 2_000_000_000,
        s.timed_out(now) <==> s.cdj_playing && now > s.last_cdj_beat_time + 2_000_000_000,
        ({
            let t = s.after_timeout_check(now);
            let silent = s.cdj_playing && now > s.last_cdj_beat_time + 2_000_000_000;
            &&& t.cdj_playing == (s.cdj_playing && !silent)
            &&& t.have_smoothed_beat == (s.have_smoothed_beat && !silent)
            &&& silent ==> t.pending_beat_in_bar is None
            &&& !silent ==> t.pending_beat_in_bar == s.pending_beat_in_bar
            &&& t.last_cdj_beat_time == s.last_cdj_beat_time
            &&& t.cdj_beat_in_bar == s.cdj_beat_in_bar
            &&& t.cdj_next_beat_us == s.cdj_next_beat_us
            &&& t.cdj_next_bar_us == s.cdj_next_bar_us
            &&& t.cdj_bpm == s.cdj_bpm
            &&& t.master_device == s.master_device
            &&& t.channels_on_air == s.channels_on_air
            &&& t.last_beat_in_bar == s.last_beat_in_bar
            &&& t.bar_counter == s.bar_counter
            &&& t.last_smoothed_beat_us == s.last_smoothed_beat_us
            &&& t.pending_beat_at_us == s.pending_beat_at_us
            &&& t.pending_play_flash == s.pending_play_flash
        }),
{
}

/// A heard beat whose time has come is shown in its place, whatever was shown before,
/// and waits no longer. One whose time has not come goes on waiting. Here no predicted
/// beat is due, so the times to come stay as they are.
pub proof fn law_heard_beat_is_shown(s: BeatSourceState, clock: int)
    requires
        s.cdj_playing,
        s.cdj_bpm > 0,
        s.cdj_next_beat_us <= 0 || clock < s.cdj_next_beat_us,
    ensures
        ({
            let t = s.after_tick(clock);
            &&& t.cdj_next_beat_us == s.cdj_next_beat_us
            &&& t.cdj_next_bar_us == s.cdj_next_bar_us
            &&& s.pending_beat_in_bar is None ==> t.cdj_beat_in_bar == s.cdj_beat_in_bar
                && t.pending_beat_in_bar is None && !s.tick_advances(clock)
            &&& s.pending_beat_in_bar matches Some(place) ==> if clock >= s.pending_beat_at_us {
                &&& t.cdj_beat_in_bar == place
                &&& t.pending_beat_in_bar is None
                &&& s.tick_advances(clock)
            } else {
                &&& t.cdj_beat_in_bar == s.cdj_beat_in_bar
                &&& t.pending_beat_in_bar == Some(place)
                &&& !s.tick_advances(clock)
            }
        }),
{
}

/// Predicted beats are counted on: a tick by whose time `n` predicted beats have
/// passed, the eighth being the last that one tick shows, moves the next beat on by
/// `n` periods and the place in the bar on by `n` beats of four, from the place of a
/// heard beat whose time has come or else from the place shown. The next bar follows
/// from the place.
pub proof fn law_predicted_beats_are_counted_on(s: BeatSourceState, clock: int, n: int)
    requires
        s.cdj_playing,
        s.cdj_bpm > 0,
        s.tick_fits(clock),
        s.cdj_next_beat_us > 0,
        1 <= n <= 8,
        clock >= s.cdj_next_beat_us + (n - 1) * beat_period(s.cdj_bpm),
        n == 8 || clock < s.cdj_next_beat_us + n * beat_period(s.cdj_bpm),
    ensures
        ({
            let t = s.after_tick(clock);
            let period = beat_period(s.cdj_bpm);
            let heard = s.pending_beat_in_bar is Some && clock >= s.pending_beat_at_us;
            &&& s.tick_advances(clock)
            &&& t.cdj_next_beat_us == s.cdj_next_beat_us + n * period
            &&& t.cdj_next_bar_us - t.cdj_next_beat_us == (3 - t.cdj_beat_in_bar) * period
            &&& t.cdj_beat_in_bar < 4
            &&& heard ==> t.cdj_beat_in_bar == (s.pending_beat_in_bar->0 + n) % 4
            &&& !heard ==> t.cdj_beat_in_bar == (s.cdj_beat_in_bar + n) % 4
            &&& heard ==> t.pending_beat_in_bar is None
            &&& !heard ==> t.pending_beat_in_bar == s.pending_beat_in_bar
        }),
{
    let period = beat_period(s.cdj_bpm);
    let next = s.cdj_next_beat_us as int;
    let a = clock - next;
    lemma_period_bounds(s.cdj_bpm);
    assert(a >= 0) by (nonlinear_arith)
        requires
            a >= (n - 1) * period,
            n >= 1,
            period > 0,
    ;
    assert(a / period >= n - 1) by (nonlinear_arith)
        requires
            a >= (n - 1) * period,
            period > 0,
    ;
    if n < 8 {
        assert(a / period < n) by (nonlinear_arith)
            requires
                a < n * period,
                period > 0,
        ;
    }
    assert(s.due(clock) == n);
    let place = (s.with_pending_shown(clock).cdj_beat_in_bar + n) % 4;
    assert((n - 1) * period + beats_to_bar(place) * period - n * period == (3 - place) * period)
        by (nonlinear_arith)
        requires
            beats_to_bar(place) == 4 - place,
    ;
}

/// A tick shows beats only: the deck, its tempo, the lock, the channels, the bars and
/// a press of play are left alone, and without a playing deck of known tempo nothing
/// at all happens.
pub proof fn law_tick_only_shows_beats(s: BeatSourceState, clock: int)
    ensures
        ({
            let t = s.after_tick(clock);
            &&& t.last_cdj_beat_time == s.last_cdj_beat_time
            &&& t.cdj_bpm == s.cdj_bpm
            &&& t.cdj_playing == s.cdj_playing
            &&& t.master_device == s.master_device
            &&& t.channels_on_air == s.channels_on_air
            &&& t.last_beat_in_bar == s.last_beat_in_bar
            &&& t.bar_counter == s.bar_counter
            &&& t.last_smoothed_beat_us == s.last_smoothed_beat_us
            &&& t.have_smoothed_beat == s.have_smoothed_beat
            &&& t.pending_beat_at_us == s.pending_beat_at_us
            &&& t.pending_play_flash == s.pending_play_flash
            &&& !s.cdj_playing || s.cdj_bpm == 0 ==> t == s && !s.tick_advances(clock)
        }),
{
}

/// A beat heard on its own grid is shown as the deck counts it: it is put where it was
/// expected, and a tick between then and the next beat shows its place.
pub proof fn law_beat_on_time_is_shown(
    s: BeatSourceState,
    beat: Beat,
    now: u64,
    clock: i64,
    tick: int,
)
    requires
        s.beat_fits(beat, clock as int),
        beat.effective_tempo_bpm > 0,
        1 <= beat.beat_within_bar,
        s.have_smoothed_beat ==> clock == s.last_smoothed_beat_us + beat_period(
            beat.effective_tempo_bpm,
        ),
        clock <= tick < clock + beat_period(beat.effective_tempo_bpm),
    ensures
        s.after_beat(beat, now, clock as int).after_tick(tick).cdj_beat_in_bar + 1
            == beat.beat_within_bar,
{
    lemma_period_bounds(beat.effective_tempo_bpm);
    law_where_a_beat_is_put(s, beat, now, clock);
    law_beat_sets_the_times_to_come(s, beat, now, clock);
}

} // verus!
