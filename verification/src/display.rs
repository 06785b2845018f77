//! The status display: what it shows, and the battery reading behind it.

use vstd::prelude::*;
use crate::espnow::{Stats, MAX_UNICAST_PEERS};
use crate::line::{append, append_decimal, append_signed, start};

verus! {

/// Title in the header row.
pub const TITLE: &'static str = "Firefly DNG";

/// Voltage divider between the battery and the converter.
pub const VBAT_DIVIDER_NUM: i32 = 2;

pub const VBAT_DIVIDER_DEN: i32 = 1;

/// Voltages outside this window, in millivolts, mean that no divider is wired.
pub const VBAT_MIN_MV: i32 = 2500;

pub const VBAT_MAX_MV: i32 = 4400;

/// The percentage that stands for "no battery reading".
pub const NO_BATTERY: i8 = -1;

/// The highest battery voltage that a 16-bit converter reading leads to.
pub const VBAT_LIMIT_MV: i32 = 131_070;

/// The display is redrawn at least this often, in milliseconds.
pub const REFRESH_MS: u32 = 250;

/// A packet keeps the display live for this long, in milliseconds.
pub const LIVE_MS: u32 = 1000;

/// What the display thread is told.
#[derive(Debug, Clone, Copy, PartialEq, Eq, Structural)]
pub struct LiveState {
    /// BPM x 100.
    pub tempo_x100: u16,
    /// Place in the bar, from 0.
    pub beat_in_bar: u8,
    /// When the last packet with a deck's beat went out, in milliseconds since
    /// boot, 0 for never.
    pub last_fwd_ms: u32,
    /// Packets with a deck's beat that went out. The counter wraps around.
    pub fwd_count: u32,
    /// Redraw at once.
    pub kick: bool,
    /// Smoothed battery voltage in millivolts, 0 before the first reading.
    pub vbat_mv: i32,
    /// Battery charge in percent, or -1 without a reading that makes sense.
    pub vbat_percent: i8,
}

/// State of the Wi-Fi link.
#[derive(Debug, Clone, Copy, PartialEq, Eq, Structural)]
pub enum WifiLink {
    /// Signal strength in dB.
    Connected(i8),
    Connecting,
    Down,
}

/// The charge at `v` on the straight line between two points of the curve,
/// rounded down.
pub open spec fn on_line(v: int, lo_mv: int, lo_pc: int, hi_mv: int, hi_pc: int) -> int {
    lo_pc + (v - lo_mv) * (hi_pc - lo_pc) / (hi_mv - lo_mv)
}

/// The discharge curve of a lithium cell, piecewise linear; -1 outside the window
/// of voltages that such a cell can have.
pub open spec fn charge(v: int) -> int {
    if v < VBAT_MIN_MV || v > VBAT_MAX_MV {
        -1
    } else if v <= 3300 {
        0
    } else if v <= 3500 {
        on_line(v, 3300, 0, 3500, 5)
    } else if v <= 3600 {
        on_line(v, 3500, 5, 3600, 10)
    } else if v <= 3700 {
        on_line(v, 3600, 10, 3700, 25)
    } else if v <= 3800 {
        on_line(v, 3700, 25, 3800, 45)
    } else if v <= 3900 {
        on_line(v, 3800, 45, 3900, 65)
    } else if v <= 4000 {
        on_line(v, 3900, 65, 4000, 80)
    } else if v <= 4100 {
        on_line(v, 4000, 80, 4100, 90)
    } else if v < 4200 {
        on_line(v, 4100, 90, 4200, 100)
    } else {
        100
    }
}

/// The smoothed voltage after a reading of `bat` millivolts: the first reading as
/// it is, later ones with weight 1/8.
pub open spec fn smooth(prev: int, bat: int) -> int {
    if prev == 0 {
        bat
    } else {
        (prev * 7 + bat) / 8
    }
}

impl LiveState {
    /// The voltage is one that readings lead to.
    pub open spec fn wf(&self) -> bool {
        0 <= self.vbat_mv <= VBAT_LIMIT_MV
    }

    /// A packet with a deck's beat went out less than a second ago.
    pub open spec fn live(&self, now_ms: u32) -> bool {
        self.last_fwd_ms != 0 && (now_ms < self.last_fwd_ms || now_ms - self.last_fwd_ms < LIVE_MS)
    }

    /// The state after a converter reading of `adc_mv` millivolts.
    pub open spec fn after_sample(&self, adc_mv: u16) -> LiveState {
        let mv = smooth(self.vbat_mv as int, adc_mv * 2);
        LiveState { vbat_mv: mv as i32, vbat_percent: charge(mv) as i8, ..*self }
    }

    /// The state after a packet.
    pub open spec fn after_packet(
        &self,
        tempo_x100: u16,
        beat_in_bar: u8,
        cdj_active: bool,
        now_ms: u32,
    ) -> LiveState {
        LiveState {
            tempo_x100,
            beat_in_bar,
            last_fwd_ms: if cdj_active {
                now_ms
            } else {
                self.last_fwd_ms
            },
            fwd_count: if cdj_active {
                crate::espnow::counted(self.fwd_count)
            } else {
                self.fwd_count
            },
            kick: self.kick || beat_in_bar != self.beat_in_bar,
            ..*self
        }
    }

    /// Nothing shown yet, and no battery reading.
    pub fn new() -> (state: Self)
        ensures
            state.wf(),
            state == (LiveState {
                tempo_x100: 0,
                beat_in_bar: 0,
                last_fwd_ms: 0,
                fwd_count: 0,
                kick: false,
                vbat_mv: 0,
                vbat_percent: NO_BATTERY,
            }),
    {
        LiveState {
            tempo_x100: 0,
            beat_in_bar: 0,
            last_fwd_ms: 0,
            fwd_count: 0,
            kick: false,
            vbat_mv: 0,
            vbat_percent: NO_BATTERY,
        }
    }

    /// Whether a packet with a deck's beat went out less than a second ago.
    pub fn is_live(&self, now_ms: u32) -> (live: bool)
        ensures
            live == self.live(now_ms),
    {
        self.last_fwd_ms != 0 && now_ms.saturating_sub(self.last_fwd_ms) < LIVE_MS
    }

    /// Takes a converter reading of the battery into account.
    pub fn sample_battery(&mut self, adc_mv: u16)
        requires
            old(self).wf(),
        ensures
            final(self).wf(),
            *final(self) == old(self).after_sample(adc_mv),
    {
        let bat_mv: i32 = adc_mv as i32 * VBAT_DIVIDER_NUM / VBAT_DIVIDER_DEN;
        let smoothed: i32 = if self.vbat_mv == 0 {
            bat_mv
        } else {
            (self.vbat_mv * 7 + bat_mv) / 8
        };
        self.vbat_mv = smoothed;
        self.vbat_percent = lipo_percent(smoothed);
    }

    /// Takes a packet that went out at `now_ms` into account. A new place in the
    /// bar asks for a redraw.
    pub fn publish(&mut self, tempo_x100: u16, beat_in_bar: u8, cdj_active: bool, now_ms: u32)
        ensures
            *final(self) == old(self).after_packet(tempo_x100, beat_in_bar, cdj_active, now_ms),
    {
        self.tempo_x100 = tempo_x100;
        let prev_bib: u8 = self.beat_in_bar;
        self.beat_in_bar = beat_in_bar;
        if cdj_active {
            self.last_fwd_ms = now_ms;
            self.fwd_count = self.fwd_count.wrapping_add(1);
        }
        if beat_in_bar != prev_bib {
            self.kick = true;
        }
    }

    /// Whether to go on waiting before the next redraw, after `waited_ms` of it. A
    /// redraw that was asked for ends the wait, and is then answered for.
    pub fn keep_waiting(&mut self, waited_ms: u32) -> (wait: bool)
        ensures
            wait == (waited_ms < REFRESH_MS && !old(self).kick),
            wait <==> waited_ms < 250 && !old(self).kick,
            *final(self) == (LiveState {
                kick: old(self).kick && waited_ms >= REFRESH_MS,
                ..*old(self)
            }),
    {
        if waited_ms >= REFRESH_MS {
            return false;
        }
        let kicked: bool = self.kick;
        self.kick = false;
        !kicked
    }
}

impl Default for LiveState {
    fn default() -> (state: Self)
        ensures
            state == (LiveState {
                tempo_x100: 0,
                beat_in_bar: 0,
                last_fwd_ms: 0,
                fwd_count: 0,
                kick: false,
                vbat_mv: 0,
                vbat_percent: NO_BATTERY,
            }),
    {
        LiveState::new()
    }
}

/// The charge at `v` on the straight line between two points of the curve.
fn interpolate(v: i32, lo_mv: i32, lo_pc: i32, hi_mv: i32, hi_pc: i32) -> (percent: i8)
    requires
        0 <= lo_mv <= v <= hi_mv <= 10_000,
        lo_mv < hi_mv,
        0 <= lo_pc <= hi_pc <= 100,
    ensures
        percent == on_line(v as int, lo_mv as int, lo_pc as int, hi_mv as int, hi_pc as int),
        lo_pc <= percent <= hi_pc,
{
    let off_mv: i32 = v - lo_mv;
    let span_mv: i32 = hi_mv - lo_mv;
    let span_pc: i32 = hi_pc - lo_pc;
    assert(0 <= off_mv * span_pc <= 1_000_000 && 0 <= (off_mv * span_pc) / (span_mv as int)
        <= span_pc) by (nonlinear_arith)
        requires
            0 <= off_mv <= span_mv <= 10_000,
            0 < span_mv,
            0 <= span_pc <= 100,
    ;
    (lo_pc + off_mv * span_pc / span_mv) as i8
}

/// The charge of a lithium cell in percent, or -1 for a voltage that such a cell
/// cannot have.
pub fn lipo_percent(vbat_mv: i32) -> (percent: i8)
    ensures
        percent == charge(vbat_mv as int),
        -1 <= percent <= 100,
        percent == -1 <==> !(VBAT_MIN_MV <= vbat_mv <= VBAT_MAX_MV),
{
    if vbat_mv < VBAT_MIN_MV || vbat_mv > VBAT_MAX_MV {
        NO_BATTERY
    } else if vbat_mv >= 4200 {
        100
    } else if vbat_mv <= 3300 {
        0
    } else if vbat_mv <= 3500 {
        interpolate(vbat_mv, 3300, 0, 3500, 5)
    } else if vbat_mv <= 3600 {
        interpolate(vbat_mv, 3500, 5, 3600, 10)
    } else if vbat_mv <= 3700 {
        interpolate(vbat_mv, 3600, 10, 3700, 25)
    } else if vbat_mv <= 3800 {
        interpolate(vbat_mv, 3700, 25, 3800, 45)
    } else if vbat_mv <= 3900 {
        interpolate(vbat_mv, 3800, 45, 3900, 65)
    } else if vbat_mv <= 4000 {
        interpolate(vbat_mv, 3900, 65, 4000, 80)
    } else if vbat_mv <= 4100 {
        interpolate(vbat_mv, 4000, 80, 4100, 90)
    } else {
        interpolate(vbat_mv, 4100, 90, 4200, 100)
    }
}

/// A rising line rises, and stays between its ends.
proof fn lemma_line_rises(a: int, b: int, lo_mv: int, lo_pc: int, hi_mv: int, hi_pc: int)
    requires
        lo_mv < hi_mv,
        lo_pc <= hi_pc,
        a <= b,
    ensures
        lo_mv <= a <= hi_mv ==> lo_pc <= on_line(a, lo_mv, lo_pc, hi_mv, hi_pc) <= hi_pc,
        lo_mv <= b <= hi_mv ==> lo_pc <= on_line(b, lo_mv, lo_pc, hi_mv, hi_pc) <= hi_pc,
        on_line(a, lo_mv, lo_pc, hi_mv, hi_pc) <= on_line(b, lo_mv, lo_pc, hi_mv, hi_pc),
{
    let x = a - lo_mv;
    let y = b - lo_mv;
    let p = hi_pc - lo_pc;
    let m = hi_mv - lo_mv;
    assert(x * p / m <= y * p / m) by (nonlinear_arith)
        requires
            x <= y,
            0 <= p,
            0 < m,
    ;
    assert(0 <= x <= m ==> 0 <= x * p / m <= p) by (nonlinear_arith)
        requires
            0 <= p,
            0 < m,
    ;
    assert(0 <= y <= m ==> 0 <= y * p / m <= p) by (nonlinear_arith)
        requires
            0 <= p,
            0 < m,
    ;
}

/// A fuller cell never shows less: within the window, the charge does not fall as
/// the voltage rises.
pub proof fn law_charge_rises_with_voltage(a: int, b: int)
    requires
        VBAT_MIN_MV <= a <= b <= VBAT_MAX_MV,
    ensures
        0 <= charge(a) <= charge(b) <= 100,
{
    lemma_line_rises(a, b, 3300, 0, 3500, 5);
    lemma_line_rises(a, b, 3500, 5, 3600, 10);
    lemma_line_rises(a, b, 3600, 10, 3700, 25);
    lemma_line_rises(a, b, 3700, 25, 3800, 45);
    lemma_line_rises(a, b, 3800, 45, 3900, 65);
    lemma_line_rises(a, b, 3900, 65, 4000, 80);
    lemma_line_rises(a, b, 4000, 80, 4100, 90);
    lemma_line_rises(a, b, 4100, 90, 4200, 100);
}

/// The smoothed voltage lies between the old one and the new reading, so within
/// whatever bounds the readings keep.
pub proof fn law_smoothing_stays_between(s: LiveState, adc_mv: u16)
    requires
        s.wf(),
    ensures
        s.after_sample(adc_mv).wf(),
        s.vbat_mv == 0 ==> s.after_sample(adc_mv).vbat_mv == adc_mv * 2,
        s.vbat_mv != 0 && s.vbat_mv <= adc_mv * 2 ==> s.vbat_mv <= s.after_sample(adc_mv).vbat_mv
            <= adc_mv * 2,
        s.vbat_mv != 0 && s.vbat_mv >= adc_mv * 2 ==> adc_mv * 2 <= s.after_sample(adc_mv).vbat_mv
            <= s.vbat_mv,
{
}

/// State of the Wi-Fi link, from what the driver answers: its access point's
/// signal strength, "not connected", or anything else.
pub fn wifi_link_status(ok: bool, not_connected: bool, rssi: i8) -> (link: WifiLink)
    ensures
        link == (if ok {
            WifiLink::Connected(rssi)
        } else if not_connected {
            WifiLink::Connecting
        } else {
            WifiLink::Down
        }),
{
    if ok {
        WifiLink::Connected(rssi)
    } else if not_connected {
        WifiLink::Connecting
    } else {
        WifiLink::Down
    }
}

/// Characters that the tempo takes at most.
pub const TEMPO_WIDTH: usize = 8;

/// The rows below the header, from top to bottom.
pub struct Screen {
    pub tempo: heapless::String<32>,
    pub forward: heapless::String<32>,
    pub tx: heapless::String<32>,
    pub battery: heapless::String<32>,
    pub radio: heapless::String<32>,
}

/// The tempo row: tempo, whether packets are going out, and the beat of the bar,
/// from 1.
pub open spec fn tempo_text(tempo: Seq<char>, live: bool, beat_in_bar: u8) -> Seq<char> {
    "bpm: "@ + tempo + " "@ + (if live {
        "LIVE"@
    } else {
        "idle"@
    }) + " b"@ + crate::line::decimal((beat_in_bar + 1) as nat)
}

/// The forward row: packets with a deck's beat that went out.
pub open spec fn forward_text(fwd_count: u32) -> Seq<char> {
    "fwd: "@ + crate::line::decimal(fwd_count as nat)
}

/// The packet row: packets sent and failed.
pub open spec fn tx_text(stats: Stats) -> Seq<char> {
    "tx : "@ + crate::line::decimal(stats.tx_ok as nat) + "/"@ + crate::line::decimal(
        stats.tx_fail as nat,
    )
}

/// The radio row: channel, Wi-Fi link, known wristbands and hellos heard.
pub open spec fn radio_text(channel: u8, link: WifiLink, stats: Stats) -> Seq<char> {
    "ch:"@ + crate::line::decimal(channel as nat) + (match link {
        WifiLink::Connected(rssi) => " W:"@ + crate::line::signed_decimal(rssi as int) + "dB"@,
        WifiLink::Connecting => " W:.."@,
        WifiLink::Down => " W:NO"@,
    }) + " p:"@ + crate::line::decimal(stats.peer_count as nat) + " h:"@ + crate::line::decimal(
        stats.hellos_rx as nat,
    )
}

/// The battery row: charge and voltage, or dashes without a reading.
pub open spec fn battery_text(percent: i8, mv: i32) -> Seq<char> {
    if percent >= 0 {
        "bat: "@ + crate::line::decimal(percent as nat) + "% ("@ + crate::line::signed_decimal(
            mv as int,
        ) + " mV)"@
    } else {
        "bat: --"@
    }
}

fn tempo_row(tempo: &str, live: bool, beat_in_bar: u8) -> (line: heapless::String<32>)
    requires
        vstd::utf8::is_ascii_chars(tempo@),
        tempo@.len() <= TEMPO_WIDTH,
    ensures
        crate::line::text(line) == tempo_text(tempo@, live, beat_in_bar),
{
    proof {
        reveal_strlit("bpm: ");
        reveal_strlit(" ");
        reveal_strlit("LIVE");
        reveal_strlit("idle");
        reveal_strlit(" b");
        crate::line::lemma_decimal_lengths((beat_in_bar + 1) as nat);
    }
    let mut line = start();
    append(&mut line, "bpm: ");
    append(&mut line, tempo);
    append(&mut line, " ");
    if live {
        append(&mut line, "LIVE");
    } else {
        append(&mut line, "idle");
    }
    append(&mut line, " b");
    append_decimal(&mut line, beat_in_bar as u32 + 1);
    assert(crate::line::text(line) =~= tempo_text(tempo@, live, beat_in_bar));
    line
}

fn forward_row(fwd_count: u32) -> (line: heapless::String<32>)
    ensures
        crate::line::text(line) == forward_text(fwd_count),
{
    proof {
        reveal_strlit("fwd: ");
        crate::line::lemma_decimal_lengths(fwd_count as nat);
    }
    let mut line = start();
    append(&mut line, "fwd: ");
    append_decimal(&mut line, fwd_count);
    assert(crate::line::text(line) =~= forward_text(fwd_count));
    line
}

fn tx_row(stats: &Stats) -> (line: heapless::String<32>)
    ensures
        crate::line::text(line) == tx_text(*stats),
{
    proof {
        reveal_strlit("tx : ");
        reveal_strlit("/");
        crate::line::lemma_decimal_lengths(stats.tx_ok as nat);
        crate::line::lemma_decimal_lengths(stats.tx_fail as nat);
    }
    let mut line = start();
    append(&mut line, "tx : ");
    append_decimal(&mut line, stats.tx_ok);
    append(&mut line, "/");
    append_decimal(&mut line, stats.tx_fail);
    assert(crate::line::text(line) =~= tx_text(*stats));
    line
}

fn radio_row(channel: u8, link: WifiLink, stats: &Stats) -> (line: heapless::String<32>)
    requires
        stats.peer_count <= MAX_UNICAST_PEERS,
    ensures
        crate::line::text(line) == radio_text(channel, link, *stats),
{
    proof {
        reveal_strlit("ch:");
        reveal_strlit(" W:");
        reveal_strlit("dB");
        reveal_strlit(" W:..");
        reveal_strlit(" W:NO");
        reveal_strlit(" p:");
        reveal_strlit(" h:");
        crate::line::lemma_decimal_lengths(channel as nat);
        crate::line::lemma_decimal_lengths(stats.peer_count as nat);
        crate::line::lemma_decimal_lengths(stats.hellos_rx as nat);
    }
    let mut line = start();
    append(&mut line, "ch:");
    append_decimal(&mut line, channel as u32);
    match link {
        WifiLink::Connected(rssi) => {
            proof {
                let size: int = if rssi < 0 {
                    -(rssi as int)
                } else {
                    rssi as int
                };
                crate::line::lemma_decimal_lengths(size as nat);
            }
            append(&mut line, " W:");
            append_signed(&mut line, rssi as i32);
            append(&mut line, "dB");
        },
        WifiLink::Connecting => {
            append(&mut line, " W:..");
        },
        WifiLink::Down => {
            append(&mut line, " W:NO");
        },
    }
    append(&mut line, " p:");
    append_decimal(&mut line, stats.peer_count);
    append(&mut line, " h:");
    append_decimal(&mut line, stats.hellos_rx);
    assert(crate::line::text(line) =~= radio_text(channel, link, *stats));
    line
}

fn battery_row(percent: i8, mv: i32) -> (line: heapless::String<32>)
    ensures
        crate::line::text(line) == battery_text(percent, mv),
{
    let mut line = start();
    if percent >= 0 {
        proof {
            reveal_strlit("bat: ");
            reveal_strlit("% (");
            reveal_strlit(" mV)");
            let size: int = if mv < 0 {
                -(mv as int)
            } else {
                mv as int
            };
            crate::line::lemma_decimal_lengths(percent as nat);
            crate::line::lemma_decimal_lengths(size as nat);
        }
        append(&mut line, "bat: ");
        append_decimal(&mut line, percent as u32);
        append(&mut line, "% (");
        append_signed(&mut line, mv);
        append(&mut line, " mV)");
    } else {
        proof {
            reveal_strlit("bat: --");
        }
        append(&mut line, "bat: --");
    }
    assert(crate::line::text(line) =~= battery_text(percent, mv));
    line
}

/// What the display shows at `now_ms`. `tempo` is the tempo as text. Every row has
/// room for its whole text, whatever the numbers are, as long as no more wristbands
/// are known than there is room for.
pub fn redraw(
    state: &LiveState,
    stats: &Stats,
    now_ms: u32,
    tempo: &str,
    channel: u8,
    link: WifiLink,
) -> (screen: Screen)
    requires
        vstd::utf8::is_ascii_chars(tempo@),
        tempo@.len() <= TEMPO_WIDTH,
        stats.peer_count <= MAX_UNICAST_PEERS,
    ensures
        crate::line::text(screen.tempo) == tempo_text(
            tempo@,
            state.live(now_ms),
            state.beat_in_bar,
        ),
        crate::line::text(screen.forward) == forward_text(state.fwd_count),
        crate::line::text(screen.tx) == tx_text(*stats),
        crate::line::text(screen.battery) == battery_text(state.vbat_percent, state.vbat_mv),
        crate::line::text(screen.radio) == radio_text(channel, link, *stats),
{
    Screen {
        tempo: tempo_row(tempo, state.is_live(now_ms), state.beat_in_bar),
        forward: forward_row(state.fwd_count),
        tx: tx_row(stats),
        battery: battery_row(state.vbat_percent, state.vbat_mv),
        radio: radio_row(channel, link, stats),
    }
}

/// The discharge curve goes through its nine points in straight lines: between two of
/// them the charge is the percentage on the line, without its fraction. It is empty
/// below the first point and full above the last, and unknown outside the window.
pub proof fn law_charge_follows_the_curve(v: int, lo_mv: int, lo_pc: int, hi_mv: int, hi_pc: int)
    requires
        ({
            ||| lo_mv == 3300 && lo_pc == 0 && hi_mv == 3500 && hi_pc == 5
            ||| lo_mv == 3500 && lo_pc == 5 && hi_mv == 3600 && hi_pc == 10
            ||| lo_mv == 3600 && lo_pc == 10 && hi_mv == 3700 && hi_pc == 25
            ||| lo_mv == 3700 && lo_pc == 25 && hi_mv == 3800 && hi_pc == 45
            ||| lo_mv == 3800 && lo_pc == 45 && hi_mv == 3900 && hi_pc == 65
            ||| lo_mv == 3900 && lo_pc == 65 && hi_mv == 4000 && hi_pc == 80
            ||| lo_mv == 4000 && lo_pc == 80 && hi_mv == 4100 && hi_pc == 90
            ||| lo_mv == 4100 && lo_pc == 90 && hi_mv == 4200 && hi_pc == 100
        }),
    ensures
        lo_mv <= v <= hi_mv ==> (charge(v) - lo_pc) * (hi_mv - lo_mv) <= (v - lo_mv) * (hi_pc
            - lo_pc) < (charge(v) - lo_pc + 1) * (hi_mv - lo_mv),
        2500 <= v <= 3300 ==> charge(v) == 0,
        4200 <= v <= 4400 ==> charge(v) == 100,
        v < 2500 || v > 4400 ==> charge(v) == -1,
{
    lemma_between_points(v, lo_mv, lo_pc, hi_mv, hi_pc);
    lemma_between_points(v, 3300, 0, 3500, 5);
    lemma_between_points(v, 3500, 5, 3600, 10);
    lemma_between_points(v, 3600, 10, 3700, 25);
    lemma_between_points(v, 3700, 25, 3800, 45);
    lemma_between_points(v, 3800, 45, 3900, 65);
    lemma_between_points(v, 3900, 65, 4000, 80);
    lemma_between_points(v, 4000, 80, 4100, 90);
    lemma_between_points(v, 4100, 90, 4200, 100);
    if lo_mv <= v <= hi_mv {
        assert(charge(v) == on_line(v, lo_mv, lo_pc, hi_mv, hi_pc));
    }
}

/// A line goes through its two points, and between them its value is the percentage
/// without its fraction.
proof fn lemma_between_points(v: int, lo_mv: int, lo_pc: int, hi_mv: int, hi_pc: int)
    requires
        lo_mv < hi_mv,
    ensures
        v == lo_mv ==> on_line(v, lo_mv, lo_pc, hi_mv, hi_pc) == lo_pc,
        v == hi_mv ==> on_line(v, lo_mv, lo_pc, hi_mv, hi_pc) == hi_pc,
        ({
            let c = on_line(v, lo_mv, lo_pc, hi_mv, hi_pc);
            (c - lo_pc) * (hi_mv - lo_mv) <= (v - lo_mv) * (hi_pc - lo_pc) < (c - lo_pc + 1)
                * (hi_mv - lo_mv)
        }),
{
    let a = (v - lo_mv) * (hi_pc - lo_pc);
    let m = hi_mv - lo_mv;
    let q = a / m;
    assert(q * m <= a < (q + 1) * m) by (nonlinear_arith)
        requires
            m > 0,
            q == a / m,
    ;
    if v == lo_mv {
        assert(a == 0) by (nonlinear_arith)
            requires
                a == (v - lo_mv) * (hi_pc - lo_pc),
                v == lo_mv,
        ;
        assert(0int / m == 0) by (nonlinear_arith)
            requires
                m > 0,
        ;
    }
    if v == hi_mv {
        assert((m * (hi_pc - lo_pc)) / m == hi_pc - lo_pc) by (nonlinear_arith)
            requires
                m > 0,
        ;
    }
}

/// A battery reading: twice the converter's voltage stands as it is when it is the
/// first, and counts one part in eight against seven of the voltage so far when it is
/// not. The charge is that of the smoothed voltage. Nothing else is touched.
pub proof fn law_battery_reading(s: LiveState, adc_mv: u16)
    requires
        s.wf(),
    ensures
        ({
            let t = s.after_sample(adc_mv);
            &&& s.vbat_mv == 0 ==> t.vbat_mv == 2 * adc_mv
            &&& s.vbat_mv != 0 ==> 8 * t.vbat_mv <= 7 * s.vbat_mv + 2 * adc_mv < 8 * t.vbat_mv + 8
            &&& t.vbat_percent == charge(t.vbat_mv as int)
            &&& t.tempo_x100 == s.tempo_x100
            &&& t.beat_in_bar == s.beat_in_bar
            &&& t.last_fwd_ms == s.last_fwd_ms
            &&& t.fwd_count == s.fwd_count
            &&& t.kick == s.kick
        }),
{
    let mv = smooth(s.vbat_mv as int, adc_mv * 2);
    if VBAT_MIN_MV <= mv <= VBAT_MAX_MV {
        law_charge_rises_with_voltage(mv, mv);
    }
}

/// A packet that goes out is shown: its tempo and place in the bar, and, when it is a
/// deck's, its time and one more in the count. A new place asks for a redraw, and a
/// redraw that was asked for stays so. The battery is left alone.
pub proof fn law_packet_is_shown(
    s: LiveState,
    tempo_x100: u16,
    beat_in_bar: u8,
    cdj_active: bool,
    now_ms: u32,
)
    ensures
        ({
            let t = s.after_packet(tempo_x100, beat_in_bar, cdj_active, now_ms);
            &&& t.tempo_x100 == tempo_x100
            &&& t.beat_in_bar == beat_in_bar
            &&& t.kick <==> s.kick || beat_in_bar != s.beat_in_bar
            &&& cdj_active ==> t.last_fwd_ms == now_ms
            &&& cdj_active && s.fwd_count < u32::MAX ==> t.fwd_count == s.fwd_count + 1
            &&& cdj_active && s.fwd_count == u32::MAX ==> t.fwd_count == 0
            &&& !cdj_active ==> t.last_fwd_ms == s.last_fwd_ms && t.fwd_count == s.fwd_count
            &&& t.vbat_mv == s.vbat_mv
            &&& t.vbat_percent == s.vbat_percent
        }),
{
}

/// The display is live for one second after each packet of a deck, and never before
/// the first.
pub proof fn law_live_for_a_second(s: LiveState, now_ms: u32)
    ensures
        s.live(now_ms) <==> s.last_fwd_ms != 0 && now_ms < s.last_fwd_ms + 1000,
{
}

/// The tempo row, piece by piece: the tempo stands behind its label, then whether the
/// display is live, then the beat of the bar, counted from 1.
pub proof fn law_tempo_row(tempo: Seq<char>, live: bool, beat_in_bar: u8)
    ensures
        ({
            let t = tempo_text(tempo, live, beat_in_bar);
            let n = tempo.len() as int;
            &&& t.take(5) == seq!['b', 'p', 'm', ':', ' ']
            &&& t.subrange(5, 5 + n) == tempo
            &&& live ==> t.subrange(5 + n, 12 + n) == seq![' ', 'L', 'I', 'V', 'E', ' ', 'b']
            &&& !live ==> t.subrange(5 + n, 12 + n) == seq![' ', 'i', 'd', 'l', 'e', ' ', 'b']
            &&& crate::line::number_of(t.skip(12 + n)) == beat_in_bar + 1
        }),
{
    reveal_strlit("bpm: ");
    reveal_strlit(" ");
    reveal_strlit("LIVE");
    reveal_strlit("idle");
    reveal_strlit(" b");
    crate::line::law_decimal_reads_back((beat_in_bar + 1) as nat);
    let t = tempo_text(tempo, live, beat_in_bar);
    let n = tempo.len() as int;
    assert(t.subrange(5, 5 + n) =~= tempo);
    assert(t.skip(12 + n) =~= crate::line::decimal((beat_in_bar + 1) as nat));
}

/// The forward and packet rows, piece by piece: the counts stand behind their labels,
/// what went out before what failed.
pub proof fn law_count_rows(fwd_count: u32, stats: Stats, n: int)
    requires
        n == crate::line::decimal(stats.tx_ok as nat).len(),
    ensures
        forward_text(fwd_count).take(5) == seq!['f', 'w', 'd', ':', ' '],
        crate::line::number_of(forward_text(fwd_count).skip(5)) == fwd_count,
        tx_text(stats).take(5) == seq!['t', 'x', ' ', ':', ' '],
        crate::line::number_of(tx_text(stats).subrange(5, 5 + n)) == stats.tx_ok,
        tx_text(stats)[5 + n] == '/',
        crate::line::number_of(tx_text(stats).skip(6 + n)) == stats.tx_fail,
{
    reveal_strlit("fwd: ");
    reveal_strlit("tx : ");
    reveal_strlit("/");
    crate::line::law_decimal_reads_back(fwd_count as nat);
    crate::line::law_decimal_reads_back(stats.tx_ok as nat);
    crate::line::law_decimal_reads_back(stats.tx_fail as nat);
    assert(forward_text(fwd_count).skip(5) =~= crate::line::decimal(fwd_count as nat));
    assert(tx_text(stats).subrange(5, 5 + n) =~= crate::line::decimal(stats.tx_ok as nat));
    assert(tx_text(stats).skip(6 + n) =~= crate::line::decimal(stats.tx_fail as nat));
}

/// The radio row, piece by piece: channel, state of the link with the signal strength
/// when it is up, wristbands known and hellos heard. `c`, `w` and `p` are the lengths
/// of the first three.
pub proof fn law_radio_row(channel: u8, link: WifiLink, stats: Stats, c: int, w: int, p: int)
    requires
        c == crate::line::decimal(channel as nat).len(),
        link matches WifiLink::Connected(rssi) ==> w == crate::line::signed_decimal(
            rssi as int,
        ).len() + 2,
        link !is Connected ==> w == 2,
        p == crate::line::decimal(stats.peer_count as nat).len(),
    ensures
        ({
            let t = radio_text(channel, link, stats);
            &&& t.take(3) == seq!['c', 'h', ':']
            &&& crate::line::number_of(t.subrange(3, 3 + c)) == channel
            &&& t.subrange(3 + c, 6 + c) == seq![' ', 'W', ':']
            &&& link matches WifiLink::Connected(rssi) ==> {
                &&& t.subrange(6 + c, 4 + c + w) == crate::line::signed_decimal(rssi as int)
                &&& t.subrange(4 + c + w, 6 + c + w) == seq!['d', 'B']
            }
            &&& link is Connecting ==> t.subrange(6 + c, 6 + c + w) == seq!['.', '.']
            &&& link is Down ==> t.subrange(6 + c, 6 + c + w) == seq!['N', 'O']
            &&& t.subrange(6 + c + w, 9 + c + w) == seq![' ', 'p', ':']
            &&& crate::line::number_of(t.subrange(9 + c + w, 9 + c + w + p)) == stats.peer_count
            &&& t.subrange(9 + c + w + p, 12 + c + w + p) == seq![' ', 'h', ':']
            &&& crate::line::number_of(t.skip(12 + c + w + p)) == stats.hellos_rx
        }),
{
    reveal_strlit("ch:");
    reveal_strlit(" W:");
    reveal_strlit("dB");
    reveal_strlit(" W:..");
    reveal_strlit(" W:NO");
    reveal_strlit(" p:");
    reveal_strlit(" h:");
    crate::line::law_decimal_reads_back(channel as nat);
    crate::line::law_decimal_reads_back(stats.peer_count as nat);
    crate::line::law_decimal_reads_back(stats.hellos_rx as nat);
    let t = radio_text(channel, link, stats);
    assert(t.subrange(3, 3 + c) =~= crate::line::decimal(channel as nat));
    assert(t.subrange(9 + c + w, 9 + c + w + p) =~= crate::line::decimal(stats.peer_count as nat));
    assert(t.skip(12 + c + w + p) =~= crate::line::decimal(stats.hellos_rx as nat));
}

/// The battery row, piece by piece: charge and voltage behind their labels, or dashes
/// without a charge. `n` and `m` are the lengths of the two numbers.
pub proof fn law_battery_row(percent: i8, mv: i32, n: int, m: int)
    requires
        percent >= 0 ==> n == crate::line::decimal(percent as nat).len(),
        m == crate::line::signed_decimal(mv as int).len(),
    ensures
        ({
            let t = battery_text(percent, mv);
            &&& t.take(5) == seq!['b', 'a', 't', ':', ' ']
            &&& percent < 0 ==> t.skip(5) == seq!['-', '-']
            &&& percent >= 0 ==> {
                &&& crate::line::number_of(t.subrange(5, 5 + n)) == percent
                &&& t.subrange(5 + n, 8 + n) == seq!['%', ' ', '(']
                &&& t.subrange(8 + n, 8 + n + m) == crate::line::signed_decimal(mv as int)
                &&& t.skip(8 + n + m) == seq![' ', 'm', 'V', ')']
            }
        }),
{
    reveal_strlit("bat: ");
    reveal_strlit("% (");
    reveal_strlit(" mV)");
    reveal_strlit("bat: --");
    if percent >= 0 {
        crate::line::law_decimal_reads_back(percent as nat);
        assert(battery_text(percent, mv).subrange(5, 5 + n) =~= crate::line::decimal(
            percent as nat,
        ));
    }
}

} // verus!
