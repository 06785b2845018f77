//! The status display.

use firefly::display::{
    lipo_percent, redraw, wifi_link_status, LiveState, WifiLink, NO_BATTERY, REFRESH_MS, TITLE,
};
use firefly::espnow::Stats;

#[test]
fn charge_at_the_points_of_the_curve() {
    let curve = [
        (3300, 0),
        (3500, 5),
        (3600, 10),
        (3700, 25),
        (3800, 45),
        (3900, 65),
        (4000, 80),
        (4100, 90),
        (4200, 100),
    ];
    for (mv, percent) in curve {
        assert_eq!(lipo_percent(mv), percent);
    }
}

#[test]
fn charge_between_the_points() {
    assert_eq!(lipo_percent(3400), 2);
    assert_eq!(lipo_percent(3339), 0);
    assert_eq!(lipo_percent(3340), 1);
    assert_eq!(lipo_percent(3650), 17);
    assert_eq!(lipo_percent(3750), 35);
    assert_eq!(lipo_percent(4199), 99);
}

#[test]
fn charge_outside_the_curve() {
    assert_eq!(lipo_percent(2500), 0);
    assert_eq!(lipo_percent(2499), NO_BATTERY);
    assert_eq!(lipo_percent(4400), 100);
    assert_eq!(lipo_percent(4401), NO_BATTERY);
    assert_eq!(lipo_percent(0), NO_BATTERY);
    assert_eq!(lipo_percent(i32::MIN), NO_BATTERY);
    assert_eq!(lipo_percent(i32::MAX), NO_BATTERY);
}

#[test]
fn charge_rises_with_voltage() {
    for mv in 2500..4400 {
        assert!(lipo_percent(mv) <= lipo_percent(mv + 1));
    }
}

#[test]
fn battery_readings_are_smoothed() {
    let mut state = LiveState::default();
    assert_eq!(state.vbat_percent, -1);
    state.sample_battery(1900);
    assert_eq!(state.vbat_mv, 3800);
    assert_eq!(state.vbat_percent, 45);
    state.sample_battery(2000);
    assert_eq!(state.vbat_mv, 3825);
    assert_eq!(state.vbat_percent, 50);
    for _ in 0..100 {
        let before = state.vbat_mv;
        state.sample_battery(0);
        assert!(0 <= state.vbat_mv && state.vbat_mv <= before);
    }
    assert_eq!(state.vbat_percent, NO_BATTERY);
    state.vbat_mv = 0;
    state.sample_battery(u16::MAX);
    assert_eq!(state.vbat_mv, 131_070);
}

#[test]
fn a_packet_keeps_the_display_live_for_a_second() {
    let mut state = LiveState::new();
    assert!(!state.is_live(0));
    state.publish(12_000, 0, false, 500);
    assert!(!state.is_live(500));
    state.publish(12_000, 0, true, 500);
    assert!(state.is_live(500));
    assert!(state.is_live(1_499));
    assert!(!state.is_live(1_500));
    assert!(state.is_live(400));
}

#[test]
fn packets_of_a_deck_are_counted() {
    let mut state = LiveState::new();
    state.publish(12_000, 0, true, 1);
    state.publish(12_000, 0, false, 2);
    state.publish(12_000, 0, true, 3);
    assert_eq!(state.fwd_count, 2);
    state.fwd_count = u32::MAX;
    state.publish(12_000, 0, true, 4);
    assert_eq!(state.fwd_count, 0);
}

#[test]
fn a_new_place_in_the_bar_asks_for_a_redraw() {
    let mut state = LiveState::new();
    state.publish(12_000, 0, true, 1);
    assert!(!state.kick);
    state.publish(12_100, 1, true, 2);
    assert!(state.kick);
    assert_eq!(state.tempo_x100, 12_100);
    assert_eq!(state.beat_in_bar, 1);
    state.publish(12_100, 1, true, 3);
    assert!(state.kick);
}

#[test]
fn waiting_ends_with_a_kick_or_after_a_quarter_second() {
    let mut state = LiveState::new();
    assert!(state.keep_waiting(0));
    assert!(state.keep_waiting(REFRESH_MS - 10));
    assert!(!state.keep_waiting(REFRESH_MS));
    state.kick = true;
    assert!(!state.keep_waiting(0));
    assert!(!state.kick);
    assert!(state.keep_waiting(0));
    // A kick that comes too late is kept for the next wait.
    state.kick = true;
    assert!(!state.keep_waiting(REFRESH_MS));
    assert!(state.kick);
}

#[test]
fn link_states() {
    assert_eq!(wifi_link_status(true, false, -60), WifiLink::Connected(-60));
    assert_eq!(wifi_link_status(false, true, 0), WifiLink::Connecting);
    assert_eq!(wifi_link_status(false, false, 0), WifiLink::Down);
}

#[test]
fn rows_of_the_display() {
    let mut state = LiveState::new();
    state.sample_battery(1900);
    state.publish(12_630, 2, true, 1_000);
    let stats = Stats { tx_ok: 1234, tx_fail: 5, hellos_rx: 9, peer_count: 3 };
    let screen = redraw(&state, &stats, 1_500, "126.3", 11, WifiLink::Connected(-58));
    assert_eq!(TITLE, "Firefly DNG");
    assert_eq!(screen.tempo.as_str(), "bpm: 126.3 LIVE b3");
    assert_eq!(screen.forward.as_str(), "fwd: 1");
    assert_eq!(screen.tx.as_str(), "tx : 1234/5");
    assert_eq!(screen.radio.as_str(), "ch:11 W:-58dB p:3 h:9");
    assert_eq!(screen.battery.as_str(), "bat: 45% (3800 mV)");
}

#[test]
fn rows_without_battery_deck_or_network() {
    let state = LiveState::new();
    let stats = Stats::new();
    let screen = redraw(&state, &stats, 0, "  0.0", 0, WifiLink::Connecting);
    assert_eq!(screen.tempo.as_str(), "bpm:   0.0 idle b1");
    assert_eq!(screen.tx.as_str(), "tx : 0/0");
    assert_eq!(screen.radio.as_str(), "ch:0 W:.. p:0 h:0");
    assert_eq!(screen.battery.as_str(), "bat: --");
    let screen = redraw(&state, &stats, 0, "  0.0", 6, WifiLink::Down);
    assert_eq!(screen.radio.as_str(), "ch:6 W:NO p:0 h:0");
}

#[test]
fn the_longest_rows_fit() {
    let state = LiveState {
        tempo_x100: u16::MAX,
        beat_in_bar: 255,
        last_fwd_ms: 1,
        fwd_count: u32::MAX,
        kick: false,
        vbat_mv: i32::MIN,
        vbat_percent: i8::MAX,
    };
    let stats = Stats { tx_ok: u32::MAX, tx_fail: u32::MAX, hellos_rx: u32::MAX, peer_count: 8 };
    let screen = redraw(&state, &stats, 1, "12345678", 255, WifiLink::Connected(-128));
    assert_eq!(screen.tempo.as_str(), "bpm: 12345678 LIVE b256");
    assert_eq!(screen.tx.as_str(), "tx : 4294967295/4294967295");
    assert_eq!(screen.radio.as_str(), "ch:255 W:-128dB p:8 h:4294967295");
    assert_eq!(screen.radio.len(), 32);
    assert_eq!(screen.forward.as_str(), "fwd: 4294967295");
    assert_eq!(screen.battery.as_str(), "bat: 127% (-2147483648 mV)");
}
