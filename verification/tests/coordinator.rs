//! The host coordinator, alone and together with dongle and wristband.

use std::collections::HashMap;

use firefly::beat_state::{Beat, CDJ_TIMEOUT};
use firefly::coordinator::{interval_us, BeatSourceState, LinkReading, LinkUpdate};
use firefly::dongle::DongleSim;
use firefly::frame::{count_bar, flags_of, NO_BEAT_YET};
use firefly::on_air::on_air_to_mask;
use firefly::protocol::{build_packet, read_packet, FLAG_CDJ_ACTIVE, FLAG_PLAYING, PACKET_SIZE};
use firefly::wristband::WristbandSim;

/// A minute into the process, in nanoseconds.
const NOW: u64 = 60_000_000_000;

fn secs(n: u64) -> u64 {
    n * 1_000_000_000
}

fn millis(n: u64) -> u64 {
    n * 1_000_000
}

fn make_test_beat(device: u8, bpm: f64, beat_within_bar: u8) -> Beat {
    Beat {
        device_number: device,
        beat_within_bar,
        effective_tempo_bpm: (bpm * 100.0) as u16,
        next_beat_ms: Some(500),
        next_bar_ms: Some(2000),
    }
}

/// The tempo in BPM.
fn bpm(state: &BeatSourceState) -> f64 {
    state.cdj_bpm as f64 / 100.0
}

#[test]
fn on_air_mask_channels() {
    let mut channels = HashMap::new();
    channels.insert(1, true);
    channels.insert(2, false);
    channels.insert(3, true);
    channels.insert(4, false);
    assert_eq!(on_air_to_mask(&channels), 0b0000_0101); // ch1 + ch3
}

#[test]
fn on_air_mask_empty() {
    let channels = HashMap::new();
    assert_eq!(on_air_to_mask(&channels), 0);
}

#[test]
fn on_air_mask_all_channels() {
    let mut channels = HashMap::new();
    for ch in 1..=4 {
        channels.insert(ch, true);
    }
    assert_eq!(on_air_to_mask(&channels), 0b0000_1111);
}

#[test]
fn on_air_mask_has_a_bit_for_each_of_eight_channels() {
    for ch in 0..=255u8 {
        let mut channels = HashMap::new();
        channels.insert(ch, true);
        let expected: u8 = if (1..=8).contains(&ch) { 1 << (ch - 1) } else { 0 };
        assert_eq!(on_air_to_mask(&channels), expected);
        channels.insert(ch, false);
        assert_eq!(on_air_to_mask(&channels), 0);
    }
}

#[test]
fn process_master_beat_updates_all_fields() {
    let mut state = BeatSourceState::new(NOW);
    let beat = make_test_beat(2, 128.0, 3);
    let now = NOW;
    let link_clock_us: i64 = 1_000_000;

    state.process_master_beat(&beat, now, link_clock_us);

    assert_eq!(state.last_cdj_beat_time, now);
    assert!((bpm(&state) - 128.0).abs() < 0.01);
    assert_eq!(state.cdj_beat_in_bar, 2); // 3 (1-based) → 2 (0-based)
    assert!(state.cdj_playing);
    assert_eq!(state.master_device, 2);
    // next_beat=500ms → link_clock + 500*1000 = 1_500_000
    assert_eq!(state.cdj_next_beat_us, 1_500_000);
    // next_bar=2000ms → link_clock + 2000*1000 = 3_000_000
    assert_eq!(state.cdj_next_bar_us, 3_000_000);
}

#[test]
fn unannounced_beats_are_unknown() {
    let mut state = BeatSourceState::new(NOW);
    let beat = Beat { next_beat_ms: None, next_bar_ms: None, ..make_test_beat(2, 128.0, 0) };
    state.process_master_beat(&beat, NOW, 1_000_000);
    assert_eq!(state.cdj_beat_in_bar, 0);
    assert_eq!(state.cdj_next_beat_us, 0);
    assert_eq!(state.cdj_next_bar_us, 0);
}

#[test]
fn check_cdj_timeout_transitions_after_2s() {
    let mut state = BeatSourceState::new(NOW);
    let past = NOW - secs(3);
    state.cdj_playing = true;
    state.last_cdj_beat_time = past;

    assert!(state.check_cdj_timeout(NOW));
    assert!(!state.cdj_playing);
}

#[test]
fn check_cdj_timeout_no_transition_before_2s() {
    let mut state = BeatSourceState::new(NOW);
    state.cdj_playing = true;
    state.last_cdj_beat_time = NOW;

    assert!(!state.check_cdj_timeout(NOW));
    assert!(state.cdj_playing);
}

#[test]
fn is_cdj_active_reflects_timeout() {
    let mut state = BeatSourceState::new(NOW);
    let now = NOW;

    // Not playing → not active
    assert!(!state.is_cdj_active(now));

    // Playing with recent beat → active
    state.cdj_playing = true;
    state.last_cdj_beat_time = now;
    assert!(state.is_cdj_active(now));

    // Playing but beat too old → not active
    state.last_cdj_beat_time = now - secs(3);
    assert!(!state.is_cdj_active(now));
}

#[test]
fn exactly_at_the_timeout_the_deck_is_neither_active_nor_given_up() {
    let mut state = BeatSourceState::new(NOW);
    state.process_master_beat(&make_test_beat(1, 120.0, 1), NOW, 0);
    assert!(state.is_cdj_active(NOW + CDJ_TIMEOUT - 1));
    assert!(!state.is_cdj_active(NOW + CDJ_TIMEOUT));
    assert!(!state.check_cdj_timeout(NOW + CDJ_TIMEOUT));
    assert!(state.check_cdj_timeout(NOW + CDJ_TIMEOUT + 1));
    assert!(!state.check_cdj_timeout(NOW + CDJ_TIMEOUT + 1));
}

#[test]
fn on_air_mask_via_state() {
    let mut state = BeatSourceState::new(NOW);
    let mut channels = HashMap::new();
    channels.insert(1, true);
    channels.insert(2, false);
    channels.insert(4, true);
    state.update_on_air(channels);

    assert_eq!(state.on_air_mask(), 0b0000_1001); // ch1 + ch4
}

#[test]
fn only_the_master_is_followed() {
    let mut state = BeatSourceState::new(NOW);
    let beat = make_test_beat(2, 128.0, 3);
    let nothing = LinkUpdate { set_tempo: false, set_playing: None };
    assert_eq!(state.handle_beat(&beat, None, NOW, 0, true, false), nothing);
    assert_eq!(state.handle_beat(&beat, Some(3), NOW, 0, true, false), nothing);
    assert!(!state.cdj_playing);
    assert_eq!(state.master_device, 0);

    let told = state.handle_beat(&beat, Some(2), NOW, 0, true, false);
    assert_eq!(told, LinkUpdate { set_tempo: true, set_playing: Some(true) });
    assert_eq!(state.master_device, 2);
    let told = state.handle_beat(&beat, Some(2), NOW, 0, false, true);
    assert_eq!(told, nothing);
}

#[test]
fn timeout_stops_the_link_session() {
    let mut state = BeatSourceState::new(NOW);
    state.process_master_beat(&make_test_beat(1, 120.0, 1), NOW, 0);
    let nothing = LinkUpdate { set_tempo: false, set_playing: None };
    assert_eq!(state.handle_timeout(NOW + secs(2)), nothing);
    let told = state.handle_timeout(NOW + secs(3));
    assert_eq!(told, LinkUpdate { set_tempo: false, set_playing: Some(false) });
    assert_eq!(state.handle_timeout(NOW + secs(4)), nothing);
}

#[test]
fn packets_follow_the_deck_and_fall_back_to_link() {
    let link = LinkReading {
        tempo_x100: 10_050,
        beat_in_bar: 1,
        next_downbeat_us: 77,
        next_beat_us: 66,
        is_playing: true,
    };
    let mut state = BeatSourceState::new(NOW);
    state.process_master_beat(&make_test_beat(3, 128.0, 4), NOW, 10_000_000);

    let deck = read_packet(&state.next_packet(NOW + millis(50), 10_050_000, &link));
    assert_eq!(deck.send_time_us, 10_050_000);
    assert_eq!(deck.tempo_bpm_x100, 12_800);
    assert_eq!(deck.beat_in_bar, 3);
    assert_eq!(deck.next_beat_us, 10_500_000);
    assert_eq!(deck.next_downbeat_us, 12_000_000);
    assert_eq!(deck.flags, FLAG_PLAYING | FLAG_CDJ_ACTIVE);
    assert_eq!(deck.master_device, 3);

    let fallback = read_packet(&state.next_packet(NOW + secs(2), 12_000_000, &link));
    assert_eq!(fallback.tempo_bpm_x100, 10_050);
    assert_eq!(fallback.beat_in_bar, 1);
    assert_eq!(fallback.next_beat_us, 66);
    assert_eq!(fallback.next_downbeat_us, 77);
    assert_eq!(fallback.flags, FLAG_PLAYING);
    assert_eq!(fallback.master_device, 0);

    let stopped = LinkReading { is_playing: false, ..link };
    let idle = read_packet(&state.next_packet(NOW + secs(2), 12_000_000, &stopped));
    assert_eq!(idle.flags, 0);
}

#[test]
fn bars_are_counted_on_the_packets() {
    let mut state = BeatSourceState::new(NOW);
    let mut link = LinkReading {
        tempo_x100: 12_000,
        beat_in_bar: 0,
        next_downbeat_us: 0,
        next_beat_us: 0,
        is_playing: true,
    };
    let mut bars = Vec::new();
    for beat in [0, 0, 1, 2, 3, 0, 0, 1, 2, 3, 0] {
        link.beat_in_bar = beat;
        let _ = state.next_packet(NOW, 0, &link);
        bars.push(state.bar_counter);
    }
    assert_eq!(bars, vec![0, 0, 0, 0, 0, 1, 1, 1, 1, 1, 2]);
}

#[test]
fn bar_counter_wraps() {
    assert_eq!(count_bar(255, 3, 0), 0);
    assert_eq!(count_bar(7, NO_BEAT_YET, 0), 7);
    assert_eq!(count_bar(7, 0, 0), 7);
    assert_eq!(count_bar(7, 3, 1), 7);
}

#[test]
fn flags_are_bits_0_and_1() {
    assert_eq!(flags_of(false, false), 0b00);
    assert_eq!(flags_of(true, false), 0b01);
    assert_eq!(flags_of(false, true), 0b10);
    assert_eq!(flags_of(true, true), 0b11);
}

#[test]
fn packet_interval() {
    assert_eq!(interval_us(20), 50_000);
    assert_eq!(interval_us(3), 333_333);
    assert_eq!(interval_us(2_000_000), 0);
}

// The full way: beat → state → packet → dongle → wristband.

/// Processes a beat all the way, and returns the wristband after the packet.
fn pipeline(
    beat: &Beat,
    on_air: Option<HashMap<u8, bool>>,
) -> (BeatSourceState, [u8; PACKET_SIZE], WristbandSim) {
    let mut state = BeatSourceState::new(NOW);
    let now = NOW;
    let link_clock_us: i64 = 10_000_000; // 10s into the session

    state.process_master_beat(beat, now, link_clock_us);
    if let Some(channels) = on_air {
        state.update_on_air(channels);
    }

    let cdj_active = state.is_cdj_active(now);
    let mut flags: u8 = 0;
    if cdj_active {
        flags |= FLAG_PLAYING | FLAG_CDJ_ACTIVE;
    }

    let packet = build_packet(
        link_clock_us,
        state.cdj_next_bar_us,
        state.cdj_bpm,
        state.cdj_beat_in_bar,
        flags,
        state.cdj_next_beat_us,
        state.on_air_mask(),
        if cdj_active { state.master_device } else { 0 },
    );

    // Dongle: validate framing + CRC
    let mut dongle = DongleSim::new();
    let forwarded = dongle.feed_bytes(&packet);
    assert_eq!(forwarded.len(), 1, "dongle must forward the packet");
    assert_eq!(dongle.crc_errors, 0, "coordinator CRC must match firmware CRC");
    assert_eq!(dongle.version_errors, 0);

    // Wristband: parse + clock offset
    let mut wristband = WristbandSim::new();
    // The wristband's clock is 5 ms behind
    let wb_local_now = link_clock_us - 5_000;
    wristband.receive_packet(&forwarded[0], wb_local_now);

    (state, packet, wristband)
}

#[test]
fn e2e_cdj_beat_flows_to_wristband() {
    let beat = make_test_beat(1, 126.3, 1); // CDJ-3000 P1 at 126.3 BPM, beat 1
    let (state, _pkt, wb) = pipeline(&beat, None);

    // Coordinator state
    assert!(state.cdj_playing);
    assert_eq!(state.master_device, 1);
    assert!((bpm(&state) - 126.3).abs() < 0.01);

    // Wristband received the packet
    assert_eq!(wb.packets_received, 1);
    assert!(wb.is_playing());
    assert!(wb.is_cdj_active());
    assert_eq!(wb.master_device, 1);
    assert_eq!(wb.tempo_x100, 12630);
    assert_eq!(wb.beat_in_bar, 0); // 1 (1-based) → 0 (0-based)
}

#[test]
fn e2e_downbeat_detection() {
    // beat_within_bar=1 is the downbeat (1-based from CDJ)
    let beat = make_test_beat(2, 128.0, 1);
    let (_state, _pkt, wb) = pipeline(&beat, None);

    assert_eq!(wb.beat_in_bar, 0); // 0-based downbeat
    assert!(wb.is_next_downbeat());
}

#[test]
fn e2e_non_downbeat() {
    let beat = make_test_beat(2, 128.0, 3);
    let (_state, _pkt, wb) = pipeline(&beat, None);

    assert_eq!(wb.beat_in_bar, 2); // 3 (1-based) → 2 (0-based)
    // beat_in_bar != 0 and next_beat_us != next_downbeat_us
    assert!(!wb.is_next_downbeat() || wb.next_beat_us == wb.next_downbeat_us);
}

#[test]
fn e2e_on_air_mask_propagated() {
    let beat = make_test_beat(1, 120.0, 1);
    let mut channels = HashMap::new();
    channels.insert(1, true); // ch1 on-air
    channels.insert(2, true); // ch2 on-air
    channels.insert(3, false);
    channels.insert(4, false);

    let (_state, _pkt, wb) = pipeline(&beat, Some(channels));

    assert_eq!(wb.on_air_mask, 0b0000_0011); // ch1 + ch2
}

#[test]
fn e2e_master_device_propagated() {
    let beat = make_test_beat(3, 140.0, 2); // device 3 is master
    let (_state, _pkt, wb) = pipeline(&beat, None);

    assert_eq!(wb.master_device, 3);
}

#[test]
fn e2e_next_beat_timing_propagated() {
    let beat = make_test_beat(1, 126.0, 2);
    let (_state, _pkt, wb) = pipeline(&beat, None);

    // CDJ says next_beat=500ms from now → link_clock(10_000_000) + 500*1000
    assert_eq!(wb.next_beat_us, 10_500_000);
    // CDJ says next_bar=2000ms from now → link_clock(10_000_000) + 2000*1000
    assert_eq!(wb.next_downbeat_us, 12_000_000);
}

#[test]
fn e2e_wristband_schedules_flash() {
    let beat = make_test_beat(1, 128.0, 2);
    let (_state, _pkt, wb) = pipeline(&beat, None);

    let flash = wb.next_flash_local_us().expect("should schedule a flash");
    // wb_local_now was 10_000_000 - 5_000 = 9_995_000
    // next_beat_us is 10_500_000, clock_offset = 10_000_000 - 9_995_000 = 5000
    // local flash = 10_500_000 - 5000 = 10_495_000
    assert!(flash > 9_995_000, "flash should be in the future");
    assert_eq!(flash, 10_495_000);
}

#[test]
fn e2e_cdj_timeout_clears_cdj_active() {
    let beat = make_test_beat(1, 126.0, 1);
    let mut state = BeatSourceState::new(NOW);
    let past = NOW - secs(3);

    state.process_master_beat(&beat, past, 10_000_000);

    // 3 seconds later: CDJ should have timed out
    let now = NOW;
    assert!(state.check_cdj_timeout(now));
    assert!(!state.cdj_playing);
    assert!(!state.is_cdj_active(now));

    // Build a Link-only packet (no CDJ data)
    let flags: u8 = 0; // not playing, not cdj_active
    let packet = build_packet(10_000_000, 0, 12000, 0, flags, 0, 0, 0);

    let mut dongle = DongleSim::new();
    let forwarded = dongle.feed_bytes(&packet);
    assert_eq!(forwarded.len(), 1);

    let mut wb = WristbandSim::new();
    wb.receive_packet(&forwarded[0], 9_995_000);

    assert!(!wb.is_playing());
    assert!(!wb.is_cdj_active());
    assert_eq!(wb.master_device, 0);
}

#[test]
fn e2e_multi_beat_sequence() {
    // Simulate 4 beats (one full bar) flowing through the pipeline
    let mut state = BeatSourceState::new(NOW);
    let mut dongle = DongleSim::new();
    let mut wristband = WristbandSim::new();
    let base_time = NOW;
    let beat_interval_ms: u64 = 469; // ~128 BPM

    for i in 0..4u8 {
        let beat_within_bar = i + 1; // 1-based
        let beat = make_test_beat(1, 128.0, beat_within_bar);
        let now = base_time + millis(i as u64 * beat_interval_ms);
        let link_us = 10_000_000 + (i as i64) * (beat_interval_ms as i64) * 1000;

        state.process_master_beat(&beat, now, link_us);

        let cdj_active = state.is_cdj_active(now);
        let mut flags: u8 = 0;
        if cdj_active {
            flags |= FLAG_PLAYING | FLAG_CDJ_ACTIVE;
        }

        let packet = build_packet(
            link_us,
            state.cdj_next_bar_us,
            state.cdj_bpm,
            state.cdj_beat_in_bar,
            flags,
            state.cdj_next_beat_us,
            0,
            0,
        );

        let forwarded = dongle.feed_bytes(&packet);
        assert_eq!(forwarded.len(), 1, "beat {} must forward", i);

        let wb_local = link_us - 5_000;
        wristband.receive_packet(&forwarded[0], wb_local);

        assert_eq!(wristband.beat_in_bar, i); // 0-based
        assert!(wristband.is_playing());
        assert!(wristband.is_cdj_active());
    }

    assert_eq!(dongle.packets_forwarded, 4);
    assert_eq!(wristband.packets_received, 4);
    assert!(wristband.offset_initialized);
}

#[test]
fn e2e_dongle_rejects_corrupted_then_accepts_good() {
    let beat = make_test_beat(1, 120.0, 1);
    let mut state = BeatSourceState::new(NOW);
    let now = NOW;
    state.process_master_beat(&beat, now, 10_000_000);

    let packet = build_packet(
        10_000_000,
        state.cdj_next_bar_us,
        12000,
        0,
        FLAG_PLAYING | FLAG_CDJ_ACTIVE,
        state.cdj_next_beat_us,
        0,
        1,
    );

    // Corrupt the first packet
    let mut bad = packet;
    bad[20] ^= 0xFF; // corrupt tempo field

    let mut dongle = DongleSim::new();

    // Feed corrupted packet — should be rejected (CRC mismatch)
    let results = dongle.feed_bytes(&bad);
    assert!(results.is_empty());
    assert_eq!(dongle.crc_errors, 1);

    // Feed good packet — should pass
    let results = dongle.feed_bytes(&packet);
    assert_eq!(results.len(), 1);
    assert_eq!(dongle.packets_forwarded, 1);
}

#[test]
fn e2e_crc_cross_validation() {
    // The checksum of the sending side must match that of the receiving side.
    let packet = build_packet(
        99_999_999,
        199_999_999,
        12630,
        2,
        FLAG_PLAYING | FLAG_CDJ_ACTIVE,
        149_999_999,
        0b0000_0101,
        3,
    );

    let coord_crc = packet[35];

    let mut dongle = DongleSim::new();
    let forwarded = dongle.feed_bytes(&packet);
    assert_eq!(forwarded.len(), 1, "CRC must match — coordinator and firmware agree");
    assert_eq!(dongle.crc_errors, 0, "zero CRC errors confirms cross-compatibility");

    assert_ne!(coord_crc, 0x00, "CRC should be non-trivial for this payload");
}

#[test]
fn a_made_up_packet_reaches_the_wristband() {
    let link = LinkReading {
        tempo_x100: 12_000,
        beat_in_bar: 0,
        next_downbeat_us: 0,
        next_beat_us: 0,
        is_playing: false,
    };
    let mut state = BeatSourceState::new(NOW);
    let mut channels = HashMap::new();
    channels.insert(2, true);
    state.update_on_air(channels);
    state.process_master_beat(&make_test_beat(4, 126.3, 2), NOW, 10_000_000);
    let packet = state.next_packet(NOW + millis(5), 10_005_000, &link);

    let mut dongle = DongleSim::new();
    let forwarded = dongle.feed_bytes(&packet);
    assert_eq!(forwarded, vec![packet]);
    let mut wb = WristbandSim::new();
    wb.receive_packet(&forwarded[0], 0);
    assert_eq!(wb.tempo_x100, 12_630);
    assert_eq!(wb.beat_in_bar, 1);
    assert_eq!(wb.next_beat_us, 10_500_000);
    assert_eq!(wb.next_downbeat_us, 12_000_000);
    assert_eq!(wb.master_device, 4);
    assert_eq!(wb.on_air_mask, 0b10);
    assert!(wb.is_playing());
    assert!(wb.is_cdj_active());
}

#[test]
fn host_and_firmware_agree_on_authority() {
    let mut host = BeatSourceState::new(NOW);
    let mut firmware = firefly::beat_state::BeatSourceState::new(NOW);
    let beat = make_test_beat(2, 128.0, 1);
    host.process_master_beat(&beat, NOW, 1_000_000);
    firmware.process_master_beat(&beat, NOW, 1_000_000);
    for later in [0, CDJ_TIMEOUT - 1, CDJ_TIMEOUT, CDJ_TIMEOUT + 1, 5 * CDJ_TIMEOUT] {
        let now = NOW + later;
        assert_eq!(host.is_cdj_active(now), firmware.is_cdj_active(now));
        assert_eq!(host.check_cdj_timeout(now), firmware.check_cdj_timeout(now));
        assert_eq!(host.cdj_playing, firmware.cdj_playing);
    }
}
