//! The wristband's packet parsing, clock tracking and flash schedule.

use firefly::crc8::firefly_crc8;
use firefly::protocol::{FLAG_CDJ_ACTIVE, FLAG_PLAYING, PACKET_SIZE, SYNC_0, SYNC_1, VERSION};
use firefly::wristband::WristbandSim;

/// Builds a valid packet field by field.
fn make_packet(
    send_time_us: i64,
    next_downbeat_us: i64,
    tempo_x100: u16,
    beat_in_bar: u8,
    flags: u8,
    next_beat_us: i64,
    on_air_mask: u8,
    master_device: u8,
) -> [u8; PACKET_SIZE] {
    let mut buf = [0u8; PACKET_SIZE];
    buf[0] = SYNC_0;
    buf[1] = SYNC_1;
    buf[2] = VERSION;
    buf[3] = PACKET_SIZE as u8;
    buf[4..12].copy_from_slice(&send_time_us.to_le_bytes());
    buf[12..20].copy_from_slice(&next_downbeat_us.to_le_bytes());
    buf[20..22].copy_from_slice(&tempo_x100.to_le_bytes());
    buf[22] = beat_in_bar;
    buf[23] = flags;
    buf[24..32].copy_from_slice(&next_beat_us.to_le_bytes());
    buf[32] = on_air_mask;
    buf[33] = master_device;
    buf[34] = 0; // reserved
    buf[35] = firefly_crc8(&buf[2..35]);
    buf
}

/// A packet of which only the send time matters.
fn timed_packet(send_time: i64) -> [u8; PACKET_SIZE] {
    make_packet(send_time, 0, 12000, 0, FLAG_PLAYING, 0, 0, 0)
}

#[test]
fn parse_all_fields_correctly() {
    let mut wb = WristbandSim::new();
    let pkt = make_packet(
        1_000_000, // send_time
        2_000_000, // next_downbeat
        12800,     // 128.00 BPM
        2,         // beat_in_bar
        FLAG_PLAYING | FLAG_CDJ_ACTIVE,
        1_500_000,   // next_beat
        0b0000_0101, // on_air: ch1 + ch3
        3,           // master_device
    );
    wb.receive_packet(&pkt, 999_000); // local time slightly behind

    assert_eq!(wb.next_downbeat_us, 2_000_000);
    assert_eq!(wb.next_beat_us, 1_500_000);
    assert_eq!(wb.tempo_x100, 12800);
    assert_eq!(wb.beat_in_bar, 2);
    assert!(wb.is_playing());
    assert!(wb.is_cdj_active());
    assert_eq!(wb.on_air_mask, 0b0000_0101);
    assert_eq!(wb.master_device, 3);
    assert_eq!(wb.packets_received, 1);
}

#[test]
fn clock_offset_ema_first_packet() {
    let mut wb = WristbandSim::new();
    let send_time = 10_000_000_i64;
    let local_now = 9_990_000_i64;
    let pkt = make_packet(send_time, 0, 12000, 0, FLAG_PLAYING, 0, 0, 0);
    wb.receive_packet(&pkt, local_now);

    assert!(wb.offset_initialized);
    assert_eq!(wb.clock_offset_us, send_time - local_now); // 10_000
}

#[test]
fn clock_offset_ema_converges() {
    let mut wb = WristbandSim::new();
    let true_offset: i64 = 50_000; // coordinator is 50ms ahead

    for i in 0..20 {
        let local_now = 1_000_000 + i * 50_000_i64;
        let send_time = local_now + true_offset;
        let pkt = make_packet(send_time, 0, 12000, 0, FLAG_PLAYING, 0, 0, 0);
        wb.receive_packet(&pkt, local_now);
    }

    // After 20 packets with constant offset, EMA should be very close
    let error = (wb.clock_offset_us - true_offset).abs();
    assert!(
        error < 500,
        "EMA should converge to true offset; error={error} us"
    );
}

#[test]
fn clock_offset_ema_with_jitter() {
    let mut wb = WristbandSim::new();
    let true_offset: i64 = 100_000;
    // Jitter pattern: ±2000 µs
    let jitter = [
        1500_i64, -800, 2000, -1200, 500, -1800, 1000, -600, 1900, -1500, 700, -900, 1600, -400,
        1100, -1700, 800, -1000, 1400, -500, 900, -1300, 1800, -200, 600, -1600, 1200, -700, 1500,
        -1100,
    ];

    for (i, &j) in jitter.iter().enumerate() {
        let local_now = 1_000_000 + (i as i64) * 50_000;
        let send_time = local_now + true_offset + j;
        let pkt = make_packet(send_time, 0, 12000, 0, FLAG_PLAYING, 0, 0, 0);
        wb.receive_packet(&pkt, local_now);
    }

    // With EMA smoothing the jitter should be bounded
    let error = (wb.clock_offset_us - true_offset).abs();
    assert!(
        error < 3000,
        "EMA with jitter should stay bounded; error={error} us"
    );
}

#[test]
fn next_flash_uses_next_beat_when_available() {
    let mut wb = WristbandSim::new();
    let pkt = make_packet(
        1_000_000, // send_time
        2_000_000, // next_downbeat
        12000,
        1,            // beat_in_bar (not downbeat)
        FLAG_PLAYING, // playing
        1_500_000,    // next_beat (non-zero → preferred)
        0,
        0,
    );
    wb.receive_packet(&pkt, 1_000_000);

    let flash = wb.next_flash_local_us().expect("should have flash time");
    let expected = wb.to_local_time(1_500_000);
    assert_eq!(flash, expected);
}

#[test]
fn next_flash_falls_back_to_downbeat_when_no_beat() {
    let mut wb = WristbandSim::new();
    let pkt = make_packet(
        1_000_000, // send_time
        2_000_000, // next_downbeat
        12000,
        0,            // beat_in_bar
        FLAG_PLAYING, // playing
        0,            // next_beat = 0 → unknown
        0,
        0,
    );
    wb.receive_packet(&pkt, 1_000_000);

    let flash = wb.next_flash_local_us().expect("should fall back to downbeat");
    let expected = wb.to_local_time(2_000_000);
    assert_eq!(flash, expected);
}

#[test]
fn not_playing_returns_no_flash() {
    let mut wb = WristbandSim::new();
    let pkt = make_packet(
        1_000_000,
        2_000_000,
        12000,
        0,
        0, // not playing
        1_500_000,
        0,
        0,
    );
    wb.receive_packet(&pkt, 1_000_000);
    assert!(wb.next_flash_local_us().is_none());
}

#[test]
fn playing_without_a_known_beat_schedules_nothing() {
    let mut wb = WristbandSim::new();
    wb.receive_packet(&timed_packet(5), 1);
    assert!(wb.is_playing());
    assert_eq!(wb.next_flash_local_us(), None);
}

#[test]
fn later_measurements_weigh_a_tenth() {
    let mut wb = WristbandSim::new();
    wb.receive_packet(&timed_packet(1_000), 0);
    assert_eq!(wb.clock_offset_us, 1_000);
    wb.receive_packet(&timed_packet(2_000), 0);
    assert_eq!(wb.clock_offset_us, 1_100);
    wb.receive_packet(&timed_packet(2_000), 0);
    assert_eq!(wb.clock_offset_us, 1_190);
    // Rounded towards zero on either side of it.
    wb.clock_offset_us = 1_199;
    wb.receive_packet(&timed_packet(0), 0);
    assert_eq!(wb.clock_offset_us, 1_079);
    wb.clock_offset_us = -1_199;
    wb.receive_packet(&timed_packet(0), 0);
    assert_eq!(wb.clock_offset_us, -1_079);
}

#[test]
fn offset_error_shrinks_by_a_tenth() {
    let mut wb = WristbandSim::new();
    wb.receive_packet(&timed_packet(1_000_000), 0);
    let mut error: i64 = 1_000_000;
    for _ in 0..200 {
        wb.receive_packet(&timed_packet(0), 0);
        assert!(10 * wb.clock_offset_us <= 9 * error + 9);
        error = wb.clock_offset_us;
    }
    assert!(error < 10);
}

#[test]
fn extreme_offsets_do_not_overflow() {
    let mut wb = WristbandSim::new();
    wb.receive_packet(&timed_packet(i64::MAX), 0);
    assert_eq!(wb.clock_offset_us, i64::MAX);
    wb.receive_packet(&timed_packet(i64::MAX), 0);
    assert_eq!(wb.clock_offset_us, i64::MAX);
    wb.receive_packet(&timed_packet(i64::MIN), 0);
    assert!(wb.clock_offset_us < i64::MAX);
}

#[test]
fn bad_packets_change_nothing() {
    let good = make_packet(1, 2, 3, 1, FLAG_PLAYING, 6, 7, 8);
    for at in [0, 1, 2, 3, 20, 34, 35] {
        let mut bad = good;
        bad[at] ^= 0x10;
        let mut wb = WristbandSim::new();
        wb.receive_packet(&bad, 0);
        assert_eq!(wb.packets_received, 0);
        assert!(!wb.offset_initialized);
        assert!(!wb.is_playing());
        assert_eq!(wb.master_device, 0);
    }
}

#[test]
fn downbeats() {
    let mut wb = WristbandSim::new();
    assert!(wb.is_next_downbeat());
    wb.beat_in_bar = 3;
    assert!(!wb.is_next_downbeat());
    wb.next_beat_us = 1_000;
    wb.next_downbeat_us = 1_000;
    assert!(wb.is_next_downbeat());
    wb.next_downbeat_us = 2_000;
    assert!(!wb.is_next_downbeat());
}

#[test]
fn wristbands_flash_together() {
    let pkt = make_packet(1_000_000, 3_000_000, 12000, 1, FLAG_PLAYING, 1_500_000, 0, 0);
    // One clock is 700 ms behind, the other 20 s ahead; each packet is 300 us late.
    let mut a = WristbandSim::new();
    let mut b = WristbandSim::new();
    a.receive_packet(&pkt, 300_000 + 300);
    b.receive_packet(&pkt, 21_000_000 - 300);
    let flash_a = a.next_flash_local_us().unwrap() + 700_000;
    let flash_b = b.next_flash_local_us().unwrap() - 20_000_000;
    assert!((flash_a - 1_500_000).abs() <= 300);
    assert!((flash_b - 1_500_000).abs() <= 300);
    assert!((flash_a - flash_b).abs() <= 600);
}

#[test]
fn a_constant_offset_is_reached_and_kept() {
    for start in [-5_000, 5_000] {
        let mut wb = WristbandSim::new();
        wb.receive_packet(&timed_packet(start), 0);
        for _ in 0..5_000 {
            wb.receive_packet(&timed_packet(70), 0);
        }
        assert!((wb.clock_offset_us - 70).abs() <= 9);
        wb.clock_offset_us = 70;
        wb.receive_packet(&timed_packet(70), 0);
        assert_eq!(wb.clock_offset_us, 70);
    }
}
