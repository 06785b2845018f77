//! The dongle's framing state machine.

use firefly::crc8::firefly_crc8;
use firefly::dongle::DongleSim;
use firefly::protocol::{FLAG_CDJ_ACTIVE, FLAG_PLAYING, PACKET_SIZE, SYNC_0, SYNC_1, VERSION};

/// Builds a valid packet field by field.
fn make_packet(
    send_time_us: i64,
    next_downbeat_us: i64,
    tempo_x100: u16,
    beat_in_bar: u8,
    flags: u8,
    next_beat_us: i64,
    on_air_mask: u8,
    master_device: u8,
) -> [u8; PACKET_SIZE] {
    let mut buf = [0u8; PACKET_SIZE];
    buf[0] = SYNC_0;
    buf[1] = SYNC_1;
    buf[2] = VERSION;
    buf[3] = PACKET_SIZE as u8;
    buf[4..12].copy_from_slice(&send_time_us.to_le_bytes());
    buf[12..20].copy_from_slice(&next_downbeat_us.to_le_bytes());
    buf[20..22].copy_from_slice(&tempo_x100.to_le_bytes());
    buf[22] = beat_in_bar;
    buf[23] = flags;
    buf[24..32].copy_from_slice(&next_beat_us.to_le_bytes());
    buf[32] = on_air_mask;
    buf[33] = master_device;
    buf[34] = 0; // reserved
    buf[35] = firefly_crc8(&buf[2..35]);
    buf
}

fn make_default_packet() -> [u8; PACKET_SIZE] {
    make_packet(1_000_000, 2_000_000, 12000, 0, FLAG_PLAYING, 1_500_000, 0, 0)
}

#[test]
fn valid_packet_passes_through() {
    let mut dongle = DongleSim::new();
    let pkt = make_default_packet();
    let results = dongle.feed_bytes(&pkt);
    assert_eq!(results.len(), 1);
    assert_eq!(results[0], pkt);
    assert_eq!(dongle.packets_forwarded, 1);
    assert_eq!(dongle.crc_errors, 0);
    assert_eq!(dongle.version_errors, 0);
}

#[test]
fn bad_crc_rejected() {
    let mut dongle = DongleSim::new();
    let mut pkt = make_default_packet();
    pkt[35] ^= 0xFF; // corrupt CRC
    let results = dongle.feed_bytes(&pkt);
    assert!(results.is_empty());
    assert_eq!(dongle.crc_errors, 1);
    assert_eq!(dongle.packets_forwarded, 0);
}

#[test]
fn bad_version_rejected() {
    let mut dongle = DongleSim::new();
    let mut pkt = make_default_packet();
    pkt[2] = 0x01; // wrong version
    // Recompute the CRC so that the version is all that is wrong
    pkt[35] = firefly_crc8(&pkt[2..35]);
    let results = dongle.feed_bytes(&pkt);
    assert!(results.is_empty());
    assert_eq!(dongle.version_errors, 1);
    assert_eq!(dongle.crc_errors, 0);
}

#[test]
fn garbage_before_sync_handled() {
    let mut dongle = DongleSim::new();
    let pkt = make_default_packet();
    let mut data = vec![0x00, 0x11, 0x22, 0x33, 0x44];
    data.extend_from_slice(&pkt);
    let results = dongle.feed_bytes(&data);
    assert_eq!(results.len(), 1);
    assert_eq!(results[0], pkt);
}

#[test]
fn false_sync_byte_handled() {
    let mut dongle = DongleSim::new();
    let pkt = make_default_packet();
    // 0xBE followed by non-0xA7, then the real packet
    let mut data = vec![SYNC_0, 0x00];
    data.extend_from_slice(&pkt);
    let results = dongle.feed_bytes(&data);
    assert_eq!(results.len(), 1);
    assert_eq!(results[0], pkt);
}

#[test]
fn back_to_back_packets() {
    let mut dongle = DongleSim::new();
    let pkt1 = make_packet(100, 200, 12000, 0, FLAG_PLAYING, 150, 0, 0);
    let pkt2 = make_packet(300, 400, 12800, 1, FLAG_PLAYING | FLAG_CDJ_ACTIVE, 350, 0b11, 2);
    let mut data = Vec::new();
    data.extend_from_slice(&pkt1);
    data.extend_from_slice(&pkt2);
    let results = dongle.feed_bytes(&data);
    assert_eq!(results.len(), 2);
    assert_eq!(results[0], pkt1);
    assert_eq!(results[1], pkt2);
    assert_eq!(dongle.packets_forwarded, 2);
}

#[test]
fn partial_packet_then_valid_packet() {
    let mut dongle = DongleSim::new();
    let pkt = make_default_packet();
    // Feed first half
    let results1 = dongle.feed_bytes(&pkt[..18]);
    assert!(results1.is_empty());
    // Feed second half
    let results2 = dongle.feed_bytes(&pkt[18..]);
    assert_eq!(results2.len(), 1);
    assert_eq!(results2[0], pkt);
}

#[test]
fn every_way_to_cut_a_stream_in_two_gives_the_same() {
    let pkt = make_default_packet();
    let mut data = vec![0x55, SYNC_0, SYNC_0];
    data.extend_from_slice(&pkt[1..]);
    data.extend_from_slice(&pkt);
    for cut in 0..=data.len() {
        let mut dongle = DongleSim::new();
        let mut results = dongle.feed_bytes(&data[..cut]);
        results.extend(dongle.feed_bytes(&data[cut..]));
        assert_eq!(results, vec![pkt, pkt]);
        assert_eq!(dongle.packets_forwarded, 2);
    }
}

#[test]
fn bytes_one_at_a_time() {
    let mut dongle = DongleSim::new();
    let pkt = make_default_packet();
    for &b in &pkt[..35] {
        assert_eq!(dongle.feed_byte(b), None);
    }
    assert_eq!(dongle.feed_byte(pkt[35]), Some(pkt));
}

#[test]
fn repeated_first_sync_byte_is_kept() {
    let mut dongle = DongleSim::new();
    let pkt = make_default_packet();
    let mut data = vec![SYNC_0, SYNC_0, SYNC_0];
    data.extend_from_slice(&pkt);
    assert_eq!(dongle.feed_bytes(&data), vec![pkt]);
}

#[test]
fn one_byte_damage_is_never_forwarded() {
    let pkt = make_default_packet();
    for at in 0..PACKET_SIZE {
        for with in [0x01, 0x80, 0xFF] {
            let mut damaged = pkt;
            damaged[at] ^= with;
            let mut dongle = DongleSim::new();
            assert!(dongle.feed_bytes(&damaged).is_empty());
            assert_eq!(dongle.packets_forwarded, 0);
            assert_eq!(dongle.version_errors, if at == 2 { 1 } else { 0 });
            assert_eq!(dongle.crc_errors, if at > 2 { 1 } else { 0 });
        }
    }
}

#[test]
fn a_false_start_swallows_what_follows() {
    // Sync bytes in the noise are taken for a packet, 36 bytes long.
    let pkt = make_default_packet();
    let mut data = vec![SYNC_0, SYNC_1];
    data.extend_from_slice(&pkt);
    let mut dongle = DongleSim::new();
    assert!(dongle.feed_bytes(&data).is_empty());
    assert_eq!(dongle.version_errors, 1);
    assert_eq!(dongle.feed_bytes(&pkt), vec![pkt]);
}
