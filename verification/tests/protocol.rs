//! The wire packet and its checksum.

use firefly::crc8::{checksum, firefly_crc8};
use firefly::le::{i64_from_le, i64_to_le, u16_from_le, u16_to_le};
use firefly::protocol::{
    build_packet, read_packet, PacketFields, FLAG_CDJ_ACTIVE, FLAG_PLAYING, SYNC, TOTAL_LEN, VERSION,
};

#[test]
fn crc8_check_string() {
    assert_eq!(firefly_crc8(b"123456789"), 0xA2);
}

#[test]
fn crc8_all_zeros() {
    assert_eq!(firefly_crc8(&[0u8; 10]), 0x00);
}

#[test]
fn crc8_all_ones() {
    let crc = firefly_crc8(&[0xFF; 10]);
    // Deterministic non-trivial value
    assert_eq!(crc, firefly_crc8(&[0xFF; 10]));
    assert_ne!(crc, 0x00);
}

#[test]
fn crc_check_value() {
    assert_eq!(checksum(b"123456789"), 0xA2);
}

#[test]
fn crc8_golden_vectors() {
    assert_eq!(checksum(b"123456789"), 0xA2);
    // All zeros
    assert_eq!(checksum(&[0u8; 10]), 0x00);
    // Version, total length and 31 zero bytes
    let mut payload = [0u8; 33];
    payload[0] = 0x02;
    payload[1] = 36;
    let crc = checksum(&payload);
    assert_ne!(crc, 0x00);
    assert_eq!(crc, checksum(&payload));
}

#[test]
fn build_packet_v2_header() {
    let pkt = build_packet(1000, 2000, 12000, 0, FLAG_PLAYING, 1500, 0b0000_0101, 3);
    assert_eq!(pkt[0], 0xBE);
    assert_eq!(pkt[1], 0xA7);
    assert_eq!(pkt[2], 0x02);
    assert_eq!(pkt[3], 36);
}

#[test]
fn build_packet_v2_fields_round_trip() {
    let send_time: i64 = 123_456_789;
    let next_db: i64 = 234_567_890;
    let next_bt: i64 = 150_000_000;
    let pkt = build_packet(
        send_time,
        next_db,
        12630,
        2,
        FLAG_PLAYING | FLAG_CDJ_ACTIVE,
        next_bt,
        0b0011,
        1,
    );

    // Parse back
    let parsed_send = i64::from_le_bytes(pkt[4..12].try_into().unwrap());
    let parsed_db = i64::from_le_bytes(pkt[12..20].try_into().unwrap());
    let parsed_tempo = u16::from_le_bytes(pkt[20..22].try_into().unwrap());
    let parsed_beat = pkt[22];
    let parsed_flags = pkt[23];
    let parsed_next_bt = i64::from_le_bytes(pkt[24..32].try_into().unwrap());
    let parsed_on_air = pkt[32];
    let parsed_master = pkt[33];

    assert_eq!(parsed_send, send_time);
    assert_eq!(parsed_db, next_db);
    assert_eq!(parsed_tempo, 12630);
    assert_eq!(parsed_beat, 2);
    assert_eq!(parsed_flags, FLAG_PLAYING | FLAG_CDJ_ACTIVE);
    assert_eq!(parsed_next_bt, next_bt);
    assert_eq!(parsed_on_air, 0b0011);
    assert_eq!(parsed_master, 1);
}

#[test]
fn build_packet_v2_crc_validates() {
    let pkt = build_packet(0, 0, 12000, 0, 0, 0, 0, 0);
    let expected_crc = checksum(&pkt[2..35]);
    assert_eq!(pkt[35], expected_crc);
}

#[test]
fn build_packet_layout() {
    let pkt = build_packet(0x1122_3344_5566_7788, 0, 12000, 2, FLAG_PLAYING, 0, 0, 0);
    assert_eq!(pkt[0], 0xBE);
    assert_eq!(pkt[1], 0xA7);
    assert_eq!(pkt[2], VERSION);
    assert_eq!(pkt[3], TOTAL_LEN);
    assert_eq!(pkt[22], 2);
    assert_eq!(pkt[23], FLAG_PLAYING);
    assert_eq!(pkt[35], checksum(&pkt[2..35]));
}

#[test]
fn whole_packet_byte_for_byte() {
    let pkt = build_packet(0x0102_0304_0506_0708, -2, 0x3132, 3, 0x03, -1, 0x81, 4);
    let expected: [u8; 35] = [
        0xBE, 0xA7, 0x02, 36, // header
        0x08, 0x07, 0x06, 0x05, 0x04, 0x03, 0x02, 0x01, // send time
        0xFE, 0xFF, 0xFF, 0xFF, 0xFF, 0xFF, 0xFF, 0xFF, // next downbeat
        0x32, 0x31, // tempo
        3, 0x03, // beat in bar, flags
        0xFF, 0xFF, 0xFF, 0xFF, 0xFF, 0xFF, 0xFF, 0xFF, // next beat
        0x81, 4, 0, // channels, master, reserved
    ];
    assert_eq!(pkt[..35], expected);
    assert_eq!(pkt[..2], SYNC);
    assert_eq!(pkt[35], firefly_crc8(&expected[2..35]));
}

#[test]
fn packet_reads_back() {
    for send_time_us in [i64::MIN, -1, 0, 1, 1_234_567_890_123, i64::MAX] {
        let fields = PacketFields {
            send_time_us,
            next_downbeat_us: send_time_us / 3,
            tempo_bpm_x100: 65_535,
            beat_in_bar: 255,
            flags: 0xFF,
            next_beat_us: -send_time_us.max(-i64::MAX),
            on_air_mask: 0xA5,
            master_device: 6,
        };
        let pkt = build_packet(
            fields.send_time_us,
            fields.next_downbeat_us,
            fields.tempo_bpm_x100,
            fields.beat_in_bar,
            fields.flags,
            fields.next_beat_us,
            fields.on_air_mask,
            fields.master_device,
        );
        assert_eq!(read_packet(&pkt), fields);
    }
}

#[test]
fn different_fields_make_different_packets() {
    let a = build_packet(1, 2, 3, 4, 5, 6, 7, 8);
    assert_ne!(a, build_packet(2, 2, 3, 4, 5, 6, 7, 8));
    assert_ne!(a, build_packet(1, 2, 3, 4, 5, 6, 7, 9));
}

#[test]
fn both_checksums_agree() {
    let data: Vec<u8> = (0..=255).collect();
    for n in 0..data.len() {
        assert_eq!(checksum(&data[..n]), firefly_crc8(&data[..n]));
    }
}

#[test]
fn checksums_of_single_bytes() {
    assert_eq!(checksum(&[]), 0x00);
    assert_eq!(checksum(&[0x01]), 0x31);
    assert_eq!(checksum(&[0x80]), firefly_crc8(&[0x80]));
    assert_eq!(firefly_crc8(&[0x02]), 0x62);
}

#[test]
fn checksum_of_data_and_its_checksum_is_zero() {
    let mut data = b"firefly".to_vec();
    data.push(checksum(b"firefly"));
    assert_eq!(checksum(&data), 0);
    assert_eq!(firefly_crc8(&data), 0);
}

#[test]
fn any_one_byte_damage_changes_the_checksum() {
    let data = *b"123456789";
    for at in 0..data.len() {
        for with in 1..=255u8 {
            let mut damaged = data;
            damaged[at] ^= with;
            assert_ne!(checksum(&damaged), 0xA2);
        }
    }
}

#[test]
fn little_endian_fields() {
    assert_eq!(u16_to_le(0x1234), [0x34, 0x12]);
    assert_eq!(i64_to_le(-2), [0xFE, 0xFF, 0xFF, 0xFF, 0xFF, 0xFF, 0xFF, 0xFF]);
    assert_eq!(u16_from_le(&[9, 0x34, 0x12], 1), 0x1234);
    for v in [i64::MIN, -1, 0, 0x0102_0304_0506_0708, i64::MAX] {
        assert_eq!(i64_to_le(v), v.to_le_bytes());
        assert_eq!(i64_from_le(&i64_to_le(v), 0), v);
    }
}
