//! Packets of the decks.

use firefly::djlink::{
    on_beat_port, on_status_port, parse_beat, parse_status, DjLinkEvent, KIND_BEAT,
    KIND_CDJ_STATUS, MAGIC, PORT_BEAT, PORT_STATUS,
};

fn packet(kind: u8, len: usize) -> Vec<u8> {
    let mut buf = vec![0u8; len];
    buf[..10].copy_from_slice(&MAGIC);
    buf[10] = kind;
    buf[32] = 3;
    buf
}

fn beat_packet() -> Vec<u8> {
    let mut buf = packet(KIND_BEAT, 96);
    buf[84] = 0x31;
    buf[85] = 0x38;
    buf[92] = 2;
    buf
}

#[test]
fn ports_and_magic() {
    assert_eq!(PORT_BEAT, 50001);
    assert_eq!(PORT_STATUS, 50002);
    assert_eq!(&MAGIC, b"Qspt1WmJOL");
}

#[test]
fn a_beat() {
    let beat = parse_beat(&beat_packet()).unwrap();
    assert_eq!(beat.device_number, 3);
    assert_eq!(beat.beat_within_bar, 2);
    assert_eq!(beat.effective_tempo_bpm, 12_600);
    assert_eq!(beat.next_beat_ms, None);
    assert_eq!(beat.next_bar_ms, None);
}

#[test]
fn what_is_no_beat() {
    let good = beat_packet();
    assert!(parse_beat(&[]).is_none());
    assert!(parse_beat(&good[..95]).is_none());
    for at in 0..11 {
        let mut bad = good.clone();
        bad[at] ^= 0x01;
        assert!(parse_beat(&bad).is_none());
    }
    assert!(parse_status(&good).is_none());
    // Longer datagrams are fine.
    let mut long = good.clone();
    long.extend_from_slice(&[0; 100]);
    assert!(parse_beat(&long).is_some());
}

#[test]
fn a_status_report() {
    let mut buf = packet(KIND_CDJ_STATUS, 0x80);
    let status = parse_status(&buf).unwrap();
    assert_eq!(status.device_number, 3);
    assert!(!status.is_playing);
    buf[0x7B] = 0x40;
    assert!(parse_status(&buf).unwrap().is_playing);
    buf[0x7B] = 0xBF;
    assert!(!parse_status(&buf).unwrap().is_playing);
}

#[test]
fn what_is_no_status_report() {
    let good = packet(KIND_CDJ_STATUS, 0x80);
    assert!(parse_status(&good[..0x7F]).is_none());
    for at in 0..11 {
        let mut bad = good.clone();
        bad[at] ^= 0x80;
        assert!(parse_status(&bad).is_none());
    }
    assert!(parse_beat(&good).is_none());
}

#[test]
fn each_port_reports_its_own_kind() {
    let beat = beat_packet();
    let mut status = packet(KIND_CDJ_STATUS, 0x80);
    status[0x7B] = 0x40;
    assert!(matches!(
        on_beat_port(&beat),
        Some(DjLinkEvent::Beat(b)) if b.device_number == 3 && b.effective_tempo_bpm == 12_600
    ));
    assert!(on_beat_port(&status).is_none());
    assert!(matches!(
        on_status_port(&status),
        Some(DjLinkEvent::Status(s)) if s.device_number == 3 && s.is_playing
    ));
    assert!(on_status_port(&beat).is_none());
}
