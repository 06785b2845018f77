//! The radio side.

use firefly::espnow::{Broadcaster, Stats, BROADCAST, HELLO_SIZE, HELLO_SYNC, MAX_UNICAST_PEERS};

const HELLO: [u8; HELLO_SIZE] = [HELLO_SYNC[0], HELLO_SYNC[1], 1, 2, 3, 4, 5, 6];

fn addr(n: u8) -> [u8; 6] {
    [2, 0, 0, 0, 0, n]
}

#[test]
fn a_new_broadcaster() {
    let sender = Broadcaster::new();
    assert_eq!(sender.stats(), Stats::default());
    assert_eq!(sender.peer_count(), 0);
    assert_eq!(sender.send(), vec![BROADCAST]);
}

#[test]
fn a_hello_makes_a_wristband_known() {
    let mut sender = Broadcaster::new();
    assert!(sender.receive(addr(7), &HELLO));
    assert!(sender.receive(addr(3), &HELLO));
    assert_eq!(sender.peer_count(), 2);
    assert_eq!(sender.stats().peer_count, 2);
    assert_eq!(sender.stats().hellos_rx, 2);
    assert_eq!(sender.send(), vec![BROADCAST, addr(7), addr(3)]);
}

#[test]
fn a_second_hello_is_only_counted() {
    let mut sender = Broadcaster::new();
    assert!(sender.receive(addr(7), &HELLO));
    assert!(!sender.receive(addr(7), &HELLO));
    assert_eq!(sender.peer_count(), 1);
    assert_eq!(sender.stats().hellos_rx, 2);
    assert_eq!(sender.send(), vec![BROADCAST, addr(7)]);
}

#[test]
fn eight_wristbands_at_most() {
    let mut sender = Broadcaster::new();
    for n in 0..12 {
        assert_eq!(sender.receive(addr(n), &HELLO), (n as usize) < MAX_UNICAST_PEERS);
    }
    assert_eq!(sender.peer_count(), 8);
    assert_eq!(sender.stats().peer_count, 8);
    assert_eq!(sender.stats().hellos_rx, 12);
    let mut targets = vec![BROADCAST];
    for n in 0..8 {
        targets.push(addr(n));
    }
    assert_eq!(sender.send(), targets);
}

#[test]
fn other_frames_are_ignored() {
    let mut sender = Broadcaster::new();
    assert!(!sender.receive(addr(1), &[]));
    assert!(!sender.receive(addr(1), &HELLO[..7]));
    assert!(!sender.receive(addr(1), &[0xBE, 0xA8, 0, 0, 0, 0, 0, 0, 0]));
    assert!(!sender.receive(addr(1), &[0xBE, 0xA7, 0, 0, 0, 0, 0, 0]));
    assert!(!sender.receive(addr(1), &[0xBF, 0xA8, 0, 0, 0, 0, 0, 0]));
    assert_eq!(sender.stats(), Stats::new());
}

#[test]
fn broadcasts_are_counted_and_every_256th_failure_warned_of() {
    let mut sender = Broadcaster::new();
    sender.receive(addr(1), &HELLO);
    assert!(!sender.record_broadcast(true));
    let mut warned = Vec::new();
    for failure in 1..=1000u32 {
        if sender.record_broadcast(false) {
            warned.push(failure);
        }
        assert!(!sender.record_broadcast(true));
    }
    assert_eq!(warned, vec![256, 512, 768]);
    assert_eq!(sender.stats(), Stats { tx_ok: 1001, tx_fail: 1000, hellos_rx: 1, peer_count: 1 });
    assert_eq!(sender.peer_count(), 1);
}
