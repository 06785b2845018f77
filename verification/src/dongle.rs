//! The dongle: finds packets in a serial byte stream and forwards the good ones.

use vstd::prelude::*;
use crate::crc8::firefly_crc8;
use crate::protocol::{PACKET_SIZE, SYNC_0, SYNC_1, VERSION};

verus! {

#[derive(Debug, Clone, Copy, PartialEq, Eq, Structural)]
enum RxState {
    WaitSync0,
    WaitSync1,
    ReadPayload,
}

/// The dongle's serial framing state machine.
pub struct DongleSim {
    rx_state: RxState,
    rx_buf: [u8; PACKET_SIZE],
    rx_idx: usize,
    pub packets_forwarded: u32,
    pub crc_errors: u32,
    pub version_errors: u32,
}

/// What the dongle knows: the beginning of a packet that it holds, and what it
/// has counted.
#[verifier::ext_equal]
pub struct DongleView {
    pub held: Seq<u8>,
    pub packets_forwarded: nat,
    pub crc_errors: nat,
    pub version_errors: nat,
}

/// What becomes of 36 bytes that start with the sync bytes.
pub enum Verdict {
    Forward,
    BadVersion,
    BadCrc,
}

/// The version is looked at first, the checksum second.
pub open spec fn verdict(packet: Seq<u8>) -> Verdict {
    if packet[2] != VERSION {
        Verdict::BadVersion
    } else if !crate::protocol::has_good_crc(packet) {
        Verdict::BadCrc
    } else {
        Verdict::Forward
    }
}

impl DongleView {
    /// A dongle between packets.
    pub open spec fn is_idle(self) -> bool {
        self.held.len() == 0
    }

    /// What is held is the beginning of a packet.
    pub open spec fn is_valid(self) -> bool {
        &&& self.held.len() < PACKET_SIZE
        &&& self.held.len() >= 1 ==> self.held[0] == SYNC_0
        &&& self.held.len() >= 2 ==> self.held[1] == SYNC_1
    }

    /// The counters fit their registers.
    pub open spec fn counters_fit(self) -> bool {
        &&& self.packets_forwarded <= u32::MAX
        &&& self.crc_errors <= u32::MAX
        &&& self.version_errors <= u32::MAX
    }

    /// The dongle with other bytes held.
    pub open spec fn holding(self, held: Seq<u8>) -> DongleView {
        DongleView { held, ..self }
    }

    /// Between packets again, with the verdict on `packet` counted.
    pub open spec fn judged(self, packet: Seq<u8>) -> DongleView {
        match verdict(packet) {
            Verdict::Forward => DongleView {
                held: Seq::empty(),
                packets_forwarded: self.packets_forwarded + 1,
                ..self
            },
            Verdict::BadVersion => DongleView {
                held: Seq::empty(),
                version_errors: self.version_errors + 1,
                ..self
            },
            Verdict::BadCrc => DongleView {
                held: Seq::empty(),
                crc_errors: self.crc_errors + 1,
                ..self
            },
        }
    }

    /// The dongle after one more byte.
    pub open spec fn step(self, b: u8) -> DongleView {
        if self.held.len() == 0 {
            if b == SYNC_0 {
                self.holding(seq![b])
            } else {
                self
            }
        } else if self.held.len() == 1 {
            if b == SYNC_1 {
                self.holding(self.held.push(b))
            } else if b == SYNC_0 {
                self
            } else {
                self.holding(Seq::empty())
            }
        } else if self.held.len() + 1 < PACKET_SIZE {
            self.holding(self.held.push(b))
        } else {
            self.judged(self.held.push(b))
        }
    }

    /// The packet that one more byte completes, if that packet is good.
    pub open spec fn emit(self, b: u8) -> Option<Seq<u8>> {
        let packet = self.held.push(b);
        if packet.len() >= PACKET_SIZE && verdict(packet) is Forward {
            Some(packet)
        } else {
            None
        }
    }

    /// The dongle after all of `data`.
    pub open spec fn run(self, data: Seq<u8>) -> DongleView
        decreases data.len(),
    {
        if data.len() == 0 {
            self
        } else {
            self.run(data.drop_last()).step(data.last())
        }
    }

    /// The packets forwarded while reading `data`, in order.
    pub open spec fn forwards(self, data: Seq<u8>) -> Seq<Seq<u8>>
        decreases data.len(),
    {
        if data.len() == 0 {
            Seq::empty()
        } else {
            let before = self.forwards(data.drop_last());
            match self.run(data.drop_last()).emit(data.last()) {
                Some(packet) => before.push(packet),
                None => before,
            }
        }
    }
}

impl View for DongleSim {
    type V = DongleView;

    closed spec fn view(&self) -> DongleView {
        DongleView {
            held: match self.rx_state {
                RxState::WaitSync0 => Seq::empty(),
                RxState::WaitSync1 => self.rx_buf@.take(1),
                RxState::ReadPayload => self.rx_buf@.take(self.rx_idx as int),
            },
            packets_forwarded: self.packets_forwarded as nat,
            crc_errors: self.crc_errors as nat,
            version_errors: self.version_errors as nat,
        }
    }
}

impl DongleSim {
    /// The receive buffer holds what the state says it holds.
    pub closed spec fn wf(&self) -> bool {
        &&& self.rx_state is WaitSync1 ==> self.rx_buf[0] == SYNC_0
        &&& self.rx_state is ReadPayload ==> {
            &&& 2 <= self.rx_idx < PACKET_SIZE
            &&& self.rx_buf[0] == SYNC_0
            &&& self.rx_buf[1] == SYNC_1
        }
    }

    /// What a well-formed dongle holds is the beginning of a packet.
    pub proof fn lemma_wf_is_valid(&self)
        requires
            self.wf(),
        ensures
            self@.is_valid(),
            self@.counters_fit(),
    {
    }

    /// A dongle that has seen nothing.
    pub fn new() -> (dongle: Self)
        ensures
            dongle.wf(),
            dongle@ == (DongleView {
                held: Seq::empty(),
                packets_forwarded: 0,
                crc_errors: 0,
                version_errors: 0,
            }),
    {
        DongleSim {
            rx_state: RxState::WaitSync0,
            rx_buf: [0u8; PACKET_SIZE],
            rx_idx: 0,
            packets_forwarded: 0,
            crc_errors: 0,
            version_errors: 0,
        }
    }

    /// Reads one byte. Returns the packet that it completes, if that packet has
    /// the right version and checksum.
    pub fn feed_byte(&mut self, b: u8) -> (packet: Option<[u8; PACKET_SIZE]>)
        requires
            old(self).wf(),
            old(self)@.step(b).counters_fit(),
        ensures
            final(self).wf(),
            final(self)@ == old(self)@.step(b),
            packet is Some <==> old(self)@.emit(b) is Some,
            packet is Some ==> packet->0@ == old(self)@.emit(b)->0,
    {
        let ghost before = self@;
        match self.rx_state {
            RxState::WaitSync0 => {
                if b == SYNC_0 {
                    self.rx_buf[0] = b;
                    self.rx_state = RxState::WaitSync1;
                    assert(self@.held =~= seq![b]);
                }
                None
            },
            RxState::WaitSync1 => {
                if b == SYNC_1 {
                    self.rx_buf[1] = b;
                    self.rx_idx = 2;
                    self.rx_state = RxState::ReadPayload;
                    assert(self@.held =~= before.held.push(b));
                } else if b == SYNC_0 {
                    self.rx_buf[0] = b;
                    self.rx_state = RxState::WaitSync1;
                    assert(self@.held =~= before.held);
                } else {
                    self.rx_state = RxState::WaitSync0;
                }
                None
            },
            RxState::ReadPayload => {
                self.rx_buf[self.rx_idx] = b;
                self.rx_idx = self.rx_idx + 1;
                assert(self.rx_buf@.take(self.rx_idx as int) =~= before.held.push(b));
                if self.rx_idx >= PACKET_SIZE {
                    assert(self.rx_buf@ =~= before.held.push(b));
                    let result = self.validate_packet();
                    self.rx_state = RxState::WaitSync0;
                    self.rx_idx = 0;
                    result
                } else {
                    None
                }
            },
        }
    }

    /// Reads `data`. Returns the good packets found, in order.
    pub fn feed_bytes(&mut self, data: &[u8]) -> (packets: Vec<[u8; PACKET_SIZE]>)
        requires
            old(self).wf(),
            old(self)@.run(data@).counters_fit(),
        ensures
            final(self).wf(),
            final(self)@ == old(self)@.run(data@),
            packets@.len() == old(self)@.forwards(data@).len(),
            forall|i: int|
                0 <= i < packets@.len() ==> (#[trigger] packets@[i])@ == old(self)@.forwards(
                    data@,
                )[i],
    {
        let ghost start = self@;
        let mut packets: Vec<[u8; PACKET_SIZE]> = Vec::new();
        let mut i: usize = 0;
        assert(data@.take(0) =~= Seq::<u8>::empty());
        while i < data.len()
            invariant
                i <= data.len(),
                self.wf(),
                self@ == start.run(data@.take(i as int)),
                start.run(data@).counters_fit(),
                packets@.len() == start.forwards(data@.take(i as int)).len(),
                forall|k: int|
                    0 <= k < packets@.len() ==> (#[trigger] packets@[k])@ == start.forwards(
                        data@.take(i as int),
                    )[k],
            decreases data.len() - i,
        {
            proof {
                let here = data@.take(i + 1);
                assert(here.drop_last() =~= data@.take(i as int));
                assert(here.last() == data@[i as int]);
                assert(here + data@.skip(i + 1) =~= data@);
                lemma_run_split(start, here, data@.skip(i + 1));
                lemma_counters_grow(start.run(here), data@.skip(i + 1));
            }
            match self.feed_byte(data[i]) {
                Some(packet) => {
                    packets.push(packet);
                },
                None => {},
            }
            i = i + 1;
        }
        assert(data@.take(data@.len() as int) =~= data@);
        packets
    }

    /// Looks at the version and the checksum of a full receive buffer, and
    /// counts what it finds.
    fn validate_packet(&mut self) -> (packet: Option<[u8; PACKET_SIZE]>)
        requires
            old(self)@.judged(old(self).rx_buf@).counters_fit(),
        ensures
            final(self).rx_buf == old(self).rx_buf,
            final(self).rx_state == old(self).rx_state,
            final(self).rx_idx == old(self).rx_idx,
            final(self)@.holding(Seq::empty()) == old(self)@.judged(old(self).rx_buf@),
            packet == (if verdict(old(self).rx_buf@) is Forward {
                Some(old(self).rx_buf)
            } else {
                None
            }),
    {
        if self.rx_buf[2] != VERSION {
            self.version_errors = self.version_errors + 1;
            return None;
        }
        let expected_crc: u8 = firefly_crc8(&self.rx_buf[2..35]);
        if self.rx_buf[PACKET_SIZE - 1] != expected_crc {
            self.crc_errors = self.crc_errors + 1;
            return None;
        }
        self.packets_forwarded = self.packets_forwarded + 1;
        Some(self.rx_buf)
    }
}

/// Reading two pieces is reading them one after the other.
proof fn lemma_run_split(d: DongleView, a: Seq<u8>, b: Seq<u8>)
    ensures
        d.run(a + b) == d.run(a).run(b),
        d.forwards(a + b) == d.forwards(a) + d.run(a).forwards(b),
    decreases b.len(),
{
    if b.len() == 0 {
        assert(a + b =~= a);
        assert(d.forwards(a) + Seq::<Seq<u8>>::empty() =~= d.forwards(a));
    } else {
        lemma_run_split(d, a, b.drop_last());
        assert((a + b).drop_last() =~= a + b.drop_last());
        assert((a + b).last() == b.last());
        assert(d.forwards(a + b) =~= d.forwards(a) + d.run(a).forwards(b));
    }
}

/// Reading on never lowers a counter.
proof fn lemma_counters_grow(d: DongleView, data: Seq<u8>)
    ensures
        d.packets_forwarded <= d.run(data).packets_forwarded,
        d.crc_errors <= d.run(data).crc_errors,
        d.version_errors <= d.run(data).version_errors,
    decreases data.len(),
{
    if data.len() > 0 {
        lemma_counters_grow(d, data.drop_last());
    }
}

/// Until its last byte, what starts like a packet is only collected.
proof fn lemma_collects(d: DongleView, packet: Seq<u8>, n: int)
    requires
        d.is_idle(),
        packet.len() == PACKET_SIZE,
        crate::protocol::has_sync(packet),
        1 <= n < PACKET_SIZE,
    ensures
        d.run(packet.take(n)) == d.holding(packet.take(n)),
        d.forwards(packet.take(n)) == Seq::<Seq<u8>>::empty(),
    decreases n,
{
    reveal_with_fuel(DongleView::forwards, 2);
    let here = packet.take(n);
    assert(here.drop_last() =~= packet.take(n - 1));
    assert(here.last() == packet[n - 1]);
    if n == 1 {
        assert(packet.take(0) =~= Seq::<u8>::empty());
        assert(seq![packet[0]] =~= here);
    } else {
        lemma_collects(d, packet, n - 1);
        assert(packet.take(n - 1).push(packet[n - 1]) =~= here);
    }
}

/// Noise that never shows the two sync bytes in a row leaves nothing behind but,
/// perhaps, a first sync byte.
proof fn lemma_noise(d: DongleView, noise: Seq<u8>)
    requires
        d.is_idle(),
        !shows_sync(noise),
    ensures
        d.run(noise) == d.holding(
            if noise.len() > 0 && noise.last() == SYNC_0 {
                seq![SYNC_0]
            } else {
                Seq::empty()
            },
        ),
        d.forwards(noise) == Seq::<Seq<u8>>::empty(),
    decreases noise.len(),
{
    if noise.len() == 0 {
        assert(d.held =~= Seq::empty());
    } else {
        let shorter = noise.drop_last();
        assert forall|i: int| 0 <= i < shorter.len() - 1 implies !sync_at(shorter, i) by {
            assert(!sync_at(noise, i));
        }
        lemma_noise(d, shorter);
        assert(d.held =~= Seq::empty());
        if shorter.len() > 0 {
            assert(!sync_at(noise, noise.len() - 2));
        }
    }
}

/// The two sync bytes stand at `i`.
pub open spec fn sync_at(data: Seq<u8>, i: int) -> bool {
    data[i] == SYNC_0 && data[i + 1] == SYNC_1
}

/// The two sync bytes stand somewhere in `data`, one after the other.
pub open spec fn shows_sync(data: Seq<u8>) -> bool {
    exists|i: int| 0 <= i < data.len() - 1 && #[trigger] sync_at(data, i)
}

/// The bytes of the given packets, one packet after the other.
pub open spec fn stream(packets: Seq<Seq<u8>>) -> Seq<u8>
    decreases packets.len(),
{
    if packets.len() == 0 {
        Seq::empty()
    } else {
        stream(packets.drop_last()) + packets.last()
    }
}

/// How a byte stream is cut into reads makes no difference: reading `a` and then
/// `b` leaves the dongle, and forwards the packets, as reading both at once does.
pub proof fn law_chunking_is_invisible(d: DongleView, a: Seq<u8>, b: Seq<u8>)
    ensures
        d.run(a + b) == d.run(a).run(b),
        d.forwards(a + b) == d.forwards(a) + d.run(a).forwards(b),
{
    lemma_run_split(d, a, b);
}

/// Whatever it reads, the dongle forwards valid packets only, counts each of
/// them, and goes on holding the beginning of a packet.
pub proof fn law_forwards_only_valid_packets(d: DongleView, data: Seq<u8>)
    requires
        d.is_valid(),
    ensures
        d.run(data).is_valid(),
        d.run(data).packets_forwarded == d.packets_forwarded + d.forwards(data).len(),
        forall|i: int|
            0 <= i < d.forwards(data).len() ==> crate::protocol::is_valid_packet(
                #[trigger] d.forwards(data)[i],
            ),
    decreases data.len(),
{
    if data.len() > 0 {
        law_forwards_only_valid_packets(d, data.drop_last());
    }
}

/// Each packet, good or bad, takes 36 bytes.
pub proof fn law_counting_takes_bytes(d: DongleView, data: Seq<u8>)
    requires
        d.is_valid(),
    ensures
        PACKET_SIZE * (d.run(data).packets_forwarded - d.packets_forwarded + d.run(data).crc_errors
            - d.crc_errors + d.run(data).version_errors - d.version_errors) + d.run(data).held.len()
            <= d.held.len() + data.len(),
    decreases data.len(),
{
    if data.len() > 0 {
        law_counting_takes_bytes(d, data.drop_last());
        law_forwards_only_valid_packets(d, data.drop_last());
    }
}

/// A dongle between packets that reads 36 bytes starting with the sync bytes
/// gives its verdict on them and is between packets again: they are forwarded
/// unchanged, or counted under the one error that they show.
pub proof fn law_packet_is_judged(d: DongleView, packet: Seq<u8>)
    requires
        d.is_idle(),
        packet.len() == PACKET_SIZE,
        crate::protocol::has_sync(packet),
    ensures
        d.run(packet) == d.judged(packet),
        d.forwards(packet) == (if verdict(packet) is Forward {
            seq![packet]
        } else {
            Seq::empty()
        }),
{
    lemma_collects(d, packet, packet.len() - 1);
    assert(packet.take(packet.len() - 1) =~= packet.drop_last());
    assert(packet.drop_last().push(packet.last()) =~= packet);
    assert(Seq::<Seq<u8>>::empty().push(packet) =~= seq![packet]);
}

/// A valid packet is forwarded unchanged and counted, and nothing else happens.
pub proof fn law_valid_packet_is_forwarded(d: DongleView, packet: Seq<u8>)
    requires
        d.is_idle(),
        crate::protocol::is_valid_packet(packet),
    ensures
        d.forwards(packet) == seq![packet],
        d.run(packet) == (DongleView {
            held: Seq::empty(),
            packets_forwarded: d.packets_forwarded + 1,
            ..d
        }),
{
    law_packet_is_judged(d, packet);
}

/// A valid packet that arrives with one byte changed is never forwarded. It is
/// counted once: as a version error when the version byte was hit, as a checksum
/// error when any byte behind it was. With a sync byte hit the dongle has no
/// packet to judge, and no counter moves.
pub proof fn law_damaged_packet_is_not_forwarded(
    d: DongleView,
    packet: Seq<u8>,
    damaged: Seq<u8>,
    at: int,
)
    requires
        d.is_idle(),
        crate::protocol::is_valid_packet(packet),
        damaged.len() == packet.len(),
        0 <= at < packet.len(),
        damaged[at] != packet[at],
        forall|j: int| 0 <= j < packet.len() && j != at ==> damaged[j] == packet[j],
    ensures
        d.forwards(damaged) == Seq::<Seq<u8>>::empty(),
        d.run(damaged).packets_forwarded == d.packets_forwarded,
        d.run(damaged).version_errors == d.version_errors + (if at == 2 {
            1int
        } else {
            0
        }),
        d.run(damaged).crc_errors == d.crc_errors + (if at > 2 {
            1int
        } else {
            0
        }),
{
    if at >= 2 {
        crate::protocol::law_one_byte_damage_invalidates(packet, damaged, at);
        law_packet_is_judged(d, damaged);
    } else {
        reveal_with_fuel(DongleView::run, 3);
        reveal_with_fuel(DongleView::forwards, 3);
        let start = damaged.take(at + 1);
        let rest = damaged.skip(at + 1);
        assert(start + rest =~= damaged);
        assert(start.drop_last() =~= damaged.take(at));
        assert(at == 1 ==> start.drop_last().drop_last() =~= Seq::<u8>::empty());
        let there = d.run(start);
        assert(there.held.len() <= at);
        assert(there.is_valid());
        lemma_run_split(d, start, rest);
        lemma_counters_grow(there, rest);
        law_counting_takes_bytes(there, rest);
        law_forwards_only_valid_packets(there, rest);
        assert(there.forwards(rest) =~= Seq::<Seq<u8>>::empty());
        assert(d.forwards(damaged) =~= Seq::<Seq<u8>>::empty());
    }
}

/// A valid packet is found behind any noise that does not itself show the two
/// sync bytes in a row, even noise that ends in a first sync byte.
pub proof fn law_packet_is_found_after_noise(d: DongleView, noise: Seq<u8>, packet: Seq<u8>)
    requires
        d.is_idle(),
        !shows_sync(noise),
        crate::protocol::is_valid_packet(packet),
    ensures
        d.forwards(noise + packet) == seq![packet],
        d.run(noise + packet) == (DongleView {
            held: Seq::empty(),
            packets_forwarded: d.packets_forwarded + 1,
            ..d
        }),
{
    lemma_run_split(d, noise, packet);
    lemma_noise(d, noise);
    law_valid_packet_is_forwarded(d, packet);
    assert(d.held =~= Seq::empty());
    let there = d.run(noise);
    if there.held.len() == 0 {
        assert(there == d);
    } else {
        reveal_with_fuel(DongleView::forwards, 2);
        let first = packet.take(1);
        let rest = packet.skip(1);
        assert(first + rest =~= packet);
        lemma_run_split(there, first, rest);
        lemma_run_split(d, first, rest);
        lemma_collects(d, packet, 1);
        assert(first.drop_last() =~= Seq::<u8>::empty());
        assert(first =~= seq![SYNC_0]);
        assert(there.run(first) == there.run(first.drop_last()).step(first.last()));
        assert(there.run(first) == d.run(first));
        assert(there.forwards(first) =~= Seq::<Seq<u8>>::empty());
        assert(there.forwards(packet) =~= d.forwards(packet));
    }
    assert(Seq::<Seq<u8>>::empty() + seq![packet] =~= seq![packet]);
}

/// Valid packets sent back to back all come through, in order.
pub proof fn law_back_to_back_packets_come_through(d: DongleView, packets: Seq<Seq<u8>>)
    requires
        d.is_idle(),
        forall|i: int|
            0 <= i < packets.len() ==> crate::protocol::is_valid_packet(#[trigger] packets[i]),
    ensures
        d.forwards(stream(packets)) == packets,
        d.run(stream(packets)) == (DongleView {
            held: Seq::empty(),
            packets_forwarded: d.packets_forwarded + packets.len(),
            ..d
        }),
    decreases packets.len(),
{
    if packets.len() == 0 {
        assert(d.held =~= Seq::empty());
        assert(packets =~= Seq::empty());
    } else {
        let shorter = packets.drop_last();
        law_back_to_back_packets_come_through(d, shorter);
        lemma_run_split(d, stream(shorter), packets.last());
        law_valid_packet_is_forwarded(d.run(stream(shorter)), packets.last());
        assert(shorter + seq![packets.last()] =~= packets);
    }
}

/// Bytes in which the two sync bytes never follow each other are passed over: nothing
/// is forwarded, nothing is counted, and at most a first sync byte at their end is
/// held.
pub proof fn law_noise_is_passed_over(d: DongleView, noise: Seq<u8>)
    requires
        d.held.len() == 0,
        forall|i: int|
            0 <= i < noise.len() - 1 ==> !(#[trigger] noise[i] == 0xBE && noise[i + 1] == 0xA7),
    ensures
        d.forwards(noise).len() == 0,
        d.run(noise).packets_forwarded == d.packets_forwarded,
        d.run(noise).crc_errors == d.crc_errors,
        d.run(noise).version_errors == d.version_errors,
        noise.len() > 0 && noise.last() == 0xBE ==> d.run(noise).held == seq![0xBEu8],
        noise.len() == 0 || noise.last() != 0xBE ==> d.run(noise).held.len() == 0,
{
    assert forall|i: int| 0 <= i < noise.len() - 1 implies !sync_at(noise, i) by {
        assert(!(noise[i] == 0xBE && noise[i + 1] == 0xA7));
    }
    lemma_noise(d, noise);
}

/// Behind such noise, the sync bytes and the 34 bytes after them are one packet. It is
/// forwarded as it is when version and checksum are right; else nothing is forwarded,
/// and a wrong version is counted as such, or else a wrong checksum. Until its last
/// byte it is held, with nothing forwarded or counted. Afterwards nothing is held.
pub proof fn law_packet_stands_or_falls(d: DongleView, noise: Seq<u8>, packet: Seq<u8>, n: int)
    requires
        d.held.len() == 0,
        forall|i: int|
            0 <= i < noise.len() - 1 ==> !(#[trigger] noise[i] == 0xBE && noise[i + 1] == 0xA7),
        packet.len() == 36,
        packet[0] == 0xBE,
        packet[1] == 0xA7,
        2 <= n < 36,
    ensures
        ({
            let good_version = packet[2] == 0x02;
            let good_crc = packet[35] == crate::crc8::packet_crc(packet.subrange(2, 35));
            let t = d.run(noise + packet);
            let sent = d.forwards(noise + packet);
            &&& t.held.len() == 0
            &&& good_version && good_crc ==> sent == seq![packet] && t.packets_forwarded
                == d.packets_forwarded + 1
            &&& !(good_version && good_crc) ==> sent.len() == 0 && t.packets_forwarded
                == d.packets_forwarded
            &&& !good_version ==> t.version_errors == d.version_errors + 1
            &&& good_version ==> t.version_errors == d.version_errors
            &&& good_version && !good_crc ==> t.crc_errors == d.crc_errors + 1
            &&& !good_version || good_crc ==> t.crc_errors == d.crc_errors
        }),
        ({
            let t = d.run(noise + packet.take(n));
            &&& t.held == packet.take(n)
            &&& d.forwards(noise + packet.take(n)).len() == 0
            &&& t.packets_forwarded == d.packets_forwarded
            &&& t.crc_errors == d.crc_errors
            &&& t.version_errors == d.version_errors
        }),
{
    law_noise_is_passed_over(d, noise);
    lemma_run_split(d, noise, packet);
    lemma_run_split(d, noise, packet.take(n));
    lemma_collects(d, packet, n);
    law_packet_is_judged(d, packet);
    let there = d.run(noise);
    assert(d.held =~= Seq::empty());
    assert(d.forwards(noise) =~= Seq::empty());
    if there.held.len() == 0 {
        assert(there.held =~= d.held);
    } else {
        reveal_with_fuel(DongleView::forwards, 2);
        reveal_with_fuel(DongleView::run, 2);
        let first = packet.take(1);
        assert(first.drop_last() =~= Seq::<u8>::empty());
        lemma_collects(d, packet, 1);
        assert(first =~= seq![SYNC_0]);
        assert(there.run(first) == there.step(SYNC_0));
        assert(there.run(first) =~= d.run(first));
        assert(there.forwards(first) =~= Seq::<Seq<u8>>::empty());
        assert(first + packet.skip(1) =~= packet);
        assert(first + packet.take(n).skip(1) =~= packet.take(n));
        lemma_run_split(there, first, packet.skip(1));
        lemma_run_split(d, first, packet.skip(1));
        lemma_run_split(there, first, packet.take(n).skip(1));
        lemma_run_split(d, first, packet.take(n).skip(1));
        assert(there.forwards(packet) =~= d.forwards(packet));
        assert(there.forwards(packet.take(n)) =~= d.forwards(packet.take(n)));
    }
    assert(Seq::<Seq<u8>>::empty() + d.forwards(packet) =~= d.forwards(packet));
}

/// One byte forwards at most one packet, exactly when reading it as a stream of its own
/// would.
pub proof fn law_one_byte_is_a_short_stream(d: DongleView, b: u8)
    ensures
        d.run(seq![b]) == d.step(b),
        d.emit(b) is Some ==> d.forwards(seq![b]) == seq![d.emit(b)->0],
        d.emit(b) is None ==> d.forwards(seq![b]).len() == 0,
{
    reveal_with_fuel(DongleView::forwards, 2);
    reveal_with_fuel(DongleView::run, 2);
    assert(seq![b].drop_last() =~= Seq::<u8>::empty());
    if d.emit(b) is Some {
        assert(Seq::<Seq<u8>>::empty().push(d.emit(b)->0) =~= seq![d.emit(b)->0]);
    }
}

/// What the counters show is what has been counted.
proof fn law_counters_are_shown(dongle: DongleSim)
    ensures
        dongle@.packets_forwarded == dongle.packets_forwarded,
        dongle@.crc_errors == dongle.crc_errors,
        dongle@.version_errors == dongle.version_errors,
{
}

} // verus!
