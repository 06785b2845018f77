//! The radio side: which wristbands are known, where a packet goes, and what is
//! counted on the way.

use vstd::prelude::*;

verus! {

/// How many wristbands are sent packets of their own.
pub const MAX_UNICAST_PEERS: usize = 8;

/// The address that every wristband listens on.
pub const BROADCAST: [u8; 6] = [0xFF, 0xFF, 0xFF, 0xFF, 0xFF, 0xFF];

/// First bytes of a hello frame.
pub const HELLO_SYNC: [u8; 2] = [0xBE, 0xA8];

/// Every failed broadcast whose number this divides is warned of.
pub const WARN_EVERY: u32 = 256;

/// Length of a hello frame.
pub const HELLO_SIZE: usize = 8;

/// `heapless::Vec`, a vector of fixed capacity, as it stands in its crate.
#[verifier::external_type_specification]
#[verifier::external_body]
#[verifier::reject_recursive_types(T)]
pub struct ExHeaplessVec<T, const N: usize>(heapless::Vec<T, N>);

/// The addresses that a peer list holds, in order.
pub uninterp spec fn held(peers: heapless::Vec<[u8; 6], 8>) -> Seq<Seq<u8>>;

/// Calls `heapless::Vec::new`. Claimed: the list is empty.
#[verifier::external_body]
fn no_peers() -> (peers: heapless::Vec<[u8; 6], 8>)
    ensures
        held(peers) == Seq::<Seq<u8>>::empty(),
{
    heapless::Vec::new()
}

/// Calls `heapless::Vec::push`. Claimed: below its capacity of 8 the list gets the
/// address at its end; a full list stays as it is, and the address comes back.
#[verifier::external_body]
fn push_peer(peers: &mut heapless::Vec<[u8; 6], 8>, addr: [u8; 6]) -> (pushed: Result<(), [u8; 6]>)
    ensures
        held(*old(peers)).len() < 8 ==> {
            &&& pushed is Ok
            &&& held(*final(peers)) == held(*old(peers)).push(addr@)
        },
        held(*old(peers)).len() >= 8 ==> {
            &&& pushed == Err::<(), [u8; 6]>(addr)
            &&& held(*final(peers)) == held(*old(peers))
        },
{
    peers.push(addr)
}

/// Calls `contains` on the slice that a `heapless::Vec` dereferences to. Claimed:
/// it says whether the address is in the list.
#[verifier::external_body]
fn has_peer(peers: &heapless::Vec<[u8; 6], 8>, addr: &[u8; 6]) -> (found: bool)
    ensures
        found == held(*peers).contains(addr@),
{
    peers.contains(addr)
}

/// Calls `len` on the slice that a `heapless::Vec` dereferences to. Claimed: it is
/// the number of addresses in the list, which its capacity of 8 bounds.
#[verifier::external_body]
fn count_peers(peers: &heapless::Vec<[u8; 6], 8>) -> (n: usize)
    ensures
        n == held(*peers).len(),
        n <= 8,
{
    peers.len()
}

/// Indexes the slice that a `heapless::Vec` dereferences to. Claimed: it is the
/// address at that place in the list.
#[verifier::external_body]
fn peer_at(peers: &heapless::Vec<[u8; 6], 8>, i: usize) -> (addr: [u8; 6])
    requires
        i < held(*peers).len(),
    ensures
        addr@ == held(*peers)[i as int],
{
    peers[i]
}

/// What has been counted. The counters wrap around.
#[derive(Debug, Clone, Copy, PartialEq, Eq, Structural)]
pub struct Stats {
    /// Packets broadcast.
    pub tx_ok: u32,
    /// Packets that could not be broadcast.
    pub tx_fail: u32,
    /// Hello frames heard.
    pub hellos_rx: u32,
    /// Wristbands known.
    pub peer_count: u32,
}

impl Stats {
    /// Nothing counted yet.
    pub fn new() -> (stats: Self)
        ensures
            stats == (Stats { tx_ok: 0, tx_fail: 0, hellos_rx: 0, peer_count: 0 }),
    {
        Stats { tx_ok: 0, tx_fail: 0, hellos_rx: 0, peer_count: 0 }
    }
}

impl Default for Stats {
    fn default() -> (stats: Self)
        ensures
            stats == (Stats { tx_ok: 0, tx_fail: 0, hellos_rx: 0, peer_count: 0 }),
    {
        Stats::new()
    }
}

/// `n + 1`, wrapping around.
pub open spec fn counted(n: u32) -> u32 {
    ((n + 1) % 0x1_0000_0000) as u32
}

/// The sending side.
pub struct Broadcaster {
    peers: heapless::Vec<[u8; 6], 8>,
    stats: Stats,
}

/// The known wristbands, in the order in which they were heard, and what has been
/// counted.
pub struct BroadcasterView {
    pub peers: Seq<Seq<u8>>,
    pub stats: Stats,
}

/// A hello frame of a wristband.
pub open spec fn is_hello(frame: Seq<u8>) -> bool {
    frame.len() == HELLO_SIZE && frame[0] == HELLO_SYNC[0] && frame[1] == HELLO_SYNC[1]
}

impl BroadcasterView {
    /// Addresses of six bytes, no two alike, as many as there is room for, and
    /// counted.
    pub open spec fn is_valid(self) -> bool {
        &&& self.peers.len() <= MAX_UNICAST_PEERS
        &&& self.peers.no_duplicates()
        &&& forall|i: int| 0 <= i < self.peers.len() ==> (#[trigger] self.peers[i]).len() == 6
        &&& self.stats.peer_count == self.peers.len()
    }

    /// A frame from `addr` makes it known: it is a hello of a wristband not known
    /// yet, and there is room.
    pub open spec fn pairs(self, addr: Seq<u8>, frame: Seq<u8>) -> bool {
        is_hello(frame) && !self.peers.contains(addr) && self.peers.len() < MAX_UNICAST_PEERS
    }

    /// The sending side after a frame from `addr`.
    pub open spec fn after_frame(self, addr: Seq<u8>, frame: Seq<u8>) -> BroadcasterView {
        if !is_hello(frame) {
            self
        } else if self.pairs(addr, frame) {
            BroadcasterView {
                peers: self.peers.push(addr),
                stats: Stats {
                    hellos_rx: counted(self.stats.hellos_rx),
                    peer_count: (self.peers.len() + 1) as u32,
                    ..self.stats
                },
            }
        } else {
            BroadcasterView {
                stats: Stats { hellos_rx: counted(self.stats.hellos_rx), ..self.stats },
                ..self
            }
        }
    }

    /// The sending side once a broadcast went out or failed.
    pub open spec fn after_broadcast(self, ok: bool) -> BroadcasterView {
        BroadcasterView {
            stats: if ok {
                Stats { tx_ok: counted(self.stats.tx_ok), ..self.stats }
            } else {
                Stats { tx_fail: counted(self.stats.tx_fail), ..self.stats }
            },
            ..self
        }
    }
}

impl View for Broadcaster {
    type V = BroadcasterView;

    closed spec fn view(&self) -> BroadcasterView {
        BroadcasterView { peers: held(self.peers), stats: self.stats }
    }
}

impl Broadcaster {
    /// A sending side that knows no wristband.
    pub fn new() -> (sender: Self)
        ensures
            sender@.is_valid(),
            sender@ == (BroadcasterView {
                peers: Seq::empty(),
                stats: Stats { tx_ok: 0, tx_fail: 0, hellos_rx: 0, peer_count: 0 },
            }),
    {
        Broadcaster { peers: no_peers(), stats: Stats::new() }
    }

    /// What has been counted.
    pub fn stats(&self) -> (stats: Stats)
        ensures
            stats == self@.stats,
    {
        self.stats
    }

    /// How many wristbands are known.
    pub fn peer_count(&self) -> (n: usize)
        ensures
            n == self@.peers.len(),
    {
        count_peers(&self.peers)
    }

    /// Takes a frame from the radio into account. Says whether it made a
    /// wristband known.
    pub fn receive(&mut self, addr: [u8; 6], frame: &[u8]) -> (paired: bool)
        requires
            old(self)@.is_valid(),
        ensures
            final(self)@.is_valid(),
            final(self)@ == old(self)@.after_frame(addr@, frame@),
            paired == old(self)@.pairs(addr@, frame@),
    {
        if frame.len() == HELLO_SIZE && frame[0] == HELLO_SYNC[0] && frame[1] == HELLO_SYNC[1] {
            self.stats.hellos_rx = self.stats.hellos_rx.wrapping_add(1);
            if !has_peer(&self.peers, &addr) {
                match push_peer(&mut self.peers, addr) {
                    Ok(_) => {
                        self.stats.peer_count = count_peers(&self.peers) as u32;
                        return true;
                    },
                    Err(_) => {},
                }
            }
        }
        false
    }

    /// Where a packet goes: to everyone, and then once more to each wristband
    /// known, in the order in which they were heard.
    pub fn send(&self) -> (targets: Vec<[u8; 6]>)
        ensures
            targets@.len() == self@.peers.len() + 1,
            targets@[0] == BROADCAST,
            forall|i: int| 0 <= i < 6 ==> #[trigger] targets@[0]@[i] == 0xFF,
            forall|i: int|
                1 <= i < targets@.len() ==> (#[trigger] targets@[i])@ == self@.peers[i - 1],
    {
        let mut targets: Vec<[u8; 6]> = Vec::new();
        targets.push(BROADCAST);
        let n: usize = count_peers(&self.peers);
        let mut i: usize = 0;
        while i < n
            invariant
                i <= n,
                n == held(self.peers).len(),
                targets@.len() == i + 1,
                targets@[0] == BROADCAST,
                forall|k: int|
                    1 <= k <= i ==> (#[trigger] targets@[k])@ == held(self.peers)[k - 1],
            decreases n - i,
        {
            targets.push(peer_at(&self.peers, i));
            i = i + 1;
        }
        targets
    }

    /// Counts a broadcast that went out or failed, and says whether to warn of a
    /// failure: of every 256th. Failures to send to a single wristband are not
    /// counted.
    pub fn record_broadcast(&mut self, ok: bool) -> (warn: bool)
        ensures
            final(self)@ == old(self)@.after_broadcast(ok),
            warn == (!ok && counted(old(self)@.stats.tx_fail) % WARN_EVERY == 0),
            warn <==> !ok && (old(self)@.stats.tx_fail + 1) % 256 == 0,
    {
        if ok {
            self.stats.tx_ok = self.stats.tx_ok.wrapping_add(1);
            false
        } else {
            self.stats.tx_fail = self.stats.tx_fail.wrapping_add(1);
            self.stats.tx_fail % WARN_EVERY == 0
        }
    }
}

/// Wristbands stay known, and keep their place: no frame and no broadcast drops or
/// moves one.
pub proof fn law_wristbands_stay_known(b: BroadcasterView, addr: Seq<u8>, frame: Seq<u8>, ok: bool)
    ensures
        b.peers.is_prefix_of(b.after_frame(addr, frame).peers),
        b.after_broadcast(ok).peers == b.peers,
{
}

/// A wristband that says hello is known from then on, as long as there was room.
pub proof fn law_hello_makes_known(b: BroadcasterView, addr: Seq<u8>, frame: Seq<u8>)
    requires
        is_hello(frame),
        b.peers.len() < MAX_UNICAST_PEERS,
    ensures
        b.after_frame(addr, frame).peers.contains(addr),
{
    assert(b.peers.push(addr).last() == addr);
}

/// A second hello of a known wristband changes nothing but the count of hellos.
pub proof fn law_hello_is_idempotent(b: BroadcasterView, addr: Seq<u8>, frame: Seq<u8>)
    requires
        b.peers.contains(addr),
    ensures
        b.after_frame(addr, frame).peers == b.peers,
        b.after_frame(addr, frame).stats.peer_count == b.stats.peer_count,
{
}

/// What a frame does. Eight bytes that start with the hello bytes are a hello, and are
/// counted. A hello from an address not known yet, while fewer than eight are known,
/// puts that address behind the others. Nothing else is touched, and other frames
/// touch nothing.
pub proof fn law_what_a_frame_does(b: BroadcasterView, addr: Seq<u8>, frame: Seq<u8>)
    ensures
        ({
            let t = b.after_frame(addr, frame);
            let hello = frame.len() == 8 && frame[0] == 0xBE && frame[1] == 0xA8;
            let paired = hello && b.peers.len() < 8 && !b.peers.contains(addr);
            &&& b.pairs(addr, frame) <==> paired
            &&& paired ==> t.peers == b.peers.push(addr) && t.stats.peer_count == b.peers.len() + 1
            &&& !paired ==> t.peers == b.peers && t.stats.peer_count == b.stats.peer_count
            &&& hello && b.stats.hellos_rx < u32::MAX ==> t.stats.hellos_rx == b.stats.hellos_rx
                + 1
            &&& hello && b.stats.hellos_rx == u32::MAX ==> t.stats.hellos_rx == 0
            &&& !hello ==> t == b
            &&& t.stats.tx_ok == b.stats.tx_ok
            &&& t.stats.tx_fail == b.stats.tx_fail
        }),
{
}

/// A broadcast is counted once, as gone out or as failed, around the register's end,
/// and touches nothing else.
pub proof fn law_broadcast_is_counted_once(b: BroadcasterView, ok: bool)
    ensures
        ({
            let t = b.after_broadcast(ok);
            &&& t.peers == b.peers
            &&& t.stats.hellos_rx == b.stats.hellos_rx
            &&& t.stats.peer_count == b.stats.peer_count
            &&& ok ==> t.stats.tx_fail == b.stats.tx_fail
            &&& !ok ==> t.stats.tx_ok == b.stats.tx_ok
            &&& ok && b.stats.tx_ok < u32::MAX ==> t.stats.tx_ok == b.stats.tx_ok + 1
            &&& ok && b.stats.tx_ok == u32::MAX ==> t.stats.tx_ok == 0
            &&& !ok && b.stats.tx_fail < u32::MAX ==> t.stats.tx_fail == b.stats.tx_fail + 1
            &&& !ok && b.stats.tx_fail == u32::MAX ==> t.stats.tx_fail == 0
        }),
{
}

} // verus!
