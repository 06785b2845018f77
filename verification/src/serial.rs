//! Which serial port the dongle is on.

use vstd::prelude::*;

verus! {

/// How the names of the dongle's ports begin.
pub const DONGLE_PREFIX: &'static str = "/dev/cu.usbmodem";

/// The name of a port that a dongle may be on.
pub open spec fn is_dongle(name: Seq<char>) -> bool {
    DONGLE_PREFIX@.is_prefix_of(name)
}

/// The first port that a dongle may be on; without one, the first port at all.
pub open spec fn picked(names: Seq<String>, i: int) -> bool {
    &&& 0 <= i < names.len()
    &&& is_dongle(names[i]@) || i == 0 && forall|j: int|
        0 <= j < names.len() ==> !is_dongle((#[trigger] names[j])@)
    &&& forall|j: int| 0 <= j < i ==> !is_dongle((#[trigger] names[j])@)
}

/// Whether a dongle may be on the port of that name.
fn looks_like_dongle(name: &str) -> (yes: bool)
    ensures
        yes == is_dongle(name@),
{
    let n: usize = DONGLE_PREFIX.unicode_len();
    if name.unicode_len() < n {
        return false;
    }
    let mut i: usize = 0;
    while i < n
        invariant
            i <= n,
            n == DONGLE_PREFIX@.len(),
            n <= name@.len(),
            forall|j: int| 0 <= j < i ==> DONGLE_PREFIX@[j] == name@[j],
        decreases n - i,
    {
        if name.get_char(i) != DONGLE_PREFIX.get_char(i) {
            assert(name@.subrange(0, n as int)[i as int] != DONGLE_PREFIX@[i as int]);
            return false;
        }
        i = i + 1;
    }
    assert(name@.subrange(0, n as int) =~= DONGLE_PREFIX@);
    true
}

/// Which of the ports to open, by its place in the list. There is none to open only
/// when there is no port.
pub fn pick_port(names: &Vec<String>) -> (pick: Option<usize>)
    ensures
        pick is None <==> names@.len() == 0,
        pick is Some ==> picked(names@, pick->0 as int),
        pick matches Some(i) ==> {
            &&& i < names@.len()
            &&& forall|j: int|
                0 <= j < i ==> !"/dev/cu.usbmodem"@.is_prefix_of((#[trigger] names@[j])@)
            &&& i > 0 ==> "/dev/cu.usbmodem"@.is_prefix_of(names@[i as int]@)
            &&& i == 0 ==> "/dev/cu.usbmodem"@.is_prefix_of(names@[0]@) || forall|j: int|
                0 <= j < names@.len() ==> !"/dev/cu.usbmodem"@.is_prefix_of(
                    (#[trigger] names@[j])@,
                )
        },
{
    let mut i: usize = 0;
    while i < names.len()
        invariant
            i <= names.len(),
            forall|j: int| 0 <= j < i ==> !is_dongle((#[trigger] names@[j])@),
        decreases names.len() - i,
    {
        if looks_like_dongle(names[i].as_str()) {
            return Some(i);
        }
        i = i + 1;
    }
    if names.len() == 0 {
        None
    } else {
        Some(0)
    }
}

/// There is only one port to pick.
pub proof fn law_pick_is_unique(names: Seq<String>, i: int, j: int)
    requires
        picked(names, i),
        picked(names, j),
    ensures
        i == j,
{
}

} // verus!
