//! Joining the Wi-Fi network: which access point, and how.

use vstd::prelude::*;

verus! {

/// Bytes that a network name has at most.
pub const SSID_CAPACITY: usize = 32;

/// Bytes that a password has at most.
pub const PASSWORD_CAPACITY: usize = 64;

/// How a network lets stations in.
#[derive(Debug, Clone, Copy, PartialEq, Eq, Structural)]
pub enum AuthMethod {
    Open,
    Wep,
    Wpa,
    Wpa2Personal,
    WpaWpa2Personal,
    Wpa2Enterprise,
    Wpa3Personal,
    Wpa2Wpa3Personal,
    WapiPersonal,
}

/// An access point that a scan has found.
#[derive(Debug, Clone)]
pub struct AccessPoint {
    pub ssid: String,
    pub channel: u8,
    pub auth_method: Option<AuthMethod>,
    pub bssid: [u8; 6],
}

/// How to join.
#[derive(Debug, Clone, Copy)]
pub struct JoinPlan {
    pub auth_method: AuthMethod,
    /// The channel, when known.
    pub channel: Option<u8>,
    /// The access point's address, when known.
    pub bssid: Option<[u8; 6]>,
}

/// Credentials that do not fit the radio's configuration.
#[derive(Debug, Clone, Copy, PartialEq, Eq, Structural)]
pub enum CredentialError {
    SsidTooLong,
    PasswordTooLong,
}

/// Access point `i` is the first of the scan with that name.
pub open spec fn first_match(scan: Seq<AccessPoint>, ssid: Seq<char>, i: int) -> bool {
    &&& 0 <= i < scan.len()
    &&& scan[i].ssid@ == ssid
    &&& forall|j: int| 0 <= j < i ==> (#[trigger] scan[j]).ssid@ != ssid
}

/// The scan shows an access point of that name.
pub open spec fn found(scan: Seq<AccessPoint>, ssid: Seq<char>) -> bool {
    exists|i: int| 0 <= i < scan.len() && (#[trigger] scan[i]).ssid@ == ssid
}

/// Whether name and password fit, the name first.
pub fn check_credentials(ssid: &str, password: &str) -> (checked: Result<(), CredentialError>)
    ensures
        checked is Ok <==> vstd::utf8::encode_utf8(ssid@).len() <= 32 && vstd::utf8::encode_utf8(
            password@,
        ).len() <= 64,
        checked == (if vstd::utf8::encode_utf8(ssid@).len() > SSID_CAPACITY {
            Err(CredentialError::SsidTooLong)
        } else if vstd::utf8::encode_utf8(password@).len() > PASSWORD_CAPACITY {
            Err(CredentialError::PasswordTooLong)
        } else {
            Ok(())
        }),
{
    if ssid.as_bytes().len() > SSID_CAPACITY {
        return Err(CredentialError::SsidTooLong);
    }
    if password.as_bytes().len() > PASSWORD_CAPACITY {
        return Err(CredentialError::PasswordTooLong);
    }
    Ok(())
}

/// How to join the network `ssid`, given a scan. The first access point of that
/// name says how it lets stations in, WPA2 when it does not say, and where it is.
/// Without one, WPA2 is tried, or no protection when there is no password.
pub fn connect(ssid: &String, password: &str, scan: &Vec<AccessPoint>) -> (plan: JoinPlan)
    ensures
        forall|i: int|
            #![trigger scan@[i]]
            0 <= i < scan@.len() && scan@[i].ssid@ == ssid@ && (forall|j: int|
                0 <= j < i ==> (#[trigger] scan@[j]).ssid@ != ssid@) ==> {
                &&& scan@[i].auth_method is None ==> plan.auth_method is Wpa2Personal
                &&& scan@[i].auth_method is Some ==> plan.auth_method == scan@[i].auth_method->0
                &&& plan.channel == Some(scan@[i].channel)
                &&& plan.bssid == Some(scan@[i].bssid)
            },
        (forall|i: int| 0 <= i < scan@.len() ==> (#[trigger] scan@[i]).ssid@ != ssid@) ==> {
            &&& password@.len() == 0 ==> plan.auth_method is Open
            &&& password@.len() > 0 ==> plan.auth_method is Wpa2Personal
            &&& plan.channel is None
            &&& plan.bssid is None
        },
        forall|i: int| first_match(scan@, ssid@, i) ==> {
            &&& plan.auth_method == (match (#[trigger] scan@[i]).auth_method {
                Some(auth) => auth,
                None => AuthMethod::Wpa2Personal,
            })
            &&& plan.channel == Some(scan@[i].channel)
            &&& plan.bssid == Some(scan@[i].bssid)
        },
        !found(scan@, ssid@) ==> {
            &&& plan.auth_method == (if password@.len() == 0 {
                AuthMethod::Open
            } else {
                AuthMethod::Wpa2Personal
            })
            &&& plan.channel is None
            &&& plan.bssid is None
        },
{
    let mut i: usize = 0;
    while i < scan.len()
        invariant
            i <= scan.len(),
            forall|j: int| 0 <= j < i ==> (#[trigger] scan@[j]).ssid@ != ssid@,
        decreases scan.len() - i,
    {
        let ap: &AccessPoint = &scan[i];
        if ap.ssid == *ssid {
            return JoinPlan {
                auth_method: match ap.auth_method {
                    Some(auth) => auth,
                    None => AuthMethod::Wpa2Personal,
                },
                channel: Some(ap.channel),
                bssid: Some(ap.bssid),
            };
        }
        i = i + 1;
    }
    JoinPlan {
        auth_method: if password.is_empty() {
            AuthMethod::Open
        } else {
            AuthMethod::Wpa2Personal
        },
        channel: None,
        bssid: None,
    }
}

/// A network that the scan shows has exactly one first access point, so the plan
/// is settled by the scan either way.
pub proof fn law_first_match_is_unique(scan: Seq<AccessPoint>, ssid: Seq<char>)
    ensures
        found(scan, ssid) <==> exists|i: int| first_match(scan, ssid, i),
        forall|i: int, j: int|
            first_match(scan, ssid, i) && first_match(scan, ssid, j) ==> i == j,
    decreases scan.len(),
{
    if scan.len() > 0 && found(scan, ssid) {
        let rest = scan.drop_last();
        law_first_match_is_unique(rest, ssid);
        if found(rest, ssid) {
            let i = choose|i: int| first_match(rest, ssid, i);
            assert(first_match(scan, ssid, i)) by {
                assert forall|j: int| 0 <= j < i implies (#[trigger] scan[j]).ssid@ != ssid by {
                    assert(rest[j].ssid@ != ssid);
                }
            }
        } else {
            let last = scan.len() - 1;
            assert(first_match(scan, ssid, last)) by {
                assert forall|j: int| 0 <= j < last implies (#[trigger] scan[j]).ssid@ != ssid by {
                    assert(rest[j].ssid@ != ssid);
                }
                let k = choose|k: int| 0 <= k < scan.len() && (#[trigger] scan[k]).ssid@ == ssid;
                assert(k == last);
            }
        }
    }
}

/// The first access point of a name has that name, and none before it has; the scan
/// shows the name exactly when some access point has it.
pub proof fn law_what_the_first_match_is(scan: Seq<AccessPoint>, ssid: Seq<char>, i: int)
    requires
        0 <= i < scan.len(),
    ensures
        first_match(scan, ssid, i) <==> scan[i].ssid@ == ssid && !found(scan.take(i), ssid),
        found(scan, ssid) <== scan[i].ssid@ == ssid,
{
    if scan[i].ssid@ == ssid && !found(scan.take(i), ssid) {
        assert forall|j: int| 0 <= j < i implies (#[trigger] scan[j]).ssid@ != ssid by {
            assert(scan.take(i)[j] == scan[j]);
        }
    }
    if first_match(scan, ssid, i) && found(scan.take(i), ssid) {
        let j = choose|j: int|
            0 <= j < scan.take(i).len() && (#[trigger] scan.take(i)[j]).ssid@ == ssid;
        assert(scan[j].ssid@ == ssid);
    }
}

} // verus!
