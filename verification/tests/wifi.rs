//! Joining the Wi-Fi network.

use firefly::wifi::{check_credentials, connect, AccessPoint, AuthMethod, CredentialError};

fn access_point(ssid: &str, channel: u8, auth_method: Option<AuthMethod>) -> AccessPoint {
    AccessPoint { ssid: ssid.to_string(), channel, auth_method, bssid: [channel; 6] }
}

#[test]
fn credentials_that_fit() {
    assert_eq!(check_credentials("", ""), Ok(()));
    assert_eq!(check_credentials(&"s".repeat(32), &"p".repeat(64)), Ok(()));
}

#[test]
fn credentials_that_do_not_fit() {
    assert_eq!(
        check_credentials(&"s".repeat(33), "p"),
        Err(CredentialError::SsidTooLong)
    );
    assert_eq!(
        check_credentials("s", &"p".repeat(65)),
        Err(CredentialError::PasswordTooLong)
    );
    assert_eq!(
        check_credentials(&"s".repeat(33), &"p".repeat(65)),
        Err(CredentialError::SsidTooLong)
    );
    // Bytes count, not characters.
    assert_eq!(
        check_credentials(&"é".repeat(17), ""),
        Err(CredentialError::SsidTooLong)
    );
    assert_eq!(check_credentials(&"é".repeat(16), ""), Ok(()));
}

#[test]
fn the_first_access_point_of_that_name_is_joined() {
    let scan = vec![
        access_point("club", 1, Some(AuthMethod::Open)),
        access_point("booth", 11, Some(AuthMethod::Wpa2Wpa3Personal)),
        access_point("booth", 6, None),
    ];
    let plan = connect(&"booth".to_string(), "secret", &scan);
    assert_eq!(plan.auth_method, AuthMethod::Wpa2Wpa3Personal);
    assert_eq!(plan.channel, Some(11));
    assert_eq!(plan.bssid, Some([11; 6]));
}

#[test]
fn an_access_point_that_does_not_say_is_taken_for_wpa2() {
    let scan = vec![access_point("booth", 6, None)];
    let plan = connect(&"booth".to_string(), "", &scan);
    assert_eq!(plan.auth_method, AuthMethod::Wpa2Personal);
    assert_eq!(plan.channel, Some(6));
}

#[test]
fn a_network_that_the_scan_does_not_show() {
    let scan = vec![access_point("Booth", 6, Some(AuthMethod::Wep))];
    let plan = connect(&"booth".to_string(), "secret", &scan);
    assert_eq!(plan.auth_method, AuthMethod::Wpa2Personal);
    assert_eq!(plan.channel, None);
    assert_eq!(plan.bssid, None);
    let plan = connect(&"booth".to_string(), "", &Vec::new());
    assert_eq!(plan.auth_method, AuthMethod::Open);
}
