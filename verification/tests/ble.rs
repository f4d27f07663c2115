use surf_bridge::ble::{
    find_passport, is_passport, BleError, NusSession, PeripheralProperties, NUS_RX_CHAR_UUID,
    NUS_SERVICE_UUID, NUS_TX_CHAR_UUID,
};
use uuid::Uuid;

fn peripheral(address: &str, name: Option<&str>, services: &[u128]) -> Option<PeripheralProperties> {
    Some(PeripheralProperties {
        address: address.to_string(),
        local_name: name.map(|n| n.to_string()),
        services: services.to_vec(),
    })
}

#[test]
fn uuids_match_foundation_firmware() {
    assert_eq!(
        Uuid::from_u128(NUS_SERVICE_UUID).to_string(),
        "6e400001-b5a3-f393-e0a9-e50e24dcca9e"
    );
    assert_eq!(
        Uuid::from_u128(NUS_RX_CHAR_UUID).to_string(),
        "6e400002-b5a3-f393-e0a9-e50e24dcca9e"
    );
    assert_eq!(
        Uuid::from_u128(NUS_TX_CHAR_UUID).to_string(),
        "6e400003-b5a3-f393-e0a9-e50e24dcca9e"
    );
}

#[test]
fn given_address_selects_the_peripheral_in_either_case() {
    let seen = vec![
        None,
        peripheral("11:22:33:44:55:66", Some("Passport"), &[NUS_SERVICE_UUID]),
        peripheral("A1:B2:C3:D4:E5:F6", None, &[]),
    ];
    assert_eq!(find_passport(&seen, Some("a1:b2:c3:d4:e5:f6"), 10), Ok(2));
    assert_eq!(find_passport(&seen, Some("A1:b2:C3:d4:E5:f6"), 10), Ok(2));
    assert_eq!(find_passport(&seen, Some("11:22:33:44:55:66"), 10), Ok(1));
}

#[test]
fn given_address_that_nobody_has_is_not_found() {
    let seen = vec![peripheral("11:22:33:44:55:66", Some("Passport"), &[NUS_SERVICE_UUID])];
    assert_eq!(
        find_passport(&seen, Some("00:00:00:00:00:00"), 7),
        Err(BleError::NoPassport { scan_seconds: 7 })
    );
}

#[test]
fn silent_peripheral_has_no_address() {
    assert!(is_passport(&None, Some("")));
    assert!(!is_passport(&None, Some("11:22:33:44:55:66")));
    assert!(!is_passport(&None, None));
}

#[test]
fn without_address_the_first_that_advertises_nus_is_found() {
    let seen = vec![
        None,
        peripheral("1", Some("headphones"), &[NUS_RX_CHAR_UUID]),
        peripheral("2", Some("My PASSPORT Prime"), &[]),
        peripheral("3", None, &[1, NUS_SERVICE_UUID]),
        peripheral("4", Some("passport"), &[NUS_SERVICE_UUID]),
    ];
    assert_eq!(find_passport(&seen, None, 10), Ok(3));
    assert!(is_passport(&seen[4], None));
    assert!(!is_passport(&seen[1], None));
    assert!(!is_passport(&seen[2], None));
}

#[test]
fn name_alone_makes_no_passport() {
    let seen = vec![peripheral("2", Some("passport"), &[])];
    assert_eq!(
        find_passport(&seen, None, 10),
        Err(BleError::NoPassport { scan_seconds: 10 })
    );
}

#[test]
fn nothing_seen_is_nothing_found() {
    assert_eq!(
        find_passport(&vec![], None, 10),
        Err(BleError::NoPassport { scan_seconds: 10 })
    );
}

#[test]
fn session_takes_the_first_of_each_characteristic() {
    let chars = vec![5, NUS_TX_CHAR_UUID, NUS_RX_CHAR_UUID, NUS_TX_CHAR_UUID, NUS_RX_CHAR_UUID];
    assert_eq!(NusSession::connect(&chars), Ok(NusSession { rx_char: 2, tx_char: 1 }));
}

#[test]
fn session_needs_both_characteristics() {
    assert_eq!(NusSession::connect(&vec![]), Err(BleError::RxNotFound));
    assert_eq!(NusSession::connect(&vec![NUS_TX_CHAR_UUID]), Err(BleError::RxNotFound));
    assert_eq!(NusSession::connect(&vec![NUS_RX_CHAR_UUID]), Err(BleError::TxNotFound));
}
