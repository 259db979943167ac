use beacon_scanner::beacon::Beacon;
use beacon_scanner::scanner::{build_device, parse_beacon_info, should_process_beacon, BeaconError};
use std::collections::HashMap;

fn manufacturer_data() -> Vec<u8> {
    let mut d = vec![0x02, 0x15];
    d.extend_from_slice(&[
        0xe2, 0xc5, 0x6d, 0xb5, 0xdf, 0xfb, 0x48, 0xd2, 0xb0, 0x60, 0xd0, 0xf5, 0xa7, 0x10, 0x96,
        0xe0,
    ]);
    d.extend_from_slice(&[0x00, 0x55, 0x01, 0x02, 0xc5]);
    d
}

#[test]
fn parse_beacon_info_reads_manufacturer_data() {
    let b = parse_beacon_info(76, &manufacturer_data(), -60).unwrap();
    assert_eq!(b.scanner_id, "sdf");
    assert_eq!(b.scanner_sequence_no, 0);
    assert_eq!(b.manufacturer, 76);
    assert_eq!(b.uuid, "e2c56db5-dffb-48d2-b060-d0f5a71096e0");
    assert_eq!(b.code, 256 * 0x15);
    assert_eq!(b.major, 85);
    assert_eq!(b.minor, 258);
    assert_eq!(b.calibrated_power, 0xc5 - 256);
    assert_eq!(b.rssi, -60);
    assert_eq!(b.message_type, 1);
    assert_eq!(b.power, 0);
}

#[test]
fn build_device_requires_manufacturer_76() {
    let mut m = HashMap::new();
    m.insert(75u16, manufacturer_data());
    assert!(matches!(build_device(&m, -50), Err(BeaconError::ManufacturerDataNotFound)));
}

#[test]
fn build_device_requires_enough_data() {
    let mut m = HashMap::new();
    let mut d = manufacturer_data();
    d.truncate(22);
    m.insert(76u16, d);
    assert!(matches!(build_device(&m, -50), Err(BeaconError::MinDataSize)));
}

#[test]
fn build_device_reads_beacon() {
    let mut m = HashMap::new();
    let mut d = manufacturer_data();
    d.push(0xaa);
    m.insert(76u16, d);
    let b = build_device(&m, -42).unwrap();
    assert_eq!(b.major, 85);
    assert_eq!(b.rssi, -42);
    assert_eq!(b.manufacturer, 76);
}

#[test]
fn error_messages() {
    assert_eq!(BeaconError::MinDataSize.message(), "Min data size");
    assert_eq!(BeaconError::ManufacturerDataNotFound.message(), "Manufacterer data 76 not found");
    assert_eq!(BeaconError::ParseFailed.message(), "Failed to parse info");
}

#[test]
fn only_major_85_is_processed() {
    let mut b: Beacon = parse_beacon_info(76, &manufacturer_data(), 0).unwrap();
    assert!(should_process_beacon(&b));
    b.major = 86;
    assert!(!should_process_beacon(&b));
}

#[test]
fn parse_beacon_info_at_keeps_given_time() {
    let b = beacon_scanner::scanner::parse_beacon_info_at(76, &manufacturer_data(), -60, 1234).unwrap();
    assert_eq!(b.time, 1234);
    assert_eq!(b.major, 85);
    assert_eq!(b.minor, 258);
}

#[test]
fn build_device_at_keeps_given_time() {
    let mut m = HashMap::new();
    m.insert(76u16, manufacturer_data());
    let b = beacon_scanner::scanner::build_device_at(&m, -42, 99).unwrap();
    assert_eq!(b.time, 99);
    assert_eq!(b.rssi, -42);
    let empty: HashMap<u16, Vec<u8>> = HashMap::new();
    assert!(matches!(
        beacon_scanner::scanner::build_device_at(&empty, -42, 99),
        Err(BeaconError::ManufacturerDataNotFound)
    ));
}
