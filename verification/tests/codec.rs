use beacon_scanner::beacon::{mystoi, Beacon, VERSION};

fn sample_beacon() -> Beacon {
    Beacon {
        scanner_id: "ab".to_string(),
        uuid: "é".to_string(),
        scanner_sequence_no: 9,
        code: 0x0102,
        manufacturer: -1,
        major: 85,
        minor: 7,
        power: 0,
        calibrated_power: -59,
        rssi: -70,
        message_type: 1,
        time: 0x0102_0304_0506_0708i128 * 1_000_000 + 999_999,
    }
}

#[test]
fn to_byte_message_writes_every_field_big_endian() {
    let bytes = sample_beacon().to_byte_message();
    let expected: Vec<u8> = vec![
        0, 0, 0, 5, // version
        b'a', b'b', // scanner id, no length prefix
        0xc3, 0xa9, // uuid "é" in UTF-8
        0, 0, 1, 2, // code
        0xff, 0xff, 0xff, 0xff, // manufacturer
        0, 0, 0, 85, // major
        0, 0, 0, 7, // minor
        0, 0, 0, 0, // power
        0xff, 0xff, 0xff, 0xc5, // calibrated power
        0xff, 0xff, 0xff, 0xba, // rssi
        1, 2, 3, 4, 5, 6, 7, 8, // time
        0, 0, 0, 1, // message type
    ];
    assert_eq!(bytes, expected);
    assert_eq!(bytes.len(), 44 + 2 + 2);
}

#[test]
fn written_message_starts_with_accepted_version() {
    let mut b = sample_beacon();
    b.scanner_id = String::new();
    b.uuid = String::new();
    let bytes = b.to_byte_message();
    assert_eq!(&bytes[0..4], &VERSION.to_be_bytes());
}

fn message(scanner_id: &[u8], uuid: &[u8], ints: [i32; 9], time: u64) -> Vec<u8> {
    let mut m = Vec::new();
    m.extend_from_slice(&5i32.to_be_bytes());
    m.extend_from_slice(&(scanner_id.len() as u32).to_be_bytes());
    m.extend_from_slice(scanner_id);
    m.extend_from_slice(&(uuid.len() as u32).to_be_bytes());
    m.extend_from_slice(uuid);
    for v in ints.iter() {
        m.extend_from_slice(&v.to_be_bytes());
    }
    m.extend_from_slice(&time.to_be_bytes());
    m
}

#[test]
fn from_byte_message_reads_fields_in_order() {
    let m = message(b"scanner-1", b"uuid", [1, 2, 3, 4, 5, -6, -7, 8, 9], 1_600_000_000_123);
    let b = Beacon::from_byte_message(&m, m.len()).unwrap();
    assert_eq!(b.scanner_id, "scanner-1");
    assert_eq!(b.uuid, "uuid");
    assert_eq!(b.scanner_sequence_no, 0);
    assert_eq!(b.code, 1);
    assert_eq!(b.manufacturer, 2);
    assert_eq!(b.major, 3);
    assert_eq!(b.minor, 4);
    assert_eq!(b.power, 5);
    assert_eq!(b.calibrated_power, -6);
    assert_eq!(b.rssi, -7);
    assert_eq!(b.message_type, 8);
    assert_eq!(b.time, 1_600_000_000_123 * 1_000_000);
}

#[test]
fn from_byte_message_ignores_bytes_past_length() {
    let mut m = message(b"", b"", [0; 9], 42);
    let len = m.len();
    m.extend_from_slice(&[0xde, 0xad]);
    let b = Beacon::from_byte_message(&m, len).unwrap();
    assert_eq!(b.time, 42_000_000);
}

#[test]
fn from_byte_message_refuses_other_versions() {
    let mut m = message(b"x", b"y", [0; 9], 0);
    m[3] = 4;
    assert!(Beacon::from_byte_message(&m, m.len()).is_err());
    let short = [0u8, 0, 0, 6];
    assert!(Beacon::from_byte_message(&short, 4).is_err());
}

#[test]
fn mystoi_reads_hex_and_falls_back_to_zero() {
    assert_eq!(mystoi("1A", 16), 26);
    assert_eq!(mystoi("ff", 16), 255);
    assert_eq!(mystoi("-1f", 16), -31);
    assert_eq!(mystoi("+7F", 16), 127);
    assert_eq!(mystoi("", 16), 0);
    assert_eq!(mystoi("-", 16), 0);
    assert_eq!(mystoi("zz", 16), 0);
    assert_eq!(mystoi(" 1A", 16), 0);
    assert_eq!(mystoi("80000000", 16), 0);
    assert_eq!(mystoi("-80000000", 16), i32::MIN);
    assert_eq!(mystoi("zz", 36), 1295);
    assert_eq!(mystoi("101", 2), 5);
}

#[test]
fn from_byte_message_decodes_utf8_strings() {
    let id = "scanner-é".as_bytes();
    let m = message(id, "€".as_bytes(), [0; 9], 7);
    let b = Beacon::from_byte_message(&m, m.len()).unwrap();
    assert_eq!(b.scanner_id, "scanner-é");
    assert_eq!(b.uuid, "€");
    assert_eq!(b.time, 7_000_000);
}

#[test]
fn to_byte_message_of_empty_strings_is_fixed_size() {
    let b = Beacon {
        scanner_id: String::new(),
        uuid: String::new(),
        scanner_sequence_no: 0,
        code: i32::MIN,
        manufacturer: i32::MAX,
        major: 0,
        minor: 0,
        power: 0,
        calibrated_power: 0,
        rssi: 0,
        message_type: -1,
        time: (u64::MAX as i128) * 1_000_000,
    };
    let bytes = b.to_byte_message();
    assert_eq!(bytes.len(), 44);
    assert_eq!(&bytes[4..8], &[0x80, 0, 0, 0]);
    assert_eq!(&bytes[8..12], &[0x7f, 0xff, 0xff, 0xff]);
    assert_eq!(&bytes[32..40], &[0xff; 8]);
    assert_eq!(&bytes[40..44], &[0xff; 4]);
}

#[test]
fn message_ignores_scanner_sequence_number() {
    let a = sample_beacon();
    let mut b = sample_beacon();
    b.scanner_sequence_no = 12345;
    assert_eq!(a.to_byte_message(), b.to_byte_message());
}

#[test]
fn decoding_agrees_on_equal_prefixes() {
    let m1 = message(b"id", b"u", [1, 2, 3, 4, 5, 6, 7, 8, 9], 10);
    let len = m1.len();
    let mut m2 = m1.clone();
    m2.extend_from_slice(&[1, 2, 3]);
    let b1 = Beacon::from_byte_message(&m1, len).unwrap();
    let b2 = Beacon::from_byte_message(&m2, len).unwrap();
    assert_eq!(format!("{:?}", b1), format!("{:?}", b2));
}

#[test]
fn time_before_epoch_is_written_as_zero() {
    let mut a = sample_beacon();
    a.time = -1;
    let mut b = sample_beacon();
    b.time = -5_000_000_000;
    let mut c = sample_beacon();
    c.time = 999_999;
    let bytes = a.to_byte_message();
    assert_eq!(&bytes[36..44], &[0u8; 8]);
    assert_eq!(bytes, b.to_byte_message());
    assert_eq!(bytes, c.to_byte_message());
}

#[test]
fn time_is_written_in_whole_milliseconds() {
    let mut a = sample_beacon();
    a.time = 1_500_000_000_123_000_001;
    let mut b = sample_beacon();
    b.time = 1_500_000_000_123_999_999;
    assert_eq!(a.to_byte_message(), b.to_byte_message());
    let bytes = a.to_byte_message();
    assert_eq!(&bytes[36..44], &1_500_000_000_123u64.to_be_bytes());
    assert_eq!(beacon_scanner::beacon::time_field(a.time), 1_500_000_000_123);
    assert_eq!(beacon_scanner::beacon::time_field((1i128 << 64) * 1_000_000 + 7_000_000), 7);
}
