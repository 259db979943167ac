//! Beacons read from the manufacturer data that a Bluetooth device advertises.
use vstd::prelude::*;
use std::collections::HashMap;
use vstd::slice::slice_subrange;
use crate::beacon::Beacon;
use crate::clock::{current_time_nanos, max_duration_nanos};
use crate::uuid_text::{uuid_hyphenated_lower, uuid_text_from_slice};

verus! {

broadcast use vstd::std_specs::hash::group_hash_axioms;

/// Bytes of a uuid.
pub const UUID_SIZE: usize = 16;

/// The shortest manufacturer data that is read: code (2), uuid (16),
/// major (2), minor (2), calibrated power (1).
pub const MIN_MANUFACTURER_DATA_SIZE: usize = 2 + UUID_SIZE + 2 + 2 + 1;

/// The manufacturer whose data is read (Apple's company identifier).
pub const BEACON_MANUFACTURER: u16 = 76;

/// The major number of the beacons that the scanner reports.
pub const REPORTED_MAJOR: i32 = 85;

/// Why no beacon was built from a device.
#[derive(Debug)]
pub enum BeaconError {
    /// The manufacturer data is shorter than `MIN_MANUFACTURER_DATA_SIZE`.
    MinDataSize,
    /// The device advertises no data for `BEACON_MANUFACTURER`.
    ManufacturerDataNotFound,
    /// The manufacturer data could not be decoded.
    ParseFailed,
    /// The uuid bytes were refused by the `uuid` crate.
    InvalidUuid,
}

impl BeaconError {
    /// The text that the scanner reports for the error.
    pub fn message(&self) -> (text: String)
        ensures
            text@ == match self {
                BeaconError::MinDataSize => "Min data size"@,
                BeaconError::ManufacturerDataNotFound => "Manufacterer data 76 not found"@,
                BeaconError::ParseFailed => "Failed to parse info"@,
                BeaconError::InvalidUuid => "Invalid uuid bytes"@,
            },
    {
        match self {
            BeaconError::MinDataSize => "Min data size".to_owned(),
            BeaconError::ManufacturerDataNotFound => "Manufacterer data 76 not found".to_owned(),
            BeaconError::ParseFailed => "Failed to parse info".to_owned(),
            BeaconError::InvalidUuid => "Invalid uuid bytes".to_owned(),
        }
    }
}

/// `b` is the beacon that `parse_beacon_info` reads from `data`, sent by
/// `manufacturer` and received with signal strength `rssi`, except for its
/// time, which is the clock's.
pub open spec fn manufacturer_beacon_matches(
    b: Beacon,
    manufacturer: u16,
    data: Seq<u8>,
    rssi: i16,
) -> bool {
    &&& b.scanner_id@ == "sdf"@
    &&& b.scanner_sequence_no == 0
    &&& b.manufacturer == manufacturer
    &&& b.uuid@ == uuid_hyphenated_lower(data.subrange(2, 18))
    &&& b.code == 256 * data[1]
    &&& b.rssi == rssi
    &&& b.major == 256 * data[18] + data[19]
    &&& b.minor == 256 * data[20] + data[21]
    &&& b.message_type == 1
    &&& b.power == 0
    &&& b.calibrated_power == data[22] - 256
}

/// Reads a beacon from manufacturer data, seen at `time`: the code from
/// byte 1 (times 256), the uuid from bytes 2 to 17, major and minor as
/// big-endian pairs, and the calibrated power from byte 22, less 256.
pub fn parse_beacon_info_at(manufacturer: u16, data: &Vec<u8>, rssi: i16, time: i128) -> (res:
    Result<Beacon, BeaconError>)
    requires
        data@.len() >= MIN_MANUFACTURER_DATA_SIZE,
    ensures
        res matches Ok(b) && manufacturer_beacon_matches(b, manufacturer, data@, rssi)
            && b.time == time,
{
    let code = 256 * data[1] as i32;

    let mut index: usize = 2;

    let uuid = match uuid_text_from_slice(slice_subrange(data.as_slice(), index, index + UUID_SIZE)) {
        Ok(text) => text,
        Err(_) => return Err(BeaconError::InvalidUuid),
    };
    index = index + UUID_SIZE;

    let m0 = data[index];
    let m1 = data[index + 1];
    index = index + 2;
    let major = 256 * m0 as u16 + m1 as u16;

    let m0 = data[index];
    let m1 = data[index + 1];
    index = index + 2;
    let minor = 256 * m0 as u16 + m1 as u16;

    let calibrated_power = data[index] as i32 - 256;

    Ok(
        Beacon {
            scanner_id: "sdf".to_owned(),
            scanner_sequence_no: 0,
            manufacturer: manufacturer as i32,
            uuid: uuid,
            code: code,
            rssi: rssi as i32,
            minor: minor as i32,
            major: major as i32,
            message_type: 1,
            time: time,
            power: 0,
            calibrated_power: calibrated_power,
        },
    )
}

/// Reads a beacon from manufacturer data as `parse_beacon_info_at` does,
/// seen now: its time is the clock's.
pub fn parse_beacon_info(manufacturer: u16, data: &Vec<u8>, rssi: i16) -> (res: Result<
    Beacon,
    BeaconError,
>)
    requires
        data@.len() >= MIN_MANUFACTURER_DATA_SIZE,
    ensures
        res matches Ok(b) && manufacturer_beacon_matches(b, manufacturer, data@, rssi)
            && -max_duration_nanos() <= b.time <= max_duration_nanos(),
{
    parse_beacon_info_at(manufacturer, data, rssi, current_time_nanos())
}

/// Builds a beacon, seen at `time`, from the manufacturer data that a device
/// advertises, keyed by manufacturer, and the signal strength it was
/// received with.
pub fn build_device_at(manufacturer_data: &HashMap<u16, Vec<u8>>, rssi: i16, time: i128) -> (res: Result<
    Beacon,
    BeaconError,
>)
    ensures
        !manufacturer_data@.contains_key(BEACON_MANUFACTURER) ==> res matches Err(
            BeaconError::ManufacturerDataNotFound,
        ),
        manufacturer_data@.contains_key(BEACON_MANUFACTURER)
            && manufacturer_data@[BEACON_MANUFACTURER]@.len() < MIN_MANUFACTURER_DATA_SIZE
            ==> res matches Err(BeaconError::MinDataSize),
        manufacturer_data@.contains_key(BEACON_MANUFACTURER)
            && manufacturer_data@[BEACON_MANUFACTURER]@.len() >= MIN_MANUFACTURER_DATA_SIZE
            ==> (res matches Ok(b) && manufacturer_beacon_matches(
            b,
            BEACON_MANUFACTURER,
            manufacturer_data@[BEACON_MANUFACTURER]@,
            rssi,
        ) && b.time == time),
{
    let manufacturer_data = match manufacturer_data.get(&BEACON_MANUFACTURER) {
        Some(man_data) => {
            if man_data.len() < MIN_MANUFACTURER_DATA_SIZE {
                return Err(BeaconError::MinDataSize);
            }
            (BEACON_MANUFACTURER, man_data)
        },
        None => {
            return Err(BeaconError::ManufacturerDataNotFound);
        },
    };
    match parse_beacon_info_at(manufacturer_data.0, manufacturer_data.1, rssi, time) {
        Ok(beacon) => Ok(beacon),
        Err(_) => Err(BeaconError::ParseFailed),
    }
}


/// Builds a beacon from the manufacturer data that a device advertises,
/// keyed by manufacturer, and the signal strength it was received with, as
/// `build_device_at` does; the beacon's time is the clock's.
pub fn build_device(manufacturer_data: &HashMap<u16, Vec<u8>>, rssi: i16) -> (res: Result<
    Beacon,
    BeaconError,
>)
    ensures
        !manufacturer_data@.contains_key(BEACON_MANUFACTURER) ==> res matches Err(
            BeaconError::ManufacturerDataNotFound,
        ),
        manufacturer_data@.contains_key(BEACON_MANUFACTURER)
            && manufacturer_data@[BEACON_MANUFACTURER]@.len() < MIN_MANUFACTURER_DATA_SIZE
            ==> res matches Err(BeaconError::MinDataSize),
        manufacturer_data@.contains_key(BEACON_MANUFACTURER)
            && manufacturer_data@[BEACON_MANUFACTURER]@.len() >= MIN_MANUFACTURER_DATA_SIZE
            ==> (res matches Ok(b) && manufacturer_beacon_matches(
            b,
            BEACON_MANUFACTURER,
            manufacturer_data@[BEACON_MANUFACTURER]@,
            rssi,
        ) && -max_duration_nanos() <= b.time <= max_duration_nanos()),
{
    build_device_at(manufacturer_data, rssi, current_time_nanos())
}

/// Whether the scanner hands a beacon on: only beacons with major number
/// `REPORTED_MAJOR` are.
pub fn should_process_beacon(beacon: &Beacon) -> (r: bool)
    ensures
        r == (beacon.major == REPORTED_MAJOR),
{
    beacon.major == REPORTED_MAJOR
}

} // verus!
