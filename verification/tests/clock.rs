use beacon_scanner::clock::{current_time_nanos, nanos_from_reading};

#[test]
fn clock_reading_keeps_its_side_of_the_epoch() {
    assert_eq!(nanos_from_reading(true, 5), 5);
    assert_eq!(nanos_from_reading(false, 5), -5);
    assert_eq!(nanos_from_reading(false, 0), 0);
}

#[test]
fn current_time_is_after_2020() {
    assert!(current_time_nanos() > 1_577_836_800_000 * 1_000_000);
}
