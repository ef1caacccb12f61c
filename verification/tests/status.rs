use std::time::Duration;

use carrlink::{LapStatus, LapTime, StartSignal, TrackStatus, MAX_CONTROLLER_COUNT};

#[test]
fn controller_count_is_eight() {
    assert_eq!(MAX_CONTROLLER_COUNT, 8);
}

#[test]
fn new_lap_status_is_zero() {
    let status = LapStatus::new();
    assert_eq!(status.controller, 0);
    assert_eq!(status.sector, 0);
    assert_eq!(status.time, Duration::from_secs(0));
}

#[test]
fn new_track_status_is_cleared() {
    let status = TrackStatus::new();
    assert_eq!(status.fuel_levels, [0; 8]);
    assert_eq!(status.is_refueling, [false; 8]);
    assert_eq!(status.start_signal, StartSignal::Off);
    assert!(!status.is_fuel_enabled);
    assert!(!status.is_real_fuel_enabled);
    assert!(!status.is_pit_lane_connected);
    assert!(!status.is_lap_counter_connected);
    assert_eq!(status.controller_count, 0);
}

#[test]
fn start_signal_from_wire_number() {
    assert_eq!(StartSignal::try_from(0), Ok(StartSignal::Off));
    assert_eq!(StartSignal::try_from(1), Err(()));
    assert_eq!(StartSignal::try_from(2), Ok(StartSignal::Five));
    assert_eq!(StartSignal::try_from(3), Ok(StartSignal::Four));
    assert_eq!(StartSignal::try_from(4), Ok(StartSignal::Three));
    assert_eq!(StartSignal::try_from(5), Ok(StartSignal::Two));
    assert_eq!(StartSignal::try_from(6), Ok(StartSignal::One));
    assert_eq!(StartSignal::try_from(7), Ok(StartSignal::Go));
    for v in 8..=255u8 {
        assert_eq!(StartSignal::try_from(v), Err(()));
    }
}

#[test]
fn start_signal_round_trips_through_its_number() {
    for signal in [
        StartSignal::Off,
        StartSignal::Five,
        StartSignal::Four,
        StartSignal::Three,
        StartSignal::Two,
        StartSignal::One,
        StartSignal::Go,
    ] {
        assert_eq!(StartSignal::try_from(signal.code()), Ok(signal));
    }
    assert_eq!(StartSignal::Off.code(), 0);
    assert_eq!(StartSignal::Five.code(), 2);
    assert_eq!(StartSignal::Go.code(), 7);
}

#[test]
fn lap_times_differ_by_a_duration() {
    let start = LapTime::from_millis(1_500);
    let end = LapTime::from_millis(64_250);
    assert_eq!(end - start, Duration::from_millis(62_750));
    assert_eq!(start - start, Duration::from_millis(0));
}

#[test]
fn lap_time_moves_by_a_duration() {
    let start = LapTime::from_millis(1_500);
    let later = start + Duration::from_millis(250);
    assert_eq!(later - start, Duration::from_millis(250));
    let earlier = later - Duration::from_secs(1);
    assert_eq!(earlier - LapTime::from_millis(0), Duration::from_millis(750));
}

#[test]
fn lap_time_counts_whole_milliseconds_only() {
    let start = LapTime::from_millis(10);
    let later = start + Duration::from_micros(2_999);
    assert_eq!(later - start, Duration::from_millis(2));
}

#[test]
fn lap_time_keeps_the_low_32_bits_of_a_duration() {
    let start = LapTime::from_millis(10);
    let later = start + Duration::from_millis(0x1_0000_0005);
    assert_eq!(later - start, Duration::from_millis(5));
    let top = LapTime::from_millis(u32::MAX) - Duration::from_millis(u32::MAX as u64);
    assert_eq!(top - LapTime::from_millis(0), Duration::from_millis(0));
}

#[test]
fn checked_add_gives_the_sum_or_nothing() {
    let start = LapTime::from_millis(u32::MAX - 10);
    let later = start.checked_add(Duration::from_millis(10)).unwrap();
    assert_eq!(later - start, Duration::from_millis(10));
    assert!(start.checked_add(Duration::from_millis(11)).is_none());
    // Of the duration the low 32 bits of its milliseconds count.
    let wrapped = start.checked_add(Duration::from_millis(0x1_0000_0003)).unwrap();
    assert_eq!(wrapped - start, Duration::from_millis(3));
    let same = LapTime::from_millis(7).checked_add(Duration::from_micros(999)).unwrap();
    assert_eq!(same - LapTime::from_millis(7), Duration::from_millis(0));
}

#[test]
fn checked_sub_gives_the_difference_or_nothing() {
    let start = LapTime::from_millis(10);
    let earlier = start.checked_sub(Duration::from_millis(10)).unwrap();
    assert_eq!(start - earlier, Duration::from_millis(10));
    assert!(start.checked_sub(Duration::from_millis(11)).is_none());
    let wrapped = start.checked_sub(Duration::from_millis(0x1_0000_0004)).unwrap();
    assert_eq!(start - wrapped, Duration::from_millis(4));
}
