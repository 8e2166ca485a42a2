use openduckrust::reference_motion::PhaseTracker;
use openduckrust::reference_motion::load_period_from_pickle;
use openduckrust::units::RAW_UNIT_URAD;
use openduckrust::units::URAD_HALF_TURN;
use openduckrust::units::rad_to_raw;
use openduckrust::units::raw_to_rad;
use openduckrust::units::raw_to_rad_per_sec;

#[test]
fn zero_angle_maps_to_span_center() {
    assert_eq!(rad_to_raw(0), 2048);
    assert_eq!(raw_to_rad(2048), 0);
}

#[test]
fn unit_round_trip_within_resolution() {
    // One radian and assorted angles across the physical range.
    for urad in [
        1_000_000i64,
        -1_000_000,
        123_456,
        -654_321,
        URAD_HALF_TURN,
        -URAD_HALF_TURN,
        0,
        1,
        -1,
    ] {
        let raw = rad_to_raw(urad);
        let back = raw_to_rad(raw);
        let err = urad - back;
        assert!(
            0 <= err && err <= RAW_UNIT_URAD,
            "round trip of {} off by {}",
            urad,
            err
        );
    }
}

#[test]
fn out_of_range_angles_clamp() {
    // Beyond half a turn the raw value saturates.
    assert_eq!(rad_to_raw(700_000_000), 4095);
    assert_eq!(rad_to_raw(-700_000_000), 0);
}

#[test]
fn velocity_conversion_exact() {
    // One raw velocity unit is 1214.749 microradians per second.
    assert_eq!(raw_to_rad_per_sec(0), 0);
    assert_eq!(raw_to_rad_per_sec(1000), 1_214_749);
    assert_eq!(raw_to_rad_per_sec(-1000), -1_214_749);
}

#[test]
fn phase_wraps_and_returns_to_start() {
    let mut tracker = PhaseTracker::default_50hz();
    // 25 steps per period, increment 1.000 step per tick.
    for _ in 0..25 {
        let idx = tracker.step();
        assert!(0 <= idx && idx < 25_000);
    }
    // After exactly one period the phase is back at the start.
    assert_eq!(tracker.current_phase(), 0);
}

#[test]
fn sprint_speeds_up_without_resetting() {
    let mut tracker = PhaseTracker::new(25, 0);
    tracker.step();
    assert_eq!(tracker.current_phase(), 1000);
    tracker.set_sprint(true);
    tracker.step();
    // The index continues from where it was, with the faster increment.
    assert_eq!(tracker.current_phase(), 2300);
    tracker.set_sprint(false);
    tracker.step();
    assert_eq!(tracker.current_phase(), 3300);
}

#[test]
fn offset_tunes_the_increment() {
    let mut tracker = PhaseTracker::new(25, 50);
    tracker.step();
    assert_eq!(tracker.current_phase(), 1050);
    tracker.adjust_offset(-100);
    tracker.step();
    assert_eq!(tracker.current_phase(), 2000);
    tracker.reset();
    assert_eq!(tracker.current_phase(), 0);
}

#[test]
fn period_metadata_defaults() {
    assert_eq!(load_period_from_pickle(false), 25);
    assert_eq!(load_period_from_pickle(true), 25);
}
