use seaplane::resources::PlaneState;
use seaplane::ui::{is_report_due, readiness_text, status_text, take_snapshot, to_degrees,
    FlightSnapshot};
use seaplane::vector::Vec3;
use seaplane::vehicle::Attitude;

#[test]
fn degrees_from_radians() {
    assert_eq!(to_degrees(1_000_000), 57_295_780);
    assert_eq!(to_degrees(-349_065), -19_999_951);
    assert_eq!(to_degrees(3_141_593), 180_000_021);
    assert_eq!(to_degrees(0), 0);
}

#[test]
fn status_words() {
    assert_eq!(status_text(true), "ON WATER");
    assert_eq!(status_text(false), "AIRBORNE");
    assert_eq!(readiness_text(true), "YES");
    assert_eq!(readiness_text(false), "NO");
}

#[test]
fn snapshot_of_a_flight() {
    let mut state = PlaneState::new();
    state.speed = 60_166_670;
    state.bank_angle = 100_004;
    state.momentum = Vec3::new(0, 0, -25_703_333);
    state.impact_bounce = 120_000;
    let attitude = Attitude { pitch: -349_065, yaw: 3_141_593, roll: 1_000_000 };
    let shown = take_snapshot(&state, 20_000_000, true, &attitude);
    assert_eq!(
        shown,
        FlightSnapshot {
            speed: 60_166_670,
            throttle_percent: 75_208_300,
            altitude: 20_000_000,
            is_on_water: true,
            pitch_degrees: -19_999_951,
            yaw_degrees: 180_000_021,
            roll_degrees: 57_295_780,
            bank_degrees: 5_729_807,
            momentum: Vec3::new(0, 0, -25_703_333),
            impact_bounce: 120_000,
            takeoff_ready: true,
        }
    );
}

#[test]
fn snapshot_at_the_start_of_a_run() {
    let state = PlaneState::new();
    let attitude = Attitude { pitch: 0, yaw: 0, roll: 0 };
    let shown = take_snapshot(&state, 0, false, &attitude);
    assert_eq!(shown.throttle_percent, 31_250_000);
    assert!(!shown.takeoff_ready);
    assert!(!shown.is_on_water);
    assert_eq!(shown.bank_degrees, 0);
}

#[test]
fn snapshot_readiness_follows_speed_and_pitch() {
    let mut state = PlaneState::new();
    let nose_up = Attitude { pitch: -100_001, yaw: 0, roll: 0 };
    let flat = Attitude { pitch: -100_000, yaw: 0, roll: 0 };
    state.speed = 56_000_001;
    assert!(take_snapshot(&state, 0, true, &nose_up).takeoff_ready);
    assert!(!take_snapshot(&state, 0, true, &flat).takeoff_ready);
    state.speed = 56_000_000;
    assert!(!take_snapshot(&state, 0, true, &nose_up).takeoff_ready);
}

#[test]
fn report_is_due_when_a_whole_second_passes() {
    assert!(is_report_due(1_000_000, 16_667));
    assert!(!is_report_due(999_999, 16_667));
    assert!(is_report_due(1_016_666, 16_667));
    assert!(!is_report_due(1_016_667, 16_667));
    assert!(!is_report_due(1_500_000, 16_667));
    assert!(is_report_due(5_000_010, 2_500_000));
    assert!(!is_report_due(1_999_999, 0));
}

#[test]
fn report_is_due_on_a_tick_longer_than_the_run() {
    assert!(is_report_due(16_667, 16_668));
    assert!(!is_report_due(16_667, 16_667));
    assert!(is_report_due(0, 1));
    assert!(!is_report_due(0, 0));
}
