use seaplane::bank_model::{auto_level, bank_resistance_exponent};
use seaplane::components::Cloud;
use seaplane::constants::{MAX_BANK_ANGLE, MAX_SPEED};
use seaplane::fixed::{is_within, LIMIT};
use seaplane::guarantees::{LONGEST_BOUNDED_TICK, LONGEST_DECAYING_TICK};
use seaplane::resources::{PlaneState, STATE_LIMIT};
use seaplane::vector::Vec3;
use seaplane::vehicle::{Attitude, Heading, Vehicle};

#[test]
fn within_includes_both_ends() {
    assert!(is_within(5, 5));
    assert!(is_within(-5, 5));
    assert!(!is_within(6, 5));
    assert!(!is_within(-6, 5));
    assert!(is_within(0, 0));
    assert!(!is_within(i64::MIN, i64::MAX));
}

#[test]
fn vector_bound_holds_of_every_component() {
    assert!(Vec3::new(LIMIT, -LIMIT, 0).is_bounded(LIMIT));
    assert!(!Vec3::new(LIMIT + 1, 0, 0).is_bounded(LIMIT));
    assert!(!Vec3::new(0, -LIMIT - 1, 0).is_bounded(LIMIT));
    assert!(!Vec3::new(0, 0, LIMIT + 1).is_bounded(LIMIT));
}

#[test]
fn new_state_is_well_formed() {
    assert!(PlaneState::new().is_well_formed());
}

#[test]
fn state_outside_its_ranges_is_not_well_formed() {
    let mut state = PlaneState::new();
    state.speed = MAX_SPEED + 1;
    assert!(!state.is_well_formed());
    state.speed = -1;
    assert!(!state.is_well_formed());
    state.speed = 0;
    assert!(state.is_well_formed());

    state.impact_bounce = -1;
    assert!(!state.is_well_formed());
    state.impact_bounce = STATE_LIMIT;
    assert!(state.is_well_formed());

    state.bank_angle = STATE_LIMIT + 1;
    assert!(!state.is_well_formed());
    state.bank_angle = -STATE_LIMIT;
    assert!(state.is_well_formed());

    state.momentum = Vec3::new(0, STATE_LIMIT + 1, 0);
    assert!(!state.is_well_formed());
    state.momentum = Vec3::zero();
    state.turn_momentum = Vec3::new(0, 0, -STATE_LIMIT - 1);
    assert!(!state.is_well_formed());
}

#[test]
fn vehicle_attitude_and_heading_are_held_to_the_limit() {
    let mut vehicle = Vehicle {
        position: Vec3::new(LIMIT, 0, 0),
        linear_velocity: Vec3::new(0, -LIMIT, 0),
        angular_velocity: Vec3::new(i64::MAX, i64::MIN, 0),
    };
    assert!(vehicle.is_well_formed());
    vehicle.position.z = LIMIT + 1;
    assert!(!vehicle.is_well_formed());

    assert!(Attitude { pitch: LIMIT, yaw: -LIMIT, roll: 0 }.is_well_formed());
    assert!(!Attitude { pitch: 0, yaw: 0, roll: LIMIT + 1 }.is_well_formed());

    assert!(Heading { pitch: -LIMIT, forward: Vec3::new(0, 0, -1_000_000) }.is_well_formed());
    assert!(!Heading { pitch: 0, forward: Vec3::new(0, LIMIT + 1, 0) }.is_well_formed());
    assert!(!Heading { pitch: LIMIT + 1, forward: Vec3::zero() }.is_well_formed());
}

#[test]
fn cloud_speed_is_not_negative() {
    assert!(Cloud { speed: 0 }.is_well_formed());
    assert!(Cloud { speed: LIMIT }.is_well_formed());
    assert!(!Cloud { speed: -1 }.is_well_formed());
    assert!(!Cloud { speed: LIMIT + 1 }.is_well_formed());
}

#[test]
fn resistance_exponent_is_sixteen_times_the_bank() {
    assert_eq!(bank_resistance_exponent(0), 0);
    assert_eq!(bank_resistance_exponent(100_000), 1_600_000);
    assert_eq!(bank_resistance_exponent(-100_000), 1_600_000);
    assert_eq!(bank_resistance_exponent(MAX_BANK_ANGLE), 5_585_040);
}

#[test]
fn longest_bounded_tick_keeps_the_bank_in_range() {
    let after = auto_level(MAX_BANK_ANGLE, 0, true, LONGEST_BOUNDED_TICK);
    assert!(-MAX_BANK_ANGLE <= after && after <= MAX_BANK_ANGLE);
    assert_eq!(after, -349_059);
    // Two microseconds more, and the bank has left the range.
    let beyond = auto_level(MAX_BANK_ANGLE, 0, true, LONGEST_BOUNDED_TICK + 2);
    assert_eq!(beyond, -349_070);
}

#[test]
fn longest_decaying_tick_keeps_the_sign_of_the_bank() {
    assert_eq!(auto_level(MAX_BANK_ANGLE, 0, true, LONGEST_DECAYING_TICK), 2);
    assert_eq!(auto_level(-MAX_BANK_ANGLE, 0, true, LONGEST_DECAYING_TICK), -2);
    assert_eq!(auto_level(MAX_BANK_ANGLE, 0, true, LONGEST_DECAYING_TICK + 1), -2);
}
