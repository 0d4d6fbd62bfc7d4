use seaplane::constants::{MAX_BANK_ANGLE, MAX_SPEED, MIN_SPEED};
use seaplane::control_mapper::Controls;
use seaplane::plane_systems::{control_step, physics_step, tick};
use seaplane::resources::PlaneState;
use seaplane::vector::Vec3;
use seaplane::vehicle::{Attitude, Heading, Vehicle};
use seaplane::water_regime::TakeoffPolicy;

fn level() -> Attitude {
    Attitude { pitch: 0, yaw: 0, roll: 0 }
}

fn north(pitch: i64) -> Heading {
    Heading { pitch, forward: Vec3::new(0, 0, -1_000_000) }
}

fn north_east() -> Heading {
    Heading { pitch: 0, forward: Vec3::new(600_000, 0, -800_000) }
}

fn cruising() -> PlaneState {
    let mut state = PlaneState::new();
    state.speed = 60_000_000;
    state.bank_angle = 100_000;
    state.turn_momentum = Vec3::new(100_000, -50_000, 0);
    state
}

fn climbing_right_turn() -> Controls {
    let mut controls = Controls::released();
    controls.throttle_up = true;
    controls.roll_right = true;
    controls.pitch_up = true;
    controls.yaw_left = true;
    controls
}

fn vehicle_at(position: Vec3) -> Vehicle {
    Vehicle {
        position,
        linear_velocity: Vec3::new(1_000_000, -6_000_000, -40_000_000),
        angular_velocity: Vec3::new(1, 2, 3),
    }
}

fn drifting() -> PlaneState {
    let mut state = PlaneState::new();
    state.speed = 60_000_000;
    state.momentum = Vec3::new(1, 2, 3);
    state.turn_momentum = Vec3::new(5, 6, 7);
    state.bank_angle = 100_000;
    state.was_on_water = true;
    state.impact_bounce = 500_000;
    state
}

#[test]
fn new_state_is_the_start_of_a_run() {
    let state = PlaneState::new();
    assert_eq!(state.speed, MIN_SPEED);
    assert_eq!(state.momentum, Vec3::new(0, 0, -MIN_SPEED));
    assert_eq!(state.turn_momentum, Vec3::zero());
    assert_eq!(state.bank_angle, 0);
    assert!(!state.was_on_water);
    assert_eq!(state.impact_bounce, 0);
}

#[test]
fn controller_in_the_air() {
    let mut state = cruising();
    let mut vehicle = vehicle_at(Vec3::new(0, 20_000_000, 0));
    control_step(&climbing_right_turn(), &mut state, &mut vehicle, false, 16_667, 4_953_032);
    assert_eq!(state.speed, 60_166_670);
    assert_eq!(state.bank_angle, 100_004);
    assert_eq!(state.turn_momentum, Vec3::new(91_000, -50_749, 0));
    assert_eq!(vehicle.angular_velocity, Vec3::new(455_000, -253_745, 500_020));
    // What the controller does not own stays.
    assert_eq!(state.momentum, Vec3::new(0, 0, -MIN_SPEED));
    assert!(!state.was_on_water);
    assert_eq!(state.impact_bounce, 0);
    assert_eq!(vehicle.position, Vec3::new(0, 20_000_000, 0));
    assert_eq!(vehicle.linear_velocity, Vec3::new(1_000_000, -6_000_000, -40_000_000));
}

#[test]
fn controller_on_water_has_half_the_authority_and_levels() {
    let mut state = cruising();
    let mut vehicle = vehicle_at(Vec3::new(0, 100_000, 0));
    control_step(&climbing_right_turn(), &mut state, &mut vehicle, true, 16_667, 4_953_032);
    assert_eq!(state.speed, 60_166_670);
    assert_eq!(state.bank_angle, 74_500);
    assert_eq!(state.turn_momentum, Vec3::new(95_000, -50_156, 0));
    assert_eq!(vehicle.angular_velocity, Vec3::new(475_000, -250_780, 372_500));
}

#[test]
fn controller_without_input_levels_the_bank() {
    let mut state = cruising();
    let mut vehicle = vehicle_at(Vec3::new(0, 20_000_000, 0));
    control_step(&Controls::released(), &mut state, &mut vehicle, false, 16_667, 4_953_032);
    assert_eq!(state.speed, 60_000_000);
    assert_eq!(state.bank_angle, 98_685);
    assert_eq!(state.turn_momentum, Vec3::new(99_000, -49_254, 0));
    assert_eq!(vehicle.angular_velocity, Vec3::new(495_000, -246_270, 493_425));
}

#[test]
fn physics_in_the_air_integrates_the_momentum() {
    let mut state = PlaneState::new();
    state.speed = 40_000_000;
    state.momentum = Vec3::new(1_000_000, 2_000_000, -25_000_000);
    let mut vehicle = Vehicle {
        position: Vec3::new(10_000_000, 20_000_000, -30_000_000),
        linear_velocity: Vec3::new(1, 2, 3),
        angular_velocity: Vec3::new(4, 5, 6),
    };
    physics_step(
        &mut state,
        &mut vehicle,
        false,
        &level(),
        &north_east(),
        16_667,
        TakeoffPolicy::PitchGated,
    );
    assert_eq!(state.momentum, Vec3::new(1_460_000, 1_960_000, -25_140_000));
    assert_eq!(vehicle.linear_velocity, Vec3::new(1_460_000, 1_960_000, -25_140_000));
    assert_eq!(vehicle.angular_velocity, Vec3::new(4, 5, 6));
    assert_eq!(vehicle.position, Vec3::new(10_000_000, 20_000_000, -30_000_000));
    assert_eq!(state.speed, 40_000_000);
    assert!(!state.was_on_water);
}

#[test]
fn physics_on_a_hard_impact() {
    let mut state = PlaneState::new();
    state.speed = 50_000_000;
    let mut vehicle = vehicle_at(Vec3::new(0, 500_000, 0));
    let tilted = Attitude { pitch: 50_000, yaw: 0, roll: 0 };
    physics_step(
        &mut state,
        &mut vehicle,
        true,
        &tilted,
        &north(40_000),
        16_667,
        TakeoffPolicy::PitchGated,
    );
    assert_eq!(state.speed, 30_000_000);
    assert_eq!(state.impact_bounce, 1_920_000);
    assert!(state.was_on_water);
    assert_eq!(state.momentum, Vec3::new(0, 0, -25_100_000));
    // The velocity that is committed is the momentum.
    assert_eq!(vehicle.linear_velocity, Vec3::new(0, 0, -25_100_000));
    assert_eq!(vehicle.angular_velocity, Vec3::zero());
}

#[test]
fn physics_commits_the_sailing_velocity_on_the_tick_sailing_starts() {
    let mut state = PlaneState::new();
    state.speed = 1_000_000;
    state.was_on_water = true;
    state.impact_bounce = 150_000;
    let mut vehicle = vehicle_at(Vec3::new(0, 500_000, 0));
    physics_step(
        &mut state,
        &mut vehicle,
        true,
        &level(),
        &north_east(),
        16_667,
        TakeoffPolicy::PitchGated,
    );
    assert_eq!(state.speed, 5_000_000);
    assert_eq!(state.impact_bounce, 120_000);
    assert_eq!(state.momentum, Vec3::new(60_000, 0, -24_580_000));
    assert_eq!(vehicle.linear_velocity, Vec3::new(3_000_000, 0, -4_000_000));
    assert_eq!(vehicle.angular_velocity, Vec3::new(1, 2, 3));
}

#[test]
fn physics_resets_beyond_the_boundary() {
    let mut state = drifting();
    let mut vehicle = vehicle_at(Vec3::new(1_200_000_000, 500_000, 0));
    physics_step(
        &mut state,
        &mut vehicle,
        true,
        &level(),
        &north_east(),
        16_667,
        TakeoffPolicy::PitchGated,
    );
    assert_eq!(state.speed, MIN_SPEED);
    assert_eq!(state.bank_angle, 0);
    assert_eq!(state.momentum, Vec3::new(0, 0, -MIN_SPEED));
    assert_eq!(state.turn_momentum, Vec3::zero());
    assert_eq!(vehicle.linear_velocity, Vec3::new(0, 0, -MIN_SPEED));
    assert_eq!(vehicle.angular_velocity, Vec3::zero());
    assert_eq!(vehicle.position, Vec3::new(1_200_000_000, 500_000, 0));
    assert!(state.was_on_water);
    assert_eq!(state.impact_bounce, 400_000);
}

#[test]
fn boundary_is_measured_after_the_lift_to_the_water_line() {
    // Far under the water line the vehicle is out of bounds in the air,
    // and within bounds once water contact has lifted it.
    let position = Vec3::new(1_199_000_000, -100_000_000, 0);

    let mut state = drifting();
    let mut vehicle = vehicle_at(position);
    physics_step(
        &mut state,
        &mut vehicle,
        false,
        &level(),
        &north_east(),
        16_667,
        TakeoffPolicy::PitchGated,
    );
    assert_eq!(state.speed, MIN_SPEED);
    assert_eq!(state.bank_angle, 0);
    assert_eq!(vehicle.position, position);

    let mut state = drifting();
    let mut vehicle = vehicle_at(position);
    physics_step(
        &mut state,
        &mut vehicle,
        true,
        &level(),
        &north_east(),
        16_667,
        TakeoffPolicy::PitchGated,
    );
    assert_eq!(state.speed, 57_000_000);
    assert_eq!(state.bank_angle, 100_000);
    assert_eq!(state.turn_momentum, Vec3::new(5, 6, 7));
    assert_eq!(state.momentum, Vec3::new(684_000, 1, -911_998));
    assert_eq!(vehicle.position, Vec3::new(1_199_000_000, 100_000, 0));
    assert_eq!(vehicle.linear_velocity, Vec3::new(684_000, 1, -911_998));
}

#[test]
fn tick_is_the_controller_followed_by_the_physics() {
    let mut state = cruising();
    let mut vehicle = Vehicle {
        position: Vec3::new(0, 20_000_000, 0),
        linear_velocity: Vec3::new(0, 0, -25_000_000),
        angular_velocity: Vec3::zero(),
    };
    tick(
        &mut state,
        &mut vehicle,
        &climbing_right_turn(),
        false,
        &level(),
        &north(0),
        16_667,
        4_953_032,
        TakeoffPolicy::PitchGated,
    );
    assert_eq!(state.speed, 60_166_670);
    assert_eq!(state.bank_angle, 100_004);
    assert_eq!(state.turn_momentum, Vec3::new(91_000, -50_749, 0));
    assert_eq!(state.momentum, Vec3::new(0, 0, -25_703_333));
    assert_eq!(vehicle.linear_velocity, Vec3::new(0, 0, -25_703_333));
    assert_eq!(vehicle.angular_velocity, Vec3::new(455_000, -253_745, 500_020));

    let mut stepwise = cruising();
    let mut body = Vehicle {
        position: Vec3::new(0, 20_000_000, 0),
        linear_velocity: Vec3::new(0, 0, -25_000_000),
        angular_velocity: Vec3::zero(),
    };
    control_step(&climbing_right_turn(), &mut stepwise, &mut body, false, 16_667, 4_953_032);
    physics_step(
        &mut stepwise,
        &mut body,
        false,
        &level(),
        &north(0),
        16_667,
        TakeoffPolicy::PitchGated,
    );
    assert_eq!(stepwise, state);
    assert_eq!(body, vehicle);
}

#[test]
fn bank_and_speed_stay_in_range_over_a_flight() {
    let mut state = PlaneState::new();
    let mut vehicle = Vehicle {
        position: Vec3::new(0, 20_000_000, 0),
        linear_velocity: Vec3::new(0, 0, -25_000_000),
        angular_velocity: Vec3::zero(),
    };
    let mut controls = Controls::released();
    for step in 0..3_000 {
        controls.throttle_up = step % 700 < 400;
        controls.throttle_down = step % 500 >= 400;
        controls.roll_left = step % 300 < 100;
        controls.roll_right = step % 300 >= 200;
        let dt: u32 = if step % 7 == 0 { 100_000 } else { 16_667 };
        tick(
            &mut state,
            &mut vehicle,
            &controls,
            false,
            &level(),
            &north(0),
            dt,
            1_000_000,
            TakeoffPolicy::PitchGated,
        );
        assert!(-MAX_BANK_ANGLE <= state.bank_angle && state.bank_angle <= MAX_BANK_ANGLE);
        assert!(MIN_SPEED <= state.speed && state.speed <= MAX_SPEED);
    }
}

#[test]
fn at_rest_on_water_bank_and_bounce_decay_to_zero() {
    let expected_banks: [i64; 40] = [
        223_498, 166_504, 124_044, 92_412, 68_846, 51_289, 38_210, 28_466, 21_207, 15_799,
        11_770, 8_768, 6_532, 4_866, 3_625, 2_700, 2_011, 1_498, 1_116, 831, 619, 461, 343, 255,
        189, 140, 104, 77, 57, 42, 31, 23, 17, 12, 8, 5, 3, 2, 1, 0,
    ];
    let expected_bounces: [i64; 14] = [
        1_600_000, 1_280_000, 1_024_000, 819_200, 655_360, 524_288, 419_430, 335_544, 268_435,
        214_748, 171_798, 137_438, 109_950, 0,
    ];
    let mut state = PlaneState::new();
    state.speed = 30_000_000;
    state.bank_angle = 300_000;
    state.was_on_water = true;
    state.impact_bounce = 2_000_000;
    let mut vehicle = Vehicle {
        position: Vec3::new(0, 500_000, 0),
        linear_velocity: Vec3::zero(),
        angular_velocity: Vec3::zero(),
    };
    for step in 0..60 {
        let before = state;
        vehicle.linear_velocity = Vec3::zero();
        tick(
            &mut state,
            &mut vehicle,
            &Controls::released(),
            true,
            &level(),
            &north(0),
            16_667,
            1_000_000,
            TakeoffPolicy::PitchGated,
        );
        assert!(0 <= state.bank_angle && state.bank_angle <= before.bank_angle);
        assert!(0 <= state.impact_bounce && state.impact_bounce <= before.impact_bounce);
        if step < 40 {
            assert_eq!(state.bank_angle, expected_banks[step]);
        } else {
            assert_eq!(state.bank_angle, 0);
        }
        if step < 14 {
            assert_eq!(state.impact_bounce, expected_bounces[step]);
        } else {
            assert_eq!(state.impact_bounce, 0);
        }
    }
}

#[test]
fn at_rest_a_negative_bank_rises_to_zero_and_not_past_it() {
    let mut state = PlaneState::new();
    state.bank_angle = -300_000;
    state.was_on_water = true;
    let mut vehicle = Vehicle {
        position: Vec3::new(0, 500_000, 0),
        linear_velocity: Vec3::zero(),
        angular_velocity: Vec3::zero(),
    };
    for _ in 0..60 {
        let before = state.bank_angle;
        tick(
            &mut state,
            &mut vehicle,
            &Controls::released(),
            true,
            &level(),
            &north(0),
            50_000,
            1_000_000,
            TakeoffPolicy::PitchGated,
        );
        assert!(before <= state.bank_angle && state.bank_angle <= 0);
    }
    assert_eq!(state.bank_angle, 0);
}

#[test]
fn sustained_contact_is_no_second_impact() {
    let mut state = PlaneState::new();
    state.speed = 50_000_000;
    let falling = Vehicle {
        position: Vec3::new(0, 500_000, 0),
        linear_velocity: Vec3::new(0, -6_000_000, -40_000_000),
        angular_velocity: Vec3::zero(),
    };

    let mut vehicle = falling;
    tick(
        &mut state,
        &mut vehicle,
        &Controls::released(),
        true,
        &level(),
        &north(0),
        16_667,
        1_000_000,
        TakeoffPolicy::PitchGated,
    );
    assert!(state.was_on_water);
    assert_eq!(state.speed, 30_000_000);
    assert_eq!(state.impact_bounce, 1_920_000);

    // The same fall on the next tick of contact bounces and slows no more.
    let mut vehicle = falling;
    tick(
        &mut state,
        &mut vehicle,
        &Controls::released(),
        true,
        &level(),
        &north(0),
        16_667,
        1_000_000,
        TakeoffPolicy::PitchGated,
    );
    assert_eq!(state.speed, 28_500_000);
    assert_eq!(state.impact_bounce, 1_536_000);

    // After a tick in the air, contact is an impact again.
    let mut vehicle = falling;
    tick(
        &mut state,
        &mut vehicle,
        &Controls::released(),
        false,
        &level(),
        &north(0),
        16_667,
        1_000_000,
        TakeoffPolicy::PitchGated,
    );
    assert!(!state.was_on_water);
    assert_eq!(state.speed, 28_500_000);
    assert_eq!(state.impact_bounce, 1_536_000);
    let mut vehicle = falling;
    tick(
        &mut state,
        &mut vehicle,
        &Controls::released(),
        true,
        &level(),
        &north(0),
        16_667,
        1_000_000,
        TakeoffPolicy::PitchGated,
    );
    assert_eq!(state.speed, 17_100_000);
    assert_eq!(state.impact_bounce, 1_920_000);
}
