use seaplane::bank_model::{angular_velocity, auto_level, bank_after_tick, base_roll_sensitivity,
    control_share, levelling_rate, resist, roll_bank, roll_sensitivity_at, smooth_turn,
    turn_target};
use seaplane::constants::{MAX_BANK_ANGLE, MAX_SPEED, MIN_SPEED};
use seaplane::vector::Vec3;

#[test]
fn roll_authority_grows_with_speed() {
    assert_eq!(base_roll_sensitivity(MIN_SPEED), 100_000);
    assert_eq!(base_roll_sensitivity(52_500_000), 150_000);
    assert_eq!(base_roll_sensitivity(MAX_SPEED), 200_000);
}

#[test]
fn roll_authority_under_the_minimum_speed_is_that_of_the_minimum() {
    assert_eq!(base_roll_sensitivity(10_000_000), 100_000);
    assert_eq!(base_roll_sensitivity(0), 100_000);
}

#[test]
fn resistance_divides_by_its_fourth_power() {
    assert_eq!(resist(200_000, 1_000_000), 200_000);
    assert_eq!(resist(200_000, 2_000_000), 12_500);
    assert_eq!(resist(100_000, 1_500_000), 19_753);
    assert_eq!(resist(200_000, 21_000_000), 1);
    assert_eq!(resist(200_000, 22_000_000), 0);
    assert_eq!(resist(200_000, 266_000_000), 0);
    assert_eq!(resist(200_000, i64::MAX), 0);
    assert_eq!(resist(0, 1_000_000), 0);
}

#[test]
fn deepening_is_resisted_and_recovering_is_strengthened() {
    // Banked right, rolling right: resisted.
    assert_eq!(roll_sensitivity_at(MAX_SPEED, 1, 100_000, 2_000_000), 12_500);
    // Banked left, rolling left: resisted.
    assert_eq!(roll_sensitivity_at(MAX_SPEED, -1, -100_000, 2_000_000), 12_500);
    // Banked right, rolling left: sixteen times the base.
    assert_eq!(roll_sensitivity_at(MAX_SPEED, -1, 100_000, 2_000_000), 3_200_000);
    // Banked left, rolling right: sixteen times the base.
    assert_eq!(roll_sensitivity_at(52_500_000, 1, -1, 5_000_000), 2_400_000);
}

#[test]
fn a_level_bank_counts_as_banked_to_the_positive_side() {
    assert_eq!(roll_sensitivity_at(52_500_000, 1, 0, 1_000_000), 150_000);
    assert_eq!(roll_sensitivity_at(52_500_000, -1, 0, 1_000_000), 2_400_000);
    assert_eq!(roll_sensitivity_at(52_500_000, 0, 0, 1_000_000), 150_000);
    assert_eq!(roll_sensitivity_at(52_500_000, 0, -5, 1_000_000), 2_400_000);
}

#[test]
fn control_is_halved_in_water_contact() {
    assert_eq!(control_share(false), 1_000_000);
    assert_eq!(control_share(true), 500_000);
}

#[test]
fn roll_moves_the_bank_and_holds_it_within_twenty_degrees() {
    assert_eq!(roll_bank(0, 1, 200_000, 16_667, false), 3_333);
    assert_eq!(roll_bank(0, -1, 200_000, 16_667, false), -3_333);
    assert_eq!(roll_bank(0, 1, 200_000, 16_667, true), 1_666);
    assert_eq!(roll_bank(5_000, 0, 200_000, 16_667, false), 5_000);
    assert_eq!(roll_bank(349_000, 1, 3_200_000, 16_667, false), MAX_BANK_ANGLE);
    assert_eq!(roll_bank(-349_000, -1, 3_200_000, 1_000_000, false), -MAX_BANK_ANGLE);
    assert_eq!(roll_bank(900_000, 0, 0, 16_667, false), MAX_BANK_ANGLE);
    assert_eq!(roll_bank(-900_000, 0, 0, 16_667, false), -MAX_BANK_ANGLE);
}

#[test]
fn levelling_rate_is_fixed_on_water_and_grows_with_the_bank_in_the_air() {
    assert_eq!(levelling_rate(0, true), 15_300_000);
    assert_eq!(levelling_rate(300_000, true), 15_300_000);
    assert_eq!(levelling_rate(0, false), 720_000);
    assert_eq!(levelling_rate(MAX_BANK_ANGLE, false), 959_998);
    assert_eq!(levelling_rate(-200_000, false), 857_509);
}

#[test]
fn levelling_acts_without_roll_input_or_on_water() {
    assert_eq!(auto_level(300_000, 0, false, 16_667), 295_368);
    assert_eq!(auto_level(-300_000, 0, false, 16_667), -295_368);
    assert_eq!(auto_level(300_000, 1, false, 16_667), 300_000);
    assert_eq!(auto_level(300_000, -1, false, 16_667), 300_000);
    assert_eq!(auto_level(300_000, 1, true, 16_667), 223_498);
    assert_eq!(auto_level(300_000, 0, true, 16_667), 223_498);
}

#[test]
fn levelling_over_a_long_tick_carries_the_bank_past_zero() {
    // On water a share of one is reached after 65 359 microseconds.
    assert_eq!(auto_level(300_000, 0, true, 65_359), 2);
    assert_eq!(auto_level(300_000, 0, true, 65_360), -2);
    assert_eq!(auto_level(300_000, 0, true, 100_000), -159_000);
    // After two tenths of a second the bank has left the twenty degrees.
    assert_eq!(auto_level(300_000, 0, true, 200_000), -618_000);
}

#[test]
fn bank_after_one_tick() {
    assert_eq!(bank_after_tick(0, MIN_SPEED, 1, false, 16_667, 1_000_000), 1_666);
    assert_eq!(bank_after_tick(100_000, MAX_SPEED, -1, false, 16_667, 4_953_032), 46_666);
    assert_eq!(bank_after_tick(100_000, MAX_SPEED, 1, false, 16_667, 4_953_032), 100_005);
}

#[test]
fn bank_stays_within_twenty_degrees_under_a_held_roll() {
    let mut bank: i64 = 0;
    for _ in 0..2_000 {
        // The resistance is left at one, the weakest there is.
        bank = bank_after_tick(bank, MAX_SPEED, 1, false, 16_667, 1_000_000);
        assert!(-MAX_BANK_ANGLE <= bank && bank <= MAX_BANK_ANGLE);
    }
    assert_eq!(bank, MAX_BANK_ANGLE);
    for _ in 0..2_000 {
        bank = bank_after_tick(bank, MAX_SPEED, -1, true, 16_667, 1_000_000);
        assert!(-MAX_BANK_ANGLE <= bank && bank <= MAX_BANK_ANGLE);
    }
}

#[test]
fn turn_target_combines_pitch_yaw_and_bank() {
    assert_eq!(turn_target(200_000, -1, 1, false), Vec3::new(-800_000, 200_000, 0));
    assert_eq!(turn_target(200_000, -1, 1, true), Vec3::new(-400_000, 100_000, 0));
    assert_eq!(turn_target(-349_065, 1, -1, false), Vec3::new(800_000, -237_266, 0));
    assert_eq!(turn_target(0, 0, 0, false), Vec3::zero());
}

#[test]
fn turn_momentum_takes_a_hundredth_of_the_target() {
    let before = Vec3::new(100_000, -50_000, 0);
    let target = Vec3::new(-800_000, 200_000, 0);
    assert_eq!(smooth_turn(&before, &target), Vec3::new(91_000, -47_500, 0));
}

#[test]
fn angular_velocity_is_five_times_the_turn_state() {
    let turn = Vec3::new(91_000, -47_500, 123);
    assert_eq!(angular_velocity(&turn, 46_666), Vec3::new(455_000, -237_500, 233_330));
}
