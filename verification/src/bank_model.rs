//! The bank and turn model: integrates the roll intent into the bank angle
//! against a resistance that grows with the bank, levels the bank on its own,
//! and derives the smoothed turn rates from bank, pitch and yaw.

use crate::constants::{ANGULAR_GAIN, AUTO_LEVEL_SPEED, BANK_TURN_RATIO, BASE_ROLL_SENSITIVITY,
    LEVEL_REFERENCE_ANGLE, MAX_BANK_ANGLE, MAX_SPEED, MIN_SPEED, PITCH_SENSITIVITY,
    RECOVERY_GAIN, RESISTANCE_RATE, TURN_MOMENTUM, TURN_SPEED, WATER_CONTROL, WATER_LEVEL_SPEED,
    YAW_SENSITIVITY};
use crate::fixed::{abs_value, clamp, clamp_to, direction, divide, lemma_product_bounded,
    lemma_product_shrinks, magnitude, multiply, product, ratio, within, SCALE};
use crate::resources::STATE_LIMIT;
use crate::vector::{lemma_blend_component, Triple, Vec3};
use vstd::prelude::*;

verus! {

/// Share of the rotational authority that is available: half in water
/// contact, all of it in the air.
pub open spec fn control_multiplier(on_water: bool) -> int {
    if on_water {
        WATER_CONTROL as int
    } else {
        SCALE as int
    }
}

/// Position of `speed` between the minimum and the maximum speed, held
/// between zero and one.
pub open spec fn speed_factor(speed: int) -> int {
    clamp(ratio(speed - MIN_SPEED, MAX_SPEED - MIN_SPEED), 0, SCALE as int)
}

/// Roll authority at `speed`: half of the base sensitivity at minimum speed,
/// all of it at maximum speed.
pub open spec fn base_sensitivity(speed: int) -> int {
    product(BASE_ROLL_SENSITIVITY as int, 500_000 + product(speed_factor(speed), 500_000))
}

/// Exponent of the bank resistance at a bank angle: sixteen times the
/// magnitude of the bank. The resistance is the exponential of it.
pub open spec fn resistance_exponent(bank: int) -> int {
    product(magnitude(bank), RESISTANCE_RATE as int)
}

/// `base` divided by the fourth power of `resistance`, rounded once.
pub open spec fn resisted(base: int, resistance: int) -> int {
    (base * (SCALE * SCALE * SCALE * SCALE)) / (resistance * resistance * resistance
        * resistance)
}

/// Roll sensitivity for a roll intent at a bank angle. A roll input in the
/// direction of the bank deepens it and is divided by the fourth power of the
/// resistance; one against the bank recovers and is strengthened. A bank of
/// zero counts as banked to the positive side.
pub open spec fn roll_sensitivity(base: int, roll: int, bank: int, resistance: int) -> int {
    if direction(roll) == direction(bank) {
        resisted(base, resistance)
    } else {
        product(base, RECOVERY_GAIN as int)
    }
}

/// Bank angle after the roll intent has acted for `dt`, held within the
/// largest bank angle.
pub open spec fn rolled(bank: int, roll: int, sensitivity: int, dt: int, on_water: bool) -> int {
    clamp(
        bank + roll * product(product(sensitivity, dt), control_multiplier(on_water)),
        -(MAX_BANK_ANGLE as int),
        MAX_BANK_ANGLE as int,
    )
}

/// Rate at which the bank levels itself: a fixed fast rate in water contact,
/// and in the air a rate that grows with the bank.
pub open spec fn level_speed(bank: int, on_water: bool) -> int {
    if on_water {
        WATER_LEVEL_SPEED as int
    } else {
        product(
            AUTO_LEVEL_SPEED as int,
            800_000 + product(ratio(magnitude(bank), LEVEL_REFERENCE_ANGLE as int), 800_000),
        )
    }
}

/// Share of the bank that levelling takes away in `dt`.
pub open spec fn level_share(bank: int, on_water: bool, dt: int) -> int {
    product(level_speed(bank, on_water), dt)
}

/// Bank angle after levelling, which acts when no roll is commanded or the
/// vehicle is in water contact.
pub open spec fn levelled(bank: int, roll: int, on_water: bool, dt: int) -> int {
    if roll == 0 || on_water {
        product(bank, SCALE - level_share(bank, on_water, dt))
    } else {
        bank
    }
}

/// Bank angle after one tick of the model.
pub open spec fn next_bank(
    bank: int,
    speed: int,
    roll: int,
    on_water: bool,
    dt: int,
    resistance: int,
) -> int {
    levelled(
        rolled(
            bank,
            roll,
            roll_sensitivity(base_sensitivity(speed), roll, bank, resistance),
            dt,
            on_water,
        ),
        roll,
        on_water,
        dt,
    )
}

/// Turn rates that the intents and the bank ask for: the pitch rate in `x`,
/// the yaw rate, from yaw intent and bank, in `y`.
pub open spec fn target_turn(bank: int, pitch: int, yaw: int, on_water: bool) -> Triple {
    Triple {
        x: product(pitch * PITCH_SENSITIVITY, control_multiplier(on_water)),
        y: product(
            product(
                yaw * YAW_SENSITIVITY + product(bank, BANK_TURN_RATIO as int),
                TURN_SPEED as int,
            ),
            control_multiplier(on_water),
        ),
        z: 0,
    }
}

/// Turn momentum after one tick: mostly the old one, with a fixed small
/// share of the target. The share is the same on every tick, whatever its
/// length: the smoothing takes a roughly constant tick rate for granted.
pub open spec fn next_turn_momentum(turn_momentum: Triple, target: Triple) -> Triple {
    turn_momentum.blend(target, SCALE - TURN_MOMENTUM)
}

/// Angular velocity that stands for a turn momentum and a bank angle: pitch
/// rate, yaw rate and bank, each times the angular gain.
pub open spec fn angular_velocity_of(turn_momentum: Triple, bank: int) -> Triple {
    Triple { x: turn_momentum.x, y: turn_momentum.y, z: bank }.scaled(ANGULAR_GAIN as int)
}

/// The levelling rate is never negative and never above the rate in water
/// contact.
pub proof fn lemma_level_speed_range(bank: int, on_water: bool)
    requires
        within(bank, MAX_BANK_ANGLE as int),
    ensures
        0 <= level_speed(bank, on_water) <= WATER_LEVEL_SPEED,
{
    if !on_water {
        // At the largest bank the steepness is a third.
        assert(0 <= ratio(magnitude(bank), LEVEL_REFERENCE_ANGLE as int) <= 333_334);
    }
}

/// What levelling does to a bank angle that is within the largest bank: the
/// bank keeps its sign and does not grow while the levelling share is at
/// most one, and stays within the largest bank while the share is at most
/// two.
pub proof fn lemma_levelled_range(bank: int, roll: int, on_water: bool, dt: int)
    requires
        within(bank, MAX_BANK_ANGLE as int),
        0 <= dt,
    ensures
        0 <= level_share(bank, on_water, dt),
        level_share(bank, on_water, dt) <= 2 * SCALE ==> within(
            levelled(bank, roll, on_water, dt),
            MAX_BANK_ANGLE as int,
        ),
        level_share(bank, on_water, dt) <= SCALE ==> {
            &&& magnitude(levelled(bank, roll, on_water, dt)) <= magnitude(bank)
            &&& (bank >= 0 ==> levelled(bank, roll, on_water, dt) >= 0)
            &&& (bank <= 0 ==> levelled(bank, roll, on_water, dt) <= 0)
        },
{
    let share: int = level_share(bank, on_water, dt);
    if roll == 0 || on_water {
        if share <= 2 * SCALE {
            crate::fixed::lemma_product_contracts(bank, SCALE - share);
        }
        if share <= SCALE {
            lemma_product_shrinks(bank, SCALE - share);
        }
    }
}

/// Exponent of the bank resistance at a bank angle. The resistance that the
/// controller takes is the exponential of it.
pub fn bank_resistance_exponent(bank: i64) -> (exponent: i64)
    requires
        within(bank as int, STATE_LIMIT as int),
    ensures
        exponent == resistance_exponent(bank as int),
        exponent == 16 * magnitude(bank as int),
{
    multiply(abs_value(bank), RESISTANCE_RATE)
}

/// Roll authority at `speed`.
pub fn base_roll_sensitivity(speed: i64) -> (base: i64)
    requires
        0 <= speed <= MAX_SPEED,
    ensures
        base == base_sensitivity(speed as int),
        0 <= base <= BASE_ROLL_SENSITIVITY,
{
    let position: i64 = divide(speed - MIN_SPEED, MAX_SPEED - MIN_SPEED);
    let factor: i64 = clamp_to(position, 0, SCALE);
    multiply(BASE_ROLL_SENSITIVITY, 500_000 + multiply(factor, 500_000))
}

/// Divides `base` by the fourth power of `resistance`.
pub fn resist(base: i64, resistance: i64) -> (sensitivity: i64)
    requires
        0 <= base <= BASE_ROLL_SENSITIVITY,
        resistance >= SCALE,
    ensures
        sensitivity == resisted(base as int, resistance as int),
        0 <= sensitivity <= base,
{
    let ghost unit: int = SCALE * SCALE * SCALE * SCALE;
    let ghost fourth: int = resistance * resistance * resistance * resistance;
    let ghost numerator: int = base * unit;
    proof {
        assert(fourth >= unit) by (nonlinear_arith)
            requires
                fourth == resistance * resistance * resistance * resistance,
                unit == 1_000_000_000_000_000_000_000_000int,
                resistance >= 1_000_000,
        ;
        vstd::arithmetic::div_mod::lemma_div_is_ordered_by_denominator(numerator, unit, fourth);
        assert(base * unit == unit * base) by (nonlinear_arith);
    }
    if resistance > 100_000_000 {
        proof {
            assert(fourth > 200_000 * unit) by (nonlinear_arith)
                requires
                    fourth == resistance * resistance * resistance * resistance,
                    unit == 1_000_000_000_000_000_000_000_000int,
                    resistance > 100_000_000,
            ;
            vstd::arithmetic::div_mod::lemma_basic_div(numerator, fourth);
        }
        0
    } else {
        let r: u128 = resistance as u128;
        assert(r * r <= 10_000_000_000_000_000) by (nonlinear_arith)
            requires
                0 <= r <= 100_000_000,
        ;
        let square: u128 = r * r;
        assert(square * square <= 100_000_000_000_000_000_000_000_000_000_000) by (nonlinear_arith)
            requires
                0 <= square <= 10_000_000_000_000_000,
        ;
        let power: u128 = square * square;
        assert(power == fourth) by (nonlinear_arith)
            requires
                power == square * square,
                square == r * r,
                r == resistance,
                fourth == resistance * resistance * resistance * resistance,
        ;
        let scaled: u128 = (base as u128) * 1_000_000_000_000_000_000_000_000;
        (scaled / power) as i64
    }
}

/// Roll sensitivity at `speed` for a roll intent at a bank angle.
pub fn roll_sensitivity_at(speed: i64, roll: i8, bank: i64, resistance: i64) -> (sensitivity: i64)
    requires
        0 <= speed <= MAX_SPEED,
        resistance >= SCALE,
    ensures
        sensitivity == roll_sensitivity(
            base_sensitivity(speed as int),
            roll as int,
            bank as int,
            resistance as int,
        ),
        0 <= sensitivity <= 16 * BASE_ROLL_SENSITIVITY,
{
    let base: i64 = base_roll_sensitivity(speed);
    let deepens: bool = (roll < 0) == (bank < 0);
    if deepens {
        resist(base, resistance)
    } else {
        multiply(base, RECOVERY_GAIN)
    }
}

/// Share of the rotational authority that is available.
pub fn control_share(is_on_water: bool) -> (share: i64)
    ensures
        share == control_multiplier(is_on_water),
        0 < share <= SCALE,
{
    if is_on_water {
        WATER_CONTROL
    } else {
        SCALE
    }
}

/// Lets the roll intent act on the bank angle for `dt` microseconds and
/// holds the result within the largest bank angle.
pub fn roll_bank(bank: i64, roll: i8, sensitivity: i64, dt: u32, is_on_water: bool) -> (next: i64)
    requires
        within(bank as int, STATE_LIMIT as int),
        -1 <= roll <= 1,
        0 <= sensitivity <= 16 * BASE_ROLL_SENSITIVITY,
    ensures
        next == rolled(bank as int, roll as int, sensitivity as int, dt as int, is_on_water),
        within(next as int, MAX_BANK_ANGLE as int),
{
    proof {
        lemma_product_bounded(sensitivity as int, dt as int, 3_200_000, 0x1_0000_0000);
    }
    let gained: i64 = multiply(multiply(sensitivity, dt as i64), control_share(is_on_water));
    assert(-13_743_895_347 <= roll * gained <= 13_743_895_347) by (nonlinear_arith)
        requires
            -1 <= roll <= 1,
            0 <= gained <= 13_743_895_347,
    ;
    let change: i64 = (roll as i64) * gained;
    clamp_to(bank + change, -MAX_BANK_ANGLE, MAX_BANK_ANGLE)
}

/// Rate at which the bank levels itself.
pub fn levelling_rate(bank: i64, is_on_water: bool) -> (rate: i64)
    requires
        within(bank as int, MAX_BANK_ANGLE as int),
    ensures
        rate == level_speed(bank as int, is_on_water),
        0 <= rate <= WATER_LEVEL_SPEED,
{
    if is_on_water {
        WATER_LEVEL_SPEED
    } else {
        proof {
            lemma_level_speed_range(bank as int, false);
        }
        let steepness: i64 = divide(abs_value(bank), LEVEL_REFERENCE_ANGLE);
        multiply(AUTO_LEVEL_SPEED, 800_000 + multiply(steepness, 800_000))
    }
}

/// Levels the bank angle for `dt` microseconds, when no roll is commanded or
/// the vehicle is in water contact.
///
/// The bank keeps its sign and does not grow while the levelling share is at
/// most one; it stays within the largest bank angle while the share is at
/// most two. A longer tick carries the bank past zero.
pub fn auto_level(bank: i64, roll: i8, is_on_water: bool, dt: u32) -> (next: i64)
    requires
        within(bank as int, MAX_BANK_ANGLE as int),
    ensures
        next == levelled(bank as int, roll as int, is_on_water, dt as int),
        within(next as int, STATE_LIMIT as int),
        0 <= level_share(bank as int, is_on_water, dt as int),
        level_share(bank as int, is_on_water, dt as int) <= 2 * SCALE ==> within(
            next as int,
            MAX_BANK_ANGLE as int,
        ),
        level_share(bank as int, is_on_water, dt as int) <= SCALE ==> magnitude(next as int)
            <= magnitude(bank as int) && (bank >= 0 ==> next >= 0) && (bank <= 0 ==> next <= 0),
{
    let rate: i64 = levelling_rate(bank, is_on_water);
    proof {
        lemma_product_bounded(rate as int, dt as int, WATER_LEVEL_SPEED as int, 0x1_0000_0000);
    }
    if roll == 0 || is_on_water {
        let share: i64 = multiply(rate, dt as i64);
        let keep: i64 = SCALE - share;
        proof {
            lemma_product_bounded(
                bank as int,
                keep as int,
                MAX_BANK_ANGLE as int,
                65_712_999_984_700,
            );
            if share <= 2 * SCALE {
                crate::fixed::lemma_product_contracts(bank as int, keep as int);
            }
            if share <= SCALE {
                lemma_product_shrinks(bank as int, keep as int);
            }
        }
        multiply(bank, keep)
    } else {
        bank
    }
}

/// Runs the roll intent and the levelling on the bank angle for one tick of
/// `dt` microseconds at `speed`.
pub fn bank_after_tick(
    bank: i64,
    speed: i64,
    roll: i8,
    is_on_water: bool,
    dt: u32,
    resistance: i64,
) -> (next: i64)
    requires
        within(bank as int, STATE_LIMIT as int),
        0 <= speed <= MAX_SPEED,
        -1 <= roll <= 1,
        resistance >= SCALE,
    ensures
        next == next_bank(
            bank as int,
            speed as int,
            roll as int,
            is_on_water,
            dt as int,
            resistance as int,
        ),
        within(next as int, STATE_LIMIT as int),
        !(roll == 0 || is_on_water) ==> within(next as int, MAX_BANK_ANGLE as int),
        level_share(
            rolled(
                bank as int,
                roll as int,
                roll_sensitivity(
                    base_sensitivity(speed as int),
                    roll as int,
                    bank as int,
                    resistance as int,
                ),
                dt as int,
                is_on_water,
            ),
            is_on_water,
            dt as int,
        ) <= 2 * SCALE ==> within(next as int, MAX_BANK_ANGLE as int),
{
    let sensitivity: i64 = roll_sensitivity_at(speed, roll, bank, resistance);
    let banked: i64 = roll_bank(bank, roll, sensitivity, dt, is_on_water);
    auto_level(banked, roll, is_on_water, dt)
}

/// Turn rates that the intents and the bank ask for.
pub fn turn_target(bank: i64, pitch: i8, yaw: i8, is_on_water: bool) -> (target: Vec3)
    requires
        within(bank as int, STATE_LIMIT as int),
        -1 <= pitch <= 1,
        -1 <= yaw <= 1,
    ensures
        target@ == target_turn(bank as int, pitch as int, yaw as int, is_on_water),
        target.bounded(STATE_LIMIT as int),
{
    let share: i64 = control_share(is_on_water);
    let pitch_rate: i64 = (pitch as i64) * PITCH_SENSITIVITY;
    let yaw_intent: i64 = (yaw as i64) * YAW_SENSITIVITY;
    let total_turn: i64 = yaw_intent + multiply(bank, BANK_TURN_RATIO);
    Vec3 {
        x: multiply(pitch_rate, share),
        y: multiply(multiply(total_turn, TURN_SPEED), share),
        z: 0,
    }
}

/// Smooths the turn momentum toward `target`.
pub fn smooth_turn(turn_momentum: &Vec3, target: &Vec3) -> (next: Vec3)
    requires
        turn_momentum.bounded(STATE_LIMIT as int),
        target.bounded(STATE_LIMIT as int),
    ensures
        next@ == next_turn_momentum(turn_momentum@, target@),
        next.bounded(STATE_LIMIT as int),
{
    proof {
        lemma_blend_component(turn_momentum.x as int, target.x as int, SCALE - TURN_MOMENTUM);
        lemma_blend_component(turn_momentum.y as int, target.y as int, SCALE - TURN_MOMENTUM);
        lemma_blend_component(turn_momentum.z as int, target.z as int, SCALE - TURN_MOMENTUM);
    }
    turn_momentum.lerp(target, SCALE - TURN_MOMENTUM)
}

/// Angular velocity that stands for a turn momentum and a bank angle.
pub fn angular_velocity(turn_momentum: &Vec3, bank: i64) -> (velocity: Vec3)
    requires
        turn_momentum.bounded(STATE_LIMIT as int),
        within(bank as int, STATE_LIMIT as int),
    ensures
        velocity@ == angular_velocity_of(turn_momentum@, bank as int),
        velocity.bounded(5 * STATE_LIMIT),
{
    let rates: Vec3 = Vec3 { x: turn_momentum.x, y: turn_momentum.y, z: bank };
    rates.scale(ANGULAR_GAIN)
}

} // verus!
