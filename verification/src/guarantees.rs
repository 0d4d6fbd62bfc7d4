//! What holds of the pipeline over whole ticks and over runs of ticks.

use crate::bank_model::{lemma_levelled_range, level_share, level_speed};
use crate::constants::{BOUNCE_CUTOFF, BOUNCE_DECAY, MAX_BANK_ANGLE, MAX_SPEED, MIN_SPEED,
    WATER_LEVEL_SPEED, WATER_SAILING_SPEED};
use crate::control_mapper::{axis, throttled};
use crate::fixed::{lemma_product_magnitude, lemma_product_ordered,
    lemma_product_shrinks_strictly, magnitude, product, within, SCALE};
use crate::plane_systems::{bank_before_levelling, levelling_share, resets, run,
    settled_position, tick_state, tick_vehicle, water_slows, TickInput};
use crate::resources::FlightModel;
use crate::vector::Triple;
use crate::water_regime::{decayed, impact_edge};
use vstd::arithmetic::power::pow;
use vstd::prelude::*;

verus! {

/// Longest tick, in microseconds, on which levelling takes at most twice
/// the bank away whatever the regime, so that the bank angle stays within the
/// largest bank angle.
pub const LONGEST_BOUNDED_TICK: u32 = 130_718;

/// Longest tick, in microseconds, on which levelling in water contact takes
/// at most the whole bank away, so that the bank angle does not change its
/// sign.
pub const LONGEST_DECAYING_TICK: u32 = 65_359;

/// A tick at rest: no control is held, the vehicle is in water contact, and
/// the tick is short enough for the levelling share to be at most one.
pub open spec fn at_rest(input: TickInput) -> bool {
    &&& input.controls.idle()
    &&& input.is_on_water
    &&& 0 <= input.dt
    &&& product(WATER_LEVEL_SPEED as int, input.dt) <= SCALE
}

/// A bounce after `n` ticks of decay.
pub open spec fn bounce_after(bounce: int, n: nat) -> int
    decreases n,
{
    if n == 0 {
        bounce
    } else {
        decayed(bounce_after(bounce, (n - 1) as nat))
    }
}

/// After one tick the bank angle is within the largest bank angle, for
/// every input on which levelling takes at most twice the bank away.
pub proof fn lemma_tick_keeps_bank_in_range(state: FlightModel, input: TickInput)
    requires
        0 <= input.dt,
        levelling_share(state, input.controls, input.is_on_water, input.dt, input.bank_resistance)
            <= 2 * SCALE,
    ensures
        within(tick_state(state, input).bank_angle, MAX_BANK_ANGLE as int),
{
    let pending: int = bank_before_levelling(
        state,
        input.controls,
        input.is_on_water,
        input.dt,
        input.bank_resistance,
    );
    lemma_levelled_range(
        pending,
        axis(input.controls.roll_left, input.controls.roll_right),
        input.is_on_water,
        input.dt,
    );
}

/// On a tick that is not longer than [`LONGEST_BOUNDED_TICK`] the bank angle
/// is within the largest bank angle afterwards, in the air and on the water
/// and whatever is held.
pub proof fn lemma_short_tick_keeps_bank_in_range(state: FlightModel, input: TickInput)
    requires
        0 <= input.dt <= LONGEST_BOUNDED_TICK,
    ensures
        levelling_share(state, input.controls, input.is_on_water, input.dt, input.bank_resistance)
            <= 2 * SCALE,
        within(tick_state(state, input).bank_angle, MAX_BANK_ANGLE as int),
{
    let pending: int = bank_before_levelling(
        state,
        input.controls,
        input.is_on_water,
        input.dt,
        input.bank_resistance,
    );
    lemma_product_ordered(
        level_speed(pending, input.is_on_water),
        WATER_LEVEL_SPEED as int,
        input.dt,
    );
    lemma_tick_keeps_bank_in_range(state, input);
}

/// A tick in water contact without a control held that is not longer than
/// [`LONGEST_DECAYING_TICK`] is a tick at rest.
pub proof fn lemma_short_tick_is_at_rest(input: TickInput)
    requires
        input.controls.idle(),
        input.is_on_water,
        0 <= input.dt <= LONGEST_DECAYING_TICK,
    ensures
        at_rest(input),
{
    lemma_product_magnitude(LONGEST_DECAYING_TICK as int, WATER_LEVEL_SPEED as int);
}

/// After one tick the speed is between the minimum and the maximum speed,
/// if it was so before and the water takes no speed away on this tick or the
/// vehicle is reset at the boundary.
pub proof fn lemma_tick_keeps_speed_in_range(state: FlightModel, input: TickInput)
    requires
        MIN_SPEED <= state.speed <= MAX_SPEED,
        0 <= input.dt,
        !water_slows(state, input) || resets(input),
    ensures
        MIN_SPEED <= tick_state(state, input).speed <= MAX_SPEED,
{
}

/// On a tick on which the water takes speed away, the speed afterwards is
/// the sailing speed, which lies under the minimum speed, or it is not
/// negative and under what the throttle left of it. It is never above the
/// maximum speed.
pub proof fn lemma_water_lowers_speed(state: FlightModel, input: TickInput)
    requires
        0 <= state.speed <= MAX_SPEED,
        0 <= input.dt,
        water_slows(state, input),
        !resets(input),
    ensures
        tick_state(state, input).speed == WATER_SAILING_SPEED || 0 <= tick_state(
            state,
            input,
        ).speed <= throttled(
            state.speed,
            input.controls.throttle_up,
            input.controls.throttle_down,
            input.dt,
        ),
        tick_state(state, input).speed <= MAX_SPEED,
{
}

/// Speed after the throttle has been held up, and not down, for one tick of
/// each of the lengths in `ticks`.
pub open spec fn throttled_up(speed: int, ticks: Seq<int>) -> int
    decreases ticks.len(),
{
    if ticks.len() == 0 {
        speed
    } else {
        throttled(throttled_up(speed, ticks.drop_last()), true, false, ticks.last())
    }
}

/// Sum of the lengths in `ticks`.
pub open spec fn total_time(ticks: Seq<int>) -> int
    decreases ticks.len(),
{
    if ticks.len() == 0 {
        0
    } else {
        total_time(ticks.drop_last()) + ticks.last()
    }
}

/// While the throttle is held up, the speed is what it was plus the
/// acceleration times the time held, capped at the maximum speed: it never
/// falls, and it is exactly the maximum speed once the time held makes up
/// for the difference.
pub proof fn lemma_throttle_up_caps_at_maximum(speed: int, ticks: Seq<int>)
    requires
        speed <= MAX_SPEED,
        forall|k: int| 0 <= k < ticks.len() ==> 0 <= #[trigger] ticks[k],
    ensures
        0 <= total_time(ticks),
        throttled_up(speed, ticks) == crate::fixed::least(
            speed + 10 * total_time(ticks),
            MAX_SPEED as int,
        ),
        speed <= throttled_up(speed, ticks) <= MAX_SPEED,
        speed + 10 * total_time(ticks) >= MAX_SPEED ==> throttled_up(speed, ticks) == MAX_SPEED,
    decreases ticks.len(),
{
    if ticks.len() > 0 {
        lemma_throttle_up_caps_at_maximum(speed, ticks.drop_last());
    }
}

/// The throttle alone keeps the speed between the minimum and the maximum
/// speed, and a held increase never lowers it.
pub proof fn lemma_throttle_keeps_speed_in_range(speed: int, up: bool, down: bool, dt: int)
    requires
        MIN_SPEED <= speed <= MAX_SPEED,
        0 <= dt,
    ensures
        MIN_SPEED <= throttled(speed, up, down, dt) <= MAX_SPEED,
        up && !down ==> speed <= throttled(speed, up, down, dt),
        down && !up ==> throttled(speed, up, down, dt) <= speed,
{
}

/// On a tick at rest without an impact, bank angle and bounce move toward
/// zero and not past it.
pub proof fn lemma_rest_tick_decays(state: FlightModel, input: TickInput)
    requires
        0 <= state.impact_bounce,
        state.was_on_water,
        at_rest(input),
    ensures
        magnitude(tick_state(state, input).bank_angle) <= magnitude(state.bank_angle),
        state.bank_angle >= 0 ==> tick_state(state, input).bank_angle >= 0,
        state.bank_angle <= 0 ==> tick_state(state, input).bank_angle <= 0,
        0 <= tick_state(state, input).impact_bounce <= state.impact_bounce,
        tick_state(state, input).was_on_water,
        input.dt > 0 && state.bank_angle != 0 ==> magnitude(tick_state(state, input).bank_angle)
            < magnitude(state.bank_angle),
        state.impact_bounce > 0 ==> tick_state(state, input).impact_bounce < state.impact_bounce,
{
    let pending: int = bank_before_levelling(
        state,
        input.controls,
        input.is_on_water,
        input.dt,
        input.bank_resistance,
    );
    lemma_levelled_range(pending, 0, true, input.dt);
    if input.dt > 0 && pending != 0 {
        let share: int = level_share(pending, true, input.dt);
        lemma_product_shrinks_strictly(pending, SCALE - share);
    }
}

/// Over a run of ticks at rest that starts in water contact, bank angle
/// and bounce after any number of ticks are no farther from zero than after
/// fewer ticks, and the bank angle never changes its sign.
pub proof fn lemma_rest_run_decays(state: FlightModel, inputs: Seq<TickInput>, i: int, j: int)
    requires
        0 <= state.impact_bounce,
        state.was_on_water,
        forall|k: int| 0 <= k < inputs.len() ==> at_rest(#[trigger] inputs[k]),
        0 <= i <= j <= inputs.len(),
    ensures
        magnitude(run(state, inputs.take(j)).bank_angle) <= magnitude(
            run(state, inputs.take(i)).bank_angle,
        ),
        run(state, inputs.take(i)).bank_angle >= 0 ==> run(state, inputs.take(j)).bank_angle >= 0,
        run(state, inputs.take(i)).bank_angle <= 0 ==> run(state, inputs.take(j)).bank_angle <= 0,
        0 <= run(state, inputs.take(j)).impact_bounce <= run(state, inputs.take(i)).impact_bounce,
        run(state, inputs.take(j)).was_on_water,
    decreases j,
{
    if j > 0 {
        let shorter: Seq<TickInput> = inputs.take(j - 1);
        assert(inputs.take(j).drop_last() =~= shorter);
        if i == j {
            lemma_rest_run_decays(state, inputs, 0, j - 1);
        } else {
            lemma_rest_run_decays(state, inputs, i, j - 1);
        }
        lemma_rest_tick_decays(run(state, shorter), inputs[j - 1]);
    }
}

/// A tick remembers its contact flag, so the next tick sees an impact
/// exactly when it is in water contact and the tick before it was not: never
/// on sustained contact.
pub proof fn lemma_impact_only_when_contact_begins(
    state: FlightModel,
    first: TickInput,
    second: TickInput,
)
    ensures
        tick_state(state, first).was_on_water == first.is_on_water,
        impact_edge(second.is_on_water, tick_state(state, first).was_on_water) == (
        second.is_on_water && !first.is_on_water),
        first.is_on_water ==> !impact_edge(
            second.is_on_water,
            tick_state(state, first).was_on_water,
        ),
{
}

/// Over a run of ticks in sustained water contact the bounce decays once
/// per tick.
pub proof fn lemma_bounce_decays_each_tick(state: FlightModel, inputs: Seq<TickInput>)
    requires
        0 <= state.impact_bounce,
        state.was_on_water,
        forall|k: int| 0 <= k < inputs.len() ==> (#[trigger] inputs[k]).is_on_water,
    ensures
        run(state, inputs).impact_bounce == bounce_after(state.impact_bounce, inputs.len()),
        run(state, inputs).was_on_water,
        0 <= run(state, inputs).impact_bounce,
    decreases inputs.len(),
{
    if inputs.len() > 0 {
        let shorter: Seq<TickInput> = inputs.drop_last();
        lemma_bounce_decays_each_tick(state, shorter);
    }
}

/// One tick of decay takes a bounce to four fifths of it, rounded down, and
/// to nothing once that is under the cutoff.
pub proof fn lemma_decayed_is_four_fifths(bounce: int)
    requires
        0 <= bounce,
    ensures
        product(bounce, BOUNCE_DECAY as int) == (4 * bounce) / 5,
        5 * product(bounce, BOUNCE_DECAY as int) <= 4 * bounce < 5 * product(
            bounce,
            BOUNCE_DECAY as int,
        ) + 5,
        decayed(bounce) == 0 || decayed(bounce) == (4 * bounce) / 5,
        0 <= decayed(bounce) <= bounce,
{
}

/// Where a bounce stands after `n` ticks of decay, held against the exact
/// value, the bounce times four fifths to the power `n`.
///
/// While the bounce is positive it is at least the cutoff, not above the
/// exact value and less than five raw units below it. It is zero once the
/// exact value is under the cutoff, and only when the exact value is under
/// the cutoff plus five raw units. Once zero, it stays zero.
pub proof fn lemma_bounce_tracks_power(bounce: int, n: nat)
    requires
        0 < bounce,
    ensures
        0 <= bounce_after(bounce, n) <= bounce,
        n > 0 ==> bounce_after(bounce, n) == 0 || bounce_after(bounce, n) >= BOUNCE_CUTOFF,
        bounce_after(bounce, n) > 0 ==> pow(5, n) * bounce_after(bounce, n) <= pow(4, n) * bounce
            < pow(5, n) * (bounce_after(bounce, n) + 5),
        bounce_after(bounce, n) == 0 ==> pow(4, n) * bounce < pow(5, n) * (BOUNCE_CUTOFF + 5),
        n > 0 && pow(4, n) * bounce < pow(5, n) * BOUNCE_CUTOFF ==> bounce_after(bounce, n) == 0,
    decreases n,
{
    if n == 0 {
        vstd::arithmetic::power::lemma_pow0(5);
        vstd::arithmetic::power::lemma_pow0(4);
    } else {
        let m: nat = (n - 1) as nat;
        lemma_bounce_tracks_power(bounce, m);
        vstd::arithmetic::power::lemma_pow_positive(5, m);
        vstd::arithmetic::power::lemma_pow_positive(4, m);
        let before: int = bounce_after(bounce, m);
        let eased: int = product(before, BOUNCE_DECAY as int);
        let fives: int = pow(5, m);
        let fours: int = pow(4, m);
        assert(pow(5, n) == 5 * fives) by {
            vstd::arithmetic::power::lemma_pow_adds(5, 1, m);
            vstd::arithmetic::power::lemma_pow1(5);
        }
        assert(pow(4, n) == 4 * fours) by {
            vstd::arithmetic::power::lemma_pow_adds(4, 1, m);
            vstd::arithmetic::power::lemma_pow1(4);
        }
        if before == 0 {
            assert((4 * fours) * bounce < (5 * fives) * (BOUNCE_CUTOFF + 5)) by (nonlinear_arith)
                requires
                    fours * bounce < fives * (BOUNCE_CUTOFF + 5),
                    fives > 0,
                    fours > 0,
                    bounce > 0,
            ;
        } else {
            // Rounding down: 5 * eased <= 4 * before < 5 * eased + 5.
            assert((5 * fives) * eased <= (4 * fours) * bounce) by (nonlinear_arith)
                requires
                    5 * eased <= 4 * before,
                    fives * before <= fours * bounce,
                    fives > 0,
            ;
            assert((4 * fours) * bounce < (5 * fives) * (eased + 5)) by (nonlinear_arith)
                requires
                    4 * before < 5 * eased + 5,
                    fours * bounce < fives * (before + 5),
                    fives > 0,
            ;
            if eased < BOUNCE_CUTOFF {
                assert((5 * fives) * (eased + 5) <= (5 * fives) * (BOUNCE_CUTOFF + 4))
                    by (nonlinear_arith)
                    requires
                        eased + 5 <= BOUNCE_CUTOFF + 4,
                        fives > 0,
                ;
            } else {
                assert((5 * fives) * BOUNCE_CUTOFF <= (5 * fives) * eased) by (nonlinear_arith)
                    requires
                        BOUNCE_CUTOFF <= eased,
                        fives > 0,
                ;
            }
        }
    }
}

/// A bounce that has decayed to zero stays zero.
pub proof fn lemma_bounce_stays_zero(bounce: int, n: nat, later: nat)
    requires
        bounce_after(bounce, n) == 0,
        n <= later,
    ensures
        bounce_after(bounce, later) == 0,
    decreases later,
{
    if later > n {
        lemma_bounce_stays_zero(bounce, n, (later - 1) as nat);
    }
}

/// A tick on which the vehicle, once lifted to the water line, is farther
/// from the origin than the boundary distance leaves speed, bank angle,
/// both momenta and both velocities as they are at the start of a run.
pub proof fn lemma_tick_resets_beyond_boundary(state: FlightModel, input: TickInput)
    requires
        resets(input),
    ensures
        tick_state(state, input).speed == MIN_SPEED,
        tick_state(state, input).bank_angle == 0,
        tick_state(state, input).momentum == FlightModel::initial_momentum(),
        tick_state(state, input).turn_momentum == Triple::zero(),
        tick_vehicle(state, input).linear_velocity == FlightModel::initial_momentum(),
        tick_vehicle(state, input).angular_velocity == Triple::zero(),
        tick_vehicle(state, input).position == settled_position(
            input.vehicle.position,
            input.is_on_water,
        ),
{
}

} // verus!
