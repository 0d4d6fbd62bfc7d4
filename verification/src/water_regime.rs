//! The water-contact regime: impact, bounce, levelling, damping, stopping,
//! sailing and takeoff while the vehicle touches the water.

use crate::bank_model::{angular_velocity, angular_velocity_of};
use crate::constants::{BOUNCE_CUTOFF, BOUNCE_DECAY, CONTROL_RESTORE_STRENGTH, LEVEL_TOLERANCE,
    MAX_SPEED, SAILING_ENTRY_SPEED, TAKEOFF_FORCE, TAKEOFF_PITCH, TAKEOFF_SPEED,
    TAKEOFF_SPEED_THRESHOLD, WATER_BOUNCE_FACTOR, WATER_DAMPING, WATER_FLOOR,
    WATER_IMPACT_SLOWDOWN, WATER_IMPACT_THRESHOLD, WATER_LEVEL_ROTATION_SPEED,
    WATER_SAILING_SPEED, WATER_STABILIZE_FACTOR, WATER_STOP_EXTRA, WATER_STOP_SPEED,
    WATER_STOP_THRESHOLD};
use crate::fixed::{abs_value, clamp, clamp_to, divide, least, lemma_product_bounded,
    lemma_product_shrinks, magnitude, multiply, product, ratio, within, LIMIT, SCALE};
use crate::resources::{FlightModel, PlaneState, STATE_LIMIT};
use crate::vector::{Triple, Vec3};
use crate::vehicle::{Attitude, Heading, Vehicle, VehicleModel};
use vstd::prelude::*;

verus! {

/// How readiness for takeoff is decided.
#[derive(Clone, Copy, Debug, PartialEq, Eq, Structural)]
pub enum TakeoffPolicy {
    /// Lift is applied as soon as the speed threshold is passed.
    Unconditional,
    /// Lift is applied when the speed threshold is passed and the nose is up.
    PitchGated,
}

/// What the regime works on during one tick.
#[derive(Clone, Copy, Debug, PartialEq, Eq, Structural)]
pub struct Contact {
    pub speed: i64,
    pub bounce: i64,
    pub altitude: i64,
    pub velocity: Vec3,
    pub angular: Vec3,
    /// Whether the vehicle started to sail on this tick.
    pub sailing: bool,
}

/// The mathematical value of a [`Contact`].
pub struct ContactModel {
    pub speed: int,
    pub bounce: int,
    pub altitude: int,
    pub velocity: Triple,
    pub angular: Triple,
    pub sailing: bool,
}

impl View for Contact {
    type V = ContactModel;

    open spec fn view(&self) -> ContactModel {
        ContactModel {
            speed: self.speed as int,
            bounce: self.bounce as int,
            altitude: self.altitude as int,
            velocity: self.velocity@,
            angular: self.angular@,
            sailing: self.sailing,
        }
    }
}

/// Contact with the water began on this tick.
pub open spec fn impact_edge(is_on_water: bool, was_on_water: bool) -> bool {
    is_on_water && !was_on_water
}

/// The orientation is far enough from level to be levelled.
pub open spec fn needs_levelling(pitch: int, roll: int) -> bool {
    magnitude(pitch) > LEVEL_TOLERANCE || magnitude(roll) > LEVEL_TOLERANCE
}

/// Share of the way toward level that the orientation moves in `dt`.
pub open spec fn levelling_fraction(dt: int) -> int {
    product(WATER_LEVEL_ROTATION_SPEED as int, dt)
}

/// A bounce after one tick of decay: eight tenths of it, or nothing once
/// that is less than the cutoff.
pub open spec fn decayed(bounce: int) -> int {
    if product(bounce, BOUNCE_DECAY as int) < BOUNCE_CUTOFF {
        0
    } else {
        product(bounce, BOUNCE_DECAY as int)
    }
}

/// Speed that must be exceeded to take off.
pub open spec fn takeoff_speed() -> int {
    product(MAX_SPEED as int, TAKEOFF_SPEED_THRESHOLD as int)
}

/// The vehicle is fast enough and its nose is high enough to take off.
pub open spec fn takeoff_ready(speed: int, pitch: int) -> bool {
    speed > takeoff_speed() && pitch < -(TAKEOFF_PITCH as int)
}

/// Strength of the lift at `speed` and `pitch`: the nose-up pitch, held
/// between zero and one, times the share of the maximum speed, at most one,
/// times the takeoff force.
pub open spec fn takeoff_strength(speed: int, pitch: int) -> int {
    product(
        product(clamp(-pitch, 0, SCALE as int), least(ratio(speed, MAX_SPEED as int), SCALE as int)),
        TAKEOFF_FORCE as int,
    )
}

/// Keeps the vehicle above the water line: an altitude under the floor is
/// raised to it, and a downward velocity is stopped at that moment.
pub open spec fn floor_step(c: ContactModel) -> ContactModel {
    if c.altitude < WATER_FLOOR {
        ContactModel {
            altitude: WATER_FLOOR as int,
            velocity: Triple {
                x: c.velocity.x,
                y: if c.velocity.y < 0 {
                    0
                } else {
                    c.velocity.y
                },
                z: c.velocity.z,
            },
            ..c
        }
    } else {
        c
    }
}

/// The impact is hard: it happens on the tick on which contact began, with
/// a vertical speed above the threshold.
pub open spec fn hard_impact(c: ContactModel, impact: bool) -> bool {
    impact && magnitude(c.velocity.y) > WATER_IMPACT_THRESHOLD
}

/// A hard impact sets the bounce from the vertical speed and slows speed and
/// velocity once.
pub open spec fn impact_step(c: ContactModel, impact: bool) -> ContactModel {
    if hard_impact(c, impact) {
        ContactModel {
            bounce: product(magnitude(c.velocity.y), WATER_BOUNCE_FACTOR as int),
            speed: product(c.speed, WATER_IMPACT_SLOWDOWN as int),
            velocity: c.velocity.scaled(WATER_IMPACT_SLOWDOWN as int),
            ..c
        }
    } else {
        c
    }
}

/// An active bounce is added to the vertical velocity and then decays.
pub open spec fn bounce_step(c: ContactModel) -> ContactModel {
    if c.bounce > 0 {
        ContactModel {
            bounce: decayed(c.bounce),
            velocity: Triple { x: c.velocity.x, y: c.velocity.y + c.bounce, z: c.velocity.z },
            ..c
        }
    } else {
        c
    }
}

/// While the orientation is being levelled, the angular velocity is zero.
pub open spec fn levelling_step(c: ContactModel, pitch: int, roll: int) -> ContactModel {
    if needs_levelling(pitch, roll) {
        ContactModel { angular: Triple::zero(), ..c }
    } else {
        c
    }
}

/// Water resistance: the whole velocity is damped, and its horizontal
/// components once more.
pub open spec fn resistance_step(c: ContactModel) -> ContactModel {
    ContactModel {
        velocity: Triple {
            x: product(product(c.velocity.x, WATER_DAMPING as int), WATER_STABILIZE_FACTOR as int),
            y: product(c.velocity.y, WATER_DAMPING as int),
            z: product(product(c.velocity.z, WATER_DAMPING as int), WATER_STABILIZE_FACTOR as int),
        },
        ..c
    }
}

/// Deceleration on the water, left out on the tick of the impact: the speed
/// is damped, once more below the stop threshold, and a vehicle that has
/// become very slow starts to sail along `forward`.
pub open spec fn stopping_step(c: ContactModel, impact: bool, forward: Triple) -> ContactModel {
    let slowed = product(c.speed, WATER_STOP_SPEED as int);
    let crawling = product(slowed, WATER_STOP_EXTRA as int);
    if impact {
        c
    } else if slowed >= WATER_STOP_THRESHOLD {
        ContactModel { speed: slowed, ..c }
    } else if crawling >= SAILING_ENTRY_SPEED {
        ContactModel { speed: crawling, ..c }
    } else {
        ContactModel {
            speed: WATER_SAILING_SPEED as int,
            velocity: forward.scaled(WATER_SAILING_SPEED as int),
            sailing: true,
            ..c
        }
    }
}

/// Takeoff. Under the pitch-gated policy a ready vehicle gains upward
/// velocity in proportion to the takeoff strength, and above a strength of
/// one half its angular velocity is set again from the turn state, scaled by
/// the strength. Under the unconditional policy a vehicle above the takeoff
/// speed gains upward velocity in proportion to its speed.
pub open spec fn takeoff_step(
    c: ContactModel,
    policy: TakeoffPolicy,
    pitch: int,
    turn_momentum: Triple,
    bank: int,
    dt: int,
) -> ContactModel {
    let strength = takeoff_strength(c.speed, pitch);
    match policy {
        TakeoffPolicy::PitchGated => if takeoff_ready(c.speed, pitch) {
            ContactModel {
                velocity: Triple {
                    x: c.velocity.x,
                    y: c.velocity.y + product(strength * 2, dt),
                    z: c.velocity.z,
                },
                angular: if strength > CONTROL_RESTORE_STRENGTH {
                    angular_velocity_of(turn_momentum, bank).scaled(strength)
                } else {
                    c.angular
                },
                ..c
            }
        } else {
            c
        },
        TakeoffPolicy::Unconditional => if c.speed > takeoff_speed() {
            ContactModel {
                velocity: Triple {
                    x: c.velocity.x,
                    y: c.velocity.y + product(product(c.speed, TAKEOFF_FORCE as int), dt),
                    z: c.velocity.z,
                },
                ..c
            }
        } else {
            c
        },
    }
}

/// Tells whether contact with the water began on this tick.
pub fn water_impact(is_on_water: bool, was_on_water: bool) -> (impact: bool)
    ensures
        impact == impact_edge(is_on_water, was_on_water),
        impact == (is_on_water && !was_on_water),
{
    is_on_water && !was_on_water
}

/// Decides whether the orientation is to be levelled on this tick, and by
/// what share of the way toward level.
pub fn levelling(is_on_water: bool, attitude: &Attitude, dt: u32) -> (fraction: Option<i64>)
    ensures
        fraction.is_some() == (is_on_water && needs_levelling(
            attitude.pitch as int,
            attitude.roll as int,
        )),
        fraction matches Some(f) ==> f == levelling_fraction(dt as int),
{
    let tilted: bool = attitude.pitch > LEVEL_TOLERANCE || attitude.pitch < -LEVEL_TOLERANCE
        || attitude.roll > LEVEL_TOLERANCE || attitude.roll < -LEVEL_TOLERANCE;
    if is_on_water && tilted {
        Some(multiply(WATER_LEVEL_ROTATION_SPEED, dt as i64))
    } else {
        None
    }
}

/// Lets a bounce decay for one tick.
pub fn decay_bounce(bounce: i64) -> (next: i64)
    requires
        0 <= bounce,
    ensures
        next == decayed(bounce as int),
        0 <= next <= bounce,
        next == 0 || next >= BOUNCE_CUTOFF,
{
    let eased: i64 = multiply(bounce, BOUNCE_DECAY);
    if eased < BOUNCE_CUTOFF {
        0
    } else {
        eased
    }
}

/// Tells whether the vehicle is ready to take off.
pub fn is_takeoff_ready(speed: i64, pitch: i64) -> (ready: bool)
    ensures
        ready == takeoff_ready(speed as int, pitch as int),
        ready == (speed > TAKEOFF_SPEED && pitch < -TAKEOFF_PITCH),
{
    speed > TAKEOFF_SPEED && pitch < -TAKEOFF_PITCH
}

/// Strength of the lift at `speed` and `pitch`.
pub fn lift_strength(speed: i64, pitch: i64) -> (strength: i64)
    requires
        0 <= speed <= MAX_SPEED,
        within(pitch as int, LIMIT as int),
    ensures
        strength == takeoff_strength(speed as int, pitch as int),
        0 <= strength <= TAKEOFF_FORCE,
{
    proof {
        let nose: int = clamp(-pitch, 0, SCALE as int);
        let pace: int = least(ratio(speed as int, MAX_SPEED as int), SCALE as int);
        lemma_product_shrinks(nose, pace);
    }
    let nose: i64 = clamp_to(-pitch, 0, SCALE);
    let share: i64 = divide(speed, MAX_SPEED);
    let pace: i64 = if share < SCALE {
        share
    } else {
        SCALE
    };
    multiply(multiply(nose, pace), TAKEOFF_FORCE)
}

impl ContactModel {
    /// The values are ones that the regime can work on, with the velocity
    /// within `bound`.
    pub open spec fn settled(self, bound: int) -> bool {
        &&& 0 <= self.speed <= MAX_SPEED
        &&& 0 <= self.bounce <= STATE_LIMIT
        &&& within(self.altitude, LIMIT as int)
        &&& self.velocity.bounded(bound)
    }

    /// The values are ones that the regime can start from: the velocity is
    /// within [`LIMIT`].
    pub open spec fn well_formed(self) -> bool {
        self.settled(LIMIT as int)
    }
}

/// Keeps the vehicle above the water line.
pub fn keep_afloat(c: Contact) -> (next: Contact)
    ensures
        next@ == floor_step(c@),
        next.altitude >= WATER_FLOOR,
        c@.well_formed() ==> next@.well_formed(),
{
    if c.altitude < WATER_FLOOR {
        let stopped: i64 = if c.velocity.y < 0 {
            0
        } else {
            c.velocity.y
        };
        Contact {
            altitude: WATER_FLOOR,
            velocity: Vec3 { x: c.velocity.x, y: stopped, z: c.velocity.z },
            ..c
        }
    } else {
        c
    }
}

/// Applies the effects of a hard impact on the tick on which contact began.
pub fn absorb_impact(c: Contact, impact: bool) -> (next: Contact)
    requires
        c@.well_formed(),
    ensures
        next@ == impact_step(c@, impact),
        next@.well_formed(),
        hard_impact(c@, impact) ==> next.bounce > 0,
{
    let vertical: i64 = abs_value(c.velocity.y);
    if impact && vertical > WATER_IMPACT_THRESHOLD {
        Contact {
            bounce: multiply(vertical, WATER_BOUNCE_FACTOR),
            speed: multiply(c.speed, WATER_IMPACT_SLOWDOWN),
            velocity: c.velocity.scale(WATER_IMPACT_SLOWDOWN),
            ..c
        }
    } else {
        c
    }
}

/// Adds an active bounce to the vertical velocity and lets it decay.
pub fn apply_bounce(c: Contact) -> (next: Contact)
    requires
        c@.well_formed(),
    ensures
        next@ == bounce_step(c@),
        next@.settled(STATE_LIMIT + LIMIT),
        next.bounce <= c.bounce,
{
    if c.bounce > 0 {
        Contact {
            bounce: decay_bounce(c.bounce),
            velocity: Vec3 { x: c.velocity.x, y: c.velocity.y + c.bounce, z: c.velocity.z },
            ..c
        }
    } else {
        c
    }
}

/// Stops the rotation while the orientation is being levelled.
pub fn hold_rotation(c: Contact, attitude: &Attitude) -> (next: Contact)
    ensures
        next@ == levelling_step(c@, attitude.pitch as int, attitude.roll as int),
{
    let tilted: bool = attitude.pitch > LEVEL_TOLERANCE || attitude.pitch < -LEVEL_TOLERANCE
        || attitude.roll > LEVEL_TOLERANCE || attitude.roll < -LEVEL_TOLERANCE;
    if tilted {
        Contact { angular: Vec3 { x: 0, y: 0, z: 0 }, ..c }
    } else {
        c
    }
}

/// Applies the water's resistance to the velocity.
pub fn resist_water(c: Contact) -> (next: Contact)
    requires
        c@.settled(STATE_LIMIT + LIMIT),
    ensures
        next@ == resistance_step(c@),
        next@.settled(STATE_LIMIT + LIMIT),
{
    Contact {
        velocity: Vec3 {
            x: multiply(multiply(c.velocity.x, WATER_DAMPING), WATER_STABILIZE_FACTOR),
            y: multiply(c.velocity.y, WATER_DAMPING),
            z: multiply(multiply(c.velocity.z, WATER_DAMPING), WATER_STABILIZE_FACTOR),
        },
        ..c
    }
}

/// Slows the vehicle toward a stop, and lets it sail once it is very slow.
pub fn slow_to_stop(c: Contact, impact: bool, forward: &Vec3) -> (next: Contact)
    requires
        c@.settled(STATE_LIMIT + LIMIT),
        forward.bounded(LIMIT as int),
    ensures
        next@ == stopping_step(c@, impact, forward@),
        next@.settled(5 * LIMIT + STATE_LIMIT),
        !c.sailing && next.sailing ==> next.speed == WATER_SAILING_SPEED && next.velocity@
            == forward@.scaled(WATER_SAILING_SPEED as int),
        next.sailing ==> c.sailing || !impact,
{
    if impact {
        return c;
    }
    let slowed: i64 = multiply(c.speed, WATER_STOP_SPEED);
    if slowed >= WATER_STOP_THRESHOLD {
        return Contact { speed: slowed, ..c };
    }
    let crawling: i64 = multiply(slowed, WATER_STOP_EXTRA);
    if crawling >= SAILING_ENTRY_SPEED {
        Contact { speed: crawling, ..c }
    } else {
        Contact {
            speed: WATER_SAILING_SPEED,
            velocity: forward.scale(WATER_SAILING_SPEED),
            sailing: true,
            ..c
        }
    }
}

/// Applies the lift of a takeoff, and hands rotational control back once the
/// lift is strong enough.
pub fn lift_off(
    c: Contact,
    policy: TakeoffPolicy,
    pitch: i64,
    turn_momentum: &Vec3,
    bank: i64,
    dt: u32,
) -> (next: Contact)
    requires
        c@.settled(5 * LIMIT + STATE_LIMIT),
        within(pitch as int, LIMIT as int),
        turn_momentum.bounded(STATE_LIMIT as int),
        within(bank as int, STATE_LIMIT as int),
    ensures
        next@ == takeoff_step(c@, policy, pitch as int, turn_momentum@, bank as int, dt as int),
        next@.settled(6 * LIMIT + STATE_LIMIT),
        next.speed == c.speed,
        next.bounce == c.bounce,
        next.sailing == c.sailing,
{
    match policy {
        TakeoffPolicy::PitchGated => {
            if is_takeoff_ready(c.speed, pitch) {
                let strength: i64 = lift_strength(c.speed, pitch);
                proof {
                    lemma_product_bounded(
                        strength * 2,
                        dt as int,
                        4_000_000,
                        0x1_0000_0000,
                    );
                }
                let lift: i64 = multiply(strength * 2, dt as i64);
                let angular: Vec3 = if strength > CONTROL_RESTORE_STRENGTH {
                    let armed: Vec3 = angular_velocity(turn_momentum, bank);
                    proof {
                        lemma_product_bounded(
                            armed.x as int,
                            strength as int,
                            5 * STATE_LIMIT,
                            TAKEOFF_FORCE as int,
                        );
                        lemma_product_bounded(
                            armed.y as int,
                            strength as int,
                            5 * STATE_LIMIT,
                            TAKEOFF_FORCE as int,
                        );
                        lemma_product_bounded(
                            armed.z as int,
                            strength as int,
                            5 * STATE_LIMIT,
                            TAKEOFF_FORCE as int,
                        );
                    }
                    armed.scale(strength)
                } else {
                    c.angular
                };
                Contact {
                    velocity: Vec3 { x: c.velocity.x, y: c.velocity.y + lift, z: c.velocity.z },
                    angular,
                    ..c
                }
            } else {
                c
            }
        },
        TakeoffPolicy::Unconditional => {
            if c.speed > TAKEOFF_SPEED {
                proof {
                    lemma_product_bounded(
                        c.speed * 2,
                        dt as int,
                        2 * MAX_SPEED,
                        0x1_0000_0000,
                    );
                }
                let lift: i64 = multiply(multiply(c.speed, TAKEOFF_FORCE), dt as i64);
                Contact {
                    velocity: Vec3 { x: c.velocity.x, y: c.velocity.y + lift, z: c.velocity.z },
                    ..c
                }
            } else {
                c
            }
        },
    }
}

/// What the regime starts from: speed and bounce of the flight state,
/// altitude and velocities of the vehicle, not yet sailing.
pub open spec fn contact_of(state: FlightModel, vehicle: VehicleModel) -> ContactModel {
    ContactModel {
        speed: state.speed,
        bounce: state.impact_bounce,
        altitude: vehicle.position.y,
        velocity: vehicle.linear_velocity,
        angular: vehicle.angular_velocity,
        sailing: false,
    }
}

/// The vehicle strikes the water hard on this tick.
pub open spec fn strikes_hard(state: FlightModel, vehicle: VehicleModel, is_on_water: bool) -> bool {
    hard_impact(floor_step(contact_of(state, vehicle)), impact_edge(is_on_water, state.was_on_water))
}

/// The water takes speed away on this tick: the vehicle has been in contact
/// since the tick before, or it strikes the water hard.
pub open spec fn slowed_by_water(
    state: FlightModel,
    vehicle: VehicleModel,
    is_on_water: bool,
) -> bool {
    is_on_water && (state.was_on_water || strikes_hard(state, vehicle, is_on_water))
}

/// The steps of the regime on a tick in water contact, in their order:
/// floor, impact, bounce, levelling, resistance, stopping, takeoff.
/// `attitude` is read before the orientation is levelled, `heading` after.
pub open spec fn water_steps(
    c: ContactModel,
    impact: bool,
    attitude: Attitude,
    heading: Heading,
    turn_momentum: Triple,
    bank: int,
    dt: int,
    policy: TakeoffPolicy,
) -> ContactModel {
    takeoff_step(
        stopping_step(
            resistance_step(
                levelling_step(
                    bounce_step(impact_step(floor_step(c), impact)),
                    attitude.pitch as int,
                    attitude.roll as int,
                ),
            ),
            impact,
            heading.forward@,
        ),
        policy,
        heading.pitch as int,
        turn_momentum,
        bank,
        dt,
    )
}

/// What the regime leaves behind after one tick. In the air it changes
/// nothing.
pub open spec fn contact_outcome(
    state: FlightModel,
    vehicle: VehicleModel,
    is_on_water: bool,
    attitude: Attitude,
    heading: Heading,
    dt: int,
    policy: TakeoffPolicy,
) -> ContactModel {
    if is_on_water {
        water_steps(
            contact_of(state, vehicle),
            impact_edge(is_on_water, state.was_on_water),
            attitude,
            heading,
            state.turn_momentum,
            state.bank_angle,
            dt,
            policy,
        )
    } else {
        contact_of(state, vehicle)
    }
}

/// The flight state after the regime has run: speed and bounce as the
/// regime left them, and the contact flag of this tick remembered.
pub open spec fn state_after_contact(
    state: FlightModel,
    outcome: ContactModel,
    is_on_water: bool,
) -> FlightModel {
    FlightModel {
        speed: outcome.speed,
        impact_bounce: outcome.bounce,
        was_on_water: is_on_water,
        ..state
    }
}

/// The vehicle after the regime has run.
pub open spec fn vehicle_after_contact(vehicle: VehicleModel, outcome: ContactModel) -> VehicleModel {
    VehicleModel {
        position: Triple { x: vehicle.position.x, y: outcome.altitude, z: vehicle.position.z },
        linear_velocity: outcome.velocity,
        angular_velocity: outcome.angular,
    }
}

/// Runs the water-contact regime for one tick of `dt` microseconds and
/// remembers the contact flag for the next tick. Returns whether the vehicle
/// started to sail on this tick.
///
/// `attitude` holds the Euler angles before the orientation is levelled,
/// `heading` what is read from the orientation after that.
pub fn water_contact(
    state: &mut PlaneState,
    vehicle: &mut Vehicle,
    is_on_water: bool,
    attitude: &Attitude,
    heading: &Heading,
    dt: u32,
    policy: TakeoffPolicy,
) -> (sailing: bool)
    requires
        old(state).well_formed(),
        old(vehicle).well_formed(),
        heading.well_formed(),
    ensures
        final(state)@ == state_after_contact(
            old(state)@,
            contact_outcome(old(state)@, old(vehicle)@, is_on_water, *attitude, *heading, dt as int, policy),
            is_on_water,
        ),
        final(vehicle)@ == vehicle_after_contact(
            old(vehicle)@,
            contact_outcome(old(state)@, old(vehicle)@, is_on_water, *attitude, *heading, dt as int, policy),
        ),
        sailing == contact_outcome(
            old(state)@,
            old(vehicle)@,
            is_on_water,
            *attitude,
            *heading,
            dt as int,
            policy,
        ).sailing,
        final(state).well_formed(),
        final(state).was_on_water == is_on_water,
        final(vehicle).position.bounded(LIMIT as int),
        final(vehicle).linear_velocity.bounded(6 * LIMIT + STATE_LIMIT),
        sailing ==> is_on_water && final(state).speed == WATER_SAILING_SPEED
            && final(vehicle).linear_velocity@ == heading.forward@.scaled(WATER_SAILING_SPEED as int),
        !is_on_water ==> final(state).speed == old(state).speed && final(state).impact_bounce
            == old(state).impact_bounce && final(vehicle)@ == old(vehicle)@,
{
    let mut sailing: bool = false;
    if is_on_water {
        let impact: bool = water_impact(is_on_water, state.was_on_water);
        let start: Contact = Contact {
            speed: state.speed,
            bounce: state.impact_bounce,
            altitude: vehicle.position.y,
            velocity: vehicle.linear_velocity,
            angular: vehicle.angular_velocity,
            sailing: false,
        };
        let afloat: Contact = keep_afloat(start);
        let struck: Contact = absorb_impact(afloat, impact);
        let bounced: Contact = apply_bounce(struck);
        let held: Contact = hold_rotation(bounced, attitude);
        let damped: Contact = resist_water(held);
        let slowed: Contact = slow_to_stop(damped, impact, &heading.forward);
        let lifted: Contact = lift_off(
            slowed,
            policy,
            heading.pitch,
            &state.turn_momentum,
            state.bank_angle,
            dt,
        );
        state.speed = lifted.speed;
        state.impact_bounce = lifted.bounce;
        vehicle.position.y = lifted.altitude;
        vehicle.linear_velocity = lifted.velocity;
        vehicle.angular_velocity = lifted.angular;
        sailing = lifted.sailing;
    }
    state.was_on_water = is_on_water;
    sailing
}

} // verus!
