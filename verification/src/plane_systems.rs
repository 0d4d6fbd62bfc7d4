//! The two systems that make up a simulation tick: the controller, which
//! runs the control mapper and the bank and turn model, and the physics,
//! which runs the water-contact regime and the momentum integrator.
//!
//! Each comes in two forms. [`control_step`] and [`physics_step`] take the
//! held controls and the contact fact as plain values. [`plane_controller`]
//! and [`plane_physics`] read them from the state of the keyboard and from
//! the entities that the collision system reports, and so does
//! [`plane_levelling`], which the physics system asks before it reads the
//! heading.

use crate::bank_model::{angular_velocity, angular_velocity_of, bank_after_tick, base_sensitivity,
    level_share, next_bank, next_turn_momentum, roll_sensitivity, rolled, smooth_turn,
    target_turn, turn_target};
use crate::constants::{MAX_BANK_ANGLE, MIN_SPEED, WATER_FLOOR};
use crate::contact::{colliding_ids, touches};
use crate::control_mapper::{apply_throttle, axis, controls_of, pressed_keys, read_controls,
    throttled, Controls, Intent};
use crate::fixed::{within, SCALE};
use crate::momentum::{enforce_bounds, integrate_momentum, next_momentum, out_of_bounds,
    reset_state, reset_vehicle};
use crate::resources::{FlightModel, PlaneState};
use crate::vector::{Triple, Vec3};
use crate::vehicle::{Attitude, Heading, Vehicle, VehicleModel};
use crate::water_regime::{contact_outcome, levelling, levelling_fraction, needs_levelling,
    slowed_by_water, state_after_contact, vehicle_after_contact, water_contact, TakeoffPolicy};
use avian3d::prelude::CollidingEntities;
use bevy::input::keyboard::KeyCode;
use bevy::input::ButtonInput;
use vstd::prelude::*;

verus! {

/// Bank angle after the roll intent has acted and before levelling.
pub open spec fn bank_before_levelling(
    state: FlightModel,
    controls: Controls,
    is_on_water: bool,
    dt: int,
    resistance: int,
) -> int {
    let speed = throttled(state.speed, controls.throttle_up, controls.throttle_down, dt);
    let roll = axis(controls.roll_left, controls.roll_right);
    rolled(
        state.bank_angle,
        roll,
        roll_sensitivity(base_sensitivity(speed), roll, state.bank_angle, resistance),
        dt,
        is_on_water,
    )
}

/// Share of the bank that levelling takes away on this tick, or zero when
/// levelling does not act.
pub open spec fn levelling_share(
    state: FlightModel,
    controls: Controls,
    is_on_water: bool,
    dt: int,
    resistance: int,
) -> int {
    if axis(controls.roll_left, controls.roll_right) == 0 || is_on_water {
        level_share(
            bank_before_levelling(state, controls, is_on_water, dt, resistance),
            is_on_water,
            dt,
        )
    } else {
        0
    }
}

/// The flight state after the controller has run for `dt` microseconds:
/// the throttle has acted on the speed, the roll intent and the levelling on
/// the bank angle, and the turn momentum has moved toward the turn rates
/// that the intents and the new bank ask for.
pub open spec fn controller_state(
    state: FlightModel,
    controls: Controls,
    is_on_water: bool,
    dt: int,
    resistance: int,
) -> FlightModel {
    let speed = throttled(state.speed, controls.throttle_up, controls.throttle_down, dt);
    let bank = next_bank(
        state.bank_angle,
        speed,
        axis(controls.roll_left, controls.roll_right),
        is_on_water,
        dt,
        resistance,
    );
    FlightModel {
        speed,
        bank_angle: bank,
        turn_momentum: next_turn_momentum(
            state.turn_momentum,
            target_turn(
                bank,
                axis(controls.pitch_up, controls.pitch_down),
                axis(controls.yaw_left, controls.yaw_right),
                is_on_water,
            ),
        ),
        ..state
    }
}

/// The vehicle after the controller has run: its angular velocity follows
/// the new turn momentum and bank angle.
pub open spec fn controller_vehicle(vehicle: VehicleModel, next: FlightModel) -> VehicleModel {
    VehicleModel {
        angular_velocity: angular_velocity_of(next.turn_momentum, next.bank_angle),
        ..vehicle
    }
}

/// The flight state after the physics has run: the water-contact regime,
/// then the momentum integrator, then the reset at the boundary.
pub open spec fn physics_state(
    state: FlightModel,
    vehicle: VehicleModel,
    is_on_water: bool,
    attitude: Attitude,
    heading: Heading,
    dt: int,
    policy: TakeoffPolicy,
) -> FlightModel {
    let outcome = contact_outcome(state, vehicle, is_on_water, attitude, heading, dt, policy);
    let settled = state_after_contact(state, outcome, is_on_water);
    let integrated = FlightModel {
        momentum: next_momentum(settled.momentum, heading.forward@, settled.speed),
        ..settled
    };
    if out_of_bounds(vehicle_after_contact(vehicle, outcome).position) {
        reset_state(integrated)
    } else {
        integrated
    }
}

/// The vehicle after the physics has run. Its linear velocity is the new
/// momentum, unless the vehicle started to sail on this tick, which sets the
/// velocity directly.
pub open spec fn physics_vehicle(
    state: FlightModel,
    vehicle: VehicleModel,
    is_on_water: bool,
    attitude: Attitude,
    heading: Heading,
    dt: int,
    policy: TakeoffPolicy,
) -> VehicleModel {
    let outcome = contact_outcome(state, vehicle, is_on_water, attitude, heading, dt, policy);
    let settled = vehicle_after_contact(vehicle, outcome);
    let committed = VehicleModel {
        linear_velocity: if outcome.sailing {
            outcome.velocity
        } else {
            next_momentum(state.momentum, heading.forward@, outcome.speed)
        },
        ..settled
    };
    if out_of_bounds(settled.position) {
        reset_vehicle(committed)
    } else {
        committed
    }
}

/// Everything that one tick reads from outside the flight state.
pub struct TickInput {
    /// The controls that are held.
    pub controls: Controls,
    /// Whether the vehicle touches the water.
    pub is_on_water: bool,
    /// Length of the tick, in microseconds.
    pub dt: int,
    /// Resistance of the bank angle against being deepened.
    pub bank_resistance: int,
    /// Position and velocities of the vehicle at the start of the tick.
    pub vehicle: VehicleModel,
    /// Euler angles before the orientation is levelled.
    pub attitude: Attitude,
    /// Pitch and facing direction after the orientation is levelled.
    pub heading: Heading,
    /// How readiness for takeoff is decided.
    pub policy: TakeoffPolicy,
}

impl TickInput {
    /// The input is one that a tick can work on.
    pub open spec fn well_formed(self) -> bool {
        &&& 0 <= self.dt <= u32::MAX
        &&& self.bank_resistance >= SCALE
        &&& self.vehicle.well_formed()
        &&& self.heading.well_formed()
    }
}

/// The flight state after one whole tick: the controller, then the physics.
pub open spec fn tick_state(state: FlightModel, input: TickInput) -> FlightModel {
    let steered = controller_state(
        state,
        input.controls,
        input.is_on_water,
        input.dt,
        input.bank_resistance,
    );
    physics_state(
        steered,
        controller_vehicle(input.vehicle, steered),
        input.is_on_water,
        input.attitude,
        input.heading,
        input.dt,
        input.policy,
    )
}

/// The vehicle after one whole tick.
pub open spec fn tick_vehicle(state: FlightModel, input: TickInput) -> VehicleModel {
    let steered = controller_state(
        state,
        input.controls,
        input.is_on_water,
        input.dt,
        input.bank_resistance,
    );
    physics_vehicle(
        steered,
        controller_vehicle(input.vehicle, steered),
        input.is_on_water,
        input.attitude,
        input.heading,
        input.dt,
        input.policy,
    )
}

/// The water takes speed away on this tick: the vehicle has been in contact
/// since the tick before, or it strikes the water hard.
pub open spec fn water_slows(state: FlightModel, input: TickInput) -> bool {
    let steered = controller_state(
        state,
        input.controls,
        input.is_on_water,
        input.dt,
        input.bank_resistance,
    );
    slowed_by_water(steered, controller_vehicle(input.vehicle, steered), input.is_on_water)
}

/// The vehicle is reset on this tick: once lifted to the water line, it is
/// farther from the origin than the boundary distance.
pub open spec fn resets(input: TickInput) -> bool {
    out_of_bounds(settled_position(input.vehicle.position, input.is_on_water))
}

/// The flight state after one tick for each of `inputs`, in their order.
pub open spec fn run(state: FlightModel, inputs: Seq<TickInput>) -> FlightModel
    decreases inputs.len(),
{
    if inputs.len() == 0 {
        state
    } else {
        tick_state(run(state, inputs.drop_last()), inputs.last())
    }
}

/// Position of the vehicle once the water-contact regime has lifted it to
/// the water line, if it had to.
pub open spec fn settled_position(position: Triple, is_on_water: bool) -> Triple {
    if is_on_water && position.y < WATER_FLOOR {
        Triple { x: position.x, y: WATER_FLOOR as int, z: position.z }
    } else {
        position
    }
}

/// Runs the control mapper and the bank and turn model for one tick of `dt`
/// microseconds, and writes the angular velocity that follows from them.
///
/// `bank_resistance` is the resistance of the bank angle against being
/// deepened, as a fixed-point number not below one.
pub fn control_step(
    controls: &Controls,
    state: &mut PlaneState,
    vehicle: &mut Vehicle,
    is_on_water: bool,
    dt: u32,
    bank_resistance: i64,
)
    requires
        old(state).well_formed(),
        bank_resistance >= SCALE,
    ensures
        final(state)@ == controller_state(
            old(state)@,
            *controls,
            is_on_water,
            dt as int,
            bank_resistance as int,
        ),
        final(vehicle)@ == controller_vehicle(old(vehicle)@, final(state)@),
        final(state).well_formed(),
        MIN_SPEED <= old(state).speed ==> MIN_SPEED <= final(state).speed,
        levelling_share(old(state)@, *controls, is_on_water, dt as int, bank_resistance as int)
            <= 2 * SCALE ==> within(final(state).bank_angle as int, MAX_BANK_ANGLE as int),
{
    let intent: Intent = controls.intent();
    state.speed = apply_throttle(state.speed, controls.throttle_up, controls.throttle_down, dt);
    state.bank_angle = bank_after_tick(
        state.bank_angle,
        state.speed,
        intent.roll,
        is_on_water,
        dt,
        bank_resistance,
    );
    let target: Vec3 = turn_target(state.bank_angle, intent.pitch, intent.yaw, is_on_water);
    state.turn_momentum = smooth_turn(&state.turn_momentum, &target);
    vehicle.angular_velocity = angular_velocity(&state.turn_momentum, state.bank_angle);
}

/// Runs the water-contact regime and the momentum integrator for one tick
/// of `dt` microseconds, and resets the flight state when the vehicle has
/// left the bounds.
///
/// `attitude` holds the Euler angles before the orientation is levelled,
/// `heading` what is read from the orientation after that.
pub fn physics_step(
    state: &mut PlaneState,
    vehicle: &mut Vehicle,
    is_on_water: bool,
    attitude: &Attitude,
    heading: &Heading,
    dt: u32,
    policy: TakeoffPolicy,
)
    requires
        old(state).well_formed(),
        old(vehicle).well_formed(),
        heading.well_formed(),
    ensures
        final(state)@ == physics_state(
            old(state)@,
            old(vehicle)@,
            is_on_water,
            *attitude,
            *heading,
            dt as int,
            policy,
        ),
        final(vehicle)@ == physics_vehicle(
            old(state)@,
            old(vehicle)@,
            is_on_water,
            *attitude,
            *heading,
            dt as int,
            policy,
        ),
        final(state).well_formed(),
        final(state).was_on_water == is_on_water,
        final(vehicle)@.position == settled_position(old(vehicle)@.position, is_on_water),
        out_of_bounds(settled_position(old(vehicle)@.position, is_on_water)) ==> {
            &&& final(state).speed == MIN_SPEED
            &&& final(state).bank_angle == 0
            &&& final(state)@.momentum == FlightModel::initial_momentum()
            &&& final(state)@.turn_momentum == Triple::zero()
            &&& final(vehicle)@.linear_velocity == FlightModel::initial_momentum()
            &&& final(vehicle)@.angular_velocity == Triple::zero()
        },
        !is_on_water && !out_of_bounds(old(vehicle)@.position) ==> {
            &&& final(state).speed == old(state).speed
            &&& final(state).bank_angle == old(state).bank_angle
            &&& final(state).impact_bounce == old(state).impact_bounce
        },
{
    let sailing: bool = water_contact(state, vehicle, is_on_water, attitude, heading, dt, policy);
    let momentum: Vec3 = integrate_momentum(state, &heading.forward);
    if !sailing {
        vehicle.linear_velocity = momentum;
    }
    enforce_bounds(state, vehicle);
}

/// Runs one whole tick of `dt` microseconds: the controller, then the
/// physics.
///
/// `attitude` holds the Euler angles before the orientation is levelled,
/// `heading` what is read from the orientation after that.
pub fn tick(
    state: &mut PlaneState,
    vehicle: &mut Vehicle,
    controls: &Controls,
    is_on_water: bool,
    attitude: &Attitude,
    heading: &Heading,
    dt: u32,
    bank_resistance: i64,
    policy: TakeoffPolicy,
)
    requires
        old(state).well_formed(),
        old(vehicle).well_formed(),
        heading.well_formed(),
        bank_resistance >= SCALE,
    ensures
        final(state)@ == tick_state(
            old(state)@,
            TickInput {
                controls: *controls,
                is_on_water,
                dt: dt as int,
                bank_resistance: bank_resistance as int,
                vehicle: old(vehicle)@,
                attitude: *attitude,
                heading: *heading,
                policy,
            },
        ),
        final(vehicle)@ == tick_vehicle(
            old(state)@,
            TickInput {
                controls: *controls,
                is_on_water,
                dt: dt as int,
                bank_resistance: bank_resistance as int,
                vehicle: old(vehicle)@,
                attitude: *attitude,
                heading: *heading,
                policy,
            },
        ),
        final(state).well_formed(),
        final(state).was_on_water == is_on_water,
{
    control_step(controls, state, vehicle, is_on_water, dt, bank_resistance);
    physics_step(state, vehicle, is_on_water, attitude, heading, dt, policy);
}

/// The levelling decision of the physics system: reads the contact fact
/// from the entities that touch the vehicle and decides with it whether the
/// orientation is to be levelled on this tick, and by what share of the way
/// toward level.
///
/// `water` holds the bits of the water body's entity.
pub fn plane_levelling(
    colliding: &CollidingEntities,
    water: u64,
    attitude: &Attitude,
    dt: u32,
) -> (fraction: Option<i64>)
    ensures
        fraction.is_some() == (colliding_ids(*colliding).contains(water) && needs_levelling(
            attitude.pitch as int,
            attitude.roll as int,
        )),
        fraction matches Some(f) ==> f == levelling_fraction(dt as int),
{
    let is_on_water: bool = touches(colliding, water);
    levelling(is_on_water, attitude, dt)
}

/// The controller system: reads the held controls from the keyboard and the
/// contact fact from the entities that touch the vehicle, and runs
/// [`control_step`] with them.
///
/// `water` holds the bits of the water body's entity.
pub fn plane_controller(
    keyboard: &ButtonInput<KeyCode>,
    state: &mut PlaneState,
    vehicle: &mut Vehicle,
    colliding: &CollidingEntities,
    water: u64,
    dt: u32,
    bank_resistance: i64,
)
    requires
        old(state).well_formed(),
        bank_resistance >= SCALE,
    ensures
        final(state)@ == controller_state(
            old(state)@,
            controls_of(pressed_keys(*keyboard)),
            colliding_ids(*colliding).contains(water),
            dt as int,
            bank_resistance as int,
        ),
        final(vehicle)@ == controller_vehicle(old(vehicle)@, final(state)@),
        final(state).well_formed(),
        MIN_SPEED <= old(state).speed ==> MIN_SPEED <= final(state).speed,
        levelling_share(
            old(state)@,
            controls_of(pressed_keys(*keyboard)),
            colliding_ids(*colliding).contains(water),
            dt as int,
            bank_resistance as int,
        ) <= 2 * SCALE ==> within(final(state).bank_angle as int, MAX_BANK_ANGLE as int),
{
    let controls: Controls = read_controls(keyboard);
    let is_on_water: bool = touches(colliding, water);
    control_step(&controls, state, vehicle, is_on_water, dt, bank_resistance);
}

/// The physics system: reads the contact fact from the entities that touch
/// the vehicle and runs [`physics_step`] with it.
///
/// `water` holds the bits of the water body's entity. `attitude` holds the
/// Euler angles before the orientation is levelled, `heading` what is read
/// from the orientation after that.
pub fn plane_physics(
    state: &mut PlaneState,
    vehicle: &mut Vehicle,
    colliding: &CollidingEntities,
    water: u64,
    attitude: &Attitude,
    heading: &Heading,
    dt: u32,
    policy: TakeoffPolicy,
)
    requires
        old(state).well_formed(),
        old(vehicle).well_formed(),
        heading.well_formed(),
    ensures
        final(state)@ == physics_state(
            old(state)@,
            old(vehicle)@,
            colliding_ids(*colliding).contains(water),
            *attitude,
            *heading,
            dt as int,
            policy,
        ),
        final(vehicle)@ == physics_vehicle(
            old(state)@,
            old(vehicle)@,
            colliding_ids(*colliding).contains(water),
            *attitude,
            *heading,
            dt as int,
            policy,
        ),
        final(state).well_formed(),
        final(state).was_on_water == colliding_ids(*colliding).contains(water),
        final(vehicle)@.position == settled_position(
            old(vehicle)@.position,
            colliding_ids(*colliding).contains(water),
        ),
{
    let is_on_water: bool = touches(colliding, water);
    physics_step(state, vehicle, is_on_water, attitude, heading, dt, policy);
}

} // verus!
