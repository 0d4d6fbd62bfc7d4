//! The momentum integrator: smooths the velocity that heading and speed ask
//! for into the tracked momentum, and resets the flight state when the
//! vehicle strays too far from the origin.

use crate::constants::{BOUNDARY_DISTANCE, BOUNDARY_SHARE, MAX_SPEED, MIN_SPEED, MOMENTUM,
    WATER_SIZE};
use crate::fixed::{lemma_product_bounded, product, LIMIT, SCALE};
use crate::resources::{FlightModel, PlaneState};
use crate::vector::{Triple, Vec3};
use crate::vehicle::{Vehicle, VehicleModel};
use vstd::prelude::*;

verus! {

/// Velocity that the heading and the speed ask for.
pub open spec fn target_momentum(forward: Triple, speed: int) -> Triple {
    forward.scaled(speed)
}

/// Momentum after one tick: mostly the old one, with a fixed small share of
/// the target. The share is the same on every tick, whatever its length: the
/// smoothing takes a roughly constant tick rate for granted.
pub open spec fn next_momentum(momentum: Triple, forward: Triple, speed: int) -> Triple {
    momentum.blend(target_momentum(forward, speed), SCALE - MOMENTUM)
}

/// Distance from the origin beyond which the flight state is reset: eight
/// tenths of the side length of the water.
pub open spec fn boundary_distance() -> int {
    product(WATER_SIZE as int, BOUNDARY_SHARE as int)
}

/// The position is farther from the origin than the boundary distance.
pub open spec fn out_of_bounds(position: Triple) -> bool {
    position.length_squared() > boundary_distance() * boundary_distance()
}

/// The flight state after a reset at the boundary: speed, momentum, turn
/// momentum and bank angle are as at the start of a run; the contact flag
/// and the bounce stay.
pub open spec fn reset_state(state: FlightModel) -> FlightModel {
    FlightModel {
        speed: MIN_SPEED as int,
        momentum: FlightModel::initial_momentum(),
        turn_momentum: Triple::zero(),
        bank_angle: 0,
        ..state
    }
}

/// The vehicle after a reset at the boundary: its velocities are as at the
/// start of a run; its position stays.
pub open spec fn reset_vehicle(vehicle: VehicleModel) -> VehicleModel {
    VehicleModel {
        linear_velocity: FlightModel::initial_momentum(),
        angular_velocity: Triple::zero(),
        ..vehicle
    }
}

/// Smooths the momentum toward the velocity that `forward` and the speed ask
/// for, and returns the new momentum.
pub fn integrate_momentum(state: &mut PlaneState, forward: &Vec3) -> (momentum: Vec3)
    requires
        old(state).well_formed(),
        forward.bounded(LIMIT as int),
    ensures
        final(state)@ == (FlightModel {
            momentum: next_momentum(old(state)@.momentum, forward@, old(state)@.speed),
            ..old(state)@
        }),
        momentum == final(state).momentum,
        final(state).well_formed(),
{
    proof {
        lemma_product_bounded(forward.x as int, state.speed as int, LIMIT as int, MAX_SPEED as int);
        lemma_product_bounded(forward.y as int, state.speed as int, LIMIT as int, MAX_SPEED as int);
        lemma_product_bounded(forward.z as int, state.speed as int, LIMIT as int, MAX_SPEED as int);
    }
    let target: Vec3 = forward.scale(state.speed);
    let momentum: Vec3 = state.momentum.lerp(&target, SCALE - MOMENTUM);
    state.momentum = momentum;
    momentum
}

/// Resets flight state and velocities when the vehicle is out of bounds.
/// Returns whether it was.
pub fn enforce_bounds(state: &mut PlaneState, vehicle: &mut Vehicle) -> (reset: bool)
    ensures
        reset == out_of_bounds(old(vehicle)@.position),
        reset ==> final(state)@ == reset_state(old(state)@) && final(vehicle)@ == reset_vehicle(
            old(vehicle)@,
        ),
        !reset ==> *final(state) == *old(state) && *final(vehicle) == *old(vehicle),
        old(state).well_formed() ==> final(state).well_formed(),
{
    if vehicle.position.longer_than(BOUNDARY_DISTANCE) {
        vehicle.linear_velocity = Vec3 { x: 0, y: 0, z: -MIN_SPEED };
        vehicle.angular_velocity = Vec3 { x: 0, y: 0, z: 0 };
        state.momentum = Vec3 { x: 0, y: 0, z: -MIN_SPEED };
        state.turn_momentum = Vec3 { x: 0, y: 0, z: 0 };
        state.bank_angle = 0;
        state.speed = MIN_SPEED;
        true
    } else {
        false
    }
}

} // verus!
