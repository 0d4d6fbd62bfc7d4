//! The systems that move what surrounds the vehicle: the camera that
//! follows it and the clouds that drift past it.

use crate::components::Cloud;
use crate::fixed::{clamp, clamp_to, lemma_product_bounded, lemma_product_magnitude, multiply,
    product, within, LIMIT, SCALE};
use crate::resources::STATE_LIMIT;
use crate::vector::{lemma_blend_component, Triple, Vec3};
use vstd::prelude::*;

verus! {

/// Squared raw length under which a direction counts as degenerate: a
/// squared length of one thousandth.
pub const DEGENERATE_LENGTH_SQUARED: u128 = 1_000_000_000;

/// Distance at which the camera follows behind the vehicle.
pub const CAMERA_DISTANCE: i64 = 25_000_000;

/// Height of the camera above the vehicle.
pub const CAMERA_HEIGHT: i64 = 8_000_000;

/// Sideways shift of the camera per unit of the sine of the bank.
pub const CAMERA_SWAY: i64 = 5_000_000;

/// Largest share of the way to its target that the camera moves on a tick.
pub const CAMERA_MAX_SHARE: i64 = 150_000;

/// Distance ahead of the vehicle at which the camera looks.
pub const LOOK_AHEAD: i64 = 5_000_000;

/// First component of the wind's direction, the vector `(1, 0, 0.5)` at
/// unit length.
pub const WIND_X: i64 = 894_427;

/// Third component of the wind's direction.
pub const WIND_Z: i64 = 447_214;

/// Coordinate beyond which a cloud is taken back to the opposite edge: half
/// the side length of the water.
pub const CLOUD_EDGE: i64 = 750_000_000;

/// `direction`, or `fallback` where `direction` is too short to point
/// anywhere.
pub open spec fn safe_direction(direction: Triple, fallback: Triple) -> Triple {
    if direction.length_squared() < DEGENERATE_LENGTH_SQUARED {
        fallback
    } else {
        direction
    }
}

/// Where the camera wants to be: behind the vehicle along `back`, above it,
/// and shifted sideways with the sine of the bank.
pub open spec fn desired_camera_position(position: Triple, back: Triple, bank_sine: int) -> Triple {
    position.plus(
        safe_direction(back, Triple { x: 0, y: 0, z: SCALE as int }).scaled(CAMERA_DISTANCE as int),
    ).plus(Triple { x: product(bank_sine, CAMERA_SWAY as int), y: CAMERA_HEIGHT as int, z: 0 })
}

/// Where the camera is after a tick: moved from where it was toward where
/// it wants to be by the share `alpha`, held between zero and the largest
/// share.
pub open spec fn followed(
    camera: Triple,
    position: Triple,
    back: Triple,
    bank_sine: int,
    alpha: int,
) -> Triple {
    camera.blend(
        desired_camera_position(position, back, bank_sine),
        clamp(alpha, 0, CAMERA_MAX_SHARE as int),
    )
}

/// The point that the camera looks at: ahead of the vehicle along
/// `forward`.
pub open spec fn look_target(position: Triple, forward: Triple) -> Triple {
    position.plus(
        safe_direction(forward, Triple { x: 0, y: 0, z: -(SCALE as int) }).scaled(LOOK_AHEAD as int),
    )
}

/// Where a cloud is after drifting with the wind for `dt` at `speed`. A
/// cloud that has passed the edge of the water along `x` or `z` is taken
/// back to the opposite edge.
pub open spec fn drifted(position: Triple, speed: int, dt: int) -> Triple {
    let x = position.x + product(product(WIND_X as int, speed), dt);
    let z = position.z + product(product(WIND_Z as int, speed), dt);
    Triple {
        x: if x > CLOUD_EDGE {
            -(CLOUD_EDGE as int)
        } else {
            x
        },
        y: position.y,
        z: if z > CLOUD_EDGE {
            -(CLOUD_EDGE as int)
        } else {
            z
        },
    }
}

/// Replaces a direction that is too short to point anywhere by `fallback`.
pub fn direction_or(direction: &Vec3, fallback: Vec3) -> (safe: Vec3)
    ensures
        safe@ == safe_direction(direction@, fallback@),
{
    if direction.length_squared() < DEGENERATE_LENGTH_SQUARED {
        fallback
    } else {
        *direction
    }
}

/// Moves the camera toward its place behind the vehicle and tells where it
/// looks. Returns the camera's new position and the point to look at.
///
/// `back` and `forward` are the directions of the vehicle's tail and nose,
/// `bank_sine` is the sine of its roll, and `alpha` is the share of the way
/// that the camera's smoothing asks for on this tick.
pub fn camera_follow(
    camera: &Vec3,
    position: &Vec3,
    back: &Vec3,
    forward: &Vec3,
    bank_sine: i64,
    alpha: i64,
) -> (moved: (Vec3, Vec3))
    requires
        camera.bounded(STATE_LIMIT as int),
        position.bounded(LIMIT as int),
        back.bounded(LIMIT as int),
        forward.bounded(LIMIT as int),
        within(bank_sine as int, LIMIT as int),
    ensures
        moved.0@ == followed(camera@, position@, back@, bank_sine as int, alpha as int),
        moved.1@ == look_target(position@, forward@),
        moved.0.bounded(STATE_LIMIT as int),
{
    let behind: Vec3 = direction_or(back, Vec3 { x: 0, y: 0, z: SCALE });
    let ahead: Vec3 = direction_or(forward, Vec3 { x: 0, y: 0, z: -SCALE });
    let sway: Vec3 = Vec3 { x: multiply(bank_sine, CAMERA_SWAY), y: CAMERA_HEIGHT, z: 0 };
    let desired: Vec3 = position.plus(&behind.scale(CAMERA_DISTANCE)).plus(&sway);
    let target: Vec3 = position.plus(&ahead.scale(LOOK_AHEAD));
    let share: i64 = clamp_to(alpha, 0, CAMERA_MAX_SHARE);
    proof {
        lemma_blend_component(camera.x as int, desired.x as int, share as int);
        lemma_blend_component(camera.y as int, desired.y as int, share as int);
        lemma_blend_component(camera.z as int, desired.z as int, share as int);
    }
    (camera.lerp(&desired, share), target)
}

/// Lets one cloud drift with the wind for `dt` microseconds.
pub fn drift_cloud(position: &Vec3, cloud: &Cloud, dt: u32) -> (next: Vec3)
    requires
        position.bounded(LIMIT as int),
        cloud.well_formed(),
    ensures
        next@ == drifted(position@, cloud.speed as int, dt as int),
        next.bounded(LIMIT as int),
{
    proof {
        lemma_product_magnitude(WIND_X as int, cloud.speed as int);
        lemma_product_magnitude(WIND_Z as int, cloud.speed as int);
        let along: int = product(WIND_X as int, cloud.speed as int);
        let across: int = product(WIND_Z as int, cloud.speed as int);
        lemma_product_bounded(along, dt as int, 894_427_000_000, 0x1_0000_0000);
        lemma_product_bounded(across, dt as int, 447_214_000_000, 0x1_0000_0000);
    }
    let x: i64 = position.x + multiply(multiply(WIND_X, cloud.speed), dt as i64);
    let z: i64 = position.z + multiply(multiply(WIND_Z, cloud.speed), dt as i64);
    Vec3 {
        x: if x > CLOUD_EDGE {
            -CLOUD_EDGE
        } else {
            x
        },
        y: position.y,
        z: if z > CLOUD_EDGE {
            -CLOUD_EDGE
        } else {
            z
        },
    }
}

/// Lets every cloud drift with the wind for `dt` microseconds.
/// `positions[i]` is the position of `clouds[i]`.
pub fn cloud_movement(positions: &mut Vec<Vec3>, clouds: &Vec<Cloud>, dt: u32)
    requires
        old(positions).len() == clouds.len(),
        forall|i: int| 0 <= i < clouds.len() ==> (#[trigger] old(positions)[i]).bounded(LIMIT as int),
        forall|i: int| 0 <= i < clouds.len() ==> (#[trigger] clouds[i]).well_formed(),
    ensures
        final(positions).len() == clouds.len(),
        forall|i: int|
            0 <= i < clouds.len() ==> (#[trigger] final(positions)[i])@ == drifted(
                old(positions)[i]@,
                clouds[i].speed as int,
                dt as int,
            ),
        forall|i: int| 0 <= i < clouds.len() ==> (#[trigger] final(positions)[i]).bounded(LIMIT as int),
{
    let count: usize = clouds.len();
    let mut index: usize = 0;
    while index < count
        invariant
            index <= count,
            count == clouds.len(),
            positions.len() == count,
            forall|i: int| 0 <= i < count ==> (#[trigger] clouds[i]).well_formed(),
            forall|i: int| 0 <= i < index ==> (#[trigger] positions[i])@ == drifted(
                old(positions)[i]@,
                clouds[i].speed as int,
                dt as int,
            ),
            forall|i: int| index <= i < count ==> positions[i] == old(positions)[i],
            forall|i: int| 0 <= i < count ==> (#[trigger] positions[i]).bounded(LIMIT as int),
        decreases count - index,
    {
        let next: Vec3 = drift_cloud(&positions[index], &clouds[index], dt);
        positions.set(index, next);
        index = index + 1;
    }
}

} // verus!
