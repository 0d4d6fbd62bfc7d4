//! The read-only snapshot of the flight that is shown to the pilot. It holds
//! numbers and flags; turning them into text is left to whoever shows them.

use crate::constants::MAX_SPEED;
use crate::contact::{colliding_ids, touches};
use crate::fixed::{divide, multiply, product, ratio, within, SCALE};
use crate::resources::{PlaneState, STATE_LIMIT};
use crate::vector::Vec3;
use crate::vehicle::Attitude;
use crate::water_regime::{is_takeoff_ready, takeoff_ready};
use avian3d::prelude::CollidingEntities;
use vstd::prelude::*;

verus! {

/// Degrees in one radian.
pub const DEGREES_PER_RADIAN: i64 = 57_295_780;

/// What is shown of the flight after a tick.
#[derive(Clone, Copy, Debug, PartialEq, Eq, Structural)]
pub struct FlightSnapshot {
    /// Forward speed.
    pub speed: i64,
    /// Speed as a percentage of the maximum speed.
    pub throttle_percent: i64,
    /// Height of the vehicle above the origin.
    pub altitude: i64,
    /// Whether the vehicle touches the water.
    pub is_on_water: bool,
    /// Euler pitch, in degrees.
    pub pitch_degrees: i64,
    /// Euler yaw, in degrees.
    pub yaw_degrees: i64,
    /// Euler roll, in degrees.
    pub roll_degrees: i64,
    /// Bank angle of the flight state, in degrees.
    pub bank_degrees: i64,
    /// Smoothed linear velocity target.
    pub momentum: Vec3,
    /// Residual bounce of a water impact.
    pub impact_bounce: i64,
    /// Whether the vehicle is ready to take off.
    pub takeoff_ready: bool,
}

/// An angle in degrees.
pub open spec fn degrees(radians: int) -> int {
    product(radians, DEGREES_PER_RADIAN as int)
}

/// A speed as a percentage of the maximum speed.
pub open spec fn percent_of_max(speed: int) -> int {
    ratio(speed, MAX_SPEED as int) * 100
}

/// A report is due on a tick during which the time since the start of the
/// run has passed a whole second.
pub open spec fn report_due(elapsed: int, dt: int) -> bool {
    elapsed / (SCALE as int) != (elapsed - dt) / (SCALE as int)
}

/// Tells whether a report is due on the tick of `dt` microseconds that ends
/// `elapsed` microseconds after the start of the run.
pub fn is_report_due(elapsed: u128, dt: u32) -> (due: bool)
    ensures
        due == report_due(elapsed as int, dt as int),
{
    if elapsed >= dt as u128 {
        elapsed / 1_000_000 != (elapsed - dt as u128) / 1_000_000
    } else {
        true
    }
}

/// Converts an angle from radians to degrees.
pub fn to_degrees(radians: i64) -> (angle: i64)
    requires
        within(radians as int, STATE_LIMIT as int),
    ensures
        angle == degrees(radians as int),
{
    multiply(radians, DEGREES_PER_RADIAN)
}

/// The words that name the contact status.
pub fn status_text(is_on_water: bool) -> (text: &'static str)
    ensures
        text@ == if is_on_water {
            "ON WATER"@
        } else {
            "AIRBORNE"@
        },
{
    if is_on_water {
        "ON WATER"
    } else {
        "AIRBORNE"
    }
}

/// The word that names readiness for takeoff.
pub fn readiness_text(ready: bool) -> (text: &'static str)
    ensures
        text@ == if ready {
            "YES"@
        } else {
            "NO"@
        },
{
    if ready {
        "YES"
    } else {
        "NO"
    }
}

/// Takes the snapshot of the flight that is shown after a tick.
pub fn take_snapshot(
    state: &PlaneState,
    altitude: i64,
    is_on_water: bool,
    attitude: &Attitude,
) -> (shown: FlightSnapshot)
    requires
        state.well_formed(),
        attitude.well_formed(),
    ensures
        shown.speed == state.speed,
        shown.throttle_percent == percent_of_max(state.speed as int),
        shown.altitude == altitude,
        shown.is_on_water == is_on_water,
        shown.pitch_degrees == degrees(attitude.pitch as int),
        shown.yaw_degrees == degrees(attitude.yaw as int),
        shown.roll_degrees == degrees(attitude.roll as int),
        shown.bank_degrees == degrees(state.bank_angle as int),
        shown.momentum == state.momentum,
        shown.impact_bounce == state.impact_bounce,
        shown.takeoff_ready == takeoff_ready(state.speed as int, attitude.pitch as int),
        0 <= shown.throttle_percent <= 100 * SCALE,
{
    FlightSnapshot {
        speed: state.speed,
        throttle_percent: divide(state.speed, MAX_SPEED) * 100,
        altitude,
        is_on_water,
        pitch_degrees: to_degrees(attitude.pitch),
        yaw_degrees: to_degrees(attitude.yaw),
        roll_degrees: to_degrees(attitude.roll),
        bank_degrees: to_degrees(state.bank_angle),
        momentum: state.momentum,
        impact_bounce: state.impact_bounce,
        takeoff_ready: is_takeoff_ready(state.speed, attitude.pitch),
    }
}

/// The display system: reads the contact fact from the entities that touch
/// the vehicle and takes the snapshot of the flight with it.
///
/// `water` holds the bits of the water body's entity.
pub fn update_ui_display(
    state: &PlaneState,
    altitude: i64,
    colliding: &CollidingEntities,
    water: u64,
    attitude: &Attitude,
) -> (shown: FlightSnapshot)
    requires
        state.well_formed(),
        attitude.well_formed(),
    ensures
        shown.speed == state.speed,
        shown.throttle_percent == percent_of_max(state.speed as int),
        shown.altitude == altitude,
        shown.is_on_water == colliding_ids(*colliding).contains(water),
        shown.pitch_degrees == degrees(attitude.pitch as int),
        shown.yaw_degrees == degrees(attitude.yaw as int),
        shown.roll_degrees == degrees(attitude.roll as int),
        shown.bank_degrees == degrees(state.bank_angle as int),
        shown.momentum == state.momentum,
        shown.impact_bounce == state.impact_bounce,
        shown.takeoff_ready == takeoff_ready(state.speed as int, attitude.pitch as int),
{
    let is_on_water: bool = touches(colliding, water);
    take_snapshot(state, altitude, is_on_water, attitude)
}

} // verus!
