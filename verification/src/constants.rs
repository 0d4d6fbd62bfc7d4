//! Tuning constants of the simulation, as fixed-point values: each counts
//! millionths of its unit.

use vstd::prelude::*;

verus! {

// World and throttle settings.

/// Lowest speed the throttle can command, in metres per second.
pub const MIN_SPEED: i64 = 25_000_000;

/// Highest speed the throttle can command, in metres per second.
pub const MAX_SPEED: i64 = 80_000_000;

/// Change of speed per second while a throttle control is held.
pub const ACCELERATION: i64 = 10_000_000;

/// Side length of the square water surface, in metres.
pub const WATER_SIZE: i64 = 1_500_000_000;

/// Share of the water's side length that the vehicle may stray from the
/// origin.
pub const BOUNDARY_SHARE: i64 = 800_000;

/// Distance from the origin beyond which the flight state is reset:
/// [`WATER_SIZE`] times [`BOUNDARY_SHARE`].
pub const BOUNDARY_DISTANCE: i64 = 1_200_000_000;

/// Number of decorative islands.
pub const ISLAND_COUNT: usize = 18;

/// Number of decorative clouds.
pub const CLOUD_COUNT: usize = 160;

/// Scale of the vehicle's model.
pub const PLANE_SCALE: i64 = 2_000_000;

// Flight constants.

/// Scale applied to the combined turn intent.
pub const TURN_SPEED: i64 = 500_000;

/// Pitch rate commanded by a held pitch control.
pub const PITCH_SENSITIVITY: i64 = 800_000;

/// Roll authority at full speed, before resistance.
pub const BASE_ROLL_SENSITIVITY: i64 = 200_000;

/// Turn intent contributed by a held yaw control.
pub const YAW_SENSITIVITY: i64 = 300_000;

/// Share of the previous momentum kept on each tick.
pub const MOMENTUM: i64 = 980_000;

/// Share of the previous turn momentum kept on each tick.
pub const TURN_MOMENTUM: i64 = 990_000;

/// Base rate at which the bank angle levels itself in the air.
pub const AUTO_LEVEL_SPEED: i64 = 900_000;

/// Turn intent contributed per radian of bank.
pub const BANK_TURN_RATIO: i64 = 500_000;

/// Largest bank angle, in radians: twenty degrees, rounded toward zero.
pub const MAX_BANK_ANGLE: i64 = 349_065;

/// Bank angle, in radians, at which the airborne levelling rate has doubled
/// its variable part: sixty degrees.
pub const LEVEL_REFERENCE_ANGLE: i64 = 1_047_198;

/// Factor by which a recovering roll input is strengthened.
pub const RECOVERY_GAIN: i64 = 16_000_000;

/// Factor between the bank angle and the exponent of the bank resistance.
pub const RESISTANCE_RATE: i64 = 16_000_000;

/// Factor between the smoothed turn state and the angular velocity.
pub const ANGULAR_GAIN: i64 = 5_000_000;

/// Share of the rotational authority that is left in water contact.
pub const WATER_CONTROL: i64 = 500_000;

// Water constants.

/// Factor applied to the linear velocity on every tick in water contact.
pub const WATER_DAMPING: i64 = 800_000;

/// Rate at which the bank angle levels itself in water contact.
pub const WATER_LEVEL_SPEED: i64 = 15_300_000;

/// Share of [`MAX_SPEED`] that must be exceeded to take off.
pub const TAKEOFF_SPEED_THRESHOLD: i64 = 700_000;

/// Speed that must be exceeded to take off: [`MAX_SPEED`] times
/// [`TAKEOFF_SPEED_THRESHOLD`].
pub const TAKEOFF_SPEED: i64 = 56_000_000;

/// Nose-up pitch, in radians, that must be exceeded to take off.
pub const TAKEOFF_PITCH: i64 = 100_000;

/// Strength of the lift applied during takeoff.
pub const TAKEOFF_FORCE: i64 = 2_000_000;

/// Takeoff strength above which rotational control is handed back.
pub const CONTROL_RESTORE_STRENGTH: i64 = 500_000;

/// Vertical speed above which a water impact bounces and slows the vehicle.
pub const WATER_IMPACT_THRESHOLD: i64 = 4_000_000;

/// Share of the impact speed that becomes the bounce.
pub const WATER_BOUNCE_FACTOR: i64 = 400_000;

/// Factor applied once to speed and velocity on a hard impact.
pub const WATER_IMPACT_SLOWDOWN: i64 = 600_000;

/// Factor applied to the speed on every tick of sustained water contact.
pub const WATER_STOP_SPEED: i64 = 950_000;

/// Speed below which the deceleration on water is strengthened.
pub const WATER_STOP_THRESHOLD: i64 = 5_000_000;

/// Additional factor applied to the speed below [`WATER_STOP_THRESHOLD`].
pub const WATER_STOP_EXTRA: i64 = 950_000;

/// Speed below which the vehicle starts to sail.
pub const SAILING_ENTRY_SPEED: i64 = 1_000_000;

/// Factor applied to the horizontal velocity in water contact.
pub const WATER_STABILIZE_FACTOR: i64 = 900_000;

/// Speed of a sailing vehicle. It lies under [`MIN_SPEED`] on purpose: a
/// vehicle that the water has slowed down sails at this speed until the
/// throttle or a reset at the boundary takes it back into the throttle's
/// range.
pub const WATER_SAILING_SPEED: i64 = 5_000_000;

/// Rate at which the orientation is levelled in water contact.
pub const WATER_LEVEL_ROTATION_SPEED: i64 = 10_500_000;

/// Altitude below which a vehicle in water contact is lifted back.
pub const WATER_FLOOR: i64 = 100_000;

/// Pitch or roll, in radians, above which the orientation is levelled.
pub const LEVEL_TOLERANCE: i64 = 10_000;

/// Factor by which the bounce decays on every tick in water contact.
pub const BOUNCE_DECAY: i64 = 800_000;

/// Bounce below which the bounce is cleared.
pub const BOUNCE_CUTOFF: i64 = 100_000;

} // verus!
