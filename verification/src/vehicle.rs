//! What the physics and transform collaborators hold for the vehicle, as far
//! as the pipeline reads or writes it.

use crate::fixed::{is_within, within, LIMIT};
use crate::vector::{Triple, Vec3};
use vstd::prelude::*;

verus! {

/// Position and velocities of the vehicle.
#[derive(Clone, Copy, Debug, PartialEq, Eq, Structural)]
pub struct Vehicle {
    pub position: Vec3,
    pub linear_velocity: Vec3,
    pub angular_velocity: Vec3,
}

/// The mathematical value of a [`Vehicle`].
pub struct VehicleModel {
    pub position: Triple,
    pub linear_velocity: Triple,
    pub angular_velocity: Triple,
}

impl View for Vehicle {
    type V = VehicleModel;

    open spec fn view(&self) -> VehicleModel {
        VehicleModel {
            position: self.position@,
            linear_velocity: self.linear_velocity@,
            angular_velocity: self.angular_velocity@,
        }
    }
}

impl VehicleModel {
    /// Position and linear velocity are within [`LIMIT`].
    pub open spec fn well_formed(self) -> bool {
        &&& self.position.bounded(LIMIT as int)
        &&& self.linear_velocity.bounded(LIMIT as int)
    }
}

impl Vehicle {
    /// See [`VehicleModel::well_formed`].
    pub open spec fn well_formed(&self) -> bool {
        self@.well_formed()
    }

    /// Tells whether position and linear velocity are within [`LIMIT`].
    pub fn is_well_formed(&self) -> (ok: bool)
        ensures
            ok == self.well_formed(),
    {
        self.position.is_bounded(LIMIT) && self.linear_velocity.is_bounded(LIMIT)
    }
}

/// Euler angles of the vehicle's orientation, in radians. A negative pitch
/// is nose up.
#[derive(Clone, Copy, Debug, PartialEq, Eq, Structural)]
pub struct Attitude {
    pub pitch: i64,
    pub yaw: i64,
    pub roll: i64,
}

impl Attitude {
    /// Every angle is within [`LIMIT`].
    pub open spec fn well_formed(&self) -> bool {
        &&& within(self.pitch as int, LIMIT as int)
        &&& within(self.yaw as int, LIMIT as int)
        &&& within(self.roll as int, LIMIT as int)
    }

    /// Tells whether every angle is within [`LIMIT`].
    pub fn is_well_formed(&self) -> (ok: bool)
        ensures
            ok == self.well_formed(),
    {
        is_within(self.pitch, LIMIT) && is_within(self.yaw, LIMIT) && is_within(self.roll, LIMIT)
    }
}

/// What the rest of a tick reads from the orientation once the water
/// levelling, if any was asked for, has been carried out.
#[derive(Clone, Copy, Debug, PartialEq, Eq, Structural)]
pub struct Heading {
    /// Euler pitch, in radians.
    pub pitch: i64,
    /// Direction in which the vehicle's nose points.
    pub forward: Vec3,
}

impl Heading {
    /// The pitch and every component of the direction are within [`LIMIT`].
    pub open spec fn well_formed(&self) -> bool {
        &&& within(self.pitch as int, LIMIT as int)
        &&& self.forward.bounded(LIMIT as int)
    }

    /// Tells whether the pitch and every component of the direction are
    /// within [`LIMIT`].
    pub fn is_well_formed(&self) -> (ok: bool)
        ensures
            ok == self.well_formed(),
    {
        is_within(self.pitch, LIMIT) && self.forward.is_bounded(LIMIT)
    }
}

} // verus!
