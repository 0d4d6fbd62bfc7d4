//! The flight state that is threaded through the pipeline from tick to tick.

use crate::constants::{MAX_SPEED, MIN_SPEED};
use crate::fixed::{is_within, within};
use crate::vector::{Triple, Vec3};
use vstd::prelude::*;

verus! {

/// Largest magnitude that a smoothed component of the flight state can reach.
pub const STATE_LIMIT: i64 = 100_000_000_000_000;

/// The persistent flight state.
#[derive(Clone, Copy, Debug, PartialEq, Eq, Structural)]
pub struct PlaneState {
    /// Forward speed commanded by the throttle.
    pub speed: i64,
    /// Smoothed linear velocity target.
    pub momentum: Vec3,
    /// Smoothed pitch rate (`x`) and yaw rate (`y`); `z` is unused.
    pub turn_momentum: Vec3,
    /// Signed roll state, in radians.
    pub bank_angle: i64,
    /// Whether the vehicle touched the water on the tick before.
    pub was_on_water: bool,
    /// Residual upward velocity that is left from a hard water impact.
    pub impact_bounce: i64,
}

/// The mathematical value of a [`PlaneState`].
pub struct FlightModel {
    pub speed: int,
    pub momentum: Triple,
    pub turn_momentum: Triple,
    pub bank_angle: int,
    pub was_on_water: bool,
    pub impact_bounce: int,
}

impl View for PlaneState {
    type V = FlightModel;

    open spec fn view(&self) -> FlightModel {
        FlightModel {
            speed: self.speed as int,
            momentum: self.momentum@,
            turn_momentum: self.turn_momentum@,
            bank_angle: self.bank_angle as int,
            was_on_water: self.was_on_water,
            impact_bounce: self.impact_bounce as int,
        }
    }
}

impl FlightModel {
    /// The state at the start of a run: minimum speed, momentum along the
    /// initial facing direction, level, airborne and without bounce.
    pub open spec fn initial() -> FlightModel {
        FlightModel {
            speed: MIN_SPEED as int,
            momentum: Self::initial_momentum(),
            turn_momentum: Triple::zero(),
            bank_angle: 0,
            was_on_water: false,
            impact_bounce: 0,
        }
    }

    /// Momentum at the start of a run: minimum speed along the negative `z`
    /// axis, which the vehicle faces when it is created.
    pub open spec fn initial_momentum() -> Triple {
        Triple { x: 0, y: 0, z: -(MIN_SPEED as int) }
    }

    /// The state is one that the pipeline can work on: the speed is not
    /// negative and not above the maximum, the bounce is not negative, and
    /// every smoothed component is within [`STATE_LIMIT`].
    pub open spec fn well_formed(self) -> bool {
        &&& 0 <= self.speed <= MAX_SPEED
        &&& self.momentum.bounded(STATE_LIMIT as int)
        &&& self.turn_momentum.bounded(STATE_LIMIT as int)
        &&& within(self.bank_angle, STATE_LIMIT as int)
        &&& 0 <= self.impact_bounce <= STATE_LIMIT
    }
}

impl PlaneState {
    /// See [`FlightModel::well_formed`].
    pub open spec fn well_formed(&self) -> bool {
        self@.well_formed()
    }

    /// Tells whether the state is one that the pipeline can work on.
    pub fn is_well_formed(&self) -> (ok: bool)
        ensures
            ok == self.well_formed(),
    {
        0 <= self.speed && self.speed <= MAX_SPEED && self.momentum.is_bounded(STATE_LIMIT)
            && self.turn_momentum.is_bounded(STATE_LIMIT) && is_within(
            self.bank_angle,
            STATE_LIMIT,
        ) && 0 <= self.impact_bounce && self.impact_bounce <= STATE_LIMIT
    }

    /// The state at the start of a run.
    pub fn new() -> (state: PlaneState)
        ensures
            state@ == FlightModel::initial(),
            state.well_formed(),
    {
        PlaneState {
            speed: MIN_SPEED,
            momentum: Vec3 { x: 0, y: 0, z: -MIN_SPEED },
            turn_momentum: Vec3 { x: 0, y: 0, z: 0 },
            bank_angle: 0,
            was_on_water: false,
            impact_bounce: 0,
        }
    }
}

} // verus!
