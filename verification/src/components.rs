//! Data carried by the entities of the scene.

use crate::fixed::LIMIT;
use vstd::prelude::*;

verus! {

/// A decorative cloud that drifts with the wind.
#[derive(Clone, Copy, Debug, PartialEq, Eq, Structural)]
pub struct Cloud {
    /// Speed at which the cloud drifts, in metres per second.
    pub speed: i64,
}

impl Cloud {
    /// The speed is not negative and within [`LIMIT`].
    pub open spec fn well_formed(&self) -> bool {
        0 <= self.speed <= LIMIT
    }

    /// Tells whether the speed is not negative and within [`LIMIT`].
    pub fn is_well_formed(&self) -> (ok: bool)
        ensures
            ok == self.well_formed(),
    {
        0 <= self.speed && self.speed <= LIMIT
    }
}

} // verus!
