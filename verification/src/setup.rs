//! The random layout of the scenery: where the decorative islands and
//! clouds stand at the start of a run.

use crate::components::Cloud;
use crate::constants::{CLOUD_COUNT, ISLAND_COUNT};
use crate::fixed::{multiply, product, LIMIT};
use crate::vector::{Triple, Vec3};
use rand::rngs::ThreadRng;
use rand::Rng;
use vstd::prelude::*;

verus! {

/// Islands stand within this distance of the origin along `x` and `z`: the
/// side length of the water divided by two and a half.
pub const ISLAND_REACH: i64 = 600_000_000;

/// Clouds stand within this distance of the origin along `x` and `z`: half
/// the side length of the water.
pub const CLOUD_REACH: i64 = 750_000_000;

/// Lowest altitude of a cloud.
pub const CLOUD_FLOOR: i64 = 30_000_000;

/// Altitude that no cloud reaches.
pub const CLOUD_CEILING: i64 = 80_000_000;

/// Where an island stands and how large it is.
#[derive(Clone, Copy, Debug, PartialEq, Eq, Structural)]
pub struct IslandPlacement {
    pub position: Vec3,
    pub scale: Vec3,
}

/// Where a cloud stands, how large it is and how fast it drifts.
#[derive(Clone, Copy, Debug, PartialEq, Eq, Structural)]
pub struct CloudPlacement {
    pub position: Vec3,
    pub scale: Vec3,
    pub cloud: Cloud,
}

/// The layout of the scenery.
#[derive(Debug)]
pub struct SceneLayout {
    pub islands: Vec<IslandPlacement>,
    pub clouds: Vec<CloudPlacement>,
}

impl IslandPlacement {
    /// The island stands on the water line within reach of the origin, is
    /// between half and twice its base size, and is half as high as wide.
    pub open spec fn well_formed(&self) -> bool {
        &&& -ISLAND_REACH <= self.position.x < ISLAND_REACH
        &&& self.position.y == 0
        &&& -ISLAND_REACH <= self.position.z < ISLAND_REACH
        &&& 500_000 <= self.scale.x < 2_000_000
        &&& self.scale.y == product(self.scale.x as int, 500_000)
        &&& self.scale.z == self.scale.x
    }
}

impl CloudPlacement {
    /// The cloud stands within reach of the origin between floor and
    /// ceiling, and its size and its speed are within their ranges.
    pub open spec fn well_formed(&self) -> bool {
        &&& -CLOUD_REACH <= self.position.x < CLOUD_REACH
        &&& CLOUD_FLOOR <= self.position.y < CLOUD_CEILING
        &&& -CLOUD_REACH <= self.position.z < CLOUD_REACH
        &&& 5_000_000 <= self.scale.x < 15_000_000
        &&& 2_000_000 <= self.scale.y < 5_000_000
        &&& 5_000_000 <= self.scale.z < 15_000_000
        &&& 500_000 <= self.cloud.speed < 2_000_000
    }
}

/// The `ThreadRng` of the `rand` crate, a handle to the random number
/// generator of the calling thread, taken as it is.
#[verifier::external_type_specification]
#[verifier::external_body]
pub struct ExThreadRng(ThreadRng);

/// Calls `rand::thread_rng`, which hands out the calling thread's random
/// number generator. Nothing is claimed of it.
#[verifier::external_body]
fn local_generator() -> ThreadRng {
    rand::thread_rng()
}

/// Calls `Rng::gen_range` on the half-open range from `low` to `high`,
/// which panics on an empty range and else returns a number of the range.
/// Which one is left open.
#[verifier::external_body]
fn random_between(generator: &mut ThreadRng, low: i64, high: i64) -> (drawn: i64)
    requires
        low < high,
    ensures
        low <= drawn < high,
{
    generator.gen_range(low..high)
}

/// The island at `x` and `z` with the base size `size`.
pub fn island_at(x: i64, z: i64, size: i64) -> (island: IslandPlacement)
    requires
        0 <= size <= LIMIT,
    ensures
        island.position@ == (Triple { x: x as int, y: 0, z: z as int }),
        island.scale@ == (Triple {
            x: size as int,
            y: product(size as int, 500_000),
            z: size as int,
        }),
{
    IslandPlacement {
        position: Vec3 { x, y: 0, z },
        scale: Vec3 { x: size, y: multiply(size, 500_000), z: size },
    }
}

/// Draws the place and the size of one island.
pub fn place_island(generator: &mut ThreadRng) -> (island: IslandPlacement)
    ensures
        island.well_formed(),
{
    let x: i64 = random_between(generator, -ISLAND_REACH, ISLAND_REACH);
    let z: i64 = random_between(generator, -ISLAND_REACH, ISLAND_REACH);
    let size: i64 = random_between(generator, 500_000, 2_000_000);
    island_at(x, z, size)
}

/// Draws the place, the size and the speed of one cloud.
pub fn place_cloud(generator: &mut ThreadRng) -> (cloud: CloudPlacement)
    ensures
        cloud.well_formed(),
{
    let x: i64 = random_between(generator, -CLOUD_REACH, CLOUD_REACH);
    let y: i64 = random_between(generator, CLOUD_FLOOR, CLOUD_CEILING);
    let z: i64 = random_between(generator, -CLOUD_REACH, CLOUD_REACH);
    let width: i64 = random_between(generator, 5_000_000, 15_000_000);
    let height: i64 = random_between(generator, 2_000_000, 5_000_000);
    let depth: i64 = random_between(generator, 5_000_000, 15_000_000);
    let speed: i64 = random_between(generator, 500_000, 2_000_000);
    CloudPlacement {
        position: Vec3 { x, y, z },
        scale: Vec3 { x: width, y: height, z: depth },
        cloud: Cloud { speed },
    }
}

/// Draws the layout of the scenery: every island and every cloud at a
/// random place within its range.
pub fn setup() -> (layout: SceneLayout)
    ensures
        layout.islands.len() == ISLAND_COUNT,
        layout.clouds.len() == CLOUD_COUNT,
        forall|i: int| 0 <= i < layout.islands.len() ==> (#[trigger] layout.islands[i]).well_formed(),
        forall|i: int| 0 <= i < layout.clouds.len() ==> (#[trigger] layout.clouds[i]).well_formed(),
{
    let mut generator: ThreadRng = local_generator();
    let mut islands: Vec<IslandPlacement> = Vec::new();
    while islands.len() < ISLAND_COUNT
        invariant
            islands.len() <= ISLAND_COUNT,
            forall|i: int| 0 <= i < islands.len() ==> (#[trigger] islands[i]).well_formed(),
        decreases ISLAND_COUNT - islands.len(),
    {
        let island: IslandPlacement = place_island(&mut generator);
        islands.push(island);
    }
    let mut clouds: Vec<CloudPlacement> = Vec::new();
    while clouds.len() < CLOUD_COUNT
        invariant
            clouds.len() <= CLOUD_COUNT,
            forall|i: int| 0 <= i < clouds.len() ==> (#[trigger] clouds[i]).well_formed(),
        decreases CLOUD_COUNT - clouds.len(),
    {
        let cloud: CloudPlacement = place_cloud(&mut generator);
        clouds.push(cloud);
    }
    SceneLayout { islands, clouds }
}

} // verus!
