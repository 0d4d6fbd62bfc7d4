//! Three-component fixed-point vectors.

use crate::fixed::{greatest, is_within, least, lemma_product_shrinks, magnitude, multiply,
    product, within, SCALE};
use vstd::prelude::*;

verus! {

/// A vector of three fixed-point components.
#[derive(Clone, Copy, Debug, PartialEq, Eq, Structural)]
pub struct Vec3 {
    pub x: i64,
    pub y: i64,
    pub z: i64,
}

/// The mathematical value of a [`Vec3`]: three unbounded integers.
pub struct Triple {
    pub x: int,
    pub y: int,
    pub z: int,
}

impl View for Vec3 {
    type V = Triple;

    open spec fn view(&self) -> Triple {
        Triple { x: self.x as int, y: self.y as int, z: self.z as int }
    }
}

impl Triple {
    /// The vector with all components zero.
    pub open spec fn zero() -> Triple {
        Triple { x: 0, y: 0, z: 0 }
    }

    /// Every component lies within `bound` of zero.
    pub open spec fn bounded(self, bound: int) -> bool {
        within(self.x, bound) && within(self.y, bound) && within(self.z, bound)
    }

    /// Each component multiplied by the fixed-point factor `f`.
    pub open spec fn scaled(self, f: int) -> Triple {
        Triple { x: product(self.x, f), y: product(self.y, f), z: product(self.z, f) }
    }

    /// Component-wise sum.
    pub open spec fn plus(self, other: Triple) -> Triple {
        Triple { x: self.x + other.x, y: self.y + other.y, z: self.z + other.z }
    }

    /// The blend `self * (1 - s) + target * s`, each product rounded on its own.
    pub open spec fn blend(self, target: Triple, s: int) -> Triple {
        self.scaled(SCALE - s).plus(target.scaled(s))
    }

    /// Sum of the squared raw components.
    pub open spec fn length_squared(self) -> int {
        self.x * self.x + self.y * self.y + self.z * self.z
    }
}

/// Blending with a share between zero and one never takes a component
/// farther from zero than the farther of the two it is blended from, and
/// keeps it between them once that range is widened to hold zero.
pub proof fn lemma_blend_component(a: int, b: int, s: int)
    requires
        0 <= s <= SCALE,
    ensures
        magnitude(product(a, SCALE - s) + product(b, s)) <= greatest(magnitude(a), magnitude(b)),
        least(least(a, b), 0) <= product(a, SCALE - s) + product(b, s) <= greatest(
            greatest(a, b),
            0,
        ),
{
    crate::fixed::lemma_product_magnitude(a, SCALE - s);
    crate::fixed::lemma_product_magnitude(b, s);
    let m: int = greatest(magnitude(a), magnitude(b));
    let pa: int = magnitude(a) * (SCALE - s);
    let pb: int = magnitude(b) * s;
    assert(pa <= m * (SCALE - s)) by (nonlinear_arith)
        requires
            pa == magnitude(a) * (SCALE - s),
            0 <= magnitude(a) <= m,
            0 <= SCALE - s,
    ;
    assert(pb <= m * s) by (nonlinear_arith)
        requires
            pb == magnitude(b) * s,
            0 <= magnitude(b) <= m,
            0 <= s,
    ;
    assert(m * (SCALE - s) + m * s == SCALE * m) by (nonlinear_arith);
    // Two quotients rounded down never add up to more than the quotient of
    // the sum.
    assert(pa / (SCALE as int) + pb / (SCALE as int) <= m);
    // Each product lies between its factor and zero.
    lemma_product_shrinks(a, SCALE - s);
    lemma_product_shrinks(b, s);
}

impl Vec3 {
    /// Every component lies within `bound` of zero.
    pub open spec fn bounded(&self, bound: int) -> bool {
        self@.bounded(bound)
    }

    /// A vector from its three components.
    pub fn new(x: i64, y: i64, z: i64) -> (v: Vec3)
        ensures
            v == (Vec3 { x, y, z }),
    {
        Vec3 { x, y, z }
    }

    /// The vector with all components zero.
    pub fn zero() -> (v: Vec3)
        ensures
            v@ == Triple::zero(),
    {
        Vec3 { x: 0, y: 0, z: 0 }
    }

    /// Tells whether every component lies within `bound` of zero.
    pub fn is_bounded(&self, bound: i64) -> (inside: bool)
        requires
            0 <= bound,
        ensures
            inside == self.bounded(bound as int),
    {
        is_within(self.x, bound) && is_within(self.y, bound) && is_within(self.z, bound)
    }

    /// Each component multiplied by the fixed-point factor `f`.
    pub fn scale(&self, f: i64) -> (v: Vec3)
        requires
            i64::MIN <= product(self.x as int, f as int) <= i64::MAX,
            i64::MIN <= product(self.y as int, f as int) <= i64::MAX,
            i64::MIN <= product(self.z as int, f as int) <= i64::MAX,
        ensures
            v@ == self@.scaled(f as int),
    {
        Vec3 { x: multiply(self.x, f), y: multiply(self.y, f), z: multiply(self.z, f) }
    }

    /// Component-wise sum.
    pub fn plus(&self, other: &Vec3) -> (v: Vec3)
        requires
            i64::MIN <= self.x + other.x <= i64::MAX,
            i64::MIN <= self.y + other.y <= i64::MAX,
            i64::MIN <= self.z + other.z <= i64::MAX,
        ensures
            v@ == self@.plus(other@),
    {
        Vec3 { x: self.x + other.x, y: self.y + other.y, z: self.z + other.z }
    }

    /// Blend of `self` and `target` with share `s` of `target`.
    pub fn lerp(&self, target: &Vec3, s: i64) -> (v: Vec3)
        requires
            0 <= s <= SCALE,
            self.bounded(i64::MAX as int),
            target.bounded(i64::MAX as int),
        ensures
            v@ == self@.blend(target@, s as int),
    {
        proof {
            lemma_blend_component(self.x as int, target.x as int, s as int);
            lemma_blend_component(self.y as int, target.y as int, s as int);
            lemma_blend_component(self.z as int, target.z as int, s as int);
            lemma_product_shrinks(self.x as int, SCALE - s);
            lemma_product_shrinks(self.y as int, SCALE - s);
            lemma_product_shrinks(self.z as int, SCALE - s);
            lemma_product_shrinks(target.x as int, s as int);
            lemma_product_shrinks(target.y as int, s as int);
            lemma_product_shrinks(target.z as int, s as int);
        }
        let keep: i64 = SCALE - s;
        Vec3 {
            x: multiply(self.x, keep) + multiply(target.x, s),
            y: multiply(self.y, keep) + multiply(target.y, s),
            z: multiply(self.z, keep) + multiply(target.z, s),
        }
    }

    /// Sum of the squared raw components.
    pub fn length_squared(&self) -> (sq: u128)
        ensures
            sq == self@.length_squared(),
    {
        let x: i128 = self.x as i128;
        let y: i128 = self.y as i128;
        let z: i128 = self.z as i128;
        assert(0 <= x * x <= 0x4000_0000_0000_0000_0000_0000_0000_0000) by (nonlinear_arith)
            requires
                -0x8000_0000_0000_0000 <= x <= 0x8000_0000_0000_0000,
        ;
        assert(0 <= y * y <= 0x4000_0000_0000_0000_0000_0000_0000_0000) by (nonlinear_arith)
            requires
                -0x8000_0000_0000_0000 <= y <= 0x8000_0000_0000_0000,
        ;
        assert(0 <= z * z <= 0x4000_0000_0000_0000_0000_0000_0000_0000) by (nonlinear_arith)
            requires
                -0x8000_0000_0000_0000 <= z <= 0x8000_0000_0000_0000,
        ;
        let xx: u128 = (x * x) as u128;
        let yy: u128 = (y * y) as u128;
        let zz: u128 = (z * z) as u128;
        xx + yy + zz
    }

    /// Tells whether the vector is longer than the fixed-point distance `d`.
    pub fn longer_than(&self, d: i64) -> (longer: bool)
        requires
            d >= 0,
        ensures
            longer == (self@.length_squared() > d * d),
    {
        let wide: i128 = d as i128;
        assert(0 <= wide * wide <= 0x4000_0000_0000_0000_0000_0000_0000_0000) by (nonlinear_arith)
            requires
                0 <= wide <= 0x8000_0000_0000_0000,
        ;
        let dd: u128 = (wide * wide) as u128;
        self.length_squared() > dd
    }
}

} // verus!
