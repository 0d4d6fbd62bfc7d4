//! Fixed-point arithmetic on `i64` values that count millionths of a unit.
//!
//! Products and quotients are rounded toward zero, so that negating an operand
//! negates the result and a factor between zero and one never grows a value or
//! flips its sign.

use vstd::prelude::*;

verus! {

/// Number of raw units in one whole unit.
pub const SCALE: i64 = 1_000_000;

/// Largest magnitude accepted for a quantity that is handed in from outside
/// the pipeline (a position, a velocity, an angle): one million whole units.
pub const LIMIT: i64 = 1_000_000_000_000;

/// Absolute value.
pub open spec fn magnitude(x: int) -> int {
    if x < 0 {
        -x
    } else {
        x
    }
}

/// Quotient of `n` by a positive `d`, rounded toward zero.
pub open spec fn trunc_div(n: int, d: int) -> int {
    if n >= 0 {
        n / d
    } else {
        -((-n) / d)
    }
}

/// Fixed-point product of `a` and `b`.
pub open spec fn product(a: int, b: int) -> int {
    trunc_div(a * b, SCALE as int)
}

/// Fixed-point quotient of `a` by a positive `b`.
pub open spec fn ratio(a: int, b: int) -> int {
    trunc_div(a * SCALE, b)
}

/// `x` held between `lo` and `hi`.
pub open spec fn clamp(x: int, lo: int, hi: int) -> int {
    if x < lo {
        lo
    } else if x > hi {
        hi
    } else {
        x
    }
}

/// The smaller of two numbers.
pub open spec fn least(a: int, b: int) -> int {
    if a <= b {
        a
    } else {
        b
    }
}

/// The larger of two numbers.
pub open spec fn greatest(a: int, b: int) -> int {
    if a >= b {
        a
    } else {
        b
    }
}

/// Direction of a signed quantity, with zero counted as positive.
pub open spec fn direction(x: int) -> int {
    if x < 0 {
        -1
    } else {
        1
    }
}

/// Tells whether `x` lies within `bound` of zero.
pub open spec fn within(x: int, bound: int) -> bool {
    -bound <= x <= bound
}

/// The magnitude of a product is the rounded product of the magnitudes, and
/// its sign follows the signs of the factors.
pub proof fn lemma_product_magnitude(a: int, b: int)
    ensures
        magnitude(product(a, b)) == (magnitude(a) * magnitude(b)) / (SCALE as int),
        (a >= 0 && b >= 0) || (a <= 0 && b <= 0) ==> product(a, b) >= 0,
        (a >= 0 && b <= 0) || (a <= 0 && b >= 0) ==> product(a, b) <= 0,
        product(-a, b) == -product(a, b),
        product(a, -b) == -product(a, b),
        product(a, b) == product(b, a),
{
    assert(magnitude(a * b) == magnitude(a) * magnitude(b)) by (nonlinear_arith);
    assert((a >= 0 && b >= 0) || (a <= 0 && b <= 0) ==> a * b >= 0) by (nonlinear_arith);
    assert((-a) * b == -(a * b)) by (nonlinear_arith);
    assert(a * (-b) == -(a * b)) by (nonlinear_arith);
    assert(a * b == b * a) by (nonlinear_arith);
}

/// A product is bounded by the rounded product of bounds on its factors.
pub proof fn lemma_product_bounded(a: int, b: int, bound_a: int, bound_b: int)
    requires
        within(a, bound_a),
        within(b, bound_b),
    ensures
        within(product(a, b), (bound_a * bound_b) / (SCALE as int)),
{
    lemma_product_magnitude(a, b);
    assert(magnitude(a) * magnitude(b) <= bound_a * bound_b) by (nonlinear_arith)
        requires
            0 <= magnitude(a) <= bound_a,
            0 <= magnitude(b) <= bound_b,
    ;
}

/// A factor between zero and one moves a value toward zero and never past it.
pub proof fn lemma_product_shrinks(a: int, f: int)
    requires
        0 <= f <= SCALE,
    ensures
        magnitude(product(a, f)) <= magnitude(a),
        a >= 0 ==> 0 <= product(a, f) <= a,
        a <= 0 ==> a <= product(a, f) <= 0,
{
    lemma_product_magnitude(a, f);
    assert(magnitude(a) * f <= magnitude(a) * SCALE) by (nonlinear_arith)
        requires
            0 <= magnitude(a),
            0 <= f <= SCALE,
    ;
}

/// A factor between zero and one, one left out, moves every value but zero
/// strictly toward zero.
pub proof fn lemma_product_shrinks_strictly(a: int, f: int)
    requires
        0 <= f < SCALE,
        a != 0,
    ensures
        magnitude(product(a, f)) < magnitude(a),
{
    lemma_product_magnitude(a, f);
    assert(magnitude(a) * f < magnitude(a) * SCALE) by (nonlinear_arith)
        requires
            0 < magnitude(a),
            0 <= f < SCALE,
    ;
}

/// A factor between minus one and one never grows the magnitude of a value.
pub proof fn lemma_product_contracts(a: int, f: int)
    requires
        within(f, SCALE as int),
    ensures
        magnitude(product(a, f)) <= magnitude(a),
{
    lemma_product_magnitude(a, f);
    if f >= 0 {
        lemma_product_shrinks(a, f);
    } else {
        lemma_product_shrinks(a, -f);
    }
}

/// A product grows with its first factor when the second is not negative.
pub proof fn lemma_product_ordered(a: int, b: int, f: int)
    requires
        a <= b,
        0 <= f,
    ensures
        product(a, f) <= product(b, f),
{
    assert(a * f <= b * f) by (nonlinear_arith)
        requires
            a <= b,
            0 <= f,
    ;
}

/// Length of a tick from a count of microseconds: the count itself, or the
/// largest `u32` where the count is above it.
pub fn tick_length(micros: u128) -> (dt: u32)
    ensures
        dt == least(micros as int, u32::MAX as int),
{
    if micros > 0xffff_ffff {
        0xffff_ffff
    } else {
        micros as u32
    }
}

/// Absolute value of `x`.
pub fn abs_value(x: i64) -> (m: i64)
    requires
        x > i64::MIN,
    ensures
        m == magnitude(x as int),
{
    if x < 0 {
        -x
    } else {
        x
    }
}

/// Tells whether `x` lies within `bound` of zero.
pub fn is_within(x: i64, bound: i64) -> (inside: bool)
    requires
        0 <= bound,
    ensures
        inside == within(x as int, bound as int),
{
    -bound <= x && x <= bound
}

/// `x` held between `lo` and `hi`.
pub fn clamp_to(x: i64, lo: i64, hi: i64) -> (c: i64)
    requires
        lo <= hi,
    ensures
        c == clamp(x as int, lo as int, hi as int),
        lo <= c <= hi,
{
    if x < lo {
        lo
    } else if x > hi {
        hi
    } else {
        x
    }
}

/// Fixed-point product of `a` and `b`, rounded toward zero.
pub fn multiply(a: i64, b: i64) -> (p: i64)
    requires
        i64::MIN <= product(a as int, b as int) <= i64::MAX,
    ensures
        p == product(a as int, b as int),
{
    // The product of two 64-bit numbers fits in 128 bits.
    assert(-0x4000_0000_0000_0000_0000_0000_0000_0000 <= a * b
        <= 0x4000_0000_0000_0000_0000_0000_0000_0000) by (nonlinear_arith)
        requires
            -0x8000_0000_0000_0000 <= a <= 0x8000_0000_0000_0000,
            -0x8000_0000_0000_0000 <= b <= 0x8000_0000_0000_0000,
    ;
    let wide: i128 = (a as i128) * (b as i128);
    let scaled: i128 = wide / 1_000_000;
    scaled as i64
}

/// Fixed-point quotient of `a` by a positive `b`, rounded toward zero.
pub fn divide(a: i64, b: i64) -> (q: i64)
    requires
        b > 0,
        i64::MIN <= ratio(a as int, b as int) <= i64::MAX,
    ensures
        q == ratio(a as int, b as int),
{
    let wide: i128 = (a as i128) * 1_000_000;
    let scaled: i128 = wide / (b as i128);
    scaled as i64
}

} // verus!
