//! Saturating fixed-point arithmetic.
//!
//! A scalar is an `i64` that counts millionths: the stored value `v` stands for the number
//! `v / 1_000_000`. Sums, differences and products are computed exactly and then brought
//! back into the symmetric range `-i64::MAX ..= i64::MAX`; quotients and products round
//! toward zero. No operation here can overflow or panic.
use vstd::prelude::*;

verus! {

/// The stored value that stands for the number one.
pub const ONE: i64 = 1_000_000;

/// A scalar that has an exact opposite: every `i64` but the least one.
pub open spec fn symmetric(v: i64) -> bool {
    v > i64::MIN
}

/// The quotient of `a` by a positive `d`, rounded toward zero.
pub open spec fn trunc_div(a: int, d: int) -> int
    recommends
        d > 0,
{
    if a >= 0 {
        a / d
    } else {
        -((-a) / d)
    }
}

/// The scalar nearest to `v` in the symmetric range.
pub open spec fn sat(v: int) -> i64 {
    if v > i64::MAX {
        i64::MAX
    } else if v < -i64::MAX {
        (-i64::MAX) as i64
    } else {
        v as i64
    }
}

/// `a + b`, saturated.
pub open spec fn sum(a: i64, b: i64) -> i64 {
    sat(a + b)
}

/// `a - b`, saturated.
pub open spec fn difference(a: i64, b: i64) -> i64 {
    sat(a - b)
}

/// `-a`, saturated: exact for every symmetric `a`.
pub open spec fn negation(a: i64) -> i64 {
    sat(-a)
}

/// `|a|`, saturated: exact for every symmetric `a`.
pub open spec fn magnitude(a: i64) -> i64 {
    if a >= 0 {
        a
    } else {
        sat(-a)
    }
}

/// The fixed-point product of `a` and `b`: the exact product of the two stored values,
/// divided by [`ONE`] with rounding toward zero, saturated.
pub open spec fn product(a: i64, b: i64) -> i64 {
    sat(trunc_div(a * b, ONE as int))
}

/// Half of `a`, rounded toward zero.
pub open spec fn half(a: i64) -> i64 {
    trunc_div(a as int, 2) as i64
}

/// The larger of two scalars.
pub open spec fn larger(a: i64, b: i64) -> i64 {
    if a >= b {
        a
    } else {
        b
    }
}

/// The smaller of two scalars.
pub open spec fn smaller(a: i64, b: i64) -> i64 {
    if a <= b {
        a
    } else {
        b
    }
}

/// Brings an exact intermediate result back into the symmetric range.
pub fn saturate(v: i128) -> (r: i64)
    ensures
        r == sat(v as int),
        symmetric(r),
{
    if v > i64::MAX as i128 {
        i64::MAX
    } else if v < -(i64::MAX as i128) {
        -i64::MAX
    } else {
        v as i64
    }
}

/// Saturating sum.
pub fn plus(a: i64, b: i64) -> (r: i64)
    ensures
        r == sum(a, b),
        symmetric(r),
{
    saturate(a as i128 + b as i128)
}

/// Saturating difference.
pub fn minus(a: i64, b: i64) -> (r: i64)
    ensures
        r == difference(a, b),
        symmetric(r),
{
    saturate(a as i128 - b as i128)
}

/// Saturating opposite.
pub fn negate(a: i64) -> (r: i64)
    ensures
        r == negation(a),
        symmetric(r),
        symmetric(a) ==> r == -a,
{
    saturate(-(a as i128))
}

/// Saturating absolute value.
pub fn abs(a: i64) -> (r: i64)
    ensures
        r == magnitude(a),
        r >= 0,
        symmetric(a) ==> r == a || r == -a,
{
    if a >= 0 {
        a
    } else {
        saturate(-(a as i128))
    }
}

/// Saturating fixed-point product, rounded toward zero.
pub fn times(a: i64, b: i64) -> (r: i64)
    ensures
        r == product(a, b),
        symmetric(r),
{
    let wide_a: i128 = a as i128;
    let wide_b: i128 = b as i128;
    assert(-0x4000_0000_0000_0000_0000_0000_0000_0000 <= wide_a * wide_b
        <= 0x4000_0000_0000_0000_0000_0000_0000_0000) by (nonlinear_arith)
        requires
            -0x8000_0000_0000_0000 <= wide_a <= 0x8000_0000_0000_0000,
            -0x8000_0000_0000_0000 <= wide_b <= 0x8000_0000_0000_0000,
    ;
    saturate((wide_a * wide_b) / (ONE as i128))
}

/// Half of a scalar, rounded toward zero.
pub fn halve(a: i64) -> (r: i64)
    ensures
        r == half(a),
        symmetric(r),
{
    a / 2
}

/// A pair of scalars: a position in the arena, or a velocity.
#[derive(Clone, Copy, Debug, PartialEq, Eq, Structural)]
pub struct Vec2 {
    pub x: i64,
    pub y: i64,
}

} // verus!
