//! The points and lengths this library computes with.
//!
//! A point is a `bevy::math::Vec3` and a length is a `bevy::math::FloatOrd`,
//! the single-precision number in a wrapper. Both are opaque here: nothing in
//! this library looks inside one. Each arithmetic operation is a call into
//! `bevy::math`, and its result has a name below. A name stands for the value
//! that IEEE 754 arithmetic gives, every NaN counted as one value; nothing
//! more is assumed about it.

use vstd::prelude::*;
use bevy::math::{FloatOrd, Vec3};

verus! {

/// `bevy::math::Vec3`, three single-precision coordinates.
#[verifier::external_type_specification]
#[verifier::external_body]
pub struct ExVec3(bevy::math::Vec3);

/// `bevy::math::FloatOrd`, one single-precision number.
#[verifier::external_type_specification]
#[verifier::external_body]
pub struct ExFloatOrd(bevy::math::FloatOrd);

/// The number that the integer `n` converts to.
pub uninterp spec fn scalar_of(n: int) -> FloatOrd;

/// The sum of two numbers.
pub uninterp spec fn scalar_sum(a: FloatOrd, b: FloatOrd) -> FloatOrd;

/// The number `a` with its sign flipped.
pub uninterp spec fn scalar_negated(a: FloatOrd) -> FloatOrd;

/// Whether `a` is strictly less than `b`.
pub uninterp spec fn scalar_less(a: FloatOrd, b: FloatOrd) -> bool;

/// The vector with the coordinates `x`, `y` and `z`.
pub uninterp spec fn vec3_of(x: FloatOrd, y: FloatOrd, z: FloatOrd) -> Vec3;

/// The coordinate-wise sum of two vectors.
pub uninterp spec fn vec3_sum(a: Vec3, b: Vec3) -> Vec3;

/// The coordinate-wise difference `a - b`.
pub uninterp spec fn vec3_difference(a: Vec3, b: Vec3) -> Vec3;

/// The vector `v` with every coordinate multiplied by `s`.
pub uninterp spec fn vec3_scaled(v: Vec3, s: FloatOrd) -> Vec3;

/// The vector `v` with every coordinate divided by `s`.
pub uninterp spec fn vec3_quotient(v: Vec3, s: FloatOrd) -> Vec3;

/// The vector `v` brought to length one, or the zero vector where `v` has no
/// direction: where the reciprocal of its length is not a positive finite
/// number.
pub uninterp spec fn vec3_unit_or_zero(v: Vec3) -> Vec3;

/// The Euclidean distance between two points.
pub uninterp spec fn vec3_distance(a: Vec3, b: Vec3) -> FloatOrd;

/// Converts a small integer with `From<i8>`, which std documents as lossless.
#[verifier::external_body]
pub(crate) fn scalar(n: i8) -> (r: FloatOrd)
    ensures
        r == scalar_of(n as int),
{
    FloatOrd(n.into())
}

/// Adds two numbers with the `+` of the primitive type.
#[verifier::external_body]
pub(crate) fn scalar_plus(a: FloatOrd, b: FloatOrd) -> (r: FloatOrd)
    ensures
        r == scalar_sum(a, b),
{
    FloatOrd(a.0 + b.0)
}

/// Calls the unary `-` of `FloatOrd`, which negates the number it holds.
#[verifier::external_body]
pub(crate) fn negated(a: FloatOrd) -> (r: FloatOrd)
    ensures
        r == scalar_negated(a),
{
    -a
}

/// Compares two numbers with the `<` of the primitive type, which is false
/// whenever either side is NaN.
#[verifier::external_body]
pub(crate) fn less_than(a: FloatOrd, b: FloatOrd) -> (r: bool)
    ensures
        r == scalar_less(a, b),
{
    a.0 < b.0
}

/// Calls `Vec3::new`, which stores the three coordinates as given.
#[verifier::external_body]
pub(crate) fn vec3(x: FloatOrd, y: FloatOrd, z: FloatOrd) -> (r: Vec3)
    ensures
        r == vec3_of(x, y, z),
{
    Vec3::new(x.0, y.0, z.0)
}

/// Calls `Vec3 + Vec3`, which adds coordinate by coordinate.
#[verifier::external_body]
pub(crate) fn plus(a: Vec3, b: Vec3) -> (r: Vec3)
    ensures
        r == vec3_sum(a, b),
{
    a + b
}

/// Calls `Vec3 - Vec3`, which subtracts coordinate by coordinate.
#[verifier::external_body]
pub(crate) fn minus(a: Vec3, b: Vec3) -> (r: Vec3)
    ensures
        r == vec3_difference(a, b),
{
    a - b
}

/// Calls `Vec3 * f32`, which multiplies each coordinate by the number.
#[verifier::external_body]
pub(crate) fn scaled(v: Vec3, s: FloatOrd) -> (r: Vec3)
    ensures
        r == vec3_scaled(v, s),
{
    v * s.0
}

/// Calls `Vec3 / f32`, which divides each coordinate by the number.
#[verifier::external_body]
pub(crate) fn divided(v: Vec3, s: FloatOrd) -> (r: Vec3)
    ensures
        r == vec3_quotient(v, s),
{
    v / s.0
}

/// Calls `Vec3::normalize_or_zero`, which never fails: a vector without a
/// direction gives the zero vector.
#[verifier::external_body]
pub(crate) fn unit_or_zero(v: Vec3) -> (r: Vec3)
    ensures
        r == vec3_unit_or_zero(v),
{
    v.normalize_or_zero()
}

/// Calls `Vec3::distance`, the length of the difference of the two points.
#[verifier::external_body]
pub(crate) fn distance(a: Vec3, b: Vec3) -> (r: FloatOrd)
    ensures
        r == vec3_distance(a, b),
{
    FloatOrd(a.distance(b))
}

/// The world's up direction: the unit vector along the y axis.
pub open spec fn up_axis() -> Vec3 {
    vec3_of(scalar_of(0), scalar_of(1), scalar_of(0))
}

/// The backward direction of an orientation's own frame: the unit vector
/// along the negative z axis.
pub open spec fn backward_axis() -> Vec3 {
    vec3_of(scalar_of(0), scalar_of(0), scalar_of(-1))
}

/// The point reached from `origin` by going `length` in the direction of
/// `toward`. Where `toward` coincides with `origin` there is no direction and
/// the step is the zero vector scaled, so that nothing divides by zero.
pub open spec fn reach_toward(origin: Vec3, toward: Vec3, length: FloatOrd) -> Vec3 {
    vec3_sum(origin, vec3_scaled(vec3_unit_or_zero(vec3_difference(toward, origin)), length))
}

/// The world's up direction.
pub fn world_up() -> (r: Vec3)
    ensures
        r == up_axis(),
{
    vec3(scalar(0), scalar(1), scalar(0))
}

/// The backward direction of an orientation's own frame.
pub fn backward() -> (r: Vec3)
    ensures
        r == backward_axis(),
{
    vec3(scalar(0), scalar(0), scalar(-1))
}

/// Goes `length` from `origin` in the direction of `toward`.
pub fn reach(origin: Vec3, toward: Vec3, length: FloatOrd) -> (r: Vec3)
    ensures
        r == reach_toward(origin, toward, length),
{
    let direction = unit_or_zero(minus(toward, origin));
    plus(origin, scaled(direction, length))
}

} // verus!
