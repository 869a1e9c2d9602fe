//! Orientations: which way a segment faces, and the turns applied to them.
//!
//! An orientation is a `bevy::math::Quat`, opaque like the points. Facing a
//! direction is plain arithmetic and its result has a name. Products of
//! quaternions and conversions to and from angles are computed by glam with
//! the vector unit and the trigonometric functions of the machine at hand, so
//! their results carry no name: the functions here that call them state what
//! holds whatever they return.

use vstd::prelude::*;
use bevy::math::{EulerRot, FloatOrd, Quat, Vec3};
use bevy::transform::components::Transform;
use crate::vector::{minus, vec3_difference};

verus! {

/// `bevy::math::Quat`, a rotation in space.
#[verifier::external_type_specification]
#[verifier::external_body]
pub struct ExQuat(bevy::math::Quat);

/// The orientation whose forward axis points along `direction` and whose up
/// axis leans towards `up`. It is defined for every input: a `direction`
/// without length counts as backward, an `up` without length as the y axis,
/// and for a `direction` parallel to `up` some perpendicular axis is taken.
pub uninterp spec fn facing(direction: Vec3, up: Vec3) -> Quat;

/// Calls `Transform::looking_to` on the identity transform and takes the
/// rotation. Bevy documents the fallbacks that make it total; it builds the
/// rotation from normalisations and cross products alone.
#[verifier::external_body]
pub(crate) fn looking_towards(direction: Vec3, up: Vec3) -> (r: Quat)
    ensures
        r == facing(direction, up),
{
    Transform::IDENTITY.looking_to(direction, up).rotation
}

/// Calls `Quat::inverse`, the conjugate. Glam checks that its argument has
/// unit length only under its `glam-assert` feature, which is off here.
#[verifier::external_body]
pub(crate) fn inverse(q: Quat) -> Quat {
    q.inverse()
}

/// Calls `Quat * Quat`, the rotation `b` followed by `a`.
#[verifier::external_body]
pub(crate) fn composed(a: Quat, b: Quat) -> Quat {
    a * b
}

/// Calls `Quat * Vec3`, the vector `v` turned by `q`.
#[verifier::external_body]
pub(crate) fn rotated(q: Quat, v: Vec3) -> Vec3 {
    q * v
}

/// Calls `Quat::to_euler` in the order x, y, z: the angles, in radians, of
/// the turns about the three axes that make up `q`.
#[verifier::external_body]
pub(crate) fn euler_angles(q: Quat) -> (FloatOrd, FloatOrd, FloatOrd) {
    let (x, y, z) = q.to_euler(EulerRot::XYZ);
    (FloatOrd(x), FloatOrd(y), FloatOrd(z))
}

/// Calls `Quat::from_euler` in the order x, y, z, with angles in radians.
#[verifier::external_body]
pub(crate) fn from_euler_angles(x: FloatOrd, y: FloatOrd, z: FloatOrd) -> Quat {
    Quat::from_euler(EulerRot::XYZ, x.0, y.0, z.0)
}

/// Calls `to_radians` of the primitive type.
#[verifier::external_body]
pub(crate) fn to_radians(degrees: FloatOrd) -> FloatOrd {
    FloatOrd(degrees.0.to_radians())
}

/// Calls `Quat::from_axis_angle`, the turn by `angle` radians about `axis`.
/// Glam checks that the axis has unit length only under its `glam-assert`
/// feature, which is off here.
#[verifier::external_body]
pub(crate) fn about_axis(axis: Vec3, angle: FloatOrd) -> Quat {
    Quat::from_axis_angle(axis, angle.0)
}

/// The orientation at `from` that faces `to`.
pub fn looking_at(from: Vec3, to: Vec3, up: Vec3) -> (r: Quat)
    ensures
        r == facing(vec3_difference(to, from), up),
{
    looking_towards(minus(to, from), up)
}

} // verus!
