//! The numeric kernel: the floating-point work that the camera asks for.
//!
//! Verified code holds numbers as bit patterns and cannot add or rotate them.
//! Everything of that kind is asked of a [`Numerics`] value, which the host
//! implements over its linear-algebra library. The trait promises nothing
//! about what a method returns. The camera's contracts name a result by the
//! call that produced it, with `call_ensures`: they say which arguments the
//! kernel was given and where its answer went, and hold for every kernel.

use vstd::prelude::*;
use crate::scalar::Scalar;
use crate::wide::Wide;
use crate::linear::{Isometry, Mat4, Quat, Vec3};

verus! {

/// The operations on numbers that the camera needs and cannot do itself.
///
/// Each method stands for one operation of floating-point arithmetic or of
/// linear algebra, on operands and with a result given by their bit patterns.
/// An implementation converts, computes, and converts back. The numbers are
/// binary32, but for the few operations on window coordinates, which are
/// binary64.
pub trait Numerics {
    /// The sum `a + b`.
    fn add(&self, a: Scalar, b: Scalar) -> Scalar;

    /// The difference `a - b`.
    fn sub(&self, a: Scalar, b: Scalar) -> Scalar;

    /// The product `a * b`.
    fn mul(&self, a: Scalar, b: Scalar) -> Scalar;

    /// The quotient `a / b`.
    fn div(&self, a: Scalar, b: Scalar) -> Scalar;

    /// The sine of an angle in radians.
    fn sin(&self, angle: Scalar) -> Scalar;

    /// The cosine of an angle in radians.
    fn cos(&self, angle: Scalar) -> Scalar;

    /// The arc cosine, in `[0, pi]`; a NaN outside `[-1, 1]`.
    fn acos(&self, x: Scalar) -> Scalar;

    /// The angle of the point `(x, y)` seen from the origin, in `[-pi, pi]`.
    fn atan2(&self, y: Scalar, x: Scalar) -> Scalar;

    /// The scalar nearest to an integer.
    fn from_u32(&self, n: u32) -> Scalar;

    /// The binary64 difference `a - b`.
    fn wide_sub(&self, a: Wide, b: Wide) -> Wide;

    /// The binary64 quotient `a / b`.
    fn wide_div(&self, a: Wide, b: Wide) -> Wide;

    /// The integer as a binary64 number.
    fn widen(&self, n: u32) -> Wide;

    /// The binary32 number nearest to a binary64 number.
    fn narrow(&self, x: Wide) -> Scalar;

    /// The vector from the point `b` to the point `a`.
    fn difference(&self, a: Vec3, b: Vec3) -> Vec3;

    /// The Euclidean length of a vector.
    fn norm(&self, v: Vec3) -> Scalar;

    /// The vector scaled to length one.
    fn normalize(&self, v: Vec3) -> Vec3;

    /// The vector `v` with each coordinate multiplied by `factor`.
    fn scale(&self, v: Vec3, factor: Scalar) -> Vec3;

    /// The sum of two vectors.
    fn sum(&self, a: Vec3, b: Vec3) -> Vec3;

    /// The cross product `a x b`.
    fn cross(&self, a: Vec3, b: Vec3) -> Vec3;

    /// The point `p` moved by the vector `t`.
    fn translate(&self, t: Vec3, p: Vec3) -> Vec3;

    /// The smallest rotation that takes the unit vector `from` to the unit
    /// vector `to`, or `None` where they are opposite and no rotation is the
    /// smallest.
    fn rotation_between(&self, from: Vec3, to: Vec3) -> Option<Quat>;

    /// The rotation by `angle` radians about the unit vector `axis`.
    fn axis_angle(&self, axis: Vec3, angle: Scalar) -> Quat;

    /// The point `p` turned by the rotation `q`.
    fn rotate(&self, q: Quat, p: Vec3) -> Vec3;

    /// The rotation that undoes `q`.
    fn inverse_rotation(&self, q: Quat) -> Quat;

    /// The right-handed view transform of an observer at `eye` who looks at
    /// `target`, with `up` pointing upwards on screen.
    fn look_at_rh(&self, eye: Vec3, target: Vec3, up: Vec3) -> Isometry;

    /// The rigid motion as a homogeneous matrix.
    fn to_homogeneous(&self, motion: Isometry) -> Mat4;

    /// The perspective projection of a frustum, or `None` where the
    /// parameters give no usable matrix (planes or aspect too close to
    /// degenerate for the arithmetic).
    fn perspective(&self, aspect: Scalar, fovy: Scalar, znear: Scalar, zfar: Scalar) -> Option<
        Mat4,
    >;

    /// The matrix product `a * b`.
    fn product(&self, a: Mat4, b: Mat4) -> Mat4;

    /// The inverse of a matrix, or `None` where it is singular.
    fn try_inverse(&self, m: Mat4) -> Option<Mat4>;
}

} // verus!
