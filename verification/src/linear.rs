//! Points, rotations and matrices as plain tuples of scalars.
//!
//! These types carry numbers between the camera and the numeric kernel. They
//! have no arithmetic of their own.

use vstd::prelude::*;
use crate::scalar::Scalar;

verus! {

/// A point or a vector of three-dimensional space.
#[derive(Clone, Copy, Debug, PartialEq, Eq, Structural)]
pub struct Vec3 {
    pub x: Scalar,
    pub y: Scalar,
    pub z: Scalar,
}

/// A quaternion `w + i*x + j*y + k*z`, used for rotations.
#[derive(Clone, Copy, Debug, PartialEq, Eq, Structural)]
pub struct Quat {
    pub w: Scalar,
    pub i: Scalar,
    pub j: Scalar,
    pub k: Scalar,
}

/// A rigid motion: a rotation followed by a translation.
#[derive(Clone, Copy, Debug, PartialEq, Eq, Structural)]
pub struct Isometry {
    pub rotation: Quat,
    pub translation: Vec3,
}

/// One column of a [`Mat4`].
#[derive(Clone, Copy, Debug, PartialEq, Eq, Structural)]
pub struct Vec4 {
    pub x: Scalar,
    pub y: Scalar,
    pub z: Scalar,
    pub w: Scalar,
}

/// A four-by-four matrix, stored by columns.
#[derive(Clone, Copy, Debug, PartialEq, Eq, Structural)]
pub struct Mat4 {
    pub c0: Vec4,
    pub c1: Vec4,
    pub c2: Vec4,
    pub c3: Vec4,
}

/// The pattern of `0.0`.
pub const ZERO_BITS: u32 = 0x0000_0000;

/// The pattern of `1.0`.
pub const ONE_BITS: u32 = 0x3f80_0000;

impl Vec3 {
    /// The point `(0, 0, 0)`.
    pub open spec fn origin() -> Vec3 {
        Vec3 {
            x: Scalar { bits: ZERO_BITS },
            y: Scalar { bits: ZERO_BITS },
            z: Scalar { bits: ZERO_BITS },
        }
    }

    /// The first axis, `(1, 0, 0)`.
    pub open spec fn unit_x() -> Vec3 {
        Vec3 {
            x: Scalar { bits: ONE_BITS },
            y: Scalar { bits: ZERO_BITS },
            z: Scalar { bits: ZERO_BITS },
        }
    }

    /// The second axis, `(0, 1, 0)`: the canonical up direction.
    pub open spec fn unit_y() -> Vec3 {
        Vec3 {
            x: Scalar { bits: ZERO_BITS },
            y: Scalar { bits: ONE_BITS },
            z: Scalar { bits: ZERO_BITS },
        }
    }

    /// Every coordinate is the same number in both (so a zero of either sign
    /// matches a zero, and a NaN matches nothing).
    pub open spec fn same_position(self, other: Vec3) -> bool {
        &&& self.x.same_number(other.x)
        &&& self.y.same_number(other.y)
        &&& self.z.same_number(other.z)
    }

    /// The vector with the second coordinate replaced by `0.0`: its shadow
    /// on the horizontal plane of the canonical frame.
    pub open spec fn flattened(self) -> Vec3 {
        Vec3 { x: self.x, y: Scalar { bits: ZERO_BITS }, z: self.z }
    }

    /// The vector with every sign bit flipped.
    pub open spec fn negated(self) -> Vec3 {
        Vec3 { x: self.x.negated(), y: self.y.negated(), z: self.z.negated() }
    }

    /// The vector with the given coordinates.
    pub fn new(x: Scalar, y: Scalar, z: Scalar) -> (v: Vec3)
        ensures
            v == (Vec3 { x, y, z }),
    {
        Vec3 { x, y, z }
    }

    /// The first axis, `(1, 0, 0)`.
    pub fn x_axis() -> (v: Vec3)
        ensures
            v == Vec3::unit_x(),
    {
        Vec3 {
            x: Scalar { bits: ONE_BITS },
            y: Scalar { bits: ZERO_BITS },
            z: Scalar { bits: ZERO_BITS },
        }
    }

    /// The second axis, `(0, 1, 0)`.
    pub fn y_axis() -> (v: Vec3)
        ensures
            v == Vec3::unit_y(),
    {
        Vec3 {
            x: Scalar { bits: ZERO_BITS },
            y: Scalar { bits: ONE_BITS },
            z: Scalar { bits: ZERO_BITS },
        }
    }

    /// Whether two points coincide as numbers.
    pub fn coincides(self, other: Vec3) -> (r: bool)
        ensures
            r == self.same_position(other),
    {
        self.x.eq_number(other.x) && self.y.eq_number(other.y) && self.z.eq_number(other.z)
    }

    /// The opposite vector, exactly.
    pub fn neg(self) -> (v: Vec3)
        ensures
            v == self.negated(),
    {
        Vec3 { x: self.x.neg(), y: self.y.neg(), z: self.z.neg() }
    }
}

impl Isometry {
    /// The value whose seven entries are `0.0`. It is no rigid motion; it
    /// fills the place of one that has not been computed yet.
    pub open spec fn all_zero() -> Isometry {
        Isometry {
            rotation: Quat {
                w: Scalar { bits: ZERO_BITS },
                i: Scalar { bits: ZERO_BITS },
                j: Scalar { bits: ZERO_BITS },
                k: Scalar { bits: ZERO_BITS },
            },
            translation: Vec3::origin(),
        }
    }

    /// The value whose seven entries are `0.0`.
    pub fn zero() -> (motion: Isometry)
        ensures
            motion == Isometry::all_zero(),
    {
        let o = Scalar { bits: ZERO_BITS };
        Isometry {
            rotation: Quat { w: o, i: o, j: o, k: o },
            translation: Vec3 { x: o, y: o, z: o },
        }
    }
}

impl Vec4 {
    /// The column whose four entries are `0.0`.
    pub open spec fn all_zero() -> Vec4 {
        Vec4 {
            x: Scalar { bits: ZERO_BITS },
            y: Scalar { bits: ZERO_BITS },
            z: Scalar { bits: ZERO_BITS },
            w: Scalar { bits: ZERO_BITS },
        }
    }
}

impl Mat4 {
    /// The matrix whose sixteen entries are `0.0`.
    pub open spec fn all_zero() -> Mat4 {
        Mat4 {
            c0: Vec4::all_zero(),
            c1: Vec4::all_zero(),
            c2: Vec4::all_zero(),
            c3: Vec4::all_zero(),
        }
    }

    /// The matrix whose sixteen entries are `0.0`.
    pub fn zero() -> (m: Mat4)
        ensures
            m == Mat4::all_zero(),
    {
        let c = Vec4 {
            x: Scalar { bits: ZERO_BITS },
            y: Scalar { bits: ZERO_BITS },
            z: Scalar { bits: ZERO_BITS },
            w: Scalar { bits: ZERO_BITS },
        };
        Mat4 { c0: c, c1: c, c2: c, c3: c }
    }

    /// What is cached after an attempt to invert: the fresh inverse where
    /// there is one, the previous value where the matrix was singular.
    pub open spec fn kept_or_replaced(previous: Mat4, fresh: Option<Mat4>) -> Mat4 {
        match fresh {
            Some(m) => m,
            None => previous,
        }
    }

    /// Applies the last-known-good policy to the outcome of an inversion.
    pub fn keep_or_replace(previous: Mat4, fresh: Option<Mat4>) -> (m: Mat4)
        ensures
            m == Mat4::kept_or_replaced(previous, fresh),
    {
        match fresh {
            Some(inverse) => inverse,
            None => previous,
        }
    }
}

} // verus!
