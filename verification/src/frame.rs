//! The world's up direction, and the rotation that brings it to the canonical
//! up axis `+Y`, in which yaw and pitch are measured.

use vstd::prelude::*;
use crate::scalar::{Scalar, PI_BITS};
use crate::linear::{Quat, Vec3};
use crate::numerics::Numerics;

verus! {

/// A right-handed coordinate frame with a chosen up axis.
#[derive(Clone, Copy, Debug, PartialEq, Eq, Structural)]
pub struct CoordSystemRh {
    /// The world's up direction, a unit vector.
    pub up_axis: Vec3,
    /// The rotation that takes `up_axis` to `+Y`.
    pub rotation_to_y_up: Quat,
}

impl CoordSystemRh {
    /// The frame's rotation is the one that `kernel` gave for its up axis:
    /// the smallest rotation onto `+Y` where the kernel found one, and else,
    /// by policy, the half turn about `+X`. The policy applies when the up
    /// axis is `-Y`: every half turn about a horizontal axis then does, and
    /// the one about `+X` is chosen once and for all.
    pub open spec fn aligned_by<K: Numerics>(self, kernel: &K) -> bool {
        ||| call_ensures(
            K::rotation_between,
            (kernel, self.up_axis, Vec3::unit_y()),
            Some(self.rotation_to_y_up),
        )
        ||| {
            &&& call_ensures(
                K::rotation_between,
                (kernel, self.up_axis, Vec3::unit_y()),
                None::<Quat>,
            )
            &&& call_ensures(
                K::axis_angle,
                (kernel, Vec3::unit_x(), Scalar::pi()),
                self.rotation_to_y_up,
            )
        }
    }

    /// The frame whose up direction is `up_axis`.
    ///
    /// `up_axis` is taken to be of unit length and is stored as given.
    pub fn from_up_axis<K: Numerics>(up_axis: Vec3, kernel: &K) -> (frame: Self)
        ensures
            frame.up_axis == up_axis,
            frame.aligned_by(kernel),
    {
        let rotation_to_y_up = match kernel.rotation_between(up_axis, Vec3::y_axis()) {
            Some(rotation) => rotation,
            None => kernel.axis_angle(Vec3::x_axis(), Scalar { bits: PI_BITS }),
        };
        CoordSystemRh { up_axis, rotation_to_y_up }
    }
}

} // verus!
