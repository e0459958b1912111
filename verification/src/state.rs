//! The state of a camera as plain values, and what it means for that state
//! to have been computed by a numeric kernel.
//!
//! The predicates of this module speak of a kernel `K` through `call_ensures`:
//! `call_ensures(K::add, (kernel, a, b), c)` reads "`kernel.add(a, b)` returned
//! `c`". A predicate with an `exists` in it names the intermediate results of
//! a computation without storing them.

use vstd::prelude::*;
use crate::scalar::Scalar;
use crate::linear::{Isometry, Mat4, Quat, Vec3, ZERO_BITS};
use crate::numerics::Numerics;
use crate::frame::CoordSystemRh;
use crate::projection::Perspective;

verus! {

/// Where a point lies as seen from the eye, in the canonical frame: how far,
/// and under which yaw and pitch.
#[derive(Clone, Copy, Debug, PartialEq, Eq, Structural)]
pub struct Sighting {
    pub distance: Scalar,
    pub yaw: Scalar,
    pub pitch: Scalar,
}

impl Sighting {
    /// The sighting defines a direction: the distance is a number greater
    /// than zero and neither angle is a NaN.
    pub open spec fn usable(self) -> bool {
        &&& self.distance.positive()
        &&& !self.yaw.nan()
        &&& !self.pitch.nan()
    }

    /// Whether the camera can be aimed by this sighting.
    pub fn is_usable(&self) -> (r: bool)
        ensures
            r == self.usable(),
    {
        self.distance.is_positive() && !self.yaw.is_nan() && !self.pitch.is_nan()
    }
}

/// `sighting` is what `kernel` measured from `eye` towards `at`. The
/// distance is the norm of `eye - at`. For the angles both points are first
/// turned by `rotation` into the canonical frame, and the vector from the
/// one to the other is taken coordinate by coordinate: the pitch is the arc
/// cosine of its `y` over the distance, and the yaw is the angle of its
/// `(x, z)`.
pub open spec fn sighted<K: Numerics>(
    kernel: &K,
    rotation: Quat,
    eye: Vec3,
    at: Vec3,
    sighting: Sighting,
) -> bool {
    exists|offset: Vec3, view_eye: Vec3, view_at: Vec3, toward: Vec3, slope: Scalar|
        {
            &&& #[trigger] call_ensures(K::difference, (kernel, eye, at), offset)
            &&& call_ensures(K::norm, (kernel, offset), sighting.distance)
            &&& #[trigger] call_ensures(K::rotate, (kernel, rotation, eye), view_eye)
            &&& #[trigger] call_ensures(K::rotate, (kernel, rotation, at), view_at)
            &&& call_ensures(K::sub, (kernel, view_at.x, view_eye.x), toward.x)
            &&& call_ensures(K::sub, (kernel, view_at.y, view_eye.y), toward.y)
            &&& call_ensures(K::sub, (kernel, view_at.z, view_eye.z), toward.z)
            &&& #[trigger] call_ensures(K::div, (kernel, toward.y, sighting.distance), slope)
            &&& call_ensures(K::acos, (kernel, slope), sighting.pitch)
            &&& call_ensures(K::atan2, (kernel, toward.z, toward.x), sighting.yaw)
        }
}

/// `direction` is what `kernel` computed as the unit vector of `yaw` and
/// `pitch` in the canonical frame:
/// `(cos(yaw) * sin(pitch), cos(pitch), sin(yaw) * sin(pitch))`.
pub open spec fn spherical<K: Numerics>(
    kernel: &K,
    yaw: Scalar,
    pitch: Scalar,
    direction: Vec3,
) -> bool {
    exists|cos_yaw: Scalar, sin_yaw: Scalar, sin_pitch: Scalar|
        {
            &&& #[trigger] call_ensures(K::cos, (kernel, yaw), cos_yaw)
            &&& #[trigger] call_ensures(K::sin, (kernel, yaw), sin_yaw)
            &&& #[trigger] call_ensures(K::sin, (kernel, pitch), sin_pitch)
            &&& call_ensures(K::mul, (kernel, cos_yaw, sin_pitch), direction.x)
            &&& call_ensures(K::cos, (kernel, pitch), direction.y)
            &&& call_ensures(K::mul, (kernel, sin_yaw, sin_pitch), direction.z)
        }
}

/// The state of a camera, as plain values.
#[derive(Clone, Copy, Debug, PartialEq, Eq, Structural)]
pub struct CameraState {
    /// The position of the eye, in world space.
    pub eye: Vec3,
    /// The azimuth of the look direction, in the canonical frame.
    pub yaw: Scalar,
    /// The polar angle of the look direction from `+Y`, in the canonical
    /// frame: zero looks straight up, pi straight down.
    pub pitch: Scalar,
    /// The frustum.
    pub projection: Perspective,
    /// Derived: the projection matrix of the frustum.
    pub proj: Mat4,
    /// Derived: the view transform, a rigid motion.
    pub view_transform: Isometry,
    /// Derived: the view matrix, the homogeneous form of the view transform.
    pub view: Mat4,
    /// Derived: projection times view.
    pub proj_view: Mat4,
    /// Derived: the latest inverse of `proj_view` that could be computed.
    pub inverse_proj_view: Mat4,
    /// The world's up axis and its rotation to `+Y`.
    pub coord_system: CoordSystemRh,
}

/// `target` is what `kernel` computed as the point one unit ahead of `eye`
/// under `yaw` and `pitch`: the eye is turned into the canonical frame, the
/// unit vector of yaw and pitch is added to it coordinate by coordinate, and
/// the sum is turned back.
pub open spec fn aimed_at<K: Numerics>(
    kernel: &K,
    frame: CoordSystemRh,
    eye: Vec3,
    yaw: Scalar,
    pitch: Scalar,
    target: Vec3,
) -> bool {
    exists|view_eye: Vec3, direction: Vec3, ahead: Vec3, back: Quat|
        {
            &&& #[trigger] call_ensures(K::rotate, (kernel, frame.rotation_to_y_up, eye), view_eye)
            &&& #[trigger] spherical(kernel, yaw, pitch, direction)
            &&& call_ensures(K::add, (kernel, view_eye.x, direction.x), ahead.x)
            &&& call_ensures(K::add, (kernel, view_eye.y, direction.y), ahead.y)
            &&& call_ensures(K::add, (kernel, view_eye.z, direction.z), ahead.z)
            &&& call_ensures(K::inverse_rotation, (kernel, frame.rotation_to_y_up), back)
            &&& #[trigger] call_ensures(K::rotate, (kernel, back, ahead), target)
        }
}

/// `motion` is the right-handed view transform that `kernel` gave for the
/// eye, the point it looks at under `yaw` and `pitch`, and the up axis.
pub open spec fn view_transform_of<K: Numerics>(
    kernel: &K,
    frame: CoordSystemRh,
    eye: Vec3,
    yaw: Scalar,
    pitch: Scalar,
    motion: Isometry,
) -> bool {
    exists|target: Vec3|
        {
            &&& #[trigger] aimed_at(kernel, frame, eye, yaw, pitch, target)
            &&& call_ensures(K::look_at_rh, (kernel, eye, target, frame.up_axis), motion)
        }
}

impl CameraState {
    /// `target` is the point that the camera looks at, one unit ahead of the
    /// eye, as `kernel` computes it.
    pub open spec fn looks_at<K: Numerics>(self, kernel: &K, target: Vec3) -> bool {
        aimed_at(kernel, self.coord_system, self.eye, self.yaw, self.pitch, target)
    }

    /// `motion` is the view transform of the present eye, yaw and pitch.
    pub open spec fn viewed_by<K: Numerics>(self, kernel: &K, motion: Isometry) -> bool {
        view_transform_of(kernel, self.coord_system, self.eye, self.yaw, self.pitch, motion)
    }

    /// `direction` is the look direction as `kernel` computes it: the vector
    /// from the eye to the point the camera looks at, normalized.
    pub open spec fn looks_along<K: Numerics>(self, kernel: &K, direction: Vec3) -> bool {
        exists|target: Vec3, ahead: Vec3|
            {
                &&& #[trigger] self.looks_at(kernel, target)
                &&& #[trigger] call_ensures(K::difference, (kernel, target, self.eye), ahead)
                &&& call_ensures(K::normalize, (kernel, ahead), direction)
            }
    }

    /// This state with another eye.
    pub open spec fn at_eye(self, eye: Vec3) -> CameraState {
        CameraState { eye, ..self }
    }

    /// This state with another yaw and pitch.
    pub open spec fn facing(self, yaw: Scalar, pitch: Scalar) -> CameraState {
        CameraState { yaw, pitch, ..self }
    }

    /// The projection matrix is the one `kernel` gave for the frustum.
    pub open spec fn proj_current<K: Numerics>(self, kernel: &K) -> bool {
        call_ensures(
            K::perspective,
            (
                kernel,
                self.projection.aspect,
                self.projection.fovy,
                self.projection.znear,
                self.projection.zfar,
            ),
            Some(self.proj),
        )
    }

    /// The cached view transform is the one of the present eye, yaw and
    /// pitch, and the view matrix is its homogeneous form.
    pub open spec fn view_current<K: Numerics>(self, kernel: &K) -> bool {
        &&& self.viewed_by(kernel, self.view_transform)
        &&& call_ensures(K::to_homogeneous, (kernel, self.view_transform), self.view)
    }

    /// The cached product is projection times view, of the cached two.
    pub open spec fn product_current<K: Numerics>(self, kernel: &K) -> bool {
        call_ensures(K::product, (kernel, self.proj, self.view), self.proj_view)
    }

    /// The view-projection matrix was found singular.
    pub open spec fn singular<K: Numerics>(self, kernel: &K) -> bool {
        call_ensures(K::try_inverse, (kernel, self.proj_view), None::<Mat4>)
    }

    /// The cached inverse is the inverse of the cached view-projection
    /// matrix.
    pub open spec fn inverse_current<K: Numerics>(self, kernel: &K) -> bool {
        call_ensures(K::try_inverse, (kernel, self.proj_view), Some(self.inverse_proj_view))
    }

    /// The outcome of the last-known-good policy: the cached inverse is
    /// current, or the matrix was singular and the cache still holds
    /// `previous`.
    pub open spec fn inverse_settled<K: Numerics>(self, kernel: &K, previous: Mat4) -> bool {
        ||| self.inverse_current(kernel)
        ||| (self.singular(kernel) && self.inverse_proj_view == previous)
    }

    /// Nothing derived is stale: the frustum is admissible, the frame's
    /// rotation is the one of its up axis, and each derived matrix is what
    /// `kernel` computes from the present state. Of the inverse this says
    /// that it is current unless the view-projection matrix is singular.
    pub open spec fn coherent<K: Numerics>(self, kernel: &K) -> bool {
        &&& self.projection.valid()
        &&& self.coord_system.aligned_by(kernel)
        &&& self.proj_current(kernel)
        &&& self.view_current(kernel)
        &&& self.product_current(kernel)
        &&& (self.inverse_current(kernel) || self.singular(kernel))
    }

    /// The same eye, angles, frustum, projection matrix and frame.
    pub open spec fn same_pose(self, other: CameraState) -> bool {
        &&& self.eye == other.eye
        &&& self.yaw == other.yaw
        &&& self.pitch == other.pitch
        &&& self.projection == other.projection
        &&& self.proj == other.proj
        &&& self.coord_system == other.coord_system
    }

    /// This state is `before` with the view transform, the view matrix, the
    /// product and the inverse recomputed by `kernel`.
    pub open spec fn refreshed<K: Numerics>(self, kernel: &K, before: CameraState) -> bool {
        &&& self.same_pose(before)
        &&& self.view_current(kernel)
        &&& self.product_current(kernel)
        &&& self.inverse_settled(kernel, before.inverse_proj_view)
    }

    /// This state with freshly derived values: the view transform, the view
    /// matrix and the product as given, and the inverse as the
    /// last-known-good policy has it.
    pub open spec fn derived(
        self,
        view_transform: Isometry,
        view: Mat4,
        proj_view: Mat4,
        inverse: Option<Mat4>,
    ) -> CameraState {
        CameraState {
            view_transform,
            view,
            proj_view,
            inverse_proj_view: Mat4::kept_or_replaced(self.inverse_proj_view, inverse),
            ..self
        }
    }

    /// Stores a view transform, its matrix, the product of projection and
    /// view, and the outcome of inverting the product. A product that could
    /// not be inverted leaves the cached inverse as it is.
    pub fn with_derived(
        self,
        view_transform: Isometry,
        view: Mat4,
        proj_view: Mat4,
        inverse: Option<Mat4>,
    ) -> (fresh: CameraState)
        ensures
            fresh == self.derived(view_transform, view, proj_view, inverse),
    {
        CameraState {
            view_transform,
            view,
            proj_view,
            inverse_proj_view: Mat4::keep_or_replace(self.inverse_proj_view, inverse),
            ..self
        }
    }

    /// The state before a new camera is first aimed: the eye at the origin,
    /// yaw and pitch zero, and everything that depends on the aim all zero.
    pub open spec fn blank(projection: Perspective, proj: Mat4, frame: CoordSystemRh) -> CameraState {
        CameraState {
            eye: Vec3::origin(),
            yaw: Scalar { bits: ZERO_BITS },
            pitch: Scalar { bits: ZERO_BITS },
            projection,
            proj,
            view_transform: Isometry::all_zero(),
            view: Mat4::all_zero(),
            proj_view: Mat4::all_zero(),
            inverse_proj_view: Mat4::all_zero(),
            coord_system: frame,
        }
    }

    /// The frustum is admissible, the projection matrix is its own, and the
    /// frame's rotation is the one of its up axis: what stays as it is when
    /// the camera is aimed, and so what aiming needs of the state it starts
    /// from.
    pub open spec fn lens_ready<K: Numerics>(self, kernel: &K) -> bool {
        &&& self.projection.valid()
        &&& self.coord_system.aligned_by(kernel)
        &&& self.proj_current(kernel)
    }

    /// This state is `before` aimed by `sighting`, which `kernel` measured
    /// from `eye` towards `at`: it holds the new eye and the measured yaw
    /// and pitch, and its derived matrices are recomputed.
    pub open spec fn aimed<K: Numerics>(
        self,
        kernel: &K,
        before: CameraState,
        eye: Vec3,
        at: Vec3,
        sighting: Sighting,
    ) -> bool {
        &&& sighted(kernel, before.coord_system.rotation_to_y_up, eye, at, sighting)
        &&& self.refreshed(kernel, before.at_eye(eye).facing(sighting.yaw, sighting.pitch))
    }

    /// This state is `before` turned to `yaw` and `pitch`, stored as given.
    pub open spec fn turned<K: Numerics>(
        self,
        kernel: &K,
        before: CameraState,
        yaw: Scalar,
        pitch: Scalar,
    ) -> bool {
        self.refreshed(kernel, before.facing(yaw, pitch))
    }

    /// This state is `before` with the eye moved by `delta`.
    pub open spec fn moved<K: Numerics>(
        self,
        kernel: &K,
        before: CameraState,
        delta: Vec3,
    ) -> bool {
        &&& call_ensures(K::translate, (kernel, delta, before.eye), self.eye)
        &&& self.refreshed(kernel, before.at_eye(self.eye))
    }

    /// This state is `before` with the aspect ratio `aspect`: only the
    /// aspect among the frustum parameters differs, the projection matrix is
    /// the one of the new frustum, and the other matrices are recomputed.
    pub open spec fn reshaped<K: Numerics>(
        self,
        kernel: &K,
        before: CameraState,
        aspect: Scalar,
    ) -> bool {
        &&& self.projection == before.projection.resized(aspect)
        &&& self.proj_current(kernel)
        &&& self.refreshed(
            kernel,
            CameraState { projection: self.projection, proj: self.proj, ..before },
        )
    }
}

/// `aspect` is what `kernel` computed as `width / height`, from the two
/// integers converted to scalars.
pub open spec fn ratio_of<K: Numerics>(kernel: &K, width: u32, height: u32, aspect: Scalar) -> bool {
    exists|w: Scalar, h: Scalar|
        {
            &&& #[trigger] call_ensures(K::from_u32, (kernel, width), w)
            &&& #[trigger] call_ensures(K::from_u32, (kernel, height), h)
            &&& call_ensures(K::div, (kernel, w, h), aspect)
        }
}

/// `aspect` cannot become the aspect ratio of `projection`: it is no
/// positive finite number, or `kernel` has no projection matrix for the
/// frustum that would result.
pub open spec fn misfits<K: Numerics>(kernel: &K, projection: Perspective, aspect: Scalar) -> bool {
    ||| !aspect.positive_finite()
    ||| call_ensures(
        K::perspective,
        (kernel, aspect, projection.fovy, projection.znear, projection.zfar),
        None::<Mat4>,
    )
}

} // verus!
