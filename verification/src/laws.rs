//! What holds of every camera, stated over camera states and proved from the
//! contracts of the operations.

use vstd::prelude::*;
use crate::scalar::Scalar;
use crate::linear::{Isometry, Mat4, Quat, Vec3};
use crate::numerics::Numerics;
use crate::state::{CameraState, aimed_at, spherical};

verus! {

/// The kernel computes functions of its arguments: the same call gives the
/// same answer every time. This is said of the operations from which the
/// eye and the derived matrices are built.
pub open spec fn functional<K: Numerics>(kernel: &K) -> bool {
    &&& forall|a: Scalar, b: Scalar, r1: Scalar, r2: Scalar|
        #[trigger] call_ensures(K::add, (kernel, a, b), r1) && #[trigger] call_ensures(
            K::add,
            (kernel, a, b),
            r2,
        ) ==> r1 == r2
    &&& forall|a: Scalar, b: Scalar, r1: Scalar, r2: Scalar|
        #[trigger] call_ensures(K::mul, (kernel, a, b), r1) && #[trigger] call_ensures(
            K::mul,
            (kernel, a, b),
            r2,
        ) ==> r1 == r2
    &&& forall|a: Scalar, r1: Scalar, r2: Scalar|
        #[trigger] call_ensures(K::sin, (kernel, a), r1) && #[trigger] call_ensures(
            K::sin,
            (kernel, a),
            r2,
        ) ==> r1 == r2
    &&& forall|a: Scalar, r1: Scalar, r2: Scalar|
        #[trigger] call_ensures(K::cos, (kernel, a), r1) && #[trigger] call_ensures(
            K::cos,
            (kernel, a),
            r2,
        ) ==> r1 == r2
    &&& forall|t: Vec3, p: Vec3, r1: Vec3, r2: Vec3|
        #[trigger] call_ensures(K::translate, (kernel, t, p), r1) && #[trigger] call_ensures(
            K::translate,
            (kernel, t, p),
            r2,
        ) ==> r1 == r2
    &&& forall|q: Quat, p: Vec3, r1: Vec3, r2: Vec3|
        #[trigger] call_ensures(K::rotate, (kernel, q, p), r1) && #[trigger] call_ensures(
            K::rotate,
            (kernel, q, p),
            r2,
        ) ==> r1 == r2
    &&& forall|q: Quat, r1: Quat, r2: Quat|
        #[trigger] call_ensures(K::inverse_rotation, (kernel, q), r1) && #[trigger] call_ensures(
            K::inverse_rotation,
            (kernel, q),
            r2,
        ) ==> r1 == r2
    &&& forall|eye: Vec3, target: Vec3, up: Vec3, r1: Isometry, r2: Isometry|
        #[trigger] call_ensures(K::look_at_rh, (kernel, eye, target, up), r1)
            && #[trigger] call_ensures(K::look_at_rh, (kernel, eye, target, up), r2) ==> r1 == r2
    &&& forall|motion: Isometry, r1: Mat4, r2: Mat4|
        #[trigger] call_ensures(K::to_homogeneous, (kernel, motion), r1) && #[trigger] call_ensures(
            K::to_homogeneous,
            (kernel, motion),
            r2,
        ) ==> r1 == r2
    &&& forall|a: Mat4, b: Mat4, r1: Mat4, r2: Mat4|
        #[trigger] call_ensures(K::product, (kernel, a, b), r1) && #[trigger] call_ensures(
            K::product,
            (kernel, a, b),
            r2,
        ) ==> r1 == r2
    &&& forall|m: Mat4, r1: Option<Mat4>, r2: Option<Mat4>|
        #[trigger] call_ensures(K::try_inverse, (kernel, m), r1) && #[trigger] call_ensures(
            K::try_inverse,
            (kernel, m),
            r2,
        ) ==> r1 == r2
}

/// Under a functional kernel, yaw and pitch have one unit vector.
pub proof fn lemma_spherical_is_unique<K: Numerics>(
    kernel: &K,
    yaw: Scalar,
    pitch: Scalar,
    d1: Vec3,
    d2: Vec3,
)
    requires
        functional(kernel),
        spherical(kernel, yaw, pitch, d1),
        spherical(kernel, yaw, pitch, d2),
    ensures
        d1 == d2,
{
}

/// Under a functional kernel, the eye, yaw and pitch have one view transform.
pub proof fn lemma_view_transform_is_unique<K: Numerics>(
    kernel: &K,
    state: CameraState,
    m1: Isometry,
    m2: Isometry,
)
    requires
        functional(kernel),
        state.viewed_by(kernel, m1),
        state.viewed_by(kernel, m2),
    ensures
        m1 == m2,
{
    let frame = state.coord_system;
    let t1 = choose|t: Vec3|
        #[trigger] aimed_at(kernel, frame, state.eye, state.yaw, state.pitch, t) && call_ensures(
            K::look_at_rh,
            (kernel, state.eye, t, frame.up_axis),
            m1,
        );
    let t2 = choose|t: Vec3|
        #[trigger] aimed_at(kernel, frame, state.eye, state.yaw, state.pitch, t) && call_ensures(
            K::look_at_rh,
            (kernel, state.eye, t, frame.up_axis),
            m2,
        );
    lemma_target_is_unique(kernel, state, t1, t2);
}

/// Under a functional kernel, the camera looks at one point.
pub proof fn lemma_target_is_unique<K: Numerics>(
    kernel: &K,
    state: CameraState,
    t1: Vec3,
    t2: Vec3,
)
    requires
        functional(kernel),
        state.looks_at(kernel, t1),
        state.looks_at(kernel, t2),
    ensures
        t1 == t2,
{
    let rotation = state.coord_system.rotation_to_y_up;
    let (e1, d1, a1, b1) = choose|view_eye: Vec3, direction: Vec3, ahead: Vec3, back: Quat|
        {
            &&& #[trigger] call_ensures(K::rotate, (kernel, rotation, state.eye), view_eye)
            &&& #[trigger] spherical(kernel, state.yaw, state.pitch, direction)
            &&& call_ensures(K::add, (kernel, view_eye.x, direction.x), ahead.x)
            &&& call_ensures(K::add, (kernel, view_eye.y, direction.y), ahead.y)
            &&& call_ensures(K::add, (kernel, view_eye.z, direction.z), ahead.z)
            &&& call_ensures(K::inverse_rotation, (kernel, rotation), back)
            &&& #[trigger] call_ensures(K::rotate, (kernel, back, ahead), t1)
        };
    let (e2, d2, a2, b2) = choose|view_eye: Vec3, direction: Vec3, ahead: Vec3, back: Quat|
        {
            &&& #[trigger] call_ensures(K::rotate, (kernel, rotation, state.eye), view_eye)
            &&& #[trigger] spherical(kernel, state.yaw, state.pitch, direction)
            &&& call_ensures(K::add, (kernel, view_eye.x, direction.x), ahead.x)
            &&& call_ensures(K::add, (kernel, view_eye.y, direction.y), ahead.y)
            &&& call_ensures(K::add, (kernel, view_eye.z, direction.z), ahead.z)
            &&& call_ensures(K::inverse_rotation, (kernel, rotation), back)
            &&& #[trigger] call_ensures(K::rotate, (kernel, back, ahead), t2)
        };
    lemma_spherical_is_unique(kernel, state.yaw, state.pitch, d1, d2);
}

/// The transformation that a coherent camera hands out is never stale: it is
/// the product of the cached projection and view matrices, the view matrix
/// is the one of the present eye, yaw and pitch, and the projection matrix
/// is the one of the present frustum. Every constructor and mutator ends in
/// a coherent state.
pub proof fn law_transformation_is_current<K: Numerics>(kernel: &K, state: CameraState)
    requires
        state.coherent(kernel),
    ensures
        call_ensures(K::product, (kernel, state.proj, state.view), state.proj_view),
        state.viewed_by(kernel, state.view_transform),
        call_ensures(K::to_homogeneous, (kernel, state.view_transform), state.view),
        call_ensures(
            K::perspective,
            (
                kernel,
                state.projection.aspect,
                state.projection.fovy,
                state.projection.znear,
                state.projection.zfar,
            ),
            Some(state.proj),
        ),
{
}

/// Unless the kernel finds the view-projection matrix of a coherent camera
/// singular, the cached inverse is the inverse that the kernel computes of
/// it.
pub proof fn law_inverse_is_current_unless_singular<K: Numerics>(kernel: &K, state: CameraState)
    requires
        state.coherent(kernel),
        !state.singular(kernel),
    ensures
        call_ensures(K::try_inverse, (kernel, state.proj_view), Some(state.inverse_proj_view)),
{
}

/// Translating by `delta` and then by its opposite restores the camera, the
/// eye and every derived matrix.
///
/// This is said of a functional kernel; of translations that cancel, that is,
/// where the kernel moves the translated eye back onto the eye it started
/// from (in binary32 the way back can round to a neighbour); and of a start
/// state whose inverse is current (a singular start state may hold an
/// inverse from its past, which the way back does not recover).
pub proof fn law_translate_there_and_back<K: Numerics>(
    kernel: &K,
    start: CameraState,
    there: CameraState,
    back: CameraState,
    delta: Vec3,
)
    requires
        functional(kernel),
        start.coherent(kernel),
        start.inverse_current(kernel),
        there.moved(kernel, start, delta),
        back.moved(kernel, there, delta.negated()),
        call_ensures(K::translate, (kernel, delta.negated(), there.eye), start.eye),
    ensures
        back == start,
{
    lemma_view_transform_is_unique(kernel, start, start.view_transform, back.view_transform);
}

/// Resizing changes the aspect ratio and nothing else of what the camera was
/// given: after two resizes in a row the frustum is the first one with the
/// second aspect ratio, the projection matrix is the one of that frustum,
/// and the eye, the angles and the frame are the first ones.
pub proof fn law_resize_changes_aspect_only<K: Numerics>(
    kernel: &K,
    start: CameraState,
    first: CameraState,
    second: CameraState,
    aspect1: Scalar,
    aspect2: Scalar,
)
    requires
        first.reshaped(kernel, start, aspect1),
        second.reshaped(kernel, first, aspect2),
    ensures
        second.projection == start.projection.resized(aspect2),
        call_ensures(
            K::perspective,
            (
                kernel,
                aspect2,
                start.projection.fovy,
                start.projection.znear,
                start.projection.zfar,
            ),
            Some(second.proj),
        ),
        second.projection.fovy == start.projection.fovy,
        second.projection.znear == start.projection.znear,
        second.projection.zfar == start.projection.zfar,
        second.eye == start.eye,
        second.yaw == start.yaw,
        second.pitch == start.pitch,
        second.coord_system == start.coord_system,
{
}

} // verus!
