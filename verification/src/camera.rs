//! The first-person camera: eye, yaw and pitch, the frustum, and the view and
//! projection matrices derived from them.
//!
//! Every mutator recomputes the derived matrices before it returns, so a read
//! never sees a matrix that belongs to an earlier state. The one exception is
//! by design: where the view-projection matrix cannot be inverted, the cached
//! inverse keeps the last value that could be computed.

use vstd::prelude::*;
use crate::scalar::Scalar;
use crate::linear::{Isometry, Mat4, Quat, Vec3, ZERO_BITS};
use crate::numerics::Numerics;
use crate::frame::CoordSystemRh;
use crate::projection::{
    Perspective, lemma_standard_is_valid, DEFAULT_ASPECT_BITS, DEFAULT_FOVY_BITS,
    DEFAULT_ZFAR_BITS, DEFAULT_ZNEAR_BITS,
};
use crate::state::{CameraState, Sighting, misfits, ratio_of, sighted, spherical};

verus! {

/// Why a camera could not be set up or aimed.
#[derive(Clone, Copy, Debug, PartialEq, Eq, Structural)]
pub enum CameraError {
    /// The frustum parameters describe no frustum.
    InvalidFrustum,
    /// The eye and the point to look at coincide, or are so placed that no
    /// yaw and pitch can be measured between them.
    DegenerateLookAt,
}

/// What the window system tells a camera.
#[derive(Clone, Copy, Debug, PartialEq, Eq, Structural)]
pub enum CameraEvent {
    /// The framebuffer now has this width and height, in pixels.
    FramebufferSize(u32, u32),
    /// Anything else: keys, buttons, the cursor, the wheel.
    Other,
}

/// A first-person camera over the numeric kernel `K`.
///
/// A camera is coherent from the moment it exists: no value of this type
/// holds a stale matrix.
#[derive(Debug)]
pub struct MyCamera<K: Numerics> {
    kernel: K,
    state: CameraState,
}

impl<K: Numerics + Copy> Clone for MyCamera<K> {
    fn clone(&self) -> (copy: Self)
        ensures
            copy == *self,
    {
        proof {
            use_type_invariant(self);
        }
        MyCamera { kernel: self.kernel, state: self.state }
    }
}

impl<K: Numerics + Copy> Copy for MyCamera<K> {

}

impl<K: Numerics> View for MyCamera<K> {
    type V = CameraState;

    closed spec fn view(&self) -> CameraState {
        self.state
    }
}

impl<K: Numerics> MyCamera<K> {
    /// The kernel that this camera computes with.
    pub closed spec fn numerics(&self) -> K {
        self.kernel
    }

    /// Nothing derived is stale. This holds of every camera that a program
    /// can hold; contracts repeat it for the benefit of proofs, which speak
    /// of cameras as values.
    pub open spec fn wf(&self) -> bool {
        self@.coherent(&self.numerics())
    }

    #[verifier::type_invariant]
    spec fn coherence(&self) -> bool {
        self.state.coherent(&self.kernel)
    }

    /// What a constructor owes for the frustum `frustum`, the up axis
    /// `up_axis` and the aim from `eye` at `at`.
    ///
    /// Success: the camera is coherent, holds the frustum with the
    /// projection matrix that `kernel` gave for it, holds the frame of the up
    /// axis, and is aimed from a blank state. Failure with
    /// `InvalidFrustum`: the parameters break the rule, or `kernel` has no
    /// projection matrix for them. Failure with `DegenerateLookAt`: the
    /// frustum is in order, and the points coincide or give no usable
    /// sighting.
    pub open spec fn constructed(
        kernel: K,
        frustum: Perspective,
        up_axis: Vec3,
        eye: Vec3,
        at: Vec3,
        r: Result<Self, CameraError>,
    ) -> bool {
        match r {
            Ok(camera) => {
                &&& camera.numerics() == kernel
                &&& camera.wf()
                &&& frustum.valid()
                &&& camera@.projection == frustum
                &&& camera@.coord_system.up_axis == up_axis
                &&& camera@.coord_system.aligned_by(&kernel)
                &&& !eye.same_position(at)
                &&& exists|sighting: Sighting|
                    sighting.usable() && #[trigger] camera@.aimed(
                        &kernel,
                        CameraState::blank(frustum, camera@.proj, camera@.coord_system),
                        eye,
                        at,
                        sighting,
                    )
            },
            Err(CameraError::InvalidFrustum) => {
                ||| !frustum.valid()
                ||| call_ensures(
                    K::perspective,
                    (&kernel, frustum.aspect, frustum.fovy, frustum.znear, frustum.zfar),
                    None::<Mat4>,
                )
            },
            Err(CameraError::DegenerateLookAt) => {
                &&& frustum.valid()
                &&& (eye.same_position(at) || exists|frame: CoordSystemRh, sighting: Sighting|
                    {
                        &&& frame.up_axis == up_axis
                        &&& frame.aligned_by(&kernel)
                        &&& !sighting.usable()
                        &&& #[trigger] sighted(&kernel, frame.rotation_to_y_up, eye, at, sighting)
                    })
            },
        }
    }

    /// What an attempt to aim the state `before` from `eye` at `at` owes.
    ///
    /// Success: the points differ, and `after` is `before` aimed by a usable
    /// sighting. Failure: the error is `DegenerateLookAt`, `after` is
    /// `before`, and the points coincide or gave a sighting that is not
    /// usable.
    pub open spec fn aim_outcome(
        kernel: &K,
        before: CameraState,
        eye: Vec3,
        at: Vec3,
        after: CameraState,
        r: Result<(), CameraError>,
    ) -> bool {
        match r {
            Ok(()) => {
                &&& !eye.same_position(at)
                &&& exists|sighting: Sighting|
                    sighting.usable() && #[trigger] after.aimed(kernel, before, eye, at, sighting)
            },
            Err(e) => {
                &&& e == CameraError::DegenerateLookAt
                &&& after == before
                &&& (eye.same_position(at) || exists|sighting: Sighting|
                    !sighting.usable() && #[trigger] sighted(
                        kernel,
                        before.coord_system.rotation_to_y_up,
                        eye,
                        at,
                        sighting,
                    ))
            },
        }
    }

    /// What a resize to `width` by `height` owes: for the aspect ratio that
    /// `kernel` computed, either it fits and `after` is `before` reshaped
    /// (`applied`), or it does not and `after` is `before`.
    pub open spec fn resize_outcome(
        kernel: &K,
        before: CameraState,
        width: u32,
        height: u32,
        after: CameraState,
        applied: bool,
    ) -> bool {
        exists|aspect: Scalar|
            {
                &&& #[trigger] ratio_of(kernel, width, height, aspect)
                &&& applied ==> {
                    &&& aspect.positive_finite()
                    &&& after.reshaped(kernel, before, aspect)
                }
                &&& !applied ==> {
                    &&& misfits(kernel, before.projection, aspect)
                    &&& after == before
                }
            }
    }

    /// What an event owes: a new framebuffer size is a resize, adopted or
    /// not, and any other event leaves the state as it is.
    pub open spec fn event_outcome(
        kernel: &K,
        before: CameraState,
        event: CameraEvent,
        after: CameraState,
    ) -> bool {
        match event {
            CameraEvent::FramebufferSize(width, height) => exists|applied: bool|
                #[trigger] Self::resize_outcome(kernel, before, width, height, after, applied),
            CameraEvent::Other => after == before,
        }
    }

    /// Creates a camera with the standard frustum (45 degrees of vertical
    /// field of view, planes at `0.1` and `1024`, aspect `800 / 600` until
    /// the first resize) and `+Y` as the up axis, looking from `eye` at `at`.
    ///
    /// The standard frustum satisfies the rule, so the call fails only where
    /// the points cannot be aimed at, or the kernel has no projection matrix.
    pub fn new(eye: Vec3, at: Vec3, kernel: K) -> (r: Result<Self, CameraError>)
        ensures
            Self::constructed(kernel, Perspective::standard(), Vec3::unit_y(), eye, at, r),
            r matches Err(CameraError::InvalidFrustum) ==> call_ensures(
                K::perspective,
                (
                    &kernel,
                    Perspective::standard().aspect,
                    Perspective::standard().fovy,
                    Perspective::standard().znear,
                    Perspective::standard().zfar,
                ),
                None::<Mat4>,
            ),
            eye.same_position(at) ==> r.is_err(),
    {
        proof {
            lemma_standard_is_valid();
        }
        Self::new_with_frustrum(
            Scalar { bits: DEFAULT_FOVY_BITS },
            Scalar { bits: DEFAULT_ZNEAR_BITS },
            Scalar { bits: DEFAULT_ZFAR_BITS },
            eye,
            at,
            kernel,
        )
    }

    /// Creates a camera with the given frustum and `+Y` as the up axis,
    /// looking from `eye` at `at`.
    ///
    /// The frustum must satisfy [`Perspective::valid`]: `0 < znear < zfar`
    /// and `0 < fov < pi`, all finite. One that does not is refused.
    pub fn new_with_frustrum(
        fov: Scalar,
        znear: Scalar,
        zfar: Scalar,
        eye: Vec3,
        at: Vec3,
        kernel: K,
    ) -> (r: Result<Self, CameraError>)
        ensures
            Self::constructed(
                kernel,
                Perspective::standard().framed_by(fov, znear, zfar),
                Vec3::unit_y(),
                eye,
                at,
                r,
            ),
            !Perspective::standard().framed_by(fov, znear, zfar).valid() ==> r matches Err(
                CameraError::InvalidFrustum,
            ),
            eye.same_position(at) ==> r.is_err(),
    {
        Self::new_with_up_axis(Vec3::y_axis(), fov, znear, zfar, eye, at, kernel)
    }

    /// Creates a camera with the given frustum in a world whose up direction
    /// is the unit vector `up_axis`, looking from `eye` at `at`.
    pub fn new_with_up_axis(
        up_axis: Vec3,
        fov: Scalar,
        znear: Scalar,
        zfar: Scalar,
        eye: Vec3,
        at: Vec3,
        kernel: K,
    ) -> (r: Result<Self, CameraError>)
        ensures
            Self::constructed(
                kernel,
                Perspective::standard().framed_by(fov, znear, zfar),
                up_axis,
                eye,
                at,
                r,
            ),
            !Perspective::standard().framed_by(fov, znear, zfar).valid() ==> r matches Err(
                CameraError::InvalidFrustum,
            ),
            eye.same_position(at) ==> r.is_err(),
    {
        let projection = Perspective {
            aspect: Scalar { bits: DEFAULT_ASPECT_BITS },
            fovy: fov,
            znear,
            zfar,
        };
        if !projection.is_valid() {
            return Err(CameraError::InvalidFrustum);
        }
        let proj = match kernel.perspective(projection.aspect, fov, znear, zfar) {
            Some(proj) => proj,
            None => {
                return Err(CameraError::InvalidFrustum);
            },
        };
        let coord_system = CoordSystemRh::from_up_axis(up_axis, &kernel);
        let origin = Vec3 {
            x: Scalar { bits: ZERO_BITS },
            y: Scalar { bits: ZERO_BITS },
            z: Scalar { bits: ZERO_BITS },
        };
        let start = CameraState {
            eye: origin,
            yaw: Scalar { bits: ZERO_BITS },
            pitch: Scalar { bits: ZERO_BITS },
            projection,
            proj,
            view_transform: Isometry::zero(),
            view: Mat4::zero(),
            proj_view: Mat4::zero(),
            inverse_proj_view: Mat4::zero(),
            coord_system,
        };
        match Self::aim(&kernel, start, eye, at) {
            Ok(state) => {
                proof {
                    let sighting = choose|sighting: Sighting|
                        sighting.usable() && #[trigger] state.aimed(
                            &kernel,
                            start,
                            eye,
                            at,
                            sighting,
                        );
                    assert(state.aimed(
                        &kernel,
                        CameraState::blank(projection, state.proj, state.coord_system),
                        eye,
                        at,
                        sighting,
                    ));
                }
                Ok(MyCamera { kernel, state })
            },
            Err(e) => {
                proof {
                    if !eye.same_position(at) {
                        // The sighting that failed was taken in the frame of `up_axis`.
                        let failed = choose|sighting: Sighting|
                            !sighting.usable() && #[trigger] sighted(
                                &kernel,
                                coord_system.rotation_to_y_up,
                                eye,
                                at,
                                sighting,
                            );
                    }
                }
                Err(e)
            },
        }
    }

    /// The unit vector of `yaw` and `pitch`, in the canonical frame.
    fn direction_of(kernel: &K, yaw: Scalar, pitch: Scalar) -> (direction: Vec3)
        ensures
            spherical(kernel, yaw, pitch, direction),
    {
        let cos_yaw = kernel.cos(yaw);
        let sin_yaw = kernel.sin(yaw);
        let sin_pitch = kernel.sin(pitch);
        let x = kernel.mul(cos_yaw, sin_pitch);
        let y = kernel.cos(pitch);
        let z = kernel.mul(sin_yaw, sin_pitch);
        Vec3 { x, y, z }
    }

    /// The point that `state` looks at.
    fn target_of(kernel: &K, state: &CameraState) -> (target: Vec3)
        ensures
            state.looks_at(kernel, target),
    {
        let rotation = state.coord_system.rotation_to_y_up;
        let view_eye = kernel.rotate(rotation, state.eye);
        let direction = Self::direction_of(kernel, state.yaw, state.pitch);
        let ax = kernel.add(view_eye.x, direction.x);
        let ay = kernel.add(view_eye.y, direction.y);
        let az = kernel.add(view_eye.z, direction.z);
        let ahead = Vec3 { x: ax, y: ay, z: az };
        let back = kernel.inverse_rotation(rotation);
        kernel.rotate(back, ahead)
    }

    /// The view transform of `state`.
    fn motion_of(kernel: &K, state: &CameraState) -> (motion: Isometry)
        ensures
            state.viewed_by(kernel, motion),
    {
        let target = Self::target_of(kernel, state);
        kernel.look_at_rh(state.eye, target, state.coord_system.up_axis)
    }

    /// Recomputes the view transform and matrix, the view-projection matrix
    /// and its inverse of `state`. The inverse is replaced only where the
    /// kernel finds one.
    fn update_projviews(kernel: &K, state: CameraState) -> (fresh: CameraState)
        ensures
            fresh.refreshed(kernel, state),
    {
        let motion = Self::motion_of(kernel, &state);
        let view = kernel.to_homogeneous(motion);
        let proj_view = kernel.product(state.proj, view);
        let inverse = kernel.try_inverse(proj_view);
        state.with_derived(motion, view, proj_view, inverse)
    }

    /// Measures `at` from `eye` in the frame turned by `rotation`.
    fn measure(kernel: &K, rotation: Quat, eye: Vec3, at: Vec3) -> (sighting: Sighting)
        ensures
            sighted(kernel, rotation, eye, at, sighting),
    {
        let offset = kernel.difference(eye, at);
        let distance = kernel.norm(offset);
        let view_eye = kernel.rotate(rotation, eye);
        let view_at = kernel.rotate(rotation, at);
        let toward = Vec3 {
            x: kernel.sub(view_at.x, view_eye.x),
            y: kernel.sub(view_at.y, view_eye.y),
            z: kernel.sub(view_at.z, view_eye.z),
        };
        let slope = kernel.div(toward.y, distance);
        let pitch = kernel.acos(slope);
        let yaw = kernel.atan2(toward.z, toward.x);
        Sighting { distance, yaw, pitch }
    }

    /// Aims `state` from `eye` at `at`, or says why it cannot.
    fn aim(kernel: &K, state: CameraState, eye: Vec3, at: Vec3) -> (r: Result<
        CameraState,
        CameraError,
    >)
        requires
            state.lens_ready(kernel),
        ensures
            r is Ok ==> Self::aim_outcome(kernel, state, eye, at, r->Ok_0, Ok(())),
            r is Ok ==> r->Ok_0.coherent(kernel),
            r is Err ==> Self::aim_outcome(kernel, state, eye, at, state, Err(r->Err_0)),
    {
        if eye.coincides(at) {
            return Err(CameraError::DegenerateLookAt);
        }
        let sighting = Self::measure(kernel, state.coord_system.rotation_to_y_up, eye, at);
        if !sighting.is_usable() {
            return Err(CameraError::DegenerateLookAt);
        }
        let after = Self::update_projviews(
            kernel,
            CameraState { eye, yaw: sighting.yaw, pitch: sighting.pitch, ..state },
        );
        assert(after.aimed(kernel, state, eye, at, sighting));
        Ok(after)
    }

    /// Measures the distance, yaw and pitch of `at` as seen from `eye`.
    pub fn sight(&self, eye: Vec3, at: Vec3) -> (sighting: Sighting)
        ensures
            sighted(
                &self.numerics(),
                self@.coord_system.rotation_to_y_up,
                eye,
                at,
                sighting,
            ),
    {
        Self::measure(&self.kernel, self.state.coord_system.rotation_to_y_up, eye, at)
    }

    /// Changes the position and the orientation of the camera so that, from
    /// `eye`, it looks at `at`.
    ///
    /// The two points must differ. Where they coincide, or where no yaw and
    /// pitch can be measured between them (the distance comes out as zero or
    /// as a NaN, or an angle comes out as a NaN), the camera is left as it
    /// was and the call fails.
    pub fn look_at(&mut self, eye: Vec3, at: Vec3) -> (r: Result<(), CameraError>)
        ensures
            final(self).numerics() == old(self).numerics(),
            final(self).wf(),
            eye.same_position(at) ==> r.is_err(),
            Self::aim_outcome(&old(self).numerics(), old(self)@, eye, at, final(self)@, r),
    {
        proof {
            use_type_invariant(&*self);
        }
        match Self::aim(&self.kernel, self.state, eye, at) {
            Ok(state) => {
                self.state = state;
                Ok(())
            },
            Err(e) => Err(e),
        }
    }

    /// Sets yaw and pitch, stored as given: nothing is wrapped or clamped.
    pub fn set_yaw_pitch(&mut self, yaw: Scalar, pitch: Scalar)
        ensures
            final(self).numerics() == old(self).numerics(),
            final(self).wf(),
            final(self)@.turned(&old(self).numerics(), old(self)@, yaw, pitch),
    {
        proof {
            use_type_invariant(&*self);
        }
        let state = self.state;
        self.state = Self::update_projviews(&self.kernel, CameraState { yaw, pitch, ..state });
    }

    /// Sets the eye of this camera to `eye`.
    fn set_eye(&mut self, eye: Vec3)
        ensures
            final(self).numerics() == old(self).numerics(),
            final(self).wf(),
            final(self)@.refreshed(&old(self).numerics(), old(self)@.at_eye(eye)),
    {
        proof {
            use_type_invariant(&*self);
        }
        let state = self.state;
        self.state = Self::update_projviews(&self.kernel, CameraState { eye, ..state });
    }

    /// Translates this camera in place by `t`.
    pub fn translate_mut(&mut self, t: Vec3)
        ensures
            final(self).numerics() == old(self).numerics(),
            final(self).wf(),
            final(self)@.moved(&old(self).numerics(), old(self)@, t),
    {
        let new_eye = self.kernel.translate(t, self.state.eye);
        self.set_eye(new_eye);
    }

    /// Adopts a new framebuffer size: the aspect ratio becomes
    /// `width / height`. Returns whether it did. A size that gives no usable
    /// aspect ratio (a zero width or height, for one) leaves the camera as it
    /// was.
    pub fn on_resize(&mut self, width: u32, height: u32) -> (applied: bool)
        ensures
            final(self).numerics() == old(self).numerics(),
            final(self).wf(),
            Self::resize_outcome(
                &old(self).numerics(),
                old(self)@,
                width,
                height,
                final(self)@,
                applied,
            ),
    {
        proof {
            use_type_invariant(&*self);
        }
        let w = self.kernel.from_u32(width);
        let h = self.kernel.from_u32(height);
        let aspect = self.kernel.div(w, h);
        assert(ratio_of(&self.numerics(), width, height, aspect));
        if !aspect.is_positive_finite() {
            return false;
        }
        let state = self.state;
        let projection = state.projection;
        match self.kernel.perspective(aspect, projection.fovy, projection.znear, projection.zfar) {
            None => false,
            Some(proj) => {
                let reshaped = CameraState {
                    projection: Perspective { aspect, ..projection },
                    proj,
                    ..state
                };
                self.state = Self::update_projviews(&self.kernel, reshaped);
                true
            },
        }
    }

    /// Reacts to an event of the window system: a new framebuffer size is
    /// adopted as by [`MyCamera::on_resize`], and nothing else concerns the
    /// camera.
    pub fn handle_event(&mut self, event: &CameraEvent)
        ensures
            final(self).numerics() == old(self).numerics(),
            final(self).wf(),
            Self::event_outcome(&old(self).numerics(), old(self)@, *event, final(self)@),
    {
        match *event {
            CameraEvent::FramebufferSize(width, height) => {
                let _ = self.on_resize(width, height);
            },
            CameraEvent::Other => {
                proof {
                    use_type_invariant(&*self);
                }
            },
        }
    }

    /// The point the camera is looking at, one unit ahead of the eye.
    pub fn at(&self) -> (target: Vec3)
        ensures
            self@.looks_at(&self.numerics(), target),
    {
        Self::target_of(&self.kernel, &self.state)
    }

    /// The direction this camera is looking in: the normalized vector from
    /// the eye to the point it looks at.
    pub fn eye_dir(&self) -> (direction: Vec3)
        ensures
            self@.looks_along(&self.numerics(), direction),
    {
        let target = self.at();
        let ahead = self.kernel.difference(target, self.state.eye);
        self.kernel.normalize(ahead)
    }

    /// The view transformation, without the projection.
    pub fn view_transform(&self) -> (motion: Isometry)
        ensures
            motion == self@.view_transform,
            self@.viewed_by(&self.numerics(), motion),
    {
        proof {
            use_type_invariant(self);
        }
        self.state.view_transform
    }

    /// The kernel that this camera computes with.
    pub fn kernel(&self) -> (kernel: &K)
        ensures
            *kernel == self.numerics(),
            self.wf(),
    {
        proof {
            use_type_invariant(self);
        }
        &self.kernel
    }

    /// The whole state, as plain values.
    pub fn state(&self) -> (state: CameraState)
        ensures
            state == self@,
            self.wf(),
    {
        proof {
            use_type_invariant(self);
        }
        self.state
    }

    /// The position of the eye.
    pub fn eye(&self) -> (eye: Vec3)
        ensures
            eye == self@.eye,
    {
        self.state.eye
    }

    /// The transformation from world coordinates to device coordinates:
    /// projection times view.
    pub fn transformation(&self) -> (m: Mat4)
        ensures
            m == self@.proj_view,
            self@.product_current(&self.numerics()),
    {
        proof {
            use_type_invariant(self);
        }
        self.state.proj_view
    }

    /// The transformation from device coordinates to world coordinates: the
    /// latest inverse of [`MyCamera::transformation`] that could be computed.
    pub fn inverse_transformation(&self) -> (m: Mat4)
        ensures
            m == self@.inverse_proj_view,
            self@.inverse_current(&self.numerics()) || self@.singular(&self.numerics()),
    {
        proof {
            use_type_invariant(self);
        }
        self.state.inverse_proj_view
    }

    /// The clipping planes, `(znear, zfar)`.
    pub fn clip_planes(&self) -> (planes: (Scalar, Scalar))
        ensures
            planes == (self@.projection.znear, self@.projection.zfar),
    {
        (self.state.projection.znear, self.state.projection.zfar)
    }

    /// Writes the projection and the view matrix into the two slots that the
    /// renderer reads them from. The pass makes no difference.
    pub fn upload(&self, _pass: usize, proj: &mut Mat4, view: &mut Mat4)
        ensures
            *final(proj) == self@.proj,
            *final(view) == self@.view,
    {
        *proj = self.state.proj;
        *view = self.state.view;
    }
}

impl<K: Numerics + Copy> MyCamera<K> {
    /// A copy of this camera, translated by `t`. The camera itself stays as
    /// it is.
    pub fn translate(&self, t: Vec3) -> (res: Self)
        ensures
            res.numerics() == self.numerics(),
            res.wf(),
            res@.moved(&self.numerics(), self@, t),
    {
        let mut res = *self;
        res.translate_mut(t);
        res
    }
}

} // verus!
