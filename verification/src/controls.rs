//! What a host does with its input before it reaches the camera: keys become
//! a step of the eye, and a move of the cursor becomes a turn of the head.
//!
//! The camera stores yaw and pitch as given. At pitch zero and at pitch pi the
//! look direction is collinear with the up axis, and the view transform has
//! no answer. So a turn keeps the pitch a little inside that interval.
//!
//! The cursor is sampled once a frame. A sample far from the one before is a
//! jump, not a move, and turns nothing. A cursor that comes near the border
//! of the window is put back in the middle, so that it never leaves.

use vstd::prelude::*;
use crate::scalar::{Scalar, lemma_magnitude_order, lemma_zero_magnitude};
use crate::wide::Wide;
use crate::linear::{Vec3, ONE_BITS, ZERO_BITS};
use crate::numerics::Numerics;
use crate::state::CameraState;
use crate::camera::MyCamera;

verus! {

/// The pattern of `-1.0`.
pub const MINUS_ONE_BITS: u32 = 0xbf80_0000;

/// The pattern of `0.01`: the smallest pitch that a turn ends at.
pub const MIN_PITCH_BITS: u32 = 0x3c23_d70a;

/// The pattern of pi less `0.01`, both in binary32: the largest pitch that a
/// turn ends at.
pub const MAX_PITCH_BITS: u32 = 0x4048_6c04;

/// The binary64 pattern of `500.0`: a cursor that moved as far sideways in
/// one frame, or farther, has jumped.
pub const JUMP_X_BITS: u64 = 0x407f_4000_0000_0000;

/// The binary64 pattern of `200.0`: a cursor that moved as far up or down in
/// one frame, or farther, has jumped.
pub const JUMP_Y_BITS: u64 = 0x4069_0000_0000_0000;

/// The binary64 pattern of `10.0`: the width of the border, in pixels, in
/// which the cursor is not left.
pub const BORDER_BITS: u64 = 0x4024_0000_0000_0000;

/// The binary64 pattern of `2.0`.
pub const TWO_BITS: u64 = 0x4000_0000_0000_0000;

/// The smallest pitch that a turn ends at.
pub open spec fn min_pitch() -> Scalar {
    Scalar { bits: MIN_PITCH_BITS }
}

/// The largest pitch that a turn ends at.
pub open spec fn max_pitch() -> Scalar {
    Scalar { bits: MAX_PITCH_BITS }
}

/// The pitch brought into `[min_pitch, max_pitch]`: one beyond an end becomes
/// that end, and every other pitch, a NaN too, stays what it is.
pub open spec fn clamped(pitch: Scalar) -> Scalar {
    if max_pitch().less_than(pitch) {
        max_pitch()
    } else if pitch.less_than(min_pitch()) {
        min_pitch()
    } else {
        pitch
    }
}

/// Keeps a pitch off the poles.
pub fn clamp_pitch(pitch: Scalar) -> (r: Scalar)
    ensures
        r == clamped(pitch),
{
    let low = Scalar { bits: MIN_PITCH_BITS };
    let high = Scalar { bits: MAX_PITCH_BITS };
    if high.lt(pitch) {
        high
    } else if pitch.lt(low) {
        low
    } else {
        pitch
    }
}

/// The movement keys that are held.
#[derive(Clone, Copy, Debug, PartialEq, Eq, Structural)]
pub struct Keys {
    pub forward: bool,
    pub back: bool,
    pub left: bool,
    pub right: bool,
    pub up: bool,
    pub down: bool,
}

/// What two opposite keys ask for: `1.0` for the first alone, `-1.0` for the
/// second alone, and `0.0` for neither and for both.
pub open spec fn axis(positive: bool, negative: bool) -> Scalar {
    if positive && !negative {
        Scalar { bits: ONE_BITS }
    } else if negative && !positive {
        Scalar { bits: MINUS_ONE_BITS }
    } else {
        Scalar { bits: ZERO_BITS }
    }
}

impl Keys {
    /// The movement asked for, as (forward, up, right).
    pub open spec fn movement(self) -> Vec3 {
        Vec3 {
            x: axis(self.forward, self.back),
            y: axis(self.up, self.down),
            z: axis(self.right, self.left),
        }
    }

    /// No movement is asked for: on each axis neither key is held, or both.
    pub open spec fn idle(self) -> bool {
        &&& self.forward == self.back
        &&& self.up == self.down
        &&& self.right == self.left
    }

    /// The movement asked for, as (forward, up, right).
    pub fn to_movement(&self) -> (movement: Vec3)
        ensures
            movement == self.movement(),
    {
        Vec3 {
            x: pick(self.forward, self.back),
            y: pick(self.up, self.down),
            z: pick(self.right, self.left),
        }
    }

    /// Whether no movement is asked for.
    pub fn is_idle(&self) -> (r: bool)
        ensures
            r == self.idle(),
    {
        self.forward == self.back && self.up == self.down && self.right == self.left
    }
}

fn pick(positive: bool, negative: bool) -> (r: Scalar)
    ensures
        r == axis(positive, negative),
{
    if positive && !negative {
        Scalar { bits: ONE_BITS }
    } else if negative && !positive {
        Scalar { bits: MINUS_ONE_BITS }
    } else {
        Scalar { bits: ZERO_BITS }
    }
}

/// `delta` is the step that `kernel` computed for `movement` at `speed`.
///
/// Forward is the look direction of `state`, flattened onto the horizontal
/// plane and normalized; right is forward crossed with `+Y`, normalized; up
/// is `+Y`. The step is forward, right and up, each scaled by its share of
/// the movement, summed in that order, and scaled by the speed.
pub open spec fn stride<K: Numerics>(
    kernel: &K,
    state: CameraState,
    movement: Vec3,
    speed: Scalar,
    delta: Vec3,
) -> bool {
    exists|
        direction: Vec3,
        forward: Vec3,
        sideways: Vec3,
        right: Vec3,
        ahead: Vec3,
        aside: Vec3,
        above: Vec3,
        level: Vec3,
        whole: Vec3,
    |
        {
            &&& #[trigger] state.looks_along(kernel, direction)
            &&& #[trigger] call_ensures(K::normalize, (kernel, direction.flattened()), forward)
            &&& #[trigger] call_ensures(K::cross, (kernel, forward, Vec3::unit_y()), sideways)
            &&& #[trigger] call_ensures(K::normalize, (kernel, sideways), right)
            &&& #[trigger] call_ensures(K::scale, (kernel, forward, movement.x), ahead)
            &&& #[trigger] call_ensures(K::scale, (kernel, right, movement.z), aside)
            &&& #[trigger] call_ensures(K::scale, (kernel, Vec3::unit_y(), movement.y), above)
            &&& #[trigger] call_ensures(K::sum, (kernel, ahead, aside), level)
            &&& #[trigger] call_ensures(K::sum, (kernel, level, above), whole)
            &&& call_ensures(K::scale, (kernel, whole, speed), delta)
        }
}

/// What a walk owes. Idle keys move nothing. Other keys translate the eye by
/// the step that [`stride`] gives.
pub open spec fn walk_outcome<K: Numerics>(
    kernel: &K,
    before: CameraState,
    keys: Keys,
    speed: Scalar,
    after: CameraState,
    moved: bool,
) -> bool {
    if keys.idle() {
        !moved && after == before
    } else {
        moved && exists|delta: Vec3|
            {
                &&& #[trigger] stride(kernel, before, keys.movement(), speed, delta)
                &&& after.moved(kernel, before, delta)
            }
    }
}

/// Moves the eye as the held keys ask, relative to where the camera looks:
/// forward and back along the look direction flattened onto the horizontal
/// plane, sideways across it, and up and down along `+Y`, by `speed` each
/// frame. Returns whether keys asked for a move.
///
/// A camera that looks straight up or down has no forward, and its step has
/// no numbers in it. Turning by [`look_around`] never leads there.
pub fn walk<K: Numerics>(camera: &mut MyCamera<K>, keys: &Keys, speed: Scalar) -> (moved: bool)
    ensures
        final(camera).numerics() == old(camera).numerics(),
        final(camera).wf(),
        walk_outcome(&old(camera).numerics(), old(camera)@, *keys, speed, final(camera)@, moved),
{
    let kernel = camera.kernel();
    if keys.is_idle() {
        return false;
    }
    let movement = keys.to_movement();
    let direction = camera.eye_dir();
    let flat = Vec3 { x: direction.x, y: Scalar { bits: ZERO_BITS }, z: direction.z };
    let forward = kernel.normalize(flat);
    let sideways = kernel.cross(forward, Vec3::y_axis());
    let right = kernel.normalize(sideways);
    let ahead = kernel.scale(forward, movement.x);
    let aside = kernel.scale(right, movement.z);
    let above = kernel.scale(Vec3::y_axis(), movement.y);
    let level = kernel.sum(ahead, aside);
    let whole = kernel.sum(level, above);
    let delta = kernel.scale(whole, speed);
    proof {
        let k = &old(camera).numerics();
        assert(call_ensures(K::normalize, (k, direction.flattened()), forward));
    }
    assert(stride(&old(camera).numerics(), old(camera)@, movement, speed, delta));
    camera.translate_mut(delta);
    true
}

/// The cursor moved too far in one frame to have been moved by hand: the move
/// is not below `500` sideways, or not below `200` up or down. A NaN counts
/// as a jump.
pub open spec fn jumped(dx: Wide, dy: Wide) -> bool {
    ||| !dx.magnitude().less_than(Wide { bits: JUMP_X_BITS })
    ||| !dy.magnitude().less_than(Wide { bits: JUMP_Y_BITS })
}

/// Whether the cursor jumped.
pub fn has_jumped(dx: Wide, dy: Wide) -> (r: bool)
    ensures
        r == jumped(dx, dy),
{
    !(dx.abs().lt(Wide { bits: JUMP_X_BITS }) && dy.abs().lt(Wide { bits: JUMP_Y_BITS }))
}

/// `yaw` and `pitch` are what `kernel` computed from the yaw and pitch of
/// `state` and a move of the cursor: each angle grows by its share of the
/// move, narrowed to binary32, times the sensitivity. The pitch is not
/// clamped yet.
pub open spec fn swung<K: Numerics>(
    kernel: &K,
    state: CameraState,
    dx: Wide,
    dy: Wide,
    sensitivity: Scalar,
    yaw: Scalar,
    pitch: Scalar,
) -> bool {
    exists|across: Scalar, down: Scalar, turn: Scalar, tilt: Scalar|
        {
            &&& #[trigger] call_ensures(K::narrow, (kernel, dx), across)
            &&& #[trigger] call_ensures(K::mul, (kernel, across, sensitivity), turn)
            &&& call_ensures(K::add, (kernel, state.yaw, turn), yaw)
            &&& #[trigger] call_ensures(K::narrow, (kernel, dy), down)
            &&& #[trigger] call_ensures(K::mul, (kernel, down, sensitivity), tilt)
            &&& call_ensures(K::add, (kernel, state.pitch, tilt), pitch)
        }
}

/// What a look owes. A jump of the cursor turns nothing. Any other move
/// turns the camera to the yaw and the clamped pitch that [`swung`] gives.
pub open spec fn look_outcome<K: Numerics>(
    kernel: &K,
    before: CameraState,
    dx: Wide,
    dy: Wide,
    sensitivity: Scalar,
    after: CameraState,
    turned: bool,
) -> bool {
    if jumped(dx, dy) {
        !turned && after == before
    } else {
        turned && exists|yaw: Scalar, pitch: Scalar|
            {
                &&& #[trigger] swung(kernel, before, dx, dy, sensitivity, yaw, pitch)
                &&& after.turned(kernel, before, yaw, clamped(pitch))
            }
    }
}

/// Turns the camera by a move of the cursor of `dx` by `dy` pixels: the yaw
/// grows by `dx * sensitivity`, the pitch by `dy * sensitivity`, and the
/// pitch is kept off the poles. A cursor that jumped is ignored. Returns
/// whether the camera turned.
pub fn look_around<K: Numerics>(
    camera: &mut MyCamera<K>,
    dx: Wide,
    dy: Wide,
    sensitivity: Scalar,
) -> (turned: bool)
    ensures
        final(camera).numerics() == old(camera).numerics(),
        final(camera).wf(),
        look_outcome(
            &old(camera).numerics(),
            old(camera)@,
            dx,
            dy,
            sensitivity,
            final(camera)@,
            turned,
        ),
{
    let state = camera.state();
    if has_jumped(dx, dy) {
        return false;
    }
    let kernel = camera.kernel();
    let across = kernel.narrow(dx);
    let turn = kernel.mul(across, sensitivity);
    let yaw = kernel.add(state.yaw, turn);
    let down = kernel.narrow(dy);
    let tilt = kernel.mul(down, sensitivity);
    let pitch = kernel.add(state.pitch, tilt);
    assert(swung(&old(camera).numerics(), old(camera)@, dx, dy, sensitivity, yaw, pitch));
    camera.set_yaw_pitch(yaw, clamp_pitch(pitch));
    true
}

/// A position of the cursor in the window, in pixels from its top left
/// corner.
#[derive(Clone, Copy, Debug, PartialEq, Eq, Structural)]
pub struct Cursor {
    pub x: Wide,
    pub y: Wide,
}

impl Cursor {
    /// The two positions are the same numbers.
    pub open spec fn rests_at(self, other: Cursor) -> bool {
        self.x.same_number(other.x) && self.y.same_number(other.y)
    }

    /// The border of the window: left of `10` or right of `right`, above
    /// `10` or below `bottom`.
    pub open spec fn near_border(self, right: Wide, bottom: Wide) -> bool {
        ||| self.x.less_than(Wide { bits: BORDER_BITS })
        ||| right.less_than(self.x)
        ||| self.y.less_than(Wide { bits: BORDER_BITS })
        ||| bottom.less_than(self.y)
    }

    /// Whether the two positions are the same numbers.
    pub fn is_at(self, other: Cursor) -> (r: bool)
        ensures
            r == self.rests_at(other),
    {
        self.x.eq_number(other.x) && self.y.eq_number(other.y)
    }

    /// Whether the position lies in the border of the window.
    pub fn is_near_border(self, right: Wide, bottom: Wide) -> (r: bool)
        ensures
            r == self.near_border(right, bottom),
    {
        let margin = Wide { bits: BORDER_BITS };
        self.x.lt(margin) || right.lt(self.x) || self.y.lt(margin) || bottom.lt(self.y)
    }
}

/// What a frame's sample of the cursor leads to.
#[derive(Clone, Copy, Debug, PartialEq, Eq, Structural)]
pub struct CursorStep {
    /// The position to measure the next move from.
    pub remembered: Cursor,
    /// Where the host is to put the cursor, if anywhere.
    pub recenter: Option<Cursor>,
    /// Whether the camera turned.
    pub turned: bool,
}

/// `w` and `h` are the size of the window as `kernel` widened it, and `right`
/// and `bottom` are where its border begins: `10` short of either.
pub open spec fn margins<K: Numerics>(
    kernel: &K,
    width: u32,
    height: u32,
    w: Wide,
    h: Wide,
    right: Wide,
    bottom: Wide,
) -> bool {
    &&& call_ensures(K::widen, (kernel, width), w)
    &&& call_ensures(K::widen, (kernel, height), h)
    &&& call_ensures(K::wide_sub, (kernel, w, Wide { bits: BORDER_BITS }), right)
    &&& call_ensures(K::wide_sub, (kernel, h, Wide { bits: BORDER_BITS }), bottom)
}

/// `middle` is the middle of a window of `w` by `h`, as `kernel` halved them.
pub open spec fn middle_of<K: Numerics>(kernel: &K, w: Wide, h: Wide, middle: Cursor) -> bool {
    &&& call_ensures(K::wide_div, (kernel, w, Wide { bits: TWO_BITS }), middle.x)
    &&& call_ensures(K::wide_div, (kernel, h, Wide { bits: TWO_BITS }), middle.y)
}

/// What the sample `current` owes, `previous` being the position remembered
/// and `sample` the position that counts: `current`, or `previous` where the
/// window had no cursor to report.
///
/// A cursor that rests changes nothing. One that moved turns the camera by
/// its move, unless it jumped ([`look_outcome`]), and is remembered if the
/// camera turned. One that moved into the border is to be put back in the
/// middle of the window, and the middle is remembered.
pub open spec fn track_outcome<K: Numerics>(
    kernel: &K,
    before: CameraState,
    previous: Cursor,
    sample: Cursor,
    width: u32,
    height: u32,
    sensitivity: Scalar,
    after: CameraState,
    step: CursorStep,
) -> bool {
    if sample.rests_at(previous) {
        &&& after == before
        &&& step == (CursorStep { remembered: previous, recenter: None, turned: false })
    } else {
        exists|dx: Wide, dy: Wide, w: Wide, h: Wide, right: Wide, bottom: Wide|
            {
                &&& #[trigger] call_ensures(K::wide_sub, (kernel, sample.x, previous.x), dx)
                &&& #[trigger] call_ensures(K::wide_sub, (kernel, sample.y, previous.y), dy)
                &&& look_outcome(kernel, before, dx, dy, sensitivity, after, step.turned)
                &&& #[trigger] margins(kernel, width, height, w, h, right, bottom)
                &&& if sample.near_border(right, bottom) {
                    &&& step.recenter is Some
                    &&& middle_of(kernel, w, h, step.recenter->Some_0)
                    &&& step.remembered == step.recenter->Some_0
                } else {
                    &&& step.recenter is None
                    &&& step.remembered == if step.turned {
                        sample
                    } else {
                        previous
                    }
                }
            }
    }
}

/// The sample that counts: the cursor's position, or the remembered one where
/// the window has no position to report.
pub open spec fn sample_of(previous: Cursor, current: Option<Cursor>) -> Cursor {
    match current {
        Some(position) => position,
        None => previous,
    }
}

/// Takes a frame's sample of the cursor: turns the camera by the move since
/// the position remembered, and says what to remember next and whether to
/// put the cursor back in the middle of the window, which is `width` by
/// `height` pixels.
pub fn track_cursor<K: Numerics>(
    camera: &mut MyCamera<K>,
    previous: Cursor,
    current: Option<Cursor>,
    width: u32,
    height: u32,
    sensitivity: Scalar,
) -> (step: CursorStep)
    ensures
        final(camera).numerics() == old(camera).numerics(),
        final(camera).wf(),
        track_outcome(
            &old(camera).numerics(),
            old(camera)@,
            previous,
            sample_of(previous, current),
            width,
            height,
            sensitivity,
            final(camera)@,
            step,
        ),
{
    let sample = match current {
        Some(position) => position,
        None => previous,
    };
    let kernel = camera.kernel();
    if sample.is_at(previous) {
        return CursorStep { remembered: previous, recenter: None, turned: false };
    }
    let dx = kernel.wide_sub(sample.x, previous.x);
    let dy = kernel.wide_sub(sample.y, previous.y);
    let w = kernel.widen(width);
    let h = kernel.widen(height);
    let right = kernel.wide_sub(w, Wide { bits: BORDER_BITS });
    let bottom = kernel.wide_sub(h, Wide { bits: BORDER_BITS });
    let near = sample.is_near_border(right, bottom);
    let middle = if near {
        Some(
            Cursor {
                x: kernel.wide_div(w, Wide { bits: TWO_BITS }),
                y: kernel.wide_div(h, Wide { bits: TWO_BITS }),
            },
        )
    } else {
        None
    };
    let turned = look_around(camera, dx, dy, sensitivity);
    let remembered = match middle {
        Some(position) => position,
        None => if turned {
            sample
        } else {
            previous
        },
    };
    assert(margins(&old(camera).numerics(), width, height, w, h, right, bottom));
    CursorStep { remembered, recenter: middle, turned }
}

/// Keys are idle exactly when the movement they ask for is the zero vector.
pub proof fn law_idle_keys_ask_for_nothing(keys: Keys)
    ensures
        keys.idle() <==> keys.movement().same_position(Vec3::origin()),
{
    lemma_zero_magnitude(Scalar { bits: ONE_BITS });
    lemma_zero_magnitude(Scalar { bits: MINUS_ONE_BITS });
    lemma_zero_magnitude(Scalar { bits: ZERO_BITS });
}

/// A clamped pitch that is a number lies between the two ends, and so
/// strictly between zero and pi.
pub proof fn law_clamped_pitch_is_off_the_poles(pitch: Scalar)
    requires
        !pitch.nan(),
    ensures
        !clamped(pitch).nan(),
        min_pitch().scaled() <= clamped(pitch).scaled() <= max_pitch().scaled(),
        0 < clamped(pitch).scaled(),
        clamped(pitch).less_than(Scalar::pi()),
{
    lemma_zero_magnitude(min_pitch());
    lemma_magnitude_order(min_pitch(), max_pitch());
    lemma_magnitude_order(max_pitch(), Scalar::pi());
}

/// Clamping twice is clamping once.
pub proof fn law_clamp_is_idempotent(pitch: Scalar)
    ensures
        clamped(clamped(pitch)) == clamped(pitch),
{
    lemma_magnitude_order(min_pitch(), max_pitch());
}

} // verus!
