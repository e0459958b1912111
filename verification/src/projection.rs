//! The parameters of the perspective frustum, and the rule that admits them.

use vstd::prelude::*;
use crate::scalar::{Scalar, lemma_magnitude_order, lemma_zero_magnitude, PI_BITS};

verus! {

/// The pattern of `800.0 / 600.0`, the aspect ratio before the first resize.
pub const DEFAULT_ASPECT_BITS: u32 = 0x3faa_aaab;

/// The pattern of a quarter of pi: a vertical field of view of 45 degrees.
pub const DEFAULT_FOVY_BITS: u32 = 0x3f49_0fdb;

/// The pattern of `0.1`.
pub const DEFAULT_ZNEAR_BITS: u32 = 0x3dcc_cccd;

/// The pattern of `1024.0`.
pub const DEFAULT_ZFAR_BITS: u32 = 0x4480_0000;

/// A perspective frustum: aspect ratio (width over height), vertical field of
/// view in radians, and the distances of the near and far clipping planes.
#[derive(Clone, Copy, Debug, PartialEq, Eq, Structural)]
pub struct Perspective {
    pub aspect: Scalar,
    pub fovy: Scalar,
    pub znear: Scalar,
    pub zfar: Scalar,
}

impl Perspective {
    /// The rule on frustum parameters: all four are finite numbers, the
    /// aspect ratio is positive, the field of view lies strictly between zero
    /// and pi, and `0 < znear < zfar`.
    pub open spec fn valid(self) -> bool {
        &&& self.aspect.positive_finite()
        &&& self.fovy.positive_finite()
        &&& self.fovy.less_than(Scalar::pi())
        &&& self.znear.positive_finite()
        &&& self.zfar.finite()
        &&& self.znear.less_than(self.zfar)
    }

    /// The frustum of a camera that was given none: 45 degrees, planes at
    /// `0.1` and `1024`, aspect `800 / 600`.
    pub open spec fn standard() -> Perspective {
        Perspective {
            aspect: Scalar { bits: DEFAULT_ASPECT_BITS },
            fovy: Scalar { bits: DEFAULT_FOVY_BITS },
            znear: Scalar { bits: DEFAULT_ZNEAR_BITS },
            zfar: Scalar { bits: DEFAULT_ZFAR_BITS },
        }
    }

    /// The same aspect ratio with another field of view and other planes.
    pub open spec fn framed_by(self, fovy: Scalar, znear: Scalar, zfar: Scalar) -> Perspective {
        Perspective { aspect: self.aspect, fovy, znear, zfar }
    }

    /// The same frustum with another aspect ratio.
    pub open spec fn resized(self, aspect: Scalar) -> Perspective {
        Perspective { aspect, ..self }
    }

    /// Whether the parameters satisfy the rule.
    pub fn is_valid(&self) -> (r: bool)
        ensures
            r == self.valid(),
    {
        self.aspect.is_positive_finite() && self.fovy.is_positive_finite() && self.fovy.lt(
            Scalar { bits: PI_BITS },
        ) && self.znear.is_positive_finite() && self.zfar.is_finite() && self.znear.lt(self.zfar)
    }
}

/// The standard frustum satisfies the rule.
pub proof fn lemma_standard_is_valid()
    ensures
        Perspective::standard().valid(),
{
    let p = Perspective::standard();
    lemma_zero_magnitude(p.aspect);
    lemma_zero_magnitude(p.fovy);
    lemma_zero_magnitude(p.znear);
    lemma_magnitude_order(p.fovy, Scalar::pi());
    lemma_magnitude_order(p.znear, p.zfar);
}

} // verus!
