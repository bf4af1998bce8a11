//! Why the presentation camera center may differ from its follow target.
//!
//! The geometric tests (step length, clamp distance) are float work done by
//! the caller; this module owns the classification.

use vstd::prelude::*;

verus! {

#[derive(Clone, Copy, Debug, PartialEq, Eq, Structural)]
pub enum CameraClampReason {
    /// Following, but no raw target this step.
    NoTarget,
    Follow,
    /// Follow target was moved to keep the viewport inside world bounds.
    ClampedToBounds,
    /// Follow disabled; only bounds clamp applied.
    BoundsOnly,
}

impl Default for CameraClampReason {
    fn default() -> (r: Self)
        ensures
            r == CameraClampReason::NoTarget,
    {
        CameraClampReason::NoTarget
    }
}

impl CameraClampReason {
    /// Classifies a finished camera step. `following` is whether a raw follow
    /// target was supplied; `clamped` whether the final center moved away
    /// from it.
    pub fn classify(follow_enabled: bool, following: bool, clamped: bool) -> (r: Self)
        ensures
            !follow_enabled ==> r == CameraClampReason::BoundsOnly,
            follow_enabled && !following ==> r == CameraClampReason::NoTarget,
            follow_enabled && following && clamped ==> r == CameraClampReason::ClampedToBounds,
            follow_enabled && following && !clamped ==> r == CameraClampReason::Follow,
    {
        if !follow_enabled {
            CameraClampReason::BoundsOnly
        } else if following {
            if clamped {
                CameraClampReason::ClampedToBounds
            } else {
                CameraClampReason::Follow
            }
        } else {
            CameraClampReason::NoTarget
        }
    }
}

} // verus!
