//! Camera-jitter isolation modes for the debug overlay.

use vstd::prelude::*;

verus! {

/// Debug isolation modes. Default is the product behavior.
#[derive(Clone, Copy, Debug, Default, PartialEq, Eq, Structural)]
pub enum CameraJitterMode {
    #[default]
    Normal,
    CameraFrozen,
    PresentationRawPrediction,
    PresentationSmoothed,
    CameraFollowPresented,
    CameraFollowRawPrediction,
}

impl CameraJitterMode {
    /// The mode's display name.
    pub open spec fn name_view(self) -> Seq<char> {
        match self {
            CameraJitterMode::Normal => "Normal"@,
            CameraJitterMode::CameraFrozen => "Camera Frozen"@,
            CameraJitterMode::PresentationRawPrediction => "Presentation RawPrediction"@,
            CameraJitterMode::PresentationSmoothed => "Presentation Smoothed"@,
            CameraJitterMode::CameraFollowPresented => "Camera Follow Presented"@,
            CameraJitterMode::CameraFollowRawPrediction => "Camera Follow RawPrediction"@,
        }
    }

    pub fn as_str(self) -> (s: &'static str)
        ensures
            s@ == self.name_view(),
    {
        match self {
            CameraJitterMode::Normal => "Normal",
            CameraJitterMode::CameraFrozen => "Camera Frozen",
            CameraJitterMode::PresentationRawPrediction => "Presentation RawPrediction",
            CameraJitterMode::PresentationSmoothed => "Presentation Smoothed",
            CameraJitterMode::CameraFollowPresented => "Camera Follow Presented",
            CameraJitterMode::CameraFollowRawPrediction => "Camera Follow RawPrediction",
        }
    }

    pub fn use_raw_presentation(self) -> (b: bool)
        ensures
            b == (self == CameraJitterMode::PresentationRawPrediction),
    {
        self == CameraJitterMode::PresentationRawPrediction
    }

    pub fn freeze_camera(self) -> (b: bool)
        ensures
            b == (self == CameraJitterMode::CameraFrozen),
    {
        self == CameraJitterMode::CameraFrozen
    }

    pub fn follow_raw_prediction(self) -> (b: bool)
        ensures
            b == (self == CameraJitterMode::CameraFollowRawPrediction),
    {
        self == CameraJitterMode::CameraFollowRawPrediction
    }
}

} // verus!
