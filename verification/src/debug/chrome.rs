//! Compact debug chrome policy: which headline rows are live exceptions.

use vstd::prelude::*;

use crate::interact::InteractKind;
use crate::jitter::CameraJitterMode;
use crate::text::{append_str, owned};
use vstd::seq_lib::lemma_concat_associative;

verus! {

/// Persistent warning for a dev mode that survives overlay close.
#[derive(Debug)]
pub struct DevWarning {
    pub label: String,
    pub rgb: (u8, u8, u8),
}

pub fn interaction_chrome_visible(kind: InteractKind, flash_live: bool) -> (b: bool)
    ensures
        b == (kind != InteractKind::Idle || flash_live),
{
    kind != InteractKind::Idle || flash_live
}

/// The target row is live when a target is known, whatever its distance.
pub fn target_chrome_visible(id: Option<&str>) -> (b: bool)
    ensures
        b == id is Some,
{
    id.is_some()
}

pub fn portal_chrome_visible(id: Option<&str>, eligible: bool) -> (b: bool)
    ensures
        b == (id is Some || eligible),
{
    id.is_some() || eligible
}

pub fn transition_chrome_visible(banner: &str) -> (b: bool)
    ensures
        b == (banner@.len() != 0),
{
    !banner.is_empty()
}

pub fn input_gate_chrome_visible(locked: bool) -> (b: bool)
    ensures
        b == locked,
{
    locked
}

/// The dev modes that stay on after the overlay is closed, as plain values.
/// The time scale and the impairment profile are named by the caller: each is
/// `Some(name)` exactly while it is not the normal setting.
#[derive(Clone, Copy, Debug)]
pub struct DevModes {
    /// The time-scale label (such as `0.5x`) while the scale is not 1.
    pub abnormal_time_scale: Option<&'static str>,
    pub camera_jitter_mode: CameraJitterMode,
    /// The impairment profile's name while one is active.
    pub impairment: Option<&'static str>,
    pub presentation_view_back: bool,
    pub presentation_force_climb_back: bool,
    pub show_rf_scene: bool,
    pub show_rf_ab: bool,
    pub rf_freeze_camera: bool,
}

impl Default for DevModes {
    /// Every mode at its normal setting.
    fn default() -> (m: Self)
        ensures
            !any_dev_mode(m),
    {
        DevModes {
            abnormal_time_scale: None,
            camera_jitter_mode: CameraJitterMode::Normal,
            impairment: None,
            presentation_view_back: false,
            presentation_force_climb_back: false,
            show_rf_scene: false,
            show_rf_ab: false,
            rf_freeze_camera: false,
        }
    }
}

/// A warning as label and colour.
pub open spec fn warning_view(w: DevWarning) -> (Seq<char>, (u8, u8, u8)) {
    (w.label@, w.rgb)
}

pub open spec fn warning_views(ws: Seq<DevWarning>) -> Seq<(Seq<char>, (u8, u8, u8))> {
    ws.map_values(|w: DevWarning| warning_view(w))
}

/// One warning when `on`, none otherwise.
pub open spec fn warning_if(on: bool, label: Seq<char>, rgb: (u8, u8, u8)) -> Seq<
    (Seq<char>, (u8, u8, u8)),
> {
    if on {
        seq![(label, rgb)]
    } else {
        Seq::empty()
    }
}

/// The name an optional setting carries, or nothing.
pub open spec fn name_or_empty(o: Option<&'static str>) -> Seq<char> {
    match o {
        Some(n) => n@,
        None => Seq::empty(),
    }
}

/// The persistent warnings, in display order.
pub open spec fn dev_warnings(m: DevModes) -> Seq<(Seq<char>, (u8, u8, u8))> {
    warning_if(m.abnormal_time_scale is Some, "TIME "@ + name_or_empty(m.abnormal_time_scale), (255, 180, 60))
        + warning_if(
        m.camera_jitter_mode != CameraJitterMode::Normal,
        "JITTER "@ + m.camera_jitter_mode.name_view(),
        (255, 120, 90),
    ) + warning_if(m.impairment is Some, "IMPAIR "@ + name_or_empty(m.impairment), (220, 90, 255))
        + warning_if(m.presentation_view_back, "FORCE BACK"@, (90, 200, 255))
        + warning_if(m.presentation_force_climb_back, "FORCE CLIMBBACK"@, (90, 200, 255))
        + warning_if(m.show_rf_scene, "RF0 SCENE"@, (120, 210, 90))
        + warning_if(m.show_rf_ab, "RF A/B"@, (120, 210, 90))
        + warning_if(m.rf_freeze_camera, "RF CAM FREEZE"@, (255, 120, 90))
}

/// Some mode is not at its normal setting.
pub open spec fn any_dev_mode(m: DevModes) -> bool {
    ||| m.abnormal_time_scale is Some
    ||| m.camera_jitter_mode != CameraJitterMode::Normal
    ||| m.impairment is Some
    ||| m.presentation_view_back
    ||| m.presentation_force_climb_back
    ||| m.show_rf_scene
    ||| m.show_rf_ab
    ||| m.rf_freeze_camera
}

proof fn lemma_push_warning_if(
    o: Seq<(Seq<char>, (u8, u8, u8))>,
    on: bool,
    label: Seq<char>,
    rgb: (u8, u8, u8),
)
    ensures
        (if on { o.push((label, rgb)) } else { o }) == o + warning_if(on, label, rgb),
{
    if on {
        assert(o.push((label, rgb)) =~= o + seq![(label, rgb)]);
    } else {
        assert(o =~= o + Seq::<(Seq<char>, (u8, u8, u8))>::empty());
    }
}

fn push_warning(out: &mut Vec<DevWarning>, label: String, rgb: (u8, u8, u8))
    ensures
        warning_views(final(out)@) == warning_views(old(out)@).push((label@, rgb)),
{
    let ghost l = label@;
    out.push(DevWarning { label, rgb });
    assert(warning_views(out@) =~= warning_views(old(out)@).push((l, rgb)));
}

fn prefixed(prefix: &str, name: &str) -> (s: String)
    ensures
        s@ == prefix@ + name@,
{
    let mut s = owned(prefix);
    append_str(&mut s, name);
    s
}

/// Modes that stay on after the overlay is closed, one warning each, in a
/// fixed order.
pub fn persistent_dev_warnings(m: &DevModes) -> (out: Vec<DevWarning>)
    ensures
        warning_views(out@) == dev_warnings(*m),
{
    let mut out: Vec<DevWarning> = Vec::new();
    let ghost o0 = warning_views(out@);
    let ghost g = Seq::<(Seq<char>, (u8, u8, u8))>::empty();
    let ghost o = warning_views(out@);
    if let Some(name) = m.abnormal_time_scale {
        push_warning(&mut out, prefixed("TIME ", name), (255, 180, 60));
    }
    let ghost p = warning_if(m.abnormal_time_scale is Some, "TIME "@ + name_or_empty(m.abnormal_time_scale), (255, 180, 60));
    proof {
        lemma_push_warning_if(o, m.abnormal_time_scale is Some, "TIME "@ + name_or_empty(m.abnormal_time_scale), (255, 180, 60));
        assert(o0 + p =~= p);
        g = p;
    }
    let ghost o = warning_views(out@);
    if m.camera_jitter_mode != CameraJitterMode::Normal {
        push_warning(&mut out, prefixed("JITTER ", m.camera_jitter_mode.as_str()), (255, 120, 90));
    }
    let ghost p = warning_if(m.camera_jitter_mode != CameraJitterMode::Normal, "JITTER "@ + m.camera_jitter_mode.name_view(), (255, 120, 90));
    proof {
        lemma_push_warning_if(o, m.camera_jitter_mode != CameraJitterMode::Normal, "JITTER "@ + m.camera_jitter_mode.name_view(), (255, 120, 90));
        lemma_concat_associative(o0, g, p);
        g = g + p;
    }
    let ghost o = warning_views(out@);
    if let Some(name) = m.impairment {
        push_warning(&mut out, prefixed("IMPAIR ", name), (220, 90, 255));
    }
    let ghost p = warning_if(m.impairment is Some, "IMPAIR "@ + name_or_empty(m.impairment), (220, 90, 255));
    proof {
        lemma_push_warning_if(o, m.impairment is Some, "IMPAIR "@ + name_or_empty(m.impairment), (220, 90, 255));
        lemma_concat_associative(o0, g, p);
        g = g + p;
    }
    let ghost o = warning_views(out@);
    if m.presentation_view_back {
        push_warning(&mut out, owned("FORCE BACK"), (90, 200, 255));
    }
    let ghost p = warning_if(m.presentation_view_back, "FORCE BACK"@, (90, 200, 255));
    proof {
        lemma_push_warning_if(o, m.presentation_view_back, "FORCE BACK"@, (90, 200, 255));
        lemma_concat_associative(o0, g, p);
        g = g + p;
    }
    let ghost o = warning_views(out@);
    if m.presentation_force_climb_back {
        push_warning(&mut out, owned("FORCE CLIMBBACK"), (90, 200, 255));
    }
    let ghost p = warning_if(m.presentation_force_climb_back, "FORCE CLIMBBACK"@, (90, 200, 255));
    proof {
        lemma_push_warning_if(o, m.presentation_force_climb_back, "FORCE CLIMBBACK"@, (90, 200, 255));
        lemma_concat_associative(o0, g, p);
        g = g + p;
    }
    let ghost o = warning_views(out@);
    if m.show_rf_scene {
        push_warning(&mut out, owned("RF0 SCENE"), (120, 210, 90));
    }
    let ghost p = warning_if(m.show_rf_scene, "RF0 SCENE"@, (120, 210, 90));
    proof {
        lemma_push_warning_if(o, m.show_rf_scene, "RF0 SCENE"@, (120, 210, 90));
        lemma_concat_associative(o0, g, p);
        g = g + p;
    }
    let ghost o = warning_views(out@);
    if m.show_rf_ab {
        push_warning(&mut out, owned("RF A/B"), (120, 210, 90));
    }
    let ghost p = warning_if(m.show_rf_ab, "RF A/B"@, (120, 210, 90));
    proof {
        lemma_push_warning_if(o, m.show_rf_ab, "RF A/B"@, (120, 210, 90));
        lemma_concat_associative(o0, g, p);
        g = g + p;
    }
    let ghost o = warning_views(out@);
    if m.rf_freeze_camera {
        push_warning(&mut out, owned("RF CAM FREEZE"), (255, 120, 90));
    }
    let ghost p = warning_if(m.rf_freeze_camera, "RF CAM FREEZE"@, (255, 120, 90));
    proof {
        lemma_push_warning_if(o, m.rf_freeze_camera, "RF CAM FREEZE"@, (255, 120, 90));
        lemma_concat_associative(o0, g, p);
        g = g + p;
    }
    out
}

/// Whether any persistent warning would show.
pub fn has_persistent_dev_warnings(m: &DevModes) -> (b: bool)
    ensures
        b == any_dev_mode(*m),
{
    m.abnormal_time_scale.is_some() || m.camera_jitter_mode != CameraJitterMode::Normal
        || m.impairment.is_some() || m.presentation_view_back || m.presentation_force_climb_back
        || m.show_rf_scene || m.show_rf_ab || m.rf_freeze_camera
}

/// A warning shows exactly when some mode is not at its normal setting.
pub proof fn lemma_warnings_iff_any_mode(m: DevModes)
    ensures
        (dev_warnings(m).len() > 0) == any_dev_mode(m),
{
}

} // verus!
