//! Client-local display configuration: window resolution, internal world
//! render scale and surface resize decisions. Presentation only.

use vstd::prelude::*;

use crate::text::{append_decimal, decimal, push_char};

verus! {

/// Physical pixel width × height. Zero on either axis is invalid.
#[derive(Clone, Copy, Debug, PartialEq, Eq, Structural)]
pub struct Resolution {
    pub width: u32,
    pub height: u32,
}

impl Resolution {
    /// Development default, matching the historical client window (1280×720).
    pub fn default_resolution() -> (r: Self)
        ensures
            r.width == 1280 && r.height == 720,
    {
        Resolution { width: 1280, height: 720 }
    }

    /// `None` when either axis is zero.
    pub fn new(width: u32, height: u32) -> (r: Option<Self>)
        ensures
            r == (if width == 0 || height == 0 {
                None::<Resolution>
            } else {
                Some(Resolution { width, height })
            }),
    {
        if width == 0 || height == 0 {
            None
        } else {
            Some(Resolution { width, height })
        }
    }

    pub fn is_valid(self) -> (b: bool)
        ensures
            b == (self.width > 0 && self.height > 0),
    {
        self.width > 0 && self.height > 0
    }

    /// `"{width}×{height}"`.
    pub fn label(self) -> (s: String)
        ensures
            s@ == decimal(self.width as nat) + seq!['×'] + decimal(self.height as nat),
    {
        let mut s = String::new();
        append_decimal(&mut s, self.width as u64);
        push_char(&mut s, '×');
        append_decimal(&mut s, self.height as u64);
        assert(s@ =~= decimal(self.width as nat) + seq!['×'] + decimal(self.height as nat));
        s
    }
}

/// Supported windowed resolution presets.
pub fn resolution_presets() -> (p: [Resolution; 5])
    ensures
        p@ == seq![
            Resolution { width: 1280, height: 720 },
            Resolution { width: 1366, height: 768 },
            Resolution { width: 1600, height: 900 },
            Resolution { width: 1920, height: 1080 },
            Resolution { width: 2560, height: 1440 },
        ],
{
    let p = [
        Resolution { width: 1280, height: 720 },
        Resolution { width: 1366, height: 768 },
        Resolution { width: 1600, height: 900 },
        Resolution { width: 1920, height: 1080 },
        Resolution { width: 2560, height: 1440 },
    ];
    assert(p@ =~= seq![
        Resolution { width: 1280, height: 720 },
        Resolution { width: 1366, height: 768 },
        Resolution { width: 1600, height: 900 },
        Resolution { width: 1920, height: 1080 },
        Resolution { width: 2560, height: 1440 },
    ]);
    p
}

/// Native window presentation mode.
#[derive(Clone, Copy, Debug, PartialEq, Eq, Structural)]
pub enum WindowMode {
    Windowed,
}

impl WindowMode {
    pub fn label(self) -> (s: &'static str)
        ensures
            s@ == "Windowed"@,
    {
        match self {
            WindowMode::Windowed => "Windowed",
        }
    }
}

/// World-pass internal resolution as a percent of the gameplay pixel rect.
/// Only the presets exist.
#[derive(Clone, Copy, Debug, PartialEq, Eq, Structural)]
pub struct RenderScale {
    percent: u16,
}

pub open spec fn preset_percent(p: u16) -> bool {
    p == 50 || p == 75 || p == 100 || p == 125 || p == 200
}

impl RenderScale {
    pub closed spec fn spec_percent(self) -> u16 {
        self.percent
    }

    /// Every render scale is one of the presets.
    #[verifier::type_invariant]
    spec fn inv(self) -> bool {
        preset_percent(self.percent)
    }

    pub fn p50() -> (s: Self)
        ensures
            s.spec_percent() == 50,
    {
        RenderScale { percent: 50 }
    }

    pub fn p75() -> (s: Self)
        ensures
            s.spec_percent() == 75,
    {
        RenderScale { percent: 75 }
    }

    pub fn p100() -> (s: Self)
        ensures
            s.spec_percent() == 100,
    {
        RenderScale { percent: 100 }
    }

    pub fn p125() -> (s: Self)
        ensures
            s.spec_percent() == 125,
    {
        RenderScale { percent: 125 }
    }

    pub fn p200() -> (s: Self)
        ensures
            s.spec_percent() == 200,
    {
        RenderScale { percent: 200 }
    }

    /// Production world default: 200%.
    pub fn default_scale() -> (s: Self)
        ensures
            s.spec_percent() == 200,
    {
        RenderScale { percent: 200 }
    }

    /// 1:1 internal pixels: 100%.
    pub fn performance_fallback() -> (s: Self)
        ensures
            s.spec_percent() == 100,
    {
        RenderScale { percent: 100 }
    }

    pub fn percent(self) -> (p: u16)
        ensures
            p == self.spec_percent(),
    {
        self.percent
    }

    /// `"{percent}%"`.
    pub fn label(self) -> (s: String)
        ensures
            s@ == decimal(self.spec_percent() as nat).push('%'),
    {
        let mut s = String::new();
        append_decimal(&mut s, self.percent as u64);
        push_char(&mut s, '%');
        assert(s@ =~= decimal(self.spec_percent() as nat).push('%'));
        s
    }
}

/// Render-scale presets shared by the debug UI and settings.
pub fn render_scale_presets() -> (p: [RenderScale; 5])
    ensures
        p@.len() == 5,
        p@[0].spec_percent() == 50,
        p@[1].spec_percent() == 75,
        p@[2].spec_percent() == 100,
        p@[3].spec_percent() == 125,
        p@[4].spec_percent() == 200,
{
    [
        RenderScale::p50(),
        RenderScale::p75(),
        RenderScale::p100(),
        RenderScale::p125(),
        RenderScale::p200(),
    ]
}

/// Internal world-target size after scale and GPU-limit fit.
#[derive(Clone, Copy, Debug, PartialEq, Eq, Structural)]
pub struct InternalRenderSize {
    pub width: u32,
    pub height: u32,
    pub clamped: bool,
}

pub open spec fn max1(x: int) -> int {
    if x < 1 {
        1
    } else {
        x
    }
}

pub open spec fn min_int(a: int, b: int) -> int {
    if a < b {
        a
    } else {
        b
    }
}

/// Fit a requested size (any non-negative integers) under the GPU limit.
/// Both axes are at least 1; an oversize request is scaled uniformly so its
/// longer side equals the limit.
pub open spec fn fit_spec(width: nat, height: nat, max_dim: u32) -> InternalRenderSize {
    let m = max1(max_dim as int);
    let w = max1(width as int);
    let h = max1(height as int);
    if w <= m && h <= m {
        InternalRenderSize { width: w as u32, height: h as u32, clamped: false }
    } else if w >= h {
        InternalRenderSize {
            width: m as u32,
            height: min_int(max1(h * m / w), m) as u32,
            clamped: true,
        }
    } else {
        InternalRenderSize {
            width: min_int(max1(w * m / h), m) as u32,
            height: m as u32,
            clamped: true,
        }
    }
}

/// One axis of the gameplay rect scaled by `percent` (floor, at least 1),
/// before any fit to the GPU limit.
pub open spec fn scaled_axis(axis: u32, percent: u16) -> nat {
    max1(axis as int * percent as int / 100) as nat
}

pub open spec fn internal_render_size_spec(
    gameplay_width: u32,
    gameplay_height: u32,
    percent: u16,
    max_dim: u32,
) -> Option<InternalRenderSize> {
    if gameplay_width == 0 || gameplay_height == 0 {
        None
    } else {
        Some(
            fit_spec(
                scaled_axis(gameplay_width, percent),
                scaled_axis(gameplay_height, percent),
                max_dim,
            ),
        )
    }
}

fn scale_axis(axis: u32, percent: u16) -> (r: u64)
    requires
        preset_percent(percent),
    ensures
        r as nat == scaled_axis(axis, percent),
        r <= 2 * 0xffff_ffffu64,
{
    assert((axis as int) * (percent as int) <= 0xffff_ffff * 200) by (nonlinear_arith)
        requires
            percent <= 200,
    ;
    let scaled: u64 = (axis as u64) * (percent as u64) / 100;
    assert(scaled <= 2 * (axis as u64)) by (nonlinear_arith)
        requires
            scaled as int == (axis as int) * (percent as int) / 100,
            percent <= 200,
    ;
    if scaled < 1 {
        1
    } else {
        scaled
    }
}

/// Scale the gameplay pixel rect (not the full window) and fit it to the GPU
/// limit. `None` when the gameplay rect is empty.
pub fn internal_render_size(
    gameplay_width: u32,
    gameplay_height: u32,
    scale: RenderScale,
    max_texture_dimension_2d: u32,
) -> (r: Option<InternalRenderSize>)
    ensures
        r == internal_render_size_spec(
            gameplay_width,
            gameplay_height,
            scale.spec_percent(),
            max_texture_dimension_2d,
        ),
{
    if gameplay_width == 0 || gameplay_height == 0 {
        return None;
    }
    let percent = scale.percent();
    proof {
        use_type_invariant(&scale);
    }
    let requested_w = scale_axis(gameplay_width, percent);
    let requested_h = scale_axis(gameplay_height, percent);
    Some(fit_requested(requested_w, requested_h, max_texture_dimension_2d))
}

pub fn fit_internal_render_size(width: u32, height: u32, max_dim: u32) -> (r: InternalRenderSize)
    ensures
        r == fit_spec(width as nat, height as nat, max_dim),
        r.width >= 1 && r.height >= 1,
        r.width <= max1(max_dim as int) && r.height <= max1(max_dim as int) || !r.clamped,
{
    fit_requested(width as u64, height as u64, max_dim)
}

/// Fit a requested size held in 64 bits; products go through 128 bits.
fn fit_requested(width: u64, height: u64, max_dim: u32) -> (r: InternalRenderSize)
    ensures
        r == fit_spec(width as nat, height as nat, max_dim),
        r.width >= 1 && r.height >= 1,
        r.width <= max1(max_dim as int) && r.height <= max1(max_dim as int) || !r.clamped,
{
    let max_dim: u32 = if max_dim < 1 {
        1
    } else {
        max_dim
    };
    let width: u64 = if width < 1 {
        1
    } else {
        width
    };
    let height: u64 = if height < 1 {
        1
    } else {
        height
    };
    if width <= max_dim as u64 && height <= max_dim as u64 {
        return InternalRenderSize { width: width as u32, height: height as u32, clamped: false };
    }
    if width >= height {
        assert((height as int) * (max_dim as int) <= 0xffff_ffff_ffff_ffff * 0xffff_ffff) by (nonlinear_arith)
            requires
                height <= 0xffff_ffff_ffff_ffffu64,
                max_dim <= 0xffff_ffffu32,
        ;
        let q: u128 = (height as u128) * (max_dim as u128) / (width as u128);
        assert(q <= max_dim as u128) by (nonlinear_arith)
            requires
                q as int == (height as int) * (max_dim as int) / (width as int),
                height <= width,
                width >= 1,
        ;
        let q1: u128 = if q < 1 {
            1
        } else {
            q
        };
        let fit_h: u32 = if q1 < max_dim as u128 {
            q1 as u32
        } else {
            max_dim
        };
        InternalRenderSize { width: max_dim, height: fit_h, clamped: true }
    } else {
        assert((width as int) * (max_dim as int) <= 0xffff_ffff_ffff_ffff * 0xffff_ffff) by (nonlinear_arith)
            requires
                width <= 0xffff_ffff_ffff_ffffu64,
                max_dim <= 0xffff_ffffu32,
        ;
        let q: u128 = (width as u128) * (max_dim as u128) / (height as u128);
        assert(q <= max_dim as u128) by (nonlinear_arith)
            requires
                q as int == (width as int) * (max_dim as int) / (height as int),
                width <= height,
                height >= 1,
        ;
        let q1: u128 = if q < 1 {
            1
        } else {
            q
        };
        let fit_w: u32 = if q1 < max_dim as u128 {
            q1 as u32
        } else {
            max_dim
        };
        InternalRenderSize { width: fit_w, height: max_dim, clamped: true }
    }
}

/// Whether the offscreen world target must be rebuilt.
#[derive(Clone, Copy, Debug, PartialEq, Eq, Structural)]
pub enum WorldTargetAction {
    Recreate { width: u32, height: u32 },
    Unchanged,
    SkipInvalid,
}

/// Recreate only when the applied internal size actually changes.
pub fn classify_world_target_resize(
    configured: Option<(u32, u32)>,
    incoming: (u32, u32),
) -> (a: WorldTargetAction)
    ensures
        a == (if incoming.0 == 0 || incoming.1 == 0 {
            WorldTargetAction::SkipInvalid
        } else if configured == Some(incoming) {
            WorldTargetAction::Unchanged
        } else {
            WorldTargetAction::Recreate { width: incoming.0, height: incoming.1 }
        }),
{
    if incoming.0 == 0 || incoming.1 == 0 {
        return WorldTargetAction::SkipInvalid;
    }
    match configured {
        Some(c) => {
            if c.0 == incoming.0 && c.1 == incoming.1 {
                return WorldTargetAction::Unchanged;
            }
        },
        None => {},
    }
    WorldTargetAction::Recreate { width: incoming.0, height: incoming.1 }
}

/// Rejected because width or height was zero.
#[derive(Clone, Copy, Debug, PartialEq, Eq, Structural)]
pub struct InvalidResolution;

/// What the shared surface-resize path should do.
#[derive(Clone, Copy, Debug, PartialEq, Eq, Structural)]
pub enum SurfaceResizeAction {
    Reconfigure { width: u32, height: u32 },
    Unchanged,
    SkipInvalid,
}

/// Classify an OS or requested framebuffer size against the last configured
/// surface.
pub fn classify_framebuffer_resize(configured: (u32, u32), incoming: (u32, u32)) -> (a:
    SurfaceResizeAction)
    ensures
        a == (if incoming.0 == 0 || incoming.1 == 0 {
            SurfaceResizeAction::SkipInvalid
        } else if configured == incoming {
            SurfaceResizeAction::Unchanged
        } else {
            SurfaceResizeAction::Reconfigure { width: incoming.0, height: incoming.1 }
        }),
{
    if incoming.0 == 0 || incoming.1 == 0 {
        return SurfaceResizeAction::SkipInvalid;
    }
    if configured.0 == incoming.0 && configured.1 == incoming.1 {
        return SurfaceResizeAction::Unchanged;
    }
    SurfaceResizeAction::Reconfigure { width: incoming.0, height: incoming.1 }
}

// ---------------------------------------------------------------------------
// Display intent

/// Requested display configuration. `S` is the UI scale multiplier; it is
/// carried as is and never affects resolution or render scale.
#[derive(Clone, Copy, Debug)]
pub struct DisplaySettings<S> {
    pub resolution: Resolution,
    pub window_mode: WindowMode,
    pub ui_scale: S,
    pub render_scale: RenderScale,
}

impl<S: Copy> DisplaySettings<S> {
    /// Development defaults: 1280×720 windowed at the default render scale,
    /// with the given UI scale.
    pub fn default_dev(ui_scale: S) -> (d: Self)
        ensures
            d.resolution == (Resolution { width: 1280, height: 720 }),
            d.window_mode == WindowMode::Windowed,
            d.ui_scale == ui_scale,
            d.render_scale.spec_percent() == 200,
    {
        DisplaySettings {
            resolution: Resolution::default_resolution(),
            window_mode: WindowMode::Windowed,
            ui_scale,
            render_scale: RenderScale::default_scale(),
        }
    }

    /// Replace the requested window resolution. Returns whether a window
    /// apply is required. Invalid sizes are rejected; the previous value is
    /// kept.
    pub fn set_resolution(&mut self, resolution: Resolution) -> (r: Result<bool, InvalidResolution>)
        ensures
            (resolution.width == 0 || resolution.height == 0) ==> r is Err && *final(self)
                == *old(self),
            !(resolution.width == 0 || resolution.height == 0) ==> r == Ok::<bool, InvalidResolution>(
                old(self).resolution != resolution,
            ) && *final(self) == (DisplaySettings { resolution, ..*old(self) }),
    {
        if !resolution.is_valid() {
            return Err(InvalidResolution);
        }
        if self.resolution == resolution {
            return Ok(false);
        }
        self.resolution = resolution;
        Ok(true)
    }

    pub fn set_ui_scale(&mut self, scale: S)
        ensures
            *final(self) == (DisplaySettings { ui_scale: scale, ..*old(self) }),
    {
        self.ui_scale = scale;
    }

    /// Replace the internal world render scale. Does not change window
    /// size. Returns whether the value changed.
    pub fn set_render_scale(&mut self, scale: RenderScale) -> (changed: bool)
        ensures
            changed == (old(self).render_scale != scale),
            *final(self) == (DisplaySettings { render_scale: scale, ..*old(self) }),
    {
        if self.render_scale == scale {
            return false;
        }
        self.render_scale = scale;
        true
    }
}

/// Owns display intent, the last configured surface and the pending
/// window-apply request.
pub struct DisplayController<S> {
    settings: DisplaySettings<S>,
    configured_surface: (u32, u32),
    pending_window_resolution: Option<Resolution>,
}

pub struct ControllerModel<S> {
    pub settings: DisplaySettings<S>,
    pub configured_surface: (u32, u32),
    pub pending_window_resolution: Option<Resolution>,
}

impl<S: Copy> View for DisplayController<S> {
    type V = ControllerModel<S>;

    closed spec fn view(&self) -> ControllerModel<S> {
        ControllerModel {
            settings: self.settings,
            configured_surface: self.configured_surface,
            pending_window_resolution: self.pending_window_resolution,
        }
    }
}

/// After an OS or requested framebuffer size arrives.
pub open spec fn observe_spec<S>(m: ControllerModel<S>, width: u32, height: u32) -> ControllerModel<S> {
    match classify_resize_spec(m.configured_surface, (width, height)) {
        SurfaceResizeAction::Reconfigure { width, height } => ControllerModel {
            configured_surface: (width, height),
            settings: DisplaySettings { resolution: Resolution { width, height }, ..m.settings },
            pending_window_resolution: if m.pending_window_resolution == Some(
                Resolution { width, height },
            ) {
                None
            } else {
                m.pending_window_resolution
            },
        },
        _ => m,
    }
}

pub open spec fn classify_resize_spec(configured: (u32, u32), incoming: (u32, u32)) -> SurfaceResizeAction {
    if incoming.0 == 0 || incoming.1 == 0 {
        SurfaceResizeAction::SkipInvalid
    } else if configured == incoming {
        SurfaceResizeAction::Unchanged
    } else {
        SurfaceResizeAction::Reconfigure { width: incoming.0, height: incoming.1 }
    }
}

impl<S: Copy> DisplayController<S> {
    pub fn new(ui_scale: S) -> (c: Self)
        ensures
            c@.settings.resolution == (Resolution { width: 1280, height: 720 }),
            c@.settings.window_mode == WindowMode::Windowed,
            c@.settings.ui_scale == ui_scale,
            c@.settings.render_scale.spec_percent() == 200,
            c@.configured_surface == (0u32, 0u32),
            c@.pending_window_resolution is None,
    {
        DisplayController {
            settings: DisplaySettings::default_dev(ui_scale),
            configured_surface: (0, 0),
            pending_window_resolution: None,
        }
    }

    pub fn settings(&self) -> (s: DisplaySettings<S>)
        ensures
            s == self@.settings,
    {
        self.settings
    }

    pub fn configured_surface(&self) -> (s: (u32, u32))
        ensures
            s == self@.configured_surface,
    {
        self.configured_surface
    }

    /// The resolution waiting to be applied to the native window.
    pub fn pending_window_resolution(&self) -> (r: Option<Resolution>)
        ensures
            r == self@.pending_window_resolution,
    {
        self.pending_window_resolution
    }

    /// After the renderer configures a surface (startup or resize apply);
    /// an empty surface is ignored.
    pub fn note_surface_configured(&mut self, surface: (u32, u32))
        ensures
            (surface.0 > 0 && surface.1 > 0) ==> final(self)@ == (ControllerModel {
                configured_surface: surface,
                settings: DisplaySettings {
                    resolution: Resolution { width: surface.0, height: surface.1 },
                    ..old(self)@.settings
                },
                ..old(self)@
            }),
            !(surface.0 > 0 && surface.1 > 0) ==> final(self)@ == old(self)@,
    {
        if surface.0 > 0 && surface.1 > 0 {
            self.configured_surface = surface;
            self.settings.resolution = Resolution { width: surface.0, height: surface.1 };
        }
    }

    /// Settings intent: queue a window apply unless the size is already
    /// requested and configured.
    pub fn set_resolution(&mut self, resolution: Resolution) -> (r: Result<(), InvalidResolution>)
        ensures
            (resolution.width == 0 || resolution.height == 0) ==> r is Err && final(self)@
                == old(self)@,
            !(resolution.width == 0 || resolution.height == 0) ==> r is Ok && final(self)@ == (
            ControllerModel {
                settings: DisplaySettings { resolution, ..old(self)@.settings },
                pending_window_resolution: if old(self)@.settings.resolution == resolution
                    && old(self)@.configured_surface == (resolution.width, resolution.height) {
                    old(self)@.pending_window_resolution
                } else {
                    Some(resolution)
                },
                ..old(self)@
            }),
    {
        match self.settings.set_resolution(resolution) {
            Err(e) => {
                return Err(e);
            },
            Ok(changed) => {
                if !changed {
                    let current = self.configured_surface;
                    if current.0 == resolution.width && current.1 == resolution.height {
                        return Ok(());
                    }
                }
            },
        }
        self.pending_window_resolution = Some(resolution);
        Ok(())
    }

    pub fn set_ui_scale(&mut self, scale: S)
        ensures
            final(self)@ == (ControllerModel {
                settings: DisplaySettings { ui_scale: scale, ..old(self)@.settings },
                ..old(self)@
            }),
    {
        self.settings.set_ui_scale(scale);
    }

    /// Settings intent. Does not resize the window or change camera FOV.
    pub fn set_render_scale(&mut self, scale: RenderScale) -> (changed: bool)
        ensures
            changed == (old(self)@.settings.render_scale != scale),
            final(self)@ == (ControllerModel {
                settings: DisplaySettings { render_scale: scale, ..old(self)@.settings },
                ..old(self)@
            }),
    {
        self.settings.set_render_scale(scale)
    }

    /// Takes the pending window request, if any; it is worth sending to the
    /// window only when it differs from the window's current size.
    pub fn take_window_request(&mut self, current: (u32, u32)) -> (r: Option<Resolution>)
        ensures
            final(self)@ == (ControllerModel { pending_window_resolution: None, ..old(self)@ }),
            r == (match old(self)@.pending_window_resolution {
                Some(p) => if (p.width, p.height) == current {
                    None
                } else {
                    Some(p)
                },
                None => None,
            }),
    {
        let pending = self.pending_window_resolution;
        self.pending_window_resolution = None;
        match pending {
            Some(p) => if p.width == current.0 && p.height == current.1 {
                None
            } else {
                Some(p)
            },
            None => None,
        }
    }

    /// Shared observe path for OS resize, minimize and preset apply results.
    pub fn observe_framebuffer(&mut self, width: u32, height: u32) -> (a: SurfaceResizeAction)
        ensures
            a == classify_resize_spec(old(self)@.configured_surface, (width, height)),
            final(self)@ == observe_spec(old(self)@, width, height),
    {
        let action = classify_framebuffer_resize(self.configured_surface, (width, height));
        match action {
            SurfaceResizeAction::Reconfigure { width, height } => {
                self.configured_surface = (width, height);
                self.settings.resolution = Resolution { width, height };
                match self.pending_window_resolution {
                    Some(p) => {
                        if p.width == width && p.height == height {
                            self.pending_window_resolution = None;
                        }
                    },
                    None => {},
                }
            },
            _ => {},
        }
        action
    }
}

/// Render scale and UI scale survive every resolution change, and a
/// resize never touches them.
pub proof fn lemma_resize_keeps_scales<S>(m: ControllerModel<S>, width: u32, height: u32)
    ensures
        observe_spec(m, width, height).settings.render_scale == m.settings.render_scale,
        observe_spec(m, width, height).settings.ui_scale == m.settings.ui_scale,
        width == 0 || height == 0 ==> observe_spec(m, width, height) == m,
{
}

/// The fitted size never exceeds the GPU limit on either axis, is never
/// empty, and is unclamped exactly when the request already fit.
pub proof fn lemma_fit_within_limit(width: nat, height: nat, max_dim: u32)
    ensures
        ({
            let r = fit_spec(width, height, max_dim);
            &&& 1 <= r.width <= max1(max_dim as int)
            &&& 1 <= r.height <= max1(max_dim as int)
            &&& r.clamped == !(max1(width as int) <= max1(max_dim as int) && max1(height as int)
                <= max1(max_dim as int))
        }),
{
    let m = max1(max_dim as int);
    let w = max1(width as int);
    let h = max1(height as int);
    if !(w <= m && h <= m) {
        if w >= h {
            assert(h * m / w <= m) by (nonlinear_arith)
                requires
                    1 <= h <= w,
                    m >= 1,
            ;
        } else {
            assert(w * m / h <= m) by (nonlinear_arith)
                requires
                    1 <= w <= h,
                    m >= 1,
            ;
        }
    }
}

/// Clamping keeps the longer side at the limit.
pub proof fn lemma_fit_longer_side_hits_limit(width: nat, height: nat, max_dim: u32)
    requires
        fit_spec(width, height, max_dim).clamped,
    ensures
        ({
            let r = fit_spec(width, height, max_dim);
            if max1(width as int) >= max1(height as int) {
                r.width == max1(max_dim as int)
            } else {
                r.height == max1(max_dim as int)
            }
        }),
{
}

/// The internal render size of a non-empty gameplay rect: the scaled request
/// (at least 1 per axis, never cut to 32 bits) is kept when it fits the GPU
/// limit; otherwise both axes are scaled uniformly so the longer side equals
/// the limit, with the shorter side rounded down and at least 1.
pub proof fn lemma_internal_render_size_clamps_uniformly(
    gameplay_width: u32,
    gameplay_height: u32,
    percent: u16,
    max_dim: u32,
)
    requires
        gameplay_width > 0,
        gameplay_height > 0,
    ensures
        ({
            let rw = scaled_axis(gameplay_width, percent) as int;
            let rh = scaled_axis(gameplay_height, percent) as int;
            let m = max1(max_dim as int);
            let r = internal_render_size_spec(gameplay_width, gameplay_height, percent, max_dim)->0;
            let long = if rw >= rh { rw } else { rh };
            let short = if rw >= rh { rh } else { rw };
            &&& internal_render_size_spec(gameplay_width, gameplay_height, percent, max_dim) is Some
            &&& r.clamped == (rw > m || rh > m)
            &&& !r.clamped ==> r.width == rw && r.height == rh
            &&& r.clamped ==> (if rw >= rh { r.width as int } else { r.height as int }) == m
            &&& r.clamped ==> (if rw >= rh { r.height as int } else { r.width as int }) == max1(short * m / long)
        }),
{
    let rw = scaled_axis(gameplay_width, percent) as int;
    let rh = scaled_axis(gameplay_height, percent) as int;
    let m = max1(max_dim as int);
    assert(rw >= 1 && rh >= 1);
    if !(rw <= m && rh <= m) {
        if rw >= rh {
            assert(rh * m / rw <= m) by (nonlinear_arith)
                requires
                    1 <= rh <= rw,
                    m >= 1,
            ;
        } else {
            assert(rw * m / rh <= m) by (nonlinear_arith)
                requires
                    1 <= rw <= rh,
                    m >= 1,
            ;
        }
    }
}

} // verus!
