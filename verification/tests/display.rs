use std::collections::HashSet;

use purgatory_client::display::{
    classify_framebuffer_resize, classify_world_target_resize, fit_internal_render_size,
    internal_render_size, render_scale_presets, resolution_presets, DisplayController,
    DisplaySettings, InvalidResolution, RenderScale, Resolution, SurfaceResizeAction, WindowMode,
    WorldTargetAction,
};

/// The UI scale is carried opaquely by the settings; tests use a plain factor.
const UI_DEFAULT: f32 = 1.0;

fn res(width: u32, height: u32) -> Resolution {
    Resolution { width, height }
}

#[test]
fn default_resolution_is_historical_1280x720() {
    assert_eq!(Resolution::default_resolution(), res(1280, 720));
    let settings = DisplaySettings::default_dev(UI_DEFAULT);
    assert_eq!(settings.resolution, Resolution::default_resolution());
    assert_eq!(settings.window_mode, WindowMode::Windowed);
    assert_eq!(settings.ui_scale, 1.0);
    assert_eq!(settings.render_scale, RenderScale::default_scale());
}

#[test]
fn zero_dimensions_are_invalid() {
    assert!(Resolution::new(0, 0).is_none());
    assert!(Resolution::new(0, 1080).is_none());
    assert!(Resolution::new(1920, 0).is_none());
    assert!(Resolution::new(1920, 1080).is_some());
    assert!(!res(0, 0).is_valid());
}

#[test]
fn presets_are_valid_and_unique() {
    let mut seen = HashSet::new();
    let presets = resolution_presets();
    for preset in presets {
        assert!(preset.is_valid(), "{preset:?}");
        assert!(seen.insert((preset.width, preset.height)), "{preset:?}");
    }
    assert_eq!(presets.len(), 5);
    assert!(presets.contains(&Resolution::default_resolution()));
}

#[test]
fn set_resolution_rejects_zero_and_keeps_previous() {
    let mut settings = DisplaySettings::default_dev(UI_DEFAULT);
    assert_eq!(settings.set_resolution(res(0, 1080)), Err(InvalidResolution));
    assert_eq!(settings.resolution, Resolution::default_resolution());
    assert_eq!(settings.set_resolution(res(1920, 0)), Err(InvalidResolution));
    assert_eq!(settings.resolution, Resolution::default_resolution());
}

#[test]
fn same_size_does_not_request_apply() {
    let mut settings = DisplaySettings::default_dev(UI_DEFAULT);
    assert_eq!(
        settings.set_resolution(Resolution::default_resolution()),
        Ok(false)
    );
    let mut controller = DisplayController::new(UI_DEFAULT);
    controller.note_surface_configured((1280, 720));
    controller
        .set_resolution(Resolution::default_resolution())
        .expect("valid");
    assert!(controller.pending_window_resolution().is_none());
}

#[test]
fn new_valid_size_queues_window_apply() {
    let mut controller = DisplayController::new(UI_DEFAULT);
    controller.note_surface_configured((1280, 720));
    controller.set_resolution(res(1920, 1080)).expect("valid");
    assert_eq!(controller.pending_window_resolution(), Some(res(1920, 1080)));
    assert_eq!(controller.settings().resolution, res(1920, 1080));
}

#[test]
fn classify_same_size_is_unchanged() {
    assert_eq!(
        classify_framebuffer_resize((1920, 1080), (1920, 1080)),
        SurfaceResizeAction::Unchanged
    );
}

#[test]
fn classify_new_valid_size_reconfigures() {
    assert_eq!(
        classify_framebuffer_resize((1280, 720), (1920, 1080)),
        SurfaceResizeAction::Reconfigure {
            width: 1920,
            height: 1080
        }
    );
}

#[test]
fn classify_zero_size_skips_reconfigure() {
    assert_eq!(
        classify_framebuffer_resize((1280, 720), (0, 0)),
        SurfaceResizeAction::SkipInvalid
    );
    assert_eq!(
        classify_framebuffer_resize((1280, 720), (0, 1080)),
        SurfaceResizeAction::SkipInvalid
    );
    assert_eq!(
        classify_framebuffer_resize((1280, 720), (1920, 0)),
        SurfaceResizeAction::SkipInvalid
    );
    let mut controller = DisplayController::new(UI_DEFAULT);
    controller.note_surface_configured((1280, 720));
    assert_eq!(
        controller.observe_framebuffer(0, 720),
        SurfaceResizeAction::SkipInvalid
    );
    assert_eq!(controller.configured_surface(), (1280, 720));
    assert_eq!(
        controller.settings().resolution,
        Resolution::default_resolution()
    );
}

#[test]
fn observe_valid_resize_updates_configured_surface() {
    let mut controller = DisplayController::new(UI_DEFAULT);
    controller.note_surface_configured((1280, 720));
    assert_eq!(
        controller.observe_framebuffer(1600, 900),
        SurfaceResizeAction::Reconfigure {
            width: 1600,
            height: 900
        }
    );
    assert_eq!(controller.configured_surface(), (1600, 900));
    assert_eq!(controller.settings().resolution, res(1600, 900));
}

#[test]
fn ui_scale_is_independent_of_resolution() {
    let mut settings = DisplaySettings::default_dev(UI_DEFAULT);
    settings.set_ui_scale(1.25);
    assert_eq!(settings.set_resolution(res(1920, 1080)), Ok(true));
    assert!((settings.ui_scale - 1.25f32).abs() < f32::EPSILON);
    assert_eq!(settings.render_scale, RenderScale::default_scale());
    let mut controller = DisplayController::new(UI_DEFAULT);
    controller.set_ui_scale(1.25);
    assert!((controller.settings().ui_scale - 1.25f32).abs() < f32::EPSILON);
}

#[test]
fn render_scale_presets_are_unique_and_labeled() {
    let mut seen = HashSet::new();
    let presets = render_scale_presets();
    for preset in presets {
        assert!(seen.insert(preset.percent()), "{preset:?}");
        assert_eq!(preset.label(), format!("{}%", preset.percent()));
    }
    assert_eq!(
        presets,
        [
            RenderScale::p50(),
            RenderScale::p75(),
            RenderScale::p100(),
            RenderScale::p125(),
            RenderScale::p200(),
        ]
    );
    assert_eq!(RenderScale::default_scale(), RenderScale::p200());
    assert_eq!(RenderScale::performance_fallback(), RenderScale::p100());
    assert!(!presets
        .iter()
        .any(|preset| preset.percent() == 150 || preset.percent() == 400));
}

#[test]
fn internal_size_table_for_1280x720() {
    let cases = [
        (RenderScale::p50(), 640, 360),
        (RenderScale::p75(), 960, 540),
        (RenderScale::p100(), 1280, 720),
        (RenderScale::p125(), 1600, 900),
        (RenderScale::p200(), 2560, 1440),
    ];
    for (scale, w, h) in cases {
        let size = internal_render_size(1280, 720, scale, 8192).expect("valid");
        assert_eq!(
            (size.width, size.height, size.clamped),
            (w, h, false),
            "{scale:?}"
        );
    }
    let p100 = internal_render_size(1280, 720, RenderScale::p100(), 8192).expect("valid");
    let p200 = internal_render_size(1280, 720, RenderScale::default_scale(), 8192).expect("valid");
    assert_ne!(
        (p100.width, p100.height),
        (p200.width, p200.height),
        "200% must recreate a larger internal target than 100%"
    );
    assert_eq!((p200.width, p200.height), (2560, 1440));
}

#[test]
fn internal_size_table_for_1920x1080() {
    let cases = [
        (RenderScale::p50(), 960, 540),
        (RenderScale::p75(), 1440, 810),
        (RenderScale::p100(), 1920, 1080),
        (RenderScale::p125(), 2400, 1350),
        (RenderScale::p200(), 3840, 2160),
    ];
    for (scale, w, h) in cases {
        let size = internal_render_size(1920, 1080, scale, 8192).expect("valid");
        assert_eq!(
            (size.width, size.height, size.clamped),
            (w, h, false),
            "{scale:?}"
        );
    }
}

#[test]
fn internal_size_uses_gameplay_rect_not_full_window() {
    let size = internal_render_size(1600, 900, RenderScale::p75(), 8192).expect("valid");
    assert_eq!((size.width, size.height), (1200, 675));
    assert!(!size.clamped);
    let wrong_full_window = internal_render_size(1600, 1000, RenderScale::p75(), 8192).expect("valid");
    assert_ne!(
        (wrong_full_window.width, wrong_full_window.height),
        (1200, 675)
    );
}

#[test]
fn internal_size_rejects_zero_gameplay_rect() {
    assert!(internal_render_size(0, 1080, RenderScale::p100(), 8192).is_none());
    assert!(internal_render_size(1920, 0, RenderScale::p100(), 8192).is_none());
}

#[test]
fn internal_size_clamps_uniformly_to_gpu_limit() {
    let size = internal_render_size(1920, 1080, RenderScale::p200(), 1000).expect("valid");
    assert!(size.clamped);
    assert_eq!(size.width, 1000);
    assert_eq!(size.height, 562);
    assert!(size.width <= 1000 && size.height <= 1000);
}

#[test]
fn world_target_resize_skips_invalid_and_duplicate() {
    assert_eq!(
        classify_world_target_resize(Some((1920, 1080)), (0, 1080)),
        WorldTargetAction::SkipInvalid
    );
    assert_eq!(
        classify_world_target_resize(Some((1920, 1080)), (1920, 1080)),
        WorldTargetAction::Unchanged
    );
    assert_eq!(
        classify_world_target_resize(Some((1920, 1080)), (2880, 1620)),
        WorldTargetAction::Recreate {
            width: 2880,
            height: 1620
        }
    );
    assert_eq!(
        classify_world_target_resize(None, (1920, 1080)),
        WorldTargetAction::Recreate {
            width: 1920,
            height: 1080
        }
    );
    let mut last = Some((1920, 1080));
    for _ in 0..8 {
        let action = classify_world_target_resize(last, (1920, 1080));
        assert_eq!(action, WorldTargetAction::Unchanged);
        last = Some((1920, 1080));
    }
}

#[test]
fn render_scale_does_not_resize_window_or_reset_on_resolution_change() {
    let mut controller = DisplayController::new(UI_DEFAULT);
    controller.note_surface_configured((1280, 720));
    assert!(controller.set_render_scale(RenderScale::performance_fallback()));
    assert!(!controller.set_render_scale(RenderScale::performance_fallback()));
    assert!(controller.pending_window_resolution().is_none());
    assert_eq!(controller.configured_surface(), (1280, 720));
    controller.set_resolution(res(1920, 1080)).expect("valid");
    assert_eq!(
        controller.settings().render_scale,
        RenderScale::performance_fallback()
    );
    assert_eq!(
        controller.observe_framebuffer(1920, 1080),
        SurfaceResizeAction::Reconfigure {
            width: 1920,
            height: 1080
        }
    );
    assert_eq!(
        controller.settings().render_scale,
        RenderScale::performance_fallback()
    );
    assert_eq!(controller.settings().resolution.width, 1920);
}

#[test]
fn window_request_is_taken_once_and_skipped_when_already_applied() {
    let mut controller = DisplayController::new(UI_DEFAULT);
    controller.note_surface_configured((1280, 720));
    controller.set_resolution(res(1600, 900)).expect("valid");
    assert_eq!(controller.take_window_request((1280, 720)), Some(res(1600, 900)));
    assert_eq!(controller.take_window_request((1280, 720)), None);
    controller.set_resolution(res(1920, 1080)).expect("valid");
    assert_eq!(controller.take_window_request((1920, 1080)), None);
    assert!(controller.pending_window_resolution().is_none());
    // An observed resize to the requested size settles the request.
    controller.set_resolution(res(2560, 1440)).expect("valid");
    controller.observe_framebuffer(2560, 1440);
    assert!(controller.pending_window_resolution().is_none());
}

#[test]
fn labels_and_fit_formula() {
    assert_eq!(res(1920, 1080).label(), "1920×1080");
    assert_eq!(WindowMode::Windowed.label(), "Windowed");
    let tall = fit_internal_render_size(500, 3000, 1000);
    assert_eq!((tall.width, tall.height, tall.clamped), (166, 1000, true));
    let fits = fit_internal_render_size(800, 600, 1000);
    assert_eq!((fits.width, fits.height, fits.clamped), (800, 600, false));
}

#[test]
fn oversize_scaled_request_is_clamped_uniformly_not_wrapped() {
    let size = internal_render_size(3_000_000_000, 1_000, RenderScale::p200(), 4_000_000_000)
        .expect("valid");
    assert!(size.clamped);
    assert_eq!(size.width, 4_000_000_000);
    assert_eq!(size.height, 1_333);
    let tall = internal_render_size(1_000, 3_000_000_000, RenderScale::p200(), 4_000_000_000)
        .expect("valid");
    assert_eq!((tall.width, tall.height, tall.clamped), (1_333, 4_000_000_000, true));
}
