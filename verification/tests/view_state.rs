use fractal_view::events::ViewEvent;
use fractal_view::rat::{Rat, RAT_LIMIT};
use fractal_view::view_state::ViewState;

fn rat_f64(r: Rat) -> f64 {
    r.num as f64 / r.den as f64
}

#[test]
fn default_state_matches_documented_startup() {
    let s = ViewState::default();
    assert_eq!(s.focus_x, Rat::from_int(0));
    assert_eq!(s.focus_y, Rat::from_int(0));
    assert_eq!(s.zoom, Rat::from_int(1));
    assert_eq!(s.camera_width, Rat::from_int(2));
    assert_eq!(s.camera_height, Rat::from_int(2));
    assert!(s.lock_aspect_ratio);
    assert_eq!(s.viewport_width, 800);
    assert_eq!(s.viewport_height, 600);
}

#[test]
fn zoom_multiplies_the_zoom_factor() {
    let mut s = ViewState::default();
    s.apply(&ViewEvent::Zoom(Rat::new(11, 10)));
    assert_eq!(s.zoom, Rat::new(11, 10));
}

#[test]
fn unzoom_divides_the_zoom_factor() {
    let mut s = ViewState::default();
    s.apply(&ViewEvent::UnZoom(Rat::new(11, 10)));
    assert_eq!(s.zoom, Rat::new(10, 11));
}

#[test]
fn zoom_then_unzoom_restores_zoom() {
    let mut s = ViewState::default();
    let f = Rat::new(11, 10);
    s.apply(&ViewEvent::Zoom(f));
    s.apply(&ViewEvent::UnZoom(f));
    assert_eq!(s.zoom, Rat::from_int(1));

    // Also from a non-unit starting zoom.
    let mut s = ViewState::default();
    s.apply(&ViewEvent::Zoom(Rat::new(7, 3)));
    s.apply(&ViewEvent::Zoom(f));
    s.apply(&ViewEvent::UnZoom(f));
    assert_eq!(s.zoom, Rat::new(7, 3));
}

#[test]
fn pan_moves_focus_by_normalized_delta() {
    // Pan(100, 0) at zoom 1.0 with viewport width 800: focus.x gains
    // 100 / 800 / 1.0 = 0.125.
    let mut s = ViewState::default();
    s.apply(&ViewEvent::Pan(100, 0));
    assert_eq!(s.focus_x, Rat::new(1, 8));
    assert!((rat_f64(s.focus_x) - 0.125).abs() < 1e-12);
    assert_eq!(s.focus_y, Rat::from_int(0));
}

#[test]
fn pan_scales_with_zoom() {
    let mut s = ViewState::default();
    s.apply(&ViewEvent::Zoom(Rat::from_int(2)));
    s.apply(&ViewEvent::Pan(100, 0));
    // 100 / 800 / 2 = 0.0625
    assert_eq!(s.focus_x, Rat::new(1, 16));
}

#[test]
fn recompute_axis_ranges_is_idempotent() {
    let mut s = ViewState::default();
    s.apply(&ViewEvent::Zoom(Rat::new(11, 10)));
    s.apply(&ViewEvent::Pan(40, -25));
    s.recompute_axis_ranges();
    let once = s;
    s.recompute_axis_ranges();
    assert_eq!(s, once);
}

#[test]
fn locked_resize_matches_new_surface_ratio() {
    let mut s = ViewState::default();
    assert!(s.lock_aspect_ratio);
    s.apply(&ViewEvent::WindowResize(1024, 768));
    assert_eq!(s.viewport_width, 1024);
    assert_eq!(s.viewport_height, 768);
    // camera_width = (1024 / 768) * 2 = 8/3, so width/height == 1024/768.
    assert_eq!(s.camera_width, Rat::new(8, 3));
    assert_eq!(s.camera_height, Rat::from_int(2));
    let ratio = rat_f64(s.camera_width) / rat_f64(s.camera_height);
    assert!((ratio - 1024.0 / 768.0).abs() < 1e-12);
}

#[test]
fn unlocked_resize_keeps_camera() {
    let mut s = ViewState::default();
    s.lock_aspect_ratio = false;
    s.apply(&ViewEvent::WindowResize(1024, 768));
    assert_eq!(s.camera_width, Rat::from_int(2));
    assert_eq!(s.camera_height, Rat::from_int(2));
}

#[test]
fn zero_height_resize_is_accepted_and_keeps_camera() {
    let mut s = ViewState::default();
    s.apply(&ViewEvent::WindowResize(400, 0));
    assert_eq!(s.viewport_width, 400);
    assert_eq!(s.viewport_height, 0);
    assert_eq!(s.camera_width, Rat::from_int(2));
    assert_eq!(s.camera_height, Rat::from_int(2));
}

#[test]
fn zoom_after_default_derives_documented_axis_range() {
    // Defaults, one Zoom(1.1): zoom == 1.1 and the x axis range becomes
    // (-0.9091, 0.9091) within 1e-3.
    let mut s = ViewState::default();
    s.apply(&ViewEvent::Zoom(Rat::new(11, 10)));
    assert_eq!(s.zoom, Rat::new(11, 10));
    s.recompute_axis_ranges();
    assert!((rat_f64(s.axis_x_min) - (-0.9091)).abs() < 1e-3);
    assert!((rat_f64(s.axis_x_max) - 0.9091).abs() < 1e-3);
    assert!((rat_f64(s.axis_y_min) - (-0.9091)).abs() < 1e-3);
    assert!((rat_f64(s.axis_y_max) - 0.9091).abs() < 1e-3);
}

#[test]
fn unconsumed_event_changes_nothing() {
    let mut s = ViewState::default();
    let before = s;
    s.apply(&ViewEvent::Quit);
    assert_eq!(s, before);
}

#[test]
fn unrepresentable_zoom_is_skipped() {
    // A zoom whose reduced result would leave the representable range leaves
    // the zoom unchanged, mirroring the accepted range-exhaustion limit.
    let mut s = ViewState::default();
    s.zoom = Rat::new(RAT_LIMIT, 1);
    s.apply(&ViewEvent::Zoom(Rat::new(11, 10)));
    assert_eq!(s.zoom, Rat::new(RAT_LIMIT, 1));
}

#[test]
fn pan_with_zero_viewport_axis_is_skipped() {
    let mut s = ViewState::default();
    s.apply(&ViewEvent::WindowResize(800, 0));
    s.apply(&ViewEvent::Pan(100, 50));
    // x still moves (width is 800), y cannot (height is 0).
    assert_eq!(s.focus_x, Rat::new(1, 8));
    assert_eq!(s.focus_y, Rat::from_int(0));
}

#[test]
fn camera_width_edit_recomputes_height_under_lock() {
    let mut s = ViewState::default();
    s.set_camera_width(Rat::from_int(4));
    // height = (600 / 800) * 4 = 3
    assert_eq!(s.camera_width, Rat::from_int(4));
    assert_eq!(s.camera_height, Rat::from_int(3));
}

#[test]
fn camera_height_edit_recomputes_width_under_lock() {
    let mut s = ViewState::default();
    s.set_camera_height(Rat::from_int(3));
    // width = (800 / 600) * 3 = 4
    assert_eq!(s.camera_width, Rat::from_int(4));
    assert_eq!(s.camera_height, Rat::from_int(3));
}

#[test]
fn camera_edits_are_independent_without_lock() {
    let mut s = ViewState::default();
    s.set_lock_aspect_ratio(false);
    s.set_camera_width(Rat::from_int(4));
    assert_eq!(s.camera_width, Rat::from_int(4));
    assert_eq!(s.camera_height, Rat::from_int(2));
}

#[test]
fn enabling_lock_recomputes_height() {
    let mut s = ViewState::default();
    s.lock_aspect_ratio = false;
    s.camera_width = Rat::from_int(4);
    s.set_lock_aspect_ratio(true);
    // height = (600 / 800) * 4 = 3
    assert_eq!(s.camera_height, Rat::from_int(3));
}
