use camera_overlay::controls::{
    canvas_size_action, CanvasAxis, ControlState, ControlsAction, OPACITY_SCALE,
};

#[test]
fn new_state_has_documented_defaults() {
    let s = ControlState::new();
    assert!(!s.fit_screen);
    assert!(!s.lock_overlay);
    assert_eq!(s.opacity, 200);
    assert!(s.image_src.is_none());
    assert_eq!(s.canvas_width, 800);
    assert_eq!(s.canvas_height, 600);
}

#[test]
fn set_opacity_clamps_negative_to_zero() {
    let s = ControlState::new();
    let next = s.reduce(ControlsAction::SetOpacity(-500));
    assert_eq!(next.opacity, 0);
}

#[test]
fn set_opacity_clamps_over_range_to_full() {
    let s = ControlState::new();
    let next = s.reduce(ControlsAction::SetOpacity(1700));
    assert_eq!(next.opacity, OPACITY_SCALE);
}

#[test]
fn set_opacity_keeps_in_range_value() {
    let s = ControlState::new();
    let next = s.reduce(ControlsAction::SetOpacity(900));
    assert_eq!(next.opacity, 900);
    let edge_low = s.reduce(ControlsAction::SetOpacity(0));
    assert_eq!(edge_low.opacity, 0);
    let edge_high = s.reduce(ControlsAction::SetOpacity(OPACITY_SCALE as i64));
    assert_eq!(edge_high.opacity, OPACITY_SCALE);
}

#[test]
fn set_canvas_size_rejects_zero_width_keeps_height() {
    let s = ControlState::new();
    let next = s.reduce(ControlsAction::SetCanvasSize(0, 400));
    assert_eq!(next.canvas_width, 800);
    assert_eq!(next.canvas_height, 400);
}

#[test]
fn set_canvas_size_rejects_zero_height_keeps_width() {
    let s = ControlState::new();
    let next = s.reduce(ControlsAction::SetCanvasSize(1024, 0));
    assert_eq!(next.canvas_width, 1024);
    assert_eq!(next.canvas_height, 600);
}

#[test]
fn set_canvas_size_rejects_both_axes_independently() {
    let s = ControlState::new();
    let next = s.reduce(ControlsAction::SetCanvasSize(0, 0));
    assert_eq!(next.canvas_width, 800);
    assert_eq!(next.canvas_height, 600);
}

#[test]
fn toggle_overlay_twice_is_involution() {
    let s = ControlState::new();
    let once = s.reduce(ControlsAction::ToggleOverlay);
    assert!(once.lock_overlay);
    let twice = once.reduce(ControlsAction::ToggleOverlay);
    assert_eq!(twice.lock_overlay, s.lock_overlay);
    assert!(twice == s);
}

#[test]
fn toggle_fit_screen_flips_only_fit() {
    let s = ControlState::new();
    let next = s.reduce(ControlsAction::ToggleFitScreen);
    assert!(next.fit_screen);
    assert_eq!(next.lock_overlay, s.lock_overlay);
    assert_eq!(next.opacity, s.opacity);
    assert_eq!(next.canvas_width, s.canvas_width);
    assert_eq!(next.canvas_height, s.canvas_height);
}

#[test]
fn set_image_replaces_reference_unconditionally() {
    let s = ControlState::new();
    let a = s.reduce(ControlsAction::SetImage(String::from("blob://x")));
    assert_eq!(a.image_src.as_deref(), Some("blob://x"));
    let again = a.reduce(ControlsAction::SetImage(String::from("blob://x")));
    assert_eq!(again.image_src.as_deref(), Some("blob://x"));
    assert!(again == a);
    let b = a.reduce(ControlsAction::SetImage(String::from("blob://y")));
    assert_eq!(b.image_src.as_deref(), Some("blob://y"));
}

#[test]
fn size_entry_drives_one_axis_and_keeps_the_other() {
    let s = ControlState::new();
    let set_width = s.reduce(canvas_size_action(CanvasAxis::Width, 1024, &s));
    assert_eq!(set_width.canvas_width, 1024);
    assert_eq!(set_width.canvas_height, 600);
    let set_height = set_width.reduce(canvas_size_action(CanvasAxis::Height, 300, &set_width));
    assert_eq!(set_height.canvas_width, 1024);
    assert_eq!(set_height.canvas_height, 300);
}

#[test]
fn reduce_leaves_the_previous_snapshot_untouched() {
    let s = ControlState::new();
    let _next = s.reduce(ControlsAction::SetOpacity(900));
    assert_eq!(s.opacity, 200);
    let _other = s.reduce(ControlsAction::SetImage(String::from("blob://x")));
    assert!(s.image_src.is_none());
}
