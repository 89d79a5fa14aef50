use camera_overlay::compositor::OverlayPaint;
use camera_overlay::controls::ControlsAction;
use camera_overlay::loader::ImageLoadState;
use camera_overlay::pipeline::Pipeline;
use camera_overlay::stream::StreamState;

#[test]
fn fresh_pipeline_is_idle_everywhere() {
    let p = Pipeline::new();
    assert_eq!(p.state.opacity, 200);
    assert!(p.state.image_src.is_none());
    assert!(!p.state.fit_screen);
    assert!(matches!(p.load, ImageLoadState::Idle));
    assert!(matches!(p.stream, StreamState::NotRequested));
    assert_eq!(p.surface.width, 800);
    assert_eq!(p.surface.height, 600);
    assert_eq!(p.surface.overlay, None);
}

#[test]
fn selecting_an_image_goes_idle_to_loading_then_ready() {
    // Initial state: opacity a fifth, no image, cover fit.
    let mut p = Pipeline::new();
    let released = p.dispatch(ControlsAction::SetImage(String::from("blob://x")));
    assert!(released.is_none());
    match &p.load {
        ImageLoadState::Loading { image_ref } => assert_eq!(image_ref, "blob://x"),
        _ => panic!("selecting an image must start its load"),
    }
    // Nothing is drawn while the load is in flight.
    assert_eq!(p.surface.overlay, None);
    // Show the overlay, then let the load resolve.
    let released = p.dispatch(ControlsAction::ToggleOverlay);
    assert!(released.is_none());
    let released = p.finish_load(&String::from("blob://x"), Ok(6));
    assert!(released.is_none());
    match &p.load {
        ImageLoadState::Ready { image_ref, handle } => {
            assert_eq!(image_ref, "blob://x");
            assert_eq!(*handle, 6);
        }
        _ => panic!("the current load must be applied"),
    }
    // The compositor draws the loaded handle at the untouched opacity.
    assert_eq!(p.surface.overlay, Some(OverlayPaint { handle: 6, opacity: 200 }));
    // Raising the opacity redraws with the same handle at the new alpha.
    let released = p.dispatch(ControlsAction::SetOpacity(900));
    assert!(released.is_none());
    assert_eq!(p.surface.overlay, Some(OverlayPaint { handle: 6, opacity: 900 }));
}

#[test]
fn switching_images_never_shows_the_superseded_one() {
    let mut p = Pipeline::new();
    p.dispatch(ControlsAction::ToggleOverlay);
    p.dispatch(ControlsAction::SetImage(String::from("blob://a")));
    p.dispatch(ControlsAction::SetImage(String::from("blob://b")));
    // A's load completes only now: discarded, its handle handed back.
    let released = p.finish_load(&String::from("blob://a"), Ok(7));
    assert_eq!(released, Some(7));
    match &p.load {
        ImageLoadState::Loading { image_ref } => assert_eq!(image_ref, "blob://b"),
        _ => panic!("interest must stay with the latest reference"),
    }
    assert_eq!(p.surface.overlay, None);
    // B's load is the one applied and drawn.
    let released = p.finish_load(&String::from("blob://b"), Ok(8));
    assert!(released.is_none());
    assert_eq!(p.surface.overlay, Some(OverlayPaint { handle: 8, opacity: 200 }));
}

#[test]
fn clearing_the_image_releases_the_drawn_handle() {
    let mut p = Pipeline::new();
    p.dispatch(ControlsAction::ToggleOverlay);
    p.dispatch(ControlsAction::SetImage(String::from("blob://a")));
    p.finish_load(&String::from("blob://a"), Ok(7));
    let released = p.dispatch(ControlsAction::SetImage(String::from("blob://b")));
    assert_eq!(released, Some(7));
    assert_eq!(p.surface.overlay, None);
}

#[test]
fn failed_load_leaves_the_surface_transparent() {
    let mut p = Pipeline::new();
    p.dispatch(ControlsAction::ToggleOverlay);
    p.dispatch(ControlsAction::SetImage(String::from("blob://a")));
    let released = p.finish_load(
        &String::from("blob://a"),
        Err(String::from("decode error")),
    );
    assert!(released.is_none());
    match &p.load {
        ImageLoadState::Failed { image_ref, reason } => {
            assert_eq!(image_ref, "blob://a");
            assert_eq!(reason, "decode error");
        }
        _ => panic!("the failure must be surfaced as state"),
    }
    assert_eq!(p.surface.overlay, None);
}

#[test]
fn stream_acquisition_is_independent_of_controls() {
    let mut p = Pipeline::new();
    p.start_stream();
    assert!(matches!(p.stream, StreamState::Requesting));
    p.dispatch(ControlsAction::ToggleFitScreen);
    assert!(matches!(p.stream, StreamState::Requesting));
    p.finish_stream(Ok(1));
    match p.stream {
        StreamState::Granted { handle } => assert_eq!(handle, 1),
        _ => panic!("the grant must be recorded"),
    }
    // Control changes never re-request the camera.
    p.dispatch(ControlsAction::SetOpacity(500));
    p.start_stream();
    assert!(matches!(p.stream, StreamState::Granted { handle: 1 }));
}

#[test]
fn denied_stream_leaves_overlay_functionality_intact() {
    let mut p = Pipeline::new();
    p.start_stream();
    p.finish_stream(Err(String::from("permission refused")));
    assert!(matches!(p.stream, StreamState::Denied { .. }));
    p.dispatch(ControlsAction::ToggleOverlay);
    p.dispatch(ControlsAction::SetImage(String::from("blob://a")));
    p.finish_load(&String::from("blob://a"), Ok(2));
    assert_eq!(p.surface.overlay, Some(OverlayPaint { handle: 2, opacity: 200 }));
}

#[test]
fn hiding_the_overlay_keeps_the_loaded_image() {
    let mut p = Pipeline::new();
    p.dispatch(ControlsAction::ToggleOverlay);
    p.dispatch(ControlsAction::SetImage(String::from("blob://a")));
    p.finish_load(&String::from("blob://a"), Ok(2));
    assert!(p.surface.overlay.is_some());
    // Hiding gates drawing only; the drawable stays loaded for when it is shown again.
    let released = p.dispatch(ControlsAction::ToggleOverlay);
    assert!(released.is_none());
    assert_eq!(p.surface.overlay, None);
    assert!(matches!(p.load, ImageLoadState::Ready { handle: 2, .. }));
    p.dispatch(ControlsAction::ToggleOverlay);
    assert_eq!(p.surface.overlay, Some(OverlayPaint { handle: 2, opacity: 200 }));
}
