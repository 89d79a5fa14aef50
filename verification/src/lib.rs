//! Core of a browser tool that composites a live camera feed with a
//! translucent reference image. The verified part is the reactive
//! state-to-render pipeline: the shared control state and its transition
//! function, the asynchronous image-loading state machine with its staleness
//! guard, the camera-stream acquisition state machine, and the canvas redraw
//! model. The surrounding UI and the browser calls live outside the library
//! and drive it through these types.

pub mod compositor;
pub mod controls;
pub mod loader;
pub mod pipeline;
pub mod stream;
