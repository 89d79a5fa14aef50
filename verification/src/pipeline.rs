//! The composition root: one place that owns the control state, the two
//! asynchronous process states and the drawing surface, and keeps them in
//! sync. Every user request and every asynchronous completion enters through
//! a method here; each method moves the state machines by their transition
//! functions and redraws the surface, so that between calls the surface
//! always shows exactly what the current state renders to and the loader
//! always tracks the current image reference.

use vstd::prelude::*;

use crate::compositor::{redraw, rendered, Surface};
use crate::controls::{initial_state, transition, ControlState, ControlsAction};
use crate::loader::{
    complete_next, complete_release, observe_next, observe_release, ImageHandle, ImageLoadState,
};
use crate::stream::{begin_request_next, resolve_next, StreamHandle, StreamState};

verus! {

/// The image reference a control snapshot selects, by value.
pub open spec fn image_ref_view(r: Option<String>) -> Option<Seq<char>> {
    match r {
        None => None,
        Some(s) => Some(s@),
    }
}

/// The whole reactive pipeline, from user intent to surface content.
pub struct Pipeline {
    /// The single source of truth for user intent.
    pub state: ControlState,
    /// The loading state of the current image reference.
    pub load: ImageLoadState,
    /// The camera acquisition state; independent of the control state.
    pub stream: StreamState,
    /// The drawing surface as last redrawn.
    pub surface: Surface,
}

impl Pipeline {
    /// The pipeline's invariant, established at start and kept by every
    /// method: the control snapshot is well formed, the loader tracks exactly
    /// the reference the snapshot selects, and the surface holds exactly what
    /// the current state renders to.
    pub open spec fn wf(self) -> bool {
        &&& self.state.wf()
        &&& self.load.tracked_ref() == image_ref_view(self.state.image_src)
        &&& self.surface == rendered(self.state, self.load)
    }

    /// A fresh pipeline: default controls, no image selected, camera not yet
    /// requested, and the surface redrawn once from that state.
    pub fn new() -> (p: Self)
        ensures
            p.state == initial_state(),
            p.load is Idle,
            p.stream is NotRequested,
            p.surface == rendered(initial_state(), ImageLoadState::Idle),
            p.wf(),
    {
        let state = ControlState::new();
        let load = ImageLoadState::Idle;
        let mut surface = Surface::new(state.canvas_width, state.canvas_height);
        redraw(&mut surface, &state, &load);
        Pipeline { state, load, stream: StreamState::NotRequested, surface }
    }

    /// Applies one user request: moves the control state by its transition
    /// function, lets the loader observe the (possibly new) image reference,
    /// and redraws the surface from the result. Returns the drawable handle,
    /// if any, that was superseded and must be released by the host.
    pub fn dispatch(&mut self, action: ControlsAction) -> (release: Option<ImageHandle>)
        ensures
            final(self).state == transition(old(self).state, action),
            final(self).load == observe_next(old(self).load, final(self).state.image_src),
            release == observe_release(old(self).load, final(self).state.image_src),
            final(self).surface == rendered(final(self).state, final(self).load),
            final(self).stream == old(self).stream,
            old(self).wf() ==> final(self).wf(),
    {
        let next = self.state.reduce(action);
        let step = self.load.observe(&next.image_src);
        self.state = next;
        self.load = step.next;
        redraw(&mut self.surface, &self.state, &self.load);
        step.release
    }

    /// Applies the completion of an asynchronous image load under the
    /// staleness guard, then redraws. Returns the handle, if any, that was
    /// delivered for a stale reference and must be released unused.
    pub fn finish_load(&mut self, done_ref: &String, outcome: Result<ImageHandle, String>) -> (release:
        Option<ImageHandle>)
        ensures
            final(self).load == complete_next(old(self).load, done_ref@, outcome),
            release == complete_release(old(self).load, done_ref@, outcome),
            final(self).state == old(self).state,
            final(self).stream == old(self).stream,
            final(self).surface == rendered(final(self).state, final(self).load),
            old(self).wf() ==> final(self).wf(),
    {
        let step = self.load.complete(done_ref, outcome);
        self.load = step.next;
        redraw(&mut self.surface, &self.state, &self.load);
        step.release
    }

    /// Starts the single camera request; everything else is untouched, since
    /// acquisition is independent of the control state.
    pub fn start_stream(&mut self)
        ensures
            final(self).stream == begin_request_next(old(self).stream),
            final(self).state == old(self).state,
            final(self).load == old(self).load,
            final(self).surface == old(self).surface,
            old(self).wf() ==> final(self).wf(),
    {
        self.stream = self.stream.begin_request();
    }

    /// Applies the outcome of the camera request; a settled state is never
    /// overwritten. The video layer lives beneath the canvas, so no redraw is
    /// due.
    pub fn finish_stream(&mut self, outcome: Result<StreamHandle, String>)
        ensures
            final(self).stream == resolve_next(old(self).stream, outcome),
            final(self).state == old(self).state,
            final(self).load == old(self).load,
            final(self).surface == old(self).surface,
            old(self).wf() ==> final(self).wf(),
    {
        self.stream = self.stream.resolve(outcome);
    }
}

/// Law: the compositor never shows a superseded image. In every reachable
/// pipeline the drawable that is ready, and hence the only one the surface
/// can hold, belongs to the image reference the control state currently
/// selects.
pub proof fn lemma_overlay_shows_current_ref(p: Pipeline)
    requires
        p.wf(),
    ensures
        match p.load {
            ImageLoadState::Ready { image_ref, handle } => {
                &&& image_ref_view(p.state.image_src) == Some(image_ref@)
                &&& match p.surface.overlay {
                    Some(paint) => paint.handle == handle && paint.opacity == p.state.opacity,
                    None => true,
                }
            },
            _ => p.surface.overlay is None,
        },
{
}

} // verus!
