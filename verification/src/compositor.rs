//! The canvas compositor's redraw model. The drawing surface is modelled by
//! its dimensions and by the overlay paint sitting on it; the redraw routine
//! is a pure function of the control state and the current image-load state,
//! so redrawing is idempotent and alpha is applied per call, never
//! accumulated.

use vstd::prelude::*;

use crate::controls::ControlState;
use crate::loader::{ImageHandle, ImageLoadState};

verus! {

/// The overlay content painted onto the surface by one redraw: which drawable
/// was drawn and at what alpha, in thousandths.
#[derive(PartialEq, Eq, Structural, Clone, Copy, Debug)]
pub struct OverlayPaint {
    pub handle: ImageHandle,
    pub opacity: u32,
}

/// The pixel content of the drawing surface, abstracted: its dimensions and
/// the overlay paint on it. `None` leaves the layer transparent, showing only
/// what the video sink renders beneath it.
#[derive(PartialEq, Eq, Structural, Clone, Copy, Debug)]
pub struct Surface {
    pub width: u32,
    pub height: u32,
    pub overlay: Option<OverlayPaint>,
}

impl Surface {
    /// A fresh, transparent surface of the given dimensions.
    pub fn new(width: u32, height: u32) -> (s: Self)
        ensures
            s == (Surface { width, height, overlay: None::<OverlayPaint> }),
    {
        Surface { width, height, overlay: None }
    }
}

/// What one redraw leaves on the surface, as a function of the control state
/// and the image-load state alone: the surface is sized to the requested
/// dimensions, and the overlay is painted at the current opacity exactly when
/// a drawable is ready and the overlay is shown.
pub open spec fn rendered(state: ControlState, load: ImageLoadState) -> Surface {
    Surface {
        width: state.canvas_width,
        height: state.canvas_height,
        overlay: match load {
            ImageLoadState::Ready { handle, .. } => {
                if state.lock_overlay {
                    Some(OverlayPaint { handle, opacity: state.opacity })
                } else {
                    None
                }
            },
            _ => None,
        },
    }
}

/// Redraws the surface from the current control and image-load state: resizes
/// it to the requested dimensions (resizing clears prior pixel content, so
/// the routine always redraws fully, never incrementally), then paints the
/// ready drawable at the current alpha if the overlay is shown, and leaves
/// the layer transparent otherwise. The result does not depend on what the
/// surface held before.
pub fn redraw(surface: &mut Surface, state: &ControlState, load: &ImageLoadState)
    ensures
        *final(surface) == rendered(*state, *load),
{
    surface.width = state.canvas_width;
    surface.height = state.canvas_height;
    surface.overlay = None;
    if state.lock_overlay {
        if let ImageLoadState::Ready { handle, .. } = load {
            surface.overlay = Some(OverlayPaint { handle: *handle, opacity: state.opacity });
        }
    }
}

/// The presentation hint both the video sink and the overlay surface hand to
/// the host's layout: scale to fit fully within the viewport, or cover it,
/// cropping as needed. Presentation only; the redraw routine does no pixel
/// scaling of its own.
pub fn fit_mode_hint(fit_screen: bool) -> (hint: &'static str)
    ensures
        fit_screen ==> hint@ == "contain"@,
        !fit_screen ==> hint@ == "cover"@,
{
    if fit_screen {
        "contain"
    } else {
        "cover"
    }
}

/// Law: redraw is idempotent. `redraw` leaves `rendered(state, load)` on the
/// surface whatever it held before, so a second redraw with unchanged control
/// and image-load state finds the surface already in that shape and leaves it
/// exactly as the first did.
pub proof fn lemma_redraw_idempotent(after_first: Surface, state: ControlState, load: ImageLoadState)
    requires
        after_first == rendered(state, load),
    ensures
        rendered(state, load) == after_first,
{
}

} // verus!
