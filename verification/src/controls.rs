//! The shared control state: the single source of truth for user intent,
//! replaced wholesale by a pure transition function on every request.

use vstd::prelude::*;

verus! {

/// Opacity is stored in thousandths of full alpha, so that `OPACITY_SCALE`
/// stands for an alpha of one and `0` for fully transparent.
pub const OPACITY_SCALE: u32 = 1000;

/// An immutable snapshot of user intent. A transition never mutates a
/// snapshot; it produces a new one, so observers detect change by equality.
#[derive(Clone, Debug)]
pub struct ControlState {
    /// True: surfaces are scaled to fit fully within the viewport (contain);
    /// false: they cover it, cropping as needed.
    pub fit_screen: bool,
    /// Whether the overlay image is shown at all; it gates drawing only,
    /// never image loading.
    pub lock_overlay: bool,
    /// Alpha applied when drawing the overlay, in thousandths; always at most
    /// `OPACITY_SCALE`.
    pub opacity: u32,
    /// Reference to the currently selected overlay image; `None` means
    /// nothing is drawn.
    pub image_src: Option<String>,
    /// Desired drawing-surface width in pixels; always positive.
    pub canvas_width: u32,
    /// Desired drawing-surface height in pixels; always positive.
    pub canvas_height: u32,
}

/// A transition request emitted by the control panel.
pub enum ControlsAction {
    ToggleFitScreen,
    ToggleOverlay,
    /// Requested opacity in thousandths of full alpha; out-of-range values,
    /// negative ones included, are clamped before acceptance.
    SetOpacity(i64),
    /// Replaces the image reference unconditionally, even with an equal value.
    SetImage(String),
    /// Requested surface dimensions; a zero axis is rejected independently,
    /// retaining the previous dimension for that axis.
    SetCanvasSize(u32, u32),
}

impl ControlState {
    /// Invariant of every accepted snapshot: opacity within range and both
    /// canvas dimensions positive.
    pub open spec fn wf(self) -> bool {
        &&& self.opacity <= OPACITY_SCALE
        &&& self.canvas_width > 0
        &&& self.canvas_height > 0
    }

    /// The state every session starts from.
    pub fn new() -> (s: Self)
        ensures
            s == initial_state(),
            s.wf(),
    {
        ControlState {
            fit_screen: false,
            lock_overlay: false,
            opacity: 200,
            image_src: None,
            canvas_width: 800,
            canvas_height: 600,
        }
    }

    /// Applies one request to this snapshot and returns the next snapshot,
    /// leaving this one untouched. Total: every action is accepted, with
    /// out-of-range inputs clamped or ignored rather than reported.
    pub fn reduce(&self, action: ControlsAction) -> (next: Self)
        ensures
            next == transition(*self, action),
            self.wf() ==> next.wf(),
    {
        match action {
            ControlsAction::ToggleFitScreen => ControlState {
                fit_screen: !self.fit_screen,
                image_src: clone_ref(&self.image_src),
                ..*self
            },
            ControlsAction::ToggleOverlay => ControlState {
                lock_overlay: !self.lock_overlay,
                image_src: clone_ref(&self.image_src),
                ..*self
            },
            ControlsAction::SetOpacity(v) => ControlState {
                opacity: clamp_opacity(v),
                image_src: clone_ref(&self.image_src),
                ..*self
            },
            ControlsAction::SetImage(url) => ControlState { image_src: Some(url), ..*self },
            ControlsAction::SetCanvasSize(w, h) => ControlState {
                canvas_width: if w > 0 { w } else { self.canvas_width },
                canvas_height: if h > 0 { h } else { self.canvas_height },
                image_src: clone_ref(&self.image_src),
                ..*self
            },
        }
    }
}

impl PartialEq for ControlState {
    /// Snapshot equality, the basis of change detection: every field equal,
    /// image references compared by value.
    fn eq(&self, other: &Self) -> (r: bool) {
        self.fit_screen == other.fit_screen && self.lock_overlay == other.lock_overlay
            && self.opacity == other.opacity && self.canvas_width == other.canvas_width
            && self.canvas_height == other.canvas_height && (match (
            &self.image_src,
            &other.image_src,
        ) {
            (None, None) => true,
            (Some(a), Some(b)) => *a == *b,
            _ => false,
        })
    }
}

impl vstd::std_specs::cmp::PartialEqSpecImpl for ControlState {
    open spec fn obeys_eq_spec() -> bool {
        true
    }

    open spec fn eq_spec(&self, other: &Self) -> bool {
        &&& self.fit_screen == other.fit_screen
        &&& self.lock_overlay == other.lock_overlay
        &&& self.opacity == other.opacity
        &&& self.canvas_width == other.canvas_width
        &&& self.canvas_height == other.canvas_height
        &&& match (self.image_src, other.image_src) {
            (None, None) => true,
            (Some(a), Some(b)) => a@ == b@,
            _ => false,
        }
    }
}

/// The default snapshot: overlay hidden, alpha one fifth, no image, an
/// 800 by 600 surface, cover fit.
pub open spec fn initial_state() -> ControlState {
    ControlState {
        fit_screen: false,
        lock_overlay: false,
        opacity: 200,
        image_src: None,
        canvas_width: 800,
        canvas_height: 600,
    }
}

/// What `reduce` returns: the next snapshot as a function of the current one
/// and the request alone.
pub open spec fn transition(s: ControlState, action: ControlsAction) -> ControlState {
    match action {
        ControlsAction::ToggleFitScreen => ControlState { fit_screen: !s.fit_screen, ..s },
        ControlsAction::ToggleOverlay => ControlState { lock_overlay: !s.lock_overlay, ..s },
        ControlsAction::SetOpacity(v) => ControlState { opacity: spec_clamp_opacity(v), ..s },
        ControlsAction::SetImage(url) => ControlState { image_src: Some(url), ..s },
        ControlsAction::SetCanvasSize(w, h) => ControlState {
            canvas_width: if w > 0 { w } else { s.canvas_width },
            canvas_height: if h > 0 { h } else { s.canvas_height },
            ..s
        },
    }
}

/// A requested opacity clamped into the accepted range.
pub open spec fn spec_clamp_opacity(v: i64) -> u32 {
    if v < 0 {
        0
    } else if v > OPACITY_SCALE {
        OPACITY_SCALE
    } else {
        v as u32
    }
}

/// Clamps a requested opacity into `[0, OPACITY_SCALE]`.
pub fn clamp_opacity(v: i64) -> (r: u32)
    ensures
        r == spec_clamp_opacity(v),
        r <= OPACITY_SCALE,
{
    if v < 0 {
        0
    } else if v > OPACITY_SCALE as i64 {
        OPACITY_SCALE
    } else {
        v as u32
    }
}

/// Which canvas axis a size entry drives.
pub enum CanvasAxis {
    Width,
    Height,
}

/// The request a size entry emits: the entered size on the edited axis and
/// the current size on the other, so the two axes are set independently.
pub fn canvas_size_action(axis: CanvasAxis, size: u32, current: &ControlState) -> (a:
    ControlsAction)
    ensures
        a == (match axis {
            CanvasAxis::Width => ControlsAction::SetCanvasSize(size, current.canvas_height),
            CanvasAxis::Height => ControlsAction::SetCanvasSize(current.canvas_width, size),
        }),
{
    match axis {
        CanvasAxis::Width => ControlsAction::SetCanvasSize(size, current.canvas_height),
        CanvasAxis::Height => ControlsAction::SetCanvasSize(current.canvas_width, size),
    }
}

/// Law: every accepted snapshot is well formed. A transition applied to a
/// well-formed snapshot yields a well-formed one, so the clamping and
/// rejection at the transition boundary keep the invariant for the page's
/// lifetime.
pub proof fn lemma_transition_preserves_wf(s: ControlState, action: ControlsAction)
    requires
        s.wf(),
    ensures
        transition(s, action).wf(),
{
}

/// Law: whatever opacity is requested, the accepted one lies in
/// `[0, OPACITY_SCALE]`; a negative request is accepted as zero and an
/// over-range one as full alpha.
pub proof fn lemma_set_opacity_clamped(s: ControlState, v: i64)
    ensures
        0 <= transition(s, ControlsAction::SetOpacity(v)).opacity <= OPACITY_SCALE,
        v < 0 ==> transition(s, ControlsAction::SetOpacity(v)).opacity == 0,
        v > OPACITY_SCALE ==> transition(s, ControlsAction::SetOpacity(v)).opacity == OPACITY_SCALE,
{
}

/// Law: a zero canvas axis is rejected independently per axis, retaining the
/// previous dimension for that axis, while a positive axis is accepted.
pub proof fn lemma_canvas_axes_independent(s: ControlState, w: u32, h: u32)
    ensures
        w == 0 ==> transition(s, ControlsAction::SetCanvasSize(w, h)).canvas_width
            == s.canvas_width,
        h == 0 ==> transition(s, ControlsAction::SetCanvasSize(w, h)).canvas_height
            == s.canvas_height,
        w > 0 ==> transition(s, ControlsAction::SetCanvasSize(w, h)).canvas_width == w,
        h > 0 ==> transition(s, ControlsAction::SetCanvasSize(w, h)).canvas_height == h,
{
}

/// Law: toggling the overlay twice returns the snapshot to its original
/// value; in particular `lock_overlay` is back where it started.
pub proof fn lemma_toggle_overlay_involution(s: ControlState)
    ensures
        transition(
            transition(s, ControlsAction::ToggleOverlay),
            ControlsAction::ToggleOverlay,
        ) == s,
        transition(
            transition(s, ControlsAction::ToggleOverlay),
            ControlsAction::ToggleOverlay,
        ).lock_overlay == s.lock_overlay,
{
}

/// Clones an optional image reference, keeping its value.
fn clone_ref(r: &Option<String>) -> (c: Option<String>)
    ensures
        c == *r,
{
    match r {
        Some(s) => Some(s.clone()),
        None => None,
    }
}

} // verus!
