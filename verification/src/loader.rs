//! The asynchronous image-loading state machine. It tracks the latest image
//! reference only: starting a load for a new reference abandons interest in
//! any in-flight load for a stale one, whose eventual completion is discarded
//! rather than applied (last-requested-wins).

use vstd::prelude::*;

verus! {

/// An opaque identifier for a decoded, drawable image held by the rendering
/// host. The library never looks inside a handle; it only decides which one
/// is current and which ones must be released.
pub type ImageHandle = u64;

/// The loading state of the one image reference of current interest.
pub enum ImageLoadState {
    /// No image reference is selected.
    Idle,
    /// A load for this reference is in flight.
    Loading { image_ref: String },
    /// This reference was decoded into a drawable handle.
    Ready { image_ref: String, handle: ImageHandle },
    /// Loading this reference failed; the overlay simply does not render
    /// until a new valid reference is set.
    Failed { image_ref: String, reason: String },
}

/// What one transition of the loader asks of its host: the next state, and
/// the drawable handle, if any, whose underlying resources must be released
/// because no state refers to it any more.
pub struct LoaderStep {
    pub next: ImageLoadState,
    pub release: Option<ImageHandle>,
}

impl ImageLoadState {
    /// The image reference this state tracks, if any.
    pub open spec fn tracked_ref(self) -> Option<Seq<char>> {
        match self {
            ImageLoadState::Idle => None,
            ImageLoadState::Loading { image_ref } => Some(image_ref@),
            ImageLoadState::Ready { image_ref, .. } => Some(image_ref@),
            ImageLoadState::Failed { image_ref, .. } => Some(image_ref@),
        }
    }

    /// The drawable handle this state holds, if any.
    pub open spec fn held_handle(self) -> Option<ImageHandle> {
        match self {
            ImageLoadState::Ready { handle, .. } => Some(handle),
            _ => None,
        }
    }

    /// Reacts to the control state's image reference. Called when the
    /// reference changes; calling it again with an unchanged reference is
    /// harmless, since an equal reference names the same image and starts no
    /// new fetch. A new reference abandons any in-flight load; a reference
    /// becoming empty returns to `Idle`. Either way a handle held for a
    /// superseded reference is handed back for release.
    pub fn observe(&self, image_ref: &Option<String>) -> (step: LoaderStep)
        ensures
            step.next == observe_next(*self, *image_ref),
            step.release == observe_release(*self, *image_ref),
    {
        match image_ref {
            None => {
                match self {
                    ImageLoadState::Idle => LoaderStep { next: ImageLoadState::Idle, release: None },
                    ImageLoadState::Loading { .. } => LoaderStep {
                        next: ImageLoadState::Idle,
                        release: None,
                    },
                    ImageLoadState::Ready { handle, .. } => LoaderStep {
                        next: ImageLoadState::Idle,
                        release: Some(*handle),
                    },
                    ImageLoadState::Failed { .. } => LoaderStep {
                        next: ImageLoadState::Idle,
                        release: None,
                    },
                }
            },
            Some(r) => {
                match self {
                    ImageLoadState::Idle => LoaderStep {
                        next: ImageLoadState::Loading { image_ref: r.clone() },
                        release: None,
                    },
                    ImageLoadState::Loading { image_ref } => {
                        if *image_ref == *r {
                            LoaderStep {
                                next: ImageLoadState::Loading { image_ref: image_ref.clone() },
                                release: None,
                            }
                        } else {
                            LoaderStep {
                                next: ImageLoadState::Loading { image_ref: r.clone() },
                                release: None,
                            }
                        }
                    },
                    ImageLoadState::Ready { image_ref, handle } => {
                        if *image_ref == *r {
                            LoaderStep {
                                next: ImageLoadState::Ready {
                                    image_ref: image_ref.clone(),
                                    handle: *handle,
                                },
                                release: None,
                            }
                        } else {
                            LoaderStep {
                                next: ImageLoadState::Loading { image_ref: r.clone() },
                                release: Some(*handle),
                            }
                        }
                    },
                    ImageLoadState::Failed { image_ref, reason } => {
                        if *image_ref == *r {
                            LoaderStep {
                                next: ImageLoadState::Failed {
                                    image_ref: image_ref.clone(),
                                    reason: reason.clone(),
                                },
                                release: None,
                            }
                        } else {
                            LoaderStep {
                                next: ImageLoadState::Loading { image_ref: r.clone() },
                                release: None,
                            }
                        }
                    },
                }
            },
        }
    }

    /// Applies the completion of an asynchronous load for `done_ref`. The
    /// staleness guard: the outcome is applied only if a load for that very
    /// reference is still in flight; otherwise the state is unchanged and a
    /// handle delivered for a stale reference is handed back for release.
    pub fn complete(&self, done_ref: &String, outcome: Result<ImageHandle, String>) -> (step:
        LoaderStep)
        ensures
            step.next == complete_next(*self, done_ref@, outcome),
            step.release == complete_release(*self, done_ref@, outcome),
    {
        match self {
            ImageLoadState::Loading { image_ref } if *image_ref == *done_ref => {
                match outcome {
                    Ok(handle) => LoaderStep {
                        next: ImageLoadState::Ready { image_ref: image_ref.clone(), handle },
                        release: None,
                    },
                    Err(reason) => LoaderStep {
                        next: ImageLoadState::Failed { image_ref: image_ref.clone(), reason },
                        release: None,
                    },
                }
            },
            _ => {
                let next = self.duplicate();
                match outcome {
                    Ok(handle) => LoaderStep { next, release: Some(handle) },
                    Err(_) => LoaderStep { next, release: None },
                }
            },
        }
    }

    /// Copies this state, keeping its value.
    pub fn duplicate(&self) -> (c: Self)
        ensures
            c == *self,
    {
        match self {
            ImageLoadState::Idle => ImageLoadState::Idle,
            ImageLoadState::Loading { image_ref } => ImageLoadState::Loading {
                image_ref: image_ref.clone(),
            },
            ImageLoadState::Ready { image_ref, handle } => ImageLoadState::Ready {
                image_ref: image_ref.clone(),
                handle: *handle,
            },
            ImageLoadState::Failed { image_ref, reason } => ImageLoadState::Failed {
                image_ref: image_ref.clone(),
                reason: reason.clone(),
            },
        }
    }
}

/// The state `observe` moves to: `Idle` on an empty reference, the same state
/// on an unchanged reference, a fresh `Loading` on a new one.
pub open spec fn observe_next(s: ImageLoadState, image_ref: Option<String>) -> ImageLoadState {
    match image_ref {
        None => ImageLoadState::Idle,
        Some(r) => {
            if s.tracked_ref() == Some(r@) {
                s
            } else {
                ImageLoadState::Loading { image_ref: r }
            }
        },
    }
}

/// The handle `observe` releases: the held one exactly when the new
/// reference no longer names the state that holds it.
pub open spec fn observe_release(s: ImageLoadState, image_ref: Option<String>) -> Option<
    ImageHandle,
> {
    match image_ref {
        None => s.held_handle(),
        Some(r) => {
            if s.tracked_ref() == Some(r@) {
                None
            } else {
                s.held_handle()
            }
        },
    }
}

/// Whether a completion for `done_ref` is still of interest: only a load in
/// flight for that very reference is.
pub open spec fn completion_current(s: ImageLoadState, done_ref: Seq<char>) -> bool {
    match s {
        ImageLoadState::Loading { image_ref } => image_ref@ == done_ref,
        _ => false,
    }
}

/// The state `complete` moves to: the outcome is applied under the staleness
/// guard and discarded otherwise.
pub open spec fn complete_next(
    s: ImageLoadState,
    done_ref: Seq<char>,
    outcome: Result<ImageHandle, String>,
) -> ImageLoadState {
    if completion_current(s, done_ref) {
        match (s, outcome) {
            (ImageLoadState::Loading { image_ref }, Ok(handle)) => ImageLoadState::Ready {
                image_ref,
                handle,
            },
            (ImageLoadState::Loading { image_ref }, Err(reason)) => ImageLoadState::Failed {
                image_ref,
                reason,
            },
            _ => s,
        }
    } else {
        s
    }
}

/// Law: a completion never moves interest. Whatever outcome arrives and for
/// whichever reference, the reference the loader tracks afterwards is the one
/// it tracked before; only `observe` can change it.
pub proof fn lemma_completion_keeps_tracked_ref(
    s: ImageLoadState,
    done_ref: Seq<char>,
    outcome: Result<ImageHandle, String>,
)
    ensures
        complete_next(s, done_ref, outcome).tracked_ref() == s.tracked_ref(),
{
}

/// Law: last-requested-wins. Once a new reference has been requested, the
/// completion of a load for any other reference is discarded: the state stays
/// `Loading` for the new reference, so the compositor can never observe
/// `Ready` for a reference that was superseded before its load finished.
pub proof fn lemma_last_requested_wins(
    s: ImageLoadState,
    new_ref: String,
    stale_ref: Seq<char>,
    outcome: Result<ImageHandle, String>,
)
    requires
        stale_ref != new_ref@,
    ensures
        complete_next(observe_next(s, Some(new_ref)), stale_ref, outcome)
            == observe_next(s, Some(new_ref)),
        complete_release(observe_next(s, Some(new_ref)), stale_ref, outcome)
            == (match outcome {
            Ok(handle) => Some(handle),
            Err(_) => None,
        }),
{
}

/// Law: `Ready` is only ever reached for the reference whose load completed,
/// and only while that very reference was still the one of interest.
pub proof fn lemma_ready_implies_current(
    s: ImageLoadState,
    done_ref: Seq<char>,
    outcome: Result<ImageHandle, String>,
)
    requires
        !(s matches ImageLoadState::Ready { .. }),
        complete_next(s, done_ref, outcome) matches ImageLoadState::Ready { .. },
    ensures
        completion_current(s, done_ref),
        complete_next(s, done_ref, outcome).tracked_ref() == Some(done_ref),
        outcome matches Ok(_),
{
}

/// The handle `complete` releases: one delivered for a stale reference,
/// which no state will ever refer to.
pub open spec fn complete_release(
    s: ImageLoadState,
    done_ref: Seq<char>,
    outcome: Result<ImageHandle, String>,
) -> Option<ImageHandle> {
    if completion_current(s, done_ref) {
        None
    } else {
        match outcome {
            Ok(handle) => Some(handle),
            Err(_) => None,
        }
    }
}

} // verus!
