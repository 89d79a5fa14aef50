//! The camera-stream acquisition state machine. Acquisition runs exactly once
//! per page lifetime, independently of the control state: once granted, the
//! stream handle is stable and never re-requested; a denial is a reported,
//! non-fatal condition that leaves the video layer blank.

use vstd::prelude::*;

verus! {

/// An opaque identifier for a live video source held by the rendering host.
pub type StreamHandle = u64;

/// The one process-wide acquisition state.
pub enum StreamState {
    /// Capture has not been asked for yet.
    NotRequested,
    /// A capture request is pending; it resolves or is denied, with no
    /// cancellation path.
    Requesting,
    /// Capture was granted; the handle is attached once and kept for the
    /// page's lifetime.
    Granted { handle: StreamHandle },
    /// Capture was refused; the video sink stays blank and the overlay still
    /// functions.
    Denied { reason: String },
}

impl StreamState {
    /// Whether acquisition has reached its terminal state.
    pub open spec fn settled(self) -> bool {
        match self {
            StreamState::Granted { .. } => true,
            StreamState::Denied { .. } => true,
            _ => false,
        }
    }

    /// Starts the single capture request: only the very first call moves the
    /// state, to `Requesting`; any later call leaves it unchanged, so the
    /// camera is never asked for twice.
    pub fn begin_request(&self) -> (next: Self)
        ensures
            next == begin_request_next(*self),
    {
        match self {
            StreamState::NotRequested => StreamState::Requesting,
            _ => self.duplicate(),
        }
    }

    /// Applies the outcome of the capture request. Only a pending request is
    /// moved, to `Granted` on success and to `Denied` on refusal; a settled
    /// state is stable and never overwritten.
    pub fn resolve(&self, outcome: Result<StreamHandle, String>) -> (next: Self)
        ensures
            next == resolve_next(*self, outcome),
    {
        match self {
            StreamState::Requesting => {
                match outcome {
                    Ok(handle) => StreamState::Granted { handle },
                    Err(reason) => StreamState::Denied { reason },
                }
            },
            _ => self.duplicate(),
        }
    }

    /// Copies this state, keeping its value.
    pub fn duplicate(&self) -> (c: Self)
        ensures
            c == *self,
    {
        match self {
            StreamState::NotRequested => StreamState::NotRequested,
            StreamState::Requesting => StreamState::Requesting,
            StreamState::Granted { handle } => StreamState::Granted { handle: *handle },
            StreamState::Denied { reason } => StreamState::Denied { reason: reason.clone() },
        }
    }
}

/// The state `begin_request` moves to.
pub open spec fn begin_request_next(s: StreamState) -> StreamState {
    match s {
        StreamState::NotRequested => StreamState::Requesting,
        _ => s,
    }
}

/// The state `resolve` moves to.
pub open spec fn resolve_next(s: StreamState, outcome: Result<StreamHandle, String>) -> StreamState {
    match s {
        StreamState::Requesting => {
            match outcome {
                Ok(handle) => StreamState::Granted { handle },
                Err(reason) => StreamState::Denied { reason },
            }
        },
        _ => s,
    }
}

/// Law: a granted stream is stable for the page's lifetime. Neither starting
/// a request again nor a late resolution moves a settled state, so the handle
/// attached on grant is never replaced or re-requested.
pub proof fn lemma_settled_state_is_stable(s: StreamState, outcome: Result<StreamHandle, String>)
    requires
        s.settled(),
    ensures
        begin_request_next(s) == s,
        resolve_next(s, outcome) == s,
{
}

} // verus!
