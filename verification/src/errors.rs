use vstd::prelude::*;

verus! {

/// Why a source fetch (the initial query or a continuation) failed.
#[derive(Clone, Copy, Debug, PartialEq, Eq, Structural)]
pub enum SourceError {
    /// Transient transport or server trouble; eligible for a bounded number of retries.
    SourceUnavailable,
    /// The server invalidated the iteration session; fatal, never retried.
    CursorExpired,
    /// The response lacked a required field; fatal, never retried.
    MalformedResponse,
}

impl SourceError {
    /// Only transient transport trouble may be retried.
    pub open spec fn is_transient(self) -> bool {
        self is SourceUnavailable
    }

    /// Executable counterpart of `is_transient`.
    pub fn retryable(&self) -> (r: bool)
        ensures
            r == self.is_transient(),
    {
        matches!(self, SourceError::SourceUnavailable)
    }
}

/// Why a sink flush failed outright. Partial failures are reported as counts
/// on a successful flush, not as an error.
#[derive(Clone, Copy, Debug, PartialEq, Eq, Structural)]
pub enum SinkError {
    /// The sink could not be reached, or answered with no usable body.
    TransportFailure,
}

} // verus!
