//! What can fail a discovery cycle.

use vstd::prelude::*;

verus! {

/// Why a service could not be built or a cycle gave no result.
#[derive(Debug, Clone, Copy, PartialEq, Eq, Structural)]
pub enum DiscoveryError {
    /// No backend is configured, or its configuration is incomplete.
    Configuration,
    /// The registration endpoint could not be reached, or answered with
    /// a status that is no success.
    Transport,
    /// The answer of the registration endpoint was no list of submission
    /// records.
    ResponseParse,
    /// The start of the lookback window cannot be written as an object
    /// key.
    WindowOutOfRange,
    /// The event does not belong to the backend that the service uses.
    UnexpectedEvent,
}

/// Why the registration endpoint gave no records.
#[derive(Debug, Clone, Copy, PartialEq, Eq, Structural)]
pub enum FetchFailure {
    /// The request failed, or the status was no success.
    Transport,
    /// The body was no list of submission records.
    Malformed,
}

/// The error of a cycle whose request to the endpoint failed.
pub open spec fn failure_error(failure: FetchFailure) -> DiscoveryError {
    match failure {
        FetchFailure::Transport => DiscoveryError::Transport,
        FetchFailure::Malformed => DiscoveryError::ResponseParse,
    }
}

} // verus!
