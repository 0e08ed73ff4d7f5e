use vstd::prelude::*;

verus! {

/// A fault scoped to a single backend adapter.  It is captured into the
/// scatter result table and never escalates past the orchestrator boundary.
#[derive(Clone, Copy, Debug, PartialEq, Eq, Structural)]
pub enum AdapterError {
    /// The credential for the backend is missing or was rejected.
    Unauthenticated,
    /// The backend could not be reached (network or transport failure).
    Unavailable,
    /// The backend replied in an unexpected shape or with no usable content.
    InvalidResponse,
}

/// A fault in the gateway's own control logic.  These are the only faults
/// that the orchestrator surfaces to its caller.
#[derive(Clone, Copy, Debug, PartialEq, Eq, Structural)]
pub enum GatewayError {
    /// No adapter was selected for the request, so nothing was attempted.
    PreconditionFault,
    /// The persistence write failed, or an internal invariant was violated.
    AggregationFault,
}

/// The wire-level error category handed to the RPC transport.
#[derive(Clone, Copy, Debug, PartialEq, Eq, Structural)]
pub enum StatusCode {
    Unavailable,
    Internal,
    Unknown,
    FailedPrecondition,
}

impl GatewayError {
    /// The RPC status category for a gateway-level fault.
    pub fn status_code(&self) -> (c: StatusCode)
        ensures
            *self == GatewayError::PreconditionFault ==> c == StatusCode::FailedPrecondition,
            *self == GatewayError::AggregationFault ==> c == StatusCode::Internal,
    {
        match self {
            GatewayError::PreconditionFault => StatusCode::FailedPrecondition,
            GatewayError::AggregationFault => StatusCode::Internal,
        }
    }
}

impl AdapterError {
    /// The RPC status category for an adapter-level fault, for callers that
    /// surface a single backend's outcome directly.
    pub fn status_code(&self) -> (c: StatusCode)
        ensures
            *self == AdapterError::Unavailable ==> c == StatusCode::Unavailable,
            *self == AdapterError::Unauthenticated ==> c == StatusCode::Internal,
            *self == AdapterError::InvalidResponse ==> c == StatusCode::Unknown,
    {
        match self {
            AdapterError::Unavailable => StatusCode::Unavailable,
            AdapterError::Unauthenticated => StatusCode::Internal,
            AdapterError::InvalidResponse => StatusCode::Unknown,
        }
    }
}

} // verus!
