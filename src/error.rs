use vstd::prelude::*;

verus! {

/// The ways in which negotiating or managing a presentable image chain fails.
#[derive(Clone, Copy, Debug, PartialEq, Eq, Structural)]
pub enum SwapchainError {
    /// A capability query against the device and surface failed.
    QueryError,
    /// The platform reported no option where it guarantees at least one.
    NegotiationError,
    /// A required input, such as a queue family index, was missing.
    PreconditionError,
    /// The platform refused to allocate the chain.
    CreationError,
    /// Tearing down and rebuilding the chain failed partway.
    RecreationError,
    /// The operation is not allowed in the manager's current state.
    InvalidStateError,
}

} // verus!
