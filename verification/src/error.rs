//! The failures of the bootstrap, by kind.

use vstd::prelude::*;

verus! {

/// Why the agent gave up. Every failure is fatal: the agent neither retries
/// nor undoes what it has already configured.
#[derive(Clone, Copy, Debug, PartialEq, Eq, Structural, Hash)]
pub enum BootstrapError {
    /// The kernel channel could not be opened or used.
    TransportError,
    /// The kernel refused an address, link or route request.
    ConfigurationRejected,
    /// No interface bears the configured name.
    ResourceNotFound,
    /// The host-channel listener could not be bound.
    BindFailed,
    /// Any failure that fits none of the kinds above.
    UnhandledError,
}

/// What the caller saw go wrong with the operation it was asked to perform.
#[derive(Clone, Copy, Debug, PartialEq, Eq, Structural, Hash)]
pub enum Fault {
    /// The request or its answer did not get through.
    Transport,
    /// The request got through and the other side refused it.
    Rejected,
    /// Anything else.
    Other,
}

} // verus!
