//! The failures the front end tells apart.

use vstd::prelude::*;

verus! {

/// Why no permit was handed out.
#[derive(Clone, Copy, Debug, PartialEq, Eq, Structural)]
pub enum AcquireError {
    /// Every permit is held: the caller waits for a release.
    NoPermits,
    /// The pool was closed: no permit will ever be handed out again.
    PoolClosed,
}

/// Why `accept` on the listener failed.
#[derive(Clone, Copy, Debug, PartialEq, Eq, Structural)]
pub enum AcceptFailure {
    /// The peer reset the connection before it was accepted.
    ConnectionReset,
    /// The connection was aborted before it was accepted.
    ConnectionAborted,
    /// The call was interrupted and can be made again.
    Interrupted,
    /// The listener is closed.
    ListenerClosed,
    /// Any other failure of the operating system.
    Os,
}

impl AcceptFailure {
    /// A transient failure concerns one connection only: the listener is
    /// still good. Resets, aborts and interruptions are transient; a closed
    /// listener and every other failure are fatal.
    pub open spec fn is_transient(self) -> bool {
        self == AcceptFailure::ConnectionReset || self == AcceptFailure::ConnectionAborted || self
            == AcceptFailure::Interrupted
    }

    /// Whether the accept loop goes on after this failure.
    pub fn transient(&self) -> (t: bool)
        ensures
            t == self.is_transient(),
    {
        match self {
            AcceptFailure::ConnectionReset => true,
            AcceptFailure::ConnectionAborted => true,
            AcceptFailure::Interrupted => true,
            AcceptFailure::ListenerClosed => false,
            AcceptFailure::Os => false,
        }
    }
}

/// Why a run of the server ended in failure.
#[derive(Clone, Copy, Debug, PartialEq, Eq, Structural)]
pub enum RunError {
    /// The listener failed for good while accepting.
    ListenerFailed(AcceptFailure),
    /// The permit pool was closed under the accept loop.
    PoolClosed,
}

/// Why the listener could not be bound at startup.
#[derive(Clone, Copy, Debug, PartialEq, Eq, Structural)]
pub enum BindError {
    /// Another socket holds the port.
    PortInUse,
    /// The process may not bind the port.
    PermissionDenied,
    /// The address is no address: the port is beyond 65535, or the system
    /// has no such address.
    InvalidAddress,
    /// Any other failure of the operating system.
    Other,
}

/// Why the handling of one connection failed.
#[derive(Clone, Copy, Debug, PartialEq, Eq, Structural)]
pub enum HandlerError {
    /// Reading from or writing to the connection failed.
    Io,
    /// The peer sent what the protocol does not allow.
    Protocol,
}

/// How the handling of one connection ended.
#[derive(Clone, Copy, Debug, PartialEq, Eq, Structural)]
pub enum HandlerOutcome {
    /// The exchange was completed.
    Completed,
    /// The handler returned an error.
    Failed(HandlerError),
    /// The handler's task ended without returning.
    Aborted,
}

impl HandlerOutcome {
    /// The outcome of a handler that returned `result`.
    pub fn of(result: Result<(), HandlerError>) -> (outcome: HandlerOutcome)
        ensures
            outcome == (match result {
                Ok(_) => HandlerOutcome::Completed,
                Err(e) => HandlerOutcome::Failed(e),
            }),
    {
        match result {
            Ok(_) => HandlerOutcome::Completed,
            Err(e) => HandlerOutcome::Failed(e),
        }
    }
}

} // verus!
