//! The accept loop: a permit first, then a connection, then the handler
//! gets both and the loop starts over.

use vstd::prelude::*;
use crate::error::{AcceptFailure, AcquireError, RunError};
use crate::model::{Event, LoopState, Phase, ServerState};
use crate::pool::{Permit, PermitPool};

verus! {

/// The accept loop's state. While it waits for a connection it keeps the
/// permit that the connection will be handled under.
pub struct AcceptLoop {
    phase: Phase,
    permit: Option<Permit>,
    failure: Option<RunError>,
}

impl View for AcceptLoop {
    type V = LoopState;

    closed spec fn view(&self) -> LoopState {
        LoopState { phase: self.phase, failure: self.failure }
    }
}

impl AcceptLoop {
    /// Whether the loop has a permit in its hands.
    pub closed spec fn holds_permit(&self) -> bool {
        self.permit is Some
    }

    /// The loop's invariant: it holds a permit exactly while it waits for a
    /// connection, and it has failed only if it has stopped.
    pub open spec fn wf(&self) -> bool {
        &&& self@.wf()
        &&& self.holds_permit() <==> self@.phase == Phase::WaitingForConnection
    }

    /// The loop together with the pool it draws from.
    pub open spec fn with(&self, pool: &PermitPool) -> ServerState {
        ServerState { pool: pool@, accept: self@ }
    }

    /// A loop at its start: it waits for a permit.
    pub fn new() -> (accept: AcceptLoop)
        ensures
            accept.wf(),
            accept@ == LoopState::fresh(),
    {
        AcceptLoop { phase: Phase::WaitingForPermit, permit: None, failure: None }
    }

    /// Where the loop stands.
    pub fn phase(&self) -> (phase: Phase)
        ensures
            phase == self@.phase,
    {
        self.phase
    }

    /// What the run returns: `None` while the loop goes on, then success or
    /// the failure that ended it.
    pub fn result(&self) -> (result: Option<Result<(), RunError>>)
        ensures
            result == self@.result(),
    {
        match self.phase {
            Phase::Stopped => match self.failure {
                Some(error) => Some(Err(error)),
                None => Some(Ok(())),
            },
            _ => None,
        }
    }

    /// Asks the pool for a permit. With a permit the loop goes on to wait
    /// for a connection; with none free it stays where it is, for the caller
    /// to ask again after a release; on a closed pool it stops with
    /// `PoolClosed`. Returns the phase the loop is in afterwards.
    pub fn poll_permit(&mut self, pool: &mut PermitPool) -> (phase: Phase)
        requires
            old(self).wf(),
            old(pool).wf(),
            old(self)@.phase == Phase::WaitingForPermit,
        ensures
            final(self).wf(),
            final(pool).wf(),
            final(self).with(final(pool)) == old(self).with(old(pool)).next(Event::PermitPolled),
            phase == final(self)@.phase,
    {
        match pool.try_acquire() {
            Ok(permit) => {
                self.permit = Some(permit);
                self.phase = Phase::WaitingForConnection;
            },
            Err(AcquireError::NoPermits) => {},
            Err(AcquireError::PoolClosed) => {
                self.failure = Some(RunError::PoolClosed);
                self.phase = Phase::Stopped;
            },
        }
        self.phase
    }

    /// The listener handed out a connection: the loop gives up its permit,
    /// for the connection's handler to hold, and waits for the next permit.
    pub fn connection_accepted(&mut self) -> (permit: Permit)
        requires
            old(self).wf(),
            old(self)@.phase == Phase::WaitingForConnection,
        ensures
            final(self).wf(),
            final(self)@ == LoopState::fresh(),
    {
        let permit = self.permit.take().unwrap();
        self.phase = Phase::WaitingForPermit;
        permit
    }

    /// The listener failed. The loop's permit goes back to the pool. After a
    /// transient failure the loop starts over; after a fatal one it stops
    /// with `ListenerFailed`.
    pub fn accept_failed(&mut self, pool: &mut PermitPool, failure: AcceptFailure)
        requires
            old(self).wf(),
            old(pool).wf(),
            old(self)@.phase == Phase::WaitingForConnection,
            old(pool)@.held() > 0,
        ensures
            final(self).wf(),
            final(pool).wf(),
            final(self).with(final(pool)) == old(self).with(old(pool)).next(
                Event::AcceptFailed(failure),
            ),
    {
        let permit = self.permit.take().unwrap();
        pool.release(permit);
        if failure.transient() {
            self.phase = Phase::WaitingForPermit;
        } else {
            self.failure = Some(RunError::ListenerFailed(failure));
            self.phase = Phase::Stopped;
        }
    }

    /// Ends the loop without failure. A permit that the loop holds goes back
    /// to the pool. A loop that has stopped already stays as it is, with the
    /// result it has.
    pub fn cancel(&mut self, pool: &mut PermitPool)
        requires
            old(self).wf(),
            old(pool).wf(),
            old(self)@.phase == Phase::WaitingForConnection ==> old(pool)@.held() > 0,
        ensures
            final(self).wf(),
            final(pool).wf(),
            final(self).with(final(pool)) == old(self).with(old(pool)).next(Event::Shutdown),
    {
        match self.phase {
            Phase::Stopped => {},
            Phase::WaitingForPermit => {
                self.phase = Phase::Stopped;
            },
            Phase::WaitingForConnection => {
                let permit = self.permit.take().unwrap();
                pool.release(permit);
                self.phase = Phase::Stopped;
            },
        }
    }
}

} // verus!
