//! The server: the pool and the accept loop under one roof, and the
//! shutdown signal that ends them.

use vstd::prelude::*;
use crate::accept::AcceptLoop;
use crate::config::ServerConfig;
use crate::error::{AcceptFailure, BindError, HandlerOutcome, RunError};
use crate::model::{Event, Phase, ServerState};
use crate::pool::{Permit, PermitPool};

verus! {

/// A server whose listener is bound. It owns the permit pool and the accept
/// loop for as long as it lives.
pub struct Server {
    config: ServerConfig,
    pool: PermitPool,
    accept: AcceptLoop,
}

impl View for Server {
    type V = ServerState;

    closed spec fn view(&self) -> ServerState {
        self.accept.with(&self.pool)
    }
}

impl Server {
    /// What the server was started with.
    pub closed spec fn configuration(&self) -> ServerConfig {
        self.config
    }

    /// The server's invariant: that of its state, and of its parts.
    pub closed spec fn wf(&self) -> bool {
        &&& self.pool.wf()
        &&& self.accept.wf()
        &&& self@.inv()
    }

    /// A well-formed server is in a state that meets the invariant.
    pub proof fn lemma_wf_gives_invariant(&self)
        requires
            self.wf(),
        ensures
            self@.inv(),
    {
    }

    /// Makes the server once the listener was bound. `bound` is what the
    /// attempt to bind the configured address gave. A port beyond 65535 is
    /// an invalid address whatever `bound` says; otherwise a failed attempt
    /// is handed on as it is, and nothing is tried again. On success the
    /// pool has `limit_connections` permits, all free, and the accept loop
    /// waits for the first.
    pub fn new(config: ServerConfig, bound: Result<(), BindError>) -> (server: Result<
        Server,
        BindError,
    >)
        ensures
            server is Ok <==> config.port_is_valid() && bound is Ok,
            server matches Ok(s) ==> {
                &&& s.wf()
                &&& s.configuration() == config
                &&& s@ == ServerState::fresh(config.limit_connections as nat)
            },
            server matches Err(error) ==> error == (if !config.port_is_valid() {
                BindError::InvalidAddress
            } else {
                bound->Err_0
            }),
    {
        if !config.has_valid_port() {
            return Err(BindError::InvalidAddress);
        }
        match bound {
            Err(error) => Err(error),
            Ok(_) => Ok(
                Server {
                    config,
                    pool: PermitPool::new(config.limit_connections),
                    accept: AcceptLoop::new(),
                },
            ),
        }
    }

    /// What the server was started with.
    pub fn config(&self) -> (config: ServerConfig)
        ensures
            config == self.configuration(),
    {
        self.config
    }

    /// Where the accept loop stands.
    pub fn phase(&self) -> (phase: Phase)
        ensures
            phase == self@.accept.phase,
    {
        self.accept.phase()
    }

    /// The number of permits the pool was made with.
    pub fn capacity(&self) -> (n: usize)
        ensures
            n == self@.pool.capacity,
    {
        self.pool.capacity()
    }

    /// The number of permits that are free.
    pub fn available(&self) -> (n: usize)
        ensures
            n == self@.pool.available,
    {
        self.pool.available()
    }

    /// The number of connections whose handling has begun and not ended.
    /// It never exceeds the capacity.
    pub fn in_flight(&self) -> (n: usize)
        requires
            self.wf(),
        ensures
            n == self@.in_flight(),
            n <= self@.pool.capacity,
    {
        match self.accept.phase() {
            Phase::WaitingForConnection => self.pool.held() - 1,
            _ => self.pool.held(),
        }
    }

    /// What the run returns: `None` while the accept loop goes on, then
    /// success after a shutdown, or the failure that ended the loop.
    pub fn run_result(&self) -> (result: Option<Result<(), RunError>>)
        ensures
            result == self@.accept.result(),
    {
        self.accept.result()
    }

    /// The accept loop asks for a permit. Returns the phase it is in
    /// afterwards: still waiting for a permit where none is free, waiting
    /// for a connection where it got one, stopped where the pool is closed.
    pub fn poll_permit(&mut self) -> (phase: Phase)
        requires
            old(self).wf(),
            old(self)@.accept.phase == Phase::WaitingForPermit,
        ensures
            final(self).wf(),
            final(self).configuration() == old(self).configuration(),
            final(self)@ == old(self)@.next(Event::PermitPolled),
            phase == final(self)@.accept.phase,
    {
        self.accept.poll_permit(&mut self.pool)
    }

    /// The listener handed out a connection. The permit that comes back is
    /// the one its handler holds until it ends; the connection is in flight
    /// from now on, and the loop waits for the next permit.
    pub fn connection_accepted(&mut self) -> (permit: Permit)
        requires
            old(self).wf(),
            old(self)@.accept.phase == Phase::WaitingForConnection,
        ensures
            final(self).wf(),
            final(self).configuration() == old(self).configuration(),
            final(self)@ == old(self)@.next(Event::ConnectionAccepted),
            final(self)@.in_flight() == old(self)@.in_flight() + 1,
    {
        self.accept.connection_accepted()
    }

    /// The listener failed to hand out a connection. The loop's permit is
    /// free again. A transient failure lets the loop start over; a fatal one
    /// ends the run with `ListenerFailed`.
    pub fn accept_failed(&mut self, failure: AcceptFailure)
        requires
            old(self).wf(),
            old(self)@.accept.phase == Phase::WaitingForConnection,
        ensures
            final(self).wf(),
            final(self).configuration() == old(self).configuration(),
            final(self)@ == old(self)@.next(Event::AcceptFailed(failure)),
            final(self)@.in_flight() == old(self)@.in_flight(),
            final(self)@.accept.result() == (if failure.is_transient() {
                None
            } else {
                Some(Err::<(), RunError>(RunError::ListenerFailed(failure)))
            }),
    {
        self.accept.accept_failed(&mut self.pool, failure);
    }

    /// The handling of a connection ended. However it ended, its permit is
    /// free again, and neither the accept loop nor the run's result is
    /// touched.
    pub fn handler_finished(&mut self, permit: Permit, outcome: HandlerOutcome)
        requires
            old(self).wf(),
            old(self)@.in_flight() > 0,
        ensures
            final(self).wf(),
            final(self).configuration() == old(self).configuration(),
            final(self)@ == old(self)@.next(Event::HandlerFinished(outcome)),
            final(self)@.pool.available == old(self)@.pool.available + 1,
            final(self)@.in_flight() == old(self)@.in_flight() - 1,
            final(self)@.accept == old(self)@.accept,
    {
        self.pool.release(permit);
    }

    /// The shutdown signal fired. A loop that still runs is ended, a permit
    /// in its hands is free again, and the run's result is success. A loop
    /// that ended before keeps the result it ended with. Connections in
    /// flight are left alone. Returns the run's result.
    pub fn shutdown(&mut self) -> (result: Result<(), RunError>)
        requires
            old(self).wf(),
        ensures
            final(self).wf(),
            final(self).configuration() == old(self).configuration(),
            final(self)@ == old(self)@.next(Event::Shutdown),
            final(self)@.accept.phase == Phase::Stopped,
            final(self)@.in_flight() == old(self)@.in_flight(),
            final(self)@.accept.result() == Some(result),
            result == (match old(self)@.accept.result() {
                Some(earlier) => earlier,
                None => Ok(()),
            }),
    {
        self.accept.cancel(&mut self.pool);
        match self.accept.result() {
            Some(result) => result,
            None => Ok(()),
        }
    }

    /// Closes the pool: the accept loop's next request for a permit ends the
    /// run with `PoolClosed`. Permits that are held stay held.
    pub fn close_pool(&mut self)
        requires
            old(self).wf(),
        ensures
            final(self).wf(),
            final(self).configuration() == old(self).configuration(),
            final(self)@ == old(self)@.next(Event::PoolClosed),
    {
        self.pool.close();
    }
}

} // verus!
