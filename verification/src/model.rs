//! The front end as a transition system: its states, the events that move
//! it, and what holds of every run.

use vstd::prelude::*;
use crate::error::{AcceptFailure, HandlerOutcome, RunError};
use crate::pool::PoolState;

verus! {

/// Where the accept loop stands.
#[derive(Clone, Copy, Debug, PartialEq, Eq, Structural)]
pub enum Phase {
    /// It holds no permit and asks the pool for one.
    WaitingForPermit,
    /// It holds a permit and waits for the listener to hand out a connection.
    WaitingForConnection,
    /// It has ended and accepts nothing more.
    Stopped,
}

/// The accept loop: its phase and, once it failed, why.
pub struct LoopState {
    pub phase: Phase,
    pub failure: Option<RunError>,
}

impl LoopState {
    /// A loop that has not stopped has not failed.
    pub open spec fn wf(self) -> bool {
        self.failure is Some ==> self.phase == Phase::Stopped
    }

    /// The loop at its start.
    pub open spec fn fresh() -> LoopState {
        LoopState { phase: Phase::WaitingForPermit, failure: None }
    }

    /// A loop that ended without failure.
    pub open spec fn stopped_clean() -> LoopState {
        LoopState { phase: Phase::Stopped, failure: None }
    }

    /// A loop that ended with `error`.
    pub open spec fn stopped_with(error: RunError) -> LoopState {
        LoopState { phase: Phase::Stopped, failure: Some(error) }
    }

    /// What a run returns: nothing while the loop goes on, then success or
    /// the failure that ended it.
    pub open spec fn result(self) -> Option<Result<(), RunError>> {
        if self.phase == Phase::Stopped {
            match self.failure {
                Some(error) => Some(Err(error)),
                None => Some(Ok(())),
            }
        } else {
            None
        }
    }
}

/// What can happen to the front end.
pub enum Event {
    /// The accept loop asked the pool for a permit.
    PermitPolled,
    /// The listener handed out a connection.
    ConnectionAccepted,
    /// The listener failed to hand out a connection.
    AcceptFailed(AcceptFailure),
    /// The handling of one connection ended.
    HandlerFinished(HandlerOutcome),
    /// The shutdown signal fired.
    Shutdown,
    /// The pool was closed.
    PoolClosed,
}

/// The whole front end: the pool and the accept loop.
pub struct ServerState {
    pub pool: PoolState,
    pub accept: LoopState,
}

impl ServerState {
    /// The front end at its start, with `capacity` permits.
    pub open spec fn fresh(capacity: nat) -> ServerState {
        ServerState { pool: PoolState::fresh(capacity), accept: LoopState::fresh() }
    }

    /// Whether the accept loop itself holds a permit.
    pub open spec fn loop_holds_permit(self) -> bool {
        self.accept.phase == Phase::WaitingForConnection
    }

    /// The number of connections whose handling has begun and not ended:
    /// the held permits but the one in the accept loop's hands.
    pub open spec fn in_flight(self) -> nat {
        if self.loop_holds_permit() {
            (self.pool.held() - 1) as nat
        } else {
            self.pool.held()
        }
    }

    /// What holds of every state the front end reaches: the pool is within
    /// its capacity, and a loop that waits for a connection holds one of the
    /// permits that are out.
    pub open spec fn inv(self) -> bool {
        &&& self.pool.wf()
        &&& self.accept.wf()
        &&& self.loop_holds_permit() ==> self.pool.held() >= 1
    }

    /// The state after one event. An event that does not fit the state
    /// leaves it as it is.
    pub open spec fn next(self, event: Event) -> ServerState {
        match event {
            Event::PermitPolled => {
                if self.accept.phase != Phase::WaitingForPermit {
                    self
                } else if self.pool.closed {
                    ServerState { accept: LoopState::stopped_with(RunError::PoolClosed), ..self }
                } else if self.pool.available > 0 {
                    ServerState {
                        pool: self.pool.acquire(),
                        accept: LoopState { phase: Phase::WaitingForConnection, failure: None },
                    }
                } else {
                    self
                }
            },
            Event::ConnectionAccepted => {
                if self.accept.phase == Phase::WaitingForConnection {
                    ServerState { accept: LoopState::fresh(), ..self }
                } else {
                    self
                }
            },
            Event::AcceptFailed(failure) => {
                if self.accept.phase != Phase::WaitingForConnection {
                    self
                } else if failure.is_transient() {
                    ServerState { pool: self.pool.release(), accept: LoopState::fresh() }
                } else {
                    ServerState {
                        pool: self.pool.release(),
                        accept: LoopState::stopped_with(RunError::ListenerFailed(failure)),
                    }
                }
            },
            Event::HandlerFinished(_) => {
                if self.in_flight() > 0 {
                    ServerState { pool: self.pool.release(), ..self }
                } else {
                    self
                }
            },
            Event::Shutdown => {
                match self.accept.phase {
                    Phase::Stopped => self,
                    Phase::WaitingForPermit => ServerState {
                        accept: LoopState::stopped_clean(),
                        ..self
                    },
                    Phase::WaitingForConnection => ServerState {
                        pool: self.pool.release(),
                        accept: LoopState::stopped_clean(),
                    },
                }
            },
            Event::PoolClosed => ServerState { pool: self.pool.close(), ..self },
        }
    }

    /// The state after a sequence of events, first to last.
    pub open spec fn run(self, events: Seq<Event>) -> ServerState
        decreases events.len(),
    {
        if events.len() == 0 {
            self
        } else {
            self.run(events.drop_last()).next(events.last())
        }
    }
}

/// One event keeps the invariant and the capacity.
pub proof fn lemma_next_keeps_invariant(s: ServerState, event: Event)
    requires
        s.inv(),
    ensures
        s.next(event).inv(),
        s.next(event).pool.capacity == s.pool.capacity,
{
}

/// Any sequence of events keeps the invariant and the capacity.
pub proof fn lemma_run_keeps_invariant(s: ServerState, events: Seq<Event>)
    requires
        s.inv(),
    ensures
        s.run(events).inv(),
        s.run(events).pool.capacity == s.pool.capacity,
    decreases events.len(),
{
    if events.len() > 0 {
        lemma_run_keeps_invariant(s, events.drop_last());
        lemma_next_keeps_invariant(s.run(events.drop_last()), events.last());
    }
}

/// The capacity bounds the front end at every moment: whatever happens in
/// whatever order, after each event the permits that are out, and so the
/// connections in flight, are at most the capacity the pool was made with.
pub proof fn lemma_capacity_bounds_every_run(s: ServerState, events: Seq<Event>)
    requires
        s.inv(),
    ensures
        forall|k: int|
            0 <= k <= events.len() ==> {
                let t = #[trigger] s.run(events.take(k));
                &&& t.inv()
                &&& t.pool.capacity == s.pool.capacity
                &&& t.pool.held() <= s.pool.capacity
                &&& t.in_flight() <= s.pool.capacity
                &&& t.pool.held() + t.pool.available == s.pool.capacity
            },
{
    assert forall|k: int| 0 <= k <= events.len() implies {
        let t = #[trigger] s.run(events.take(k));
        &&& t.inv()
        &&& t.pool.capacity == s.pool.capacity
        &&& t.pool.held() <= s.pool.capacity
        &&& t.in_flight() <= s.pool.capacity
        &&& t.pool.held() + t.pool.available == s.pool.capacity
    } by {
        lemma_run_keeps_invariant(s, events.take(k));
    }
}

/// However the handling of a connection ends, its permit comes back once:
/// one more permit is free, one connection fewer is in flight, and the
/// accept loop is where it was.
pub proof fn lemma_every_outcome_returns_the_permit(s: ServerState, outcome: HandlerOutcome)
    requires
        s.inv(),
        s.in_flight() > 0,
    ensures
        s.next(Event::HandlerFinished(outcome)).pool.available == s.pool.available + 1,
        s.next(Event::HandlerFinished(outcome)).in_flight() == s.in_flight() - 1,
        s.next(Event::HandlerFinished(outcome)).accept == s.accept,
        s.next(Event::HandlerFinished(outcome)).pool.closed == s.pool.closed,
{
}

/// A handler that ends, however it ends, frees the way for the next
/// connection: where the loop was waiting on an open pool with nothing
/// free, its next request for a permit is granted.
pub proof fn lemma_finished_handler_admits_the_next(s: ServerState, outcome: HandlerOutcome)
    requires
        s.inv(),
        s.in_flight() > 0,
        s.accept.phase == Phase::WaitingForPermit,
        !s.pool.closed,
    ensures
        s.next(Event::HandlerFinished(outcome)).next(Event::PermitPolled).accept.phase
            == Phase::WaitingForConnection,
        s.next(Event::HandlerFinished(outcome)).next(Event::PermitPolled).accept.result() is None,
{
}

/// A stopped front end stays stopped: whatever happens later, its result
/// stands and no further connection is admitted.
pub proof fn lemma_stopped_is_final(s: ServerState, later: Seq<Event>)
    requires
        s.inv(),
        s.accept.phase == Phase::Stopped,
    ensures
        s.run(later).accept == s.accept,
        s.run(later).in_flight() <= s.in_flight(),
    decreases later.len(),
{
    if later.len() > 0 {
        lemma_stopped_is_final(s, later.drop_last());
        lemma_run_keeps_invariant(s, later.drop_last());
    }
}

/// Shutdown wins over waiting: if the signal fires while the loop waits for
/// a permit or for a connection, the run ends in success, and whatever
/// happens afterwards it stays so and admits no further connection.
pub proof fn lemma_shutdown_takes_precedence(s: ServerState, later: Seq<Event>)
    requires
        s.inv(),
        s.accept.phase != Phase::Stopped,
    ensures
        s.next(Event::Shutdown).accept.result() == Some(Ok::<(), RunError>(())),
        s.next(Event::Shutdown).in_flight() == s.in_flight(),
        s.next(Event::Shutdown).run(later).accept.result() == Some(Ok::<(), RunError>(())),
        s.next(Event::Shutdown).run(later).in_flight() <= s.in_flight(),
{
    lemma_next_keeps_invariant(s, Event::Shutdown);
    lemma_stopped_is_final(s.next(Event::Shutdown), later);
}

/// A fatal failure of the listener ends the run with that failure, and
/// nothing that happens afterwards changes the result.
pub proof fn lemma_fatal_failure_propagates(
    s: ServerState,
    failure: AcceptFailure,
    later: Seq<Event>,
)
    requires
        s.inv(),
        s.accept.phase == Phase::WaitingForConnection,
        !failure.is_transient(),
    ensures
        s.next(Event::AcceptFailed(failure)).accept.result() == Some(
            Err::<(), RunError>(RunError::ListenerFailed(failure)),
        ),
        s.next(Event::AcceptFailed(failure)).run(later).accept.result() == Some(
            Err::<(), RunError>(RunError::ListenerFailed(failure)),
        ),
{
    lemma_next_keeps_invariant(s, Event::AcceptFailed(failure));
    lemma_stopped_is_final(s.next(Event::AcceptFailed(failure)), later);
}

/// What goes wrong with one connection never ends the run: a transient
/// accept failure and a finished handler, however it finished, leave the
/// result open where it was open.
pub proof fn lemma_connection_failures_stay_local(s: ServerState, event: Event)
    requires
        s.inv(),
        s.accept.result() is None,
        match event {
            Event::AcceptFailed(failure) => failure.is_transient(),
            Event::HandlerFinished(_) => true,
            _ => false,
        },
    ensures
        s.next(event).accept.result() is None,
{
}

} // verus!
