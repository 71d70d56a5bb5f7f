//! The admission gate: a fixed number of permits, each held by at most one
//! connection at a time.

use vstd::prelude::*;
use crate::error::AcquireError;

verus! {

/// What a pool is, as numbers: how many permits exist, how many are free,
/// and whether the pool was closed.
pub struct PoolState {
    pub capacity: nat,
    pub available: nat,
    pub closed: bool,
}

/// One operation on a pool.
pub enum PoolOp {
    Acquire,
    Release,
    Close,
}

impl PoolState {
    /// No more permits are free than exist.
    pub open spec fn wf(self) -> bool {
        self.available <= self.capacity
    }

    /// The number of permits that are out of the pool.
    pub open spec fn held(self) -> nat {
        (self.capacity - self.available) as nat
    }

    /// A pool of `capacity` permits, all free, open.
    pub open spec fn fresh(capacity: nat) -> PoolState {
        PoolState { capacity, available: capacity, closed: false }
    }

    /// An acquisition hands out a permit here.
    pub open spec fn grants(self) -> bool {
        !self.closed && self.available > 0
    }

    /// The pool after an acquisition was tried: one permit fewer where one
    /// was granted, the same pool otherwise.
    pub open spec fn acquire(self) -> PoolState {
        if self.grants() {
            PoolState { available: (self.available - 1) as nat, ..self }
        } else {
            self
        }
    }

    /// The pool after one held permit came back. Where none is held the
    /// pool stays as it is.
    pub open spec fn release(self) -> PoolState {
        if self.available < self.capacity {
            PoolState { available: self.available + 1, ..self }
        } else {
            self
        }
    }

    /// The pool after it was closed.
    pub open spec fn close(self) -> PoolState {
        PoolState { closed: true, ..self }
    }

    /// The pool after one operation.
    pub open spec fn apply(self, op: PoolOp) -> PoolState {
        match op {
            PoolOp::Acquire => self.acquire(),
            PoolOp::Release => self.release(),
            PoolOp::Close => self.close(),
        }
    }

    /// The pool after a sequence of operations, first to last.
    pub open spec fn apply_all(self, ops: Seq<PoolOp>) -> PoolState
        decreases ops.len(),
    {
        if ops.len() == 0 {
            self
        } else {
            self.apply_all(ops.drop_last()).apply(ops.last())
        }
    }
}

/// The token of one admitted connection. It cannot be copied, and the only
/// thing to do with it is to give it back.
pub struct Permit {
    token: (),
}

/// A counting gate over a fixed number of permits.
pub struct PermitPool {
    capacity: usize,
    available: usize,
    closed: bool,
}

impl View for PermitPool {
    type V = PoolState;

    closed spec fn view(&self) -> PoolState {
        PoolState {
            capacity: self.capacity as nat,
            available: self.available as nat,
            closed: self.closed,
        }
    }
}

impl PermitPool {
    /// The pool's invariant: free permits never exceed the capacity.
    pub open spec fn wf(&self) -> bool {
        self@.wf()
    }

    /// A pool with `capacity` permits, all of them free.
    pub fn new(capacity: usize) -> (pool: PermitPool)
        ensures
            pool.wf(),
            pool@ == PoolState::fresh(capacity as nat),
    {
        PermitPool { capacity, available: capacity, closed: false }
    }

    /// The number of permits the pool was made with.
    pub fn capacity(&self) -> (n: usize)
        ensures
            n == self@.capacity,
    {
        self.capacity
    }

    /// The number of permits that are free now.
    pub fn available(&self) -> (n: usize)
        ensures
            n == self@.available,
    {
        self.available
    }

    /// The number of permits that are held now.
    pub fn held(&self) -> (n: usize)
        requires
            self.wf(),
        ensures
            n == self@.held(),
            n <= self@.capacity,
    {
        self.capacity - self.available
    }

    /// Whether the pool was closed.
    pub fn is_closed(&self) -> (closed: bool)
        ensures
            closed == self@.closed,
    {
        self.closed
    }

    /// Takes one permit if the pool is open and one is free. A closed pool
    /// answers `PoolClosed` whatever is free; an open pool with nothing free
    /// answers `NoPermits`.
    pub fn try_acquire(&mut self) -> (granted: Result<Permit, AcquireError>)
        requires
            old(self).wf(),
        ensures
            final(self).wf(),
            final(self)@ == old(self)@.acquire(),
            granted is Ok <==> old(self)@.grants(),
            granted == Err::<Permit, AcquireError>(AcquireError::PoolClosed) <==> old(self)@.closed,
            granted == Err::<Permit, AcquireError>(AcquireError::NoPermits) <==> (!old(self)@.closed
                && old(self)@.available == 0),
    {
        if self.closed {
            Err(AcquireError::PoolClosed)
        } else if self.available == 0 {
            Err(AcquireError::NoPermits)
        } else {
            self.available = self.available - 1;
            Ok(Permit { token: () })
        }
    }

    /// Takes a held permit back: one more is free, closed or not.
    pub fn release(&mut self, permit: Permit)
        requires
            old(self).wf(),
            old(self)@.held() > 0,
        ensures
            final(self).wf(),
            final(self)@ == old(self)@.release(),
            final(self)@.available == old(self)@.available + 1,
            final(self)@.held() == old(self)@.held() - 1,
    {
        let Permit { token: _ } = permit;
        self.available = self.available + 1;
    }

    /// Closes the pool: every later acquisition fails. Held permits stay
    /// held until they are released.
    pub fn close(&mut self)
        requires
            old(self).wf(),
        ensures
            final(self).wf(),
            final(self)@ == old(self)@.close(),
    {
        self.closed = true;
    }
}

/// Whatever operations are applied in whatever order, a pool that starts
/// within its capacity stays within it: the capacity never changes, and
/// after every prefix of the operations the number of held permits is at
/// most the capacity.
pub proof fn lemma_capacity_never_exceeded(start: PoolState, ops: Seq<PoolOp>)
    requires
        start.wf(),
    ensures
        forall|k: int|
            0 <= k <= ops.len() ==> {
                let s = #[trigger] start.apply_all(ops.take(k));
                &&& s.wf()
                &&& s.capacity == start.capacity
                &&& s.held() <= start.capacity
                &&& s.held() + s.available == start.capacity
            },
{
    assert forall|k: int| 0 <= k <= ops.len() implies {
        let s = #[trigger] start.apply_all(ops.take(k));
        &&& s.wf()
        &&& s.capacity == start.capacity
        &&& s.held() <= start.capacity
        &&& s.held() + s.available == start.capacity
    } by {
        lemma_apply_all_keeps_capacity(start, ops.take(k));
    }
}

/// A sequence of operations keeps a pool well formed and its capacity fixed.
pub proof fn lemma_apply_all_keeps_capacity(start: PoolState, ops: Seq<PoolOp>)
    requires
        start.wf(),
    ensures
        start.apply_all(ops).wf(),
        start.apply_all(ops).capacity == start.capacity,
    decreases ops.len(),
{
    if ops.len() > 0 {
        lemma_apply_all_keeps_capacity(start, ops.drop_last());
    }
}

/// A release undoes a granted acquisition: the pool is as it was.
pub proof fn lemma_release_undoes_acquire(s: PoolState)
    requires
        s.wf(),
        s.grants(),
    ensures
        s.acquire().release() == s,
{
}

} // verus!
