//! The run's shared coordination state: the transfer permit pool
//! and the one-way cancellation flag.

use vstd::prelude::*;

verus! {

/// The counting permit pool that bounds simultaneous transfers.
///
/// A worker acquires one permit before its transfer phase and
/// releases it exactly once on every exit path. The pool never
/// grants more permits than its bound, so no more than `limit`
/// transfers are ever active at once.
pub struct ConcurrencyLimiter {
    /// The number of permits that may be out at once.
    pub limit: usize,
    /// The permits currently out.
    pub active: usize,
}

impl ConcurrencyLimiter {
    /// The pool's invariant: the permits out never exceed the bound.
    pub open spec fn wf(self) -> bool {
        &&& self.active <= self.limit
        &&& self.limit >= 1
    }

    /// A fresh pool of `limit` permits.
    pub fn new(limit: usize) -> (l: Self)
        requires
            limit >= 1,
        ensures
            l.wf(),
            l.limit == limit,
            l.active == 0,
    {
        ConcurrencyLimiter { limit, active: 0 }
    }

    /// Grants a permit when one is free. A grant is given exactly
    /// when the pool is not full, so the active count never passes
    /// the bound.
    pub fn try_acquire(&mut self) -> (granted: bool)
        requires
            old(self).wf(),
        ensures
            final(self).wf(),
            final(self).limit == old(self).limit,
            granted <==> old(self).active < old(self).limit,
            granted ==> final(self).active == old(self).active + 1,
            !granted ==> final(self).active == old(self).active,
            final(self).active <= final(self).limit,
    {
        if self.active < self.limit {
            self.active = self.active + 1;
            true
        } else {
            false
        }
    }

    /// Returns a permit. Each worker holds at most one, so a release
    /// always follows its own acquire.
    pub fn release(&mut self)
        requires
            old(self).wf(),
            old(self).active >= 1,
        ensures
            final(self).wf(),
            final(self).limit == old(self).limit,
            final(self).active == old(self).active - 1,
    {
        self.active = self.active - 1;
    }
}

/// The run's one-way cancellation flag.
///
/// It is set at most once per run and never cleared: no method of
/// this type can make `cancelled` false again. Setting it when it
/// is already set is a no-op. Every worker reads this one flag at
/// each of its suspension points; no worker holds private
/// cancellation state.
pub struct CancellationController {
    /// Whether cancellation has been signalled.
    pub cancelled: bool,
}

impl CancellationController {
    /// A fresh, unsignalled flag for one run.
    pub fn new() -> (c: Self)
        ensures
            !c.cancelled,
    {
        CancellationController { cancelled: false }
    }

    /// Signals cancellation for the rest of the run. Idempotent and
    /// one-way: after this call the flag is set, whatever it was.
    pub fn cancel(&mut self)
        ensures
            final(self).cancelled,
    {
        self.cancelled = true;
    }

    /// Reads the flag; any number of workers may do so at any time.
    pub fn is_cancelled(&self) -> (r: bool)
        ensures
            r == self.cancelled,
    {
        self.cancelled
    }
}

} // verus!
