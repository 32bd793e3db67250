//! The run's progress accounting.
//!
//! One aggregator accumulates the byte counts every worker reports
//! and the run's expected totals. All of its operations are
//! monotonic: no step ever decreases a counter, so any snapshot an
//! observer reads is a lower bound of every later one.

use vstd::prelude::*;

verus! {

/// Addition on byte counters, saturating at the largest
/// representable count.
pub open spec fn sat_add(a: u64, b: u64) -> u64 {
    if a + b > u64::MAX {
        u64::MAX
    } else {
        (a + b) as u64
    }
}

/// A point-in-time view of the run's progress.
#[derive(Debug, Clone, Copy, PartialEq, Eq, Structural)]
pub struct ProgressSnapshot {
    /// The bytes the whole run is expected to move.
    pub total_bytes: u64,
    /// The bytes reported as transferred so far.
    pub transferred_bytes: u64,
    /// The tasks that reached a terminal state so far.
    pub completed_tasks: u64,
    /// The tasks of the run.
    pub total_tasks: u64,
}

/// The run's shared progress counters.
pub struct ProgressAggregator {
    /// The bytes the whole run is expected to move.
    pub total_bytes: u64,
    /// The bytes reported as transferred so far.
    pub transferred_bytes: u64,
    /// The tasks that reached a terminal state so far.
    pub completed_tasks: u64,
    /// The tasks of the run.
    pub total_tasks: u64,
}

impl ProgressAggregator {
    /// A fresh aggregator, its denominator set to the total the
    /// prober discovered.
    pub fn new(total_bytes: u64, total_tasks: u64) -> (p: Self)
        ensures
            p.total_bytes == total_bytes,
            p.transferred_bytes == 0,
            p.completed_tasks == 0,
            p.total_tasks == total_tasks,
    {
        ProgressAggregator { total_bytes, transferred_bytes: 0, completed_tasks: 0, total_tasks }
    }

    /// Counts bytes a worker reports as transferred. Monotonic: the
    /// transferred count never decreases and nothing else moves.
    pub fn add_transferred(&mut self, n: u64)
        ensures
            final(self).transferred_bytes == sat_add(old(self).transferred_bytes, n),
            final(self).transferred_bytes >= old(self).transferred_bytes,
            final(self).total_bytes == old(self).total_bytes,
            final(self).completed_tasks == old(self).completed_tasks,
            final(self).total_tasks == old(self).total_tasks,
    {
        if self.transferred_bytes > u64::MAX - n {
            self.transferred_bytes = u64::MAX;
        } else {
            self.transferred_bytes = self.transferred_bytes + n;
        }
    }

    /// Corrects the run's expected total upward when a response
    /// reveals a length the prober missed. Monotonic: the total
    /// never decreases and nothing else moves.
    pub fn raise_total(&mut self, n: u64)
        ensures
            final(self).total_bytes == sat_add(old(self).total_bytes, n),
            final(self).total_bytes >= old(self).total_bytes,
            final(self).transferred_bytes == old(self).transferred_bytes,
            final(self).completed_tasks == old(self).completed_tasks,
            final(self).total_tasks == old(self).total_tasks,
    {
        if self.total_bytes > u64::MAX - n {
            self.total_bytes = u64::MAX;
        } else {
            self.total_bytes = self.total_bytes + n;
        }
    }

    /// Counts one task as terminal. Monotonic: the completed count
    /// never decreases and nothing else moves.
    pub fn task_done(&mut self)
        ensures
            final(self).completed_tasks == sat_add(old(self).completed_tasks, 1),
            final(self).completed_tasks >= old(self).completed_tasks,
            final(self).total_bytes == old(self).total_bytes,
            final(self).transferred_bytes == old(self).transferred_bytes,
            final(self).total_tasks == old(self).total_tasks,
    {
        if self.completed_tasks < u64::MAX {
            self.completed_tasks = self.completed_tasks + 1;
        }
    }

    /// Reads the counters as they stand; an observer may call this
    /// at any time.
    pub fn snapshot(&self) -> (s: ProgressSnapshot)
        ensures
            s.total_bytes == self.total_bytes,
            s.transferred_bytes == self.transferred_bytes,
            s.completed_tasks == self.completed_tasks,
            s.total_tasks == self.total_tasks,
    {
        ProgressSnapshot {
            total_bytes: self.total_bytes,
            transferred_bytes: self.transferred_bytes,
            completed_tasks: self.completed_tasks,
            total_tasks: self.total_tasks,
        }
    }
}

} // verus!
