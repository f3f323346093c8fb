//! Process-level decisions around the reconciler: the shared event counters,
//! the restart policy for supervised workers, and the liveness check over
//! worker handles.

use vstd::prelude::*;

use crate::reconciler::MetricsDelta;

verus! {

/// A saturating zero-or-one increment.
pub open spec fn bumped(c: u64, inc: bool) -> u64 {
    if inc && c < u64::MAX {
        (c + 1) as u64
    } else {
        c
    }
}

/// The agent's event counters: deliveries looked at, errors, requeues by
/// duration, and completions.
#[derive(Clone, Copy, Debug, PartialEq, Eq, Structural)]
pub struct Metrics {
    pub total: u64,
    pub errors: u64,
    pub requeues_short: u64,
    pub requeues_long: u64,
    pub completed: u64,
}

impl Metrics {
    /// Fresh counters, all zero.
    pub fn new() -> (r: Metrics)
        ensures
            r == (Metrics { total: 0, errors: 0, requeues_short: 0, requeues_long: 0, completed: 0 }),
    {
        Metrics { total: 0, errors: 0, requeues_short: 0, requeues_long: 0, completed: 0 }
    }

    /// Applies the increments of one handled delivery, saturating at the
    /// counter bound.
    pub fn record(&mut self, d: MetricsDelta)
        ensures
            final(self).total == bumped(old(self).total, d.total),
            final(self).errors == bumped(old(self).errors, d.errors),
            final(self).requeues_short == bumped(old(self).requeues_short, d.requeues_short),
            final(self).requeues_long == bumped(old(self).requeues_long, d.requeues_long),
            final(self).completed == bumped(old(self).completed, d.completed),
    {
        if d.total && self.total < u64::MAX {
            self.total = self.total + 1;
        }
        if d.errors && self.errors < u64::MAX {
            self.errors = self.errors + 1;
        }
        if d.requeues_short && self.requeues_short < u64::MAX {
            self.requeues_short = self.requeues_short + 1;
        }
        if d.requeues_long && self.requeues_long < u64::MAX {
            self.requeues_long = self.requeues_long + 1;
        }
        if d.completed && self.completed < u64::MAX {
            self.completed = self.completed + 1;
        }
    }
}

/// Why one pass of a supervised worker ended.
#[derive(Clone, Copy, Debug, PartialEq, Eq, Structural)]
pub enum WorkerFailure {
    /// The shared relational pool timed out: fatal for the worker; the
    /// process is expected to be restarted from outside.
    PoolTimedOut,
    /// Any other failure: log, count, sleep and retry.
    Other,
}

/// The supervisor's restart policy: every failure but a pool timeout is
/// retried after a pause.
pub fn worker_should_restart(f: WorkerFailure) -> (r: bool)
    ensures
        r == (f != WorkerFailure::PoolTimedOut),
{
    match f {
        WorkerFailure::PoolTimedOut => false,
        WorkerFailure::Other => true,
    }
}

/// The process is healthy exactly when every launched worker handle is
/// still alive.
pub fn all_workers_alive(alive: &Vec<bool>) -> (r: bool)
    ensures
        r == (forall|i: int| 0 <= i < alive@.len() ==> alive@[i]),
{
    let mut i: usize = 0;
    while i < alive.len()
        invariant
            i <= alive@.len(),
            forall|j: int| 0 <= j < i ==> alive@[j],
        decreases alive@.len() - i,
    {
        if !alive[i] {
            return false;
        }
        i = i + 1;
    }
    true
}

} // verus!
