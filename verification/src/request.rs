//! Work requests: priority classes and the job tickets tagged by them.
//!
//! A job's work itself (a closure, or a future factory) runs in the host
//! binary; here a job is its numeric ticket plus the priority class that
//! decides which queue group and which join counter it belongs to.

use vstd::prelude::*;

verus! {

/// The five scheduling classes.
///
/// `Immediate`, `Normal` and `Deferred` share the default worker group and
/// are served in strict priority order; `VideoFrame` goes to the bounded
/// frame queue (the only queue with backpressure); `Background` work is
/// excluded from the foreground join barrier.
#[derive(Debug, Clone, Copy, PartialEq, Eq, Structural)]
pub enum Priority {
    Immediate,
    Normal,
    Deferred,
    VideoFrame,
    Background,
}

impl Priority {
    /// Whether this class counts against the foreground join barrier.
    pub open spec fn is_foreground(self) -> bool {
        !(self is Background)
    }

    /// Whether this class is served by the default worker group.
    pub open spec fn is_default_class(self) -> bool {
        self is Immediate || self is Normal || self is Deferred
    }

    /// The rank the default group serves by: lower ranks are popped first.
    pub open spec fn rank(self) -> int {
        match self {
            Priority::Immediate => 0,
            Priority::Normal => 1,
            Priority::Deferred => 2,
            Priority::VideoFrame => 3,
            Priority::Background => 4,
        }
    }
}

/// A synchronous unit of work: the ticket the host maps to a single-shot
/// closure, plus its priority class.
#[derive(Debug, Clone, Copy, PartialEq, Eq, Structural)]
pub struct Job {
    pub ticket: u64,
    pub priority: Priority,
}

/// An asynchronous unit of work: the ticket the host maps to a single-shot
/// future factory, plus its priority class.
#[derive(Debug, Clone, Copy, PartialEq, Eq, Structural)]
pub struct AsyncJob {
    pub ticket: u64,
    pub priority: Priority,
}

impl AsyncJob {
    /// A new async job with the default (`Normal`) priority.
    pub fn new(ticket: u64) -> (r: AsyncJob)
        ensures
            r.ticket == ticket,
            r.priority is Normal,
    {
        AsyncJob { ticket, priority: Priority::Normal }
    }

    /// The same job, retagged with the given priority.
    pub fn with_priority(self, priority: Priority) -> (r: AsyncJob)
        ensures
            r.ticket == self.ticket,
            r.priority == priority,
    {
        AsyncJob { ticket: self.ticket, priority }
    }
}

/// A snapshot of the pool: per-sub-queue depths and the number of running
/// worker threads.
#[derive(Debug, Clone, Copy, PartialEq, Eq, Structural)]
pub struct OrchestratorProfile {
    pub immediate: u64,
    pub normal: u64,
    pub deferred: u64,
    pub frame: u64,
    pub running_tasks: u64,
}

} // verus!
