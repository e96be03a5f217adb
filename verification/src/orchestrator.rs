//! The orchestrator: the thin façade callers submit work through.
//!
//! It owns the [`WorkerPool`] scheduling state and forwards submissions,
//! reconfiguration and profiling to it. The host binary wraps an orchestrator
//! in its locks, spawns the thread groups the configuration names, and blocks
//! its join calls on the zero-reached condition variable; the readiness of a
//! join is decided here.

use vstd::prelude::*;
use crate::errors::LunaticError;
use crate::request::{AsyncJob, Job, OrchestratorProfile};
use crate::worker::{SchedulerConfig, WorkerPool};

verus! {

/// The façade over the pool's scheduling state.
pub struct Orchestrator {
    scheduler: WorkerPool,
}

impl Orchestrator {
    /// The owned scheduling state.
    pub closed spec fn spec_scheduler(self) -> WorkerPool {
        self.scheduler
    }

    /// An orchestrator over an idle pool with the given configuration.
    pub fn new(cfg: SchedulerConfig) -> (r: Orchestrator)
        ensures
            r.spec_scheduler().wf(),
            r.spec_scheduler().spec_default().pending() == Seq::<u64>::empty(),
            r.spec_scheduler().spec_frame() == Seq::<u64>::empty(),
            r.spec_scheduler().spec_background() == Seq::<u64>::empty(),
            r.spec_scheduler().spec_fg_jobs() == 0,
            r.spec_scheduler().spec_bg_jobs() == 0,
            r.spec_scheduler().running_foreground() == 0,
            r.spec_scheduler().running_background() == 0,
            !r.spec_scheduler().spec_stopping(),
            r.spec_scheduler().spec_default_threads() == (if cfg.default_threads >= 1 {
                cfg.default_threads
            } else {
                1
            }),
            r.spec_scheduler().spec_frame_threads() == (if cfg.frame_threads >= 1 {
                cfg.frame_threads
            } else {
                1
            }),
            r.spec_scheduler().spec_background_threads() == (if cfg.background_threads >= 1 {
                cfg.background_threads
            } else {
                1
            }),
            r.spec_scheduler().spec_async_threads() == (if cfg.async_threads >= 1 {
                cfg.async_threads
            } else {
                1
            }),
    {
        Orchestrator { scheduler: WorkerPool::new(cfg) }
    }

    /// An orchestrator balanced for the detected parallelism, as the host
    /// builds at startup: `p` default threads, `max(1, p/2)` frame threads,
    /// one background thread, `clamp(p, 1, 4)` async workers.
    pub fn with_parallelism(parallelism: usize) -> (r: Orchestrator)
        ensures
            r.spec_scheduler().wf(),
            r.spec_scheduler().spec_fg_jobs() == 0,
            r.spec_scheduler().spec_bg_jobs() == 0,
            r.spec_scheduler().spec_default().pending() == Seq::<u64>::empty(),
            r.spec_scheduler().spec_frame() == Seq::<u64>::empty(),
            r.spec_scheduler().spec_background() == Seq::<u64>::empty(),
            r.spec_scheduler().running_foreground() == 0,
            r.spec_scheduler().running_background() == 0,
            !r.spec_scheduler().spec_stopping(),
            r.spec_scheduler().spec_default_threads() == SchedulerConfig::spec_balanced(
                parallelism,
            ).default_threads,
            r.spec_scheduler().spec_frame_threads() == SchedulerConfig::spec_balanced(
                parallelism,
            ).frame_threads,
            r.spec_scheduler().spec_background_threads() == SchedulerConfig::spec_balanced(
                parallelism,
            ).background_threads,
            r.spec_scheduler().spec_async_threads() == SchedulerConfig::spec_balanced(
                parallelism,
            ).async_threads,
    {
        Orchestrator::new(SchedulerConfig::balanced(parallelism))
    }

    /// Submits a synchronous job; see [`WorkerPool::add_job_post`] for the
    /// exact effect on the pool and when `RenderQueueFull` comes back.
    pub fn submit_job(&mut self, job: Job) -> (r: Result<(), LunaticError>)
        requires
            old(self).spec_scheduler().wf(),
            old(self).spec_scheduler().spec_fg_jobs() < u64::MAX,
            old(self).spec_scheduler().spec_bg_jobs() < u64::MAX,
        ensures
            WorkerPool::add_job_post(
                old(self).spec_scheduler(),
                final(self).spec_scheduler(),
                job,
                r,
            ),
    {
        self.scheduler.add_job(job)
    }

    /// Submits an asynchronous job; see [`WorkerPool::add_job_async_post`].
    pub fn submit_async(&mut self, job: AsyncJob) -> (r: Result<(), LunaticError>)
        requires
            old(self).spec_scheduler().wf(),
            old(self).spec_scheduler().spec_fg_jobs() < u64::MAX,
            old(self).spec_scheduler().spec_bg_jobs() < u64::MAX,
        ensures
            WorkerPool::add_job_async_post(
                old(self).spec_scheduler(),
                final(self).spec_scheduler(),
                job,
                r,
            ),
    {
        self.scheduler.add_job_async(job)
    }

    /// Whether a foreground join may return: no foreground work is in
    /// flight. The host blocks while this is false; when no foreground work
    /// was submitted, it is true at once and the join returns immediately.
    pub fn join_foreground_ready(&self) -> (r: bool)
        ensures
            r == (self.spec_scheduler().spec_fg_jobs() == 0),
    {
        self.scheduler.join_sync_ready()
    }

    /// Whether a full join may return: no work of either class is in flight.
    /// Discouraged outside shutdown, since background work is fire-and-forget.
    pub fn join_all_ready(&self) -> (r: bool)
        ensures
            r == (self.spec_scheduler().spec_fg_jobs() == 0 && self.spec_scheduler().spec_bg_jobs()
                == 0),
    {
        self.scheduler.join_all_ready()
    }

    /// Adopts new thread counts, zeroes clamped to ones; queued work and
    /// counters are preserved across the reconfiguration.
    pub fn set_threads(&mut self, default: usize, frame: usize, background: usize)
        requires
            old(self).spec_scheduler().wf(),
        ensures
            final(self).spec_scheduler().wf(),
            final(self).spec_scheduler().same_work(old(self).spec_scheduler()),
            final(self).spec_scheduler().spec_stopping() == old(self).spec_scheduler()
                .spec_stopping(),
            final(self).spec_scheduler().spec_default_threads() == (if default >= 1 {
                default
            } else {
                1
            }),
            final(self).spec_scheduler().spec_frame_threads() == (if frame >= 1 {
                frame
            } else {
                1
            }),
            final(self).spec_scheduler().spec_background_threads() == (if background >= 1 {
                background
            } else {
                1
            }),
            final(self).spec_scheduler().spec_async_threads() == old(self).spec_scheduler()
                .spec_async_threads(),
    {
        self.scheduler.reconfigure_threads(default, frame, background)
    }

    /// A snapshot of the pool's queue depths and thread count.
    pub fn profile(&self) -> (r: OrchestratorProfile)
        requires
            self.spec_scheduler().spec_default_threads() + self.spec_scheduler()
                .spec_frame_threads() + self.spec_scheduler().spec_background_threads()
                <= u64::MAX,
        ensures
            r.immediate == self.spec_scheduler().spec_default().spec_immediate().len(),
            r.normal == self.spec_scheduler().spec_default().spec_normal().len(),
            r.deferred == self.spec_scheduler().spec_default().spec_deferred().len(),
            r.frame == self.spec_scheduler().spec_frame().len(),
            r.running_tasks == self.spec_scheduler().spec_default_threads()
                + self.spec_scheduler().spec_frame_threads() + self.spec_scheduler()
                .spec_background_threads(),
    {
        self.scheduler.profile()
    }

    /// The pool itself, for the host's worker threads: they pop tickets and
    /// report completions directly on the scheduling state.
    pub fn pool_mut(&mut self) -> (r: &mut WorkerPool)
        ensures
            *r == old(self).spec_scheduler(),
            final(self).spec_scheduler() == *final(r),
    {
        &mut self.scheduler
    }

    /// Read access to the pool, for the host's join and profile paths.
    pub fn pool(&self) -> (r: &WorkerPool)
        ensures
            *r == self.spec_scheduler(),
    {
        &self.scheduler
    }
}

} // verus!
