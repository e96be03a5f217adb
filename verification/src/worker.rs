//! The worker pool's scheduling state.
//!
//! Three queue groups hold submitted-but-not-started tickets: a triple of
//! FIFO sub-queues served in strict priority order for the default classes, a
//! bounded ring for video-frame work (the only queue with backpressure), and
//! an unbounded FIFO for background work. Two counters track
//! submitted-but-not-completed work, foreground and background; they are what
//! the join protocol reads, and they are incremented before a ticket is
//! enqueued so a racing joiner never observes zero while a task is in flight.
//!
//! The host binary drives this state from its worker threads: pop a ticket,
//! run the work it stands for, then report completion; the completion report
//! says whether the counter just reached zero, which is when the host must
//! broadcast its zero-reached condition variable.

use vstd::prelude::*;
use std::collections::VecDeque;
use crate::errors::LunaticError;
use crate::request::{Job, AsyncJob, OrchestratorProfile, Priority};

verus! {

broadcast use vstd::std_specs::vecdeque::group_vec_dequeue_axioms;

/// The fixed capacity of the video-frame ring: late frames are preferable to
/// unbounded latency, so pushes beyond this fail instead of queueing.
pub const FRAME_QUEUE_CAPACITY: usize = 1024;

/// The three FIFO sub-queues of the default worker group, served in strict
/// priority order: immediate before normal before deferred.
pub struct PriorityQueues {
    immediate: VecDeque<u64>,
    normal: VecDeque<u64>,
    deferred: VecDeque<u64>,
}

impl PriorityQueues {
    /// The immediate sub-queue, front first.
    pub closed spec fn spec_immediate(self) -> Seq<u64> {
        self.immediate@
    }

    /// The normal sub-queue, front first.
    pub closed spec fn spec_normal(self) -> Seq<u64> {
        self.normal@
    }

    /// The deferred sub-queue, front first.
    pub closed spec fn spec_deferred(self) -> Seq<u64> {
        self.deferred@
    }

    /// Every queued ticket, in the exact order repeated pops drain them:
    /// the whole immediate queue, then the normal one, then the deferred one.
    pub open spec fn pending(self) -> Seq<u64> {
        self.spec_immediate() + self.spec_normal() + self.spec_deferred()
    }

    /// The sub-queue a default-class priority routes to.
    pub open spec fn queue_of(self, p: Priority) -> Seq<u64> {
        match p {
            Priority::Immediate => self.spec_immediate(),
            Priority::Normal => self.spec_normal(),
            Priority::Deferred => self.spec_deferred(),
            _ => Seq::empty(),
        }
    }

    /// The class the next pop will serve: the highest-priority non-empty
    /// sub-queue.
    pub open spec fn next_pop_class(self) -> Option<Priority> {
        if self.spec_immediate().len() > 0 {
            Some(Priority::Immediate)
        } else if self.spec_normal().len() > 0 {
            Some(Priority::Normal)
        } else if self.spec_deferred().len() > 0 {
            Some(Priority::Deferred)
        } else {
            None
        }
    }

    pub fn new() -> (r: PriorityQueues)
        ensures
            r.spec_immediate() == Seq::<u64>::empty(),
            r.spec_normal() == Seq::<u64>::empty(),
            r.spec_deferred() == Seq::<u64>::empty(),
            r.pending() == Seq::<u64>::empty(),
    {
        let r = PriorityQueues {
            immediate: VecDeque::new(),
            normal: VecDeque::new(),
            deferred: VecDeque::new(),
        };
        proof {
            assert(r.pending() =~= Seq::<u64>::empty());
        }
        r
    }

    /// Appends a ticket at the back of the sub-queue its class routes to.
    /// Frame and background work never lands here: those classes have queues
    /// of their own.
    pub fn push(&mut self, p: Priority, task: u64)
        requires
            p.is_default_class(),
        ensures
            final(self).queue_of(p) == old(self).queue_of(p).push(task),
            p is Immediate ==> final(self).spec_normal() == old(self).spec_normal()
                && final(self).spec_deferred() == old(self).spec_deferred(),
            p is Normal ==> final(self).spec_immediate() == old(self).spec_immediate()
                && final(self).spec_deferred() == old(self).spec_deferred(),
            p is Deferred ==> final(self).spec_immediate() == old(self).spec_immediate()
                && final(self).spec_normal() == old(self).spec_normal(),
            final(self).pending().len() == old(self).pending().len() + 1,
    {
        match p {
            Priority::Immediate => self.immediate.push_back(task),
            Priority::Normal => self.normal.push_back(task),
            Priority::Deferred => self.deferred.push_back(task),
            Priority::VideoFrame => (),
            Priority::Background => (),
        }
    }

    /// The exact effect of [`Self::pop`]: the front of the highest-priority
    /// non-empty sub-queue comes out — equivalently, the head of
    /// [`Self::pending`] — and only that sub-queue loses its front.
    pub open spec fn pop_post(pre: PriorityQueues, post: PriorityQueues, r: Option<u64>) -> bool {
        &&& (pre.pending().len() == 0 ==> {
            &&& r is None
            &&& post.spec_immediate() == pre.spec_immediate()
            &&& post.spec_normal() == pre.spec_normal()
            &&& post.spec_deferred() == pre.spec_deferred()
        })
        &&& (pre.pending().len() > 0 ==> {
            &&& r == Some(pre.pending()[0])
            &&& post.pending() == pre.pending().skip(1)
        })
        &&& (pre.spec_immediate().len() > 0 ==> {
            &&& r == Some(pre.spec_immediate()[0])
            &&& post.spec_immediate() == pre.spec_immediate().skip(1)
            &&& post.spec_normal() == pre.spec_normal()
            &&& post.spec_deferred() == pre.spec_deferred()
        })
        &&& (pre.spec_immediate().len() == 0 && pre.spec_normal().len() > 0 ==> {
            &&& r == Some(pre.spec_normal()[0])
            &&& post.spec_immediate() == pre.spec_immediate()
            &&& post.spec_normal() == pre.spec_normal().skip(1)
            &&& post.spec_deferred() == pre.spec_deferred()
        })
        &&& (pre.spec_immediate().len() == 0 && pre.spec_normal().len() == 0
            && pre.spec_deferred().len() > 0 ==> {
            &&& r == Some(pre.spec_deferred()[0])
            &&& post.spec_immediate() == pre.spec_immediate()
            &&& post.spec_normal() == pre.spec_normal()
            &&& post.spec_deferred() == pre.spec_deferred().skip(1)
        })
    }

    /// Pops the front of the highest-priority non-empty sub-queue; `None`
    /// when all three are empty. Equivalently: takes the head of
    /// [`Self::pending`], so repeated pops drain pending order exactly.
    pub fn pop(&mut self) -> (r: Option<u64>)
        ensures
            PriorityQueues::pop_post(*old(self), *final(self), r),
    {
        let ghost pre = *self;
        if let Some(task) = self.immediate.pop_front() {
            proof {
                assert(final(self).pending() =~= pre.pending().skip(1));
            }
            Some(task)
        } else if let Some(task) = self.normal.pop_front() {
            proof {
                assert(pre.pending()[0] == pre.spec_normal()[0]);
                assert(final(self).pending() =~= pre.pending().skip(1));
            }
            Some(task)
        } else if let Some(task) = self.deferred.pop_front() {
            proof {
                assert(pre.pending()[0] == pre.spec_deferred()[0]);
                assert(final(self).pending() =~= pre.pending().skip(1));
            }
            Some(task)
        } else {
            proof {
                assert(pre.pending().len() == 0);
            }
            None
        }
    }

    /// Whether all three sub-queues are empty.
    pub fn is_empty(&self) -> (r: bool)
        ensures
            r == (self.pending().len() == 0),
    {
        self.immediate.len() == 0 && self.normal.len() == 0 && self.deferred.len() == 0
    }

    /// The three sub-queue depths: immediate, normal, deferred.
    pub fn lens(&self) -> (r: (usize, usize, usize))
        ensures
            r.0 == self.spec_immediate().len(),
            r.1 == self.spec_normal().len(),
            r.2 == self.spec_deferred().len(),
    {
        (self.immediate.len(), self.normal.len(), self.deferred.len())
    }
}

/// Strict priority at queue level: while a default sub-queue is non-empty,
/// the next pop serves it or a strictly higher-priority sub-queue. No claim
/// is made about work already running on a worker thread.
pub proof fn lemma_next_pop_priority(q: PriorityQueues, p: Priority)
    requires
        p.is_default_class(),
        q.queue_of(p).len() > 0,
    ensures
        q.next_pop_class() is Some,
        q.next_pop_class().unwrap().rank() <= p.rank(),
{
}

/// FIFO drain at queue level: a worker that pops twice in a row gets the two
/// oldest pending tickets in their pending order. A sub-queue's pending order
/// is its submission order (pushes append at the back), so with exactly one
/// worker the start order — and hence the completion order — within a
/// sub-queue respects submission order; with several workers only the start
/// order does.
pub proof fn lemma_single_worker_drains_in_order(
    q0: PriorityQueues,
    q1: PriorityQueues,
    q2: PriorityQueues,
    first: Option<u64>,
    second: Option<u64>,
)
    requires
        PriorityQueues::pop_post(q0, q1, first),
        PriorityQueues::pop_post(q1, q2, second),
        q0.pending().len() >= 2,
    ensures
        first == Some(q0.pending()[0]),
        second == Some(q0.pending()[1]),
{
    assert(q1.pending() == q0.pending().skip(1));
    assert(q1.pending()[0] == q0.pending()[1]);
}

/// The bounded FIFO ring that carries video-frame tickets. Backed by
/// `crossbeam_queue::ArrayQueue`, whose operations mutate through `&self`;
/// the queue is therefore held opaquely and described by
/// [`frame_ring_tasks`] and [`frame_ring_capacity`], with every operation
/// exposed through a method that takes the ring exclusively.
#[verifier::external_body]
pub struct FrameRing {
    ring: crossbeam_queue::ArrayQueue<u64>,
}

/// The tickets the ring holds, front (next to pop) first.
pub uninterp spec fn frame_ring_tasks(q: FrameRing) -> Seq<u64>;

/// The fixed capacity the ring was created with.
pub uninterp spec fn frame_ring_capacity(q: FrameRing) -> usize;

impl FrameRing {
    /// Relies on `crossbeam_queue::ArrayQueue::new`: an empty FIFO queue of
    /// the given fixed capacity. `new` panics when the capacity is zero or
    /// when no power of two above it fits an index, so the bound is kept
    /// comfortably small here.
    #[verifier::external_body]
    pub fn with_capacity(cap: usize) -> (r: FrameRing)
        requires
            1 <= cap <= 0x4000_0000,
        ensures
            frame_ring_tasks(r) == Seq::<u64>::empty(),
            frame_ring_capacity(r) == cap,
    {
        FrameRing { ring: crossbeam_queue::ArrayQueue::new(cap) }
    }

    /// Relies on `crossbeam_queue::ArrayQueue::push`: appends at the back
    /// and succeeds exactly when the queue is not yet full; a refused value
    /// is handed back unchanged.
    #[verifier::external_body]
    pub fn push(&mut self, task: u64) -> (r: Result<(), u64>)
        ensures
            frame_ring_capacity(*final(self)) == frame_ring_capacity(*old(self)),
            frame_ring_tasks(*old(self)).len() < frame_ring_capacity(*old(self)) ==> {
                &&& r is Ok
                &&& frame_ring_tasks(*final(self)) == frame_ring_tasks(*old(self)).push(task)
            },
            frame_ring_tasks(*old(self)).len() >= frame_ring_capacity(*old(self)) ==> {
                &&& r == Err::<(), u64>(task)
                &&& frame_ring_tasks(*final(self)) == frame_ring_tasks(*old(self))
            },
    {
        self.ring.push(task)
    }

    /// Relies on `crossbeam_queue::ArrayQueue::pop`: takes the front element,
    /// or returns nothing when the queue is empty.
    #[verifier::external_body]
    pub fn pop(&mut self) -> (r: Option<u64>)
        ensures
            frame_ring_capacity(*final(self)) == frame_ring_capacity(*old(self)),
            frame_ring_tasks(*old(self)).len() == 0 ==> {
                &&& r is None
                &&& frame_ring_tasks(*final(self)) == frame_ring_tasks(*old(self))
            },
            frame_ring_tasks(*old(self)).len() > 0 ==> {
                &&& r == Some(frame_ring_tasks(*old(self))[0])
                &&& frame_ring_tasks(*final(self)) == frame_ring_tasks(*old(self)).skip(1)
            },
    {
        self.ring.pop()
    }

    /// Relies on `crossbeam_queue::ArrayQueue::len`: the number of elements
    /// currently held.
    #[verifier::external_body]
    pub fn len(&self) -> (r: usize)
        ensures
            r == frame_ring_tasks(*self).len(),
    {
        self.ring.len()
    }
}

/// How many threads each worker group gets, plus the async runtime's worker
/// count.
#[derive(Debug, Clone, Copy, PartialEq, Eq, Structural)]
pub struct SchedulerConfig {
    pub default_threads: usize,
    pub frame_threads: usize,
    pub background_threads: usize,
    pub async_threads: usize,
}

impl SchedulerConfig {
    /// What [`Self::balanced`] computes from a detected parallelism `n`:
    /// with `p` = `n` clamped to at least 1, the default group gets `p`
    /// threads, the frame group half that (at least one), the background
    /// group one, and the async runtime `p` clamped to at most 4.
    pub open spec fn spec_balanced(parallelism: usize) -> SchedulerConfig {
        let p = if parallelism >= 1 {
            parallelism
        } else {
            1
        };
        SchedulerConfig {
            default_threads: p,
            frame_threads: if p / 2 >= 1 {
                p / 2
            } else {
                1
            },
            background_threads: 1,
            async_threads: if p >= 4 {
                4
            } else {
                p
            },
        }
    }

    /// A configuration balanced for the given detected parallelism.
    pub fn balanced(parallelism: usize) -> (r: SchedulerConfig)
        ensures
            r == SchedulerConfig::spec_balanced(parallelism),
            r.default_threads >= 1,
            r.frame_threads >= 1,
            r.background_threads == 1,
            1 <= r.async_threads <= 4,
    {
        let p: usize = if parallelism >= 1 {
            parallelism
        } else {
            1
        };
        let frame: usize = if p / 2 >= 1 {
            p / 2
        } else {
            1
        };
        let asyncs: usize = if p >= 4 {
            4
        } else {
            p
        };
        SchedulerConfig {
            default_threads: p,
            frame_threads: frame,
            background_threads: 1,
            async_threads: asyncs,
        }
    }
}

/// The scheduling state of the pool: the three queue groups, the two join
/// counters, the stop flag the workers poll, and the thread counts of each
/// group. The host's worker threads drive it: pop a ticket, run the work it
/// stands for, report completion. Tickets popped but not yet completed are
/// tracked in ghost state so the counters are provably exactly the
/// submitted-but-not-completed work.
pub struct WorkerPool {
    default_q: PriorityQueues,
    frame_q: FrameRing,
    bg_q: VecDeque<u64>,
    fg_jobs: u64,
    bg_jobs: u64,
    stopping: bool,
    default_threads: usize,
    frame_threads: usize,
    background_threads: usize,
    async_threads: usize,
    running_fg: Ghost<nat>,
    running_bg: Ghost<nat>,
}

impl WorkerPool {
    /// The default group's sub-queues.
    pub closed spec fn spec_default(self) -> PriorityQueues {
        self.default_q
    }

    /// The frame ring's tickets, front first.
    pub closed spec fn spec_frame(self) -> Seq<u64> {
        frame_ring_tasks(self.frame_q)
    }

    /// The frame ring's fixed capacity.
    pub closed spec fn spec_frame_capacity(self) -> usize {
        frame_ring_capacity(self.frame_q)
    }

    /// The background queue's tickets, front first.
    pub closed spec fn spec_background(self) -> Seq<u64> {
        self.bg_q@
    }

    /// The foreground counter: submitted-but-not-completed foreground work.
    pub closed spec fn spec_fg_jobs(self) -> u64 {
        self.fg_jobs
    }

    /// The background counter: submitted-but-not-completed background work.
    pub closed spec fn spec_bg_jobs(self) -> u64 {
        self.bg_jobs
    }

    /// The flag every worker observes before exiting.
    pub closed spec fn spec_stopping(self) -> bool {
        self.stopping
    }

    pub closed spec fn spec_default_threads(self) -> usize {
        self.default_threads
    }

    pub closed spec fn spec_frame_threads(self) -> usize {
        self.frame_threads
    }

    pub closed spec fn spec_background_threads(self) -> usize {
        self.background_threads
    }

    pub closed spec fn spec_async_threads(self) -> usize {
        self.async_threads
    }

    /// Foreground work popped (or handed to the async runtime) but not yet
    /// reported complete.
    pub closed spec fn running_foreground(self) -> nat {
        self.running_fg@
    }

    /// Background work popped (or handed to the async runtime) but not yet
    /// reported complete.
    pub closed spec fn running_background(self) -> nat {
        self.running_bg@
    }

    /// Foreground work that is queued and not yet started.
    pub open spec fn queued_foreground(self) -> int {
        self.spec_default().pending().len() + self.spec_frame().len() as int
    }

    /// The pool's invariant: each counter equals the work of its class that
    /// was submitted and has not completed (queued plus running), the frame
    /// ring has its fixed capacity, and every group has at least one thread.
    pub open spec fn wf(self) -> bool {
        &&& self.spec_fg_jobs() == self.queued_foreground() + self.running_foreground()
        &&& self.spec_bg_jobs() == self.spec_background().len() + self.running_background()
        &&& self.spec_frame_capacity() == FRAME_QUEUE_CAPACITY
        &&& self.spec_default_threads() >= 1
        &&& self.spec_frame_threads() >= 1
        &&& self.spec_background_threads() >= 1
        &&& self.spec_async_threads() >= 1
    }

    /// Same thread counts and stop flag.
    pub open spec fn same_config(self, o: WorkerPool) -> bool {
        &&& self.spec_stopping() == o.spec_stopping()
        &&& self.spec_default_threads() == o.spec_default_threads()
        &&& self.spec_frame_threads() == o.spec_frame_threads()
        &&& self.spec_background_threads() == o.spec_background_threads()
        &&& self.spec_async_threads() == o.spec_async_threads()
    }

    /// Same default sub-queues.
    pub open spec fn same_default(self, o: WorkerPool) -> bool {
        &&& self.spec_default().spec_immediate() == o.spec_default().spec_immediate()
        &&& self.spec_default().spec_normal() == o.spec_default().spec_normal()
        &&& self.spec_default().spec_deferred() == o.spec_default().spec_deferred()
    }

    /// Same queues, counters and in-flight work of both classes.
    pub open spec fn same_work(self, o: WorkerPool) -> bool {
        &&& self.same_default(o)
        &&& self.spec_frame() == o.spec_frame()
        &&& self.spec_background() == o.spec_background()
        &&& self.spec_fg_jobs() == o.spec_fg_jobs()
        &&& self.spec_bg_jobs() == o.spec_bg_jobs()
        &&& self.running_foreground() == o.running_foreground()
        &&& self.running_background() == o.running_background()
    }

    /// An idle pool with the configured thread counts, each clamped to at
    /// least one thread, as the spawned groups clamp them.
    pub fn new(cfg: SchedulerConfig) -> (r: WorkerPool)
        ensures
            r.wf(),
            r.spec_default().pending() == Seq::<u64>::empty(),
            r.spec_frame() == Seq::<u64>::empty(),
            r.spec_background() == Seq::<u64>::empty(),
            r.spec_fg_jobs() == 0,
            r.spec_bg_jobs() == 0,
            r.running_foreground() == 0,
            r.running_background() == 0,
            !r.spec_stopping(),
            r.spec_default_threads() == (if cfg.default_threads >= 1 {
                cfg.default_threads
            } else {
                1
            }),
            r.spec_frame_threads() == (if cfg.frame_threads >= 1 {
                cfg.frame_threads
            } else {
                1
            }),
            r.spec_background_threads() == (if cfg.background_threads >= 1 {
                cfg.background_threads
            } else {
                1
            }),
            r.spec_async_threads() == (if cfg.async_threads >= 1 {
                cfg.async_threads
            } else {
                1
            }),
    {
        WorkerPool {
            default_q: PriorityQueues::new(),
            frame_q: FrameRing::with_capacity(FRAME_QUEUE_CAPACITY),
            bg_q: VecDeque::new(),
            fg_jobs: 0,
            bg_jobs: 0,
            stopping: false,
            default_threads: if cfg.default_threads >= 1 {
                cfg.default_threads
            } else {
                1
            },
            frame_threads: if cfg.frame_threads >= 1 {
                cfg.frame_threads
            } else {
                1
            },
            background_threads: if cfg.background_threads >= 1 {
                cfg.background_threads
            } else {
                1
            },
            async_threads: if cfg.async_threads >= 1 {
                cfg.async_threads
            } else {
                1
            },
            running_fg: Ghost(0),
            running_bg: Ghost(0),
        }
    }

    /// The exact effect of [`WorkerPool::add_job`]: how `post` and the
    /// result relate to `pre` for a job of each priority class.
    pub open spec fn add_job_post(pre: WorkerPool, post: WorkerPool, job: Job, r: Result<
        (),
        LunaticError,
    >) -> bool {
        &&& post.wf()
        &&& post.same_config(pre)
        &&& (job.priority is Background ==> {
            &&& r is Ok
            &&& post.spec_background() == pre.spec_background().push(job.ticket)
            &&& post.spec_bg_jobs() == pre.spec_bg_jobs() + 1
            &&& post.same_default(pre)
            &&& post.spec_frame() == pre.spec_frame()
            &&& post.spec_fg_jobs() == pre.spec_fg_jobs()
            &&& post.running_foreground() == pre.running_foreground()
            &&& post.running_background() == pre.running_background()
        })
        &&& (job.priority is VideoFrame && pre.spec_frame().len() < FRAME_QUEUE_CAPACITY ==> {
            &&& r is Ok
            &&& post.spec_frame() == pre.spec_frame().push(job.ticket)
            &&& post.spec_fg_jobs() == pre.spec_fg_jobs() + 1
            &&& post.same_default(pre)
            &&& post.spec_background() == pre.spec_background()
            &&& post.spec_bg_jobs() == pre.spec_bg_jobs()
            &&& post.running_foreground() == pre.running_foreground()
            &&& post.running_background() == pre.running_background()
        })
        &&& (job.priority is VideoFrame && pre.spec_frame().len() >= FRAME_QUEUE_CAPACITY ==> {
            &&& r matches Err(LunaticError::RenderQueueFull)
            &&& post.same_work(pre)
        })
        &&& (job.priority.is_default_class() ==> {
            &&& r is Ok
            &&& post.spec_default().queue_of(job.priority) == pre.spec_default().queue_of(
                job.priority,
            ).push(job.ticket)
            &&& post.spec_default().pending().len() == pre.spec_default().pending().len() + 1
            &&& (job.priority is Immediate ==> post.spec_default().spec_normal()
                == pre.spec_default().spec_normal() && post.spec_default().spec_deferred()
                == pre.spec_default().spec_deferred())
            &&& (job.priority is Normal ==> post.spec_default().spec_immediate()
                == pre.spec_default().spec_immediate() && post.spec_default().spec_deferred()
                == pre.spec_default().spec_deferred())
            &&& (job.priority is Deferred ==> post.spec_default().spec_immediate()
                == pre.spec_default().spec_immediate() && post.spec_default().spec_normal()
                == pre.spec_default().spec_normal())
            &&& post.spec_fg_jobs() == pre.spec_fg_jobs() + 1
            &&& post.spec_frame() == pre.spec_frame()
            &&& post.spec_background() == pre.spec_background()
            &&& post.spec_bg_jobs() == pre.spec_bg_jobs()
            &&& post.running_foreground() == pre.running_foreground()
            &&& post.running_background() == pre.running_background()
        })
    }

    /// The exact effect of [`WorkerPool::add_job_async`]: the class's counter
    /// and running count are bumped, everything else is untouched, and the
    /// submission always succeeds.
    pub open spec fn add_job_async_post(pre: WorkerPool, post: WorkerPool, job: AsyncJob, r:
        Result<(), LunaticError>) -> bool {
        &&& post.wf()
        &&& post.same_config(pre)
        &&& r is Ok
        &&& post.same_default(pre)
        &&& post.spec_frame() == pre.spec_frame()
        &&& post.spec_background() == pre.spec_background()
        &&& (!job.priority.is_foreground() ==> {
            &&& post.spec_bg_jobs() == pre.spec_bg_jobs() + 1
            &&& post.running_background() == pre.running_background() + 1
            &&& post.spec_fg_jobs() == pre.spec_fg_jobs()
            &&& post.running_foreground() == pre.running_foreground()
        })
        &&& (job.priority.is_foreground() ==> {
            &&& post.spec_fg_jobs() == pre.spec_fg_jobs() + 1
            &&& post.running_foreground() == pre.running_foreground() + 1
            &&& post.spec_bg_jobs() == pre.spec_bg_jobs()
            &&& post.running_background() == pre.running_background()
        })
    }

    /// Accepts a synchronous job: bumps the class's counter first, then
    /// enqueues the ticket on the queue its priority routes to. A full frame
    /// ring is the one refusal: the push fails, the counter bump is rolled
    /// back, and the caller gets `RenderQueueFull` with the pool unchanged.
    /// Never blocks. The full effect is [`WorkerPool::add_job_post`].
    pub fn add_job(&mut self, job: Job) -> (r: Result<(), LunaticError>)
        requires
            old(self).wf(),
            old(self).spec_fg_jobs() < u64::MAX,
            old(self).spec_bg_jobs() < u64::MAX,
        ensures
            WorkerPool::add_job_post(*old(self), *final(self), job, r),
    {
        match job.priority {
            Priority::Background => {
                self.bg_jobs = self.bg_jobs + 1;
                self.bg_q.push_back(job.ticket);
                Ok(())
            },
            Priority::VideoFrame => {
                self.fg_jobs = self.fg_jobs + 1;
                match self.frame_q.push(job.ticket) {
                    Ok(()) => Ok(()),
                    Err(_task) => {
                        self.fg_jobs = self.fg_jobs - 1;
                        Err(LunaticError::RenderQueueFull)
                    },
                }
            },
            Priority::Immediate | Priority::Normal | Priority::Deferred => {
                self.fg_jobs = self.fg_jobs + 1;
                self.default_q.push(job.priority, job.ticket);
                Ok(())
            },
        }
    }

    /// Accepts an asynchronous job: bumps the class's counter and hands the
    /// ticket straight to the async runtime, so the work counts as running
    /// from acceptance until its completion hook reports back. Never fails.
    /// The full effect is [`WorkerPool::add_job_async_post`].
    pub fn add_job_async(&mut self, job: AsyncJob) -> (r: Result<(), LunaticError>)
        requires
            old(self).wf(),
            old(self).spec_fg_jobs() < u64::MAX,
            old(self).spec_bg_jobs() < u64::MAX,
        ensures
            WorkerPool::add_job_async_post(*old(self), *final(self), job, r),
    {
        match job.priority {
            Priority::Background => {
                self.bg_jobs = self.bg_jobs + 1;
                self.running_bg = Ghost(self.running_bg@ + 1);
            },
            _ => {
                self.fg_jobs = self.fg_jobs + 1;
                self.running_fg = Ghost(self.running_fg@ + 1);
            },
        }
        Ok(())
    }

    /// A default worker's next ticket: the front of the highest-priority
    /// non-empty sub-queue, which from this call until the matching
    /// completion report counts as running foreground work.
    pub fn pop_default(&mut self) -> (r: Option<u64>)
        requires
            old(self).wf(),
        ensures
            final(self).wf(),
            final(self).same_config(*old(self)),
            final(self).spec_frame() == old(self).spec_frame(),
            final(self).spec_background() == old(self).spec_background(),
            final(self).spec_fg_jobs() == old(self).spec_fg_jobs(),
            final(self).spec_bg_jobs() == old(self).spec_bg_jobs(),
            final(self).running_background() == old(self).running_background(),
            old(self).spec_default().pending().len() == 0 ==> {
                &&& r is None
                &&& final(self).same_default(*old(self))
                &&& final(self).running_foreground() == old(self).running_foreground()
            },
            old(self).spec_default().pending().len() > 0 ==> {
                &&& r == Some(old(self).spec_default().pending()[0])
                &&& final(self).spec_default().pending() == old(self).spec_default().pending()
                    .skip(1)
                &&& final(self).running_foreground() == old(self).running_foreground() + 1
            },
            old(self).spec_default().next_pop_class() is Some ==> r == Some(
                old(self).spec_default().queue_of(
                    old(self).spec_default().next_pop_class().unwrap(),
                )[0],
            ),
    {
        let r = self.default_q.pop();
        if r.is_some() {
            self.running_fg = Ghost(self.running_fg@ + 1);
        }
        r
    }

    /// A frame worker's next ticket, from the bounded ring.
    pub fn pop_frame(&mut self) -> (r: Option<u64>)
        requires
            old(self).wf(),
        ensures
            final(self).wf(),
            final(self).same_config(*old(self)),
            final(self).same_default(*old(self)),
            final(self).spec_background() == old(self).spec_background(),
            final(self).spec_fg_jobs() == old(self).spec_fg_jobs(),
            final(self).spec_bg_jobs() == old(self).spec_bg_jobs(),
            final(self).running_background() == old(self).running_background(),
            old(self).spec_frame().len() == 0 ==> {
                &&& r is None
                &&& final(self).spec_frame() == old(self).spec_frame()
                &&& final(self).running_foreground() == old(self).running_foreground()
            },
            old(self).spec_frame().len() > 0 ==> {
                &&& r == Some(old(self).spec_frame()[0])
                &&& final(self).spec_frame() == old(self).spec_frame().skip(1)
                &&& final(self).running_foreground() == old(self).running_foreground() + 1
            },
    {
        let r = self.frame_q.pop();
        if r.is_some() {
            self.running_fg = Ghost(self.running_fg@ + 1);
        }
        r
    }

    /// A background worker's next ticket.
    pub fn pop_background(&mut self) -> (r: Option<u64>)
        requires
            old(self).wf(),
        ensures
            final(self).wf(),
            final(self).same_config(*old(self)),
            final(self).same_default(*old(self)),
            final(self).spec_frame() == old(self).spec_frame(),
            final(self).spec_fg_jobs() == old(self).spec_fg_jobs(),
            final(self).spec_bg_jobs() == old(self).spec_bg_jobs(),
            final(self).running_foreground() == old(self).running_foreground(),
            old(self).spec_background().len() == 0 ==> {
                &&& r is None
                &&& final(self).spec_background() == old(self).spec_background()
                &&& final(self).running_background() == old(self).running_background()
            },
            old(self).spec_background().len() > 0 ==> {
                &&& r == Some(old(self).spec_background()[0])
                &&& final(self).spec_background() == old(self).spec_background().skip(1)
                &&& final(self).running_background() == old(self).running_background() + 1
            },
    {
        let r = self.bg_q.pop_front();
        if r.is_some() {
            self.running_bg = Ghost(self.running_bg@ + 1);
        }
        r
    }

    /// A worker's completion report for one foreground task: decrements the
    /// foreground counter and says whether it just reached zero — true
    /// exactly when the pre-decrement value was one, which is when the host
    /// must broadcast its zero-reached condition variable.
    pub fn complete_foreground(&mut self) -> (zero: bool)
        requires
            old(self).wf(),
            old(self).running_foreground() > 0,
        ensures
            final(self).wf(),
            final(self).same_config(*old(self)),
            final(self).same_default(*old(self)),
            final(self).spec_frame() == old(self).spec_frame(),
            final(self).spec_background() == old(self).spec_background(),
            final(self).spec_fg_jobs() == old(self).spec_fg_jobs() - 1,
            final(self).spec_bg_jobs() == old(self).spec_bg_jobs(),
            final(self).running_foreground() == old(self).running_foreground() - 1,
            final(self).running_background() == old(self).running_background(),
            zero == (old(self).spec_fg_jobs() == 1),
    {
        let was = self.fg_jobs;
        self.fg_jobs = was - 1;
        self.running_fg = Ghost((self.running_fg@ - 1) as nat);
        was == 1
    }

    /// A worker's completion report for one background task; true exactly
    /// when the background counter just reached zero.
    pub fn complete_background(&mut self) -> (zero: bool)
        requires
            old(self).wf(),
            old(self).running_background() > 0,
        ensures
            final(self).wf(),
            final(self).same_config(*old(self)),
            final(self).same_default(*old(self)),
            final(self).spec_frame() == old(self).spec_frame(),
            final(self).spec_background() == old(self).spec_background(),
            final(self).spec_bg_jobs() == old(self).spec_bg_jobs() - 1,
            final(self).spec_fg_jobs() == old(self).spec_fg_jobs(),
            final(self).running_background() == old(self).running_background() - 1,
            final(self).running_foreground() == old(self).running_foreground(),
            zero == (old(self).spec_bg_jobs() == 1),
    {
        let was = self.bg_jobs;
        self.bg_jobs = was - 1;
        self.running_bg = Ghost((self.running_bg@ - 1) as nat);
        was == 1
    }

    /// The async completion hook's report: decrements the counter the job's
    /// priority was charged to; true exactly when that counter just reached
    /// zero.
    pub fn complete_async(&mut self, priority: Priority) -> (zero: bool)
        requires
            old(self).wf(),
            !priority.is_foreground() ==> old(self).running_background() > 0,
            priority.is_foreground() ==> old(self).running_foreground() > 0,
        ensures
            final(self).wf(),
            final(self).same_config(*old(self)),
            final(self).same_default(*old(self)),
            final(self).spec_frame() == old(self).spec_frame(),
            final(self).spec_background() == old(self).spec_background(),
            !priority.is_foreground() ==> {
                &&& final(self).spec_bg_jobs() == old(self).spec_bg_jobs() - 1
                &&& final(self).spec_fg_jobs() == old(self).spec_fg_jobs()
                &&& zero == (old(self).spec_bg_jobs() == 1)
            },
            priority.is_foreground() ==> {
                &&& final(self).spec_fg_jobs() == old(self).spec_fg_jobs() - 1
                &&& final(self).spec_bg_jobs() == old(self).spec_bg_jobs()
                &&& zero == (old(self).spec_fg_jobs() == 1)
            },
    {
        if matches!(priority, Priority::Background) {
            self.complete_background()
        } else {
            self.complete_foreground()
        }
    }

    /// The foreground counter's current reading.
    pub fn foreground_jobs(&self) -> (r: u64)
        ensures
            r == self.spec_fg_jobs(),
    {
        self.fg_jobs
    }

    /// The background counter's current reading.
    pub fn background_jobs(&self) -> (r: u64)
        ensures
            r == self.spec_bg_jobs(),
    {
        self.bg_jobs
    }

    /// Whether a foreground join may return: the foreground counter reads
    /// zero. The host's join loop waits on the zero-reached condition
    /// variable while this is false; spurious wakeups are tolerated because
    /// the loop re-checks.
    pub fn join_sync_ready(&self) -> (r: bool)
        ensures
            r == (self.spec_fg_jobs() == 0),
    {
        self.fg_jobs == 0
    }

    /// Whether a full join may return: both counters read zero.
    pub fn join_all_ready(&self) -> (r: bool)
        ensures
            r == (self.spec_fg_jobs() == 0 && self.spec_bg_jobs() == 0),
    {
        self.fg_jobs == 0 && self.bg_jobs == 0
    }

    /// The flag a woken worker checks before looking at its queue again.
    pub fn should_stop(&self) -> (r: bool)
        ensures
            r == self.spec_stopping(),
    {
        self.stopping
    }

    /// Raises or clears the stop flag. The host sets it (and broadcasts every
    /// queue's condition variable) to drain its worker threads, and clears it
    /// before respawning them.
    pub fn set_stopping(&mut self, value: bool)
        requires
            old(self).wf(),
        ensures
            final(self).wf(),
            final(self).spec_stopping() == value,
            final(self).same_work(*old(self)),
            final(self).spec_default_threads() == old(self).spec_default_threads(),
            final(self).spec_frame_threads() == old(self).spec_frame_threads(),
            final(self).spec_background_threads() == old(self).spec_background_threads(),
            final(self).spec_async_threads() == old(self).spec_async_threads(),
    {
        self.stopping = value;
    }

    /// Adopts new thread counts for the three sync groups, each clamped to
    /// at least one thread; zeroes are treated as ones. Queued work, both
    /// counters and in-flight work are all preserved; the async runtime's
    /// worker count is not reconfigured online.
    pub fn reconfigure_threads(&mut self, default: usize, frame: usize, background: usize)
        requires
            old(self).wf(),
        ensures
            final(self).wf(),
            final(self).same_work(*old(self)),
            final(self).spec_stopping() == old(self).spec_stopping(),
            final(self).spec_default_threads() == (if default >= 1 {
                default
            } else {
                1
            }),
            final(self).spec_frame_threads() == (if frame >= 1 {
                frame
            } else {
                1
            }),
            final(self).spec_background_threads() == (if background >= 1 {
                background
            } else {
                1
            }),
            final(self).spec_async_threads() == old(self).spec_async_threads(),
    {
        self.default_threads = if default >= 1 {
            default
        } else {
            1
        };
        self.frame_threads = if frame >= 1 {
            frame
        } else {
            1
        };
        self.background_threads = if background >= 1 {
            background
        } else {
            1
        };
    }

    /// A snapshot of the pool: the four queue depths and the number of
    /// worker threads across the three sync groups.
    pub fn profile(&self) -> (r: OrchestratorProfile)
        requires
            self.spec_default_threads() + self.spec_frame_threads()
                + self.spec_background_threads() <= u64::MAX,
        ensures
            r.immediate == self.spec_default().spec_immediate().len(),
            r.normal == self.spec_default().spec_normal().len(),
            r.deferred == self.spec_default().spec_deferred().len(),
            r.frame == self.spec_frame().len(),
            r.running_tasks == self.spec_default_threads() + self.spec_frame_threads()
                + self.spec_background_threads(),
    {
        let (immediate, normal, deferred) = self.default_q.lens();
        OrchestratorProfile {
            immediate: immediate as u64,
            normal: normal as u64,
            deferred: deferred as u64,
            frame: self.frame_q.len() as u64,
            running_tasks: (self.default_threads as u64) + (self.frame_threads as u64) + (
            self.background_threads as u64),
        }
    }
}

/// The join barrier covers exactly the submitted-but-not-completed work of
/// its class: the foreground counter reads zero precisely when no foreground
/// ticket is queued or running. A join that begins after a foreground
/// submission therefore cannot return before that submission's completion
/// report, and a join with nothing in flight returns at once.
pub proof fn lemma_foreground_counter_covers_work(p: WorkerPool)
    requires
        p.wf(),
    ensures
        (p.spec_fg_jobs() == 0) <==> (p.queued_foreground() == 0 && p.running_foreground() == 0),
{
}

/// The same coverage for both barriers at once: a full join may return
/// precisely when no work of either class is queued or running.
pub proof fn lemma_counters_cover_all_work(p: WorkerPool)
    requires
        p.wf(),
    ensures
        (p.spec_fg_jobs() == 0 && p.spec_bg_jobs() == 0) <==> (p.queued_foreground() == 0
            && p.running_foreground() == 0 && p.spec_background().len() == 0
            && p.running_background() == 0),
{
}

} // verus!
