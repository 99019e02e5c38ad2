//! A fixed-size pool of workers fed from a shared, verified job queue.
//! Submission is fire-and-forget: `execute` hands the job to the queue and
//! returns at once; whichever worker becomes free first picks the job up
//! and runs it to completion. `shutdown` closes the queue, waits until
//! every worker has finished and stopped, and then runs any job a failed
//! worker left behind, so no accepted job is ever lost.
//!
//! Construction hands back one [`Worker`] per pool slot. The process
//! hosting the pool gives each worker a thread of its own and calls
//! [`Worker::run`] there; everything the worker does on that thread is
//! defined here.

use vstd::prelude::*;
use vstd::rwlock::{RwLock, RwLockPredicate};
use std::sync::Arc;
use crate::queue::{JobQueue, Received};
use crate::channel;

verus! {

/// A single deferred, fire-and-forget unit of work. A job is invoked
/// exactly once, produces no return value, and reports nothing back to the
/// submitter; any result it wants to surface must travel through a side
/// channel of its own (a shared counter, a file, a socket).
pub trait Job: Sized {
    /// Runs this unit of work to completion, consuming it.
    fn run(self);
}

/// Error returned by [`ThreadPool::new`] when the requested pool size is
/// invalid: a pool must have at least one worker.
#[derive(Debug, PartialEq, Eq)]
pub struct PoolConstructionError;

/// Error returned by [`ThreadPool::execute`] when the job is not accepted.
/// The rejected job is handed back unchanged, so the caller loses nothing.
#[derive(Debug)]
pub enum ExecuteError<J> {
    /// The pool's teardown has begun: no further submissions are accepted.
    SubmissionAfterShutdown(J),
}

/// The predicate the shared job queue is locked under: the queue's central
/// invariant holds of the value stored in the lock. Whoever acquires the
/// lock learns it, and nobody can release the lock without proving it, so
/// it holds at every instant of the pool's life, on every thread.
pub struct QueuePred;

impl<J> RwLockPredicate<JobQueue<J>> for QueuePred {
    open spec fn inv(self, v: JobQueue<J>) -> bool {
        v.wf()
    }
}

/// One worker reaction to a wake-up ticket: take at most one job from the
/// shared queue and run it to completion, holding the lock only while
/// dequeuing, never while the job runs.
pub(crate) fn worker_step<J: Job + Send + 'static>(jobs: &Arc<RwLock<JobQueue<J>, QueuePred>>) {
    let (mut q, handle) = jobs.acquire_write();
    let r = q.receive();
    handle.release_write(q);
    match r {
        Received::Job(job) => job.run(),
        Received::Pending => (),
        Received::NoMoreWork => (),
    }
}

/// Relies on std's Arc::clone: the clone is a second handle to the same
/// shared value.
#[verifier::external_body]
fn clone_arc<T>(a: &Arc<T>) -> (r: Arc<T>)
    ensures
        r == *a,
{
    Arc::clone(a)
}

/// One worker of the pool: an ordinal identity bound to the shared job
/// queue. The hosting process gives each worker its own thread and calls
/// [`Worker::run`] there, once.
pub struct Worker<J: Job + Send + 'static> {
    id: usize,
    tickets: crossbeam_channel::Receiver<()>,
    jobs: Arc<RwLock<JobQueue<J>, QueuePred>>,
    done: crossbeam_channel::Sender<()>,
}

impl<J: Job + Send + 'static> Worker<J> {
    /// This worker's ordinal id, fixed at pool construction.
    pub closed spec fn spec_id(&self) -> nat {
        self.id as nat
    }

    /// This worker's ordinal id, fixed at pool construction.
    pub fn id(&self) -> (id: usize)
        ensures
            id == self.spec_id(),
    {
        self.id
    }

    /// The worker's whole life: block until a job is submitted or teardown
    /// begins, answer each wake-up with one dequeue-and-run step, and stop
    /// once the queue is closed and drained. Returns only when the pool is
    /// shutting down; on the way out it reports its termination to the
    /// pool, which `shutdown` awaits.
    pub fn run(self) {
        let Worker { id: _, tickets, jobs, done } = self;
        channel::run_worker(tickets, jobs);
        let _ = channel::channel_send(&done, ());
    }
}

/// A fixed set of workers pulling jobs from one shared queue.
///
/// The pool's life is one-directional: running (accepting `execute` calls),
/// then shutting down (queue closed, draining), then terminated (all
/// workers stopped). [`ThreadPool::shutdown`] drives the whole way down and
/// is idempotent.
///
/// Teardown policy: teardown is explicit only. Call [`ThreadPool::shutdown`]
/// before letting the pool go; a pool merely dropped does not block for its
/// workers, and any job accepted but not yet picked up would be abandoned.
/// (A `Drop` that waited on the shared queue cannot be verified here: the
/// verifier requires `drop` to open no invariants and never unwind, and
/// waiting needs the lock, while draining runs jobs that may panic.)
pub struct ThreadPool<J: Job + Send + 'static> {
    jobs: Arc<RwLock<JobQueue<J>, QueuePred>>,
    tickets: Option<crossbeam_channel::Sender<()>>,
    stopped: crossbeam_channel::Receiver<()>,
    size: usize,
}

impl<J: Job + Send + 'static> ThreadPool<J> {
    /// The number of workers fixed at construction.
    pub closed spec fn spec_size(&self) -> nat {
        self.size as nat
    }

    /// Whether the pool still accepts submissions: true from construction
    /// until `shutdown` is first called.
    pub closed spec fn is_open(&self) -> bool {
        self.tickets is Some
    }

    /// Creates a pool of `size` workers sharing one job queue, handing back
    /// the workers so the hosting process can bind each to a thread of its
    /// own. A pool of zero workers could never execute anything, so size
    /// zero is rejected.
    pub fn new(size: usize) -> (r: Result<(Self, Vec<Worker<J>>), PoolConstructionError>)
        ensures
            size == 0 ==> r is Err,
            size >= 1 ==> (r matches Ok(pw) && {
                &&& pw.0.spec_size() == size
                &&& pw.0.is_open()
                &&& pw.1@.len() == size
                &&& forall|k: int| 0 <= k < size ==> (#[trigger] pw.1@[k]).spec_id() == k
            }),
    {
        if size == 0 {
            return Err(PoolConstructionError);
        }
        let jobs: Arc<RwLock<JobQueue<J>, QueuePred>> =
            Arc::new(RwLock::new(JobQueue::new(), Ghost(QueuePred)));
        let (ticket_tx, ticket_rx) = crossbeam_channel::unbounded::<()>();
        let (done_tx, done_rx) = crossbeam_channel::unbounded::<()>();
        let mut workers: Vec<Worker<J>> = Vec::new();
        for i in 0..size
            invariant
                workers@.len() == i,
                forall|k: int| 0 <= k < i ==> (#[trigger] workers@[k]).spec_id() == k,
        {
            let worker = Worker {
                id: i,
                tickets: ticket_rx.clone(),
                jobs: clone_arc(&jobs),
                done: done_tx.clone(),
            };
            workers.push(worker);
        }
        Ok((ThreadPool { jobs, tickets: Some(ticket_tx), stopped: done_rx, size }, workers))
    }

    /// The number of workers fixed at construction.
    pub fn size(&self) -> (s: usize)
        ensures
            s == self.spec_size(),
    {
        self.size
    }

    /// Hands `job` to the job queue for execution by whichever worker
    /// becomes free first. Returns at once, without waiting for the job to
    /// start or finish; nothing of the job's outcome is reported back.
    ///
    /// An open pool always accepts: the job is enqueued and a worker is
    /// woken, and submission never blocks. Once teardown has begun the job
    /// is rejected explicitly and handed back, never silently dropped. The
    /// queue behind the lock is open exactly as long as the pool is: a
    /// submission borrows the pool shared and teardown borrows it
    /// exclusively, so the two can never overlap.
    pub fn execute(&self, job: J) -> (r: Result<(), ExecuteError<J>>)
        ensures
            self.is_open() ==> r is Ok,
            !self.is_open() ==> (r matches Err(ExecuteError::SubmissionAfterShutdown(j)) && j == job),
    {
        match &self.tickets {
            None => Err(ExecuteError::SubmissionAfterShutdown(job)),
            Some(tx) => {
                let (mut q, handle) = self.jobs.acquire_write();
                q.enqueue(job);
                handle.release_write(q);
                // If every worker has already died, the ticket is
                // undeliverable, but the job sits safely in the queue and
                // shutdown will still run it.
                let _ = channel::channel_send(tx, ());
                Ok(())
            },
        }
    }

    /// Tears the pool down: closes the queue, then blocks until every
    /// worker has finished the jobs already submitted and stopped — each
    /// worker reports its own termination, and a worker that died early (a
    /// job panicked) is detected when its report channel disconnects. Any
    /// job such a dead worker never picked up is still pending; it is run
    /// here, on the caller's thread, so teardown returns only after every
    /// accepted job has been executed. Idempotent: a second call finds
    /// nothing left to wait for.
    pub fn shutdown(&mut self)
        ensures
            !final(self).is_open(),
            final(self).spec_size() == old(self).spec_size(),
    {
        let tx = self.tickets.take();
        let (mut q, handle) = self.jobs.acquire_write();
        q.close();
        handle.release_write(q);
        // Disconnect the ticket channel: each worker finishes the tickets
        // already sent, then its receive loop ends.
        channel::drop_sender(tx);
        let mut awaited: usize = 0;
        while awaited < self.size
            invariant
                awaited <= self.size,
            decreases self.size - awaited,
        {
            // One blocking wait per worker; an error means every remaining
            // worker is already gone (its termination report was dropped
            // when its thread died).
            match channel::channel_recv(&self.stopped) {
                Ok(()) => {
                    awaited = awaited + 1;
                },
                Err(()) => {
                    awaited = self.size;
                },
            }
        }
        self.drain_remaining();
    }

    /// Runs every job still pending in the closed queue on the current
    /// thread. After every worker has stopped nothing else consumes the
    /// queue, so this leaves it provably empty.
    fn drain_remaining(&self) {
        let (mut q, handle) = self.jobs.acquire_write();
        q.close();
        let mut done = false;
        while !done
            invariant
                q.wf(),
                q.is_closed(),
                done ==> q.pending().len() == 0,
            decreases q.pending().len() + (if done { 0int } else { 1 }),
        {
            let r = q.receive();
            match r {
                Received::Job(job) => job.run(),
                Received::NoMoreWork => {
                    done = true;
                },
                Received::Pending => {
                    // A closed queue never answers `Pending`.
                    proof {
                        assert(false);
                    }
                },
            }
        }
        assert(q.pending().len() == 0);
        handle.release_write(q);
    }
}

} // verus!
