use vstd::prelude::*;

verus! {

/// Error returned by [`JobQueue::submit`] when the queue has already been
/// closed. The rejected job is handed back to the caller unchanged, so no
/// unit of work is ever silently dropped.
pub struct QueueClosed<J>(pub J);

/// Outcome of one receive attempt on the job queue.
pub enum Received<J> {
    /// A job was dequeued; the caller now owns it and must run it.
    Job(J),
    /// The queue is open but currently empty: more work may still arrive,
    /// so the caller should wait and try again.
    Pending,
    /// The queue is closed and fully drained: no job will ever arrive again,
    /// so the caller may stop.
    NoMoreWork,
}

/// One receive on the queue model: the oldest pending job together with
/// the jobs left behind, or nothing when the queue is empty. This is what
/// [`JobQueue::receive`] does to the pending sequence whenever it hands a
/// job out.
pub open spec fn model_receive<J>(pending: Seq<J>) -> Option<(J, Seq<J>)> {
    if pending.len() > 0 {
        Some((pending[0], pending.drop_first()))
    } else {
        None
    }
}

/// The jobs handed out, in order, by receiving over and over until the
/// queue is exhausted.
pub open spec fn model_drain<J>(pending: Seq<J>) -> Seq<J>
    decreases pending.len(),
{
    match model_receive(pending) {
        Some(p) => seq![p.0] + model_drain(p.1),
        None => Seq::<J>::empty(),
    }
}

/// Draining a queue delivers every pending job, each exactly once, in the
/// order of submission: nothing is lost, duplicated, or reordered on the
/// way from submitter to the workers taken together.
pub proof fn lemma_drain_delivers_all_in_order<J>(pending: Seq<J>)
    ensures
        model_drain(pending) == pending,
    decreases pending.len(),
{
    if pending.len() > 0 {
        lemma_drain_delivers_all_in_order(pending.drop_first());
        assert(model_drain(pending) =~= pending);
    } else {
        assert(model_drain(pending) =~= pending);
    }
}

/// Draining delivers exactly the submitted multiset of jobs: however the
/// deliveries interleave, no job is executed twice and none is dropped.
pub proof fn lemma_drain_exactly_once<J>(pending: Seq<J>)
    ensures
        model_drain(pending).to_multiset() == pending.to_multiset(),
{
    lemma_drain_delivers_all_in_order(pending);
}

/// In a queue satisfying [`JobQueue::wf`], what has been handed out so far
/// is exactly the first stretch of what was submitted, and what is still
/// pending is exactly the rest: deliveries happen in submission order, each
/// submitted job is delivered at most once, and none is dropped along the
/// way.
pub proof fn lemma_wf_delivered_is_prefix<J>(delivered: Seq<J>, pending: Seq<J>, submitted: Seq<J>)
    requires
        delivered + pending == submitted,
    ensures
        delivered == submitted.take(delivered.len() as int),
        pending == submitted.skip(delivered.len() as int),
{
    assert(delivered =~= submitted.take(delivered.len() as int));
    assert(pending =~= submitted.skip(delivered.len() as int));
}

/// The shared hand-off structure connecting submitters to workers: a FIFO
/// of pending jobs together with a sentinel "closed" state.
///
/// Once closed, no further jobs are accepted, but every job enqueued before
/// closing stays pending and is still handed out, so closing never discards
/// work.
pub struct JobQueue<J> {
    jobs: Vec<J>,
    closed: bool,
    accepted: Ghost<Seq<J>>,
    handed_out: Ghost<Seq<J>>,
}

impl<J> JobQueue<J> {
    /// The jobs that have been submitted but not yet handed to a worker,
    /// oldest first.
    pub closed spec fn pending(&self) -> Seq<J> {
        self.jobs@
    }

    /// Whether the queue has been closed to new submissions.
    pub closed spec fn is_closed(&self) -> bool {
        self.closed
    }

    /// Every job the queue has ever accepted, in submission order.
    pub closed spec fn submitted(&self) -> Seq<J> {
        self.accepted@
    }

    /// Every job the queue has handed to a receiver, in hand-off order.
    /// A job enters this sequence at the moment it leaves `pending`, so a
    /// job is never owned by two receivers.
    pub closed spec fn delivered(&self) -> Seq<J> {
        self.handed_out@
    }

    /// The queue's central invariant: what has been handed out, followed by
    /// what is still waiting, is exactly what was accepted — every accepted
    /// job is delivered at most once and never lost, and hand-off follows
    /// submission order. Every operation preserves this, so it holds of the
    /// queue at every instant, in every thread that ever holds it.
    pub open spec fn wf(&self) -> bool {
        self.delivered() + self.pending() == self.submitted()
    }

    /// Creates an open, empty queue.
    pub fn new() -> (q: Self)
        ensures
            q.pending() == Seq::<J>::empty(),
            !q.is_closed(),
            q.submitted() == Seq::<J>::empty(),
            q.delivered() == Seq::<J>::empty(),
            q.wf(),
    {
        let q = JobQueue {
            jobs: Vec::new(),
            closed: false,
            accepted: Ghost(Seq::empty()),
            handed_out: Ghost(Seq::empty()),
        };
        proof {
            assert(q.delivered() + q.pending() =~= q.submitted());
        }
        q
    }

    /// Enqueues `job` at the back of the queue unconditionally, without
    /// consulting the closed flag. For the pool's own use: a pool submission
    /// can never overlap the pool's teardown (submission borrows the pool
    /// shared, teardown exclusively), so the pool calls this only while the
    /// queue is open, and rejection of late submissions happens at the pool
    /// boundary instead.
    pub(crate) fn enqueue(&mut self, job: J)
        ensures
            final(self).pending() == old(self).pending().push(job),
            final(self).is_closed() == old(self).is_closed(),
            final(self).submitted() == old(self).submitted().push(job),
            final(self).delivered() == old(self).delivered(),
            old(self).wf() ==> final(self).wf(),
    {
        proof {
            self.accepted@ = self.accepted@.push(job);
        }
        self.jobs.push(job);
        proof {
            if old(self).wf() {
                assert(self.delivered() + self.pending() =~= self.submitted());
            }
        }
    }

    /// Enqueues `job` at the back of the queue, or rejects it (handing the
    /// job back) exactly when the queue has been closed.
    pub fn submit(&mut self, job: J) -> (r: Result<(), QueueClosed<J>>)
        ensures
            !old(self).is_closed() ==> {
                &&& r is Ok
                &&& final(self).pending() == old(self).pending().push(job)
                &&& !final(self).is_closed()
                &&& final(self).submitted() == old(self).submitted().push(job)
            },
            old(self).is_closed() ==> {
                &&& (r matches Err(QueueClosed(j)) && j == job)
                &&& final(self).pending() == old(self).pending()
                &&& final(self).is_closed()
                &&& final(self).submitted() == old(self).submitted()
            },
            final(self).delivered() == old(self).delivered(),
            old(self).wf() ==> final(self).wf(),
    {
        if self.closed {
            Err(QueueClosed(job))
        } else {
            self.enqueue(job);
            Ok(())
        }
    }

    /// Takes the oldest pending job if there is one; otherwise reports
    /// whether more work may still arrive (`Pending`) or never will
    /// (`NoMoreWork`). A job is removed from the queue at the moment it is
    /// handed out, so no job can be delivered twice.
    pub fn receive(&mut self) -> (r: Received<J>)
        ensures
            old(self).pending().len() > 0 ==> {
                &&& (r matches Received::Job(j) && j == old(self).pending()[0])
                &&& final(self).pending() == old(self).pending().drop_first()
                &&& final(self).is_closed() == old(self).is_closed()
            },
            r matches Received::Job(j) ==> model_receive(old(self).pending()) == Some(
                (j, final(self).pending()),
            ),
            r matches Received::Job(j) ==> final(self).delivered() == old(self).delivered().push(
                j,
            ),
            !(r matches Received::Job(j)) ==> final(self).delivered() == old(self).delivered(),
            final(self).submitted() == old(self).submitted(),
            old(self).wf() ==> final(self).wf(),
            old(self).pending().len() == 0 && !old(self).is_closed() ==> {
                &&& r is Pending
                &&& final(self).pending() == old(self).pending()
                &&& !final(self).is_closed()
            },
            old(self).pending().len() == 0 && old(self).is_closed() ==> {
                &&& r is NoMoreWork
                &&& final(self).pending() == old(self).pending()
                &&& final(self).is_closed()
            },
    {
        if self.jobs.len() > 0 {
            let job = self.jobs.remove(0);
            proof {
                self.handed_out@ = self.handed_out@.push(job);
                if old(self).wf() {
                    assert(old(self).pending() =~= seq![job] + self.pending());
                    assert(self.delivered() + self.pending() =~= self.submitted());
                }
            }
            Received::Job(job)
        } else if self.closed {
            Received::NoMoreWork
        } else {
            Received::Pending
        }
    }

    /// Closes the queue: from now on submissions are rejected, while every
    /// already-pending job stays queued for delivery. Idempotent.
    pub fn close(&mut self)
        ensures
            final(self).is_closed(),
            final(self).pending() == old(self).pending(),
            final(self).submitted() == old(self).submitted(),
            final(self).delivered() == old(self).delivered(),
            old(self).wf() ==> final(self).wf(),
    {
        self.closed = true;
    }
}

} // verus!
