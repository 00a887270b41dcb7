//! The job queue shared by the workers of a pool. Workers ask it what to do
//! next; the threads themselves live outside the library.
use std::collections::VecDeque;
use vstd::prelude::*;

verus! {

/// What a worker does next.
pub enum Next<T> {
    /// Run this job, the one with this ticket.
    Run(u64, T),
    /// Wait for a job: none is queued, and the queue is still open.
    Wait,
    /// Stop: the queue is closed and every job has been handed out.
    Stop,
}

/// A first-in first-out queue of jobs. Each accepted job gets a ticket, its
/// number in the order of submission, and is handed out once.
pub struct JobQueue<T> {
    jobs: VecDeque<T>,
    submitted: u64,
    taken: u64,
    closed: bool,
    history: Ghost<Seq<T>>,
    done: Ghost<Seq<T>>,
}

impl<T> JobQueue<T> {
    /// The jobs waiting, oldest first.
    pub closed spec fn pending(&self) -> Seq<T> {
        self.jobs@
    }

    /// Every job accepted so far, in order of submission.
    pub closed spec fn accepted(&self) -> Seq<T> {
        self.history@
    }

    /// Every job handed out so far, in order.
    pub closed spec fn handed_out(&self) -> Seq<T> {
        self.done@
    }

    pub closed spec fn is_closed(&self) -> bool {
        self.closed
    }

    pub closed spec fn wf(&self) -> bool {
        &&& self.done@ + self.jobs@ == self.history@
        &&& self.submitted == self.history@.len()
        &&& self.taken == self.done@.len()
    }

    /// An open queue with no jobs.
    pub fn new() -> (r: Self)
        ensures
            r.wf(),
            r.accepted().len() == 0,
            r.handed_out().len() == 0,
            r.pending().len() == 0,
            !r.is_closed(),
    {
        let r = JobQueue {
            jobs: VecDeque::new(),
            submitted: 0,
            taken: 0,
            closed: false,
            history: Ghost(Seq::empty()),
            done: Ghost(Seq::empty()),
        };
        assert(r.done@ + r.jobs@ =~= r.history@);
        r
    }

    /// Queues a job and gives its ticket. A closed queue, or one that has
    /// given out every ticket, hands the job back.
    pub fn submit(&mut self, job: T) -> (r: Result<u64, T>)
        requires
            old(self).wf(),
        ensures
            final(self).wf(),
            final(self).is_closed() == old(self).is_closed(),
            final(self).handed_out() == old(self).handed_out(),
            match r {
                Ok(t) => {
                    &&& !old(self).is_closed()
                    &&& t == old(self).accepted().len()
                    &&& final(self).pending() == old(self).pending().push(job)
                    &&& final(self).accepted() == old(self).accepted().push(job)
                },
                Err(j) => {
                    &&& j == job
                    &&& (old(self).is_closed() || old(self).accepted().len() == u64::MAX)
                    &&& final(self).pending() == old(self).pending()
                    &&& final(self).accepted() == old(self).accepted()
                },
            },
            !old(self).is_closed() && old(self).accepted().len() < u64::MAX ==> r is Ok,
    {
        if self.closed || self.submitted == u64::MAX {
            return Err(job);
        }
        let t = self.submitted;
        self.jobs.push_back(job);
        self.submitted = self.submitted + 1;
        self.history = Ghost(self.history@.push(job));
        assert(self.done@ + self.jobs@ =~= self.history@);
        Ok(t)
    }

    /// Hands out the oldest waiting job, with its ticket; else says whether
    /// to wait for one or to stop.
    pub fn take(&mut self) -> (r: Next<T>)
        requires
            old(self).wf(),
        ensures
            final(self).wf(),
            final(self).is_closed() == old(self).is_closed(),
            final(self).accepted() == old(self).accepted(),
            match r {
                Next::Run(t, job) => {
                    &&& old(self).pending().len() > 0
                    &&& job == old(self).pending()[0]
                    &&& t == old(self).handed_out().len()
                    &&& final(self).pending() == old(self).pending().drop_first()
                    &&& final(self).handed_out() == old(self).handed_out().push(job)
                },
                Next::Wait => {
                    &&& old(self).pending().len() == 0
                    &&& !old(self).is_closed()
                    &&& final(self).pending() == old(self).pending()
                    &&& final(self).handed_out() == old(self).handed_out()
                },
                Next::Stop => {
                    &&& old(self).pending().len() == 0
                    &&& old(self).is_closed()
                    &&& final(self).pending() == old(self).pending()
                    &&& final(self).handed_out() == old(self).handed_out()
                    &&& final(self).handed_out() == final(self).accepted()
                },
            },
    {
        match self.jobs.pop_front() {
            Some(job) => {
                let t = self.taken;
                proof {
                    assert(self.done@.len() + self.jobs@.len() + 1 == self.history@.len());
                }
                self.taken = self.taken + 1;
                self.done = Ghost(self.done@.push(job));
                assert(self.done@ + self.jobs@ =~= self.history@) by {
                    assert(old(self).jobs@ == seq![job] + self.jobs@);
                    assert(old(self).done@ + old(self).jobs@ == old(self).history@);
                    assert(self.done@ + self.jobs@ =~= old(self).done@ + old(self).jobs@);
                }
                Next::Run(t, job)
            },
            None => {
                if self.closed {
                    assert(self.done@ =~= self.done@ + self.jobs@);
                    Next::Stop
                } else {
                    Next::Wait
                }
            },
        }
    }

    /// Closes the queue: it accepts no more jobs, and once the waiting ones
    /// are handed out workers are told to stop.
    pub fn close(&mut self)
        requires
            old(self).wf(),
        ensures
            final(self).wf(),
            final(self).is_closed(),
            final(self).pending() == old(self).pending(),
            final(self).accepted() == old(self).accepted(),
            final(self).handed_out() == old(self).handed_out(),
    {
        self.closed = true;
    }

    /// The number of jobs waiting.
    pub fn len(&self) -> (r: usize)
        ensures
            r == self.pending().len(),
    {
        self.jobs.len()
    }

    /// Every job accepted is handed out exactly once: the job with ticket
    /// `t` has been handed out, as the `t`-th, if `t` is below the number
    /// handed out, and is waiting at its place otherwise; it is never both.
    pub proof fn lemma_exactly_once(&self, t: int)
        requires
            self.wf(),
            0 <= t < self.accepted().len(),
        ensures
            t < self.handed_out().len() ==> self.handed_out()[t] == self.accepted()[t],
            t >= self.handed_out().len() ==> self.pending()[t - self.handed_out().len()]
                == self.accepted()[t],
            self.handed_out().len() + self.pending().len() == self.accepted().len(),
    {
        assert((self.done@ + self.jobs@)[t] == self.history@[t]);
    }
}

} // verus!
