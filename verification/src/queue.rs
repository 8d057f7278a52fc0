use vstd::prelude::*;

verus! {

/// The dispatcher's job queue: the Job Source, in order, handed out one
/// job at a time. During the concurrent phase the caller guards it with
/// a lock; `None` from `dequeue` is the closure signal (every job has
/// been handed out), on which a worker exits.
pub struct JobQueue {
    jobs: Vec<String>,
    next: usize,
}

impl JobQueue {
    /// The jobs not yet handed out, in order.
    pub closed spec fn remaining(&self) -> Seq<String> {
        self.jobs@.skip(self.next as int)
    }

    pub closed spec fn wf(&self) -> bool {
        self.next <= self.jobs@.len()
    }

    /// Accepts the whole Job Source at once: every job is enqueued
    /// exactly once, in Job Source order.
    pub fn new(jobs: Vec<String>) -> (r: JobQueue)
        ensures
            r.wf(),
            r.remaining() == jobs@,
    {
        let queue = JobQueue { jobs, next: 0 };
        proof {
            assert(queue.remaining() =~= queue.jobs@);
        }
        queue
    }

    /// Hands out the next job, or reports exhaustion.
    pub fn dequeue(&mut self) -> (r: Option<String>)
        requires
            old(self).wf(),
        ensures
            final(self).wf(),
            old(self).remaining().len() == 0 ==> r is None && final(self).remaining()
                == old(self).remaining(),
            old(self).remaining().len() > 0 ==> r == Some(old(self).remaining()[0])
                && final(self).remaining() == old(self).remaining().drop_first(),
    {
        if self.next < self.jobs.len() {
            let job = self.jobs[self.next].clone();
            self.next = self.next + 1;
            proof {
                assert(self.remaining() =~= old(self).remaining().drop_first());
            }
            Some(job)
        } else {
            None
        }
    }
}

} // verus!
