//! The queue of jobs that wait for a device.

use vstd::prelude::*;
use std::collections::VecDeque;

verus! {

/// A queue of jobs, first in, first out. What a job is, its user says.
pub struct JobQueue<J> {
    inner: VecDeque<J>,
}

impl<J> View for JobQueue<J> {
    type V = Seq<J>;

    /// The waiting jobs, the next one first.
    closed spec fn view(&self) -> Seq<J> {
        self.inner@
    }
}

impl<J> JobQueue<J> {
    /// An empty queue.
    pub fn new() -> (queue: JobQueue<J>)
        ensures
            queue@ == Seq::<J>::empty(),
    {
        JobQueue { inner: VecDeque::new() }
    }

    /// Whether no job waits.
    pub fn is_empty(&self) -> (empty: bool)
        ensures
            empty == (self@.len() == 0),
    {
        self.inner.len() == 0
    }

    /// Puts a job at the end of the queue.
    pub fn enqueue(&mut self, job: J)
        ensures
            final(self)@ == old(self)@.push(job),
    {
        self.inner.push_back(job);
    }

    /// Takes the job that has waited longest, if any waits.
    pub fn dequeue(&mut self) -> (job: Option<J>)
        ensures
            old(self)@.len() == 0 ==> job is None && final(self)@ == old(self)@,
            old(self)@.len() > 0 ==> job == Some(old(self)@[0]) && final(self)@ == old(
                self,
            )@.drop_first(),
    {
        let job = self.inner.pop_front();
        proof {
            if old(self)@.len() > 0 {
                assert(self.inner@ =~= old(self)@.drop_first());
            }
        }
        job
    }

    /// The number of waiting jobs.
    pub fn len(&self) -> (count: usize)
        ensures
            count == self@.len(),
    {
        self.inner.len()
    }
}

} // verus!
