//! What a thread of the I/O pool does.

use vstd::prelude::*;
use super::queue::IoQueues;

verus! {

/// What a worker has to do next.
#[derive(Debug)]
pub enum Step<T> {
    /// End.
    Exit,
    /// Run a task.
    Run(T),
    /// Sleep until a task is added.
    Sleep,
}

/// A worker of the I/O pool.
#[derive(Debug)]
pub struct Worker {
    asleep: bool,
}

impl View for Worker {
    type V = bool;

    /// Whether the worker was sent to sleep and has got no task since.
    closed spec fn view(&self) -> bool {
        self.asleep
    }
}

impl Worker {
    /// A worker that has not done anything yet.
    pub fn new() -> (r: Worker)
        ensures
            !r@,
    {
        Worker { asleep: false }
    }

    /// Decides what comes next, before the first task, after each task and after each sleep. The
    /// worker ends if the pool is to stop, except when it was asleep: then it first gets a task.
    pub fn next<T>(&mut self, stop: bool, queues: &mut IoQueues<T>) -> (r: Step<T>)
        ensures
            match r {
                Step::Exit => {
                    &&& stop && !old(self)@
                    &&& final(queues)@ == old(queues)@
                    &&& !final(self)@
                },
                Step::Run(task) => {
                    &&& !stop || old(self)@
                    &&& super::queue::takes(old(queues)@, final(queues)@, Some(task))
                    &&& !final(self)@
                },
                Step::Sleep => {
                    &&& !stop || old(self)@
                    &&& super::queue::takes(old(queues)@, final(queues)@, None)
                    &&& final(self)@
                },
            },
    {
        if !self.asleep && stop {
            return Step::Exit;
        }
        match queues.pop() {
            Some(task) => {
                self.asleep = false;
                Step::Run(task)
            },
            None => {
                self.asleep = true;
                Step::Sleep
            },
        }
    }

    /// Takes note of how a task ended. One that panicked is dropped and reported; the worker
    /// serves on either way.
    pub fn ran(&self, panicked: bool) -> (r: Option<&'static str>)
        ensures
            panicked ==> r == Some("[std::job] io worker task panicked (task dropped)"),
            !panicked ==> r is None,
    {
        if panicked {
            Some("[std::job] io worker task panicked (task dropped)")
        } else {
            None
        }
    }
}

} // verus!
