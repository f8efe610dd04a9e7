use vstd::prelude::*;
use crate::queue::{JobQueue, Message};

verus! {

/// The two states of a worker.
#[derive(Clone, Copy, Debug, PartialEq, Eq, Structural)]
pub enum WorkerState {
    /// Asking the queue for jobs and running them.
    Running,
    /// Has seen the closed queue and left its loop.
    Stopped,
}

/// What a worker does after a message from the queue.
pub enum Step<J> {
    /// Run this job to completion, outside the queue's lock, then ask again.
    Run(J),
    /// Leave the loop: the execution context ends.
    Stop,
}

/// A worker record: its id in the pool and its state.
#[derive(Clone, Copy, Debug)]
pub struct Worker {
    pub id: usize,
    pub state: WorkerState,
}

impl Worker {
    /// A fresh worker with the given id, ready to take jobs.
    pub fn new(id: usize) -> (w: Worker)
        ensures
            w.id == id,
            w.state == WorkerState::Running,
    {
        Worker { id, state: WorkerState::Running }
    }

    /// Whether the worker is still taking jobs.
    pub fn is_running(&self) -> (r: bool)
        ensures
            r == (self.state == WorkerState::Running),
    {
        self.state == WorkerState::Running
    }

    /// The worker's decision on a message from the queue: a job is run and
    /// the worker keeps going; the closed signal stops it.
    pub fn on_message<J>(&mut self, m: Message<J>) -> (s: Step<J>)
        requires
            old(self).state == WorkerState::Running,
        ensures
            final(self).id == old(self).id,
            match m {
                Message::Job(j) => s == Step::Run(j) && final(self).state == WorkerState::Running,
                Message::Closed => s == Step::<J>::Stop && final(self).state
                    == WorkerState::Stopped,
            },
    {
        match m {
            Message::Job(j) => Step::Run(j),
            Message::Closed => {
                self.state = WorkerState::Stopped;
                Step::Stop
            },
        }
    }

    /// One turn of the worker's loop, taken while it holds the queue: it asks
    /// the queue for work under its own id and decides what to do. `None`
    /// means that nothing is buffered and the queue is open: the worker waits
    /// and tries again.
    pub fn poll<J>(&mut self, queue: &mut JobQueue<J>) -> (s: Option<Step<J>>)
        requires
            old(self).state == WorkerState::Running,
            old(queue).wf(),
        ensures
            final(self).id == old(self).id,
            final(queue).wf(),
            final(queue).is_closed() == old(queue).is_closed(),
            final(queue).submitted() == old(queue).submitted(),
            old(queue).pending().len() > 0 ==> s == Some(Step::Run(old(queue).pending()[0]))
                && final(self).state == WorkerState::Running
                && final(queue).pending() == old(queue).pending().drop_first()
                && final(queue).log() == old(queue).log().push(
                    (old(self).id, old(queue).pending()[0]),
                ),
            old(queue).pending().len() == 0 && old(queue).is_closed() ==> s == Some(Step::<J>::Stop)
                && final(self).state == WorkerState::Stopped && final(queue).same_as(old(queue)),
            old(queue).pending().len() == 0 && !old(queue).is_closed() ==> s == None::<Step<J>>
                && final(self).state == WorkerState::Running && final(queue).same_as(old(queue)),
    {
        match queue.recv(self.id) {
            Some(m) => Some(self.on_message(m)),
            None => None,
        }
    }
}

} // verus!
