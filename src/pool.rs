use vstd::prelude::*;
use crate::queue::JobQueue;
use crate::worker::{Worker, WorkerState};

verus! {

/// The error of a submission made after teardown has closed the pool.
#[derive(Clone, Copy, Debug, PartialEq, Eq, Structural)]
pub struct PoolClosed;

/// The ids `0 .. n` in order.
pub open spec fn id_range(n: nat) -> Seq<usize> {
    Seq::new(n, |i: int| i as usize)
}

/// The dispatcher: the producer handle (present while the pool is open) and
/// the records of its workers.
pub struct ThreadPool {
    workers: Vec<Worker>,
    sender: bool,
}

impl ThreadPool {
    /// The worker records, in id order.
    pub closed spec fn workers(&self) -> Seq<Worker> {
        self.workers@
    }

    /// Whether the producer handle is still held.
    pub closed spec fn is_open(&self) -> bool {
        self.sender
    }

    /// The pool's invariant: worker `i` has id `i`, there is at least one,
    /// and the workers run exactly while the producer handle is held.
    pub open spec fn wf(&self) -> bool {
        &&& self.workers().len() > 0
        &&& forall|i: int|
            0 <= i < self.workers().len() ==> (#[trigger] self.workers()[i]).id == i
                && self.workers()[i].state == (if self.is_open() {
                WorkerState::Running
            } else {
                WorkerState::Stopped
            })
    }

    /// A pool of `size` workers with ids `0 .. size`, all running, and an open
    /// producer handle. A pool of no workers is a configuration error.
    pub fn new(size: usize) -> (p: ThreadPool)
        requires
            size > 0,
        ensures
            p.wf(),
            p.is_open(),
            p.workers().len() == size,
            forall|i: int|
                0 <= i < size ==> (#[trigger] p.workers()[i]).id == i && p.workers()[i].state
                    == WorkerState::Running,
    {
        let mut workers: Vec<Worker> = Vec::with_capacity(size);
        let mut id: usize = 0;
        while id < size
            invariant
                id <= size,
                workers@.len() == id,
                forall|i: int|
                    0 <= i < id ==> (#[trigger] workers@[i]).id == i && workers@[i].state
                        == WorkerState::Running,
            decreases size - id,
        {
            workers.push(Worker::new(id));
            id = id + 1;
        }
        ThreadPool { workers, sender: true }
    }

    /// Number of workers.
    pub fn size(&self) -> (n: usize)
        ensures
            n == self.workers().len(),
    {
        self.workers.len()
    }

    /// Whether the pool still accepts jobs.
    pub fn open(&self) -> (r: bool)
        ensures
            r == self.is_open(),
    {
        self.sender
    }

    /// The record of worker `i`.
    pub fn worker(&self, i: usize) -> (w: Worker)
        requires
            i < self.workers().len(),
        ensures
            w == self.workers()[i as int],
    {
        self.workers[i]
    }

    /// Submits `job`: while the pool and its queue are open the job goes to
    /// the back of the queue; otherwise the queue is left as it was and the
    /// result is `PoolClosed`.
    pub fn execute<J>(&self, queue: &mut JobQueue<J>, job: J) -> (r: Result<(), PoolClosed>)
        requires
            old(queue).wf(),
        ensures
            final(queue).wf(),
            final(queue).log() == old(queue).log(),
            final(queue).is_closed() == old(queue).is_closed(),
            r is Ok <==> self.is_open() && !old(queue).is_closed(),
            r is Ok ==> final(queue).pending() == old(queue).pending().push(job)
                && final(queue).submitted() == old(queue).submitted().push(job),
            r is Err ==> final(queue).same_as(old(queue)),
    {
        if !self.sender {
            return Err(PoolClosed);
        }
        match queue.send(job) {
            Ok(()) => Ok(()),
            Err(_) => Err(PoolClosed),
        }
    }

    /// Teardown. On an open pool: closes the queue's producer side first, so
    /// that every worker sees the closed signal once the buffered jobs are
    /// gone, marks every worker stopped, and returns the ids to wait for, in
    /// id order. On a pool already torn down it does nothing and returns no
    /// id.
    pub fn teardown<J>(&mut self, queue: &mut JobQueue<J>) -> (join: Vec<usize>)
        requires
            old(self).wf(),
            old(queue).wf(),
        ensures
            final(self).wf(),
            !final(self).is_open(),
            final(self).workers().len() == old(self).workers().len(),
            forall|i: int|
                0 <= i < final(self).workers().len() ==> (#[trigger] final(self).workers()[i]).state
                    == WorkerState::Stopped,
            final(queue).wf(),
            final(queue).pending() == old(queue).pending(),
            final(queue).submitted() == old(queue).submitted(),
            final(queue).log() == old(queue).log(),
            old(self).is_open() ==> final(queue).is_closed()
                && join@ == id_range(old(self).workers().len()),
            !old(self).is_open() ==> final(queue).same_as(old(queue)) && join@.len() == 0,
    {
        let mut join: Vec<usize> = Vec::new();
        if !self.sender {
            return join;
        }
        queue.close();
        self.sender = false;
        let n = self.workers.len();
        let mut i: usize = 0;
        while i < n
            invariant
                n == self.workers@.len(),
                n == old(self).workers@.len(),
                i <= n,
                !self.sender,
                join@ == id_range(i as nat),
                forall|k: int|
                    0 <= k < n ==> (#[trigger] self.workers@[k]).id == k && self.workers@[k].state
                        == (if k < i {
                        WorkerState::Stopped
                    } else {
                        WorkerState::Running
                    }),
            decreases n - i,
        {
            self.workers.set(i, Worker { id: i, state: WorkerState::Stopped });
            join.push(i);
            assert(join@ =~= id_range((i + 1) as nat));
            i = i + 1;
        }
        join
    }
}

} // verus!
