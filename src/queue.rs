use vstd::prelude::*;

verus! {

/// What a worker gets when it asks the queue for work.
pub enum Message<J> {
    /// The next job in submission order.
    Job(J),
    /// The producer side is closed and no job is buffered: no more work.
    Closed,
}

/// An unbounded FIFO channel of jobs with a single producer side.
///
/// Besides the buffered jobs it keeps, as ghost state, every job ever
/// submitted and every delivery made (the id of the receiving worker and the
/// job), so that contracts can speak of the whole history of the queue.
pub struct JobQueue<J> {
    buf: std::collections::VecDeque<J>,
    closed: bool,
    submitted: Ghost<Seq<J>>,
    log: Ghost<Seq<(usize, J)>>,
}

/// The jobs of a delivery log, in the order they were handed out.
pub open spec fn jobs_of<J>(log: Seq<(usize, J)>) -> Seq<J> {
    log.map_values(|e: (usize, J)| e.1)
}

impl<J> JobQueue<J> {
    /// Jobs buffered and not yet delivered, front first.
    pub closed spec fn pending(&self) -> Seq<J> {
        self.buf@
    }

    /// Whether the producer side has been closed.
    pub closed spec fn is_closed(&self) -> bool {
        self.closed
    }

    /// Every job accepted by `send`, in submission order.
    pub closed spec fn submitted(&self) -> Seq<J> {
        self.submitted@
    }

    /// Every delivery made by `recv`, in order: the worker id and the job.
    pub closed spec fn log(&self) -> Seq<(usize, J)> {
        self.log@
    }

    /// Every delivered job, in delivery order.
    pub open spec fn delivered(&self) -> Seq<J> {
        jobs_of(self.log())
    }

    /// Two queue states that no contract can tell apart.
    pub open spec fn same_as(&self, other: &Self) -> bool {
        &&& self.pending() == other.pending()
        &&& self.is_closed() == other.is_closed()
        &&& self.submitted() == other.submitted()
        &&& self.log() == other.log()
    }

    /// The queue's invariant: what was submitted is exactly what was
    /// delivered followed by what is still buffered.
    pub open spec fn wf(&self) -> bool {
        self.submitted() == self.delivered() + self.pending()
    }

    /// An open, empty queue with no history.
    pub fn new() -> (q: Self)
        ensures
            q.wf(),
            !q.is_closed(),
            q.pending() == Seq::<J>::empty(),
            q.submitted() == Seq::<J>::empty(),
            q.log() == Seq::<(usize, J)>::empty(),
    {
        let q = JobQueue {
            buf: std::collections::VecDeque::new(),
            closed: false,
            submitted: Ghost(Seq::empty()),
            log: Ghost(Seq::empty()),
        };
        assert(q.delivered() =~= Seq::<J>::empty());
        assert(q.submitted() =~= q.delivered() + q.pending());
        q
    }

    /// Number of buffered jobs.
    pub fn len(&self) -> (n: usize)
        ensures
            n == self.pending().len(),
    {
        self.buf.len()
    }

    /// Whether the producer side has been closed.
    pub fn closed(&self) -> (r: bool)
        ensures
            r == self.is_closed(),
    {
        self.closed
    }

    /// Appends `job` at the back of the queue, unless the producer side is
    /// closed, in which case the job is handed back and nothing changes.
    pub fn send(&mut self, job: J) -> (r: Result<(), J>)
        requires
            old(self).wf(),
        ensures
            final(self).wf(),
            final(self).is_closed() == old(self).is_closed(),
            final(self).log() == old(self).log(),
            old(self).is_closed() ==> r == Err::<(), J>(job) && final(self).same_as(old(self)),
            !old(self).is_closed() ==> r == Ok::<(), J>(())
                && final(self).pending() == old(self).pending().push(job)
                && final(self).submitted() == old(self).submitted().push(job),
    {
        if self.closed {
            return Err(job);
        }
        proof {
            self.submitted@ = self.submitted@.push(job);
        }
        self.buf.push_back(job);
        proof {
            assert(self.submitted@ =~= self.delivered() + self.pending());
        }
        Ok(())
    }

    /// Closes the producer side. Buffered jobs stay and are still delivered;
    /// closing twice is harmless.
    pub fn close(&mut self)
        requires
            old(self).wf(),
        ensures
            final(self).wf(),
            final(self).is_closed(),
            final(self).pending() == old(self).pending(),
            final(self).submitted() == old(self).submitted(),
            final(self).log() == old(self).log(),
    {
        self.closed = true;
    }

    /// One receive attempt by worker `worker`.
    ///
    /// With a job buffered, the front job is removed and delivered to that
    /// worker. With none buffered and the producer side closed, the result is
    /// `Closed`. With none buffered and the producer side open, the result is
    /// `None`: the worker has to wait for a `send` or a `close`.
    pub fn recv(&mut self, worker: usize) -> (r: Option<Message<J>>)
        requires
            old(self).wf(),
        ensures
            final(self).wf(),
            final(self).is_closed() == old(self).is_closed(),
            final(self).submitted() == old(self).submitted(),
            old(self).pending().len() > 0 ==> r == Some(Message::Job(old(self).pending()[0]))
                && final(self).pending() == old(self).pending().drop_first()
                && final(self).log() == old(self).log().push((worker, old(self).pending()[0])),
            old(self).pending().len() == 0
                && old(self).is_closed() ==> r == Some(Message::<J>::Closed)
                && final(self).same_as(old(self)),
            old(self).pending().len() == 0 && !old(self).is_closed() ==> r == None::<Message<J>>
                && final(self).same_as(old(self)),
    {
        match self.buf.pop_front() {
            Some(job) => {
                proof {
                    let ghost front = old(self).pending()[0];
                    self.log@ = self.log@.push((worker, job));
                    assert(self.delivered() =~= old(self).delivered().push(front));
                    assert(self.submitted() =~= self.delivered() + self.pending());
                }
                Some(Message::Job(job))
            },
            None => {
                if self.closed {
                    Some(Message::Closed)
                } else {
                    None
                }
            },
        }
    }
}

} // verus!
