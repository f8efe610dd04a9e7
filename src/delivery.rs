use vstd::prelude::*;
use crate::queue::{jobs_of, JobQueue};

verus! {

/// The jobs delivered to worker `w`, in the order that worker received them.
pub open spec fn received_by<J>(log: Seq<(usize, J)>, w: usize) -> Seq<J>
    decreases log.len(),
{
    if log.len() == 0 {
        Seq::empty()
    } else {
        let rest = received_by(log.drop_last(), w);
        if log.last().0 == w {
            rest.push(log.last().1)
        } else {
            rest
        }
    }
}

/// How many jobs the workers `0 .. n` received together.
pub open spec fn total_received<J>(log: Seq<(usize, J)>, n: nat) -> nat
    decreases n,
{
    if n == 0 {
        0
    } else {
        total_received(log, (n - 1) as nat) + received_by(log, (n - 1) as usize).len()
    }
}

/// Every delivery in the log went to a worker id below `n`.
pub open spec fn ids_below<J>(log: Seq<(usize, J)>, n: nat) -> bool {
    forall|i: int| 0 <= i < log.len() ==> (#[trigger] log[i]).0 < n
}

proof fn lemma_received_by_all<J>(log: Seq<(usize, J)>, w: usize)
    requires
        forall|i: int| 0 <= i < log.len() ==> (#[trigger] log[i]).0 == w,
    ensures
        received_by(log, w) == jobs_of(log),
    decreases log.len(),
{
    if log.len() > 0 {
        let front = log.drop_last();
        assert forall|i: int| 0 <= i < front.len() implies (#[trigger] front[i]).0 == w by {
            assert(front[i] == log[i]);
        }
        lemma_received_by_all(front, w);
        assert(jobs_of(log) =~= jobs_of(front).push(log.last().1));
    }
}

proof fn lemma_total_received_push<J>(log: Seq<(usize, J)>, e: (usize, J), m: nat)
    requires
        m <= usize::MAX + 1,
    ensures
        total_received(log.push(e), m) == total_received(log, m) + (if e.0 < m {
            1nat
        } else {
            0nat
        }),
    decreases m,
{
    if m > 0 {
        lemma_total_received_push(log, e, (m - 1) as nat);
        assert(log.push(e).drop_last() =~= log);
    }
}

proof fn lemma_total_received_log<J>(log: Seq<(usize, J)>, n: nat)
    requires
        n <= usize::MAX + 1,
        ids_below(log, n),
    ensures
        total_received(log, n) == log.len(),
    decreases log.len(),
{
    if log.len() == 0 {
        lemma_total_received_empty(log, n);
    } else {
        let front = log.drop_last();
        assert forall|i: int| 0 <= i < front.len() implies (#[trigger] front[i]).0 < n by {
            assert(front[i] == log[i]);
        }
        lemma_total_received_log(front, n);
        assert(front.push(log.last()) =~= log);
        lemma_total_received_push(front, log.last(), n);
        assert(log[log.len() - 1].0 < n);
    }
}

proof fn lemma_total_received_empty<J>(log: Seq<(usize, J)>, n: nat)
    requires
        log.len() == 0,
    ensures
        total_received(log, n) == 0,
    decreases n,
{
    if n > 0 {
        lemma_total_received_empty(log, (n - 1) as nat);
    }
}

/// Submission order is kept: the jobs handed out so far are exactly the
/// first jobs submitted, in the same order, so a job submitted before
/// another is never delivered after it.
pub proof fn lemma_delivered_in_submission_order<J>(q: JobQueue<J>)
    requires
        q.wf(),
    ensures
        q.delivered().len() <= q.submitted().len(),
        q.delivered() == q.submitted().take(q.delivered().len() as int),
        forall|a: int, b: int|
            0 <= a < b < q.submitted().len() && b < q.delivered().len() ==> q.delivered()[a]
                == q.submitted()[a] && q.delivered()[b] == q.submitted()[b],
{
    assert(q.delivered() =~= q.submitted().take(q.delivered().len() as int));
}

/// Nothing is lost or repeated: once the queue is closed and drained (the
/// only state in which a worker is told to stop), every submitted job has
/// been delivered exactly once, in submission order.
pub proof fn lemma_drained_queue_delivered_all<J>(q: JobQueue<J>)
    requires
        q.wf(),
        q.is_closed(),
        q.pending().len() == 0,
    ensures
        q.delivered() == q.submitted(),
        q.log().len() == q.submitted().len(),
{
    assert(q.delivered() + q.pending() =~= q.delivered());
}

/// With a single worker, the jobs that worker receives, in the order it
/// receives and runs them, are the submitted jobs in submission order.
pub proof fn lemma_single_worker_runs_in_order<J>(q: JobQueue<J>)
    requires
        q.wf(),
        ids_below(q.log(), 1),
    ensures
        received_by(q.log(), 0) == q.delivered(),
        received_by(q.log(), 0) == q.submitted().take(q.delivered().len() as int),
{
    lemma_received_by_all(q.log(), 0);
    lemma_delivered_in_submission_order(q);
}

/// With `n` workers, the numbers of jobs the workers received add up to the
/// number of jobs delivered; once the queue is closed and drained, to the
/// number of jobs submitted.
pub proof fn lemma_workers_share_all_jobs<J>(q: JobQueue<J>, n: usize)
    requires
        q.wf(),
        ids_below(q.log(), n as nat),
    ensures
        total_received(q.log(), n as nat) == q.delivered().len(),
        q.is_closed() && q.pending().len() == 0 ==> total_received(q.log(), n as nat)
            == q.submitted().len(),
{
    lemma_total_received_log(q.log(), n as nat);
    if q.is_closed() && q.pending().len() == 0 {
        lemma_drained_queue_delivered_all(q);
    }
}

} // verus!
