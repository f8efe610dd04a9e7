use std::cell::Cell;
use std::rc::Rc;
use std::sync::atomic::AtomicUsize;
use std::sync::atomic::Ordering;
use std::sync::Arc;

use thread_pool::pool::PoolClosed;
use thread_pool::pool::ThreadPool;
use thread_pool::queue::JobQueue;
use thread_pool::queue::Message;
use thread_pool::worker::Step;
use thread_pool::worker::Worker;
use thread_pool::worker::WorkerState;

type Job = Box<dyn FnOnce()>;

/// Runs a loop for each worker of `pool`, each with its own record, one poll
/// at a time in turn, until all have stopped. Returns how many jobs each
/// worker ran.
fn drive(pool: &ThreadPool, queue: &mut JobQueue<Job>) -> Vec<usize> {
    let n = pool.size();
    let mut workers: Vec<Worker> = (0..n).map(Worker::new).collect();
    let mut ran = vec![0usize; n];
    loop {
        let mut any = false;
        for w in workers.iter_mut() {
            if !w.is_running() {
                continue;
            }
            any = true;
            match w.poll(queue) {
                Some(Step::Run(job)) => {
                    job();
                    ran[w.id] += 1;
                }
                Some(Step::Stop) => {}
                None => panic!("a drained open queue would block"),
            }
        }
        if !any {
            return ran;
        }
    }
}

#[test]
fn new_pool_has_n_running_workers() {
    for n in [1usize, 2, 4, 9] {
        let pool = ThreadPool::new(n);
        assert_eq!(pool.size(), n);
        assert!(pool.open());
        for i in 0..n {
            let w = pool.worker(i);
            assert_eq!(w.id, i);
            assert!(w.state == WorkerState::Running);
        }
    }
}

#[test]
fn worker_new_is_running() {
    let w = Worker::new(3);
    assert_eq!(w.id, 3);
    assert!(w.is_running());
}

#[test]
fn queue_is_fifo() {
    let pool = ThreadPool::new(1);
    let mut q: JobQueue<u32> = JobQueue::new();
    for j in [5u32, 1, 8, 2] {
        assert_eq!(pool.execute(&mut q, j), Ok(()));
    }
    assert_eq!(q.len(), 4);
    let mut got = Vec::new();
    while let Some(Message::Job(j)) = q.recv(0) {
        got.push(j);
    }
    assert_eq!(got, vec![5, 1, 8, 2]);
}

#[test]
fn recv_on_empty_open_queue_waits() {
    let mut q: JobQueue<u32> = JobQueue::new();
    assert!(q.recv(0).is_none());
    assert!(!q.closed());
}

#[test]
fn recv_on_closed_queue_drains_then_reports_closed() {
    let mut q: JobQueue<u32> = JobQueue::new();
    assert_eq!(q.send(4), Ok(()));
    q.close();
    assert!(q.closed());
    assert!(matches!(q.recv(1), Some(Message::Job(4))));
    assert!(matches!(q.recv(1), Some(Message::Closed)));
    assert!(matches!(q.recv(2), Some(Message::Closed)));
}

#[test]
fn send_on_closed_queue_hands_job_back() {
    let mut q: JobQueue<u32> = JobQueue::new();
    q.close();
    assert_eq!(q.send(6), Err(6));
    assert_eq!(q.len(), 0);
}

#[test]
fn on_message_runs_job_or_stops() {
    let mut w = Worker::new(0);
    assert!(matches!(w.on_message(Message::Job(11u8)), Step::Run(11)));
    assert!(w.is_running());
    assert!(matches!(w.on_message(Message::<u8>::Closed), Step::Stop));
    assert!(w.state == WorkerState::Stopped);
    assert_eq!(w.id, 0);
}

#[test]
fn single_worker_runs_in_submission_order() {
    let mut pool = ThreadPool::new(1);
    let mut q: JobQueue<Job> = JobQueue::new();
    let order = Rc::new(std::cell::RefCell::new(Vec::new()));
    for k in 0..10u32 {
        let o = order.clone();
        assert!(pool.execute(&mut q, Box::new(move || o.borrow_mut().push(k))).is_ok());
    }
    assert_eq!(pool.teardown(&mut q), vec![0]);
    let ran = drive(&pool, &mut q);
    assert_eq!(ran, vec![10]);
    assert_eq!(*order.borrow(), (0..10).collect::<Vec<u32>>());
}

#[test]
fn several_workers_run_every_job_once() {
    let mut pool = ThreadPool::new(3);
    let mut q: JobQueue<Job> = JobQueue::new();
    let seen = Rc::new(std::cell::RefCell::new(vec![0u32; 25]));
    for k in 0..25usize {
        let s = seen.clone();
        assert!(pool.execute(&mut q, Box::new(move || s.borrow_mut()[k] += 1)).is_ok());
    }
    pool.teardown(&mut q);
    let ran = drive(&pool, &mut q);
    assert_eq!(ran.iter().sum::<usize>(), 25);
    assert!(seen.borrow().iter().all(|&c| c == 1));
}

#[test]
fn thousand_noop_jobs_on_four_workers() {
    let mut pool = ThreadPool::new(4);
    let mut q: JobQueue<Job> = JobQueue::new();
    let count = Arc::new(AtomicUsize::new(0));
    for _ in 0..1000 {
        let c = count.clone();
        assert!(pool
            .execute(&mut q, Box::new(move || {
                c.fetch_add(1, Ordering::SeqCst);
            }))
            .is_ok());
    }
    assert_eq!(pool.teardown(&mut q), vec![0, 1, 2, 3]);
    let ran = drive(&pool, &mut q);
    assert_eq!(ran.iter().sum::<usize>(), 1000);
    assert_eq!(count.load(Ordering::SeqCst), 1000);
}

#[test]
fn teardown_lets_buffered_job_finish_first() {
    let mut pool = ThreadPool::new(1);
    let mut q: JobQueue<Job> = JobQueue::new();
    let flag = Rc::new(Cell::new(false));
    let f = flag.clone();
    assert!(pool.execute(&mut q, Box::new(move || f.set(true))).is_ok());
    // The worker's loop holds its own copy of the record.
    let mut w = pool.worker(0);
    assert_eq!(pool.teardown(&mut q), vec![0]);
    assert!(q.closed());
    match w.poll(&mut q) {
        Some(Step::Run(job)) => job(),
        _ => panic!("the buffered job must be delivered"),
    }
    assert!(flag.get());
    assert!(matches!(w.poll(&mut q), Some(Step::Stop)));
    assert!(!w.is_running());
}

#[test]
fn teardown_stops_every_worker_and_is_idempotent() {
    let mut pool = ThreadPool::new(5);
    let mut q: JobQueue<u8> = JobQueue::new();
    assert_eq!(pool.teardown(&mut q), vec![0, 1, 2, 3, 4]);
    assert!(!pool.open());
    for i in 0..5 {
        assert!(!pool.worker(i).is_running());
    }
    assert_eq!(pool.teardown(&mut q), Vec::<usize>::new());
    assert!(q.closed());
    assert_eq!(pool.size(), 5);
}

#[test]
fn execute_after_teardown_is_pool_closed() {
    let mut pool = ThreadPool::new(2);
    let mut q: JobQueue<u8> = JobQueue::new();
    assert_eq!(pool.execute(&mut q, 1), Ok(()));
    pool.teardown(&mut q);
    assert_eq!(pool.execute(&mut q, 2), Err(PoolClosed));
    assert_eq!(q.len(), 1);
}

#[test]
fn execute_on_closed_queue_is_pool_closed() {
    let pool = ThreadPool::new(2);
    let mut q: JobQueue<u8> = JobQueue::new();
    q.close();
    assert_eq!(pool.execute(&mut q, 1), Err(PoolClosed));
    assert_eq!(q.len(), 0);
}
