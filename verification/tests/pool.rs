use std::cell::{Cell, RefCell};
use std::sync::atomic::{AtomicUsize, Ordering};
use std::sync::Arc;

use service_pool::job::Job;
use service_pool::service_pool::{PoolError, ServicePool};
use service_pool::worker::{worker_step, Message, Worker};

type Consumer = crossbeam_channel::Receiver<Message>;

fn drain(receiver: &Consumer) {
    while worker_step(receiver) {}
}

#[test]
fn zero_size_is_a_configuration_error() {
    let spawned = Cell::new(0usize);
    let made: Result<ServicePool<()>, PoolError> = ServicePool::new(0, |_rx: Consumer| {
        spawned.set(spawned.get() + 1);
    });
    match made {
        Err(e) => assert_eq!(e, PoolError::ZeroSize),
        Ok(_) => panic!("a zero-sized pool must be refused"),
    }
    assert_eq!(spawned.get(), 0);
}

#[test]
fn new_starts_one_worker_per_slot() {
    for n in 1..6usize {
        let spawned = Cell::new(0usize);
        let pool: ServicePool<usize> = ServicePool::new(n, |_rx: Consumer| {
            let id = spawned.get();
            spawned.set(id + 1);
            id
        })
        .unwrap();
        assert_eq!(spawned.get(), n);
        assert_eq!(pool.size(), n);
        assert_eq!(pool.live_workers(), n);
    }
}

#[test]
fn teardown_joins_every_worker_exactly_once() {
    let receivers: RefCell<Vec<Consumer>> = RefCell::new(Vec::new());
    let mut pool: ServicePool<()> = ServicePool::new(3, |rx: Consumer| {
        receivers.borrow_mut().push(rx);
    })
    .unwrap();
    assert_eq!(pool.live_workers(), 3);

    let joined = Cell::new(0usize);
    pool.shutdown(|_h: ()| {
        joined.set(joined.get() + 1);
    });

    assert_eq!(joined.get(), 3);
    assert_eq!(pool.size(), 3);
    assert_eq!(pool.live_workers(), 0);

    // Exactly three Terminate messages are pending: each stops one receive
    // loop, and after the third the queue holds nothing more.
    for rx in receivers.borrow().iter() {
        drain(rx);
    }
}

#[test]
fn immediate_teardown_with_no_jobs_completes() {
    for n in 1..5usize {
        let receivers: RefCell<Vec<Consumer>> = RefCell::new(Vec::new());
        let mut pool: ServicePool<()> = ServicePool::new(n, |rx: Consumer| {
            receivers.borrow_mut().push(rx);
        })
        .unwrap();
        pool.shutdown(|_h: ()| {});
        assert_eq!(pool.live_workers(), 0);
        for rx in receivers.borrow().iter() {
            drain(rx);
        }
    }
}

fn counter_run(jobs: usize) -> usize {
    let receivers: RefCell<Vec<Consumer>> = RefCell::new(Vec::new());
    let mut pool: ServicePool<()> = ServicePool::new(2, |rx: Consumer| {
        receivers.borrow_mut().push(rx);
    })
    .unwrap();

    let counter = Arc::new(AtomicUsize::new(0));
    for _ in 0..jobs {
        let c = Arc::clone(&counter);
        pool.execute(move || {
            c.fetch_add(1, Ordering::SeqCst);
        });
    }
    pool.shutdown(|_h: ()| {});
    for rx in receivers.borrow().iter() {
        drain(rx);
    }
    counter.load(Ordering::SeqCst)
}

#[test]
fn every_job_runs_exactly_once_m_0() {
    assert_eq!(counter_run(0), 0);
}

#[test]
fn every_job_runs_exactly_once_m_1() {
    assert_eq!(counter_run(1), 1);
}

#[test]
fn every_job_runs_exactly_once_m_10() {
    assert_eq!(counter_run(10), 10);
}

#[test]
fn every_job_runs_exactly_once_m_1000() {
    assert_eq!(counter_run(1000), 1000);
}

#[test]
fn jobs_are_handed_out_in_submission_order() {
    let receivers: RefCell<Vec<Consumer>> = RefCell::new(Vec::new());
    let mut pool: ServicePool<()> = ServicePool::new(1, |rx: Consumer| {
        receivers.borrow_mut().push(rx);
    })
    .unwrap();

    let seen = Arc::new(std::sync::Mutex::new(Vec::new()));
    for i in 0..50usize {
        let s = Arc::clone(&seen);
        pool.execute(move || {
            s.lock().unwrap().push(i);
        });
    }
    pool.shutdown(|_h: ()| {});
    drain(&receivers.borrow()[0]);

    let order = seen.lock().unwrap().clone();
    let expected: Vec<usize> = (0..50).collect();
    assert_eq!(order, expected);
}

#[test]
fn submitted_job_runs_through_the_queue() {
    let receivers: RefCell<Vec<Consumer>> = RefCell::new(Vec::new());
    let mut pool: ServicePool<()> = ServicePool::new(1, |rx: Consumer| {
        receivers.borrow_mut().push(rx);
    })
    .unwrap();
    let ran = Arc::new(AtomicUsize::new(0));
    let r = Arc::clone(&ran);
    pool.submit(Job::new(move || {
        r.fetch_add(1, Ordering::SeqCst);
    }));
    pool.shutdown(|_h: ()| {});
    drain(&receivers.borrow()[0]);
    assert_eq!(ran.load(Ordering::SeqCst), 1);
}

#[test]
fn worker_keeps_its_id_and_hands_over_its_thread_once() {
    let (_tx, rx) = crossbeam_channel::unbounded::<Message>();
    let mut worker: Worker<u32> = Worker::new(9, rx, &|_r: Consumer| 41u32);
    assert_eq!(worker.id, 9);
    assert_eq!(worker.thread, Some(41));
    let joined = Cell::new(0u32);
    worker.join(|h: u32| joined.set(h));
    assert_eq!(joined.get(), 41);
    assert_eq!(worker.id, 9);
    assert_eq!(worker.thread, None);
}

#[test]
fn closed_channel_stops_a_worker_loop() {
    let (tx, rx) = crossbeam_channel::unbounded::<Message>();
    drop(tx);
    // No producer is left: the first step reports an implicit terminate.
    assert!(!worker_step(&rx));
}
