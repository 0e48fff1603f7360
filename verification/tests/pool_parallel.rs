use std::sync::atomic::{AtomicUsize, Ordering};
use std::sync::Arc;
use std::time::Instant;

use service_pool::service_pool::ServicePool;
use service_pool::worker::{worker_step, Message};

type Consumer = crossbeam_channel::Receiver<Message>;

fn parallel_counter_run(workers: usize, jobs: usize) -> usize {
    let counter = Arc::new(AtomicUsize::new(0));
    rayon::scope(|s| {
        let mut pool: ServicePool<()> = ServicePool::new(workers, |rx: Consumer| {
            s.spawn(move |_| while worker_step(&rx) {});
        })
        .unwrap();
        for _ in 0..jobs {
            let c = Arc::clone(&counter);
            pool.execute(move || {
                c.fetch_add(1, Ordering::SeqCst);
            });
        }
        pool.shutdown(|_h: ()| {});
        // The scope ends only once every worker loop has consumed its
        // terminate signal and stopped.
    });
    counter.load(Ordering::SeqCst)
}

#[test]
fn concurrent_workers_run_every_job_exactly_once() {
    assert_eq!(parallel_counter_run(3, 0), 0);
    assert_eq!(parallel_counter_run(3, 1), 1);
    assert_eq!(parallel_counter_run(3, 10), 10);
    assert_eq!(parallel_counter_run(3, 1000), 1000);
}

#[test]
fn teardown_with_no_jobs_stops_every_worker() {
    for n in 1..4usize {
        let stopped = Arc::new(AtomicUsize::new(0));
        rayon::scope(|s| {
            let mut pool: ServicePool<()> = ServicePool::new(n, |rx: Consumer| {
                let done = Arc::clone(&stopped);
                s.spawn(move |_| {
                    while worker_step(&rx) {}
                    done.fetch_add(1, Ordering::SeqCst);
                });
            })
            .unwrap();
            pool.shutdown(|_h: ()| {});
        });
        // Every worker loop exited on its own terminate signal.
        assert_eq!(stopped.load(Ordering::SeqCst), n);
    }
}

#[test]
fn two_jobs_can_overlap_on_two_workers() {
    let in_flight = Arc::new(AtomicUsize::new(0));
    let overlaps_seen = Arc::new(AtomicUsize::new(0));
    rayon::scope(|s| {
        let mut pool: ServicePool<()> = ServicePool::new(2, |rx: Consumer| {
            s.spawn(move |_| while worker_step(&rx) {});
        })
        .unwrap();
        for _ in 0..2 {
            let entered = Arc::clone(&in_flight);
            let overlaps = Arc::clone(&overlaps_seen);
            pool.execute(move || {
                entered.fetch_add(1, Ordering::SeqCst);
                let started = Instant::now();
                // Wait until the other job is also in flight, up to a timeout.
                while entered.load(Ordering::SeqCst) < 2 && started.elapsed().as_secs() < 5 {
                    std::hint::spin_loop();
                }
                if entered.load(Ordering::SeqCst) == 2 {
                    overlaps.fetch_add(1, Ordering::SeqCst);
                }
            });
        }
        pool.shutdown(|_h: ()| {});
    });
    // Both jobs saw the other in flight: their execution windows overlapped.
    assert_eq!(overlaps_seen.load(Ordering::SeqCst), 2);
}
