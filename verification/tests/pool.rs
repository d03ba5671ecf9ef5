use hello::{Job, Received, SubmitError, ThreadPool};

#[test]
fn shutdown_with_zero_submissions_completes() {
    let mut pool = ThreadPool::new(3);
    pool.shutdown();
    assert_eq!(pool.executed.len(), 0);
    assert!(pool.sender.is_none());
    assert_eq!(pool.queue.len(), 0);
}

#[test]
fn drop_joins_every_worker() {
    let mut pool = ThreadPool::new(5);
    assert_eq!(pool.workers.len(), 5);
    assert!(pool.workers.iter().all(|w| w.thread.is_some()));
    pool.shutdown();
    assert_eq!(pool.workers.len(), 5);
    assert!(pool.workers.iter().all(|w| w.thread.is_none()));
}

#[test]
fn hundred_jobs_all_recorded_exactly_once() {
    let mut pool = ThreadPool::new(4);
    for id in 0..100u64 {
        pool.execute(Job { id }).unwrap();
    }
    pool.shutdown();
    assert_eq!(pool.executed.len(), 100);
    for id in 0..100u64 {
        let count = pool.executed.iter().filter(|&&e| e == id).count();
        assert_eq!(count, 1);
    }
}

#[test]
fn submitted_identities_all_recorded() {
    let mut pool = ThreadPool::new(2);
    let ids = [10u64, 20, 30, 40, 50];
    for &id in ids.iter() {
        pool.execute(Job { id }).unwrap();
    }
    pool.shutdown();
    let mut seen: Vec<u64> = pool.executed.clone();
    seen.sort();
    assert_eq!(seen, vec![10, 20, 30, 40, 50]);
}

#[test]
fn execute_after_shutdown_is_refused() {
    let mut pool = ThreadPool::new(1);
    pool.shutdown();
    let r = pool.execute(Job { id: 7 });
    assert_eq!(r, Err(SubmitError::ChannelClosed));
    assert_eq!(pool.executed.len(), 0);
}

#[test]
fn worker_loop_claims_and_runs_in_order() {
    let mut pool = ThreadPool::new(1);
    pool.execute(Job { id: 11 }).unwrap();
    pool.execute(Job { id: 22 }).unwrap();

    assert_eq!(pool.worker_recv(0), Received::NewJob(11));
    pool.worker_finish(0);
    assert_eq!(pool.worker_recv(0), Received::NewJob(22));
    pool.worker_finish(0);
    assert_eq!(pool.worker_recv(0), Received::Empty);

    pool.shutdown();
    assert_eq!(pool.executed, vec![11, 22]);
}

#[test]
fn manual_teardown_step_by_step() {
    let mut pool = ThreadPool::new(2);
    pool.execute(Job { id: 5 }).unwrap();
    pool.close();
    assert_eq!(pool.execute(Job { id: 6 }), Err(SubmitError::ChannelClosed));

    assert_eq!(pool.worker_recv(0), Received::NewJob(5));
    pool.worker_finish(0);
    assert_eq!(pool.worker_recv(0), Received::Disconnected);
    assert_eq!(pool.worker_recv(1), Received::Disconnected);

    pool.join_worker(0);
    pool.join_worker(1);
    assert!(pool.workers.iter().all(|w| w.thread.is_none()));
    assert_eq!(pool.executed, vec![5]);
}

#[test]
fn jobs_claimed_before_shutdown_still_finish() {
    let mut pool = ThreadPool::new(2);
    pool.execute(Job { id: 1 }).unwrap();
    pool.execute(Job { id: 2 }).unwrap();
    let r = pool.worker_recv(0);
    assert_eq!(r, Received::NewJob(1));
    pool.shutdown();
    let mut seen = pool.executed.clone();
    seen.sort();
    assert_eq!(seen, vec![1, 2]);
}
