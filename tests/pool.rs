use thread_pool::{Once, Promise, Semaphore, TaskPolicy, ThreadPool, ONCE_POLL_INTERVAL_MS};

#[test]
fn new_pool_is_not_running() {
    let p = ThreadPool::new(4);
    assert!(!p.is_running());
    assert!(p.is_stopped());
    assert_eq!(p.max_concurrency(), 4);
}

#[test]
fn start_sets_running() {
    let p = ThreadPool::new(2).start();
    assert!(p.is_running());
    assert!(!p.is_stopped());
}

#[test]
fn join_stops_and_drains_in_spawn_order() {
    let mut p = ThreadPool::new(2);
    assert_eq!(p.spawn(), 0);
    assert_eq!(p.spawn(), 1);
    assert_eq!(p.spawn(), 2);
    let (stopped, ids) = p.start().join();
    assert_eq!(ids, vec![0, 1, 2]);
    assert!(!stopped.is_running());
    assert!(stopped.is_stopped());
}

#[test]
fn spawns_registers_in_order() {
    let mut p = ThreadPool::new(3);
    assert_eq!(p.spawn(), 0);
    assert_eq!(p.spawns(3), vec![1, 2, 3]);
    let (stopped, ids) = p.run();
    assert_eq!(ids, vec![0, 1, 2, 3]);
    assert!(stopped.is_stopped());
}

#[test]
fn run_with_no_tasks() {
    let (stopped, ids) = ThreadPool::new(1).run();
    assert!(ids.is_empty());
    assert!(!stopped.is_running());
}

#[test]
fn pool_semaphore_has_capacity_permits() {
    let p = ThreadPool::new(5);
    assert_eq!(p.semaphore().available(), 5);
}

#[test]
fn once_policy_waits_for_running_flag() {
    assert!(!Once::ready(false));
    assert!(Once::ready(true));
    assert_eq!(Once::poll_interval_ms(), 5);
    assert_eq!(ONCE_POLL_INTERVAL_MS, 5);
}

#[test]
fn single_task_result_is_delivered() {
    let mut pool = ThreadPool::new(1);
    let id = pool.spawn();
    let mut promise = Promise::new();
    let pool = pool.start();
    let mut sem: Semaphore = pool.semaphore();
    assert!(sem.try_acquire());
    promise.set(id as i64 + 42);
    sem.release();
    let (_stopped, ids) = pool.join();
    assert_eq!(ids, vec![0]);
    assert_eq!(promise.get(), 42);
}

#[test]
fn admitted_tasks_never_exceed_capacity() {
    for k in 1..4usize {
        for n in k..8usize {
            let mut pool = ThreadPool::new(k);
            let ids = pool.spawns(n);
            let pool = pool.start();
            let mut sem = pool.semaphore();
            let mut in_flight: Vec<usize> = Vec::new();
            let mut peak = 0usize;
            let mut next = 0usize;
            let mut done = 0usize;
            while done < n {
                while next < n && sem.try_acquire() {
                    in_flight.push(ids[next]);
                    next += 1;
                    peak = peak.max(in_flight.len());
                }
                in_flight.remove(0);
                sem.release();
                done += 1;
            }
            assert!(peak <= k);
            assert_eq!(peak, k);
            assert_eq!(sem.available(), k);
            let (stopped, drained) = pool.join();
            assert_eq!(drained.len(), n);
            assert!(stopped.is_stopped());
        }
    }
}
