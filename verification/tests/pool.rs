use work_pool::{Work, WorkPool};

#[test]
fn should_create_pool() {
    let pool: WorkPool<()> = WorkPool::new(8, None, None).unwrap();
    assert_eq!(pool.thread_count(), 8);
}

#[test]
fn zero_threads_resolve_to_detected_parallelism() {
    let pool: WorkPool<u32> = WorkPool::new(0, None, Some(4)).unwrap();
    assert_eq!(pool.thread_count(), 4);
}

#[test]
fn construction_fails_without_detected_parallelism() {
    let r: Result<WorkPool<u32>, ()> = WorkPool::new(0, None, None);
    assert!(r.is_err());
}

#[test]
fn queue_hint_defaults_to_sixty_four() {
    let pool: WorkPool<u32> = WorkPool::new(2, None, None).unwrap();
    assert_eq!(pool.queue_capacity_hint(), 64);
}

#[test]
fn queue_hint_of_zero_is_coerced_to_one() {
    let pool: WorkPool<u32> = WorkPool::new(2, Some(0), None).unwrap();
    assert_eq!(pool.queue_capacity_hint(), 1);
}

// Pool with 4 workers and capacity hint 64: dispatch integers 1..=4 one by
// one, then 5..=8 as a batch; start, then close. Exactly 8 jobs covering
// 1..=8 each exactly once are handed out before any worker sees its quit
// sentinel, and exactly 4 sentinels follow, one per worker.
#[test]
fn eight_jobs_four_workers_all_executed_once() {
    let mut pool: WorkPool<i32> = WorkPool::new(4, Some(64), None).unwrap();
    let spawned: usize = pool.set_executor_and_start();
    assert_eq!(spawned, 4);

    for i in 1i32..=4i32 {
        pool.dispatch(i);
    }
    pool.dispatch_many(vec![5, 6, 7, 8]);
    assert_eq!(pool.queue_len(), 8);

    let joined: usize = pool.close();
    assert_eq!(joined, 4);
    assert_eq!(pool.live_worker_count(), 0);
    assert_eq!(pool.queue_len(), 12);

    let mut executed: Vec<i32> = Vec::new();
    let mut quits: usize = 0;
    while pool.queue_len() > 0 {
        match pool.take_work() {
            Work::Job(v) => {
                assert_eq!(quits, 0, "a job must never follow a quit sentinel");
                executed.push(v);
            }
            Work::Quit => quits += 1,
        }
    }
    assert_eq!(executed, vec![1, 2, 3, 4, 5, 6, 7, 8]);
    assert_eq!(quits, 4);
}

// Pool with 1 worker and nothing dispatched: an immediate close enqueues one
// quit sentinel, and the worker terminates having processed zero jobs.
#[test]
fn close_with_no_work_terminates_single_worker() {
    let mut pool: WorkPool<i32> = WorkPool::new(1, None, None).unwrap();
    let spawned: usize = pool.set_executor_and_start();
    assert_eq!(spawned, 1);

    let joined: usize = pool.close();
    assert_eq!(joined, 1);
    assert_eq!(pool.queue_len(), 1);
    assert!(matches!(pool.take_work(), Work::Quit));
    assert_eq!(pool.queue_len(), 0);
}

// Pool with 2 workers and one pending job when close is called: both quit
// sentinels stand behind the job, so neither worker observes its sentinel
// before the job has been handed out.
#[test]
fn close_waits_behind_pending_job() {
    let mut pool: WorkPool<&str> = WorkPool::new(2, None, None).unwrap();
    pool.set_executor_and_start();
    pool.dispatch("blocking job");

    let joined: usize = pool.close();
    assert_eq!(joined, 2);

    assert!(matches!(pool.take_work(), Work::Job("blocking job")));
    assert!(matches!(pool.take_work(), Work::Quit));
    assert!(matches!(pool.take_work(), Work::Quit));
    assert_eq!(pool.queue_len(), 0);
}

// Jobs A and B submitted before close are both delivered before any quit
// sentinel is observed.
#[test]
fn jobs_drain_before_quit_sentinels() {
    let mut pool: WorkPool<char> = WorkPool::new(3, None, None).unwrap();
    pool.set_executor_and_start();
    pool.dispatch('a');
    pool.dispatch('b');
    pool.close();

    assert!(matches!(pool.take_work(), Work::Job('a')));
    assert!(matches!(pool.take_work(), Work::Job('b')));
    assert!(matches!(pool.take_work(), Work::Quit));
}

// A second close on an already-closed pool enqueues nothing and joins nothing.
#[test]
fn second_close_is_a_no_op() {
    let mut pool: WorkPool<u64> = WorkPool::new(2, None, None).unwrap();
    pool.set_executor_and_start();
    let first: usize = pool.close();
    assert_eq!(first, 2);
    let len_after_first: usize = pool.queue_len();

    let second: usize = pool.close();
    assert_eq!(second, 0);
    assert_eq!(pool.queue_len(), len_after_first);
    assert_eq!(pool.live_worker_count(), 0);
}

// Close on a pool that never started enqueues no sentinel at all.
#[test]
fn close_before_start_enqueues_nothing() {
    let mut pool: WorkPool<u64> = WorkPool::new(5, None, None).unwrap();
    let joined: usize = pool.close();
    assert_eq!(joined, 0);
    assert_eq!(pool.queue_len(), 0);
}

// The abandon path sends one quit sentinel per live worker without joining.
#[test]
fn abandon_signals_each_live_worker() {
    let mut pool: WorkPool<u8> = WorkPool::new(3, None, None).unwrap();
    pool.set_executor_and_start();
    pool.dispatch(9);

    let signalled: usize = pool.abandon();
    assert_eq!(signalled, 3);
    assert_eq!(pool.live_worker_count(), 0);
    assert_eq!(pool.queue_len(), 4);

    assert!(matches!(pool.take_work(), Work::Job(9)));
    assert!(matches!(pool.take_work(), Work::Quit));
    assert!(matches!(pool.take_work(), Work::Quit));
    assert!(matches!(pool.take_work(), Work::Quit));
}

// A batch of K items dispatched to a pool with K started workers leaves one
// item retrievable per worker: no worker is left without work to pick up.
#[test]
fn batch_of_k_items_feeds_k_workers() {
    let mut pool: WorkPool<i32> = WorkPool::new(3, None, None).unwrap();
    let spawned: usize = pool.set_executor_and_start();
    pool.dispatch_many(vec![10, 20, 30]);

    assert_eq!(pool.queue_len(), spawned);
    let mut picked: Vec<i32> = Vec::new();
    for _ in 0..spawned {
        match pool.take_work() {
            Work::Job(v) => picked.push(v),
            Work::Quit => panic!("no quit sentinel was enqueued"),
        }
    }
    assert_eq!(picked, vec![10, 20, 30]);
}

// Items dispatched before the executor is installed simply queue up.
#[test]
fn dispatch_before_start_queues_items() {
    let mut pool: WorkPool<i32> = WorkPool::new(2, None, None).unwrap();
    pool.dispatch(1);
    pool.dispatch_many(vec![2, 3]);
    assert!(!pool.is_started());
    assert_eq!(pool.queue_len(), 3);

    pool.set_executor_and_start();
    assert!(pool.is_started());
    assert!(matches!(pool.take_work(), Work::Job(1)));
    assert!(matches!(pool.take_work(), Work::Job(2)));
    assert!(matches!(pool.take_work(), Work::Job(3)));
}
