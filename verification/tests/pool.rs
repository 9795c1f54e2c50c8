//! The blocking pool's state machine, driven as the embedder would drive it.

use std::collections::HashMap;

use kioto::builder::Builder;
use kioto::pool::{BlockingPool, SpawnAction, WaitVerdict, WorkerOrder};
use kioto::shutdown;

#[test]
fn thread_cap_never_exceeded() {
    // Cap 4, nine tasks submitted back to back with no worker ever idle:
    // four workers are ordered, the rest of the tasks wait in queue.
    let builder = Builder::new_current_thread().max_blocking_threads(4);
    let mut pool = BlockingPool::new(&builder, 4);
    let mut tokens = Vec::new();
    let mut spawned = Vec::new();
    for id in 0..9u64 {
        match pool.spawner.inner.submit(id).expect("pool is not shut down") {
            SpawnAction::NewWorker { index, liveness } => {
                spawned.push(index);
                tokens.push(liveness);
            }
            SpawnAction::Queued => {}
            SpawnAction::Notified => panic!("no worker was idle"),
        }
        assert!(pool.spawner.inner.metrics.num_threads() <= 4);
    }
    assert_eq!(spawned, vec![0, 1, 2, 3]);
    assert_eq!(pool.spawner.inner.metrics.num_threads(), 4);
    assert_eq!(pool.spawner.inner.metrics.queue_depth(), 9);

    // The four workers drain all nine tasks in submission order; exactly
    // nine results come out, none lost, none duplicated.
    let mut results: Vec<u64> = Vec::new();
    loop {
        match pool.spawner.inner.worker_poll() {
            WorkerOrder::Run(id) => {
                results.push(id);
                pool.spawner.inner.task_finished(id);
            }
            WorkerOrder::Wait => break,
            WorkerOrder::Exit => panic!("shutdown has not begun"),
        }
    }
    assert_eq!(results, (0..9u64).collect::<Vec<_>>());
}

#[test]
fn worker_indices_strictly_increase_and_are_never_reused() {
    let builder = Builder::new_current_thread().max_blocking_threads(2);
    let mut pool = BlockingPool::new(&builder, 2);
    let first = match pool.spawner.inner.submit(10).unwrap() {
        SpawnAction::NewWorker { index, liveness } => {
            drop(liveness);
            index
        }
        _ => panic!("a worker must be ordered"),
    };
    let second = match pool.spawner.inner.submit(11).unwrap() {
        SpawnAction::NewWorker { index, liveness } => {
            drop(liveness);
            index
        }
        _ => panic!("a worker must be ordered"),
    };
    assert_eq!((first, second), (0, 1));

    // Both workers run their task and exit; each exiting worker is handed
    // the previously exited worker's index to join first.
    for _ in 0..2 {
        match pool.spawner.inner.worker_poll() {
            WorkerOrder::Run(id) => pool.spawner.inner.task_finished(id),
            _ => panic!("two tasks are queued"),
        }
    }
    assert_eq!(pool.spawner.inner.worker_exit(0, false), None);
    assert_eq!(pool.spawner.inner.worker_exit(1, false), Some(0));
    assert_eq!(pool.spawner.inner.metrics.num_threads(), 0);

    // A later submission gets a fresh index, not a reused one.
    match pool.spawner.inner.submit(12).unwrap() {
        SpawnAction::NewWorker { index, .. } => assert_eq!(index, 2),
        _ => panic!("a worker must be ordered"),
    }
}

#[test]
fn idle_worker_is_notified_instead_of_spawning() {
    let builder = Builder::new_current_thread().max_blocking_threads(1);
    let mut pool = BlockingPool::new(&builder, 1);
    match pool.spawner.inner.submit(1).unwrap() {
        SpawnAction::NewWorker { index, .. } => assert_eq!(index, 0),
        _ => panic!("a worker must be ordered"),
    }
    match pool.spawner.inner.worker_poll() {
        WorkerOrder::Run(id) => pool.spawner.inner.task_finished(id),
        _ => panic!("one task is queued"),
    }
    pool.spawner.inner.worker_enter_idle();
    assert_eq!(pool.spawner.inner.metrics.num_idle_threads(), 1);

    match pool.spawner.inner.submit(2).unwrap() {
        SpawnAction::Notified => {}
        _ => panic!("the idle worker must be signalled"),
    }
    assert_eq!(pool.spawner.inner.metrics.num_idle_threads(), 0);
    pool.spawner.inner.worker_consume_notify();
    match pool.spawner.inner.worker_poll() {
        WorkerOrder::Run(id) => {
            assert_eq!(id, 2);
            pool.spawner.inner.task_finished(id);
        }
        _ => panic!("the notified task is queued"),
    }
    assert_eq!(pool.spawner.inner.metrics.num_threads(), 1);
}

#[test]
fn panicking_task_leaves_pool_serviceable() {
    // A closure that panics is caught at the task boundary by the worker
    // and reported as an ordinary completion whose result is a failure; the
    // pool keeps serving.
    let builder = Builder::new_current_thread().max_blocking_threads(1);
    let mut pool = BlockingPool::new(&builder, 1);
    let mut results: HashMap<u64, Result<i32, &str>> = HashMap::new();

    let (h1, _) = pool.spawner.spawn_blocking::<i32>(1).unwrap();
    match pool.spawner.inner.worker_poll() {
        WorkerOrder::Run(id) => {
            results.insert(id, Err("task panicked"));
            pool.spawner.inner.task_finished(id);
        }
        _ => panic!("one task is queued"),
    }
    assert_eq!(results.get(&h1.task_id()), Some(&Err("task panicked")));

    let (h2, _) = pool.spawner.spawn_blocking::<i32>(2).unwrap();
    match pool.spawner.inner.worker_poll() {
        WorkerOrder::Run(id) => {
            results.insert(id, Ok(5));
            pool.spawner.inner.task_finished(id);
        }
        _ => panic!("the pool must keep serving"),
    }
    assert_eq!(results.get(&h2.task_id()), Some(&Ok(5)));
}

#[test]
fn shutdown_drains_tasks_and_reports_completion() {
    // Three tasks, then an immediate shutdown request bounded by five
    // seconds: all three results still come out, the shutdown wait reports
    // completion, and no worker remains in the table.
    let builder = Builder::new_current_thread().max_blocking_threads(4);
    let mut pool = BlockingPool::new(&builder, 4);
    let mut tokens = Vec::new();
    let mut handles = Vec::new();
    for id in 0..3u64 {
        let (handle, action) = pool.spawner.spawn_blocking::<u64>(id).unwrap();
        handles.push(handle);
        if let SpawnAction::NewWorker { liveness, .. } = action {
            tokens.push(liveness);
        }
    }
    assert_eq!(tokens.len(), 3);

    let mut results: HashMap<u64, u64> = HashMap::new();
    loop {
        match pool.spawner.inner.worker_poll() {
            WorkerOrder::Run(id) => {
                results.insert(id, id * 10);
                pool.spawner.inner.task_finished(id);
            }
            _ => break,
        }
    }
    for handle in &handles {
        assert!(results.contains_key(&handle.task_id()));
    }

    // Every worker observes the drained queue and exits, dropping its
    // liveness token.
    pool.spawner.inner.worker_exit(0, false);
    pool.spawner.inner.worker_exit(1, false);
    pool.spawner.inner.worker_exit(2, false);
    drop(tokens);

    assert!(pool.shutdown(Some(5_000)), "shutdown must report completion");
    assert_eq!(pool.spawner.inner.metrics.num_threads(), 0);

    // After shutdown the pool accepts nothing and orders exits.
    assert!(matches!(pool.spawner.inner.submit(9), Err(9)));
    assert!(matches!(pool.spawner.inner.worker_poll(), WorkerOrder::Exit));
}

#[test]
fn bounded_shutdown_reports_timeout_while_a_worker_lives() {
    let builder = Builder::new_current_thread().max_blocking_threads(1);
    let mut pool = BlockingPool::new(&builder, 1);
    let token = match pool.spawner.inner.submit(1).unwrap() {
        SpawnAction::NewWorker { liveness, .. } => liveness,
        _ => panic!("a worker must be ordered"),
    };
    // The worker still holds its liveness token, so a bounded wait times
    // out instead of hanging.
    assert!(!pool.shutdown(Some(50)));
    // Once the worker exits — dropping its token — the wait completes.
    drop(token);
    assert!(pool.shutdown(Some(5_000)));
}

#[test]
fn shutdown_channel_completes_when_all_tokens_drop() {
    let (token, mut rx) = shutdown::channel();
    let clone_a = token.clone();
    let clone_b = token.clone();
    drop(token);
    drop(clone_a);
    assert!(!rx.wait(Some(30)), "a token is still alive");
    drop(clone_b);
    assert!(rx.wait(Some(5_000)));
    assert!(rx.wait(None), "an unbounded wait on a complete channel returns at once");
}

#[test]
fn duplicate_task_identities_are_counted_with_multiplicity() {
    // The embedder keys closures by identity; if it reuses an identity the
    // pool still queues and completes each submission separately.
    let builder = Builder::new_current_thread().max_blocking_threads(1);
    let mut pool = BlockingPool::new(&builder, 1);
    pool.spawner.inner.submit(5).unwrap();
    pool.spawner.inner.submit(5).unwrap();
    let mut runs: u32 = 0;
    while let WorkerOrder::Run(id) = pool.spawner.inner.worker_poll() {
        assert_eq!(id, 5);
        pool.spawner.inner.task_finished(id);
        runs += 1;
    }
    assert_eq!(runs, 2);
    assert_eq!(pool.spawner.inner.metrics.queue_depth(), 0);
}

#[test]
fn idle_wait_verdicts_follow_the_pool_state() {
    let builder = Builder::new_current_thread().max_blocking_threads(2);
    let mut pool = BlockingPool::new(&builder, 2);

    // Worker 0 runs one task and goes idle.
    assert!(matches!(
        pool.spawner.inner.submit(1).unwrap(),
        SpawnAction::NewWorker { index: 0, .. }
    ));
    match pool.spawner.inner.worker_poll() {
        WorkerOrder::Run(id) => pool.spawner.inner.task_finished(id),
        _ => panic!("one task is queued"),
    }
    pool.spawner.inner.worker_enter_idle();

    // A submission signals the idle worker: its wait ends as Notified.
    assert!(matches!(pool.spawner.inner.submit(2).unwrap(), SpawnAction::Notified));
    assert!(matches!(
        pool.spawner.inner.worker_after_wait(0, false),
        WaitVerdict::Notified
    ));
    match pool.spawner.inner.worker_poll() {
        WorkerOrder::Run(id) => {
            assert_eq!(id, 2);
            pool.spawner.inner.task_finished(id);
        }
        _ => panic!("the notified task is queued"),
    }
    pool.spawner.inner.worker_enter_idle();

    // A wake with nothing behind it is spurious: the worker keeps waiting.
    assert!(matches!(
        pool.spawner.inner.worker_after_wait(0, false),
        WaitVerdict::Spurious
    ));
    // The keep-alive elapsing makes the worker leave the pool.
    assert!(matches!(
        pool.spawner.inner.worker_after_wait(0, true),
        WaitVerdict::TimedOutExit(None)
    ));
    assert_eq!(pool.spawner.inner.metrics.num_threads(), 0);

    // A fresh worker waiting through shutdown leaves too, handed the
    // previously exited worker's index to join first.
    assert!(matches!(
        pool.spawner.inner.submit(3).unwrap(),
        SpawnAction::NewWorker { index: 1, .. }
    ));
    match pool.spawner.inner.worker_poll() {
        WorkerOrder::Run(id) => pool.spawner.inner.task_finished(id),
        _ => panic!("one task is queued"),
    }
    pool.spawner.inner.worker_enter_idle();
    pool.spawner.inner.begin_shutdown();
    assert!(matches!(
        pool.spawner.inner.worker_after_wait(1, false),
        WaitVerdict::ShutdownExit(Some(0))
    ));
    assert_eq!(pool.spawner.inner.metrics.num_threads(), 0);
}
