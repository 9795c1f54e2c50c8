//! The builder, the runtime facade, and the current-thread drive protocol.

use std::collections::HashMap;

use kioto::builder::Builder;
use kioto::current_thread::CurrentThread;
use kioto::handle::Handle;
use kioto::pool::{SpawnAction, WorkerOrder};
use kioto::runtime::Runtime;
use kioto::schedule::BlockingSchedule;
use kioto::scheduler;
use kioto::task::Task;

#[test]
fn builder_defaults_match_the_documented_ones() {
    let b = Builder::new_current_thread();
    assert_eq!(b.max_blocking_threads, 512);
    assert_eq!(b.event_interval, 4);
    assert_eq!(b.keep_alive_ms, None);
    assert_eq!(b.thread_name, "kioto-runtime-worker");
    assert_eq!(b.thread_stack_size, None);

    let rt = b.build().expect("building spawns nothing and succeeds");
    assert_eq!(rt.blocking_pool.spawner.inner.thread_cap, 512);
    assert_eq!(rt.blocking_pool.spawner.inner.keep_alive_ms, 10_000);
    assert_eq!(rt.event_interval, 4);
}

#[test]
fn builder_setters_configure_the_runtime() {
    let rt = Builder::new_current_thread()
        .max_blocking_threads(4)
        .keep_alive_ms(1_234)
        .thread_name("pool-worker".to_owned())
        .thread_stack_size(1 << 20)
        .event_interval(8)
        .build()
        .unwrap();
    assert_eq!(rt.blocking_pool.spawner.inner.thread_cap, 4);
    assert_eq!(rt.blocking_pool.spawner.inner.keep_alive_ms, 1_234);
    assert_eq!(rt.blocking_pool.spawner.inner.thread_name, "pool-worker");
    assert_eq!(rt.blocking_pool.spawner.inner.stack_size, Some(1 << 20));
    assert_eq!(rt.event_interval, 8);
}

#[test]
fn spawn_blocking_result_reaches_its_join_handle() {
    // spawn_blocking of a closure returning 42, then driving until the
    // handle resolves.
    let mut rt = Runtime::new();
    let mut results: HashMap<u64, i32> = HashMap::new();

    let (handle, action) = rt.spawn_blocking::<i32>(7).expect("pool is running");
    assert!(matches!(action, SpawnAction::NewWorker { index: 0, .. }));

    // The worker takes the task, runs the closure, reports completion.
    match rt.blocking_pool.spawner.inner.worker_poll() {
        WorkerOrder::Run(id) => {
            assert_eq!(id, handle.task_id());
            results.insert(id, 42);
            rt.blocking_pool.spawner.inner.task_finished(id);
        }
        _ => panic!("the task is queued"),
    }
    assert_eq!(results.get(&handle.task_id()), Some(&42));
}

#[test]
fn reentrant_block_on_fails_instead_of_hanging() {
    let mut rt = Runtime::new();
    let mut session = rt.begin_drive().expect("no drive is active");
    // A second drive on the same scheduler — block_on from inside a driven
    // task included — is refused explicitly.
    assert!(rt.begin_drive().is_err());
    session.root_ready();
    rt.finish_drive(session);
    // With the core returned, driving works again.
    assert!(rt.begin_drive().is_ok());
}

#[test]
fn drive_delivers_the_root_output_once() {
    let mut rt = Runtime::new();
    let mut session = rt.begin_drive().unwrap();
    assert!(session.may_poll_root());
    assert_eq!(session.next_task(), None);
    session.root_ready();
    assert!(!session.may_poll_root(), "a completed root is never re-polled");
    rt.finish_drive(session);
}

#[test]
fn ready_queue_is_fifo_and_checks_external_wakes_on_interval() {
    let (mut scheduler, mut handle) = CurrentThread::new();
    let mut session = scheduler.begin_drive().unwrap();
    session.reschedule(1);
    session.reschedule(2);
    session.reschedule(3);
    assert_eq!(session.next_task(), Some(1));
    assert_eq!(session.next_task(), Some(2));
    assert!(!session.should_check_external(4));

    // A remote wake lands behind the handle without the driver's help.
    let capability = BlockingSchedule::new(Handle::new(scheduler::Handle::CurrentThread(
        kioto::current_thread::Handle::new(),
    )));
    let notified = handle.wake(Task::new(9, capability));
    assert_eq!(notified.into_task().id, 9);

    assert_eq!(session.next_task(), Some(3));
    assert_eq!(session.next_task(), None);

    // After enough processed items the drive owes an external check, which
    // drains the injected wake behind the queue and resets the count.
    session.reschedule(4);
    assert_eq!(session.next_task(), Some(4));
    assert!(session.should_check_external(4));
    session.check_external(&mut handle);
    assert!(!session.should_check_external(4));
    assert_eq!(session.next_task(), Some(9));

    session.root_ready();
    scheduler.finish_drive(session);
}

#[test]
fn runtime_shutdown_completes_unbounded() {
    let mut rt = Builder::new_current_thread()
        .max_blocking_threads(2)
        .build()
        .unwrap();
    // Nothing was ever spawned: no worker holds a liveness token, so even
    // an unbounded shutdown wait returns, and afterwards the pool refuses
    // new work.
    assert!(rt.shutdown(None));
    match rt.spawn_blocking::<i32>(1) {
        Err(id) => assert_eq!(id, 1),
        Ok(_) => panic!("a shut-down pool accepts nothing"),
    }
}

#[test]
fn blocking_schedule_routes_wakes_to_its_scheduler_handle() {
    let (_, scheduler_handle) = CurrentThread::new();
    let mut task = Task::new(
        5,
        BlockingSchedule::new(Handle::new(scheduler::Handle::CurrentThread(scheduler_handle))),
    );
    task.reschedule();
    task.reschedule();
    let scheduler::Handle::CurrentThread(h) = task.schedule.handle.inner;
    let mut drained = Vec::new();
    let mut injected = h.injected;
    while let Some(id) = injected.pop_front() {
        drained.push(id);
    }
    assert_eq!(drained, vec![5, 5]);
}
