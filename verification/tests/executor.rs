//! The executor on real queues with real tasks.

use async_task::Runnable;
use crossbeam::deque::{Injector, Worker as WorkQueue};
use morpheus::common::YieldReason;
use morpheus::critical::critical_section;
use morpheus::executor::{LocalExecutor, Tick};
use morpheus::ringbuf::DefensiveMode;
use morpheus::scb::{KernelRegion, ScbHandle};
use morpheus::worker::{set_current_scb, WorkerContext};
use std::sync::atomic::{AtomicUsize, Ordering};
use std::sync::{Arc, Mutex};

fn worker() -> WorkerContext {
    let mut ctx = WorkerContext::new();
    set_current_scb(&mut ctx, ScbHandle::new(0, true).unwrap(), 0);
    ctx
}

fn kernel(preempt_seq: u64) -> KernelRegion {
    KernelRegion {
        preempt_seq,
        budget_remaining_ns: 0,
        kernel_pressure_level: 0,
        hint_loss_count: 0,
        ringbuf_overflow_count: 0,
        last_escalation_ns: 0,
    }
}

/// A task that appends `label` to `log` when it is polled.
fn task(log: &Arc<Mutex<Vec<u32>>>, label: u32) -> Runnable {
    let log = log.clone();
    let (runnable, handle) = async_task::spawn(
        async move {
            log.lock().unwrap().push(label);
        },
        |_runnable: Runnable| {},
    );
    handle.detach();
    runnable
}

fn run(outcome: Tick) -> bool {
    match outcome {
        Tick::Run(runnable) => {
            runnable.run();
            true
        }
        _ => false,
    }
}

#[test]
fn idle_executor() {
    let ctx = worker();
    let mut defensive = DefensiveMode::new(5);
    defensive.enter();
    let mut executor = LocalExecutor::new(Arc::new(Injector::new()), Vec::new());
    assert!(matches!(executor.tick(&ctx, &mut defensive), Tick::Idle));
    assert_eq!(executor.stats().polls, 0);
    assert_eq!(defensive.yields_remaining(), 5);
    assert!(!executor.is_shutdown());
    executor.shutdown();
    assert!(executor.is_shutdown());
}

#[test]
fn own_queue_runs_in_order() {
    let ctx = worker();
    let mut defensive = DefensiveMode::new(5);
    let log = Arc::new(Mutex::new(Vec::new()));
    let mut executor = LocalExecutor::new(Arc::new(Injector::new()), Vec::new());
    for label in [1, 2, 3] {
        executor.enqueue(task(&log, label));
    }
    assert_eq!(executor.stats().tasks_spawned, 3);
    for _ in 0..3 {
        assert!(run(executor.tick(&ctx, &mut defensive)));
        executor.task_completed();
    }
    assert!(matches!(executor.tick(&ctx, &mut defensive), Tick::Idle));
    assert_eq!(*log.lock().unwrap(), vec![1, 2, 3]);
    assert_eq!(executor.stats().polls, 3);
    assert_eq!(executor.stats().tasks_completed, 3);
    assert_eq!(executor.stats().kernel_yields, 0);
}

#[test]
fn own_queue_comes_before_shared_queue_and_other_workers() {
    let ctx = worker();
    let mut defensive = DefensiveMode::new(5);
    let log = Arc::new(Mutex::new(Vec::new()));
    let injector = Arc::new(Injector::new());
    let first_other = WorkQueue::new_fifo();
    let second_other = WorkQueue::new_fifo();
    let mut executor = LocalExecutor::new(
        injector.clone(),
        vec![first_other.stealer(), second_other.stealer()],
    );
    second_other.push(task(&log, 40));
    first_other.push(task(&log, 30));
    injector.push(task(&log, 20));
    executor.enqueue(task(&log, 10));
    let mut ran = 0;
    // A steal may have to be tried again; every task is found in the end.
    for _ in 0..64 {
        if run(executor.tick(&ctx, &mut defensive)) {
            ran += 1;
        }
    }
    assert_eq!(ran, 4);
    assert_eq!(*log.lock().unwrap(), vec![10, 20, 30, 40]);
    assert_eq!(executor.stats().polls, 4);
    assert!(first_other.is_empty());
    assert!(second_other.is_empty());
    assert!(injector.is_empty());
}

#[test]
fn pending_hint_puts_the_task_back() {
    let mut ctx = worker();
    let mut defensive = DefensiveMode::new(5);
    let polled = Arc::new(AtomicUsize::new(0));
    let counter = polled.clone();
    let (runnable, handle) = async_task::spawn(
        async move {
            counter.fetch_add(1, Ordering::SeqCst);
        },
        |_runnable: Runnable| {},
    );
    handle.detach();
    let mut executor = LocalExecutor::new(Arc::new(Injector::new()), Vec::new());
    executor.enqueue(runnable);
    ctx.observe_kernel(kernel(3));
    match executor.tick(&ctx, &mut defensive) {
        Tick::Yield(pending) => {
            assert_eq!(pending.reason(), YieldReason::Hint);
            assert_eq!(polled.load(Ordering::SeqCst), 0);
            assert!(pending.complete(&mut ctx));
        }
        _ => panic!("a pending hint must put the task back"),
    }
    assert_eq!(executor.stats().kernel_yields, 1);
    assert_eq!(executor.stats().polls, 1);
    // The task is still there and runs now.
    assert!(run(executor.tick(&ctx, &mut defensive)));
    assert_eq!(polled.load(Ordering::SeqCst), 1);
    assert_eq!(executor.stats().polls, 2);
    assert!(matches!(executor.tick(&ctx, &mut defensive), Tick::Idle));
}

#[test]
fn defensive_mode_puts_tasks_back_and_critical_sections_do_not() {
    let mut ctx = worker();
    let mut defensive = DefensiveMode::new(2);
    defensive.enter();
    let log = Arc::new(Mutex::new(Vec::new()));
    let mut executor = LocalExecutor::new(Arc::new(Injector::new()), Vec::new());
    executor.enqueue(task(&log, 1));
    for _ in 0..2 {
        match executor.tick(&ctx, &mut defensive) {
            Tick::Yield(pending) => assert_eq!(pending.reason(), YieldReason::Defensive),
            _ => panic!("defensive mode must put the task back"),
        }
    }
    assert_eq!(executor.stats().defensive_yields, 2);
    assert!(log.lock().unwrap().is_empty());
    defensive.enter();
    let guard = critical_section(&mut ctx);
    assert!(run(executor.tick(&ctx, &mut defensive)));
    guard.release(&mut ctx);
    assert_eq!(defensive.yields_remaining(), 2);
    assert_eq!(*log.lock().unwrap(), vec![1]);
    assert_eq!(executor.stats().polls, 3);
}

#[test]
fn dispatch_without_a_task_is_idle() {
    let ctx = worker();
    let mut defensive = DefensiveMode::new(4);
    defensive.enter();
    let mut executor = LocalExecutor::new(Arc::new(Injector::new()), Vec::new());
    assert!(matches!(executor.dispatch(None, &ctx, &mut defensive), Tick::Idle));
    assert_eq!(executor.stats().polls, 0);
    assert_eq!(executor.stats().defensive_yields, 0);
    assert_eq!(defensive.yields_remaining(), 4);
}

#[test]
fn dispatch_hands_out_the_very_task_it_was_given() {
    let mut ctx = worker();
    let mut defensive = DefensiveMode::new(4);
    let log = Arc::new(Mutex::new(Vec::new()));
    let mut executor = LocalExecutor::new(Arc::new(Injector::new()), Vec::new());
    // A task of its own waits in the queue; the one handed in is the one to run.
    executor.enqueue(task(&log, 1));
    assert!(run(executor.dispatch(Some(task(&log, 2)), &ctx, &mut defensive)));
    assert_eq!(*log.lock().unwrap(), vec![2]);
    assert_eq!(executor.stats().polls, 1);

    // With a hint pending the task handed in goes to the back of the queue.
    ctx.observe_kernel(kernel(1));
    match executor.dispatch(Some(task(&log, 3)), &ctx, &mut defensive) {
        Tick::Yield(pending) => assert!(pending.complete(&mut ctx)),
        _ => panic!("a pending hint must put the task back"),
    }
    assert_eq!(*log.lock().unwrap(), vec![2]);
    assert!(run(executor.tick(&ctx, &mut defensive)));
    assert!(run(executor.tick(&ctx, &mut defensive)));
    assert!(matches!(executor.tick(&ctx, &mut defensive), Tick::Idle));
    assert_eq!(*log.lock().unwrap(), vec![2, 1, 3]);
    assert_eq!(executor.stats().polls, 4);
    assert_eq!(executor.stats().kernel_yields, 1);
}

#[test]
fn executor_steals_from_the_queues_it_was_given() {
    let ctx = worker();
    let mut defensive = DefensiveMode::new(4);
    let log = Arc::new(Mutex::new(Vec::new()));
    let mine = Arc::new(Injector::new());
    let foreign = Arc::new(Injector::new());
    let peer = WorkQueue::new_fifo();
    let stranger = WorkQueue::new_fifo();
    let mut executor = LocalExecutor::new(mine.clone(), vec![peer.stealer()]);
    foreign.push(task(&log, 1));
    stranger.push(task(&log, 2));
    for _ in 0..16 {
        assert!(matches!(executor.tick(&ctx, &mut defensive), Tick::Idle));
    }
    assert!(!foreign.is_empty());
    assert!(!stranger.is_empty());
    mine.push(task(&log, 3));
    peer.push(task(&log, 4));
    let mut ran = 0;
    for _ in 0..64 {
        if run(executor.tick(&ctx, &mut defensive)) {
            ran += 1;
        }
    }
    assert_eq!(ran, 2);
    assert_eq!(*log.lock().unwrap(), vec![3, 4]);
}
