use minirt::executor::{Dispatched, Executor, ReadyQueue, Waker};
use minirt::future::{Future, PollState, RtCtx, TaskOutput, TaskState};
use minirt::http::Http;
use minirt::poll::Event;
use minirt::random::RandFuture;
use minirt::task::{Continuation, StagedFuture, TaskFuture};
use minirt::timer::TimerFuture;

#[test]
fn spawn_assigns_fresh_monotonic_ids() {
    let mut ex = Executor::new();
    let mut cx = RtCtx::new(0);
    let a = ex.spawn(TaskFuture::Rand(RandFuture::new()));
    let b = ex.spawn(TaskFuture::Rand(RandFuture::new()));
    assert_eq!((a, b), (0, 1));
    assert_eq!(ex.queue.ids, vec![0, 1]);
    // Ids are never reused: completing task 0 leaves its slot empty for good.
    assert_eq!(ex.dispatch_one(&mut cx), Dispatched::Completed(0));
    let c = ex.spawn(TaskFuture::Rand(RandFuture::new()));
    assert_eq!(c, 2);
}

#[test]
fn dispatch_on_empty_queue_is_idle() {
    let mut ex = Executor::new();
    let mut cx = RtCtx::new(0);
    assert_eq!(ex.dispatch_one(&mut cx), Dispatched::Idle);
    assert!(ex.outputs.is_empty());
}

#[test]
fn stale_wake_after_completion_is_a_noop() {
    // Invoking a waker after its task completed corrupts neither the queue
    // nor the table: the id is enqueued, then skipped without a poll.
    let mut ex = Executor::new();
    let mut cx = RtCtx::new(0);
    let id = ex.spawn(TaskFuture::Rand(RandFuture::new()));
    assert_eq!(ex.dispatch_one(&mut cx), Dispatched::Completed(id));
    let outputs_before = ex.outputs.len();

    let waker = Waker { id };
    waker.wake(&mut ex.queue);
    waker.wake(&mut ex.queue);
    assert_eq!(ex.queue.ids, vec![id, id]);

    assert_eq!(ex.dispatch_one(&mut cx), Dispatched::Skipped(id));
    assert_eq!(ex.dispatch_one(&mut cx), Dispatched::Skipped(id));
    assert_eq!(ex.outputs.len(), outputs_before);
    assert_eq!(ex.task_state(id), TaskState::Ready);
}

#[test]
fn redundant_wakes_of_a_pending_task_are_tolerated() {
    // A task id may sit in the queue more than once; the extra dispatch
    // finds it suspended-but-pending and simply polls it again, which the
    // timer future answers with pending.
    let mut ex = Executor::new();
    let mut cx = RtCtx::new(0);
    let t = TimerFuture::new(50, &mut cx.timers);
    let id = ex.spawn(TaskFuture::Timer(t));
    assert_eq!(ex.dispatch_one(&mut cx), Dispatched::Suspended(id));

    let waker = Waker { id };
    waker.wake(&mut ex.queue);
    waker.wake(&mut ex.queue);
    assert_eq!(ex.dispatch_one(&mut cx), Dispatched::Suspended(id));
    assert_eq!(ex.dispatch_one(&mut cx), Dispatched::Suspended(id));
    assert!(ex.outputs.is_empty());

    cx.timers.fire(0, &mut ex.queue);
    assert_eq!(ex.dispatch_one(&mut cx), Dispatched::Completed(id));
    assert_eq!(ex.outputs, vec![TaskOutput::Unit]);
}

#[test]
fn queue_is_fifo() {
    let mut ex = Executor::new();
    let mut cx = RtCtx::new(0);
    let a = ex.spawn(TaskFuture::Rand(RandFuture::new()));
    let b = ex.spawn(TaskFuture::Rand(RandFuture::new()));
    let c = ex.spawn(TaskFuture::Rand(RandFuture::new()));
    assert_eq!(ex.dispatch_one(&mut cx), Dispatched::Completed(a));
    assert_eq!(ex.dispatch_one(&mut cx), Dispatched::Completed(b));
    assert_eq!(ex.dispatch_one(&mut cx), Dispatched::Completed(c));
}

#[test]
fn task_states_follow_the_lifecycle() {
    let mut ex = Executor::new();
    let mut cx = RtCtx::new(0);
    let t = TimerFuture::new(10, &mut cx.timers);
    let id = ex.spawn(TaskFuture::Timer(t));
    // Queued for its first pass.
    assert_eq!(ex.task_state(id), TaskState::NotReady);
    assert_eq!(ex.dispatch_one(&mut cx), Dispatched::Suspended(id));
    // Suspended, awaiting the timer's wake.
    assert_eq!(ex.task_state(id), TaskState::Pending);
    cx.timers.fire(0, &mut ex.queue);
    assert_eq!(ex.task_state(id), TaskState::NotReady);
    assert_eq!(ex.dispatch_one(&mut cx), Dispatched::Completed(id));
    assert_eq!(ex.task_state(id), TaskState::Ready);
    // An id never spawned is likewise "ready" (absent).
    assert_eq!(ex.task_state(99), TaskState::Ready);
}

#[test]
fn rand_future_resolves_once_with_a_number() {
    let mut ex = Executor::new();
    let mut cx = RtCtx::new(0);
    let id = ex.spawn(TaskFuture::Rand(RandFuture::new()));
    assert_eq!(ex.dispatch_one(&mut cx), Dispatched::Completed(id));
    assert!(matches!(ex.outputs[0], TaskOutput::Num(_)));

    let mut f = RandFuture::new();
    assert!(f.poll().is_ok());
    assert!(f.poll().is_err());
}

#[test]
fn closed_and_drained_queue_ends_the_loop() {
    let mut ex = Executor::new();
    let mut cx = RtCtx::new(0);
    ex.spawn(TaskFuture::Rand(RandFuture::new()));
    ex.queue.close();
    assert!(!ex.queue.is_done());
    assert_eq!(ex.run(&mut cx), 1);
    assert!(ex.queue.is_done());
}

#[test]
fn waker_only_touches_the_queue() {
    let mut q = ReadyQueue::new();
    let w = Waker { id: 3 };
    w.wake(&mut q);
    let w2 = w.clone();
    w2.wake(&mut q);
    assert_eq!(q.ids, vec![3, 3]);
    assert!(!q.closed);
}

#[test]
fn cancelling_a_pending_task_releases_its_interests() {
    let mut ex = Executor::new();
    let mut cx = RtCtx::new(0);
    let inner = TaskFuture::Http(Http::get("/slow".to_string(), 8));
    let id = ex.spawn(TaskFuture::Staged(StagedFuture::new(inner, Continuation::Record)));
    assert_eq!(ex.dispatch_one(&mut cx), Dispatched::Suspended(id));
    assert_eq!(cx.reactor.poll.registry().regs.len(), 1);

    // Dropping the task before it resolves deregisters its interest...
    assert!(ex.cancel(id, &mut cx));
    assert_eq!(cx.reactor.poll.registry().regs.len(), 0);
    assert_eq!(cx.reactor.wakers, vec![None]);
    assert_eq!(ex.task_state(id), TaskState::Ready);
    // ...so a stale readiness event wakes nothing and a stale queue entry is
    // skipped.
    assert_eq!(cx.reactor.handle_events(&vec![Event { token: 0 }], &mut ex.queue), 0);
    Waker { id }.wake(&mut ex.queue);
    assert_eq!(ex.dispatch_one(&mut cx), Dispatched::Skipped(id));
    // Cancelling again reports nothing to cancel.
    assert!(!ex.cancel(id, &mut cx));
}

#[test]
fn cancelling_a_pending_timer_clears_its_wake_target() {
    let mut ex = Executor::new();
    let mut cx = RtCtx::new(0);
    let t = TimerFuture::new(100, &mut cx.timers);
    let id = ex.spawn(TaskFuture::Timer(t));
    assert_eq!(ex.dispatch_one(&mut cx), Dispatched::Suspended(id));
    assert_eq!(cx.timers.cells[0].waker, Some(id));

    assert!(ex.cancel(id, &mut cx));
    assert_eq!(cx.timers.cells[0].waker, None);
    // The firing mechanism still runs, but wakes no dangling target.
    assert!(!cx.timers.fire(0, &mut ex.queue));
    assert!(ex.queue.ids.is_empty());
}

#[test]
fn one_faulting_task_does_not_stop_others() {
    // A task that violates the poll protocol is fatal to itself alone: the
    // executor removes it and keeps polling the rest.
    let mut ex = Executor::new();
    let mut cx = RtCtx::new(0);
    let broken = TaskFuture::Staged(StagedFuture::new(
        TaskFuture::Rand(RandFuture { resolved: true }),
        Continuation::Discard,
    ));
    let bad = ex.spawn(broken);
    let good = ex.spawn(TaskFuture::Rand(RandFuture::new()));

    assert_eq!(ex.dispatch_one(&mut cx), Dispatched::Faulted(bad));
    assert_eq!(ex.task_state(bad), TaskState::Ready);
    assert_eq!(ex.dispatch_one(&mut cx), Dispatched::Completed(good));
    assert_eq!(ex.outputs.len(), 1);
}

#[test]
fn futures_are_pollable_through_the_trait() {
    let mut cx = RtCtx::new(0);
    let mut f = TaskFuture::Timer(TimerFuture::new(40, &mut cx.timers));
    let waker = Waker { id: 0 };
    assert!(matches!(
        Future::poll(&mut f, waker, &mut cx),
        Ok(PollState::Pending)
    ));
    let mut q = ReadyQueue::new();
    cx.timers.fire(0, &mut q);
    assert!(matches!(
        Future::poll(&mut f, waker, &mut cx),
        Ok(PollState::Ready(TaskOutput::Unit))
    ));
    assert!(Future::poll(&mut f, waker, &mut cx).is_err());
}
