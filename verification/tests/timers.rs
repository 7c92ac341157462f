use minirt::executor::{Dispatched, Executor, ReadyQueue, Waker};
use minirt::future::{PollState, RtCtx, TaskOutput};
use minirt::task::{Continuation, StagedFuture, TaskFuture, TimedWrapper};
use minirt::timer::TimerFuture;

#[test]
fn timer_pends_then_completes_after_fire() {
    // Immediately after construction with duration D the poll is pending;
    // after the timing mechanism fires (real time >= D) the next poll is
    // ready.
    let mut cx = RtCtx::new(0);
    let mut t = TimerFuture::new(250, &mut cx.timers);
    let waker = Waker { id: 0 };

    assert!(matches!(
        t.poll(waker, &mut cx.timers),
        Ok(PollState::Pending)
    ));
    let mut q = ReadyQueue::new();
    assert!(cx.timers.fire(t.token, &mut q));
    assert_eq!(q.ids, vec![0]);
    assert!(matches!(
        t.poll(waker, &mut cx.timers),
        Ok(PollState::Ready(()))
    ));
    // Polling past ready fails fast.
    assert!(t.poll(waker, &mut cx.timers).is_err());
}

#[test]
fn double_poll_arms_no_second_timer() {
    // Polling twice before the wake arrives must not produce two independent
    // timing mechanisms: the cell count stays one, only the stored waker
    // changes to the most recent poller.
    let mut cx = RtCtx::new(0);
    let mut t = TimerFuture::new(1000, &mut cx.timers);
    assert_eq!(cx.timers.cells.len(), 1);
    assert!(matches!(
        t.poll(Waker { id: 1 }, &mut cx.timers),
        Ok(PollState::Pending)
    ));
    assert!(matches!(
        t.poll(Waker { id: 2 }, &mut cx.timers),
        Ok(PollState::Pending)
    ));
    assert_eq!(cx.timers.cells.len(), 1);
    assert_eq!(cx.timers.cells[0].waker, Some(2));
}

#[test]
fn fire_wakes_exactly_once() {
    let mut cx = RtCtx::new(0);
    let mut t = TimerFuture::new(10, &mut cx.timers);
    let mut q = ReadyQueue::new();
    assert!(matches!(
        t.poll(Waker { id: 4 }, &mut cx.timers),
        Ok(PollState::Pending)
    ));
    assert!(cx.timers.fire(t.token, &mut q));
    // A second delivery finds the waker already taken: nothing is enqueued.
    assert!(!cx.timers.fire(t.token, &mut q));
    assert_eq!(q.ids, vec![4]);
}

#[test]
fn two_timers_run_concurrently_via_the_combinator() {
    // End-to-end: two timers of 1s and 2s, each awaited through the
    // sequencing combinator. Both are armed before either fires — the driver
    // sleeps them side by side, so the whole run takes about the longer
    // duration, not the sum.
    let mut ex = Executor::new();
    let mut cx = RtCtx::new(0);
    let t1 = TimerFuture::new(1000, &mut cx.timers);
    let id1 = ex.spawn(TaskFuture::Staged(StagedFuture::new(
        TaskFuture::Timer(t1),
        Continuation::Record,
    )));
    let t2 = TimerFuture::new(2000, &mut cx.timers);
    let id2 = ex.spawn(TaskFuture::Staged(StagedFuture::new(
        TaskFuture::Timer(t2),
        Continuation::Record,
    )));

    // One pass over the queue polls both once; both suspend with their
    // wakers stored, i.e. both timers are in flight at the same time.
    assert_eq!(ex.run(&mut cx), 2);
    assert_eq!(cx.timers.cells.len(), 2);
    assert_eq!(cx.timers.cells[0].waker, Some(id1));
    assert_eq!(cx.timers.cells[1].waker, Some(id2));
    assert!(ex.outputs.is_empty());

    // The 1s timer fires first.
    cx.timers.fire(0, &mut ex.queue);
    assert_eq!(ex.run(&mut cx), 1);
    assert_eq!(ex.outputs, vec![TaskOutput::Unit]);
    assert_eq!(cx.io.emitted, vec![TaskOutput::Unit]);

    // Then the 2s timer.
    cx.timers.fire(1, &mut ex.queue);
    assert_eq!(ex.run(&mut cx), 1);
    assert_eq!(ex.outputs, vec![TaskOutput::Unit, TaskOutput::Unit]);
    assert_eq!(cx.io.emitted, vec![TaskOutput::Unit, TaskOutput::Unit]);
}

#[test]
fn equal_durations_complete_in_submission_order() {
    let mut ex = Executor::new();
    let mut cx = RtCtx::new(0);
    let t1 = TimerFuture::new(500, &mut cx.timers);
    let id1 = ex.spawn(TaskFuture::Timer(t1));
    let t2 = TimerFuture::new(500, &mut cx.timers);
    let id2 = ex.spawn(TaskFuture::Timer(t2));
    ex.run(&mut cx);

    // Equal durations: the driver fires the cells in arming order; the FIFO
    // queue then dispatches and completes them in submission order.
    cx.timers.fire(0, &mut ex.queue);
    cx.timers.fire(1, &mut ex.queue);
    assert_eq!(ex.queue.ids, vec![id1, id2]);
    assert_eq!(ex.dispatch_one(&mut cx), Dispatched::Completed(id1));
    assert_eq!(ex.dispatch_one(&mut cx), Dispatched::Completed(id2));
    assert_eq!(ex.outputs, vec![TaskOutput::Unit, TaskOutput::Unit]);
}

#[test]
fn timed_wrapper_reports_elapsed_milliseconds() {
    let mut cx = RtCtx::new(100);
    let t = TimerFuture::new(250, &mut cx.timers);
    let tw = TimedWrapper::new(TaskFuture::Timer(t));
    let waker = Waker { id: 0 };

    // First poll at t=100: the clock starts, the inner timer suspends.
    let (tw, r) = tw.poll(waker, &mut cx);
    assert!(matches!(r, Ok(PollState::Pending)));

    let mut q = ReadyQueue::new();
    cx.timers.fire(0, &mut q);
    cx.io.now_ms = 350;
    let (_tw, r2) = tw.poll(waker, &mut cx);
    match r2 {
        Ok(PollState::Ready(TaskOutput::Timed(inner, elapsed))) => {
            assert_eq!(*inner, TaskOutput::Unit);
            assert_eq!(elapsed, 250);
        }
        other => panic!("expected a timed ready result, got {:?}", other),
    }
}

#[test]
fn combinator_fails_fast_when_resolved() {
    let mut cx = RtCtx::new(0);
    let t = TimerFuture::new(5, &mut cx.timers);
    let s = StagedFuture::new(TaskFuture::Timer(t), Continuation::Discard);
    let waker = Waker { id: 0 };
    let (s, r) = s.poll(waker, &mut cx);
    assert!(matches!(r, Ok(PollState::Pending)));
    let mut q = ReadyQueue::new();
    cx.timers.fire(0, &mut q);
    let (s, r2) = s.poll(waker, &mut cx);
    assert!(matches!(r2, Ok(PollState::Ready(TaskOutput::Unit))));
    // Discard ran: nothing was recorded.
    assert!(cx.io.emitted.is_empty());
    let (_s, r3) = s.poll(waker, &mut cx);
    assert!(r3.is_err());
}
