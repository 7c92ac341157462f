//! The task-level future: one closed sum over every future the executor can
//! run, including the sequencing combinator and the timing wrapper. Polls
//! take the future by value and hand it back with the result, which keeps the
//! nesting of combinators simple to reason about.

use vstd::prelude::*;
use crate::future::{Future, PollError, PollState, RtCtx, TaskOutput, reads_wf};
use crate::executor::Waker;
use crate::http::HttpGetFuture;
use crate::random::RandFuture;
use crate::timer::TimerFuture;

verus! {

/// What to do with the inner future's output once it is ready: the
/// continuation of the sequencing combinator, as a closed set of operations.
#[derive(Debug, Clone, Copy, PartialEq, Eq, Structural)]
pub enum Continuation {
    /// Append the output to the context's emitted log.
    Record,
    /// Drop the output.
    Discard,
}

/// The stages of the sequencing combinator.
#[derive(Debug, Clone, Copy, PartialEq, Eq, Structural)]
pub enum Stage {
    Start,
    WaitingOnInner,
    Resolved,
}

/// "Do A, then run a continuation over A's output", composed as one future.
/// One poll in `Start` moves to `WaitingOnInner` and immediately polls the
/// inner future (so a wake is always arranged before suspending); in
/// `WaitingOnInner` the inner result decides; polling while `Resolved` fails
/// fast.
pub struct StagedFuture {
    pub stage: Stage,
    pub inner: Box<TaskFuture>,
    pub cont: Continuation,
}

/// Wraps a future and reports, besides its output, the milliseconds between
/// the wrapper's first poll and the poll that resolved it, by the driver's
/// clock readings.
pub struct TimedWrapper {
    /// The clock reading at the first poll, once polled.
    pub start: Option<u64>,
    pub inner: Box<TaskFuture>,
}

/// Every future the executor can run.
pub enum TaskFuture {
    Http(HttpGetFuture),
    Timer(TimerFuture),
    Staged(StagedFuture),
    Timed(TimedWrapper),
    Rand(RandFuture),
}

impl TaskFuture {
    /// Structural consistency: every token a future holds indexes the
    /// respective table.
    pub open spec fn wf(self, wakers_len: int, timers_len: int) -> bool
        decreases self,
    {
        match self {
            TaskFuture::Http(h) => h.consistent() && h.token_in(wakers_len),
            TaskFuture::Timer(t) => t.token < timers_len,
            TaskFuture::Staged(s) => (*s.inner).wf(wakers_len, timers_len),
            TaskFuture::Timed(t) => (*t.inner).wf(wakers_len, timers_len),
            TaskFuture::Rand(_) => true,
        }
    }

    /// Whether the future already returned ready: polling it again is a
    /// protocol violation and fails fast.
    pub open spec fn resolved_spec(self) -> bool
        decreases self,
    {
        match self {
            TaskFuture::Http(h) => h.resolved,
            TaskFuture::Timer(t) => t.resolved,
            TaskFuture::Staged(s) => s.stage is Resolved,
            TaskFuture::Timed(t) => (*t.inner).resolved_spec(),
            TaskFuture::Rand(r) => r.resolved,
        }
    }

    /// Whether a poll reports the protocol violation instead of progress:
    /// exactly when the component that would decide this poll already
    /// returned ready — the future itself, or a nested inner future.
    pub open spec fn poll_errs(self) -> bool
        decreases self,
    {
        match self {
            TaskFuture::Http(h) => h.resolved,
            TaskFuture::Timer(t) => t.resolved,
            TaskFuture::Staged(s) => s.stage is Resolved || (*s.inner).poll_errs(),
            TaskFuture::Timed(t) => (*t.inner).poll_errs(),
            TaskFuture::Rand(r) => r.resolved,
        }
    }

    /// Consistency depends only on the table lengths, and polls only grow
    /// them, so every suspended task stays consistent while others run.
    pub proof fn lemma_wf_monotone(self, w1: int, t1: int, w2: int, t2: int)
        requires
            self.wf(w1, t1),
            w2 >= w1,
            t2 >= t1,
        ensures
            self.wf(w2, t2),
        decreases self,
    {
        match self {
            TaskFuture::Staged(s) => (*s.inner).lemma_wf_monotone(w1, t1, w2, t2),
            TaskFuture::Timed(t) => (*t.inner).lemma_wf_monotone(w1, t1, w2, t2),
            _ => {},
        }
    }

    /// The executable mirror of `resolved_spec`.
    pub fn is_resolved(&self) -> (b: bool)
        ensures
            b == self.resolved_spec(),
        decreases *self,
    {
        match self {
            TaskFuture::Http(h) => h.resolved,
            TaskFuture::Timer(t) => t.resolved,
            TaskFuture::Staged(s) => match s.stage {
                Stage::Resolved => true,
                _ => false,
            },
            TaskFuture::Timed(t) => t.inner.is_resolved(),
            TaskFuture::Rand(r) => r.resolved,
        }
    }

    /// A future that already returned ready is one whose poll reports the
    /// violation.
    pub proof fn lemma_resolved_implies_errs(self)
        requires
            self.resolved_spec(),
        ensures
            self.poll_errs(),
        decreases self,
    {
        match self {
            TaskFuture::Timed(t) => (*t.inner).lemma_resolved_implies_errs(),
            _ => {},
        }
    }

    /// The executable mirror of `poll_errs`.
    pub fn has_err(&self) -> (b: bool)
        ensures
            b == self.poll_errs(),
        decreases *self,
    {
        match self {
            TaskFuture::Http(h) => h.resolved,
            TaskFuture::Timer(t) => t.resolved,
            TaskFuture::Staged(s) => match s.stage {
                Stage::Resolved => true,
                _ => s.inner.has_err(),
            },
            TaskFuture::Timed(t) => t.inner.has_err(),
            TaskFuture::Rand(r) => r.resolved,
        }
    }

    /// Advances the task's future by one poll and returns its next state
    /// with the result. Every poll guarantees: the reactor's binding table
    /// only grows; the timer table keeps its length (no poll arms a second
    /// timer); the sent and emitted logs are append-only; a resolved future
    /// fails fast and changes nothing; ready resolves the future; pending
    /// leaves it pollable.
    pub fn poll(self, waker: Waker, cx: &mut RtCtx) -> (res: (
        TaskFuture,
        Result<PollState<TaskOutput>, PollError>,
    ))
        requires
            self.wf(old(cx).reactor.wakers@.len() as int, old(cx).timers.cells@.len() as int),
            reads_wf(old(cx).io.reads@),
            old(cx).reactor.wakers@.len() < usize::MAX,
        ensures
            res.0.wf(
                final (cx).reactor.wakers@.len() as int,
                final (cx).timers.cells@.len() as int,
            ),
            final (cx).reactor.wakers@.len() >= old(cx).reactor.wakers@.len(),
            final (cx).reactor.wakers@.len() <= old(cx).reactor.wakers@.len() + 1,
            final (cx).timers.cells@.len() == old(cx).timers.cells@.len(),
            final (cx).io.now_ms == old(cx).io.now_ms,
            reads_wf(final (cx).io.reads@),
            final (cx).io.sent@.take(old(cx).io.sent@.len() as int) == old(cx).io.sent@,
            final (cx).io.emitted@.take(old(cx).io.emitted@.len() as int) == old(cx).io.emitted@,
            final (cx).io.sent@.len() >= old(cx).io.sent@.len(),
            final (cx).io.emitted@.len() >= old(cx).io.emitted@.len(),
            // The violation report is exact: an error comes back when and
            // only when a deciding component already resolved, and then
            // nothing moves. A body that refuses fresh work cannot meet this.
            res.1 is Err <==> self.poll_errs(),
            res.1 is Err ==> res.0 == self && *final (cx) == *old(cx),
            res.1 matches Ok(PollState::Ready(_)) ==> res.0.resolved_spec(),
            res.1 matches Ok(PollState::Pending) ==> !res.0.resolved_spec(),
            // Only a completing combinator writes the emitted log.
            res.1 matches Ok(PollState::Pending) ==> final (cx).io.emitted == old(cx).io.emitted,
            !(self matches TaskFuture::Staged(_)) && !(self matches TaskFuture::Timed(_)) ==> final (
            cx).io.emitted == old(cx).io.emitted,
            // A draw touches nothing in the context, and an unresolved draw
            // is ready at once with a number.
            self matches TaskFuture::Rand(_) ==> *final (cx) == *old(cx),
            self matches TaskFuture::Rand(rf) ==> (!rf.resolved ==> (res.1 matches Ok(
                PollState::Ready(out),
            ) && out matches TaskOutput::Num(_))),
            // A timer future touches only the timer table, and its payload is
            // the unit output.
            self matches TaskFuture::Timer(_) ==> final (cx).io == old(cx).io && final (cx).reactor
                == old(cx).reactor,
            self matches TaskFuture::Timer(_) ==> (res.1 matches Ok(PollState::Ready(out)) ==> out
                == TaskOutput::Unit),
            // The exact timer transition, so the executor's contract can pin
            // what dispatching a timer task does.
            self matches TaskFuture::Timer(t) ==> ((!t.resolved && t.token < old(
                cx,
            ).timers.cells@.len()) ==> (if old(cx).timers.cells@[t.token as int].completed {
                res.1 == Ok::<PollState<TaskOutput>, PollError>(
                    PollState::Ready(TaskOutput::Unit),
                ) && *final (cx) == *old(cx) && res.0 == TaskFuture::Timer(
                    (TimerFuture { token: t.token, resolved: true }),
                )
            } else {
                res.1 == Ok::<PollState<TaskOutput>, PollError>(PollState::Pending) && res.0
                    == TaskFuture::Timer((TimerFuture { token: t.token, resolved: false }))
                    && final (cx).timers.cells@ == crate::timer::store_waker(
                    old(cx).timers.cells@,
                    t.token as int,
                    waker.id,
                )
            })),
            // The exact socket transition likewise, by the named poll
            // relation of the socket future.
            self matches TaskFuture::Http(h) ==> (res.0 matches TaskFuture::Http(h2)
                && crate::http::http_poll_rel(h, h2, *old(cx), *final (cx), waker, res.1)),
            // A combinator over a timer is likewise fully determined.
            self matches TaskFuture::Staged(s) ==> ((*s.inner) matches TaskFuture::Timer(t) ==> ((
            !(s.stage is Resolved) && !t.resolved && t.token < old(cx).timers.cells@.len()) ==> (
            if old(cx).timers.cells@[t.token as int].completed {
                res.1 == Ok::<PollState<TaskOutput>, PollError>(PollState::Ready(TaskOutput::Unit))
            } else {
                res.1 == Ok::<PollState<TaskOutput>, PollError>(PollState::Pending) && final (
                cx).timers.cells@ == crate::timer::store_waker(
                    old(cx).timers.cells@,
                    t.token as int,
                    waker.id,
                )
            }))),
        decreases self,
    {
        match self {
            TaskFuture::Http(h) => {
                let mut h = h;
                let r = h.poll(waker, cx);
                proof {
                    assert(cx.io.sent@.take(old(cx).io.sent@.len() as int) =~= old(cx).io.sent@);
                    assert(cx.io.emitted@.take(old(cx).io.emitted@.len() as int) =~= old(
                        cx,
                    ).io.emitted@);
                }
                (TaskFuture::Http(h), r)
            },
            TaskFuture::Timer(t) => {
                let mut t = t;
                let r = t.poll(waker, &mut cx.timers);
                let r2 = match r {
                    Ok(PollState::Pending) => Ok(PollState::Pending),
                    Ok(PollState::Ready(_)) => Ok(PollState::Ready(TaskOutput::Unit)),
                    Err(e) => Err(e),
                };
                proof {
                    assert(cx.io.sent@.take(old(cx).io.sent@.len() as int) =~= old(cx).io.sent@);
                    assert(cx.io.emitted@.take(old(cx).io.emitted@.len() as int) =~= old(
                        cx,
                    ).io.emitted@);
                }
                (TaskFuture::Timer(t), r2)
            },
            TaskFuture::Staged(s) => {
                let (s2, r) = s.poll(waker, cx);
                (TaskFuture::Staged(s2), r)
            },
            TaskFuture::Timed(t) => {
                let (t2, r) = t.poll(waker, cx);
                (TaskFuture::Timed(t2), r)
            },
            TaskFuture::Rand(r) => {
                let mut f = r;
                let res = f.poll();
                proof {
                    assert(cx.io.sent@.take(old(cx).io.sent@.len() as int) =~= old(cx).io.sent@);
                    assert(cx.io.emitted@.take(old(cx).io.emitted@.len() as int) =~= old(
                        cx,
                    ).io.emitted@);
                }
                (TaskFuture::Rand(f), res)
            },
        }
    }
}

/// What cancelling a future leaves behind: every interest it held is gone —
/// the socket future's token binding is cleared and its source deregistered,
/// the timer future's stored waker is cleared — and nothing else moved, so a
/// stale event or firing wakes no dangling target.
pub open spec fn cancelled_rel(
    fut: TaskFuture,
    r0: crate::reactor::Reactor,
    r1: crate::reactor::Reactor,
    t0: crate::timer::TimerTable,
    t1: crate::timer::TimerTable,
) -> bool
    decreases fut,
{
    match fut {
        TaskFuture::Http(h) => t1 == t0 && (match h.token {
            Some(tok) => r1.wakers@ == r0.wakers@.update(tok as int, None::<usize>)
                && !r1.poll.registry.has_source(h.source),
            None => r1 == r0,
        }),
        TaskFuture::Timer(t) => r1 == r0 && t1.cells@ == crate::timer::clear_waker(
            t0.cells@,
            t.token as int,
        ),
        TaskFuture::Staged(s) => cancelled_rel(*s.inner, r0, r1, t0, t1),
        TaskFuture::Timed(t) => cancelled_rel(*t.inner, r0, r1, t0, t1),
        TaskFuture::Rand(_) => r1 == r0 && t1 == t0,
    }
}

impl TaskFuture {
    /// Releases everything the future had arranged with the reactor and the
    /// timer table: the cancellation path, taken when a task is dropped
    /// before it resolves. Cleanup here is a correctness requirement — an
    /// abandoned registration would keep reporting a token whose wake target
    /// is gone.
    pub fn cancel(
        self,
        reactor: &mut crate::reactor::Reactor,
        timers: &mut crate::timer::TimerTable,
    )
        requires
            self.wf(old(reactor).wakers@.len() as int, old(timers).cells@.len() as int),
            crate::poll::sources_unique(old(reactor).poll.registry.regs@),
        ensures
            cancelled_rel(self, *old(reactor), *final (reactor), *old(timers), *final (timers)),
            final (reactor).wakers@.len() == old(reactor).wakers@.len(),
            final (timers).cells@.len() == old(timers).cells@.len(),
        decreases self,
    {
        match self {
            TaskFuture::Http(h) => h.cancel(reactor),
            TaskFuture::Timer(t) => {
                let cell = &mut timers.cells[t.token];
                cell.waker = None;
            },
            TaskFuture::Staged(s) => (*s.inner).cancel(reactor, timers),
            TaskFuture::Timed(t) => (*t.inner).cancel(reactor, timers),
            TaskFuture::Rand(_) => {},
        }
    }
}

impl StagedFuture {
    /// Builds the combinator in its `Start` stage over `inner`.
    pub fn new(inner: TaskFuture, cont: Continuation) -> (s: StagedFuture)
        ensures
            s.stage is Start,
            *s.inner == inner,
            s.cont == cont,
    {
        StagedFuture { stage: Stage::Start, inner: Box::new(inner), cont }
    }

    /// One poll of the combinator. In `Start` it moves to `WaitingOnInner`
    /// and polls the inner future within the same call, so suspension always
    /// comes with an arranged wake. A pending inner propagates unchanged; a
    /// ready inner output is handed to the continuation, the stage becomes
    /// `Resolved`, and the combinator itself is ready with no payload.
    /// Polling while `Resolved` fails fast.
    pub fn poll(self, waker: Waker, cx: &mut RtCtx) -> (res: (
        StagedFuture,
        Result<PollState<TaskOutput>, PollError>,
    ))
        requires
            (*self.inner).wf(
                old(cx).reactor.wakers@.len() as int,
                old(cx).timers.cells@.len() as int,
            ),
            reads_wf(old(cx).io.reads@),
            old(cx).reactor.wakers@.len() < usize::MAX,
        ensures
            (*res.0.inner).wf(
                final (cx).reactor.wakers@.len() as int,
                final (cx).timers.cells@.len() as int,
            ),
            final (cx).reactor.wakers@.len() >= old(cx).reactor.wakers@.len(),
            final (cx).reactor.wakers@.len() <= old(cx).reactor.wakers@.len() + 1,
            final (cx).timers.cells@.len() == old(cx).timers.cells@.len(),
            final (cx).io.now_ms == old(cx).io.now_ms,
            reads_wf(final (cx).io.reads@),
            final (cx).io.sent@.take(old(cx).io.sent@.len() as int) == old(cx).io.sent@,
            final (cx).io.emitted@.take(old(cx).io.emitted@.len() as int) == old(cx).io.emitted@,
            final (cx).io.sent@.len() >= old(cx).io.sent@.len(),
            final (cx).io.emitted@.len() >= old(cx).io.emitted@.len(),
            res.0.cont == self.cont,
            // The violation report is exact: an error comes back when and
            // only when the combinator itself or a deciding nested component
            // already resolved — and then nothing moves. An always-failing
            // body cannot meet this.
            res.1 is Err <==> (self.stage is Resolved || (*self.inner).poll_errs()),
            res.1 is Err ==> res.0 == self && *final (cx) == *old(cx),
            !(self.stage is Resolved) ==> match res.1 {
                Ok(PollState::Pending) => res.0.stage is WaitingOnInner && !(
                *res.0.inner).resolved_spec(),
                Ok(PollState::Ready(out)) => out == TaskOutput::Unit && res.0.stage is Resolved && (
                self.cont is Record ==> final (cx).io.emitted@.len() > old(cx).io.emitted@.len()),
                Err(_) => true,
            },
            res.1 matches Ok(PollState::Ready(_)) ==> res.0.stage is Resolved,
            res.1 matches Ok(PollState::Pending) ==> !(res.0.stage is Resolved),
            // A pending inner propagates pending: the continuation has not
            // run and the emitted log is untouched.
            res.1 matches Ok(PollState::Pending) ==> final (cx).io.emitted == old(cx).io.emitted,
            // Over a leaf inner (which never writes the emitted log itself),
            // completion runs the continuation exactly once: recording
            // appends exactly the inner's one output, discarding appends
            // nothing.
            (!((*self.inner) matches TaskFuture::Staged(_)) && !((*self.inner)
                matches TaskFuture::Timed(_)) && res.1 matches Ok(PollState::Ready(_))) ==> (
            match self.cont {
                Continuation::Record => exists|v: TaskOutput|
                    final (cx).io.emitted@ == old(cx).io.emitted@.push(v),
                Continuation::Discard => final (cx).io.emitted == old(cx).io.emitted,
            }),
            // The concrete case the timer scenarios rely on: a combinator over
            // a timer records exactly one unit output when it completes.
            ((*self.inner) matches TaskFuture::Timer(_) && self.cont is Record && res.1 matches Ok(
                PollState::Ready(_),
            )) ==> final (cx).io.emitted@ == old(cx).io.emitted@.push(TaskOutput::Unit),
            // Over a timer inner the outcome is fully determined: a fired
            // cell completes the combinator now; an unfired one suspends it
            // with the waker stored in that one cell.
            (*self.inner) matches TaskFuture::Timer(t) ==> ((!(self.stage is Resolved)
                && !t.resolved && t.token < old(cx).timers.cells@.len()) ==> (if old(
                cx,
            ).timers.cells@[t.token as int].completed {
                res.1 == Ok::<PollState<TaskOutput>, PollError>(PollState::Ready(TaskOutput::Unit))
            } else {
                res.1 == Ok::<PollState<TaskOutput>, PollError>(PollState::Pending) && (
                *res.0.inner) == TaskFuture::Timer(
                    (TimerFuture { token: t.token, resolved: false }),
                ) && final (cx).timers.cells@ == crate::timer::store_waker(
                    old(cx).timers.cells@,
                    t.token as int,
                    waker.id,
                )
            })),
        decreases self,
    {
        match self.stage {
            Stage::Resolved => (self, Err(PollError::PolledAfterResolve)),
            _ => {
                if self.inner.has_err() {
                    return (self, Err(PollError::PolledAfterResolve));
                }
                let StagedFuture { stage: _, inner, cont } = self;
                let (inner2, r) = (*inner).poll(waker, cx);
                match r {
                    Ok(PollState::Pending) => (
                        StagedFuture {
                            stage: Stage::WaitingOnInner,
                            inner: Box::new(inner2),
                            cont,
                        },
                        Ok(PollState::Pending),
                    ),
                    Ok(PollState::Ready(v)) => {
                        let ghost mid = cx.io.emitted@;
                        match cont {
                            Continuation::Record => {
                                cx.io.emitted.push(v);
                                proof {
                                    let n = old(cx).io.emitted@.len() as int;
                                    assert(forall|k: int|
                                        0 <= k < n ==> mid[k] == #[trigger] old(
                                            cx,
                                        ).io.emitted@[k]) by {
                                        assert(forall|k: int|
                                            0 <= k < n ==> #[trigger] mid.take(n)[k] == mid[k]);
                                    }
                                    assert(cx.io.emitted@.take(n) =~= old(cx).io.emitted@);
                                }
                            },
                            Continuation::Discard => {},
                        }
                        (
                            StagedFuture { stage: Stage::Resolved, inner: Box::new(inner2), cont },
                            Ok(PollState::Ready(TaskOutput::Unit)),
                        )
                    },
                    Err(e) => {
                        // The inner held no resolved component, so its poll
                        // cannot report the violation.
                        proof {
                            assert(false);
                        }
                        (
                            StagedFuture {
                                stage: Stage::WaitingOnInner,
                                inner: Box::new(inner2),
                                cont,
                            },
                            Err(e),
                        )
                    },
                }
            },
        }
    }
}

impl TimedWrapper {
    /// Wraps `inner`; the clock starts at the wrapper's first poll.
    pub fn new(inner: TaskFuture) -> (t: TimedWrapper)
        ensures
            t.start is None,
            *t.inner == inner,
    {
        TimedWrapper { start: None, inner: Box::new(inner) }
    }

    /// Polls the inner future and, once it is ready, pairs its output with
    /// the elapsed milliseconds between the wrapper's first poll and now (by
    /// the driver's clock; a clock that ran backwards reports zero).
    pub fn poll(self, waker: Waker, cx: &mut RtCtx) -> (res: (
        TimedWrapper,
        Result<PollState<TaskOutput>, PollError>,
    ))
        requires
            (*self.inner).wf(
                old(cx).reactor.wakers@.len() as int,
                old(cx).timers.cells@.len() as int,
            ),
            reads_wf(old(cx).io.reads@),
            old(cx).reactor.wakers@.len() < usize::MAX,
        ensures
            (*res.0.inner).wf(
                final (cx).reactor.wakers@.len() as int,
                final (cx).timers.cells@.len() as int,
            ),
            final (cx).reactor.wakers@.len() >= old(cx).reactor.wakers@.len(),
            final (cx).reactor.wakers@.len() <= old(cx).reactor.wakers@.len() + 1,
            final (cx).timers.cells@.len() == old(cx).timers.cells@.len(),
            final (cx).io.now_ms == old(cx).io.now_ms,
            reads_wf(final (cx).io.reads@),
            final (cx).io.sent@.take(old(cx).io.sent@.len() as int) == old(cx).io.sent@,
            final (cx).io.emitted@.take(old(cx).io.emitted@.len() as int) == old(cx).io.emitted@,
            final (cx).io.sent@.len() >= old(cx).io.sent@.len(),
            final (cx).io.emitted@.len() >= old(cx).io.emitted@.len(),
            // The violation report is exact, and it changes nothing.
            res.1 is Err <==> (*self.inner).poll_errs(),
            res.1 is Err ==> res.0 == self && *final (cx) == *old(cx),
            res.1 matches Ok(PollState::Pending) ==> final (cx).io.emitted == old(cx).io.emitted,
            !(*self.inner).poll_errs() ==> {
                let started = if self.start is Some {
                    self.start->0
                } else {
                    old(cx).io.now_ms
                };
                res.0.start == Some(started) && match res.1 {
                    Ok(PollState::Pending) => !(*res.0.inner).resolved_spec(),
                    Ok(PollState::Ready(out)) => (*res.0.inner).resolved_spec() && (
                    out matches TaskOutput::Timed(_, elapsed) && elapsed == (
                    if old(cx).io.now_ms >= started {
                        (old(cx).io.now_ms - started) as u64
                    } else {
                        0u64
                    })),
                    Err(_) => true,
                }
            },
        decreases self,
    {
        if self.inner.has_err() {
            return (self, Err(PollError::PolledAfterResolve));
        }
        let TimedWrapper { start, inner } = self;
        let started = match start {
            Some(s) => s,
            None => cx.io.now_ms,
        };
        let now = cx.io.now_ms;
        let (inner2, r) = (*inner).poll(waker, cx);
        let r2 = match r {
            Ok(PollState::Pending) => Ok(PollState::Pending),
            Ok(PollState::Ready(out)) => {
                let elapsed = if now >= started {
                    now - started
                } else {
                    0
                };
                Ok(PollState::Ready(TaskOutput::Timed(Box::new(out), elapsed)))
            },
            Err(e) => Err(e),
        };
        (TimedWrapper { start: Some(started), inner: Box::new(inner2) }, r2)
    }
}

impl Future for TaskFuture {
    type Output = TaskOutput;

    open spec fn done(&self) -> bool {
        self.resolved_spec()
    }

    open spec fn ready_to_poll(&self, cx: RtCtx) -> bool {
        &&& self.wf(cx.reactor.wakers@.len() as int, cx.timers.cells@.len() as int)
        &&& reads_wf(cx.io.reads@)
        &&& cx.reactor.wakers@.len() < usize::MAX
    }

    fn poll(&mut self, waker: Waker, cx: &mut RtCtx) -> (r: Result<
        PollState<TaskOutput>,
        PollError,
    >) {
        let ghost orig = *self;
        let mut tmp = TaskFuture::Rand(crate::random::RandFuture { resolved: true });
        core::mem::swap(self, &mut tmp);
        let (next, r) = tmp.poll(waker, cx);
        *self = next;
        proof {
            if orig.resolved_spec() {
                orig.lemma_resolved_implies_errs();
            }
        }
        r
    }
}

} // verus!
