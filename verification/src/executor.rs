//! The executor: a FIFO ready queue of task ids, wakers that re-enqueue a
//! task, and the dispatch loop over the task table.

use vstd::prelude::*;
use crate::future::{PollState, RtCtx, TaskOutput, reads_wf};
use crate::task::TaskFuture;

verus! {

/// The FIFO sequence of task ids awaiting a dispatch pass. Insertion order is
/// the only ordering guarantee. Ids of completed tasks may sit in it (stale
/// wakes); dispatch skips them. `closed` records that no producer remains:
/// the dispatch loop is done once the queue is closed and empty.
pub struct ReadyQueue {
    pub ids: Vec<usize>,
    pub closed: bool,
}

impl ReadyQueue {
    /// An open, empty queue.
    pub fn new() -> (q: ReadyQueue)
        ensures
            q.ids@ =~= Seq::<usize>::empty(),
            !q.closed,
    {
        ReadyQueue { ids: Vec::new(), closed: false }
    }

    /// Marks the producer side gone; a closed, drained queue ends the loop.
    pub fn close(&mut self)
        ensures
            final (self).ids@ == old(self).ids@,
            final (self).closed,
    {
        self.closed = true;
    }

    pub fn is_empty(&self) -> (b: bool)
        ensures
            b == (self.ids@.len() == 0),
    {
        self.ids.len() == 0
    }

    /// Whether the dispatch loop is finished: closed and nothing left to run.
    pub fn is_done(&self) -> (b: bool)
        ensures
            b == (self.closed && self.ids@.len() == 0),
    {
        self.closed && self.ids.len() == 0
    }
}

/// A handle that re-enqueues task `id` for another dispatch pass. Cloneable
/// and safe to invoke any number of times, also for a task that already
/// completed: its only effect is appending the id to the ready queue; it
/// never polls. Unparking a parked dispatch thread, when there is one, is
/// the embedding program's concern.
#[derive(Debug, Clone, Copy, PartialEq, Eq, Structural)]
pub struct Waker {
    pub id: usize,
}

impl Waker {
    /// Enqueues the bound task id. Nothing else changes, so a wake delivered
    /// after the task completed corrupts neither queue nor table.
    pub fn wake(&self, q: &mut ReadyQueue)
        ensures
            final (q).ids@ == old(q).ids@.push(self.id),
            final (q).closed == old(q).closed,
    {
        q.ids.push(self.id);
    }
}


/// Whether task `id` is alive: present in the task table.
pub open spec fn task_live(tasks: Seq<Option<TaskFuture>>, id: int) -> bool {
    0 <= id < tasks.len() && tasks[id] is Some
}

/// Every live task is consistent with tables of the given lengths.
pub open spec fn live_tasks_wf(
    tasks: Seq<Option<TaskFuture>>,
    wakers_len: int,
    timers_len: int,
) -> bool {
    forall|i: int|
        0 <= i < tasks.len() ==> ((#[trigger] tasks[i]) matches Some(f) ==> f.wf(
            wakers_len,
            timers_len,
        ))
}

/// Whether the next dispatch pass will poll anything: it polls exactly when
/// the id at the front of the queue is a live task. A stale id — one whose
/// task already completed — is skipped without a poll.
pub open spec fn would_poll(tasks: Seq<Option<TaskFuture>>, queue: Seq<usize>) -> bool {
    queue.len() > 0 && task_live(tasks, queue[0] as int)
}

/// What one dispatch pass did.
#[derive(Debug, Clone, Copy, PartialEq, Eq, Structural)]
pub enum Dispatched {
    /// The queue was empty; nothing ran.
    Idle,
    /// The id was stale (its task already completed): skipped, no poll.
    Skipped(usize),
    /// The task was polled, returned pending, and stays in the table.
    Suspended(usize),
    /// The task was polled, returned ready, and was removed; its output went
    /// to the completion log.
    Completed(usize),
    /// The task violated the poll protocol (or reported a violation from
    /// within); fatal to that task alone: it was removed, nothing else ran.
    Faulted(usize),
}

/// Everything one dispatch pass does, as a relation between the executor
/// and the context before (`pre`, `cx0`) and after (`post`, `cx1`) the pass,
/// and what it reported. `Executor::run` is a chain of exactly these links.
pub open spec fn dispatch_rel(
    pre: Executor,
    cx0: RtCtx,
    post: Executor,
    cx1: RtCtx,
    d: Dispatched,
) -> bool {
    &&& ({
            live_tasks_wf(
                post.tasks@,
                cx1.reactor.wakers@.len() as int,
                cx1.timers.cells@.len() as int,
            )
    })
    &&& ({
            reads_wf(cx1.io.reads@)
    })
    &&& ({
            cx1.reactor.wakers@.len() >= cx0.reactor.wakers@.len()
    })
    &&& ({
            cx1.reactor.wakers@.len() <= cx0.reactor.wakers@.len() + 1
    })
    &&& ({
            cx1.timers.cells@.len() == cx0.timers.cells@.len()
    })
    &&& ({
            cx1.io.now_ms == cx0.io.now_ms
    })
    &&& ({
            post.tasks@.len() == pre.tasks@.len()
    })
    &&& ({
            post.queue.closed == pre.queue.closed
    })
    &&& ({
            pre.queue.ids@.len() == 0 ==> d == Dispatched::Idle && post == pre
                && cx1 == cx0
    })
    &&& ({
            pre.queue.ids@.len() > 0 ==> post.queue.ids@ == pre.queue.ids@.drop_first()
    })
    &&& ({
            // A stale wake-up: skipped, nothing polled, nothing changed.
            pre.queue.ids@.len() > 0 && !would_poll(pre.tasks@, pre.queue.ids@)
                ==> d == Dispatched::Skipped(pre.queue.ids@[0]) && post.tasks == pre.tasks && post.outputs == pre.outputs && post.polled == pre.polled && cx1 == cx0
    })
    &&& ({
            // A live task: exactly one poll happens, of the front id. A
            // fault is reported exactly when the polled future itself would
            // report the protocol violation — the executor cannot discard a
            // healthy task — and a fault changes nothing but the table entry.
            would_poll(pre.tasks@, pre.queue.ids@) ==> {
                let id = pre.queue.ids@[0];
                &&& post.polled@ == pre.polled@.push(id)
                &&& forall|j: int|
                    0 <= j < pre.tasks@.len() && j != id ==> post.tasks@[j] == pre.tasks@[j]
                &&& (d is Faulted <==> (pre.tasks@[id as int]->0).poll_errs())
                &&& match d {
                    Dispatched::Suspended(i) => i == id && task_live(post.tasks@, id as int)
                        && post.outputs == pre.outputs,
                    Dispatched::Completed(i) => i == id && post.tasks@[id as int] is None
                        && exists|out: TaskOutput|
                        post.outputs@ == pre.outputs@.push(out),
                    Dispatched::Faulted(i) => i == id && post.tasks@[id as int] is None
                        && post.outputs == pre.outputs && cx1 == cx0,
                    _ => false,
                }
            }
    })
    &&& ({
            // The exact effect of dispatching a live timer task: pending
            // stores the waker in its one cell; a fired cell completes the
            // task with the unit output.
            would_poll(pre.tasks@, pre.queue.ids@) ==> {
                let id = pre.queue.ids@[0];
                pre.tasks@[id as int] matches Some(TaskFuture::Timer(t)) ==> ((!t.resolved
                    && t.token < cx0.timers.cells@.len()) ==> (if cx0.timers.cells@[t.token as int].completed {
                    d == Dispatched::Completed(id) && post.outputs@ == pre.outputs@.push(crate::future::TaskOutput::Unit) && cx1 == cx0
                } else {
                    d == Dispatched::Suspended(id) && post.tasks@[id as int] == Some(
                        TaskFuture::Timer((crate::timer::TimerFuture { token: t.token, resolved: false })),
                    ) && cx1.timers.cells@ == crate::timer::store_waker(
                        cx0.timers.cells@,
                        t.token as int,
                        id,
                    )
                }))
            }
    })
    &&& ({
            // The exact effect of dispatching a live socket task, by the
            // socket future's named poll relation.
            would_poll(pre.tasks@, pre.queue.ids@) ==> {
                let id = pre.queue.ids@[0];
                pre.tasks@[id as int]->0 matches TaskFuture::Http(h) ==> match d {
                    Dispatched::Suspended(_) => exists|h2: crate::http::HttpGetFuture|
                        post.tasks@[id as int] == Some(TaskFuture::Http(h2))
                            && #[trigger] crate::http::http_poll_rel(
                            h,
                            h2,
                            cx0,
                            cx1,
                            (Waker { id }),
                            Ok(PollState::Pending),
                        ),
                    Dispatched::Completed(_) => exists|h2: crate::http::HttpGetFuture, out: TaskOutput|
                        post.outputs@ == pre.outputs@.push(out)
                            && #[trigger] crate::http::http_poll_rel(
                            h,
                            h2,
                            cx0,
                            cx1,
                            (Waker { id }),
                            Ok(PollState::Ready(out)),
                        ),
                    Dispatched::Faulted(_) => true,
                    _ => true,
                }
            }
    })
    &&& ({
            // A combinator over a timer is likewise fully determined: no
            // fault, and suspended or completed by the cell's flag alone.
            would_poll(pre.tasks@, pre.queue.ids@) ==> {
                let id = pre.queue.ids@[0];
                pre.tasks@[id as int]->0 matches TaskFuture::Staged(stg) ==> ((
                *stg.inner) matches TaskFuture::Timer(t) ==> ((!(stg.stage is Resolved)
                    && !t.resolved && t.token < cx0.timers.cells@.len()) ==> (
                if cx0.timers.cells@[t.token as int].completed {
                    d == Dispatched::Completed(id) && post.outputs@ == pre.outputs@.push(
                        crate::future::TaskOutput::Unit,
                    )
                } else {
                    d == Dispatched::Suspended(id) && cx1.timers.cells@
                        == crate::timer::store_waker(cx0.timers.cells@, t.token as int, id)
                })))
            }
    })
    &&& ({
            // No poll starts unless the front id is live (the other half of
            // the skip guarantee).
            !would_poll(pre.tasks@, pre.queue.ids@) ==> post.polled == pre.polled
    })
}

/// A chain of exactly `n` dispatch passes leading from one executor state
/// to another: the semantics of `Executor::run`, pass by pass.
pub open spec fn run_chain(pre: Executor, cx0: RtCtx, post: Executor, cx1: RtCtx, n: int) -> bool
    decreases n,
{
    if n <= 0 {
        n == 0 && post == pre && cx1 == cx0
    } else {
        exists|mid: Executor, midcx: RtCtx, d: Dispatched|
            #[trigger] dispatch_rel(pre, cx0, mid, midcx, d) && run_chain(mid, midcx, post, cx1, n - 1)
    }
}

/// A chain extends at its end by one more dispatch pass.
pub proof fn lemma_run_chain_snoc(
    pre: Executor,
    cx0: RtCtx,
    mid: Executor,
    midcx: RtCtx,
    post: Executor,
    cx1: RtCtx,
    d: Dispatched,
    n: int,
)
    requires
        n >= 0,
        run_chain(pre, cx0, mid, midcx, n),
        dispatch_rel(mid, midcx, post, cx1, d),
    ensures
        run_chain(pre, cx0, post, cx1, n + 1),
    decreases n,
{
    if n == 0 {
        assert(run_chain(post, cx1, post, cx1, 0));
        assert(dispatch_rel(pre, cx0, post, cx1, d));
    } else {
        let (m2, mcx2, d2) = choose|m2: Executor, mcx2: RtCtx, d2: Dispatched|
            #[trigger] dispatch_rel(pre, cx0, m2, mcx2, d2) && run_chain(m2, mcx2, mid, midcx, n - 1);
        lemma_run_chain_snoc(m2, mcx2, mid, midcx, post, cx1, d, n - 1);
    }
}

/// Owns the task table and the ready queue and drives polling. The table is
/// touched only by its own methods, from the one thread that owns the
/// executor, so no two polls of one task can ever overlap.
pub struct Executor {
    /// The task table, indexed by task id. Ids are assigned once, in spawn
    /// order, and never reused: a completed task leaves a `None` behind.
    pub tasks: Vec<Option<TaskFuture>>,
    /// Ids awaiting a dispatch pass.
    pub queue: ReadyQueue,
    /// Outputs of completed tasks, in completion order.
    pub outputs: Vec<TaskOutput>,
    /// The history of polled ids, one entry per poll that was started: the
    /// witness that polls are serial and that completed tasks are never
    /// polled again.
    pub polled: Ghost<Seq<usize>>,
}

impl Executor {
    /// An executor with no tasks and an open, empty queue.
    pub fn new() -> (e: Executor)
        ensures
            e.tasks@ =~= Seq::<Option<TaskFuture>>::empty(),
            e.queue.ids@ =~= Seq::<usize>::empty(),
            !e.queue.closed,
            e.outputs@ =~= Seq::<TaskOutput>::empty(),
            e.polled@ =~= Seq::<usize>::empty(),
    {
        Executor {
            tasks: Vec::new(),
            queue: ReadyQueue::new(),
            outputs: Vec::new(),
            polled: Ghost(Seq::empty()),
        }
    }

    /// Moves `future` into a new task under the next id — fresh for this
    /// executor's lifetime, never reused — and enqueues the id for a first
    /// dispatch pass.
    pub fn spawn(&mut self, future: TaskFuture) -> (id: usize)
        requires
            old(self).tasks@.len() < usize::MAX,
        ensures
            id == old(self).tasks@.len(),
            final (self).tasks@ == old(self).tasks@.push(Some(future)),
            final (self).queue.ids@ == old(self).queue.ids@.push(id),
            final (self).queue.closed == old(self).queue.closed,
            final (self).outputs == old(self).outputs,
            final (self).polled == old(self).polled,
    {
        let id = self.tasks.len();
        self.tasks.push(Some(future));
        self.queue.ids.push(id);
        id
    }

    /// One dispatch pass. Pops the front id; a stale id is silently skipped —
    /// a task gone from the table is never polled again, however many wakes
    /// its id still has queued. A live task is polled exactly once, with a
    /// waker bound to its id: pending leaves it in the table (the wake will
    /// come from the reactor or a timer), ready removes it and logs the
    /// output, a protocol violation removes it and nothing else.
    pub fn dispatch_one(&mut self, cx: &mut RtCtx) -> (d: Dispatched)
        requires
            live_tasks_wf(
                old(self).tasks@,
                old(cx).reactor.wakers@.len() as int,
                old(cx).timers.cells@.len() as int,
            ),
            reads_wf(old(cx).io.reads@),
            old(cx).reactor.wakers@.len() < usize::MAX,
        ensures
            dispatch_rel(*old(self), *old(cx), *final (self), *final (cx), d),
    {
        if self.queue.ids.len() == 0 {
            return Dispatched::Idle;
        }
        let id = self.queue.ids.remove(0);
        proof {
            assert(self.queue.ids@ =~= old(self).queue.ids@.drop_first());
        }
        if id >= self.tasks.len() {
            return Dispatched::Skipped(id);
        }
        let live = self.tasks[id].is_some();
        if !live {
            return Dispatched::Skipped(id);
        }
        proof {
            self.polled@ = self.polled@.push(id);
        }
        let waker = Waker { id };
        let slot = &mut self.tasks[id];
        let fut = slot.take().unwrap();
        let ghost w1 = cx.reactor.wakers@.len() as int;
        let ghost t1 = cx.timers.cells@.len() as int;
        let (fut2, r) = fut.poll(waker, cx);
        proof {
            assert forall|j: int|
                0 <= j < self.tasks@.len() && self.tasks@[j] is Some implies (self.tasks@[j]->0).wf(
                cx.reactor.wakers@.len() as int,
                cx.timers.cells@.len() as int,
            ) by {
                assert(self.tasks@[j] == old(self).tasks@[j]);
                (self.tasks@[j]->0).lemma_wf_monotone(
                    w1,
                    t1,
                    cx.reactor.wakers@.len() as int,
                    cx.timers.cells@.len() as int,
                );
            }
        }
        match r {
            Ok(PollState::Pending) => {
                let back = &mut self.tasks[id];
                *back = Some(fut2);
                proof {
                    let fut0 = old(self).tasks@[id as int]->0;
                    if fut0 is Http {
                        assert(crate::http::http_poll_rel(
                            fut0->Http_0,
                            fut2->Http_0,
                            *old(cx),
                            *cx,
                            waker,
                            Ok(PollState::Pending),
                        ));
                    }
                }
                Dispatched::Suspended(id)
            },
            Ok(PollState::Ready(out)) => {
                let ghost out0 = out;
                self.outputs.push(out);
                proof {
                    let fut0 = old(self).tasks@[id as int]->0;
                    if fut0 is Http {
                        assert(crate::http::http_poll_rel(
                            fut0->Http_0,
                            fut2->Http_0,
                            *old(cx),
                            *cx,
                            waker,
                            Ok(PollState::Ready(out0)),
                        ));
                    }
                }
                Dispatched::Completed(id)
            },
            Err(_) => Dispatched::Faulted(id),
        }
    }

    /// Runs dispatch passes until the ready queue is drained, returning how
    /// many passes ran. Suspended tasks stay in the table awaiting wakes; the
    /// caller delivers readiness events and timer firings between runs (a
    /// poll can arrange wakes but never deliver one, so each pass shortens
    /// the queue and the loop terminates).
    pub fn run(&mut self, cx: &mut RtCtx) -> (n: usize)
        requires
            live_tasks_wf(
                old(self).tasks@,
                old(cx).reactor.wakers@.len() as int,
                old(cx).timers.cells@.len() as int,
            ),
            reads_wf(old(cx).io.reads@),
            old(cx).reactor.wakers@.len() + old(self).queue.ids@.len() < usize::MAX,
        ensures
            live_tasks_wf(
                final (self).tasks@,
                final (cx).reactor.wakers@.len() as int,
                final (cx).timers.cells@.len() as int,
            ),
            final (self).queue.ids@.len() == 0,
            final (self).queue.closed == old(self).queue.closed,
            final (self).tasks@.len() == old(self).tasks@.len(),
            n == old(self).queue.ids@.len(),
            final (self).outputs@.len() >= old(self).outputs@.len(),
            final (self).outputs@.take(old(self).outputs@.len() as int) == old(self).outputs@,
            // Tied to the single pass: the run is a chain of exactly `n`
            // dispatch passes, each obeying `dispatch_rel` — one per queued
            // id, so no pass can be skipped or invented.
            run_chain(*old(self), *old(cx), *final (self), *final (cx), n as int),
            // Once the producers are gone, a drained queue is a finished
            // loop.
            old(self).queue.closed ==> final (self).queue.closed && final (self).queue.ids@.len()
                == 0,
    {
        let total: usize = self.queue.ids.len();
        let mut n: usize = 0;
        proof {
            assert(run_chain(*old(self), *old(cx), *self, *cx, 0));
        }
        loop
            invariant
                total == old(self).queue.ids@.len(),
                run_chain(*old(self), *old(cx), *self, *cx, n as int),
                self.outputs@.len() >= old(self).outputs@.len(),
                self.outputs@.take(old(self).outputs@.len() as int) == old(self).outputs@,
                live_tasks_wf(
                    self.tasks@,
                    cx.reactor.wakers@.len() as int,
                    cx.timers.cells@.len() as int,
                ),
                reads_wf(cx.io.reads@),
                cx.reactor.wakers@.len() + self.queue.ids@.len() < usize::MAX,
                self.queue.closed == old(self).queue.closed,
                self.tasks@.len() == old(self).tasks@.len(),
                n + self.queue.ids@.len() == total,
            decreases self.queue.ids@.len(),
        {
            if self.queue.is_empty() {
                return n;
            }
            let ghost prev = self.outputs@;
            let ghost mid = *self;
            let ghost midcx = *cx;
            let d = self.dispatch_one(cx);
            proof {
                lemma_run_chain_snoc(
                    *old(self),
                    *old(cx),
                    mid,
                    midcx,
                    *self,
                    *cx,
                    d,
                    n as int,
                );
                let n0 = old(self).outputs@.len() as int;
                assert(forall|k: int| 0 <= k < n0 ==> prev[k] == #[trigger] old(self).outputs@[k])
                    by {
                    assert(forall|k: int| 0 <= k < n0 ==> #[trigger] prev.take(n0)[k] == prev[k]);
                }
                assert(self.outputs@.take(n0) =~= old(self).outputs@);
            }
            n += 1;
        }
    }

    /// Cancels task `id`: the only cancellation mechanism is dropping the
    /// task before it reaches ready. The task leaves the table for good, and
    /// every interest its future still held is released — no leaked
    /// registration, no dangling wake target. A stale queue entry for the id
    /// is skipped by later dispatch passes. Reports whether a task was there.
    pub fn cancel(&mut self, id: usize, cx: &mut RtCtx) -> (was: bool)
        requires
            live_tasks_wf(
                old(self).tasks@,
                old(cx).reactor.wakers@.len() as int,
                old(cx).timers.cells@.len() as int,
            ),
            crate::poll::sources_unique(old(cx).reactor.poll.registry.regs@),
        ensures
            live_tasks_wf(
                final (self).tasks@,
                final (cx).reactor.wakers@.len() as int,
                final (cx).timers.cells@.len() as int,
            ),
            !task_live(old(self).tasks@, id as int) ==> !was && *final (self) == *old(self)
                && *final (cx) == *old(cx),
            task_live(old(self).tasks@, id as int) ==> was && final (self).tasks@ == old(
                self,
            ).tasks@.update(id as int, None::<TaskFuture>) && crate::task::cancelled_rel(
                old(self).tasks@[id as int]->0,
                old(cx).reactor,
                final (cx).reactor,
                old(cx).timers,
                final (cx).timers,
            ) && final (cx).io == old(cx).io,
            final (self).queue == old(self).queue,
            final (self).outputs == old(self).outputs,
            final (self).polled == old(self).polled,
    {
        if id >= self.tasks.len() {
            return false;
        }
        let live = self.tasks[id].is_some();
        if !live {
            return false;
        }
        let slot = &mut self.tasks[id];
        let fut = slot.take().unwrap();
        fut.cancel(&mut cx.reactor, &mut cx.timers);
        proof {
            assert(forall|j: int|
                0 <= j < self.tasks@.len() ==> ((#[trigger] self.tasks@[j]) matches Some(f)
                    ==> f.wf(cx.reactor.wakers@.len() as int, cx.timers.cells@.len() as int)));
        }
        true
    }

    /// The scheduling status of `id`: completed (or never spawned) ids are
    /// `Ready`; live ids are `NotReady` while queued for a dispatch pass and
    /// `Pending` while suspended awaiting a wake.
    pub fn task_state(&self, id: usize) -> (s: crate::future::TaskState)
        ensures
            !task_live(self.tasks@, id as int) ==> s == crate::future::TaskState::Ready,
            task_live(self.tasks@, id as int) && self.queue.ids@.contains(id) ==> s
                == crate::future::TaskState::NotReady,
            task_live(self.tasks@, id as int) && !self.queue.ids@.contains(id) ==> s
                == crate::future::TaskState::Pending,
    {
        if id >= self.tasks.len() {
            return crate::future::TaskState::Ready;
        }
        let live = self.tasks[id].is_some();
        if !live {
            return crate::future::TaskState::Ready;
        }
        let n = self.queue.ids.len();
        let mut i: usize = 0;
        while i < n
            invariant
                i <= n,
                n == self.queue.ids@.len(),
                task_live(self.tasks@, id as int),
                forall|j: int| 0 <= j < i ==> self.queue.ids@[j] != id,
            decreases n - i,
        {
            if self.queue.ids[i] == id {
                return crate::future::TaskState::NotReady;
            }
            i += 1;
        }
        proof {
            assert(!self.queue.ids@.contains(id));
        }
        crate::future::TaskState::Pending
    }
}

} // verus!
