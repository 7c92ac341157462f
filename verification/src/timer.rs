//! Timer futures. A timer's shared cell lives in the runtime's timer table;
//! the auxiliary timing mechanism (a sleeping thread in the embedding
//! program) fires the cell after the configured duration, which sets the
//! completion flag and invokes the stored waker exactly once.

use vstd::prelude::*;
use crate::executor::{ReadyQueue, Waker};
use crate::future::{Future, PollError, PollState, RtCtx};

verus! {

/// The shared state of one timer: armed once at construction.
#[derive(Debug, Clone, Copy, PartialEq, Eq, Structural)]
pub struct TimerCell {
    /// How long after construction the timer is due, for the driver to sleep.
    pub duration_ms: u64,
    /// Set by `fire`, checked by `poll`.
    pub completed: bool,
    /// The task to wake when the timer fires; the most recent poller wins.
    pub waker: Option<usize>,
}

/// All timer cells, indexed by timer token.
pub struct TimerTable {
    pub cells: Vec<TimerCell>,
}

/// A timer table after a poll stored `id` as the waker of cell `token`:
/// everything else is untouched, in particular no new cell is armed.
pub open spec fn store_waker(cells: Seq<TimerCell>, token: int, id: usize) -> Seq<TimerCell> {
    cells.update(
        token,
        TimerCell {
            duration_ms: cells[token].duration_ms,
            completed: cells[token].completed,
            waker: Some(id),
        },
    )
}

/// A timer table after a cancellation cleared the waker of cell `token`:
/// the cell stays armed but a later firing wakes nothing.
pub open spec fn clear_waker(cells: Seq<TimerCell>, token: int) -> Seq<TimerCell> {
    cells.update(
        token,
        TimerCell {
            duration_ms: cells[token].duration_ms,
            completed: cells[token].completed,
            waker: None,
        },
    )
}

impl TimerTable {
    /// An empty table.
    pub fn new() -> (t: TimerTable)
        ensures
            t.cells@ =~= Seq::<TimerCell>::empty(),
    {
        TimerTable { cells: Vec::new() }
    }

    /// The timing mechanism reports that the duration of cell `token` has
    /// elapsed: the completion flag is set and the stored waker, if any, is
    /// invoked and taken, so a second delivery wakes nothing. Returns whether
    /// a waker was invoked. An unknown token is ignored.
    pub fn fire(&mut self, token: usize, q: &mut ReadyQueue) -> (woke: bool)
        ensures
            token >= old(self).cells@.len() ==> *final (self) == *old(self) && *final (q) == *old(
                q,
            ) && !woke,
            token < old(self).cells@.len() ==> {
                let cell = old(self).cells@[token as int];
                final (self).cells@ == old(self).cells@.update(
                    token as int,
                    (TimerCell { duration_ms: cell.duration_ms, completed: true, waker: None }),
                ) && final (q).closed == old(q).closed && (match cell.waker {
                    Some(id) => woke && final (q).ids@ == old(q).ids@.push(id),
                    None => !woke && final (q).ids@ == old(q).ids@,
                })
            },
    {
        if token >= self.cells.len() {
            return false;
        }
        let cell = &mut self.cells[token];
        cell.completed = true;
        let w = cell.waker.take();
        match w {
            Some(id) => {
                let waker = Waker { id };
                waker.wake(q);
                true
            },
            None => false,
        }
    }
}

/// A suspendable wait: pending until its cell in the timer table has been
/// fired, then ready once.
#[derive(Debug, Clone, Copy, PartialEq, Eq, Structural)]
pub struct TimerFuture {
    /// Index of this timer's cell in the timer table.
    pub token: usize,
    /// Whether this future already returned ready.
    pub resolved: bool,
}

impl TimerFuture {
    /// Arms one new timer cell — exactly one, no matter how often the future
    /// is later polled — and returns the future bound to it. The embedding
    /// program sleeps `duration_ms` and then fires the cell.
    pub fn new(duration_ms: u64, timers: &mut TimerTable) -> (t: TimerFuture)
        requires
            old(timers).cells@.len() < usize::MAX,
        ensures
            t.token == old(timers).cells@.len(),
            !t.resolved,
            final (timers).cells@ == old(timers).cells@.push(
                (TimerCell { duration_ms, completed: false, waker: None }),
            ),
    {
        let token = timers.cells.len();
        timers.cells.push(TimerCell { duration_ms, completed: false, waker: None });
        TimerFuture { token, resolved: false }
    }

    /// Polls the timer. Immediately after construction the cell is not
    /// completed, so this returns pending and stores the waker — overwriting
    /// any previous one, and never arming a second cell. Once the cell has
    /// fired it returns ready exactly once; polling after that fails fast.
    pub fn poll(&mut self, waker: Waker, timers: &mut TimerTable) -> (r: Result<
        crate::future::PollState<()>,
        crate::future::PollError,
    >)
        requires
            old(self).token < old(timers).cells@.len(),
        ensures
            final (self).token == old(self).token,
            final (timers).cells@.len() == old(timers).cells@.len(),
            old(self).resolved ==> r is Err && *final (self) == *old(self) && *final (timers)
                == *old(timers),
            !old(self).resolved ==> {
                let cell = old(timers).cells@[old(self).token as int];
                if cell.completed {
                    r == Ok::<_, crate::future::PollError>(
                        crate::future::PollState::<()>::Ready(()),
                    ) && final (self).resolved && *final (timers) == *old(timers)
                } else {
                    r == Ok::<_, crate::future::PollError>(crate::future::PollState::<()>::Pending)
                        && !final (self).resolved && final (timers).cells@ == store_waker(
                        old(timers).cells@,
                        old(self).token as int,
                        waker.id,
                    )
                }
            },
    {
        if self.resolved {
            return Err(crate::future::PollError::PolledAfterResolve);
        }
        let completed = timers.cells[self.token].completed;
        if completed {
            self.resolved = true;
            Ok(crate::future::PollState::Ready(()))
        } else {
            let cell = &mut timers.cells[self.token];
            cell.waker = Some(waker.id);
            Ok(crate::future::PollState::Pending)
        }
    }
}

impl Future for TimerFuture {
    type Output = ();

    open spec fn done(&self) -> bool {
        self.resolved
    }

    open spec fn ready_to_poll(&self, cx: RtCtx) -> bool {
        self.token < cx.timers.cells@.len()
    }

    fn poll(&mut self, waker: Waker, cx: &mut RtCtx) -> (r: Result<PollState<()>, PollError>) {
        TimerFuture::poll(self, waker, &mut cx.timers)
    }
}

} // verus!
