//! The poll protocol: what a future reports, what the executor records, and
//! the context a poll runs against.

use vstd::prelude::*;
use crate::executor::Waker;
use crate::reactor::Reactor;
use crate::timer::TimerTable;

verus! {

/// What one poll reports: either the output is available (terminal), or
/// further progress needs an outside event and a wake has been arranged.
#[derive(Debug, Clone, PartialEq)]
pub enum PollState<T> {
    Pending,
    Ready(T),
}

/// Scheduling status of a task id, as the executor sees it.
#[derive(Debug, Clone, Copy, PartialEq, Eq, Structural)]
pub enum TaskState {
    /// In the task table, suspended: awaiting a wake.
    Pending,
    /// In the task table and queued for a dispatch pass.
    NotReady,
    /// Absent from the task table: the task completed (or never existed).
    Ready,
}

/// Reported when a future is polled again after it already returned `Ready`:
/// a protocol violation, fatal to that one task alone.
#[derive(Debug, Clone, Copy, PartialEq, Eq, Structural)]
pub enum PollError {
    PolledAfterResolve,
}

/// What a completed task hands to the executor's completion log.
#[derive(Debug, PartialEq)]
pub enum TaskOutput {
    /// A decoded response body.
    Text(String),
    /// Completion with no payload (a timer, a combinator).
    Unit,
    /// A generated number.
    Num(u32),
    /// A terminal I/O or registration failure, by OS error code.
    Failed(i32),
    /// An inner output together with the milliseconds it took.
    Timed(Box<TaskOutput>, u64),
}

/// One result a non-blocking read would yield, in the order the OS offers
/// them. The driver hands the currently available results to a dispatch pass.
#[derive(Debug, Clone, PartialEq)]
pub enum ReadOutcome {
    /// `n > 0` bytes arrived.
    Data(Vec<u8>),
    /// A read returned zero bytes: the peer closed the connection.
    Closed,
    /// Nothing available now; the next readiness event will wake the task.
    WouldBlock,
    /// Any other I/O error, by OS code: terminal for the future.
    Failed(i32),
}

/// Read results are well formed when every data chunk is non-empty
/// (a successful non-blocking read of zero bytes means "closed", never
/// "empty chunk").
pub open spec fn reads_wf(reads: Seq<ReadOutcome>) -> bool {
    forall|i: int|
        0 <= i < reads.len() ==> ((#[trigger] reads[i]) matches ReadOutcome::Data(d) ==> d@.len()
            > 0)
}

/// The world outside the runtime, as one dispatch pass sees it: read results
/// the OS offers, request text handed over for sending, outputs the
/// sequencing combinator's continuations produced, and a clock reading.
pub struct IoCtx {
    /// Read results for the socket of the task being polled, consumed front
    /// to back.
    pub reads: Vec<ReadOutcome>,
    /// Request text the runtime asks the driver to send, in order.
    pub sent: Vec<String>,
    /// Values handed to continuations by the sequencing combinator.
    pub emitted: Vec<TaskOutput>,
    /// Milliseconds since some fixed origin, supplied by the driver.
    pub now_ms: u64,
}

impl IoCtx {
    /// An empty environment at clock reading `now_ms`.
    pub fn new(now_ms: u64) -> (io: IoCtx)
        ensures
            io.reads@ =~= Seq::<ReadOutcome>::empty(),
            io.sent@ =~= Seq::<String>::empty(),
            io.emitted@ =~= Seq::<TaskOutput>::empty(),
            io.now_ms == now_ms,
    {
        IoCtx { reads: Vec::new(), sent: Vec::new(), emitted: Vec::new(), now_ms }
    }
}

/// Everything a poll may consult or update besides the future itself: the
/// reactor, the timer table, and the outside world. The ready queue is
/// deliberately absent: a poll can arrange a wake but can never deliver one.
pub struct RtCtx {
    pub reactor: Reactor,
    pub timers: TimerTable,
    pub io: IoCtx,
}

impl RtCtx {
    /// A fresh context: empty reactor, no timers, empty environment.
    pub fn new(now_ms: u64) -> (cx: RtCtx)
        ensures
            cx.reactor.wakers@ =~= Seq::<Option<usize>>::empty(),
            cx.reactor.poll.registry.regs@ =~= Seq::<crate::poll::Registration>::empty(),
            cx.timers.cells@ =~= Seq::<crate::timer::TimerCell>::empty(),
            cx.io.reads@ =~= Seq::<ReadOutcome>::empty(),
            cx.io.sent@ =~= Seq::<String>::empty(),
            cx.io.emitted@ =~= Seq::<TaskOutput>::empty(),
            cx.io.now_ms == now_ms,
    {
        RtCtx { reactor: Reactor::start(), timers: TimerTable::new(), io: IoCtx::new(now_ms) }
    }
}

/// The unit of suspendable computation: polymorphic over one capability. A
/// poll must be non-blocking — do only immediately available work — and, when
/// it returns pending, must already have arranged (through the reactor or a
/// timer cell, under `waker`) that some later outside event re-enqueues the
/// task.
pub trait Future {
    /// The type a ready poll yields.
    type Output;

    /// Whether the future already returned ready.
    spec fn done(&self) -> bool;

    /// What a caller must establish before polling (each implementor's
    /// structural consistency with the context's tables).
    spec fn ready_to_poll(&self, cx: RtCtx) -> bool;

    /// One attempt to make progress. The protocol every implementor obeys:
    /// polling after ready fails fast, a ready result resolves the future,
    /// and a pending result leaves it pollable.
    fn poll(&mut self, waker: Waker, cx: &mut RtCtx) -> (r: Result<
        PollState<Self::Output>,
        PollError,
    >)
        requires
            old(self).ready_to_poll(*old(cx)),
        ensures
            old(self).done() ==> r is Err,
            r matches Ok(PollState::Ready(_)) ==> final (self).done(),
            r matches Ok(PollState::Pending) ==> !final (self).done(),
    ;
}

} // verus!
