//! Scheduling laws that relate several operations, stated over the spec
//! functions the executor's and timer's contracts use.

use vstd::prelude::*;
use crate::executor::{task_live, would_poll};
use crate::task::TaskFuture;
use crate::timer::{TimerCell, store_waker};

verus! {

/// A task id once removed from the table is never revived. Only `spawn`
/// inserts tasks, and it always appends under a fresh id, so an id that
/// completed stays absent from the table — and by `dispatch_one`'s contract
/// an absent id is skipped, never polled, however many stale wakes queued it.
pub proof fn lemma_completed_id_stays_out(tasks: Seq<Option<TaskFuture>>, fut: TaskFuture, id: int)
    requires
        0 <= id < tasks.len(),
        tasks[id] is None,
    ensures
        tasks.push(Some(fut))[id] is None,
        !task_live(tasks.push(Some(fut)), id),
{
}

/// A wake delivered after its task completed is a no-op. The waker itself
/// only appends the id to the ready queue — it touches neither table nor
/// outputs — and when the stale id reaches the front, the dispatch pass polls
/// nothing: `dispatch_one` then guarantees the table, the outputs, and the
/// poll history stay exactly as they were.
pub proof fn lemma_stale_wake_is_noop(tasks: Seq<Option<TaskFuture>>, q: Seq<usize>, id: usize)
    requires
        !task_live(tasks, id as int),
        q.len() > 0,
        q[0] == id,
    ensures
        !would_poll(tasks, q),
{
}

/// Polling a pending timer again arms nothing new: a poll only overwrites the
/// stored waker of its one cell, so two polls before the wake arrives leave
/// exactly the state the second poll alone would — one cell, one timing
/// mechanism, bound to the most recent poller.
pub proof fn lemma_repoll_overwrites_waker(cells: Seq<TimerCell>, token: int, a: usize, b: usize)
    requires
        0 <= token < cells.len(),
    ensures
        store_waker(store_waker(cells, token, a), token, b) == store_waker(cells, token, b),
        store_waker(cells, token, a).len() == cells.len(),
{
    assert(store_waker(store_waker(cells, token, a), token, b) =~= store_waker(cells, token, b));
}

} // verus!
