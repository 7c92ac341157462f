//! A minimal cooperative async runtime: a poll-based future protocol, an
//! executor with a task table and FIFO ready queue, wakers that re-enqueue
//! suspended tasks, and a reactor that turns readiness events into wake-ups.
//!
//! The runtime core is deterministic: everything the operating system would
//! supply (socket read results, timer expirations, readiness events, the
//! clock) enters through explicit parameters, so the scheduling and future
//! state machines are verified for every possible sequence of outside events.

pub mod executor;
pub mod fibers;
pub mod future;
pub mod http;
pub mod laws;
pub mod poll;
pub mod random;
pub mod reactor;
pub mod task;
pub mod timer;
