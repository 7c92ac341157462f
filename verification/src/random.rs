//! A leaf future that resolves at once with a freshly drawn number.

use vstd::prelude::*;
use crate::executor::Waker;
use crate::future::{Future, PollError, PollState, RtCtx, TaskOutput};

verus! {

/// Relies on rand::random: draws a value from the thread-local generator.
/// Nothing is promised of the value.
pub assume_specification<T>[ rand::random::<T> ]() -> (r: T)
    where
        rand::distributions::Standard: rand::distributions::Distribution<T>,
;

/// Ready on the first poll with a drawn number; never suspends.
pub struct RandFuture {
    /// Whether this future already returned ready.
    pub resolved: bool,
}

impl RandFuture {
    /// A future that has not produced its number yet.
    pub fn new() -> (f: RandFuture)
        ensures
            !f.resolved,
    {
        RandFuture { resolved: false }
    }

    /// Draws a number and resolves; polling again fails fast. Which number
    /// comes back is outside anyone's control, so the contract only fixes the
    /// shape of the output.
    pub fn poll(&mut self) -> (r: Result<PollState<TaskOutput>, PollError>)
        ensures
            old(self).resolved ==> r is Err && *final (self) == *old(self),
            !old(self).resolved ==> final (self).resolved && (r matches Ok(
                PollState::Ready(out),
            ) && out matches TaskOutput::Num(_)),
    {
        if self.resolved {
            return Err(PollError::PolledAfterResolve);
        }
        self.resolved = true;
        let n: u32 = rand::random();
        Ok(PollState::Ready(TaskOutput::Num(n)))
    }
}

impl Future for RandFuture {
    type Output = TaskOutput;

    open spec fn done(&self) -> bool {
        self.resolved
    }

    open spec fn ready_to_poll(&self, cx: RtCtx) -> bool {
        true
    }

    fn poll(&mut self, waker: Waker, cx: &mut RtCtx) -> (r: Result<
        PollState<TaskOutput>,
        PollError,
    >) {
        RandFuture::poll(self)
    }
}

} // verus!
