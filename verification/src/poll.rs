//! A model of the OS readiness multiplexer: a registry of interests and a
//! queue that reports, among the events the OS offers, those that match a
//! registered interest. The blocking wait itself is the embedding program's
//! concern; the selection and bookkeeping are verified here.

use vstd::prelude::*;

verus! {

/// A readiness event as the multiplexer reports it: the token under which the
/// ready source was registered.
#[derive(Debug, Clone, Copy, PartialEq, Eq, Structural)]
pub struct Event {
    pub token: usize,
}

/// One registered interest: readiness of `source` is reported as `token`.
#[derive(Debug, Clone, Copy, PartialEq, Eq, Structural)]
pub struct Registration {
    /// The driver's identifier for the I/O source (a file descriptor).
    pub source: usize,
    /// The tag the multiplexer reports when the source becomes ready.
    pub token: usize,
    /// Interest flags, kept as the OS-level bit set.
    pub interests: i32,
}

/// No source is registered twice. `register` refuses duplicates, so any
/// registry built through it satisfies this.
pub open spec fn sources_unique(regs: Seq<Registration>) -> bool {
    forall|i: int, j: int|
        0 <= i < j < regs.len() ==> (#[trigger] regs[i]).source != (#[trigger] regs[j]).source
}

/// The registration table of the multiplexer.
pub struct Registry {
    pub regs: Vec<Registration>,
}

impl Registry {
    /// Whether some interest is registered for `source`.
    pub open spec fn has_source(&self, source: usize) -> bool {
        exists|i: int| 0 <= i < self.regs@.len() && (#[trigger] self.regs@[i]).source == source
    }

    /// Whether some interest is registered under `token`.
    pub open spec fn has_token(&self, token: usize) -> bool {
        exists|i: int| 0 <= i < self.regs@.len() && (#[trigger] self.regs@[i]).token == token
    }

    /// Requests readiness notifications for `source`, tagged `token`.
    /// Registering the same source twice is refused with the OS error the
    /// registration syscall reports; `DUPLICATE_SOURCE` stands for its code.
    pub fn register(&mut self, source: usize, token: usize, interests: i32) -> (r: Result<
        (),
        i32,
    >)
        ensures
            old(self).has_source(source) ==> r is Err && *final (self) == *old(self),
            !old(self).has_source(source) ==> r is Ok && final (self).regs@ == old(
                self,
            ).regs@.push(Registration { source, token, interests }),
    {
        let n = self.regs.len();
        let mut i: usize = 0;
        while i < n
            invariant
                i <= n,
                n == self.regs@.len(),
                *self == *old(self),
                forall|j: int| 0 <= j < i ==> (#[trigger] self.regs@[j]).source != source,
            decreases n - i,
        {
            if self.regs[i].source == source {
                proof {
                    assert(old(self).regs@[i as int].source == source);
                }
                return Err(DUPLICATE_SOURCE);
            }
            i += 1;
        }
        self.regs.push(Registration { source, token, interests });
        Ok(())
    }

    /// Removes the interest registered for `source`; reports the OS error for
    /// an unknown source.
    pub fn deregister(&mut self, source: usize) -> (r: Result<(), i32>)
        ensures
            !old(self).has_source(source) ==> r is Err && *final (self) == *old(self),
            old(self).has_source(source) ==> r is Ok && exists|i: int|
                0 <= i < old(self).regs@.len() && (#[trigger] old(self).regs@[i]).source == source
                    && final (self).regs@ == old(self).regs@.remove(i),
    {
        let n = self.regs.len();
        let mut i: usize = 0;
        while i < n
            invariant
                i <= n,
                n == self.regs@.len(),
                *self == *old(self),
                forall|j: int| 0 <= j < i ==> (#[trigger] self.regs@[j]).source != source,
            decreases n - i,
        {
            if self.regs[i].source == source {
                proof {
                    assert(old(self).regs@[i as int].source == source);
                }
                self.regs.remove(i);
                return Ok(());
            }
            i += 1;
        }
        proof {
            assert(!old(self).has_source(source)) by {
                if old(self).has_source(source) {
                    let j = choose|j: int|
                        0 <= j < old(self).regs@.len() && (#[trigger] old(self).regs@[j]).source
                            == source;
                }
            }
        }
        Err(UNKNOWN_SOURCE)
    }

    /// Whether `token` is registered (the executable mirror of `has_token`).
    pub fn lookup_token(&self, token: usize) -> (b: bool)
        ensures
            b == self.has_token(token),
    {
        let n = self.regs.len();
        let mut i: usize = 0;
        while i < n
            invariant
                i <= n,
                n == self.regs@.len(),
                forall|j: int| 0 <= j < i ==> (#[trigger] self.regs@[j]).token != token,
            decreases n - i,
        {
            if self.regs[i].token == token {
                return true;
            }
            i += 1;
        }
        false
    }
}

/// The OS error code this model reports for a second registration of one
/// source (the registration syscall refuses duplicate descriptors).
pub const DUPLICATE_SOURCE: i32 = 17;

/// The OS error code this model reports for deregistering an unknown source.
pub const UNKNOWN_SOURCE: i32 = 2;

/// The readiness queue: owns the registry and reports matching events.
pub struct Poll {
    pub registry: Registry,
}

impl Poll {
    /// Creates an empty readiness queue.
    pub fn new() -> (p: Poll)
        ensures
            p.registry.regs@ =~= Seq::<Registration>::empty(),
    {
        Poll { registry: Registry { regs: Vec::new() } }
    }

    /// The registration table used to request notifications.
    pub fn registry(&self) -> (r: &Registry)
        ensures
            r == &self.registry,
    {
        &self.registry
    }

    /// The registration table, for registering and removing interests.
    pub fn registry_mut(&mut self) -> (r: &mut Registry)
        ensures
            *r == old(self).registry,
            *final (self) == (Poll { registry: *final (r) }),
    {
        &mut self.registry
    }

    /// Of the events the OS offers, keeps those that match a registered
    /// interest; unknown tokens are dropped, never an error. The blocking
    /// wait that produces `offered` is the embedding program's concern.
    pub fn poll(&self, events: &mut Vec<Event>, offered: &Vec<Event>) -> (n: usize)
        ensures
            final (events)@ == offered@.filter(|e: Event| self.registry.has_token(e.token)),
            n == final (events)@.len(),
    {
        events.clear();
        let m = offered.len();
        let mut i: usize = 0;
        while i < m
            invariant
                i <= m,
                m == offered@.len(),
                events@ == offered@.take(i as int).filter(
                    |e: Event| self.registry.has_token(e.token),
                ),
            decreases m - i,
        {
            proof {
                assert(offered@.take(i + 1 as int).drop_last() =~= offered@.take(i as int));
                reveal_with_fuel(Seq::filter, 2);
                assert(offered@.take(i + 1 as int).last() == offered@[i as int]);
            }
            let e = offered[i];
            if self.registry.lookup_token(e.token) {
                events.push(e);
            }
            proof {
                assert(events@ =~= offered@.take(i + 1 as int).filter(
                    |ev: Event| self.registry.has_token(ev.token),
                ));
            }
            i += 1;
        }
        proof {
            assert(offered@.take(m as int) =~= offered@);
        }
        events.len()
    }
}

} // verus!
