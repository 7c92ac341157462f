//! The reactor: owns the readiness multiplexer and the token-to-waker
//! bindings. Delivering a readiness event invokes the waker bound to its
//! token and consumes the binding; a future that stays pending re-arms its
//! binding on the next poll, so only the most recent poller is woken.

use vstd::prelude::*;
use crate::executor::{ReadyQueue, Waker};
use crate::poll::{Event, Poll, Registration};

verus! {

/// Whether some event in `events` carries `token`.
pub open spec fn event_for(events: Seq<Event>, token: usize) -> bool {
    exists|i: int| 0 <= i < events.len() && (#[trigger] events[i]).token == token
}

/// One readiness wait reports each registered source at most once, so the
/// tokens of one delivery are pairwise distinct.
pub open spec fn distinct_tokens(events: Seq<Event>) -> bool {
    forall|i: int, j: int|
        0 <= i < j < events.len() ==> (#[trigger] events[i]).token != (#[trigger] events[j]).token
}

/// The task ids event `e` wakes under bindings `w`: one id if the token is
/// bound, none otherwise (stale tokens are silently ignored).
pub open spec fn wakes_of(w: Seq<Option<usize>>, e: Event) -> Seq<usize> {
    if e.token < w.len() {
        match w[e.token as int] {
            Some(id) => seq![id],
            None => Seq::empty(),
        }
    } else {
        Seq::empty()
    }
}

/// The task ids woken when `events` are delivered against bindings `w`, in
/// event order.
pub open spec fn woken(w: Seq<Option<usize>>, events: Seq<Event>) -> Seq<usize>
    decreases events.len(),
{
    if events.len() == 0 {
        Seq::empty()
    } else {
        wakes_of(w, events[0]) + woken(w, events.subrange(1, events.len() as int))
    }
}

/// Appending one more event to a delivery appends that event's contribution
/// to the woken ids.
pub proof fn lemma_woken_take_push(w: Seq<Option<usize>>, events: Seq<Event>, i: int)
    requires
        0 <= i < events.len(),
    ensures
        woken(w, events.take(i + 1)) == woken(w, events.take(i)) + wakes_of(w, events[i]),
    decreases i,
{
    reveal_with_fuel(woken, 4);
    if i == 0 {
        assert(events.take(0) =~= Seq::<Event>::empty());
        assert(events.take(1).subrange(1, 1) =~= Seq::<Event>::empty());
        assert(events.take(1)[0] == events[0]);
        assert(woken(w, events.take(1)) =~= Seq::<usize>::empty() + wakes_of(w, events[0]));
        assert(woken(w, events.take(0)) + wakes_of(w, events[0]) =~= wakes_of(w, events[0]));
        assert(woken(w, events.take(1)) =~= woken(w, events.take(0)) + wakes_of(w, events[0]));
    } else {
        let rest = events.subrange(1, events.len() as int);
        lemma_woken_take_push(w, rest, i - 1);
        assert(events.take(i + 1).subrange(1, i + 1) =~= rest.take(i));
        assert(events.take(i).subrange(1, i) =~= rest.take(i - 1));
        assert(events.take(i + 1)[0] == events[0]);
        assert(events.take(i)[0] == events[0]);
        assert(rest[i - 1] == events[i]);
        assert(woken(w, events.take(i + 1)) == wakes_of(w, events[0]) + woken(w, rest.take(i)));
        assert(woken(w, events.take(i)) == wakes_of(w, events[0]) + woken(w, rest.take(i - 1)));
        assert(wakes_of(w, events[0]) + (woken(w, rest.take(i - 1)) + wakes_of(w, events[i])) =~= (
        wakes_of(w, events[0]) + woken(w, rest.take(i - 1))) + wakes_of(w, events[i]));
    }
}

/// A consumed or deregistered binding wakes nothing: delivering an event for
/// a token bound to no waker leaves the ready queue untouched.
pub proof fn lemma_unbound_token_wakes_nothing(w: Seq<Option<usize>>, e: Event)
    requires
        e.token < w.len() ==> w[e.token as int] is None,
    ensures
        woken(w, seq![e]) =~= Seq::<usize>::empty(),
{
    reveal_with_fuel(woken, 4);
    assert(seq![e].subrange(1, 1) =~= Seq::<Event>::empty());
}

/// Wakes are delivered in event order: two bound tokens wake their tasks in
/// the order the events arrive (the FIFO queue then dispatches them in the
/// same order).
pub proof fn lemma_wake_order(w: Seq<Option<usize>>, e1: Event, e2: Event, id1: usize, id2: usize)
    requires
        e1.token < w.len() && w[e1.token as int] == Some(id1),
        e2.token < w.len() && w[e2.token as int] == Some(id2),
    ensures
        woken(w, seq![e1, e2]) =~= seq![id1, id2],
{
    reveal_with_fuel(woken, 4);
    let evs = seq![e1, e2];
    assert(evs.subrange(1, 2) =~= seq![e2]);
    assert(seq![e2].subrange(1, 1) =~= Seq::<Event>::empty());
    assert(woken(w, evs) == wakes_of(w, e1) + (wakes_of(w, e2) + Seq::<usize>::empty()));
}

/// Translates OS readiness into wake-ups. One reactor serves arbitrarily many
/// in-flight resource futures: each holds a token; `wakers[token]` is the id
/// of the task to re-enqueue when that token's source becomes ready.
pub struct Reactor {
    /// The model of the OS readiness multiplexer this reactor owns.
    pub poll: Poll,
    /// Bindings from interest token to the waker's task id; `None` once
    /// consumed by a delivered event, deregistered, or not yet re-armed.
    pub wakers: Vec<Option<usize>>,
}

impl Reactor {
    /// Creates a reactor with a fresh multiplexer and no bindings. The
    /// caller owns the reactor and drives event deliveries; keeping one
    /// reactor per process is a deployment choice, not a requirement.
    pub fn start() -> (r: Reactor)
        ensures
            r.wakers@ =~= Seq::<Option<usize>>::empty(),
            r.poll.registry.regs@ =~= Seq::<Registration>::empty(),
    {
        Reactor { poll: Poll::new(), wakers: Vec::new() }
    }

    /// Registers `source` under a fresh token bound to `waker`. Fails with
    /// the OS error — registering nothing — if `source` is already
    /// registered.
    pub fn register(&mut self, source: usize, interests: i32, waker: Waker) -> (r: Result<
        usize,
        i32,
    >)
        requires
            old(self).wakers@.len() < usize::MAX,
        ensures
            match r {
                Ok(token) => !old(self).poll.registry.has_source(source) && token == old(
                    self,
                ).wakers@.len() && final (self).wakers@ == old(self).wakers@.push(Some(waker.id))
                    && final (self).poll.registry.regs@ == old(self).poll.registry.regs@.push(
                    (Registration { source, token, interests }),
                ),
                Err(_) => old(self).poll.registry.has_source(source) && *final (self) == *old(
                    self,
                ),
            },
    {
        let token = self.wakers.len();
        match self.poll.registry_mut().register(source, token, interests) {
            Ok(_) => {
                self.wakers.push(Some(waker.id));
                Ok(token)
            },
            Err(e) => Err(e),
        }
    }

    /// Re-binds an existing token to `waker`: the most recent poller is the
    /// one a later event wakes.
    pub fn rearm(&mut self, token: usize, waker: Waker)
        requires
            token < old(self).wakers@.len(),
        ensures
            final (self).wakers@ == old(self).wakers@.update(token as int, Some(waker.id)),
            final (self).poll == old(self).poll,
    {
        let slot = &mut self.wakers[token];
        *slot = Some(waker.id);
    }

    /// Removes an interest: the binding is cleared and the source is taken
    /// out of the multiplexer, so an abandoned future leaves no registration
    /// behind and a stale event for its token wakes nothing.
    pub fn deregister(&mut self, source: usize, token: usize)
        requires
            token < old(self).wakers@.len(),
        ensures
            final (self).wakers@ == old(self).wakers@.update(token as int, None::<usize>),
            !old(self).poll.registry.has_source(source) ==> final (self).poll == old(self).poll,
            old(self).poll.registry.has_source(source) ==> exists|i: int|
                0 <= i < old(self).poll.registry.regs@.len() && (#[trigger] old(
                    self,
                ).poll.registry.regs@[i]).source == source && final (self).poll.registry.regs@
                    == old(self).poll.registry.regs@.remove(i),
    {
        let slot = &mut self.wakers[token];
        *slot = None;
        let _ = self.poll.registry_mut().deregister(source);
    }

    /// Delivers one batch of readiness events: every token bound to a waker
    /// has that waker invoked — its task id enqueued, in event order — and
    /// the binding consumed. Tokens bound to nothing are silently ignored.
    /// Returns how many wakes were delivered.
    pub fn handle_events(&mut self, events: &Vec<Event>, q: &mut ReadyQueue) -> (n: usize)
        requires
            distinct_tokens(events@),
        ensures
            final (self).poll == old(self).poll,
            final (self).wakers@.len() == old(self).wakers@.len(),
            forall|t: int|
                0 <= t < old(self).wakers@.len() ==> final (self).wakers@[t] == (if event_for(
                    events@,
                    t as usize,
                ) {
                    None::<usize>
                } else {
                    old(self).wakers@[t]
                }),
            final (q).ids@ == old(q).ids@ + woken(old(self).wakers@, events@),
            final (q).closed == old(q).closed,
            n == woken(old(self).wakers@, events@).len(),
    {
        let ghost w0 = self.wakers@;
        let ghost q0 = q.ids@;
        let m = events.len();
        let mut n: usize = 0;
        let mut i: usize = 0;
        proof {
            assert(events@.take(0) =~= Seq::<Event>::empty());
            assert(q.ids@ =~= q0 + woken(w0, events@.take(0)));
        }
        while i < m
            invariant
                i <= m,
                m == events@.len(),
                distinct_tokens(events@),
                self.poll == old(self).poll,
                self.wakers@.len() == w0.len(),
                w0 == old(self).wakers@,
                q0 == old(q).ids@,
                forall|t: int|
                    0 <= t < w0.len() ==> self.wakers@[t] == (if event_for(
                        events@.take(i as int),
                        t as usize,
                    ) {
                        None::<usize>
                    } else {
                        w0[t]
                    }),
                q.ids@ == q0 + woken(w0, events@.take(i as int)),
                q.closed == old(q).closed,
                n == woken(w0, events@.take(i as int)).len(),
                n <= i,
            decreases m - i,
        {
            let e = events[i];
            proof {
                lemma_woken_take_push(w0, events@, i as int);
                // This event's token saw no earlier event, so its binding is
                // still the one recorded at entry.
                assert forall|k: int| 0 <= k < i implies (#[trigger] events@.take(i as int)[k]).token
                    != e.token by {
                    assert(events@.take(i as int)[k] == events@[k]);
                }
                if e.token < w0.len() {
                    assert(!event_for(events@.take(i as int), e.token));
                    assert(self.wakers@[e.token as int] == w0[e.token as int]);
                }
            }
            if e.token < self.wakers.len() {
                let slot = &mut self.wakers[e.token];
                let bound = slot.take();
                match bound {
                    Some(id) => {
                        let waker = Waker { id };
                        waker.wake(q);
                        n += 1;
                    },
                    None => {},
                }
            }
            proof {
                let taken = events@.take(i + 1);
                assert forall|t: int| 0 <= t < w0.len() implies self.wakers@[t] == (if event_for(
                    taken,
                    t as usize,
                ) {
                    None::<usize>
                } else {
                    w0[t]
                }) by {
                    if event_for(taken, t as usize) {
                        let k = choose|k: int|
                            0 <= k < taken.len() && (#[trigger] taken[k]).token == t as usize;
                        assert(taken[k] == events@[k]);
                        if k < i {
                            assert(events@.take(i as int)[k] == events@[k]);
                            assert(event_for(events@.take(i as int), t as usize));
                        } else {
                            assert(events@[i as int].token == t as usize);
                        }
                    } else {
                        assert(!event_for(events@.take(i as int), t as usize)) by {
                            if event_for(events@.take(i as int), t as usize) {
                                let k = choose|k: int|
                                    0 <= k < i && (#[trigger] events@.take(i as int)[k]).token
                                        == t as usize;
                                assert(taken[k] == events@.take(i as int)[k]);
                            }
                        }
                        assert(events@[i as int].token != t as usize) by {
                            if events@[i as int].token == t as usize {
                                assert(taken[i as int].token == t as usize);
                            }
                        }
                    }
                }
                assert(q.ids@ =~= q0 + woken(w0, taken));
            }
            i += 1;
        }
        proof {
            assert(events@.take(m as int) =~= events@);
        }
        n
    }
}

} // verus!
