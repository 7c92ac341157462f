//! A stackful cooperative scheduler, modeled as fixed-size stack slabs
//! indexed by a small integer id, an explicit state per slot, and a
//! round-robin scanner for the next runnable slot. The machine-level parts —
//! the slab memory itself and the register context switch — belong to the
//! embedding program; what is scheduled, and in which order, is decided and
//! verified here.

use vstd::prelude::*;

verus! {

/// How many fiber slots a runtime owns.
pub const MAX_THREADS: usize = 4;

/// The size of each fiber's stack slab, for the embedding program to
/// allocate.
pub const DEFAULT_STACK_SIZE: usize = 2 * 1024 * 1024;

/// The scheduling state of one slot.
#[derive(Debug, Clone, Copy, PartialEq, Eq, Structural)]
pub enum State {
    /// Free: a spawn may claim it.
    Available,
    /// The fiber the runtime is executing now.
    Running,
    /// Runnable: waiting for the scanner to pick it.
    Ready,
}

/// One fiber slot: a stack slab of `stack_size` bytes, addressed by `id`.
#[derive(Debug, Clone, Copy, PartialEq, Eq, Structural)]
pub struct Thread {
    pub id: usize,
    pub stack_size: usize,
    pub state: State,
}

impl Thread {
    /// A free slot with id `id`.
    pub fn new(id: usize) -> (t: Thread)
        ensures
            t.id == id,
            t.stack_size == DEFAULT_STACK_SIZE,
            t.state is Available,
    {
        Thread { id, stack_size: DEFAULT_STACK_SIZE, state: State::Available }
    }
}

/// The first slot in cyclic scan order `cur, cur+1, ...` (wrapping, offsets
/// `k` and up) whose state is `Ready`; `None` when a full cycle finds none.
pub open spec fn first_ready_from(threads: Seq<Thread>, cur: int, k: int) -> Option<int>
    decreases threads.len() - k,
{
    if k >= threads.len() || k < 0 || threads.len() == 0 {
        None
    } else {
        let pos = (cur + k) % (threads.len() as int);
        if threads[pos].state is Ready {
            Some(pos)
        } else {
            first_ready_from(threads, cur, k + 1)
        }
    }
}

/// The first free slot at index `k` or later, scanning upward.
pub open spec fn first_available_from(threads: Seq<Thread>, k: int) -> Option<int>
    decreases threads.len() - k,
{
    if k >= threads.len() || k < 0 {
        None
    } else if threads[k].state is Available {
        Some(k)
    } else {
        first_available_from(threads, k + 1)
    }
}

/// What one yield does. With no other Ready slot, nothing changes and no
/// switch is reported. Otherwise the scanner's pick becomes `Running` and the
/// new current slot; the old current slot is demoted to `Ready` — unless it
/// is `Available`, which a returning fiber set just before yielding.
pub open spec fn yield_rel(
    pre: Seq<Thread>,
    pre_cur: int,
    post: Seq<Thread>,
    post_cur: int,
    switched: bool,
) -> bool {
    match first_ready_from(pre, pre_cur, 0) {
        None => !switched && post == pre && post_cur == pre_cur,
        Some(pos) => {
            let old_t = pre[pre_cur];
            let mid = if !(old_t.state is Available) {
                pre.update(
                    pre_cur,
                    (Thread { id: old_t.id, stack_size: old_t.stack_size, state: State::Ready }),
                )
            } else {
                pre
            };
            switched && post_cur == pos && post == mid.update(
                pos,
                (Thread {
                    id: mid[pos].id,
                    stack_size: mid[pos].stack_size,
                    state: State::Running,
                }),
            )
        },
    }
}

/// What one fiber return does: the base slot never returns; any other
/// current slot becomes free, and control goes to the next runnable slot by
/// one yield over the freed arena.
pub open spec fn return_rel(
    pre: Seq<Thread>,
    pre_cur: int,
    post: Seq<Thread>,
    post_cur: int,
) -> bool {
    if pre_cur == 0 {
        post == pre && post_cur == pre_cur
    } else {
        let freed = pre.update(
            pre_cur,
            (Thread {
                id: pre[pre_cur].id,
                stack_size: pre[pre_cur].stack_size,
                state: State::Available,
            }),
        );
        exists|sw: bool| yield_rel(freed, pre_cur, post, post_cur, sw)
    }
}

/// What a whole run does, step by step: each script entry is the current
/// fiber's move — `true` a voluntary yield, `false` a finish — applied by
/// the yield or return relation; the loop stops early exactly when a yield
/// finds no runnable slot, leaving the arena as it stands. `rounds` counts
/// the steps applied.
pub open spec fn run_steps(
    pre_t: Seq<Thread>,
    pre_cur: int,
    post_t: Seq<Thread>,
    post_cur: int,
    script: Seq<bool>,
    rounds: int,
) -> bool
    decreases script.len(),
{
    if script.len() == 0 {
        rounds == 0 && post_t == pre_t && post_cur == pre_cur
    } else if script[0] {
        if first_ready_from(pre_t, pre_cur, 0) is None {
            rounds == 0 && post_t == pre_t && post_cur == pre_cur
        } else {
            exists|mid_t: Seq<Thread>, mid_c: int|
                #[trigger] yield_rel(pre_t, pre_cur, mid_t, mid_c, true) && run_steps(
                    mid_t,
                    mid_c,
                    post_t,
                    post_cur,
                    script.drop_first(),
                    rounds - 1,
                )
        }
    } else {
        exists|mid_t: Seq<Thread>, mid_c: int|
            #[trigger] return_rel(pre_t, pre_cur, mid_t, mid_c) && run_steps(
                mid_t,
                mid_c,
                post_t,
                post_cur,
                script.drop_first(),
                rounds - 1,
            )
    }
}

/// The scheduler: a fixed arena of fiber slots and the index of the one
/// running now.
pub struct Runtime {
    pub threads: Vec<Thread>,
    pub current: usize,
}

impl Runtime {
    /// The runtime's consistency: the current index is in range, and the
    /// arena is small enough that cyclic index arithmetic cannot overflow.
    pub open spec fn wf(&self) -> bool {
        self.current < self.threads@.len() && self.threads@.len() <= 0x7fffffff
    }

    /// A runtime whose base slot (the caller's own context) is running and
    /// whose remaining slots are free.
    pub fn new() -> (rt: Runtime)
        ensures
            rt.wf(),
            rt.threads@.len() == MAX_THREADS,
            rt.current == 0,
            rt.threads@[0].state is Running,
            forall|i: int| 1 <= i < MAX_THREADS ==> (#[trigger] rt.threads@[i]).state is Available,
            forall|i: int|
                0 <= i < MAX_THREADS ==> (#[trigger] rt.threads@[i]).id == i && rt.threads@[i].stack_size
                    == DEFAULT_STACK_SIZE,
    {
        let base_thread = Thread {
            id: 0,
            stack_size: DEFAULT_STACK_SIZE,
            state: State::Running,
        };
        let mut threads: Vec<Thread> = Vec::new();
        threads.push(base_thread);
        let mut i: usize = 1;
        while i < MAX_THREADS
            invariant
                1 <= i <= MAX_THREADS,
                threads@.len() == i,
                threads@[0].state is Running,
                forall|j: int| 1 <= j < i ==> (#[trigger] threads@[j]).state is Available,
                forall|j: int|
                    0 <= j < i ==> (#[trigger] threads@[j]).id == j && threads@[j].stack_size
                        == DEFAULT_STACK_SIZE,
            decreases MAX_THREADS - i,
        {
            threads.push(Thread::new(i));
            i += 1;
        }
        Runtime { threads, current: 0 }
    }

    /// The executable scanner: the first Ready slot in cyclic order, offsets
    /// `k` and up.
    fn scan_from(&self, k: usize) -> (r: Option<usize>)
        requires
            self.wf(),
            k <= self.threads@.len(),
        ensures
            match r {
                Some(p) => first_ready_from(self.threads@, self.current as int, k as int) == Some(
                    p as int,
                ) && p < self.threads@.len(),
                None => first_ready_from(self.threads@, self.current as int, k as int) is None,
            },
        decreases self.threads@.len() - k,
    {
        let len = self.threads.len();
        if k >= len {
            return None;
        }
        let pos = (self.current + k) % len;
        match self.threads[pos].state {
            State::Ready => Some(pos),
            _ => self.scan_from(k + 1),
        }
    }

    /// Yields control: round-robin scans for the next Ready slot starting at
    /// the current one. Reports whether a switch happened; the register-level
    /// context switch to the picked slot is the embedding program's move.
    pub fn t_yield(&mut self) -> (switched: bool)
        requires
            old(self).wf(),
        ensures
            final (self).wf(),
            final (self).threads@.len() == old(self).threads@.len(),
            yield_rel(
                old(self).threads@,
                old(self).current as int,
                final (self).threads@,
                final (self).current as int,
                switched,
            ),
    {
        let r = self.scan_from(0);
        match r {
            None => false,
            Some(pos) => {
                let cur = self.current;
                let demote = match self.threads[cur].state {
                    State::Available => false,
                    _ => true,
                };
                if demote {
                    let t = &mut self.threads[cur];
                    t.state = State::Ready;
                }
                let t2 = &mut self.threads[pos];
                t2.state = State::Running;
                self.current = pos;
                true
            },
        }
    }

    /// A fiber finished: its slot becomes free again and control goes to the
    /// next runnable slot. The base slot never returns.
    pub fn t_return(&mut self)
        requires
            old(self).wf(),
        ensures
            final (self).wf(),
            final (self).threads@.len() == old(self).threads@.len(),
            return_rel(
                old(self).threads@,
                old(self).current as int,
                final (self).threads@,
                final (self).current as int,
            ),
    {
        if self.current != 0 {
            let cur = self.current;
            let t = &mut self.threads[cur];
            t.state = State::Available;
            let sw = self.t_yield();
            proof {
                assert(exists|b: bool|
                    yield_rel(
                        old(self).threads@.update(
                            old(self).current as int,
                            (Thread {
                                id: old(self).threads@[old(self).current as int].id,
                                stack_size: old(
                                    self,
                                ).threads@[old(self).current as int].stack_size,
                                state: State::Available,
                            }),
                        ),
                        old(self).current as int,
                        self.threads@,
                        self.current as int,
                        b,
                    )) by {
                    assert(yield_rel(
                        old(self).threads@.update(
                            old(self).current as int,
                            (Thread {
                                id: old(self).threads@[old(self).current as int].id,
                                stack_size: old(
                                    self,
                                ).threads@[old(self).current as int].stack_size,
                                state: State::Available,
                            }),
                        ),
                        old(self).current as int,
                        self.threads@,
                        self.current as int,
                        sw,
                    ));
                }
            }
        }
    }

    /// Whether a spawn can claim a slot now.
    pub fn has_available(&self) -> (b: bool)
        ensures
            b == (first_available_from(self.threads@, 0) is Some),
    {
        self.scan_available(0).is_some()
    }

    /// The executable scan for the first free slot.
    fn scan_available(&self, k: usize) -> (r: Option<usize>)
        requires
            k <= self.threads@.len(),
        ensures
            match r {
                Some(p) => first_available_from(self.threads@, k as int) == Some(p as int) && p
                    < self.threads@.len(),
                None => first_available_from(self.threads@, k as int) is None,
            },
        decreases self.threads@.len() - k,
    {
        let len = self.threads.len();
        if k >= len {
            return None;
        }
        match self.threads[k].state {
            State::Available => Some(k),
            _ => self.scan_available(k + 1),
        }
    }

    /// Claims the first free slot for a new fiber and marks it runnable. The
    /// fiber's code and its trampoline live on the slot's stack slab, laid
    /// out by the embedding program.
    pub fn spawn(&mut self) -> (slot: usize)
        requires
            old(self).wf(),
            first_available_from(old(self).threads@, 0) is Some,
        ensures
            final (self).wf(),
            Some(slot as int) == first_available_from(old(self).threads@, 0),
            final (self).current == old(self).current,
            final (self).threads@ == old(self).threads@.update(
                slot as int,
                (Thread {
                    id: old(self).threads@[slot as int].id,
                    stack_size: old(self).threads@[slot as int].stack_size,
                    state: State::Ready,
                }),
            ),
    {
        let slot = self.scan_available(0).unwrap();
        let t = &mut self.threads[slot];
        t.state = State::Ready;
        slot
    }

    /// Drives the scheduler by the fibers' own moves, as the embedding
    /// program reports them: each script entry is the current fiber's next
    /// step — `true` a voluntary yield, `false` a finish — applied in order
    /// through the yield and return relations. The loop stops early exactly
    /// when a yield finds no runnable slot. Returns how many steps ran; the
    /// whole run satisfies `run_steps`, step by step.
    pub fn run(&mut self, script: &Vec<bool>) -> (rounds: usize)
        requires
            old(self).wf(),
        ensures
            final (self).wf(),
            final (self).threads@.len() == old(self).threads@.len(),
            rounds <= script@.len(),
            run_steps(
                old(self).threads@,
                old(self).current as int,
                final (self).threads@,
                final (self).current as int,
                script@,
                rounds as int,
            ),
    {
        let r = self.run_from(script, 0);
        proof {
            assert(script@.subrange(0, script@.len() as int) =~= script@);
        }
        r
    }

    /// The steps of `run` from script position `k` on.
    fn run_from(&mut self, script: &Vec<bool>, k: usize) -> (rounds: usize)
        requires
            old(self).wf(),
            k <= script@.len(),
        ensures
            final (self).wf(),
            final (self).threads@.len() == old(self).threads@.len(),
            rounds <= script@.len() - k,
            run_steps(
                old(self).threads@,
                old(self).current as int,
                final (self).threads@,
                final (self).current as int,
                script@.subrange(k as int, script@.len() as int),
                rounds as int,
            ),
        decreases script@.len() - k,
    {
        let len = script.len();
        let ghost rest = script@.subrange(k as int, len as int);
        if k >= len {
            proof {
                assert(rest.len() == 0);
            }
            return 0;
        }
        proof {
            assert(rest[0] == script@[k as int]);
            assert(rest.drop_first() =~= script@.subrange(k + 1 as int, len as int));
        }
        let yielded = script[k];
        if yielded {
            if !self.t_yield() {
                // The yield relation's empty case: no slot was runnable and
                // nothing moved, so the run stops here.
                return 0;
            }
            let ghost mid_t = self.threads@;
            let ghost mid_c = self.current as int;
            let r = self.run_from(script, k + 1);
            proof {
                assert(yield_rel(old(self).threads@, old(self).current as int, mid_t, mid_c, true));
                assert(run_steps(
                    old(self).threads@,
                    old(self).current as int,
                    self.threads@,
                    self.current as int,
                    rest,
                    r + 1,
                ));
            }
            r + 1
        } else {
            self.t_return();
            let ghost mid_t = self.threads@;
            let ghost mid_c = self.current as int;
            let r = self.run_from(script, k + 1);
            proof {
                assert(return_rel(old(self).threads@, old(self).current as int, mid_t, mid_c));
                assert(run_steps(
                    old(self).threads@,
                    old(self).current as int,
                    self.threads@,
                    self.current as int,
                    rest,
                    r + 1,
                ));
            }
            r + 1
        }
    }
}

} // verus!
