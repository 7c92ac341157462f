//! The socket resource future: a state machine `Unstarted -> AwaitingIO ->
//! Done`. The first poll lazily starts the operation — it hands the request
//! text to the driver for sending and registers interest with the reactor —
//! and every later poll drains whatever the connection offers right now,
//! suspending on "would block" and resolving when the peer closes.

use vstd::prelude::*;
use vstd::string::StringExecFns;
use crate::future::{Future, PollError, PollState, ReadOutcome, RtCtx, TaskOutput, reads_wf};
use crate::executor::Waker;

verus! {

/// The request text sent for `path`: a minimal HTTP/1.1 GET with
/// `Connection: close`, so the peer signals completion by closing the socket.
pub open spec fn spec_get_req(path: Seq<char>) -> Seq<char> {
    "GET "@ + path + " HTTP/1.1\r\nHost: localhost\r\nConnection: close\r\n\r\n"@
}

/// Builds the HTTP/1.1 request line for `path`.
pub fn get_req(path: &str) -> (r: String)
    ensures
        r@ == spec_get_req(path@),
{
    let mut s = String::new();
    s.append("GET ");
    s.append(path);
    s.append(" HTTP/1.1\r\nHost: localhost\r\nConnection: close\r\n\r\n");
    proof {
        assert(s@ =~= spec_get_req(path@));
    }
    s
}

/// The decoding of `bytes` as UTF-8 with invalid sequences replaced, named:
/// it depends on the bytes alone.
pub uninterp spec fn lossy_utf8(bytes: Seq<u8>) -> Seq<char>;

/// Relies on String::from_utf8_lossy: the decoding is a function of the bytes
/// alone (invalid sequences become the replacement character), and an empty
/// input decodes to the empty string.
#[verifier::external_body]
fn decode_utf8_lossy(bytes: &Vec<u8>) -> (r: String)
    ensures
        r@ == lossy_utf8(bytes@),
        bytes@.len() == 0 ==> r@.len() == 0,
{
    String::from_utf8_lossy(bytes.as_slice()).into_owned()
}

/// The bytes one drain pass accumulates: the data chunks before the first
/// non-data outcome, concatenated in order.
pub open spec fn gathered(reads: Seq<ReadOutcome>) -> Seq<u8>
    decreases reads.len(),
{
    if reads.len() == 0 {
        Seq::empty()
    } else {
        match reads[0] {
            ReadOutcome::Data(d) => d@ + gathered(reads.drop_first()),
            _ => Seq::empty(),
        }
    }
}

/// The outcome that stops one drain pass: the first non-data outcome, or
/// "would block" when the offered reads run out.
pub open spec fn stop_elem(reads: Seq<ReadOutcome>) -> ReadOutcome
    decreases reads.len(),
{
    if reads.len() == 0 {
        ReadOutcome::WouldBlock
    } else {
        match reads[0] {
            ReadOutcome::Data(_) => stop_elem(reads.drop_first()),
            _ => reads[0],
        }
    }
}

/// What is left of the offered reads after one drain pass: everything past
/// the stopping outcome.
pub open spec fn rest_reads(reads: Seq<ReadOutcome>) -> Seq<ReadOutcome>
    decreases reads.len(),
{
    if reads.len() == 0 {
        Seq::empty()
    } else {
        match reads[0] {
            ReadOutcome::Data(_) => rest_reads(reads.drop_first()),
            _ => reads.drop_first(),
        }
    }
}

/// How one drain pass ended.
enum DrainEnd {
    Blocked,
    PeerClosed,
    Errored(i32),
}

/// Reads everything currently available: appends each data chunk to `buffer`
/// and stops at the first non-data outcome (or when the reads run out, which
/// is the same suspension signal as "would block"). The tight retry on data
/// is safe: each chunk just proved more input was immediately available.
fn drain(buffer: &mut Vec<u8>, reads: &mut Vec<ReadOutcome>) -> (end: DrainEnd)
    requires
        reads_wf(old(reads)@),
    ensures
        final (buffer)@ == old(buffer)@ + gathered(old(reads)@),
        final (reads)@ == rest_reads(old(reads)@),
        reads_wf(final (reads)@),
        match end {
            DrainEnd::Blocked => stop_elem(old(reads)@) == ReadOutcome::WouldBlock,
            DrainEnd::PeerClosed => stop_elem(old(reads)@) == ReadOutcome::Closed,
            DrainEnd::Errored(e) => stop_elem(old(reads)@) == ReadOutcome::Failed(e),
        },
    decreases reads@.len(),
{
    if reads.len() == 0 {
        proof {
            assert(buffer@ =~= old(buffer)@ + gathered(old(reads)@));
            assert(reads@ =~= rest_reads(old(reads)@));
        }
        return DrainEnd::Blocked;
    }
    let first = reads.remove(0);
    proof {
        assert(reads@ =~= old(reads)@.drop_first());
        assert(forall|i: int|
            0 <= i < reads@.len() ==> reads@[i] == old(reads)@[i + 1] && reads@[i] == old(
                reads,
            )@.drop_first()[i]);
    }
    match first {
        ReadOutcome::Data(mut d) => {
            buffer.append(&mut d);
            let end = drain(buffer, reads);
            proof {
                assert(buffer@ =~= old(buffer)@ + gathered(old(reads)@));
            }
            end
        },
        ReadOutcome::WouldBlock => {
            proof {
                assert(buffer@ =~= old(buffer)@ + gathered(old(reads)@));
            }
            DrainEnd::Blocked
        },
        ReadOutcome::Closed => {
            proof {
                assert(buffer@ =~= old(buffer)@ + gathered(old(reads)@));
            }
            DrainEnd::PeerClosed
        },
        ReadOutcome::Failed(e) => {
            proof {
                assert(buffer@ =~= old(buffer)@ + gathered(old(reads)@));
            }
            DrainEnd::Errored(e)
        },
    }
}

/// The interest bit set the socket future registers with: readable and
/// writable, as the OS-level readiness flags encode them.
pub const INTEREST_READ_WRITE: i32 = 5;

/// One request text was appended for sending and nothing else about the
/// outbox changed.
pub open spec fn pushed_req(pre: Seq<String>, post: Seq<String>, path: Seq<char>) -> bool {
    post.len() == pre.len() + 1 && post.take(pre.len() as int) == pre && post.last()@
        == spec_get_req(path)
}


/// Everything one poll of the socket future does, as a relation between the
/// future and the context before (`pre`, `cx0`) and after (`post`, `cx1`) the
/// call, the waker handed in, and the result.
///
/// A resolved future fails fast and changes nothing. The first poll hands the
/// request text over, registers exactly one interest bound to the waker, and
/// suspends — or, if the OS refuses the registration, resolves to that
/// failure. Every later poll appends exactly the offered data chunks to the
/// buffer; the first non-data outcome decides: would-block (or nothing
/// offered) re-arms the binding and suspends, the peer closing resolves to
/// the lossily decoded buffer, an error code resolves to that failure — the
/// terminal cases deregister the interest.
pub open spec fn http_poll_rel(
    pre: HttpGetFuture,
    post: HttpGetFuture,
    cx0: RtCtx,
    cx1: RtCtx,
    waker: Waker,
    r: Result<PollState<TaskOutput>, PollError>,
) -> bool {
    &&& post.consistent()
    &&& post.token_in(cx1.reactor.wakers@.len() as int)
    &&& post.path == pre.path
    &&& post.source == pre.source
    &&& cx1.reactor.wakers@.len() >= cx0.reactor.wakers@.len()
    &&& cx1.timers == cx0.timers
    &&& cx1.io.now_ms == cx0.io.now_ms
    &&& cx1.io.emitted == cx0.io.emitted
    &&& (reads_wf(cx0.io.reads@) ==> reads_wf(cx1.io.reads@))
    &&& (pre.resolved ==> r is Err && post == pre && cx1 == cx0)
    &&& (!pre.resolved && !pre.started ==> {
        &&& pushed_req(cx0.io.sent@, cx1.io.sent@, pre.path@)
        &&& cx1.io.reads == cx0.io.reads
        &&& post.started
        &&& post.buffer == pre.buffer
        &&& match r {
            Ok(PollState::Pending) => {
                &&& !cx0.reactor.poll.registry.has_source(pre.source)
                &&& post.token == Some(cx0.reactor.wakers@.len() as usize)
                &&& !post.resolved
                &&& cx1.reactor.wakers@ == cx0.reactor.wakers@.push(Some(waker.id))
                &&& cx1.reactor.poll.registry.regs@ == cx0.reactor.poll.registry.regs@.push(
                    (crate::poll::Registration {
                        source: pre.source,
                        token: cx0.reactor.wakers@.len() as usize,
                        interests: INTEREST_READ_WRITE,
                    }),
                )
            },
            Ok(PollState::Ready(out)) => {
                &&& cx0.reactor.poll.registry.has_source(pre.source)
                &&& out matches TaskOutput::Failed(_)
                &&& post.resolved
                &&& cx1.reactor == cx0.reactor
            },
            _ => false,
        }
    })
    &&& (!pre.resolved && pre.started ==> {
        let reads0 = cx0.io.reads@;
        let buf1 = pre.buffer@ + gathered(reads0);
        let token = pre.token->0;
        &&& cx1.io.sent == cx0.io.sent
        &&& cx1.io.reads@ == rest_reads(reads0)
        &&& post.started
        &&& post.token == pre.token
        &&& match r {
            Ok(PollState::Pending) => {
                &&& stop_elem(reads0) == ReadOutcome::WouldBlock
                &&& !post.resolved
                &&& post.buffer@ == buf1
                &&& cx1.reactor.wakers@ == cx0.reactor.wakers@.update(
                    token as int,
                    Some(waker.id),
                )
                &&& cx1.reactor.poll == cx0.reactor.poll
            },
            Ok(PollState::Ready(out)) => {
                &&& post.resolved
                &&& cx1.reactor.wakers@ == cx0.reactor.wakers@.update(token as int, None::<usize>)
                &&& match out {
                    TaskOutput::Text(s) => stop_elem(reads0) == ReadOutcome::Closed && s@
                        == lossy_utf8(buf1) && post.buffer@ == buf1 && (buf1.len() == 0 ==> s@.len()
                        == 0),
                    TaskOutput::Failed(e) => stop_elem(reads0) == ReadOutcome::Failed(e),
                    _ => false,
                }
            },
            _ => false,
        }
    })
}

/// A socket GET: `Unstarted` until first polled, `AwaitingIO` while bytes may
/// still arrive, `Done` once the peer closed or a terminal error came back.
pub struct HttpGetFuture {
    /// The request path.
    pub path: String,
    /// Bytes accumulated so far across polls.
    pub buffer: Vec<u8>,
    /// The driver's identifier for the connection (its descriptor).
    pub source: usize,
    /// The interest token, once registered.
    pub token: Option<usize>,
    /// Whether the first poll already started the operation.
    pub started: bool,
    /// Whether the future already returned ready.
    pub resolved: bool,
}

impl HttpGetFuture {
    /// A future's own consistency: once started and not yet resolved, it
    /// holds the interest token of its one outstanding registration.
    pub open spec fn consistent(&self) -> bool {
        self.started && !self.resolved ==> self.token is Some
    }

    /// The token this future holds, if any, indexes the reactor's bindings.
    pub open spec fn token_in(&self, wakers_len: int) -> bool {
        self.token matches Some(t) ==> t < wakers_len
    }

    /// An unstarted future for a GET of `path` over connection `source`.
    pub fn new(path: String, source: usize) -> (f: HttpGetFuture)
        ensures
            f.path == path,
            f.buffer@ =~= Seq::<u8>::empty(),
            f.source == source,
            f.token is None,
            !f.started,
            !f.resolved,
            f.consistent(),
    {
        HttpGetFuture { path, buffer: Vec::new(), source, token: None, started: false, resolved: false }
    }

    /// One non-blocking attempt to make progress.
    ///
    /// First poll (lazy start): hands the request text to the driver, puts
    /// exactly one interest into the reactor — bound to `waker` — and
    /// suspends; if the OS refuses the registration, that failure is this
    /// future's terminal result. Later polls: drain what is offered; on
    /// "would block" re-arm the binding (the most recent poller is woken) and
    /// suspend; when the peer closes, resolve to the lossily decoded buffer
    /// and deregister; a terminal error resolves to the failure, also
    /// deregistering. Polling after ready fails fast.
    pub fn poll(&mut self, waker: Waker, cx: &mut RtCtx) -> (r: Result<
        PollState<TaskOutput>,
        PollError,
    >)
        requires
            old(self).consistent(),
            old(self).token_in(old(cx).reactor.wakers@.len() as int),
            reads_wf(old(cx).io.reads@),
            old(cx).reactor.wakers@.len() < usize::MAX,
        ensures
            http_poll_rel(*old(self), *final (self), *old(cx), *final (cx), waker, r),
    {
        if self.resolved {
            return Err(PollError::PolledAfterResolve);
        }
        if !self.started {
            let req = get_req(self.path.as_str());
            cx.io.sent.push(req);
            self.started = true;
            proof {
                assert(cx.io.sent@.take(old(cx).io.sent@.len() as int) =~= old(cx).io.sent@);
            }
            match cx.reactor.register(self.source, INTEREST_READ_WRITE, waker) {
                Ok(token) => {
                    self.token = Some(token);
                    Ok(PollState::Pending)
                },
                Err(e) => {
                    // The registration syscall failed: fatal to this one
                    // attempt, surfaced as this future's failed result.
                    self.resolved = true;
                    Ok(PollState::Ready(TaskOutput::Failed(e)))
                },
            }
        } else {
            let token = self.token.unwrap();
            match drain(&mut self.buffer, &mut cx.io.reads) {
                DrainEnd::Blocked => {
                    cx.reactor.rearm(token, waker);
                    Ok(PollState::Pending)
                },
                DrainEnd::PeerClosed => {
                    self.resolved = true;
                    cx.reactor.deregister(self.source, token);
                    let text = decode_utf8_lossy(&self.buffer);
                    Ok(PollState::Ready(TaskOutput::Text(text)))
                },
                DrainEnd::Errored(e) => {
                    self.resolved = true;
                    cx.reactor.deregister(self.source, token);
                    Ok(PollState::Ready(TaskOutput::Failed(e)))
                },
            }
        }
    }

    /// Abandons the future before completion (the cancellation path: dropping
    /// the task). Its outstanding interest, if any, is deregistered, so no
    /// dangling registration or waker binding remains.
    pub fn cancel(self, reactor: &mut crate::reactor::Reactor)
        requires
            self.token_in(old(reactor).wakers@.len() as int),
            crate::poll::sources_unique(old(reactor).poll.registry.regs@),
        ensures
            match self.token {
                Some(t) => final (reactor).wakers@ == old(reactor).wakers@.update(
                    t as int,
                    None::<usize>,
                ) && !final (reactor).poll.registry.has_source(self.source),
                None => *final (reactor) == *old(reactor),
            },
    {
        match self.token {
            Some(t) => {
                let ghost pre = reactor.poll.registry.regs@;
                reactor.deregister(self.source, t);
                proof {
                    if reactor.poll.registry.has_source(self.source) {
                        let post = reactor.poll.registry.regs@;
                        let j = choose|j: int|
                            0 <= j < post.len() && (#[trigger] post[j]).source == self.source;
                        if old(reactor).poll.registry.has_source(self.source) {
                            let i = choose|i: int|
                                0 <= i < pre.len() && (#[trigger] pre[i]).source == self.source
                                    && post == pre.remove(i);
                            if j < i {
                                assert(post[j] == pre[j]);
                                assert(pre[j].source == self.source);
                            } else {
                                assert(post[j] == pre[j + 1]);
                                assert(pre[j + 1].source == self.source);
                            }
                            assert(false);
                        }
                    }
                }
            },
            None => {},
        }
    }
}

impl Future for HttpGetFuture {
    type Output = TaskOutput;

    open spec fn done(&self) -> bool {
        self.resolved
    }

    open spec fn ready_to_poll(&self, cx: RtCtx) -> bool {
        &&& self.consistent()
        &&& self.token_in(cx.reactor.wakers@.len() as int)
        &&& reads_wf(cx.io.reads@)
        &&& cx.reactor.wakers@.len() < usize::MAX
    }

    fn poll(&mut self, waker: crate::executor::Waker, cx: &mut RtCtx) -> (r: Result<
        PollState<TaskOutput>,
        PollError,
    >) {
        HttpGetFuture::poll(self, waker, cx)
    }
}

/// The entry point: builds the socket future for a GET of `path` over
/// connection `source`.
pub struct Http;

impl Http {
    /// A new, unstarted GET future; the operation begins at the first poll.
    pub fn get(path: String, source: usize) -> (f: HttpGetFuture)
        ensures
            f.path == path,
            f.buffer@ =~= Seq::<u8>::empty(),
            f.source == source,
            f.token is None,
            !f.started,
            !f.resolved,
            f.consistent(),
    {
        HttpGetFuture::new(path, source)
    }
}

} // verus!
