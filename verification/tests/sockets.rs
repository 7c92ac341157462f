use minirt::executor::{Dispatched, Executor, Waker};
use minirt::future::{PollState, ReadOutcome, RtCtx, TaskOutput};
use minirt::http::{get_req, Http, HttpGetFuture};
use minirt::poll::Event;
use minirt::task::TaskFuture;

const REQ: &str = "GET / HTTP/1.1\r\nHost: localhost\r\nConnection: close\r\n\r\n";

#[test]
fn get_req_exact_text() {
    assert_eq!(get_req("/"), REQ);
    assert_eq!(
        get_req("/500/HelloWorld"),
        "GET /500/HelloWorld HTTP/1.1\r\nHost: localhost\r\nConnection: close\r\n\r\n"
    );
}

#[test]
fn server_closes_immediately_yields_empty_text() {
    // End-to-end: the peer closes the connection with zero bytes sent.
    let mut ex = Executor::new();
    let mut cx = RtCtx::new(0);
    let id = ex.spawn(TaskFuture::Http(Http::get("/".to_string(), 7)));

    // First poll: lazy start. The request is handed over for sending, one
    // interest is registered, the task suspends.
    let d = ex.dispatch_one(&mut cx);
    assert_eq!(d, Dispatched::Suspended(id));
    assert_eq!(cx.io.sent.len(), 1);
    assert_eq!(cx.io.sent[0], REQ);
    assert_eq!(cx.reactor.poll.registry().regs.len(), 1);
    assert_eq!(cx.reactor.wakers, vec![Some(id)]);

    // The reactor reports readiness; the wake re-enqueues the task.
    let n = cx.reactor.handle_events(&vec![Event { token: 0 }], &mut ex.queue);
    assert_eq!(n, 1);
    assert_eq!(ex.queue.ids, vec![id]);

    // The connection is already closed: zero-byte read.
    cx.io.reads = vec![ReadOutcome::Closed];
    let d2 = ex.dispatch_one(&mut cx);
    assert_eq!(d2, Dispatched::Completed(id));
    assert_eq!(ex.outputs, vec![TaskOutput::Text(String::new())]);
    // Completion removed the registration.
    assert_eq!(cx.reactor.poll.registry().regs.len(), 0);
}

#[test]
fn two_chunks_accumulate_to_hello() {
    // End-to-end: "hello" arrives as a 3-byte and a 2-byte chunk with a
    // delay (a would-block and a fresh readiness event) between them.
    let mut ex = Executor::new();
    let mut cx = RtCtx::new(0);
    let id = ex.spawn(TaskFuture::Http(Http::get("/".to_string(), 3)));

    assert_eq!(ex.dispatch_one(&mut cx), Dispatched::Suspended(id));

    cx.reactor.handle_events(&vec![Event { token: 0 }], &mut ex.queue);
    cx.io.reads = vec![
        ReadOutcome::Data(vec![b'h', b'e', b'l']),
        ReadOutcome::WouldBlock,
    ];
    assert_eq!(ex.dispatch_one(&mut cx), Dispatched::Suspended(id));
    assert!(cx.io.reads.is_empty());
    // Pending re-armed the binding, so the next event wakes the task again.
    assert_eq!(cx.reactor.wakers, vec![Some(id)]);

    cx.reactor.handle_events(&vec![Event { token: 0 }], &mut ex.queue);
    cx.io.reads = vec![ReadOutcome::Data(vec![b'l', b'o']), ReadOutcome::Closed];
    assert_eq!(ex.dispatch_one(&mut cx), Dispatched::Completed(id));
    assert_eq!(ex.outputs, vec![TaskOutput::Text("hello".to_string())]);
}

#[test]
fn terminal_read_error_is_a_failed_ready() {
    let mut ex = Executor::new();
    let mut cx = RtCtx::new(0);
    let id = ex.spawn(TaskFuture::Http(Http::get("/x".to_string(), 4)));
    assert_eq!(ex.dispatch_one(&mut cx), Dispatched::Suspended(id));
    cx.reactor.handle_events(&vec![Event { token: 0 }], &mut ex.queue);
    cx.io.reads = vec![ReadOutcome::Data(vec![1, 2]), ReadOutcome::Failed(104)];
    assert_eq!(ex.dispatch_one(&mut cx), Dispatched::Completed(id));
    assert_eq!(ex.outputs, vec![TaskOutput::Failed(104)]);
}

#[test]
fn duplicate_source_registration_fails_the_future() {
    let mut cx = RtCtx::new(0);
    let waker = Waker { id: 0 };
    let mut a = HttpGetFuture::new("/a".to_string(), 9);
    let mut b = HttpGetFuture::new("/b".to_string(), 9);
    match a.poll(waker, &mut cx) {
        Ok(PollState::Pending) => {}
        other => panic!("first registration should suspend, got {:?}", other),
    }
    // The same descriptor again: the OS refuses, the future fails terminally.
    match b.poll(waker, &mut cx) {
        Ok(PollState::Ready(TaskOutput::Failed(code))) => {
            assert_eq!(code, minirt::poll::DUPLICATE_SOURCE);
        }
        other => panic!("duplicate registration should fail, got {:?}", other),
    }
    // Only the first future's interest is outstanding.
    assert_eq!(cx.reactor.poll.registry().regs.len(), 1);
}

#[test]
fn pending_leaves_exactly_one_interest_and_cancel_removes_it() {
    // A pending resource future holds exactly one outstanding interest;
    // abandoning the future deregisters it, so a stale event wakes nothing.
    let mut cx = RtCtx::new(0);
    let waker = Waker { id: 5 };
    let mut f = HttpGetFuture::new("/q".to_string(), 11);
    match f.poll(waker, &mut cx) {
        Ok(PollState::Pending) => {}
        other => panic!("expected pending, got {:?}", other),
    }
    assert_eq!(cx.reactor.poll.registry().regs.len(), 1);
    assert_eq!(cx.reactor.wakers, vec![Some(5)]);
    let token = f.token.unwrap();

    f.cancel(&mut cx.reactor);
    assert_eq!(cx.reactor.poll.registry().regs.len(), 0);
    assert_eq!(cx.reactor.wakers, vec![None]);

    let mut q = minirt::executor::ReadyQueue::new();
    let n = cx.reactor.handle_events(&vec![Event { token }], &mut q);
    assert_eq!(n, 0);
    assert!(q.ids.is_empty());
}

#[test]
fn polling_a_resolved_socket_future_fails_fast() {
    let mut ex = Executor::new();
    let mut cx = RtCtx::new(0);
    let id = ex.spawn(TaskFuture::Http(Http::get("/".to_string(), 2)));
    assert_eq!(ex.dispatch_one(&mut cx), Dispatched::Suspended(id));
    cx.reactor.handle_events(&vec![Event { token: 0 }], &mut ex.queue);
    cx.io.reads = vec![ReadOutcome::Closed];
    assert_eq!(ex.dispatch_one(&mut cx), Dispatched::Completed(id));

    // Direct protocol check on a fresh future polled past ready.
    let waker = Waker { id: 0 };
    let mut f = HttpGetFuture::new("/".to_string(), 30);
    let mut cx2 = RtCtx::new(0);
    assert!(matches!(f.poll(waker, &mut cx2), Ok(PollState::Pending)));
    cx2.io.reads = vec![ReadOutcome::Closed];
    assert!(matches!(
        f.poll(waker, &mut cx2),
        Ok(PollState::Ready(TaskOutput::Text(_)))
    ));
    assert!(f.poll(waker, &mut cx2).is_err());
}

#[test]
fn invalid_utf8_is_decoded_lossily() {
    // 0xFF is not valid UTF-8: the decoded text carries the replacement
    // character, not the raw byte.
    let mut ex = Executor::new();
    let mut cx = RtCtx::new(0);
    let id = ex.spawn(TaskFuture::Http(Http::get("/b".to_string(), 6)));
    assert_eq!(ex.dispatch_one(&mut cx), Dispatched::Suspended(id));
    cx.reactor.handle_events(&vec![Event { token: 0 }], &mut ex.queue);
    cx.io.reads = vec![
        ReadOutcome::Data(vec![b'o', b'k', 0xFF]),
        ReadOutcome::Closed,
    ];
    assert_eq!(ex.dispatch_one(&mut cx), Dispatched::Completed(id));
    assert_eq!(
        ex.outputs,
        vec![TaskOutput::Text("ok\u{FFFD}".to_string())]
    );
}
