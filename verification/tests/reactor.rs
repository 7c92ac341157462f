use minirt::executor::{ReadyQueue, Waker};
use minirt::poll::{Event, Poll, DUPLICATE_SOURCE};
use minirt::reactor::Reactor;

#[test]
fn registry_refuses_duplicate_sources() {
    let mut p = Poll::new();
    assert!(p.registry_mut().register(4, 0, 5).is_ok());
    assert_eq!(p.registry_mut().register(4, 1, 5), Err(DUPLICATE_SOURCE));
    assert_eq!(p.registry().regs.len(), 1);
    assert!(p.registry_mut().register(5, 1, 5).is_ok());
    assert_eq!(p.registry().regs.len(), 2);
}

#[test]
fn registry_deregister_removes_the_source() {
    let mut p = Poll::new();
    p.registry_mut().register(4, 0, 5).unwrap();
    p.registry_mut().register(5, 1, 5).unwrap();
    assert!(p.registry_mut().deregister(4).is_ok());
    assert_eq!(p.registry().regs.len(), 1);
    assert_eq!(p.registry().regs[0].source, 5);
    // Deregistering an unknown source is the OS error, not a crash.
    assert!(p.registry_mut().deregister(4).is_err());
}

#[test]
fn poll_reports_only_registered_tokens() {
    let mut p = Poll::new();
    p.registry_mut().register(10, 3, 5).unwrap();
    p.registry_mut().register(11, 7, 5).unwrap();
    let offered = vec![
        Event { token: 7 },
        Event { token: 99 },
        Event { token: 3 },
    ];
    let mut events = Vec::new();
    let n = p.poll(&mut events, &offered);
    assert_eq!(n, 2);
    assert_eq!(events, vec![Event { token: 7 }, Event { token: 3 }]);
}

#[test]
fn handle_events_wakes_in_event_order_and_consumes_bindings() {
    let mut r = Reactor::start();
    let t0 = r.register(20, 5, Waker { id: 0 }).unwrap();
    let t1 = r.register(21, 5, Waker { id: 1 }).unwrap();
    let mut q = ReadyQueue::new();

    let n = r.handle_events(&vec![Event { token: t1 }, Event { token: t0 }], &mut q);
    assert_eq!(n, 2);
    // Wakes arrive in event order; the FIFO queue keeps it.
    assert_eq!(q.ids, vec![1, 0]);
    // Both bindings were consumed: a repeat delivery wakes nothing.
    let n2 = r.handle_events(&vec![Event { token: t0 }, Event { token: t1 }], &mut q);
    assert_eq!(n2, 0);
    assert_eq!(q.ids, vec![1, 0]);
}

#[test]
fn unknown_tokens_are_silently_ignored() {
    let mut r = Reactor::start();
    let t0 = r.register(30, 5, Waker { id: 2 }).unwrap();
    let mut q = ReadyQueue::new();
    let n = r.handle_events(&vec![Event { token: t0 + 17 }], &mut q);
    assert_eq!(n, 0);
    assert!(q.ids.is_empty());
}

#[test]
fn rearm_binds_the_most_recent_poller() {
    let mut r = Reactor::start();
    let t = r.register(40, 5, Waker { id: 1 }).unwrap();
    r.rearm(t, Waker { id: 9 });
    let mut q = ReadyQueue::new();
    r.handle_events(&vec![Event { token: t }], &mut q);
    assert_eq!(q.ids, vec![9]);
}

#[test]
fn deregister_clears_binding_and_registration() {
    let mut r = Reactor::start();
    let t = r.register(50, 5, Waker { id: 4 }).unwrap();
    r.deregister(50, t);
    assert_eq!(r.wakers, vec![None]);
    assert_eq!(r.poll.registry().regs.len(), 0);
    let mut q = ReadyQueue::new();
    assert_eq!(r.handle_events(&vec![Event { token: t }], &mut q), 0);
    assert!(q.ids.is_empty());
}
