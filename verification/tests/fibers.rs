use minirt::fibers::{Runtime, State, Thread, DEFAULT_STACK_SIZE, MAX_THREADS};

#[test]
fn test_endpoint() {
    println!("Hello world");
}

#[test]
fn new_runtime_has_base_running_and_rest_available() {
    let rt = Runtime::new();
    assert_eq!(rt.threads.len(), MAX_THREADS);
    assert_eq!(rt.current, 0);
    assert_eq!(rt.threads[0].state, State::Running);
    for i in 1..MAX_THREADS {
        assert_eq!(rt.threads[i].state, State::Available);
        assert_eq!(rt.threads[i].id, i);
        assert_eq!(rt.threads[i].stack_size, DEFAULT_STACK_SIZE);
    }
}

#[test]
fn thread_new_is_a_free_slot() {
    let t = Thread::new(7);
    assert_eq!(t.id, 7);
    assert_eq!(t.state, State::Available);
    assert_eq!(t.stack_size, DEFAULT_STACK_SIZE);
}

#[test]
fn yield_with_nothing_ready_reports_no_switch() {
    let mut rt = Runtime::new();
    assert!(!rt.t_yield());
    assert_eq!(rt.current, 0);
    assert_eq!(rt.threads[0].state, State::Running);
}

#[test]
fn spawn_claims_first_free_slot_and_yield_switches_to_it() {
    let mut rt = Runtime::new();
    assert!(rt.has_available());
    let slot = rt.spawn();
    assert_eq!(slot, 1);
    assert_eq!(rt.threads[1].state, State::Ready);

    // Round robin from the current slot: slot 1 is picked; the old current
    // is demoted to Ready.
    assert!(rt.t_yield());
    assert_eq!(rt.current, 1);
    assert_eq!(rt.threads[1].state, State::Running);
    assert_eq!(rt.threads[0].state, State::Ready);
}

#[test]
fn round_robin_scans_in_cyclic_order() {
    let mut rt = Runtime::new();
    let a = rt.spawn();
    let b = rt.spawn();
    assert_eq!((a, b), (1, 2));

    assert!(rt.t_yield());
    assert_eq!(rt.current, 1);
    // From slot 1 the scan wraps: slot 2 is next, then slot 0.
    assert!(rt.t_yield());
    assert_eq!(rt.current, 2);
    assert!(rt.t_yield());
    assert_eq!(rt.current, 0);
}

#[test]
fn t_return_frees_the_slot() {
    let mut rt = Runtime::new();
    rt.spawn();
    assert!(rt.t_yield());
    assert_eq!(rt.current, 1);

    // The fiber in slot 1 finishes: its slot becomes available again and
    // control goes back to the base slot.
    rt.t_return();
    assert_eq!(rt.threads[1].state, State::Available);
    assert_eq!(rt.current, 0);
    assert_eq!(rt.threads[0].state, State::Running);
}

#[test]
fn t_return_on_base_slot_does_nothing() {
    let mut rt = Runtime::new();
    rt.t_return();
    assert_eq!(rt.current, 0);
    assert_eq!(rt.threads[0].state, State::Running);
}

#[test]
fn run_follows_the_fibers_steps() {
    let mut rt = Runtime::new();
    rt.spawn();
    rt.spawn();
    // Steps taken in turn by whichever fiber is current: the base yields,
    // fiber 1 finishes, fiber 2 finishes; control is back at the base.
    let script = vec![true, false, false];
    let rounds = rt.run(&script);
    assert_eq!(rounds, 3);
    assert_eq!(rt.current, 0);
    assert_eq!(rt.threads[0].state, State::Running);
    assert_eq!(rt.threads[1].state, State::Available);
    assert_eq!(rt.threads[2].state, State::Available);

    // With nothing left to run, a yield step stops the loop at once.
    let rounds2 = rt.run(&vec![true]);
    assert_eq!(rounds2, 0);
}
