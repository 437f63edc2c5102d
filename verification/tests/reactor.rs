use crossbus::actor::HandleCounter;
use crossbus::reactor::{
    dec_poll_budget, inc_poll_budget, is_pending_polled, pending_polled, reset_poll_budget,
    reset_poll_pending, PollState, ReactingOrder, Reactor, ReactorHandle, ReactorOutcome,
    ReactorPair, ReactorStep,
};

fn names(r: &Reactor<&'static str>) -> Vec<&'static str> {
    r.inner.iter().map(|p| p.inner).collect()
}

#[test]
fn poll_state_budget() {
    let mut st = PollState::new();
    assert!(!is_pending_polled(&st));
    pending_polled(&mut st);
    assert!(is_pending_polled(&st));
    reset_poll_pending(&mut st);
    assert!(!is_pending_polled(&st));
    inc_poll_budget(&mut st, 2);
    assert_eq!(st.budget, 5);
    assert_eq!(dec_poll_budget(&mut st, 1), 5);
    assert_eq!(st.budget, 4);
    reset_poll_budget(&mut st);
    assert_eq!(st.budget, 3);
    st.budget = 0;
    assert_eq!(dec_poll_budget(&mut st, 1), 0);
    assert_eq!(st.budget, usize::MAX);
}

#[test]
fn reactor_applies_orders_in_order() {
    let mut r: Reactor<&'static str> = Reactor::new();
    let mut counter = HandleCounter::new();
    let a = ReactorPair::new("a", &mut counter);
    let b = ReactorPair::new("b", &mut counter);
    let c = ReactorPair::new("c", &mut counter);
    assert_eq!(a.handle, ReactorHandle(1));
    r.push(a);
    r.push(b);
    r.execute(ReactingOrder::Execute(c));
    r.execute(ReactingOrder::Abort(ReactorHandle(1)));
    assert_eq!(r.len(), 0);
    r.epoll();
    assert_eq!(names(&r), vec!["c", "b"]);
    assert!(!r.exit);
    r.execute(ReactingOrder::Exit(3));
    r.epoll();
    assert!(r.exit);
    assert_eq!(r.exit_code, 3);
    // once the exit is ordered, the round drops every future
    assert_eq!(r.begin_round(), ReactorStep::Finish);
    assert_eq!(r.len(), 0);
}

#[test]
fn reactor_round() {
    let mut r: Reactor<&'static str> = Reactor::new();
    let mut counter = HandleCounter::new();
    r.push(ReactorPair::new("a", &mut counter));
    r.push(ReactorPair::new("b", &mut counter));
    assert_eq!(r.begin_round(), ReactorStep::PollPair(0));
    // "a" is pending, "b" is complete
    assert_eq!(r.after_pair(0, false), ReactorStep::PollPair(1));
    assert_eq!(r.after_pair(1, true), ReactorStep::Finish);
    assert_eq!(names(&r), vec!["a"]);
    let mut st = PollState::new();
    assert_eq!(r.finish(&mut st), ReactorOutcome::WakePending);
    assert_eq!(st.budget, 2);
    st.budget = 0;
    assert_eq!(r.finish(&mut st), ReactorOutcome::Hang);
    assert_eq!(r.begin_round(), ReactorStep::PollPair(0));
    assert_eq!(r.after_pair(0, true), ReactorStep::Finish);
    pending_polled(&mut st);
    assert_eq!(r.finish(&mut st), ReactorOutcome::Done);
    assert_eq!(st.budget, 3);
    assert!(!st.pending);
}
