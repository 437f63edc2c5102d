use crossbus::actor::{ActorState, Handle, HandleCounter, Localizer};

#[test]
fn actor_state_predicates() {
    let all = [
        ActorState::Created,
        ActorState::Started,
        ActorState::Running,
        ActorState::Aborted,
        ActorState::Stopping,
        ActorState::Stopped,
    ];
    let running: Vec<bool> = all.iter().map(|s| s.is_running()).collect();
    assert_eq!(running, vec![false, false, true, false, true, false]);
    let stopping: Vec<bool> = all.iter().map(|s| s.is_stopping()).collect();
    assert_eq!(stopping, vec![false, false, false, false, true, true]);
    let started: Vec<bool> = all.iter().map(|s| s.is_started()).collect();
    assert_eq!(started, vec![false, true, true, true, true, true]);
}

#[test]
fn handles_are_fresh_and_valid() {
    let mut counter = HandleCounter::new();
    let a = Handle::new(&mut counter);
    let b = Handle::new(&mut counter);
    assert_eq!(a.inner(), 1);
    assert_eq!(b.inner(), 2);
    assert_ne!(a, b);
    assert!(a.is_valid() && b.is_valid());
    assert!(!Handle::default().is_valid());
    assert_eq!(counter.next, 3);
}

#[test]
fn handle_counter_wraps() {
    let mut counter = HandleCounter { next: usize::MAX };
    let h = Handle::new(&mut counter);
    assert_eq!(h.inner(), usize::MAX);
    assert_eq!(counter.next, 0);
    let z = Handle::new(&mut counter);
    assert!(!z.is_valid());
}

#[test]
fn localizer_keeps_future() {
    let l = Localizer::new(42u8);
    assert_eq!(l.future, 42);
}
