use crossbus::actor::HandleCounter;
use crossbus::register::{ActorRegister, Register};
use std::sync::Arc;

#[test]
fn test_downcast_cell() {
    struct Se {}

    let mut counter = HandleCounter::new();
    let reg = ActorRegister::new::<Se, ()>(Se {}, &mut counter);
    let inner = Arc::clone(&reg.inner);
    let _a = inner.clone();

    let inn = reg.downcast_ref_cell().inner;
    assert_eq!(Arc::strong_count(&inn), Arc::strong_count(&inner));
    assert_eq!(Arc::weak_count(&inn), Arc::weak_count(&inner));
    drop(_a);
    drop(inner);
    drop(reg);
    assert_eq!(Arc::strong_count(&inn), 1);
    assert_eq!(Arc::weak_count(&inn), 0);
}

#[test]
fn register_names_and_ids() {
    let mut counter = HandleCounter::new();
    let a = ActorRegister::new::<u32, u8>(10u32, &mut counter);
    let b = ActorRegister::new::<u32, u8>(20u32, &mut counter);
    assert_eq!(a.id(), 1);
    assert_eq!(b.id(), 2);
    assert_eq!(a.name(), "Actor-1");
    assert_eq!(b.name(), "Actor-2");
    let mut reg = Register::new();
    let guard = reg.push(a);
    reg.push(b);
    assert_eq!(*guard.actor(), 10);
    assert_eq!(reg.len(), 2);
    assert_eq!(*reg.get(2).unwrap().inner, 20);
    assert!(reg.get(3).is_none());
}

#[test]
fn register_sweeps_closed_unshared_records() {
    let mut counter = HandleCounter::new();
    let mut reg = Register::new();
    let g1 = reg.push(ActorRegister::new::<u32, u8>(1u32, &mut counter));
    let _g2 = reg.push(ActorRegister::new::<u32, u8>(2u32, &mut counter));
    let _g3 = reg.push(ActorRegister::new::<u32, u8>(3u32, &mut counter));
    assert!(reg.set_closed(1, true));
    assert!(reg.set_closed(2, true));
    assert!(!reg.set_closed(9, true));
    assert!(reg.get(1).unwrap().is_closed());
    // every actor is still held by its guard: nothing leaves
    assert!(reg.update().is_empty());
    drop(g1);
    let removed = reg.update();
    assert_eq!(removed.len(), 1);
    assert_eq!(removed[0].id(), 1);
    let ids: Vec<usize> = reg.iter().map(|r| r.id()).collect();
    assert_eq!(ids, vec![3, 2]);
    let out = reg.sweep(vec![1, 1]);
    assert_eq!(out.len(), 1);
    assert_eq!(out[0].id(), 2);
    assert_eq!(reg.as_ref().len(), 1);
}

#[test]
fn register_record_fields() {
    let mut counter = HandleCounter::new();
    let mut r = ActorRegister::new::<u64, u16>(5u64, &mut counter);
    assert!(!r.is_sealed());
    assert!(!r.is_closed());
    r.set_closed(true);
    assert!(r.is_closed());
    r.set_name(String::from("summer"));
    assert_eq!(r.name(), "summer");
    assert_eq!(r.type_id(), std::any::TypeId::of::<u64>());
    assert_eq!(r.message_id(), std::any::TypeId::of::<u16>());
}

#[test]
fn register_names_carry_every_digit_of_the_id() {
    let mut counter = HandleCounter { next: 0 };
    let zero = ActorRegister::new::<u32, u8>(1u32, &mut counter);
    assert_eq!(zero.name(), "Actor-0");
    let mut counter = HandleCounter { next: 1209 };
    let many = ActorRegister::new::<u32, u8>(2u32, &mut counter);
    assert_eq!(many.name(), "Actor-1209");
    let mut counter = HandleCounter { next: usize::MAX };
    let last = ActorRegister::new::<u32, u8>(3u32, &mut counter);
    assert_eq!(last.name(), format!("Actor-{}", usize::MAX));
    assert_eq!(counter.next, 0);
}
