use crossbus::actor::Poll;
use crossbus::address::{
    channel, Pack, PackState, QueueError, STATUSALIVE, STATUSCLOSED, STATUSCLOSING, STATUSFULL,
};
use crossbus::context::Context;

fn ready(p: Poll<Option<u32>>) -> Option<u32> {
    match p {
        Poll::Ready(m) => m,
        Poll::Pending => panic!("pending"),
    }
}

#[test]
fn pack_state_transitions() {
    let mut s = PackState::new();
    assert!(s.is_alive());
    assert_eq!(s.message_number(), 0);
    s.inc(2);
    assert_eq!(s.message_number(), 2);
    s.dec(1);
    assert_eq!(s.message_number(), 1);
    s.set_closing();
    assert!(s.is_closing() && !s.is_alive());
    s.set_full();
    assert!(s.is_full());
    s.set_close();
    assert!(s.is_closed());
    assert_eq!(s.status, STATUSCLOSED);
    let t = s.clone();
    assert!(t == s);
}

#[test]
fn pack_send_then_next_is_fifo() {
    let mut p: Pack<u32> = Pack::new();
    p.inc_sender(1);
    assert!(p.send(1).is_ok());
    assert!(p.send(2).is_ok());
    assert_eq!(p.message_number(), 2);
    assert_eq!(ready(p.next()), Some(1));
    assert_eq!(ready(p.next()), Some(2));
    assert!(matches!(p.next(), Poll::Pending));
    assert!(p.is_alive());
}

#[test]
fn pack_without_senders_is_closing_then_closed() {
    let mut p: Pack<u32> = Pack::new();
    assert!(p.send(5).is_ok());
    // no sender is counted: the queue is closing while the message remains
    assert!(p.is_closing());
    // a new delivery brings it back to alive before settling again
    assert!(p.send(6).is_ok());
    assert!(p.is_closing());
    assert_eq!(ready(p.next()), Some(5));
    assert!(p.is_closing());
    assert_eq!(ready(p.next()), Some(6));
    // the last message taken: closed
    assert!(p.is_closed());
    assert_eq!(ready(p.next()), None);
}

#[test]
fn pack_refuses_when_full_or_closed() {
    let mut p: Pack<u32> = Pack::new();
    p.inc_sender(1);
    p.set_capacity(2);
    assert_eq!(p.capacity(), 2);
    assert!(p.send(1).is_ok());
    assert!(p.is_alive());
    assert!(p.send(2).is_ok());
    // the messages reached the capacity of two
    assert!(p.is_full());
    match p.send(3) {
        Err(QueueError::Full(m)) => assert_eq!(m, 3),
        _ => panic!("expected Full"),
    }
    p.set_close();
    match p.send(4) {
        Err(QueueError::Closed(m)) => assert_eq!(m, 4),
        _ => panic!("expected Closed"),
    }
    assert_eq!(ready(p.next()), None);
    assert_eq!(p.message_number(), 2);
}

#[test]
fn pack_close_request_waits_for_senders_and_messages() {
    let mut p: Pack<u32> = Pack::new();
    p.attach_sender();
    assert!(p.send(1).is_ok());
    // a sender is left and a message remains: only closing
    p.request_close();
    assert_eq!(p.state.status, STATUSCLOSING);
    assert!(p.release_sender());
    assert_eq!(ready(p.next()), Some(1));
    // no sender and no message: closed
    assert_eq!(p.state.status, STATUSCLOSED);
    let mut q: Pack<u32> = Pack::new();
    q.request_close();
    assert_eq!(q.state.status, STATUSCLOSED);
}

#[test]
fn pack_update_and_restore_state() {
    let mut p: Pack<u32> = Pack::new();
    p.update_state();
    // no sender and no message: closed
    assert_eq!(p.state.status, STATUSCLOSED);
    p.update_state();
    assert_eq!(p.state.status, STATUSCLOSED);
    let mut q: Pack<u32> = Pack::new();
    q.set_closing();
    assert!(q.restore_state());
    assert_eq!(q.state.status, STATUSALIVE);
    assert!(!q.restore_state());
    q.set_full();
    assert_eq!(q.state.status, STATUSFULL);
    q.set_closing();
    assert_eq!(q.state.status, STATUSCLOSING);
}

#[test]
fn pack_sender_counting() {
    let mut p: Pack<u32> = Pack::new();
    p.attach_sender();
    assert_eq!(p.sender_number(), 1);
    assert!(p.try_inc_sender());
    assert_eq!(p.sender_number(), 2);
    assert!(!p.release_sender());
    assert!(p.release_sender());
    assert_eq!(p.sender_number(), 0);
    p.set_capacity(1);
    p.attach_sender();
    // one sender already fills the room of one
    assert!(!p.try_inc_sender());
    assert_eq!(p.sender_number(), 1);
    p.dec_sender(1);
    assert_eq!(p.sender_number(), 0);
}

#[test]
fn sender_and_receiver_share_the_queue() {
    let (tx, mut rx) = channel::<u32>();
    assert_eq!(tx.capacity(), usize::MAX);
    assert_eq!(rx.message_number(), 0);
    assert!(tx.send(7).is_ok());
    assert_eq!(rx.message_number(), 1);
    assert_eq!(ready(rx.next()), Some(7));
    rx.set_capacity(10);
    assert_eq!(tx.capacity(), 10);
    // the channel's own sender is alive: asking to close leaves the queue
    // closing, and a delivery brings it back
    rx.set_close();
    assert!(tx.send(8).is_ok());
    assert_eq!(ready(rx.next()), Some(8));
    // closing at once refuses every message
    rx.close();
    match tx.send(8) {
        Err(QueueError::Closed(m)) => assert_eq!(m, 8),
        _ => panic!("expected Closed"),
    }
    // a new sender opens the queue again
    let tx2 = rx.as_sender();
    assert!(tx2.send(9).is_ok());
    assert_eq!(ready(rx.next()), Some(9));
    let clone = tx2.try_clone().expect("room for one more sender");
    assert!(!clone.release());
    assert!(!tx2.release());
    // a receiver made from a sender leaves the senders as they are
    let rx2 = tx.as_receiver();
    assert_eq!(rx2.message_number(), 0);
    assert!(tx.release());
    tx.set_capacity(3);
    assert_eq!(tx.message_number(), 0);
}

#[test]
fn channel_sender_is_counted() {
    let (tx, mut rx) = channel::<u32>();
    // with its one sender alive the queue stays open after a delivery
    assert!(tx.send(1).is_ok());
    assert!(tx.send(2).is_ok());
    assert_eq!(ready(rx.next()), Some(1));
    assert_eq!(ready(rx.next()), Some(2));
    // an empty queue with a sender left waits for more
    assert!(matches!(rx.next(), Poll::Pending));
    // that sender was the only one
    assert!(tx.release());
}

#[test]
fn address_delivers_to_the_actor_queue() {
    // three messages through a sender of the actor
    let ctx: Context<u32, ()> = Context::new();
    let addr = ctx.address();
    {
        let sender = addr.sender();
        sender.send(1).ok().unwrap();
        sender.send(1).ok().unwrap();
        sender.send(1).ok().unwrap();
        assert_eq!(sender.message_number(), 3);
    }
    let mut receiver = addr.receiver();
    assert_eq!(receiver.message_number(), 3);
    assert_eq!(ready(receiver.next()), Some(1));
    let s = addr.into_sender();
    assert!(s.send(2).is_ok());
    assert_eq!(s.message_number(), 3);
}

#[test]
fn queue_error_reason() {
    let full: QueueError<u8> = QueueError::Full(1);
    let closed: QueueError<u8> = QueueError::Closed(2);
    assert_eq!(full.reason(), "Queue Full");
    assert_eq!(closed.reason(), "Queue Closed");
}

#[test]
fn pack_keeps_actor_while_senders_or_messages_remain() {
    let mut p: Pack<u32> = Pack::new();
    // no sender and no message: settles to closed and keeps nothing going
    assert!(!p.keeps_actor());
    assert!(p.is_closed());
    let mut q: Pack<u32> = Pack::new();
    q.attach_sender();
    assert!(q.send(1).is_ok());
    assert!(q.keeps_actor());
    assert!(q.is_alive());
    q.release_sender();
    // no sender left, one message: closing, still keeps the actor going
    assert!(q.keeps_actor());
    assert!(q.is_closing());
}

#[test]
fn weak_handles_upgrade_while_the_queue_exists() {
    let (tx, rx) = channel::<u32>();
    let weak_tx = tx.downgrade();
    let weak_rx = rx.downgrade();
    let tx2 = weak_tx.upgrade().expect("queue still exists");
    assert!(tx2.send(4).is_ok());
    let mut rx2 = weak_rx.upgrade().expect("queue still exists");
    assert_eq!(ready(rx2.next()), Some(4));
    // the upgraded sender was counted in
    assert!(!tx2.release());
    assert!(tx.release());
    drop(tx);
    drop(tx2);
    drop(rx);
    drop(rx2);
    assert!(weak_tx.upgrade().is_none());
    assert!(weak_rx.upgrade().is_none());
}
