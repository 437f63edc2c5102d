//! Message communication between actors.
//!
//! From the point of view of one actor's message queue there are many
//! producers and one consumer:
//! - a [`Sender`] delivers messages into the queue;
//! - a [`Receiver`] takes them out, inside the actor itself;
//! - an [`Addr`] is the address of an actor, from which both can be had.
//!
//! All of them share one [`Pack`]: the queue together with its state
//! (alive, closing, closed, full), the number of messages, the number of
//! senders and the capacity.  The pack is a plain value whose every
//! operation is stated exactly; the handles share it behind a lock.
use crate::actor::Poll;
use crate::queue::Queue;
use std::sync::{Arc, Weak};
use vstd::prelude::*;
use vstd::rwlock::{RwLock, RwLockPredicate};

verus! {

/// no message is taken in or handed out any more
pub const STATUSCLOSED: u8 = 0b0000_0001;

/// the number of messages reached the capacity
pub const STATUSFULL: u8 = 0b0000_0010;

/// the queue is to close: once no sender is left and no message remains
pub const STATUSCLOSING: u8 = 0b0000_0100;

/// the queue takes messages
pub const STATUSALIVE: u8 = 0b0000_1000;

/// The four states a queue can be in.
pub open spec fn is_status(s: u8) -> bool {
    s == STATUSCLOSED || s == STATUSFULL || s == STATUSCLOSING || s == STATUSALIVE
}

/// The state a queue settles in, given its state, its number of messages,
/// its number of senders and its capacity:
/// - a closed queue stays closed;
/// - with no sender left it is closing while messages remain, else closed;
/// - an alive queue whose messages reached its capacity is full;
/// - otherwise the state is kept.
pub open spec fn settled_status(status: u8, num: usize, senders: usize, capacity: usize) -> u8 {
    if status == STATUSCLOSED {
        STATUSCLOSED
    } else if senders == 0 {
        if num != 0 {
            STATUSCLOSING
        } else {
            STATUSCLOSED
        }
    } else if status == STATUSALIVE && num >= capacity {
        STATUSFULL
    } else {
        status
    }
}

/// The value an atomic counter holds after adding `d` to `n`.
pub open spec fn add_wrapping(n: usize, d: usize) -> usize {
    if n + d > usize::MAX {
        (n + d - usize::MAX - 1) as usize
    } else {
        (n + d) as usize
    }
}

/// The value an atomic counter holds after taking `d` from `n`.
pub open spec fn sub_wrapping(n: usize, d: usize) -> usize {
    if n - d < 0 {
        (n - d + usize::MAX + 1) as usize
    } else {
        (n - d) as usize
    }
}

/// The state of a message queue and its number of messages.
#[derive(PartialEq, Eq, Structural, Clone, Copy, Debug)]
pub struct PackState {
    pub status: u8,
    pub num: usize,
}

impl PackState {
    /// A fresh state: alive, with no message.
    pub fn new() -> (s: Self)
        ensures
            s.status == STATUSALIVE,
            s.num == 0,
    {
        PackState { status: STATUSALIVE, num: 0 }
    }

    pub fn is_closed(&self) -> (r: bool)
        ensures
            r == (self.status == STATUSCLOSED),
    {
        self.status == STATUSCLOSED
    }

    pub fn set_close(&mut self)
        ensures
            *final(self) == (PackState { status: STATUSCLOSED, ..*old(self) }),
    {
        self.status = STATUSCLOSED;
    }

    pub fn is_closing(&self) -> (r: bool)
        ensures
            r == (self.status == STATUSCLOSING),
    {
        self.status == STATUSCLOSING
    }

    pub fn set_closing(&mut self)
        ensures
            *final(self) == (PackState { status: STATUSCLOSING, ..*old(self) }),
    {
        self.status = STATUSCLOSING;
    }

    pub fn is_full(&self) -> (r: bool)
        ensures
            r == (self.status == STATUSFULL),
    {
        self.status == STATUSFULL
    }

    pub fn set_full(&mut self)
        ensures
            *final(self) == (PackState { status: STATUSFULL, ..*old(self) }),
    {
        self.status = STATUSFULL;
    }

    pub fn is_alive(&self) -> (r: bool)
        ensures
            r == (self.status == STATUSALIVE),
    {
        self.status == STATUSALIVE
    }

    pub fn set_alive(&mut self)
        ensures
            *final(self) == (PackState { status: STATUSALIVE, ..*old(self) }),
    {
        self.status = STATUSALIVE;
    }

    /// The number of messages in the queue.
    pub fn message_number(&self) -> (n: usize)
        ensures
            n == self.num,
    {
        self.num
    }

    /// Count `delta` more messages; a full or closed queue takes none.
    pub fn inc(&mut self, delta: usize)
        requires
            old(self).status != STATUSFULL,
            old(self).status != STATUSCLOSED,
        ensures
            final(self).status == old(self).status,
            final(self).num == add_wrapping(old(self).num, delta),
    {
        self.num = self.num.wrapping_add(delta);
    }

    /// Count `delta` fewer messages; a closed or empty queue gives none.
    pub fn dec(&mut self, delta: usize)
        requires
            old(self).status != STATUSCLOSED,
            old(self).num != 0,
        ensures
            final(self).status == old(self).status,
            final(self).num == sub_wrapping(old(self).num, delta),
    {
        self.num = self.num.wrapping_sub(delta);
    }
}

/// Error of a refused message; the message is handed back.
pub enum QueueError<T> {
    /// the queue reached its capacity and is full
    Full(T),
    /// the queue is closed and takes no message
    Closed(T),
}

impl<T> QueueError<T> {
    /// A short text for the reason of the refusal.
    pub fn reason(&self) -> (s: &'static str)
        ensures
            self is Full ==> s@ == "Queue Full"@,
            self is Closed ==> s@ == "Queue Closed"@,
    {
        match self {
            QueueError::Full(_) => "Queue Full",
            QueueError::Closed(_) => "Queue Closed",
        }
    }

    /// The message that was refused.
    pub open spec fn refused(self) -> T {
        match self {
            QueueError::Full(m) => m,
            QueueError::Closed(m) => m,
        }
    }
}

/// What taking the next message does: `new` and `r` follow from `old`.
/// - a closed queue gives `Ready(None)` and is left as it is;
/// - an empty queue that is not closed gives `Pending` and is left as it is;
/// - otherwise the oldest message is taken out and counted out, and the
///   state is settled anew.
pub open spec fn next_spec<M>(old: Pack<M>, new: Pack<M>, r: Poll<Option<M>>) -> bool {
    if old.state.status == STATUSCLOSED {
        r == Poll::Ready(None::<M>) && new == old
    } else if old.messages@.len() == 0 {
        r == Poll::<Option<M>>::Pending && new.same_as(old)
    } else {
        &&& r == Poll::Ready(Some(old.messages@[0]))
        &&& new.messages@ == old.messages@.drop_first()
        &&& new.state.num == old.state.num - 1
        &&& new.num_senders == old.num_senders
        &&& new.capacity == old.capacity
        &&& new.state.status == settled_status(
            old.state.status,
            (old.state.num - 1) as usize,
            old.num_senders,
            old.capacity,
        )
    }
}

/// What delivering `msg` does: `new` and `r` follow from `old`.
/// - a full queue refuses it with `Full`, a closed one with `Closed`, and a
///   queue that cannot count one more message with `Full`; the queue is left
///   as it is;
/// - otherwise the message is appended and counted, and the state, alive
///   again if it was closing, is settled anew.
pub open spec fn send_spec<M>(old: Pack<M>, msg: M, new: Pack<M>, r: Result<(), QueueError<M>>) -> bool {
    if old.state.status == STATUSFULL || (old.state.status != STATUSCLOSED && old.state.num
        == usize::MAX) {
        r == Err::<(), QueueError<M>>(QueueError::Full(msg)) && new == old
    } else if old.state.status == STATUSCLOSED {
        r == Err::<(), QueueError<M>>(QueueError::Closed(msg)) && new == old
    } else {
        &&& r is Ok
        &&& new.messages@ == old.messages@.push(msg)
        &&& new.state.num == old.state.num + 1
        &&& new.num_senders == old.num_senders
        &&& new.capacity == old.capacity
        &&& new.state.status == settled_status(
            STATUSALIVE,
            (old.state.num + 1) as usize,
            old.num_senders,
            old.capacity,
        )
    }
}

/// A message queue with its state, its number of senders and its capacity.
pub struct Pack<M> {
    pub messages: Queue<M>,
    pub num_senders: usize,
    pub state: PackState,
    pub capacity: usize,
}

/// The predicate that the lock around a shared pack keeps.
pub struct PackInv {}

impl<M> RwLockPredicate<Pack<M>> for PackInv {
    open spec fn inv(self, v: Pack<M>) -> bool {
        v.wf()
    }
}

/// A pack behind the lock that keeps it well formed.
pub type PackLock<M> = RwLock<Pack<M>, PackInv>;

/// A pack shared by the handles of one actor.
pub type SharedPack<M> = Arc<PackLock<M>>;

impl<M> Pack<M> {
    /// A pack is well formed when its state is one of the four and its
    /// count of messages is the number of messages it holds.
    pub open spec fn wf(&self) -> bool {
        is_status(self.state.status) && self.state.num == self.messages@.len()
    }

    /// Two packs that hold the same messages, senders, state and capacity.
    pub open spec fn same_as(self, other: Pack<M>) -> bool {
        &&& self.messages@ == other.messages@
        &&& self.num_senders == other.num_senders
        &&& self.state == other.state
        &&& self.capacity == other.capacity
    }

    /// The same pack with another state.
    pub open spec fn with_status(self, status: u8) -> Pack<M> {
        Pack { state: PackState { status, ..self.state }, ..self }
    }

    /// An empty, alive pack with no sender and the largest capacity.
    pub fn new() -> (p: Self)
        ensures
            p.wf(),
            p.messages@ == Seq::<M>::empty(),
            p.num_senders == 0,
            p.state.status == STATUSALIVE,
            p.state.num == 0,
            p.capacity == usize::MAX,
    {
        Pack {
            messages: Queue::new(),
            num_senders: 0,
            state: PackState::new(),
            capacity: usize::MAX,
        }
    }

    /// Put the pack behind a lock, to be shared by handles.
    pub fn share(self) -> (s: SharedPack<M>)
        requires
            self.wf(),
        ensures
            s.pred() == (PackInv {}),
    {
        Arc::new(RwLock::new(self, Ghost(PackInv {})))
    }

    pub fn is_closed(&self) -> (r: bool)
        ensures
            r == (self.state.status == STATUSCLOSED),
    {
        self.state.is_closed()
    }

    pub fn set_close(&mut self)
        ensures
            *final(self) == old(self).with_status(STATUSCLOSED),
    {
        self.state.set_close()
    }

    pub fn is_closing(&self) -> (r: bool)
        ensures
            r == (self.state.status == STATUSCLOSING),
    {
        self.state.is_closing()
    }

    pub fn set_closing(&mut self)
        ensures
            *final(self) == old(self).with_status(STATUSCLOSING),
    {
        self.state.set_closing()
    }

    pub fn is_full(&self) -> (r: bool)
        ensures
            r == (self.state.status == STATUSFULL),
    {
        self.state.is_full()
    }

    pub fn set_full(&mut self)
        ensures
            *final(self) == old(self).with_status(STATUSFULL),
    {
        self.state.set_full()
    }

    pub fn is_alive(&self) -> (r: bool)
        ensures
            r == (self.state.status == STATUSALIVE),
    {
        self.state.is_alive()
    }

    pub fn set_alive(&mut self)
        ensures
            *final(self) == old(self).with_status(STATUSALIVE),
    {
        self.state.set_alive()
    }

    /// The number of messages counted in the queue.
    pub fn message_number(&self) -> (n: usize)
        ensures
            n == self.state.num,
    {
        self.state.message_number()
    }

    /// The number of senders counted.
    pub fn sender_number(&self) -> (n: usize)
        ensures
            n == self.num_senders,
    {
        self.num_senders
    }

    /// Count `delta` more senders.
    pub fn inc_sender(&mut self, delta: usize)
        ensures
            *final(self) == (Pack { num_senders: add_wrapping(old(self).num_senders, delta), ..*old(self) }),
    {
        self.num_senders = self.num_senders.wrapping_add(delta);
    }

    /// Count `delta` fewer senders.
    pub fn dec_sender(&mut self, delta: usize)
        ensures
            *final(self) == (Pack { num_senders: sub_wrapping(old(self).num_senders, delta), ..*old(self) }),
    {
        self.num_senders = self.num_senders.wrapping_sub(delta);
    }

    /// Count `delta` more messages; a full or closed queue takes none.
    pub fn inc(&mut self, delta: usize)
        requires
            old(self).state.status != STATUSFULL,
            old(self).state.status != STATUSCLOSED,
        ensures
            *final(self) == (Pack {
                state: PackState { num: add_wrapping(old(self).state.num, delta), ..old(self).state },
                ..*old(self)
            }),
    {
        self.state.inc(delta)
    }

    /// Count `delta` fewer messages; a closed or empty queue gives none.
    pub fn dec(&mut self, delta: usize)
        requires
            old(self).state.status != STATUSCLOSED,
            old(self).state.num != 0,
        ensures
            *final(self) == (Pack {
                state: PackState { num: sub_wrapping(old(self).state.num, delta), ..old(self).state },
                ..*old(self)
            }),
    {
        self.state.dec(delta)
    }

    /// Bring the state up to date:
    /// - `Closed` stays `Closed`;
    /// - with no sender, `Closing` while messages remain, else `Closed`;
    /// - `Alive` turns `Full` when the messages reach the capacity.
    pub fn update_state(&mut self)
        ensures
            *final(self) == old(self).with_status(
                settled_status(
                    old(self).state.status,
                    old(self).state.num,
                    old(self).num_senders,
                    old(self).capacity,
                ),
            ),
    {
        if self.is_closed() {
            return ;
        }
        let num = self.state.message_number();
        let num_senders = self.sender_number();
        if num_senders == 0 {
            if num != 0 {
                self.set_closing();
            } else {
                self.set_close();
            }
            return ;
        }
        if self.state.is_alive() {
            let capacity = self.capacity;
            if num >= capacity {
                self.set_full();
            }
        }
    }

    /// A sender that writes to a closing queue brings it back to `Alive`;
    /// the result tells whether that happened.
    pub fn restore_state(&mut self) -> (r: bool)
        ensures
            r == (old(self).state.status == STATUSCLOSING),
            r ==> *final(self) == old(self).with_status(STATUSALIVE),
            !r ==> *final(self) == *old(self),
    {
        if self.state.is_closing() {
            self.state.set_alive();
            return true;
        }
        false
    }

    /// The capacity of the queue.
    pub fn capacity(&self) -> (c: usize)
        ensures
            c == self.capacity,
    {
        self.capacity
    }

    /// Set the capacity of the queue.
    pub fn set_capacity(&mut self, cap: usize)
        ensures
            *final(self) == (Pack { capacity: cap, ..*old(self) }),
    {
        self.capacity = cap;
    }

    /// Take the next message:
    /// - a closed queue gives `Ready(None)`;
    /// - otherwise the oldest message, counted out, after which the state is
    ///   brought up to date;
    /// - an empty queue that is not closed gives `Pending`.
    pub fn next(&mut self) -> (r: Poll<Option<M>>)
        requires
            old(self).wf(),
        ensures
            final(self).wf(),
            next_spec(*old(self), *final(self), r),
    {
        if self.is_closed() {
            return Poll::Ready(None);
        }
        match self.messages.pop() {
            Some(msg) => {
                self.dec(1);
                self.update_state();
                Poll::Ready(Some(msg))
            },
            None => {
                if self.is_closed() {
                    Poll::Ready(None)
                } else {
                    Poll::Pending
                }
            },
        }
    }

    /// Deliver a message:
    /// - a full queue refuses it with `Full`, a closed one with `Closed`;
    /// - a queue that cannot count one more message refuses it with `Full`;
    /// - otherwise a closing queue is brought back to `Alive`, the message is
    ///   appended and counted, and the state is brought up to date.
    pub fn send(&mut self, msg: M) -> (r: Result<(), QueueError<M>>)
        requires
            old(self).wf(),
        ensures
            final(self).wf(),
            send_spec(*old(self), msg, *final(self), r),
    {
        if self.is_full() {
            return Err(QueueError::Full(msg));
        } else if self.is_closed() {
            return Err(QueueError::Closed(msg));
        } else if self.state.num == usize::MAX {
            return Err(QueueError::Full(msg));
        } else if self.is_closing() {
            self.restore_state();
        }
        self.messages.push(msg);
        self.inc(1);
        self.update_state();
        Ok(())
    }

    /// Ask the queue to close: with no sender and no message left it is
    /// closed at once; otherwise it is closing, and it closes once no sender
    /// is left and every message is taken.
    pub fn request_close(&mut self)
        ensures
            *final(self) == old(self).with_status(
                if old(self).num_senders == 0 && old(self).state.num == 0 {
                    STATUSCLOSED
                } else {
                    STATUSCLOSING
                },
            ),
    {
        if self.num_senders == 0 && self.state.num == 0 {
            self.set_close();
        } else {
            self.set_closing();
        }
    }

    /// The queue keeps its actor going: a sender is counted, or once its
    /// state is settled it is alive or closing.
    pub open spec fn keeps_actor_spec(self) -> bool {
        let settled = settled_status(
            self.state.status,
            self.state.num,
            self.num_senders,
            self.capacity,
        );
        self.num_senders != 0 || settled == STATUSALIVE || settled == STATUSCLOSING
    }

    /// Whether the queue still keeps its actor going, after its state is
    /// brought up to date: a sender is left, or the queue is alive or
    /// closing.
    pub fn keeps_actor(&mut self) -> (r: bool)
        ensures
            *final(self) == old(self).with_status(
                settled_status(
                    old(self).state.status,
                    old(self).state.num,
                    old(self).num_senders,
                    old(self).capacity,
                ),
            ),
            r == (old(self).num_senders != 0 || final(self).state.status == STATUSALIVE
                || final(self).state.status == STATUSCLOSING),
            r == old(self).keeps_actor_spec(),
    {
        self.update_state();
        self.sender_number() != 0 || self.is_alive() || self.is_closing()
    }

    /// One sender less; the result tells whether it was the last one.
    pub fn release_sender(&mut self) -> (last: bool)
        ensures
            last == (old(self).num_senders == 1),
            *final(self) == (Pack { num_senders: sub_wrapping(old(self).num_senders, 1), ..*old(self) }),
    {
        let num = self.num_senders;
        self.dec_sender(1);
        num == 1
    }

    /// One more sender, made from an existing one.  Refused when the senders
    /// would reach the room left in the queue, or when the messages already
    /// went past the capacity.
    pub fn try_inc_sender(&mut self) -> (ok: bool)
        ensures
            ok == (old(self).state.num <= old(self).capacity && old(self).num_senders
                < old(self).capacity - old(self).state.num),
            ok ==> *final(self) == (Pack { num_senders: (old(self).num_senders + 1) as usize, ..*old(self) }),
            !ok ==> *final(self) == *old(self),
    {
        if self.state.num > self.capacity {
            return false;
        }
        if self.num_senders >= self.capacity - self.state.num {
            return false;
        }
        self.num_senders = self.num_senders + 1;
        true
    }

    /// A new sender from an address or a receiver: one more sender, and the
    /// queue is alive again.
    pub fn attach_sender(&mut self)
        ensures
            *final(self) == (Pack {
                num_senders: add_wrapping(old(self).num_senders, 1),
                state: PackState { status: STATUSALIVE, ..old(self).state },
                ..*old(self)
            }),
    {
        self.inc_sender(1);
        self.set_alive();
    }
}


/// `Arc::clone` from std: a new pointer to the same allocation, so the
/// value behind it is the same.
#[verifier::external_body]
pub(crate) fn arc_clone<T>(a: &Arc<T>) -> (r: Arc<T>)
    ensures
        r == *a,
{
    Arc::clone(a)
}

/// A weak pointer to a shared pack: it does not keep the pack alive.
#[verifier::external_body]
#[verifier::reject_recursive_types(M)]
pub struct WeakPack<M> {
    pack: Weak<PackLock<M>>,
}

/// `Arc::downgrade` from std: a weak pointer to the same pack.  A weak
/// pointer is opaque here, so nothing is stated of it.
#[verifier::external_body]
fn downgrade_pack<M>(a: &SharedPack<M>) -> WeakPack<M> {
    WeakPack { pack: Arc::downgrade(a) }
}

/// `Weak::upgrade` from std: a strong pointer to the pack while some strong
/// pointer to it is left, else `None`.  Whether one is left depends on
/// pointers held elsewhere, so nothing is stated of the result.
#[verifier::external_body]
fn upgrade_pack<M>(w: &WeakPack<M>) -> Option<SharedPack<M>> {
    w.pack.upgrade()
}

/// The capacity, the number of messages and the number of senders of a
/// shared pack, read together under its lock.
fn read_numbers<M>(pack: &SharedPack<M>) -> (usize, usize, usize)
    requires
        pack.pred() == (PackInv {}),
{
    let handle = pack.acquire_read();
    let p = handle.borrow();
    let numbers = (p.capacity, p.state.num, p.num_senders);
    handle.release_read();
    numbers
}

/// A message producer: it delivers messages to the [`Receiver`] of the
/// same queue.
pub struct Sender<M> {
    pub pack: SharedPack<M>,
}

impl<M> Sender<M> {
    /// The shared pack's lock keeps it well formed.  The lock's predicate
    /// type has a single value, so this holds of every handle: it names the
    /// lock's invariant and restricts nothing.
    pub open spec fn wf(&self) -> bool {
        self.pack.pred() == (PackInv {})
    }

    /// A receiver of the same queue; the queue is left as it is, and this
    /// sender stays counted.
    pub fn as_receiver(&self) -> (r: Receiver<M>)
        requires
            self.wf(),
        ensures
            r.pack == self.pack,
            r.wf(),
    {
        Receiver { pack: arc_clone(&self.pack) }
    }

    /// The capacity of the queue; `usize::MAX` until it is set.
    pub fn capacity(&self) -> usize
        requires
            self.wf(),
    {
        read_numbers(&self.pack).0
    }

    /// Set the capacity of the queue: once the messages reach it, the
    /// queue is full and takes no more.
    pub fn set_capacity(&self, cap: usize)
        requires
            self.wf(),
    {
        let (mut pack, handle) = self.pack.acquire_write();
        pack.set_capacity(cap);
        handle.release_write(pack);
    }

    /// The number of messages that remain in the queue.
    pub fn message_number(&self) -> usize
        requires
            self.wf(),
    {
        read_numbers(&self.pack).1
    }

    /// Deliver a message into the queue, as [`Pack::send`] does; a refused
    /// message is handed back in the error.
    pub fn send(&self, msg: M) -> (r: Result<(), QueueError<M>>)
        requires
            self.wf(),
        ensures
            r matches Err(e) ==> e.refused() == msg,
    {
        let (mut pack, handle) = self.pack.acquire_write();
        let r = pack.send(msg);
        handle.release_write(pack);
        r
    }

    /// A second sender of the same queue, counted in; `None` when the
    /// senders would reach the room left in the queue.
    pub fn try_clone(&self) -> (r: Option<Sender<M>>)
        requires
            self.wf(),
        ensures
            r matches Some(s) ==> s.pack == self.pack && s.wf(),
    {
        let (mut pack, handle) = self.pack.acquire_write();
        let ok = pack.try_inc_sender();
        handle.release_write(pack);
        if ok {
            Some(Sender { pack: arc_clone(&self.pack) })
        } else {
            None
        }
    }

    /// Count this sender out, as when it goes away; the result tells whether
    /// it was the last sender.
    pub fn release(&self) -> bool
        requires
            self.wf(),
    {
        let (mut pack, handle) = self.pack.acquire_write();
        let last = pack.release_sender();
        handle.release_write(pack);
        last
    }

    /// A weak sender of the same queue: it does not keep the queue alive
    /// and is not counted among the senders.
    pub fn downgrade(&self) -> (w: WeakSender<M>) {
        WeakSender { pack: downgrade_pack(&self.pack) }
    }
}

/// A weak sender: it does not keep the queue alive, and gives a sender
/// while the queue still exists.
#[verifier::reject_recursive_types(M)]
pub struct WeakSender<M> {
    pub pack: WeakPack<M>,
}

impl<M> WeakSender<M> {
    /// A sender of the queue, counted in, if the queue still exists.
    pub fn upgrade(&self) -> (r: Option<Sender<M>>)
        ensures
            r matches Some(s) ==> s.wf(),
    {
        match upgrade_pack(&self.pack) {
            Some(pack) => {
                let (mut p, handle) = pack.acquire_write();
                p.inc_sender(1);
                handle.release_write(p);
                Some(Sender { pack })
            },
            None => None,
        }
    }
}

/// A message consumer: it takes the messages the [`Sender`]s delivered.
pub struct Receiver<M> {
    pub pack: SharedPack<M>,
}

impl<M> Receiver<M> {
    /// The shared pack's lock keeps it well formed.  The lock's predicate
    /// type has a single value, so this holds of every handle: it names the
    /// lock's invariant and restricts nothing.
    pub open spec fn wf(&self) -> bool {
        self.pack.pred() == (PackInv {})
    }

    /// A sender of the same queue: it is counted in and the queue is alive
    /// again.
    pub fn as_sender(&self) -> (s: Sender<M>)
        requires
            self.wf(),
        ensures
            s.pack == self.pack,
            s.wf(),
    {
        let (mut pack, handle) = self.pack.acquire_write();
        pack.attach_sender();
        handle.release_write(pack);
        Sender { pack: arc_clone(&self.pack) }
    }

    /// The capacity of the queue; `usize::MAX` until it is set.
    pub fn capacity(&self) -> usize
        requires
            self.wf(),
    {
        read_numbers(&self.pack).0
    }

    /// Set the capacity of the queue.
    pub fn set_capacity(&self, cap: usize)
        requires
            self.wf(),
    {
        let (mut pack, handle) = self.pack.acquire_write();
        pack.set_capacity(cap);
        handle.release_write(pack);
    }

    /// The number of messages that remain in the queue.
    pub fn message_number(&self) -> usize
        requires
            self.wf(),
    {
        read_numbers(&self.pack).1
    }

    /// Ask the queue to close, as [`Pack::request_close`] does: it is not
    /// closed while a sender is left or messages remain, only closing.
    pub fn set_close(&self)
        requires
            self.wf(),
    {
        let (mut pack, handle) = self.pack.acquire_write();
        pack.request_close();
        handle.release_write(pack);
    }

    /// Close the queue at once: it takes and hands out no more messages.
    pub fn close(&self)
        requires
            self.wf(),
    {
        let (mut pack, handle) = self.pack.acquire_write();
        pack.set_close();
        handle.release_write(pack);
    }

    /// Take the next message, as [`Pack::next`] does.
    pub fn next(&mut self) -> (r: Poll<Option<M>>)
        requires
            old(self).wf(),
        ensures
            final(self).pack == old(self).pack,
    {
        let (mut pack, handle) = self.pack.acquire_write();
        let r = pack.next();
        handle.release_write(pack);
        r
    }

    /// A weak receiver of the same queue: it does not keep the queue alive.
    pub fn downgrade(&self) -> (w: WeakReceiver<M>) {
        WeakReceiver { pack: downgrade_pack(&self.pack) }
    }
}

/// A weak receiver: it does not keep the queue alive, and gives the
/// receiver back while the queue still exists.
#[verifier::reject_recursive_types(M)]
pub struct WeakReceiver<M> {
    pub pack: WeakPack<M>,
}

impl<M> WeakReceiver<M> {
    /// A receiver of the queue, if the queue still exists.
    pub fn upgrade(&self) -> (r: Option<Receiver<M>>)
        ensures
            r matches Some(rx) ==> rx.wf(),
    {
        match upgrade_pack(&self.pack) {
            Some(pack) => Some(Receiver { pack }),
            None => None,
        }
    }
}

/// The address of an actor, from which its [`Sender`] and [`Receiver`] are
/// had.
pub struct Addr<M> {
    pub pack: SharedPack<M>,
}

impl<M> Addr<M> {
    /// The shared pack's lock keeps it well formed.  The lock's predicate
    /// type has a single value, so this holds of every handle: it names the
    /// lock's invariant and restricts nothing.
    pub open spec fn wf(&self) -> bool {
        self.pack.pred() == (PackInv {})
    }

    /// The address of the queue in the shared pack.
    pub fn new(pack: SharedPack<M>) -> (a: Self)
        ensures
            a.pack == pack,
    {
        Addr { pack }
    }

    /// A sender of the actor: it is counted in and the queue is alive again.
    pub fn sender(&self) -> (s: Sender<M>)
        requires
            self.wf(),
        ensures
            s.pack == self.pack,
            s.wf(),
    {
        let (mut pack, handle) = self.pack.acquire_write();
        pack.attach_sender();
        handle.release_write(pack);
        Sender { pack: arc_clone(&self.pack) }
    }

    /// The receiver of the actor.
    pub fn receiver(&self) -> (r: Receiver<M>)
        requires
            self.wf(),
        ensures
            r.pack == self.pack,
            r.wf(),
    {
        Receiver { pack: arc_clone(&self.pack) }
    }

    /// Turn the address into a sender, counted in; the queue is alive again.
    pub fn into_sender(self) -> (s: Sender<M>)
        requires
            self.wf(),
        ensures
            s.pack == self.pack,
            s.wf(),
    {
        let (mut pack, handle) = self.pack.acquire_write();
        pack.attach_sender();
        handle.release_write(pack);
        Sender { pack: self.pack }
    }

    /// Turn the address into the receiver.
    pub fn into_receiver(self) -> (r: Receiver<M>)
        requires
            self.wf(),
        ensures
            r.pack == self.pack,
            r.wf(),
    {
        Receiver { pack: self.pack }
    }
}

/// A multi-producer single-consumer channel over a fresh queue: empty,
/// alive, with the largest capacity, and with the sender it returns counted
/// as its one sender.
pub fn channel<M>() -> (r: (Sender<M>, Receiver<M>))
    ensures
        r.0.pack == r.1.pack,
        r.0.wf(),
        r.1.wf(),
{
    let mut fresh = Pack::new();
    fresh.inc_sender(1);
    proof {
        assert(fresh.num_senders == 1 && fresh.state.status == STATUSALIVE);
    }
    let pack = fresh.share();
    let tx = Sender { pack: arc_clone(&pack) };
    let rx = Receiver { pack };
    (tx, rx)
}

/// First in, first out through the queue: a message delivered to a queue
/// that is alive or closing and can count one more is accepted, and the
/// next message taken is the oldest one it held before, or the delivered
/// message when it held none.
pub proof fn lemma_send_then_next<M>(
    p0: Pack<M>,
    x: M,
    p1: Pack<M>,
    r1: Result<(), QueueError<M>>,
    p2: Pack<M>,
    r2: Poll<Option<M>>,
)
    requires
        p0.wf(),
        p0.state.status == STATUSALIVE || p0.state.status == STATUSCLOSING,
        p0.state.num < usize::MAX,
        send_spec(p0, x, p1, r1),
        next_spec(p1, p2, r2),
    ensures
        r1 is Ok,
        r2 == Poll::Ready(Some(if p0.messages@.len() == 0 { x } else { p0.messages@[0] })),
{
    assert(p1.messages@ == p0.messages@.push(x));
    assert(p1.messages@.len() > 0);
    assert(p1.state.status != STATUSCLOSED);
}

/// A refused message is handed back unchanged and the queue is left as it
/// was.
pub proof fn lemma_refused_unchanged<M>(
    p0: Pack<M>,
    x: M,
    p1: Pack<M>,
    r: Result<(), QueueError<M>>,
)
    requires
        send_spec(p0, x, p1, r),
        r is Err,
    ensures
        r->Err_0.refused() == x,
        p1 == p0,
{
}

/// A closed queue stays closed: it refuses every message, hands out none,
/// and settling its state keeps it closed.
pub proof fn lemma_closed_absorbs<M>(
    p: Pack<M>,
    x: M,
    p1: Pack<M>,
    r1: Result<(), QueueError<M>>,
    p2: Pack<M>,
    r2: Poll<Option<M>>,
)
    requires
        p.state.status == STATUSCLOSED,
        send_spec(p, x, p1, r1),
        next_spec(p, p2, r2),
    ensures
        r1 == Err::<(), QueueError<M>>(QueueError::Closed(x)),
        p1 == p,
        r2 == Poll::Ready(None::<M>),
        p2 == p,
        forall|n: usize, senders: usize, cap: usize|
            settled_status(STATUSCLOSED, n, senders, cap) == STATUSCLOSED,
{
}

/// Settling the state twice is settling it once.
pub proof fn lemma_settle_idempotent(status: u8, num: usize, senders: usize, capacity: usize)
    ensures
        settled_status(settled_status(status, num, senders, capacity), num, senders, capacity)
            == settled_status(status, num, senders, capacity),
{
}

/// Once every sender is gone a queue that is not closed is closing while
/// messages remain and closed when none does; taking the last message of a
/// closing queue with no sender closes it.
pub proof fn lemma_no_sender_closes(status: u8, num: usize, capacity: usize)
    requires
        status != STATUSCLOSED,
    ensures
        settled_status(status, num, 0, capacity) == (if num == 0 {
            STATUSCLOSED
        } else {
            STATUSCLOSING
        }),
        settled_status(STATUSCLOSING, 0, 0, capacity) == STATUSCLOSED,
{
}

/// A queue with senders turns full only when alive and at its capacity,
/// and is never closed by settling.
pub proof fn lemma_full_at_capacity(status: u8, num: usize, senders: usize, capacity: usize)
    requires
        senders > 0,
        status != STATUSCLOSED,
    ensures
        settled_status(status, num, senders, capacity) != STATUSCLOSED,
        (settled_status(status, num, senders, capacity) == STATUSFULL) == (status == STATUSFULL
            || (status == STATUSALIVE && num >= capacity)),
{
}

/// Delivering a message and taking one keep the count of messages equal to
/// the number of messages held, whatever the outcome.
pub proof fn lemma_wf_kept<M>(
    p0: Pack<M>,
    x: M,
    p1: Pack<M>,
    r1: Result<(), QueueError<M>>,
    p2: Pack<M>,
    r2: Poll<Option<M>>,
)
    requires
        p0.wf(),
        send_spec(p0, x, p1, r1),
        next_spec(p0, p2, r2),
    ensures
        p1.wf(),
        p2.wf(),
{
}

/// A queue with senders that is alive and whose messages reach its
/// capacity with one more delivery accepts that one and refuses the next
/// with `Full`, handing the message back and leaving the queue as it was.
pub proof fn lemma_full_refuses_next<M>(
    p0: Pack<M>,
    x: M,
    p1: Pack<M>,
    r1: Result<(), QueueError<M>>,
    y: M,
    p2: Pack<M>,
    r2: Result<(), QueueError<M>>,
)
    requires
        p0.wf(),
        p0.state.status == STATUSALIVE,
        p0.num_senders > 0,
        p0.state.num < usize::MAX,
        p0.state.num + 1 >= p0.capacity,
        send_spec(p0, x, p1, r1),
        send_spec(p1, y, p2, r2),
    ensures
        r1 is Ok,
        p1.messages@ == p0.messages@.push(x),
        p1.state.status == STATUSFULL,
        r2 == Err::<(), QueueError<M>>(QueueError::Full(y)),
        p2 == p1,
{
}

/// While a sender is counted the queue is not closed by taking messages:
/// after taking one from a queue that is not closed, the queue still takes
/// a new message unless it is full.
pub proof fn lemma_counted_sender_keeps_open<M>(
    p0: Pack<M>,
    p1: Pack<M>,
    r1: Poll<Option<M>>,
    y: M,
    p2: Pack<M>,
    r2: Result<(), QueueError<M>>,
)
    requires
        p0.wf(),
        p0.num_senders > 0,
        p0.state.status != STATUSCLOSED,
        next_spec(p0, p1, r1),
        send_spec(p1, y, p2, r2),
    ensures
        p1.state.status != STATUSCLOSED,
        p1.state.status != STATUSFULL && p1.state.num < usize::MAX ==> r2 is Ok
            && p2.messages@ == p1.messages@.push(y),
        r2 is Err ==> r2 == Err::<(), QueueError<M>>(QueueError::Full(y)),
{
}

/// A closed queue hands out no message, whatever it still holds, and is
/// left as it is: taking from it gives `Ready(None)` every time.
pub proof fn lemma_closed_gives_none<M>(
    p0: Pack<M>,
    p1: Pack<M>,
    r1: Poll<Option<M>>,
    p2: Pack<M>,
    r2: Poll<Option<M>>,
)
    requires
        p0.state.status == STATUSCLOSED,
        next_spec(p0, p1, r1),
        next_spec(p1, p2, r2),
    ensures
        r1 == Poll::Ready(None::<M>),
        r2 == Poll::Ready(None::<M>),
        p2 == p0,
{
}

/// A queue keeps its actor going exactly while a sender is counted or
/// messages remain to be taken from a queue that is not closed: a counted
/// sender always keeps it, and a queue with neither closes and lets the
/// actor stop.
pub proof fn lemma_keeps_actor<M>(p: Pack<M>)
    requires
        p.wf(),
    ensures
        p.num_senders > 0 ==> p.keeps_actor_spec(),
        p.num_senders == 0 ==> (p.keeps_actor_spec() == (p.state.status != STATUSCLOSED
            && p.state.num > 0)),
{
}

} // verus!
