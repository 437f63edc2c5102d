//! The message queue: a first-in first-out buffer of items.
use std::collections::VecDeque;
use vstd::prelude::*;

verus! {

/// What one attempt to take the oldest item finds.
pub enum NodeData<T> {
    /// no item left in the queue
    Empty,
    /// the oldest item of the queue
    Data(T),
    /// the item cannot be taken yet because another writer has not
    /// finished; a queue owned by one party never reports it
    Inconsistent,
}

/// A first-in first-out queue.
pub struct Queue<T> {
    items: VecDeque<T>,
}

impl<T> View for Queue<T> {
    type V = Seq<T>;

    closed spec fn view(&self) -> Seq<T> {
        self.items@
    }
}

impl<T> Queue<T> {
    /// A queue with no item, before its first node is made.
    pub fn new_null() -> (q: Self)
        ensures
            q@ == Seq::<T>::empty(),
    {
        Queue { items: VecDeque::new() }
    }

    /// Make sure the queue is ready to take items; it always is afterwards.
    pub fn assume_init(&mut self) -> (r: bool)
        ensures
            r,
            final(self)@ == old(self)@,
    {
        true
    }

    /// An empty queue.
    pub fn new() -> (q: Self)
        ensures
            q@ == Seq::<T>::empty(),
    {
        Queue { items: VecDeque::new() }
    }

    /// Append an item at the back.
    pub fn push(&mut self, value: T)
        ensures
            final(self)@ == old(self)@.push(value),
    {
        self.items.push_back(value);
    }

    /// Take the oldest item, if any.
    pub fn try_pop(&mut self) -> (r: NodeData<T>)
        ensures
            old(self)@.len() == 0 ==> r is Empty && final(self)@ == old(self)@,
            old(self)@.len() > 0 ==> r == NodeData::Data(old(self)@[0]) && final(self)@
                == old(self)@.drop_first(),
    {
        match self.items.pop_front() {
            Some(v) => NodeData::Data(v),
            None => NodeData::Empty,
        }
    }

    /// Take the oldest item, or `None` when the queue is empty.
    pub fn pop(&mut self) -> (r: Option<T>)
        ensures
            old(self)@.len() == 0 ==> r is None && final(self)@ == old(self)@,
            old(self)@.len() > 0 ==> r == Some(old(self)@[0]) && final(self)@
                == old(self)@.drop_first(),
    {
        match self.try_pop() {
            NodeData::Data(v) => Some(v),
            _ => None,
        }
    }

    /// The number of items held.
    pub fn len(&self) -> (n: usize)
        ensures
            n == self@.len(),
    {
        self.items.len()
    }
}

/// First in, first out: after pushing `x` onto a queue holding `s`, the
/// item taken first is the oldest of `s`, or `x` itself when `s` was empty,
/// and what remains is everything after it, in order.
pub proof fn lemma_queue_fifo<T>(s: Seq<T>, x: T)
    ensures
        s.len() == 0 ==> s.push(x)[0] == x && s.push(x).drop_first() == s,
        s.len() > 0 ==> s.push(x)[0] == s[0] && s.push(x).drop_first() == s.drop_first().push(x),
{
    if s.len() == 0 {
        assert(s.push(x).drop_first() =~= s);
    } else {
        assert(s.push(x).drop_first() =~= s.drop_first().push(x));
    }
}

} // verus!
