//! Delayed delivery of messages and its life cycle.
//!
//! A delayer holds a message and a condition.  Once the condition is ready
//! the message is handed to the actor, once or repeatedly; combined with
//! repetition this gives delayed, instant, repeated and endless delivery.
//!
//! Each poll asks the actor for a [`DelayingState`] and then follows the
//! decision of [`Delayer::on_state_hook`]; the hooks of the actor, the
//! condition and the delivery to the actor are run by the caller.
use crate::actor::{Handle, HandleCounter, successor};
use vstd::prelude::*;

verus! {

/// Indicator that directs a delayer at run time.
#[derive(PartialEq, Eq, Structural, Clone, Copy, Debug)]
pub enum DelayingState {
    /// abort the delayer
    Abort,
    /// go on as usual
    Continue,
    /// deliver the message at once, ahead of the condition
    Emit,
}

/// State of a delayer.
#[derive(PartialEq, Eq, Structural, Clone, Copy, Debug)]
pub enum DelayerState {
    Created,
    Started,
    Running,
    Aborted,
    Emitted,
    Finished,
}

/// What a ready condition yields.
pub enum Indicator<M> {
    /// a message to deliver in place of the stored one
    Message(M),
    /// deliver the stored message; `Some(n)`: until it was delivered `n`
    /// times in all, `None`: without end
    Repeation(Option<usize>),
}

/// The condition of a delayer and the number of deliveries made so far.
/// A delayer without a condition is ready at once, for one delivery.
pub struct DelayIndicator<D> {
    pub inner: Option<D>,
    pub repeated: usize,
}

impl<D> DelayIndicator<D> {
    /// One more delivery.
    pub fn inc(&mut self)
        requires
            old(self).repeated < usize::MAX,
        ensures
            final(self).repeated == old(self).repeated + 1,
            final(self).inner == old(self).inner,
    {
        self.repeated = self.repeated + 1;
    }

    /// A condition with no delivery made yet.
    pub fn new(f: D) -> (d: Self)
        ensures
            d.inner == Some(f),
            d.repeated == 0,
    {
        DelayIndicator { inner: Some(f), repeated: 0 }
    }

    /// A condition that is ready at once, with no delivery made yet.
    pub fn immediate() -> (d: Self)
        ensures
            d.inner is None,
            d.repeated == 0,
    {
        DelayIndicator { inner: None, repeated: 0 }
    }

    /// The number of deliveries made.
    pub fn repeated(&self) -> (n: usize)
        ensures
            n == self.repeated,
    {
        self.repeated
    }
}

/// What the caller does after a decision of the delayer.
pub enum DelayerStep<M> {
    /// wake the task and return `Pending`
    Wake,
    /// call the actor's `started` hook, then [`Delayer::on_started_hook`]
    CallStarted,
    /// poll the condition, then [`Delayer::on_ready`] once it is ready
    PollDelay,
    /// hand a copy of the stored message to the actor, then
    /// [`Delayer::after_repeat_delivery`] with the same repetition
    DeliverStored(Option<usize>),
    /// hand this message to the actor, then
    /// [`Delayer::after_message_delivery`]
    DeliverGiven(M),
    /// hand this message, taken out of the delayer, to the actor, then
    /// wake the task and return `Pending`
    DeliverEmitted(M),
    /// the delayer is done: return `Ready`
    Complete,
}

/// The order of the delayer's states; it never decreases.
pub open spec fn delayer_rank(s: DelayerState) -> int {
    match s {
        DelayerState::Created => 0,
        DelayerState::Started => 1,
        DelayerState::Running => 2,
        DelayerState::Emitted => 3,
        DelayerState::Aborted => 4,
        DelayerState::Finished => 4,
    }
}

/// The state of a delayer in `state` after one more delivery of its stored
/// message, `repeated` deliveries having been made before it, when the
/// message is to be delivered until `n` deliveries are made: a running
/// delayer is finished once they are.
pub open spec fn after_repeat_state(state: DelayerState, repeated: int, n: usize) -> DelayerState {
    if state == DelayerState::Running && repeated + 1 >= n {
        DelayerState::Finished
    } else {
        state
    }
}

/// The state of a running delayer with no delivery made yet, and its
/// number of deliveries, after `k` deliveries of its stored message that is
/// to be delivered until `n` deliveries are made.
pub open spec fn repeated_run(n: usize, k: nat) -> (DelayerState, int)
    decreases k,
{
    if k == 0 {
        (DelayerState::Running, 0)
    } else {
        let before = repeated_run(n, (k - 1) as nat);
        (after_repeat_state(before.0, before.1, n), before.1 + 1)
    }
}

/// A delayer: a message, its condition, a handle and a state.
pub struct Delayer<M, D> {
    pub inner: Option<M>,
    pub delay: DelayIndicator<D>,
    pub handle: Handle,
    pub state: DelayerState,
}

impl<M, D> Delayer<M, D> {
    /// The parts other than the state are left alone.
    pub open spec fn same_parts(self, other: Self) -> bool {
        &&& self.inner == other.inner
        &&& self.delay == other.delay
        &&& self.handle == other.handle
    }

    /// The handle of the delayer.
    pub fn handle(&self) -> (h: Handle)
        ensures
            h == self.handle,
    {
        self.handle
    }

    /// The state of the delayer.
    pub fn state(&self) -> (s: DelayerState)
        ensures
            s == self.state,
    {
        self.state
    }

    /// Set the state of the delayer.
    pub fn set_state(&mut self, state: DelayerState)
        ensures
            final(self).state == state,
            final(self).same_parts(*old(self)),
    {
        self.state = state;
    }

    /// Deliver the message at once: the condition is ready at once, for one
    /// delivery.
    pub fn instant(message: M, counter: &mut HandleCounter) -> (d: Self)
        ensures
            d.inner == Some(message),
            d.delay.inner is None,
            d.delay.repeated == 0,
            d.handle.0 == old(counter).next,
            final(counter).next == successor(old(counter).next),
            d.state == DelayerState::Created,
    {
        Delayer {
            inner: Some(message),
            delay: DelayIndicator::immediate(),
            handle: Handle::new(counter),
            state: DelayerState::Created,
        }
    }

    /// Deliver the message, if any, under the given condition.
    pub fn from_fn(message: Option<M>, delay: D, counter: &mut HandleCounter) -> (d: Self)
        ensures
            d.inner == message,
            d.delay.inner == Some(delay),
            d.delay.repeated == 0,
            d.handle.0 == old(counter).next,
            final(counter).next == successor(old(counter).next),
            d.state == DelayerState::Created,
    {
        Delayer {
            inner: message,
            delay: DelayIndicator::new(delay),
            handle: Handle::new(counter),
            state: DelayerState::Created,
        }
    }

    /// What a ready condition leads to:
    /// - a `Repeation` with no stored message ends the delayer at once;
    /// - a `Repeation` otherwise delivers a copy of the stored message;
    /// - a `Message` delivers that message.
    pub fn on_ready(&mut self, ind: Indicator<M>) -> (step: DelayerStep<M>)
        ensures
            *final(self) == *old(self),
            match ind {
                Indicator::Repeation(r) => if old(self).inner is None {
                    step is Complete
                } else {
                    step == DelayerStep::<M>::DeliverStored(r)
                },
                Indicator::Message(m) => step == DelayerStep::DeliverGiven(m),
            },
    {
        match ind {
            Indicator::Repeation(r) => {
                if self.inner.is_none() {
                    DelayerStep::Complete
                } else {
                    DelayerStep::DeliverStored(r)
                }
            },
            Indicator::Message(m) => DelayerStep::DeliverGiven(m),
        }
    }

    /// Decide after the actor's `state` hook, for a poll that began in the
    /// live state `entered`:
    /// - if the state changed meanwhile, keep it and poll again;
    /// - `Abort` aborts, `Emit` emits (in `Running` the stored message is
    ///   taken out and delivered at once; with none stored the delayer ends);
    /// - otherwise `Created` moves to `Started`, `Started` calls the
    ///   `started` hook, and `Running` polls the condition (a delayer with no
    ///   condition is ready at once for one delivery).
    pub fn on_state_hook(&mut self, entered: DelayerState, hook: DelayingState) -> (step:
        DelayerStep<M>)
        requires
            entered == DelayerState::Created || entered == DelayerState::Started || entered
                == DelayerState::Running,
        ensures
            delayer_rank(final(self).state) >= delayer_rank(old(self).state),
            old(self).state != entered ==> step is Wake && *final(self) == *old(self),
            old(self).state == entered && hook == DelayingState::Abort ==> step is Wake
                && final(self).state == DelayerState::Aborted && final(self).same_parts(*old(self)),
            old(self).state == entered && hook == DelayingState::Emit && entered
                != DelayerState::Running ==> step is Wake && final(self).state
                == DelayerState::Emitted && final(self).same_parts(*old(self)),
            old(self).state == entered && hook == DelayingState::Emit && entered
                == DelayerState::Running ==> final(self).state == DelayerState::Emitted
                && final(self).delay == old(self).delay && final(self).handle == old(self).handle
                && match old(self).inner {
                Some(m) => step == DelayerStep::DeliverEmitted(m) && final(self).inner is None,
                None => step is Complete && final(self).inner is None,
            },
            old(self).state == entered && hook == DelayingState::Continue ==> match entered {
                DelayerState::Created => step is Wake && final(self).state == DelayerState::Started
                    && final(self).same_parts(*old(self)),
                DelayerState::Started => step is CallStarted && *final(self) == *old(self),
                _ => *final(self) == *old(self) && if old(self).delay.inner is Some {
                    step is PollDelay
                } else if old(self).inner is None {
                    step is Complete
                } else {
                    step == DelayerStep::<M>::DeliverStored(Some(1))
                },
            },
    {
        if self.state != entered {
            return DelayerStep::Wake;
        }
        match hook {
            DelayingState::Abort => {
                self.state = DelayerState::Aborted;
                DelayerStep::Wake
            },
            DelayingState::Emit => {
                self.state = DelayerState::Emitted;
                match entered {
                    DelayerState::Running => match self.inner.take() {
                        Some(m) => DelayerStep::DeliverEmitted(m),
                        None => DelayerStep::Complete,
                    },
                    _ => DelayerStep::Wake,
                }
            },
            DelayingState::Continue => {
                match entered {
                    DelayerState::Created => {
                        self.state = DelayerState::Started;
                        DelayerStep::Wake
                    },
                    DelayerState::Started => DelayerStep::CallStarted,
                    _ => {
                        if self.delay.inner.is_some() {
                            DelayerStep::PollDelay
                        } else {
                            self.on_ready(Indicator::Repeation(Some(1)))
                        }
                    },
                }
            },
        }
    }

    /// After the `started` hook: move to `Running` unless the state changed
    /// meanwhile; poll again either way.
    pub fn on_started_hook(&mut self) -> (step: DelayerStep<M>)
        ensures
            delayer_rank(final(self).state) >= delayer_rank(old(self).state),
            step is Wake,
            final(self).same_parts(*old(self)),
            final(self).state == (if old(self).state == DelayerState::Started {
                DelayerState::Running
            } else {
                old(self).state
            }),
    {
        if self.state == DelayerState::Started {
            self.state = DelayerState::Running;
        }
        DelayerStep::Wake
    }

    /// After a copy of the stored message was delivered for `repeat`:
    /// - `Some(n)`: one more delivery is counted, and once `n` are made the
    ///   delayer is finished, unless its state changed meanwhile;
    /// - `None`: the delayer goes on without end.
    pub fn after_repeat_delivery(&mut self, repeat: Option<usize>) -> (step: DelayerStep<M>)
        requires
            repeat is Some ==> old(self).delay.repeated < usize::MAX,
        ensures
            delayer_rank(final(self).state) >= delayer_rank(old(self).state),
            step is Wake,
            final(self).inner == old(self).inner,
            final(self).handle == old(self).handle,
            final(self).delay.inner == old(self).delay.inner,
            match repeat {
                Some(n) => {
                    &&& final(self).delay.repeated == old(self).delay.repeated + 1
                    &&& final(self).state == after_repeat_state(
                        old(self).state,
                        old(self).delay.repeated as int,
                        n,
                    )
                },
                None => final(self).delay == old(self).delay && final(self).state == old(self).state,
            },
    {
        match repeat {
            Some(n) => {
                self.delay.inc();
                if self.state == DelayerState::Running && self.delay.repeated() >= n {
                    self.state = DelayerState::Finished;
                }
            },
            None => {},
        }
        DelayerStep::Wake
    }

    /// After a message yielded by the condition was delivered: the delayer
    /// is finished, unless its state changed meanwhile.
    pub fn after_message_delivery(&mut self) -> (step: DelayerStep<M>)
        ensures
            delayer_rank(final(self).state) >= delayer_rank(old(self).state),
            step is Wake,
            final(self).same_parts(*old(self)),
            final(self).state == (if old(self).state == DelayerState::Running {
                DelayerState::Finished
            } else {
                old(self).state
            }),
    {
        if self.state == DelayerState::Running {
            self.state = DelayerState::Finished;
        }
        DelayerStep::Wake
    }

    /// Decide after the `aborted`, `emitted` or `finished` hook of a poll
    /// that began in `entered`: done unless the state changed meanwhile; an
    /// emitted delayer is then finished.
    pub fn on_final_hook(&mut self, entered: DelayerState) -> (step: DelayerStep<M>)
        requires
            entered == DelayerState::Aborted || entered == DelayerState::Emitted || entered
                == DelayerState::Finished,
        ensures
            delayer_rank(final(self).state) >= delayer_rank(old(self).state),
            final(self).same_parts(*old(self)),
            old(self).state != entered ==> step is Wake && final(self).state == old(self).state,
            old(self).state == entered ==> step is Complete && final(self).state == (
            if entered == DelayerState::Emitted {
                DelayerState::Finished
            } else {
                entered
            }),
    {
        if self.state != entered {
            return DelayerStep::Wake;
        }
        if entered == DelayerState::Emitted {
            self.state = DelayerState::Finished;
        }
        DelayerStep::Complete
    }
}

/// A stored message to be delivered until `n` deliveries are made reaches
/// the actor exactly `max(n, 1)` times: a delayer that starts running with
/// no delivery made stays running while fewer than `max(n, 1)` deliveries
/// are made, and is finished from the `max(n, 1)`-th one on; so `Some(0)`
/// and `Some(1)` both deliver once.
pub proof fn lemma_repeat_count(n: usize, k: nat)
    ensures
        repeated_run(n, k).1 == k,
        repeated_run(n, k).0 == (if k >= 1 && k >= n {
            DelayerState::Finished
        } else {
            DelayerState::Running
        }),
    decreases k,
{
    if k > 0 {
        lemma_repeat_count(n, (k - 1) as nat);
    }
}

} // verus!
