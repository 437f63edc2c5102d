//! Blocking routines and their life cycle.
//!
//! While an actor holds a blocker it is blocked: it handles neither
//! messages nor other routines until the blocker is finished or aborted.
//! A blocker that was aborted is not recoverable.
//!
//! Each poll of a blocker asks the actor for a [`BlockingState`] and then
//! follows the decision that [`Blocker::on_state_hook`] takes; the hooks of
//! the actor and the blocking future are run by the caller.
use crate::actor::{Handle, HandleCounter, successor};
use vstd::prelude::*;

verus! {

/// Indicator that directs a blocker at run time.
#[derive(PartialEq, Eq, Structural, Clone, Copy, Debug)]
pub enum BlockingState {
    /// go on as usual
    Continue,
    /// abort the blocker
    Abort,
}

/// State of a blocker.
#[derive(PartialEq, Eq, Structural, Clone, Copy, Debug)]
pub enum BlockerState {
    Created,
    Started,
    Running,
    Aborted,
    Finished,
}

/// What the caller does after a decision of the blocker.
#[derive(PartialEq, Eq, Structural, Clone, Copy, Debug)]
pub enum BlockerStep {
    /// wake the task and return `Pending`: the blocker is to be polled again
    Wake,
    /// call the actor's `started` hook, then wake the task and return `Pending`
    CallStarted,
    /// poll the blocking future
    PollInner,
    /// the blocker is done: return `Ready`
    Complete,
}

/// The order of the blocker's states; it never decreases.
pub open spec fn blocker_rank(s: BlockerState) -> int {
    match s {
        BlockerState::Created => 0,
        BlockerState::Started => 1,
        BlockerState::Running => 2,
        BlockerState::Aborted => 3,
        BlockerState::Finished => 3,
    }
}

/// The decision a blocker takes once the actor's `state` hook answered
/// `hook`, when the poll began in `entered` and the blocker is now in
/// `current`: the new state and what the caller does next.
pub open spec fn blocker_decision(
    entered: BlockerState,
    current: BlockerState,
    hook: BlockingState,
) -> (BlockerState, BlockerStep) {
    if current != entered {
        (current, BlockerStep::Wake)
    } else if hook == BlockingState::Abort {
        (BlockerState::Aborted, BlockerStep::Wake)
    } else {
        match entered {
            BlockerState::Created => (BlockerState::Started, BlockerStep::Wake),
            BlockerState::Started => (BlockerState::Running, BlockerStep::CallStarted),
            _ => (current, BlockerStep::PollInner),
        }
    }
}

/// A routine that blocks the actor until its future is ready.
pub struct Blocker<F> {
    pub inner: F,
    pub handle: Handle,
    pub state: BlockerState,
}

impl<F> Blocker<F> {
    /// A blocker over the future, with a fresh handle, in state `Created`.
    pub fn new(fut: F, counter: &mut HandleCounter) -> (b: Self)
        ensures
            b.inner == fut,
            b.handle.0 == old(counter).next,
            final(counter).next == successor(old(counter).next),
            b.state == BlockerState::Created,
    {
        Blocker { inner: fut, handle: Handle::new(counter), state: BlockerState::Created }
    }

    /// The handle of the blocker.
    pub fn handle(&self) -> (h: Handle)
        ensures
            h == self.handle,
    {
        self.handle
    }

    /// The state of the blocker.
    pub fn state(&self) -> (s: BlockerState)
        ensures
            s == self.state,
    {
        self.state
    }

    /// Set the state of the blocker.
    pub fn set_state(&mut self, state: BlockerState)
        ensures
            final(self).state == state,
            final(self).inner == old(self).inner,
            final(self).handle == old(self).handle,
    {
        self.state = state;
    }

    /// Decide after the actor's `state` hook, for a poll that began in the
    /// live state `entered`:
    /// - if the state changed meanwhile, keep it and poll again;
    /// - `Abort` aborts the blocker;
    /// - otherwise `Created` moves to `Started`, `Started` to `Running` (the
    ///   caller runs the `started` hook), and `Running` polls the future.
    pub fn on_state_hook(&mut self, entered: BlockerState, hook: BlockingState) -> (step:
        BlockerStep)
        requires
            entered == BlockerState::Created || entered == BlockerState::Started || entered
                == BlockerState::Running,
        ensures
            (final(self).state, step) == blocker_decision(entered, old(self).state, hook),
            final(self).inner == old(self).inner,
            final(self).handle == old(self).handle,
    {
        if self.state != entered {
            return BlockerStep::Wake;
        }
        match hook {
            BlockingState::Abort => {
                self.state = BlockerState::Aborted;
                BlockerStep::Wake
            },
            BlockingState::Continue => {
                match entered {
                    BlockerState::Created => {
                        self.state = BlockerState::Started;
                        BlockerStep::Wake
                    },
                    BlockerState::Started => {
                        self.state = BlockerState::Running;
                        BlockerStep::CallStarted
                    },
                    _ => BlockerStep::PollInner,
                }
            },
        }
    }

    /// The blocking future is ready: the blocker is finished, and is polled
    /// once more to run the `finished` hook.
    pub fn on_inner_ready(&mut self) -> (step: BlockerStep)
        ensures
            final(self).state == BlockerState::Finished,
            step == BlockerStep::Wake,
            final(self).inner == old(self).inner,
            final(self).handle == old(self).handle,
    {
        self.state = BlockerState::Finished;
        BlockerStep::Wake
    }

    /// Decide after the `aborted` or `finished` hook of a poll that began in
    /// the final state `entered`: done, unless the state changed meanwhile.
    pub fn on_final_hook(&self, entered: BlockerState) -> (step: BlockerStep)
        requires
            entered == BlockerState::Aborted || entered == BlockerState::Finished,
        ensures
            step == (if self.state == entered {
                BlockerStep::Complete
            } else {
                BlockerStep::Wake
            }),
    {
        if self.state != entered {
            BlockerStep::Wake
        } else {
            BlockerStep::Complete
        }
    }
}

/// A blocker never moves back: every decision keeps or raises the rank of
/// its state.
pub proof fn lemma_blocker_monotone(entered: BlockerState, current: BlockerState, hook: BlockingState)
    requires
        entered == BlockerState::Created || entered == BlockerState::Started || entered
            == BlockerState::Running,
    ensures
        blocker_rank(blocker_decision(entered, current, hook).0) >= blocker_rank(current),
{
}

/// A blocker that was aborted is not recoverable: no decision takes it out
/// of `Aborted`.
pub proof fn lemma_blocker_abort_final(entered: BlockerState, hook: BlockingState)
    requires
        entered == BlockerState::Created || entered == BlockerState::Started || entered
            == BlockerState::Running,
    ensures
        blocker_decision(entered, BlockerState::Aborted, hook).0 == BlockerState::Aborted,
{
}

/// An abort request is honoured in every live state: a blocker whose state
/// did not change meanwhile is aborted and not polled.
pub proof fn lemma_blocker_abort_honoured(entered: BlockerState)
    requires
        entered == BlockerState::Created || entered == BlockerState::Started || entered
            == BlockerState::Running,
    ensures
        blocker_decision(entered, entered, BlockingState::Abort) == (
            BlockerState::Aborted,
            BlockerStep::Wake,
        ),
{
}

} // verus!
