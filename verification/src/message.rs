//! Messages, and streams of messages handed to an actor's `action`.
//!
//! Each poll of a message stream asks the actor for a
//! [`MStreamingState`] and then follows the decisions below; the hooks of
//! the actor, the stream and the handling of its messages are run by the
//! caller.
use crate::actor::{ActorState, Handle, HandleCounter, successor};
use crate::context::{Context, IntoTask};
use vstd::prelude::*;

verus! {

/// A message exchanged between actors.
pub trait Message {}

impl Message for () {}

impl Message for bool {}

impl Message for char {}

impl Message for i8 {}

impl Message for i16 {}

impl Message for i32 {}

impl Message for i64 {}

impl Message for i128 {}

impl Message for isize {}

impl Message for u8 {}

impl Message for u16 {}

impl Message for u32 {}

impl Message for u64 {}

impl Message for u128 {}

impl Message for usize {}

impl<T: Message> Message for Box<T> {}

impl<T: Message> Message for std::sync::Arc<T> {}

impl<T: Message> Message for Option<T> {}

impl<T: Message, E> Message for Result<T, E> {}

/// Indicator that directs a message stream at run time.
#[derive(PartialEq, Eq, Structural, Clone, Copy, Debug)]
pub enum MStreamingState {
    /// abort the stream
    Abort,
    /// go on as usual
    Continue,
    /// pause the stream
    Pause,
    /// bring a paused stream back to `Running`
    Resume,
}

/// State of a message stream.
#[derive(PartialEq, Eq, Structural, Clone, Copy, Debug)]
pub enum MStreamState {
    Created,
    Started,
    Running,
    Aborted,
    Paused,
    Resumed,
    Finished,
}

/// What the caller does after a decision of a stream.
#[derive(PartialEq, Eq, Structural, Clone, Copy, Debug)]
pub enum MStreamStep {
    /// wake the task and return `Pending`
    Wake,
    /// return `Pending` without waking the task
    Idle,
    /// call the actor's `started` hook, then wake the task and return `Pending`
    CallStarted,
    /// poll the stream for its next item
    PollStream,
    /// the stream is done: return `Ready`
    Complete,
}

/// The decision of a stream once the actor's `state` hook answered `hook`,
/// for a poll that began in `entered` with the stream now in `current`.
pub open spec fn mstream_decision(
    entered: MStreamState,
    current: MStreamState,
    hook: MStreamingState,
) -> (MStreamState, MStreamStep) {
    if current != entered {
        (current, MStreamStep::Wake)
    } else if hook == MStreamingState::Abort {
        (MStreamState::Aborted, MStreamStep::Wake)
    } else if hook == MStreamingState::Pause {
        (MStreamState::Paused, MStreamStep::Wake)
    } else {
        match entered {
            MStreamState::Created => (MStreamState::Started, MStreamStep::Wake),
            MStreamState::Started => (MStreamState::Running, MStreamStep::CallStarted),
            _ => (current, MStreamStep::PollStream),
        }
    }
}

/// The decision of a paused stream once the actor's `state` hook answered
/// `hook`, with the stream now in `current`.
pub open spec fn mpaused_decision(current: MStreamState, hook: MStreamingState) -> (
    MStreamState,
    MStreamStep,
) {
    if current != MStreamState::Paused {
        (current, MStreamStep::Wake)
    } else if hook == MStreamingState::Resume {
        (MStreamState::Resumed, MStreamStep::Wake)
    } else {
        (current, MStreamStep::Idle)
    }
}

/// A stream of messages handed to the actor's `action`.
pub struct MStreaming<S> {
    pub stream: S,
    pub state: MStreamState,
    pub handle: Handle,
}

impl<S> MStreaming<S> {
    /// A stream in state `Created`, with a fresh handle.
    pub fn new(stream: S, counter: &mut HandleCounter) -> (s: Self)
        ensures
            s.stream == stream,
            s.state == MStreamState::Created,
            s.handle.0 == old(counter).next,
            final(counter).next == successor(old(counter).next),
    {
        MStreaming { stream, state: MStreamState::Created, handle: Handle::new(counter) }
    }

    /// The handle of the stream.
    pub fn handle(&self) -> (h: Handle)
        ensures
            h == self.handle,
    {
        self.handle
    }

    /// The state of the stream.
    pub fn state(&self) -> (s: MStreamState)
        ensures
            s == self.state,
    {
        self.state
    }

    /// Set the state of the stream.
    pub fn set_state(&mut self, state: MStreamState)
        ensures
            final(self).state == state,
            final(self).stream == old(self).stream,
            final(self).handle == old(self).handle,
    {
        self.state = state;
    }

    /// Decide after the actor's `state` hook, for a poll that began in the
    /// live state `entered`:
    /// - if the state changed meanwhile, keep it and poll again;
    /// - `Abort` aborts the stream and `Pause` pauses it;
    /// - otherwise `Created` moves to `Started`, `Started` moves to
    ///   `Running` and calls the `started` hook, and `Running` polls the stream.
    pub fn on_state_hook(&mut self, entered: MStreamState, hook: MStreamingState) -> (step:
        MStreamStep)
        requires
            entered == MStreamState::Created || entered == MStreamState::Started || entered
                == MStreamState::Running,
        ensures
            (final(self).state, step) == mstream_decision(entered, old(self).state, hook),
            final(self).stream == old(self).stream,
            final(self).handle == old(self).handle,
    {
        if self.state != entered {
            return MStreamStep::Wake;
        }
        match hook {
            MStreamingState::Abort => {
                self.state = MStreamState::Aborted;
                MStreamStep::Wake
            },
            MStreamingState::Pause => {
                self.state = MStreamState::Paused;
                MStreamStep::Wake
            },
            _ => match entered {
                MStreamState::Created => {
                    self.state = MStreamState::Started;
                    MStreamStep::Wake
                },
                MStreamState::Started => {
                    self.state = MStreamState::Running;
                    MStreamStep::CallStarted
                },
                _ => MStreamStep::PollStream,
            },
        }
    }

    /// After the `started` hook: poll again.
    pub fn on_started_hook(&self) -> (step: MStreamStep)
        ensures
            step == MStreamStep::Wake,
    {
        MStreamStep::Wake
    }

    /// After an item was handled: wait for the next one, or poll again at
    /// once if the state changed meanwhile.
    pub fn on_item(&self) -> (step: MStreamStep)
        ensures
            step == (if self.state == MStreamState::Running {
                MStreamStep::Idle
            } else {
                MStreamStep::Wake
            }),
    {
        if self.state != MStreamState::Running {
            MStreamStep::Wake
        } else {
            MStreamStep::Idle
        }
    }

    /// The stream has no item left: it is finished.
    pub fn on_stream_end(&mut self) -> (step: MStreamStep)
        ensures
            step == MStreamStep::Wake,
            final(self).state == MStreamState::Finished,
            final(self).stream == old(self).stream,
            final(self).handle == old(self).handle,
    {
        self.state = MStreamState::Finished;
        MStreamStep::Wake
    }

    /// Decide, for a paused stream, after its `paused` and `state` hooks:
    /// `Resume` resumes it; otherwise it stays paused without waking.
    pub fn on_paused_hooks(&mut self, hook: MStreamingState) -> (step: MStreamStep)
        ensures
            (final(self).state, step) == mpaused_decision(old(self).state, hook),
            final(self).stream == old(self).stream,
            final(self).handle == old(self).handle,
    {
        if self.state != MStreamState::Paused {
            return MStreamStep::Wake;
        }
        if hook == MStreamingState::Resume {
            self.state = MStreamState::Resumed;
        } else {
            return MStreamStep::Idle;
        }
        MStreamStep::Wake
    }

    /// After the `resumed` hook: running again, unless the state changed
    /// meanwhile.
    pub fn on_resumed_hook(&mut self) -> (step: MStreamStep)
        ensures
            step == MStreamStep::Wake,
            final(self).state == (if old(self).state == MStreamState::Resumed {
                MStreamState::Running
            } else {
                old(self).state
            }),
            final(self).stream == old(self).stream,
            final(self).handle == old(self).handle,
    {
        if self.state == MStreamState::Resumed {
            self.state = MStreamState::Running;
        }
        MStreamStep::Wake
    }

    /// Decide after the `aborted` or `finished` hook of a poll that began
    /// in `entered`: done, unless the state changed meanwhile.
    pub fn on_final_hook(&self, entered: MStreamState) -> (step: MStreamStep)
        requires
            entered == MStreamState::Aborted || entered == MStreamState::Finished,
        ensures
            step == (if self.state == entered {
                MStreamStep::Complete
            } else {
                MStreamStep::Wake
            }),
    {
        if self.state != entered {
            MStreamStep::Wake
        } else {
            MStreamStep::Complete
        }
    }
}

/// An abort request is honoured in every live state of a stream.
pub proof fn lemma_mstream_abort_honoured(entered: MStreamState)
    requires
        entered == MStreamState::Created || entered == MStreamState::Started || entered
            == MStreamState::Running,
    ensures
        mstream_decision(entered, entered, MStreamingState::Abort) == (
            MStreamState::Aborted,
            MStreamStep::Wake,
        ),
{
}

/// A stream is polled for items only while it runs, and no decision of the
/// actor finishes it: only the end of the stream does.
pub proof fn lemma_mstream_polled_only_running(
    entered: MStreamState,
    current: MStreamState,
    hook: MStreamingState,
)
    requires
        entered == MStreamState::Created || entered == MStreamState::Started || entered
            == MStreamState::Running,
    ensures
        mstream_decision(entered, current, hook).1 == MStreamStep::PollStream ==> current
            == MStreamState::Running,
        mstream_decision(entered, current, hook).0 == MStreamState::Finished ==> current
            == MStreamState::Finished,
{
}

/// Pausing and resuming: a paused stream that is told to resume goes back
/// to `Running` through `Resumed`, and one that is not told stays paused.
pub proof fn lemma_mstream_pause_resume(hook: MStreamingState)
    ensures
        mpaused_decision(MStreamState::Paused, hook).0 == (if hook == MStreamingState::Resume {
            MStreamState::Resumed
        } else {
            MStreamState::Paused
        }),
{
}

/// Add a message stream to the actor, unless it is stopped: a stopped actor
/// takes no stream.
pub fn spawn_mstream<M, T, S>(ctx: &mut Context<M, T>, stream: S, handles: &mut HandleCounter) where
    MStreaming<S>: IntoTask<T>,

    ensures
        old(ctx).state == ActorState::Stopped ==> *final(ctx) == *old(ctx) && *final(handles) == *old(handles),
        old(ctx).state != ActorState::Stopped ==> {
            &&& final(handles).next == successor(old(handles).next)
            &&& final(ctx).inner@.len() == old(ctx).inner@.len() + 1
            &&& final(ctx).inner@.drop_last() == old(ctx).inner@
            &&& final(ctx).inner@.last().handle.0 == old(handles).next
            &&& final(ctx).bloc == old(ctx).bloc
            &&& final(ctx).state == old(ctx).state
        },
{
    if ctx.state() != ActorState::Stopped {
        ctx.streaming_message(stream, handles);
    }
}

} // verus!
