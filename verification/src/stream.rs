//! Streams of items handed to an actor, and their life cycle.
//!
//! Each poll of a stream asks the actor for a [`StreamingState`] and then
//! follows the decisions below; the hooks of the actor, the stream itself
//! and the handling of its items are run by the caller.
use crate::actor::{ActorState, Handle, HandleCounter, successor};
use crate::context::{Context, IntoTask};
use vstd::prelude::*;

verus! {

/// Indicator that directs a stream at run time.
#[derive(PartialEq, Eq, Structural, Clone, Copy, Debug)]
pub enum StreamingState {
    /// abort the stream
    Abort,
    /// go on as usual
    Continue,
    /// pause the stream
    Pause,
    /// bring a paused stream back to `Running`
    Resume,
}

/// State of a stream.
#[derive(PartialEq, Eq, Structural, Clone, Copy, Debug)]
pub enum StreamState {
    Created,
    Started,
    Running,
    Aborted,
    Paused,
    Resumed,
    Finished,
}

/// What the caller does after a decision of a stream.
#[derive(PartialEq, Eq, Structural, Clone, Copy, Debug)]
pub enum StreamStep {
    /// wake the task and return `Pending`
    Wake,
    /// return `Pending` without waking the task
    Idle,
    /// call the actor's `started` hook, then the matching `on_started_hook`
    CallStarted,
    /// poll the stream for its next item
    PollStream,
    /// the stream is done: return `Ready`
    Complete,
}

/// The decision of a stream once the actor's `state` hook answered `hook`,
/// for a poll that began in `entered` with the stream now in `current`.
pub open spec fn stream_decision(
    entered: StreamState,
    current: StreamState,
    hook: StreamingState,
) -> (StreamState, StreamStep) {
    if current != entered {
        (current, StreamStep::Wake)
    } else if hook == StreamingState::Abort {
        (StreamState::Aborted, StreamStep::Wake)
    } else if hook == StreamingState::Pause {
        (StreamState::Paused, StreamStep::Wake)
    } else {
        match entered {
            StreamState::Created => (StreamState::Started, StreamStep::Wake),
            StreamState::Started => (StreamState::Started, StreamStep::CallStarted),
            _ => (current, StreamStep::PollStream),
        }
    }
}

/// The decision of a paused stream once the actor's `state` hook answered
/// `hook`, with the stream now in `current`.
pub open spec fn paused_decision(current: StreamState, hook: StreamingState) -> (
    StreamState,
    StreamStep,
) {
    if current != StreamState::Paused {
        (current, StreamStep::Wake)
    } else if hook == StreamingState::Resume {
        (StreamState::Resumed, StreamStep::Wake)
    } else {
        (current, StreamStep::Idle)
    }
}

/// A stream of items handed to the actor.
pub struct Streaming<S> {
    pub stream: S,
    pub state: StreamState,
    pub handle: Handle,
}

impl<S> Streaming<S> {
    /// A stream in state `Created`, with a fresh handle.
    pub fn new(stream: S, counter: &mut HandleCounter) -> (s: Self)
        ensures
            s.stream == stream,
            s.state == StreamState::Created,
            s.handle.0 == old(counter).next,
            final(counter).next == successor(old(counter).next),
    {
        Streaming { stream, state: StreamState::Created, handle: Handle::new(counter) }
    }

    /// The handle of the stream.
    pub fn handle(&self) -> (h: Handle)
        ensures
            h == self.handle,
    {
        self.handle
    }

    /// The state of the stream.
    pub fn state(&self) -> (s: StreamState)
        ensures
            s == self.state,
    {
        self.state
    }

    /// Set the state of the stream.
    pub fn set_state(&mut self, state: StreamState)
        ensures
            final(self).state == state,
            final(self).stream == old(self).stream,
            final(self).handle == old(self).handle,
    {
        self.state = state;
    }

    /// Decide after the actor's `state` hook, for a poll that began in the
    /// live state `entered`:
    /// - if the state changed meanwhile, keep it and poll again;
    /// - `Abort` aborts the stream and `Pause` pauses it;
    /// - otherwise `Created` moves to `Started`, `Started` calls the
    ///   `started` hook, and `Running` polls the stream.
    pub fn on_state_hook(&mut self, entered: StreamState, hook: StreamingState) -> (step:
        StreamStep)
        requires
            entered == StreamState::Created || entered == StreamState::Started || entered
                == StreamState::Running,
        ensures
            (final(self).state, step) == stream_decision(entered, old(self).state, hook),
            final(self).stream == old(self).stream,
            final(self).handle == old(self).handle,
    {
        if self.state != entered {
            return StreamStep::Wake;
        }
        match hook {
            StreamingState::Abort => {
                self.state = StreamState::Aborted;
                StreamStep::Wake
            },
            StreamingState::Pause => {
                self.state = StreamState::Paused;
                StreamStep::Wake
            },
            _ => match entered {
                StreamState::Created => {
                    self.state = StreamState::Started;
                    StreamStep::Wake
                },
                StreamState::Started => StreamStep::CallStarted,
                _ => StreamStep::PollStream,
            },
        }
    }

    /// After the `started` hook: move to `Running` unless the state changed
    /// meanwhile; poll again either way.
    pub fn on_started_hook(&mut self) -> (step: StreamStep)
        ensures
            step == StreamStep::Wake,
            final(self).state == (if old(self).state == StreamState::Started {
                StreamState::Running
            } else {
                old(self).state
            }),
            final(self).stream == old(self).stream,
            final(self).handle == old(self).handle,
    {
        if self.state == StreamState::Started {
            self.state = StreamState::Running;
        }
        StreamStep::Wake
    }

    /// After an item was handled: wait for the next one, or poll again at
    /// once if the state changed meanwhile.
    pub fn on_item(&self) -> (step: StreamStep)
        ensures
            step == (if self.state == StreamState::Running {
                StreamStep::Idle
            } else {
                StreamStep::Wake
            }),
    {
        if self.state != StreamState::Running {
            StreamStep::Wake
        } else {
            StreamStep::Idle
        }
    }

    /// The stream has no item left: it is finished.
    pub fn on_stream_end(&mut self) -> (step: StreamStep)
        ensures
            step == StreamStep::Wake,
            final(self).state == StreamState::Finished,
            final(self).stream == old(self).stream,
            final(self).handle == old(self).handle,
    {
        self.state = StreamState::Finished;
        StreamStep::Wake
    }

    /// Decide, for a paused stream, after its `paused` and `state` hooks:
    /// `Resume` resumes it; otherwise it stays paused without waking.
    pub fn on_paused_hooks(&mut self, hook: StreamingState) -> (step: StreamStep)
        ensures
            (final(self).state, step) == paused_decision(old(self).state, hook),
            final(self).stream == old(self).stream,
            final(self).handle == old(self).handle,
    {
        if self.state != StreamState::Paused {
            return StreamStep::Wake;
        }
        if hook == StreamingState::Resume {
            self.state = StreamState::Resumed;
        } else {
            return StreamStep::Idle;
        }
        StreamStep::Wake
    }

    /// After the `resumed` hook: running again, unless the state changed
    /// meanwhile.
    pub fn on_resumed_hook(&mut self) -> (step: StreamStep)
        ensures
            step == StreamStep::Wake,
            final(self).state == (if old(self).state == StreamState::Resumed {
                StreamState::Running
            } else {
                old(self).state
            }),
            final(self).stream == old(self).stream,
            final(self).handle == old(self).handle,
    {
        if self.state == StreamState::Resumed {
            self.state = StreamState::Running;
        }
        StreamStep::Wake
    }

    /// Decide after the `aborted` or `finished` hook of a poll that began
    /// in `entered`: done, unless the state changed meanwhile.
    pub fn on_final_hook(&self, entered: StreamState) -> (step: StreamStep)
        requires
            entered == StreamState::Aborted || entered == StreamState::Finished,
        ensures
            step == (if self.state == entered {
                StreamStep::Complete
            } else {
                StreamStep::Wake
            }),
    {
        if self.state != entered {
            StreamStep::Wake
        } else {
            StreamStep::Complete
        }
    }
}

/// An abort request is honoured in every live state of a stream.
pub proof fn lemma_stream_abort_honoured(entered: StreamState)
    requires
        entered == StreamState::Created || entered == StreamState::Started || entered
            == StreamState::Running,
    ensures
        stream_decision(entered, entered, StreamingState::Abort) == (
            StreamState::Aborted,
            StreamStep::Wake,
        ),
{
}

/// A stream is polled for items only while it runs, and no decision of the
/// actor finishes it: only the end of the stream does.
pub proof fn lemma_stream_polled_only_running(
    entered: StreamState,
    current: StreamState,
    hook: StreamingState,
)
    requires
        entered == StreamState::Created || entered == StreamState::Started || entered
            == StreamState::Running,
    ensures
        stream_decision(entered, current, hook).1 == StreamStep::PollStream ==> current
            == StreamState::Running,
        stream_decision(entered, current, hook).0 == StreamState::Finished ==> current
            == StreamState::Finished,
{
}

/// Pausing and resuming: a paused stream that is told to resume goes back
/// to `Running` through `Resumed`, and one that is not told stays paused.
pub proof fn lemma_stream_pause_resume(hook: StreamingState)
    ensures
        paused_decision(StreamState::Paused, hook).0 == (if hook == StreamingState::Resume {
            StreamState::Resumed
        } else {
            StreamState::Paused
        }),
{
}

/// Add a stream to the actor, unless it is stopped: a stopped actor takes
/// no stream and the invalid handle `0` is returned.
pub fn spawn_stream<M, T, S>(ctx: &mut Context<M, T>, stream: S, handles: &mut HandleCounter) -> (h: Handle) where
    Streaming<S>: IntoTask<T>,

    ensures
        old(ctx).state == ActorState::Stopped ==> h == Handle(0) && *final(ctx) == *old(ctx) && *final(handles) == *old(handles),
        old(ctx).state != ActorState::Stopped ==> {
            &&& h.0 == old(handles).next
            &&& final(handles).next == successor(old(handles).next)
            &&& final(ctx).inner@.len() == old(ctx).inner@.len() + 1
            &&& final(ctx).inner@.drop_last() == old(ctx).inner@
            &&& final(ctx).inner@.last().handle == h
            &&& final(ctx).bloc == old(ctx).bloc
            &&& final(ctx).state == old(ctx).state
        },
{
    if ctx.state() == ActorState::Stopped {
        Handle(0)
    } else {
        ctx.streaming(stream, handles)
    }
}

} // verus!
