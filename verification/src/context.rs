//! The execution state and local environment of an actor.
//!
//! A [`Context`] lives before the actor is created and after it is
//! closed.  It holds the actor's id, its state, its message queue and the
//! routines spawned for it; a [`ContextRunner`] drives them.  Routines are
//! kept as opaque tasks of type `T`, each with the [`Handle`] that names
//! it.
use crate::actor::{ActingState, ActorState, Handle, HandleCounter, Localizer, successor};
use crate::address::{Addr, Pack, PackInv, QueueError, Receiver, Sender, SharedPack, arc_clone};
use crate::blocker::Blocker;
use crate::delayer::Delayer;
use crate::message::MStreaming;
use crate::register::{ActorGuard, ActorRegister, Register};
use crate::stream::Streaming;
use vstd::prelude::*;

verus! {

/// A routine of the actor and the handle that names it.
pub struct Pair<T> {
    pub inner: T,
    pub handle: Handle,
}

/// Turns a routine of this library into the task type a context keeps.
pub trait IntoTask<T> {
    fn into_task(self) -> T;
}

/// `i` is the first position in `s` of a routine named `h`.
pub open spec fn is_first_with<T>(s: Seq<Pair<T>>, h: Handle, i: int) -> bool {
    &&& 0 <= i < s.len()
    &&& s[i].handle == h
    &&& forall|j: int| 0 <= j < i ==> s[j].handle != h
}

/// Some routine in `s` is named `h`.
pub open spec fn holds_handle<T>(s: Seq<Pair<T>>, h: Handle) -> bool {
    exists|i: int| 0 <= i < s.len() && s[i].handle == h
}

/// The routines `s` once the first routine named `h`, if any, is removed
/// by moving the last routine into its place.
pub open spec fn remove_first<T>(s: Seq<Pair<T>>, h: Handle) -> Seq<Pair<T>> {
    if holds_handle(s, h) {
        let i = choose|i: int| is_first_with(s, h, i);
        s.update(i, s.last()).drop_last()
    } else {
        s
    }
}

/// The routines `s` once each handle of `aborts` is aborted, the last
/// handle first.
pub open spec fn apply_aborts<T>(s: Seq<Pair<T>>, aborts: Seq<Handle>) -> Seq<Pair<T>>
    decreases aborts.len(),
{
    if aborts.len() == 0 {
        s
    } else {
        apply_aborts(remove_first(s, aborts.last()), aborts.drop_last())
    }
}

/// The routines `s` with routine `i` and the last one trading places, when
/// `i` comes before the last; otherwise `s` as it is.
pub open spec fn swap_with_last<T>(s: Seq<T>, i: int) -> Seq<T> {
    if 0 <= i && i + 1 < s.len() {
        s.update(i, s.last()).update(s.len() - 1, s[i])
    } else {
        s
    }
}

/// Remove the first routine named `h`, moving the last routine into its
/// place; the result tells whether one was found.
pub fn remove_handle<T>(v: &mut Vec<Pair<T>>, h: Handle) -> (found: bool)
    ensures
        found == holds_handle(old(v)@, h),
        final(v)@ == remove_first(old(v)@, h),
{
    let mut i: usize = 0;
    while i < v.len()
        invariant
            i <= v@.len(),
            *v == *old(v),
            forall|j: int| 0 <= j < i ==> v@[j].handle != h,
        decreases v@.len() - i,
    {
        if v[i].handle == h {
            proof {
                assert(is_first_with(v@, h, i as int));
                let k = choose|k: int| is_first_with(v@, h, k);
                assert(k == i as int);
            }
            v.swap_remove(i);
            return true;
        }
        i = i + 1;
    }
    false
}

/// The first position in `v` of a routine named `h`, if any.
pub fn position_of<T>(v: &Vec<Pair<T>>, h: Handle) -> (r: Option<usize>)
    ensures
        r matches Some(i) ==> is_first_with(v@, h, i as int),
        r is None ==> !holds_handle(v@, h),
{
    let mut i: usize = 0;
    while i < v.len()
        invariant
            i <= v@.len(),
            forall|j: int| 0 <= j < i ==> v@[j].handle != h,
        decreases v@.len() - i,
    {
        if v[i].handle == h {
            return Some(i);
        }
        i = i + 1;
    }
    None
}

/// Where a routine stands: among the runner's routines, the runner's
/// blockers, the routines spawned in the context and not yet taken, or the
/// blockers spawned there; each with its position.
#[derive(PartialEq, Eq, Structural, Clone, Copy, Debug)]
pub enum TaskPlace {
    Running(usize),
    Blocking(usize),
    Spawned(usize),
    SpawnedBlocking(usize),
}

/// The place of the routine named `h`: the first one found among `running`,
/// then `blocking`, then `spawned`, then `spawned_blocking`; `None` when no
/// routine of them is named `h`.
pub fn locate_task<T>(
    running: &Vec<Pair<T>>,
    blocking: &Vec<Pair<T>>,
    spawned: &Vec<Pair<T>>,
    spawned_blocking: &Vec<Pair<T>>,
    h: Handle,
) -> (r: Option<TaskPlace>)
    ensures
        r matches Some(TaskPlace::Running(i)) ==> is_first_with(running@, h, i as int),
        r matches Some(TaskPlace::Blocking(i)) ==> !holds_handle(running@, h) && is_first_with(
            blocking@,
            h,
            i as int,
        ),
        r matches Some(TaskPlace::Spawned(i)) ==> !holds_handle(running@, h) && !holds_handle(
            blocking@,
            h,
        ) && is_first_with(spawned@, h, i as int),
        r matches Some(TaskPlace::SpawnedBlocking(i)) ==> !holds_handle(running@, h)
            && !holds_handle(blocking@, h) && !holds_handle(spawned@, h) && is_first_with(
            spawned_blocking@,
            h,
            i as int,
        ),
        r is None ==> !holds_handle(running@, h) && !holds_handle(blocking@, h) && !holds_handle(
            spawned@,
            h,
        ) && !holds_handle(spawned_blocking@, h),
{
    if let Some(i) = position_of(running, h) {
        return Some(TaskPlace::Running(i));
    }
    if let Some(i) = position_of(blocking, h) {
        return Some(TaskPlace::Blocking(i));
    }
    if let Some(i) = position_of(spawned, h) {
        return Some(TaskPlace::Spawned(i));
    }
    match position_of(spawned_blocking, h) {
        Some(i) => Some(TaskPlace::SpawnedBlocking(i)),
        None => None,
    }
}

/// The execution state and local environment of an actor: its id, the
/// routines spawned and not yet taken by the runner, its message queue,
/// its state and the handles marked for abortion.
pub struct Context<M, T> {
    pub id: usize,
    pub inner: Vec<Pair<T>>,
    pub pack: SharedPack<M>,
    pub bloc: Vec<Pair<T>>,
    pub state: ActorState,
    pub abortion: Vec<Handle>,
}

impl<M, T> Context<M, T> {
    /// The message queue is shared under the lock that keeps it well
    /// formed.  The lock's predicate type has a single value, so this holds
    /// of every context: it names the lock's invariant and restricts
    /// nothing.
    pub open spec fn wf(&self) -> bool {
        self.pack.pred() == (PackInv {})
    }

    /// Only the state differs from `other`.
    pub open spec fn same_but_state(self, other: Self) -> bool {
        &&& self.id == other.id
        &&& self.inner == other.inner
        &&& self.pack == other.pack
        &&& self.bloc == other.bloc
        &&& self.abortion == other.abortion
    }

    /// A fresh context: id `0`, state `Created`, an empty alive queue and
    /// no routine.
    pub fn new() -> (c: Self)
        ensures
            c.wf(),
            c.id == 0,
            c.state == ActorState::Created,
            c.inner@.len() == 0,
            c.bloc@.len() == 0,
            c.abortion@.len() == 0,
    {
        Context {
            id: 0,
            pack: Pack::new().share(),
            state: ActorState::Created,
            bloc: Vec::new(),
            inner: Vec::new(),
            abortion: Vec::new(),
        }
    }

    /// The address of the actor.
    pub fn address(&self) -> (a: Addr<M>)
        requires
            self.wf(),
        ensures
            a.pack == self.pack,
            a.wf(),
    {
        Addr::new(arc_clone(&self.pack))
    }

    /// The id of the actor.
    pub fn id(&self) -> (id: usize)
        ensures
            id == self.id,
    {
        self.id
    }

    /// Set the id of the actor.
    pub fn set_id(&mut self, id: usize)
        ensures
            *final(self) == (Context { id, ..*old(self) }),
    {
        self.id = id;
    }

    /// Keep a routine for execution under a fresh handle.
    pub fn spawn(&mut self, task: T, handles: &mut HandleCounter) -> (h: Handle)
        ensures
            h.0 == old(handles).next,
            final(handles).next == successor(old(handles).next),
            final(self).inner@ == old(self).inner@.push(Pair { inner: task, handle: h }),
            final(self).bloc == old(self).bloc,
            final(self).abortion == old(self).abortion,
            final(self).state == old(self).state,
            final(self).id == old(self).id,
            final(self).pack == old(self).pack,
    {
        let handle = Handle::new(handles);
        self.inner.push(Pair { inner: task, handle });
        handle
    }

    /// Keep a routine, as a task under `handle`, among the blocking routines
    /// or the others.
    fn keep<R: IntoTask<T>>(&mut self, routine: R, handle: Handle, blocking: bool)
        ensures
            blocking ==> final(self).bloc@.len() == old(self).bloc@.len() + 1 && final(self).bloc@.drop_last() == old(self).bloc@ && final(self).bloc@.last().handle == handle
                && final(self).inner == old(self).inner,
            !blocking ==> final(self).inner@.len() == old(self).inner@.len() + 1 && final(self).inner@.drop_last() == old(self).inner@ && final(self).inner@.last().handle == handle
                && final(self).bloc == old(self).bloc,
            final(self).abortion == old(self).abortion,
            final(self).state == old(self).state,
            final(self).id == old(self).id,
            final(self).pack == old(self).pack,
    {
        let pair = Pair { inner: routine.into_task(), handle };
        if blocking {
            self.bloc.push(pair);
        } else {
            self.inner.push(pair);
        }
        proof {
            if blocking {
                assert(self.bloc@.drop_last() =~= old(self).bloc@);
            } else {
                assert(self.inner@.drop_last() =~= old(self).inner@);
            }
        }
    }

    /// Block the actor until the future is complete: a blocker over it is
    /// kept among the blocking routines under a fresh handle.
    pub fn blocking<F>(&mut self, f: F, handles: &mut HandleCounter) -> (h: Handle) where Blocker<F>: IntoTask<T>
        ensures
            h.0 == old(handles).next,
            final(handles).next == successor(old(handles).next),
            final(self).bloc@.len() == old(self).bloc@.len() + 1,
            final(self).bloc@.drop_last() == old(self).bloc@,
            final(self).bloc@.last().handle == h,
            final(self).inner == old(self).inner,
            final(self).abortion == old(self).abortion,
            final(self).state == old(self).state,
            final(self).pack == old(self).pack,
    {
        let target = Blocker::new(f, handles);
        let handle = target.handle();
        self.keep(target, handle, true);
        handle
    }

    /// Run an ordinary future as a routine of the actor.
    pub fn send_future<F>(&mut self, fut: F, handles: &mut HandleCounter) -> (h: Handle) where Localizer<F>: IntoTask<T>
        ensures
            h.0 == old(handles).next,
            final(handles).next == successor(old(handles).next),
            final(self).inner@.len() == old(self).inner@.len() + 1,
            final(self).inner@.drop_last() == old(self).inner@,
            final(self).inner@.last().handle == h,
            final(self).bloc == old(self).bloc,
            final(self).abortion == old(self).abortion,
            final(self).state == old(self).state,
            final(self).pack == old(self).pack,
    {
        let local = Localizer::new(fut);
        let handle = Handle::new(handles);
        self.keep(local, handle, false);
        handle
    }

    /// Deliver a message at once, past the message queue, straight to the
    /// actor's `action`.
    pub fn instant_message<D>(&mut self, msg: M, handles: &mut HandleCounter) -> (h: Handle) where Delayer<M, D>: IntoTask<T>
        ensures
            h.0 == old(handles).next,
            final(handles).next == successor(old(handles).next),
            final(self).inner@.len() == old(self).inner@.len() + 1,
            final(self).inner@.drop_last() == old(self).inner@,
            final(self).inner@.last().handle == h,
            final(self).bloc == old(self).bloc,
            final(self).abortion == old(self).abortion,
            final(self).state == old(self).state,
            final(self).pack == old(self).pack,
    {
        let target = Delayer::<M, D>::instant(msg, handles);
        let handle = target.handle();
        self.keep(target, handle, false);
        handle
    }

    /// Deliver a message, past the message queue, once the condition `f`
    /// is ready.
    pub fn delay_message_fn<D>(&mut self, msg: M, f: D, handles: &mut HandleCounter) -> (h: Handle) where
        Delayer<M, D>: IntoTask<T>,

        ensures
            h.0 == old(handles).next,
            final(handles).next == successor(old(handles).next),
            final(self).inner@.len() == old(self).inner@.len() + 1,
            final(self).inner@.drop_last() == old(self).inner@,
            final(self).inner@.last().handle == h,
            final(self).bloc == old(self).bloc,
            final(self).abortion == old(self).abortion,
            final(self).state == old(self).state,
            final(self).pack == old(self).pack,
    {
        let target = Delayer::from_fn(Some(msg), f, handles);
        let handle = target.handle();
        self.keep(target, handle, false);
        handle
    }

    /// Deliver the message that the condition `f` yields once it is ready.
    pub fn delay_fn<D>(&mut self, f: D, handles: &mut HandleCounter) -> (h: Handle) where Delayer<M, D>: IntoTask<T>
        ensures
            h.0 == old(handles).next,
            final(handles).next == successor(old(handles).next),
            final(self).inner@.len() == old(self).inner@.len() + 1,
            final(self).inner@.drop_last() == old(self).inner@,
            final(self).inner@.last().handle == h,
            final(self).bloc == old(self).bloc,
            final(self).abortion == old(self).abortion,
            final(self).state == old(self).state,
            final(self).pack == old(self).pack,
    {
        let target = Delayer::from_fn(None, f, handles);
        let handle = target.handle();
        self.keep(target, handle, false);
        handle
    }

    /// Run a stream whose items go to the actor's stream `action`.
    pub fn streaming<S>(&mut self, s: S, handles: &mut HandleCounter) -> (h: Handle) where Streaming<S>: IntoTask<T>
        ensures
            h.0 == old(handles).next,
            final(handles).next == successor(old(handles).next),
            final(self).inner@.len() == old(self).inner@.len() + 1,
            final(self).inner@.drop_last() == old(self).inner@,
            final(self).inner@.last().handle == h,
            final(self).bloc == old(self).bloc,
            final(self).abortion == old(self).abortion,
            final(self).state == old(self).state,
            final(self).pack == old(self).pack,
    {
        let target = Streaming::new(s, handles);
        let handle = target.handle();
        self.keep(target, handle, false);
        handle
    }

    /// Run a stream of messages that go to the actor's `action`.
    pub fn streaming_message<S>(&mut self, s: S, handles: &mut HandleCounter) -> (h: Handle) where
        MStreaming<S>: IntoTask<T>,

        ensures
            h.0 == old(handles).next,
            final(handles).next == successor(old(handles).next),
            final(self).inner@.len() == old(self).inner@.len() + 1,
            final(self).inner@.drop_last() == old(self).inner@,
            final(self).inner@.last().handle == h,
            final(self).bloc == old(self).bloc,
            final(self).abortion == old(self).abortion,
            final(self).state == old(self).state,
            final(self).pack == old(self).pack,
    {
        let target = MStreaming::new(s, handles);
        let handle = target.handle();
        self.keep(target, handle, false);
        handle
    }

    /// A sender of the actor: it is counted in and the queue is alive again.
    pub fn sender(&self) -> (s: Sender<M>)
        requires
            self.wf(),
        ensures
            s.pack == self.pack,
            s.wf(),
    {
        self.address().into_sender()
    }

    /// The receiver of the actor.
    pub fn receiver(&self) -> (r: Receiver<M>)
        requires
            self.wf(),
        ensures
            r.pack == self.pack,
            r.wf(),
    {
        Receiver { pack: arc_clone(&self.pack) }
    }

    /// Send a message to the actor's own queue, through a sender that is
    /// counted in for the delivery and out again after it; a refused message
    /// is handed back.
    pub fn send_message(&mut self, msg: M) -> (r: Result<(), QueueError<M>>)
        requires
            old(self).wf(),
        ensures
            *final(self) == *old(self),
            r matches Err(e) ==> e.refused() == msg,
    {
        let sender = self.sender();
        let r = sender.send(msg);
        sender.release();
        r
    }

    /// Send messages to the actor's own queue, in order; one result each.
    pub fn send_message_batch(&mut self, msgs: Vec<M>) -> (rs: Vec<Result<(), QueueError<M>>>)
        requires
            old(self).wf(),
        ensures
            *final(self) == *old(self),
            rs@.len() == msgs@.len(),
            forall|i: int|
                0 <= i < rs@.len() ==> (#[trigger] rs@[i] matches Err(e) ==> e.refused() == msgs@[i]),
    {
        let mut msgs = msgs;
        let ghost all = msgs@;
        let mut rest: Vec<M> = Vec::new();
        // take the messages out from the back, then deliver them from the front
        while msgs.len() > 0
            invariant
                rest@.len() + msgs@.len() == all.len(),
                msgs@ == all.subrange(0, msgs@.len() as int),
                forall|i: int| 0 <= i < rest@.len() ==> rest@[i] == all[all.len() - 1 - i],
            decreases msgs@.len(),
        {
            let m = msgs.pop().unwrap();
            rest.push(m);
        }
        let mut rs: Vec<Result<(), QueueError<M>>> = Vec::new();
        while rest.len() > 0
            invariant
                self.wf(),
                *self == *old(self),
                rs@.len() + rest@.len() == all.len(),
                forall|i: int| 0 <= i < rest@.len() ==> rest@[i] == all[all.len() - 1 - i],
                forall|i: int|
                    0 <= i < rs@.len() ==> (#[trigger] rs@[i] matches Err(e) ==> e.refused() == all[i]),
            decreases rest@.len(),
        {
            let m = rest.pop().unwrap();
            let r = self.send_message(m);
            rs.push(r);
        }
        rs
    }

    /// Mark the routine named `handle` to be aborted.
    pub fn abort_future(&mut self, handle: Handle)
        ensures
            final(self).abortion@ == old(self).abortion@.push(handle),
            final(self).inner == old(self).inner,
            final(self).bloc == old(self).bloc,
            final(self).state == old(self).state,
            final(self).id == old(self).id,
            final(self).pack == old(self).pack,
    {
        self.abortion.push(handle);
    }

    /// The state of the actor.
    pub fn state(&self) -> (s: ActorState)
        ensures
            s == self.state,
    {
        self.state
    }

    /// Set the state of the actor; this changes how it is run.
    pub fn set_state(&mut self, state: ActorState)
        ensures
            final(self).state == state,
            final(self).same_but_state(*old(self)),
    {
        self.state = state;
    }

    /// The actor has started.
    pub fn is_started(&self) -> (r: bool)
        ensures
            r == (self.state != ActorState::Created),
    {
        self.state.is_started()
    }

    /// The actor is running.
    pub fn is_running(&self) -> (r: bool)
        ensures
            r == (self.state == ActorState::Running),
    {
        self.state == ActorState::Running
    }

    /// Hand the context and the actor to a runner; the address of the actor
    /// comes with it.
    pub fn run<G>(self, act: G) -> (r: (Addr<M>, ContextRunner<M, T, G>))
        requires
            self.wf(),
        ensures
            r.0.pack == self.pack,
            r.0.wf(),
            r.1.ctx == self,
            r.1.act == act,
            r.1.inner@.len() == 0,
            r.1.bloc@.len() == 0,
    {
        let addr = self.address();
        let runner = ContextRunner::new(self, act);
        (addr, runner)
    }

    /// The actor is stopping.
    pub fn is_stopping(&self) -> (r: bool)
        ensures
            r == (self.state == ActorState::Stopping),
    {
        self.state == ActorState::Stopping
    }

    /// The actor is stopped.
    pub fn is_stopped(&self) -> (r: bool)
        ensures
            r == (self.state == ActorState::Stopped),
    {
        self.state == ActorState::Stopped
    }

    /// Restart the context: back to `Started`, with every routine and every
    /// pending abortion dropped; the message queue survives.
    pub fn restart(&mut self)
        ensures
            final(self).state == ActorState::Started,
            final(self).inner@.len() == 0,
            final(self).bloc@.len() == 0,
            final(self).abortion@.len() == 0,
            final(self).id == old(self).id,
            final(self).pack == old(self).pack,
    {
        self.state = ActorState::Started;
        self.inner.clear();
        self.bloc.clear();
        self.abortion.clear();
    }

    /// Stop the actor; it may still resume when its `state` says so.
    pub fn stop(&mut self)
        ensures
            final(self).state == ActorState::Stopping,
            final(self).same_but_state(*old(self)),
    {
        self.state = ActorState::Stopping;
    }
}

/// What the caller does after a decision of the runner.
#[derive(PartialEq, Eq, Structural, Clone, Copy, Debug)]
pub enum RunnerStep {
    /// wake the task and return `Pending`
    Wake,
    /// return `Pending` without waking the task
    Idle,
    /// call the actor's `started` hook, then [`ContextRunner::after_started_hook`]
    CallStarted,
    /// poll the most recent blocker
    PollBlocker,
    /// take the next message from the queue
    PullMessage,
    /// poll the routine at this position
    PollTask(usize),
    /// the round is over: [`ContextRunner::finish_round`]
    Finish,
    /// call the actor's `close` hook and return `Ready`
    Close,
}

/// The runner that drives the routines of an actor to completion.
pub struct ContextRunner<M, T, G> {
    pub act: G,
    pub inner: Vec<Pair<T>>,
    pub bloc: Vec<Pair<T>>,
    pub ctx: Context<M, T>,
}

impl<M, T, G> ContextRunner<M, T, G> {
    /// `self` is `old` after an update: the blocking routines and the
    /// routines of the context moved to the runner, in order, and the
    /// routines marked for abortion taken out.
    pub open spec fn updated_from(self, old: Self) -> bool {
        &&& self.bloc@ == old.bloc@ + old.ctx.bloc@
        &&& self.inner@ == apply_aborts(old.inner@ + old.ctx.inner@, old.ctx.abortion@)
        &&& self.ctx.bloc@.len() == 0
        &&& self.ctx.inner@.len() == 0
        &&& self.ctx.abortion@.len() == 0
        &&& self.ctx.id == old.ctx.id
        &&& self.ctx.pack == old.ctx.pack
        &&& self.ctx.state == old.ctx.state
        &&& self.act == old.act
    }

    /// The runner after taking the routines of the context, as in
    /// [`Self::updated_from`], and then moving routine `i` to the end.
    pub open spec fn updated_moving(self, old: Self, i: int) -> bool {
        &&& self.bloc@ == old.bloc@ + old.ctx.bloc@
        &&& self.inner@ == swap_with_last(
            apply_aborts(old.inner@ + old.ctx.inner@, old.ctx.abortion@),
            i,
        )
        &&& self.ctx.bloc@.len() == 0
        &&& self.ctx.inner@.len() == 0
        &&& self.ctx.abortion@.len() == 0
        &&& self.ctx.id == old.ctx.id
        &&& self.ctx.pack == old.ctx.pack
        &&& self.ctx.state == old.ctx.state
        &&& self.act == old.act
    }

    /// The next step of a running round, from where it starts over: the
    /// most recent blocker first, else a message.
    pub open spec fn round_start(self) -> RunnerStep {
        if self.bloc@.len() > 0 {
            RunnerStep::PollBlocker
        } else {
            RunnerStep::PullMessage
        }
    }

    /// The next step of a running round at routine `i`: a blocker first if
    /// one came, else routine `i`, else the end of the round.
    pub open spec fn round_at(self, i: int) -> RunnerStep {
        if self.bloc@.len() > 0 {
            RunnerStep::PollBlocker
        } else if i < self.inner@.len() {
            RunnerStep::PollTask(i as usize)
        } else {
            RunnerStep::Finish
        }
    }

    /// Only the state of the context differs from `other`.
    pub open spec fn same_but_state(self, other: Self) -> bool {
        &&& self.act == other.act
        &&& self.inner == other.inner
        &&& self.bloc == other.bloc
        &&& self.ctx.same_but_state(other.ctx)
    }

    /// A runner over the context and the actor, with no routine yet.
    pub fn new(ctx: Context<M, T>, act: G) -> (r: Self)
        ensures
            r.ctx == ctx,
            r.act == act,
            r.inner@.len() == 0,
            r.bloc@.len() == 0,
    {
        ContextRunner { ctx, act, inner: Vec::new(), bloc: Vec::new() }
    }

    /// Take the routines spawned in the context: blocking routines first,
    /// then the others; then abort the routines marked for it, the last
    /// mark first.  The result tells whether new blocking routines came.
    pub fn update(&mut self) -> (blocked: bool)
        ensures
            blocked == (old(self).ctx.bloc@.len() > 0),
            final(self).updated_from(*old(self)),
    {
        let mut blocked = false;
        if !self.ctx.bloc.is_empty() {
            blocked = true;
            self.bloc.append(&mut self.ctx.bloc);
        }
        if !self.ctx.inner.is_empty() {
            self.inner.append(&mut self.ctx.inner);
        }
        proof {
            assert(self.bloc@ =~= old(self).bloc@ + old(self).ctx.bloc@);
            assert(self.inner@ =~= old(self).inner@ + old(self).ctx.inner@);
        }
        let ghost start = self.inner@;
        let ghost marks = self.ctx.abortion@;
        while self.ctx.abortion.len() > 0
            invariant
                apply_aborts(self.inner@, self.ctx.abortion@) == apply_aborts(start, marks),
                self.bloc@ == old(self).bloc@ + old(self).ctx.bloc@,
                self.ctx.bloc@.len() == 0,
                self.ctx.inner@.len() == 0,
                self.ctx.id == old(self).ctx.id,
                self.ctx.pack == old(self).ctx.pack,
                self.ctx.state == old(self).ctx.state,
                self.act == old(self).act,
            decreases self.ctx.abortion@.len(),
        {
            let ghost before = self.ctx.abortion@;
            let handle = self.ctx.abortion.pop().unwrap();
            proof {
                assert(self.ctx.abortion@ =~= before.drop_last());
            }
            remove_handle(&mut self.inner, handle);
        }
        blocked
    }

    /// The actor is stopping or stopped.
    pub fn to_stop(&self) -> (r: bool)
        ensures
            r == (self.ctx.state == ActorState::Stopped || self.ctx.state
                == ActorState::Stopping),
    {
        match self.ctx.state {
            ActorState::Stopped | ActorState::Stopping => true,
            _ => false,
        }
    }

    /// Whether the runner goes on.  A stopped actor does not; otherwise its
    /// queue is brought up to date, and it goes on while a sender is left,
    /// the queue is alive or closing, the actor has not started, or
    /// routines remain.
    pub fn is_alive(&self) -> (r: bool)
        requires
            self.ctx.wf(),
        ensures
            self.ctx.state == ActorState::Stopped ==> !r,
            self.ctx.state != ActorState::Stopped && (self.ctx.state == ActorState::Created
                || self.inner@.len() > 0 || self.bloc@.len() > 0) ==> r,
    {
        if self.ctx.is_stopped() {
            return false;
        }
        let (mut pack, handle) = self.ctx.pack.acquire_write();
        let queue_alive = pack.keeps_actor();
        handle.release_write(pack);
        queue_alive || !self.ctx.state.is_started() || !self.inner.is_empty()
            || !self.bloc.is_empty()
    }

    /// The actor is blocked while it holds a blocker.
    pub fn is_blocked(&self) -> (r: bool)
        ensures
            r == (self.bloc@.len() > 0),
    {
        !self.bloc.is_empty()
    }

    /// The first routine named `handle`: among the running routines, then
    /// among the blockers.
    pub fn find_task(&self, handle: Handle) -> (r: Option<&T>)
        ensures
            r matches Some(t) ==> (exists|i: int|
                is_first_with(self.inner@, handle, i) && *t == self.inner@[i].inner) || (
            !holds_handle(self.inner@, handle) && exists|i: int|
                is_first_with(self.bloc@, handle, i) && *t == self.bloc@[i].inner),
            r is None ==> !holds_handle(self.inner@, handle) && !holds_handle(
                self.bloc@,
                handle,
            ),
    {
        let mut i: usize = 0;
        while i < self.inner.len()
            invariant
                i <= self.inner@.len(),
                forall|j: int| 0 <= j < i ==> self.inner@[j].handle != handle,
            decreases self.inner@.len() - i,
        {
            if self.inner[i].handle == handle {
                proof {
                    assert(is_first_with(self.inner@, handle, i as int));
                }
                return Some(&self.inner[i].inner);
            }
            i = i + 1;
        }
        let mut k: usize = 0;
        while k < self.bloc.len()
            invariant
                k <= self.bloc@.len(),
                !holds_handle(self.inner@, handle),
                forall|j: int| 0 <= j < k ==> self.bloc@[j].handle != handle,
            decreases self.bloc@.len() - k,
        {
            if self.bloc[k].handle == handle {
                proof {
                    assert(is_first_with(self.bloc@, handle, k as int));
                }
                return Some(&self.bloc[k].inner);
            }
            k = k + 1;
        }
        None
    }

    /// First poll of an actor, after its `initial` and `state` hooks:
    /// `Stop` makes it stopping, `Abort` aborts it; otherwise its routines
    /// are taken and it has started.
    pub fn on_created(&mut self, acting: ActingState) -> (step: RunnerStep)
        ensures
            step == RunnerStep::Wake,
            acting == ActingState::Stop ==> final(self).ctx.state == ActorState::Stopping
                && final(self).same_but_state(*old(self)),
            acting == ActingState::Abort ==> final(self).ctx.state == ActorState::Aborted
                && final(self).same_but_state(*old(self)),
            acting != ActingState::Stop && acting != ActingState::Abort ==> final(self).ctx.state == ActorState::Started && exists|u: Self|
                u.updated_from(*old(self)) && final(self).same_but_state(u),
    {
        match acting {
            ActingState::Stop => {
                self.ctx.state = ActorState::Stopping;
            },
            ActingState::Abort => {
                self.ctx.state = ActorState::Aborted;
            },
            _ => {
                self.update();
                let ghost u = *self;
                self.ctx.state = ActorState::Started;
                assert(self.same_but_state(u));
            },
        }
        RunnerStep::Wake
    }

    /// Poll of a started actor, after its `state` hook: `Stop` makes it
    /// stopping, `Abort` aborts it; otherwise its `started` hook is due.
    pub fn on_started(&mut self, acting: ActingState) -> (step: RunnerStep)
        ensures
            acting == ActingState::Stop ==> step == RunnerStep::Wake && final(self).ctx.state
                == ActorState::Stopping && final(self).same_but_state(*old(self)),
            acting == ActingState::Abort ==> step == RunnerStep::Wake && final(self).ctx.state
                == ActorState::Aborted && final(self).same_but_state(*old(self)),
            acting != ActingState::Stop && acting != ActingState::Abort ==> step
                == RunnerStep::CallStarted && *final(self) == *old(self),
    {
        match acting {
            ActingState::Stop => {
                self.ctx.state = ActorState::Stopping;
                RunnerStep::Wake
            },
            ActingState::Abort => {
                self.ctx.state = ActorState::Aborted;
                RunnerStep::Wake
            },
            _ => RunnerStep::CallStarted,
        }
    }

    /// After the `started` hook: unless the state changed meanwhile, the
    /// routines are taken and the actor runs.
    pub fn after_started_hook(&mut self) -> (step: RunnerStep)
        ensures
            step == RunnerStep::Wake,
            old(self).ctx.state != ActorState::Started ==> *final(self) == *old(self),
            old(self).ctx.state == ActorState::Started ==> final(self).ctx.state
                == ActorState::Running && exists|u: Self|
                u.updated_from(*old(self)) && final(self).same_but_state(u),
    {
        if self.ctx.state != ActorState::Started {
            return RunnerStep::Wake;
        }
        self.update();
        let ghost u = *self;
        self.ctx.state = ActorState::Running;
        assert(self.same_but_state(u));
        RunnerStep::Wake
    }

    /// Poll of a running actor, after its `state` hook: `Stop` makes it
    /// stopping, `Abort` aborts it; otherwise a round begins.
    pub fn on_running(&mut self, acting: ActingState) -> (step: RunnerStep)
        ensures
            acting == ActingState::Stop ==> step == RunnerStep::Wake && final(self).ctx.state
                == ActorState::Stopping && final(self).same_but_state(*old(self)),
            acting == ActingState::Abort ==> step == RunnerStep::Wake && final(self).ctx.state
                == ActorState::Aborted && final(self).same_but_state(*old(self)),
            acting != ActingState::Stop && acting != ActingState::Abort ==> step == old(self).round_start() && *final(self) == *old(self),
            step is PullMessage || step is PollTask ==> final(self).bloc@.len() == 0,
    {
        match acting {
            ActingState::Stop => {
                self.ctx.state = ActorState::Stopping;
                RunnerStep::Wake
            },
            ActingState::Abort => {
                self.ctx.state = ActorState::Aborted;
                RunnerStep::Wake
            },
            _ => self.next_round_step(),
        }
    }

    /// Where a round starts over: the most recent blocker, else a message.
    fn next_round_step(&self) -> (step: RunnerStep)
        ensures
            step == self.round_start(),
    {
        if self.is_blocked() {
            RunnerStep::PollBlocker
        } else {
            RunnerStep::PullMessage
        }
    }

    /// Where a round goes on at routine `i`.
    fn step_at(&self, i: usize) -> (step: RunnerStep)
        ensures
            step == self.round_at(i as int),
    {
        if self.is_blocked() {
            RunnerStep::PollBlocker
        } else if i < self.inner.len() {
            RunnerStep::PollTask(i)
        } else {
            RunnerStep::Finish
        }
    }

    /// The most recent blocker is complete: it is removed; unless the state
    /// changed meanwhile, new routines are taken and the round starts over.
    pub fn after_blocker_ready(&mut self) -> (step: RunnerStep)
        requires
            old(self).bloc@.len() > 0,
        ensures
            old(self).ctx.state != ActorState::Running ==> step == RunnerStep::Wake
                && final(self).bloc@ == old(self).bloc@.drop_last() && final(self).inner
                == old(self).inner && final(self).ctx == old(self).ctx && final(self).act == old(self).act,
            old(self).ctx.state == ActorState::Running ==> step == final(self).round_start()
                && exists|u: Self|
                u.bloc@ == old(self).bloc@.drop_last() && u.inner == old(self).inner && u.ctx
                    == old(self).ctx && u.act == old(self).act && final(self).updated_from(u),
            step is PullMessage || step is PollTask ==> final(self).bloc@.len() == 0,
    {
        self.bloc.pop();
        proof {
            assert(self.bloc@ =~= old(self).bloc@.drop_last());
        }
        if self.ctx.state != ActorState::Running {
            return RunnerStep::Wake;
        }
        let ghost u = *self;
        self.update();
        self.next_round_step()
    }

    /// A message was handed to the actor's `action`: unless the state
    /// changed meanwhile, new routines are taken; a new blocker starts the
    /// round over, else the routines are polled from the first.
    pub fn after_action(&mut self) -> (step: RunnerStep)
        ensures
            old(self).ctx.state != ActorState::Running ==> step == RunnerStep::Wake
                && *final(self) == *old(self),
            old(self).ctx.state == ActorState::Running ==> final(self).updated_from(*old(self))
                && step == final(self).round_at(0),
            step is PullMessage || step is PollTask ==> final(self).bloc@.len() == 0,
    {
        if self.ctx.state != ActorState::Running {
            return RunnerStep::Wake;
        }
        self.update();
        self.step_at(0)
    }

    /// No message was taken: a blocker starts the round over, else the
    /// routines are polled from the first.
    pub fn after_no_message(&self) -> (step: RunnerStep)
        ensures
            step == self.round_at(0),
            step is PullMessage || step is PollTask ==> self.bloc@.len() == 0,
    {
        self.step_at(0)
    }

    /// Routine `i` is complete: it is removed, the last routine taking its
    /// place; unless the state changed meanwhile, new routines are taken and
    /// the round goes on at the same position.
    pub fn after_task_ready(&mut self, i: usize) -> (step: RunnerStep)
        requires
            i < old(self).inner@.len(),
        ensures
            old(self).ctx.state != ActorState::Running ==> step == RunnerStep::Wake
                && final(self).inner@ == old(self).inner@.update(
                i as int,
                old(self).inner@.last(),
            ).drop_last() && final(self).bloc == old(self).bloc && final(self).ctx == old(self).ctx && final(self).act == old(self).act,
            old(self).ctx.state == ActorState::Running ==> step == final(self).round_at(i as int)
                && exists|u: Self|
                u.inner@ == old(self).inner@.update(i as int, old(self).inner@.last()).drop_last()
                    && u.bloc == old(self).bloc && u.ctx == old(self).ctx && u.act == old(self).act && final(self).updated_from(u),
            step is PullMessage || step is PollTask ==> final(self).bloc@.len() == 0,
            step matches RunnerStep::PollTask(k) ==> k < final(self).inner@.len(),
    {
        self.inner.swap_remove(i);
        if self.ctx.state != ActorState::Running {
            return RunnerStep::Wake;
        }
        let ghost u = *self;
        self.update();
        self.step_at(i)
    }

    /// Routine `i` is not complete yet: unless the state changed meanwhile,
    /// new routines are taken; a new blocker moves routine `i` to the end, if
    /// it is still there, and starts the round over, else the round goes on
    /// at the next routine.
    pub fn after_task_pending(&mut self, i: usize) -> (step: RunnerStep)
        requires
            i < old(self).inner@.len(),
        ensures
            old(self).ctx.state != ActorState::Running ==> step == RunnerStep::Wake
                && *final(self) == *old(self),
            old(self).ctx.state == ActorState::Running && old(self).ctx.bloc@.len() == 0
                ==> final(self).updated_from(*old(self)) && step == final(self).round_at(
                i + 1,
            ),
            old(self).ctx.state == ActorState::Running && old(self).ctx.bloc@.len() > 0
                ==> step == RunnerStep::PollBlocker && final(self).updated_moving(
                *old(self),
                i as int,
            ),
            step is PullMessage || step is PollTask ==> final(self).bloc@.len() == 0,
            step matches RunnerStep::PollTask(k) ==> k < final(self).inner@.len(),
    {
        let count = self.inner.len();
        assert(i < count);
        let next = i + 1;
        if self.ctx.state != ActorState::Running {
            return RunnerStep::Wake;
        }
        if self.update() {
            if self.is_blocked() && !self.to_stop() {
                let ghost before = self.inner@;
                if next < self.inner.len() {
                    let current = self.inner.swap_remove(i);
                    self.inner.push(current);
                    proof {
                        assert(self.inner@ =~= swap_with_last(before, i as int));
                    }
                }
                return RunnerStep::PollBlocker;
            }
        }
        self.step_at(next)
    }

    /// The end of a round: an actor that is no longer alive is stopped.
    pub fn finish_round(&mut self) -> (step: RunnerStep)
        requires
            old(self).ctx.wf(),
        ensures
            step == RunnerStep::Idle,
            final(self).same_but_state(*old(self)),
            final(self).ctx.state == old(self).ctx.state || final(self).ctx.state
                == ActorState::Stopped,
            old(self).ctx.state != ActorState::Stopped && (old(self).ctx.state
                == ActorState::Created || old(self).inner@.len() > 0 || old(self).bloc@.len() > 0)
                ==> *final(self) == *old(self),
    {
        if !self.is_alive() {
            self.ctx.state = ActorState::Stopped;
        }
        RunnerStep::Idle
    }

    /// Poll of a stopping actor, after its `state` hook: `Abort` aborts it,
    /// `Resume` runs it again, anything else stops it.
    pub fn on_stopping(&mut self, acting: ActingState) -> (step: RunnerStep)
        ensures
            step == RunnerStep::Wake,
            final(self).same_but_state(*old(self)),
            final(self).ctx.state == (match acting {
                ActingState::Abort => ActorState::Aborted,
                ActingState::Resume => ActorState::Running,
                _ => ActorState::Stopped,
            }),
    {
        self.ctx.state = match acting {
            ActingState::Abort => ActorState::Aborted,
            ActingState::Resume => ActorState::Running,
            _ => ActorState::Stopped,
        };
        RunnerStep::Wake
    }

    /// After the `stopped` or `aborted` hook of a poll that began in
    /// `entered`: the actor closes, unless its state changed meanwhile.
    pub fn after_final_hook(&self, entered: ActorState) -> (step: RunnerStep)
        requires
            entered == ActorState::Stopped || entered == ActorState::Aborted,
        ensures
            step == (if self.ctx.state == entered {
                RunnerStep::Close
            } else {
                RunnerStep::Wake
            }),
    {
        if self.ctx.state != entered {
            RunnerStep::Wake
        } else {
            RunnerStep::Close
        }
    }
}

/// Aborting a routine that is there takes exactly that one routine out: the
/// last routine takes its place and the others stay where they are.
pub proof fn lemma_abort_takes_one<T>(s: Seq<Pair<T>>, h: Handle, i: int)
    requires
        is_first_with(s, h, i),
    ensures
        apply_aborts(s, seq![h]) == remove_first(s, h),
        remove_first(s, h).len() == s.len() - 1,
        forall|j: int| 0 <= j < s.len() - 1 && j != i ==> remove_first(s, h)[j] == s[j],
        i < s.len() - 1 ==> remove_first(s, h)[i] == s.last(),
{
    reveal_with_fuel(apply_aborts, 2);
    let k = choose|k: int| is_first_with(s, h, k);
    assert(k == i);
    assert(seq![h].drop_last() =~= Seq::<Handle>::empty());
}

/// Aborting a handle that names no routine leaves the routines as they are.
pub proof fn lemma_abort_unknown<T>(s: Seq<Pair<T>>, h: Handle)
    requires
        !holds_handle(s, h),
    ensures
        apply_aborts(s, seq![h]) == s,
{
    reveal_with_fuel(apply_aborts, 2);
    assert(seq![h].drop_last() =~= Seq::<Handle>::empty());
}

/// A poll of a live actor never completes the runner: every step that a
/// round goes on with is a blocker, a message, a routine or the end of the
/// round, never `Close`, so that only [`ContextRunner::after_final_hook`],
/// after the `stopped` or `aborted` hook left the state as it was, closes
/// the actor; and a blocked actor's round goes to its blocker first.
pub proof fn lemma_rounds_never_close<M, T, G>(r: ContextRunner<M, T, G>, i: int)
    ensures
        !(r.round_start() is Close),
        !(r.round_at(i) is Close),
        !(r.round_start() is Idle) && !(r.round_at(i) is Idle),
        r.bloc@.len() > 0 ==> r.round_start() == RunnerStep::PollBlocker && r.round_at(i)
            == RunnerStep::PollBlocker,
{
}

/// Every routine gets a handle of its own: a handle taken from the counter
/// names none of the routines whose handles were taken before it, as long as
/// the counter did not wrap.
pub proof fn lemma_fresh_handle_is_new<T>(s: Seq<Pair<T>>, next: usize, h: Handle)
    requires
        forall|i: int| 0 <= i < s.len() ==> s[i].handle.0 < next,
        h.0 == next,
    ensures
        !holds_handle(s, h),
{
}

/// Start an actor that was created in `ctx`: record it in the register
/// under the next actor id (its actor type is `Act`, its message type `N`),
/// give the context that id, and hand the context and a guard of the actor
/// to a runner.  The address of the actor, its id and the runner are
/// returned.
pub fn start<Act: 'static, N: 'static, M, T, A>(
    ctx: Context<M, T>,
    act: A,
    register: &mut Register<A>,
    ids: &mut HandleCounter,
) -> (r: (Addr<M>, usize, ContextRunner<M, T, ActorGuard<A>>))
    requires
        ctx.wf(),
    ensures
        r.1 == old(ids).next,
        final(ids).next == successor(old(ids).next),
        r.0.pack == ctx.pack,
        r.0.wf(),
        r.2.ctx == (Context { id: r.1, ..ctx }),
        r.2.inner@.len() == 0,
        r.2.bloc@.len() == 0,
        final(register).inner@.len() == old(register).inner@.len() + 1,
        final(register).inner@.drop_last() == old(register).inner@,
        final(register).inner@.last().id == r.1,
        *final(register).inner@.last().inner == act,
        !final(register).inner@.last().closed,
        r.2.act.inner == final(register).inner@.last().inner,
{
    let mut ctx = ctx;
    let reg = ActorRegister::new::<Act, N>(act, ids);
    let id = reg.id();
    ctx.set_id(id);
    let guard = register.push(reg);
    proof {
        assert(register.inner@.drop_last() =~= old(register).inner@);
    }
    let (addr, runner) = ctx.run(guard);
    (addr, id, runner)
}

} // verus!
