//! Actor life cycle states, handles and the future adapter.
use vstd::prelude::*;

verus! {

/// State of an actor during its life cycle.
#[derive(PartialEq, Eq, Structural, Clone, Copy, Debug)]
pub enum ActorState {
    Created,
    Started,
    Running,
    Aborted,
    Stopping,
    Stopped,
}

/// Indicator returned by an actor to direct its own execution:
/// - `Continue`: go on as usual
/// - `Abort`: leave execution at once
/// - `Stop`: step into `Stopping`; unless `Resume` follows, the actor stops
/// - `Resume`: bring the actor back from `Stopping` to `Running`
#[derive(PartialEq, Eq, Structural, Clone, Copy, Debug)]
pub enum ActingState {
    Continue,
    Abort,
    Resume,
    Stop,
}

impl ActorState {
    /// The actor counts as running while it runs or is stopping.
    pub fn is_running(&self) -> (r: bool)
        ensures
            r == (*self == ActorState::Running || *self == ActorState::Stopping),
    {
        *self == ActorState::Running || *self == ActorState::Stopping
    }

    /// The actor is stopping or already stopped.
    pub fn is_stopping(&self) -> (r: bool)
        ensures
            r == (*self == ActorState::Stopping || *self == ActorState::Stopped),
    {
        *self == ActorState::Stopping || *self == ActorState::Stopped
    }

    /// Every state but `Created` counts as started.
    pub fn is_started(&self) -> (r: bool)
        ensures
            r == (*self != ActorState::Created),
    {
        *self != ActorState::Created
    }
}

/// The source of fresh handles: it hands out `1, 2, 3, ...`, wrapping
/// around after `usize::MAX` as an atomic counter does.  Every context and
/// routine constructor takes its handle from a counter passed in, so one
/// counter shared by all of them keeps every handle unique.
pub struct HandleCounter {
    pub next: usize,
}

/// The value that follows `n` in the counter.
pub open spec fn successor(n: usize) -> usize {
    if n == usize::MAX {
        0
    } else {
        (n + 1) as usize
    }
}

impl HandleCounter {
    /// A counter whose first handle is `1`.
    pub fn new() -> (c: Self)
        ensures
            c.next == 1,
    {
        HandleCounter { next: 1 }
    }
}

/// A unique identity of a spawned routine.
///
/// A handle whose inner id is `0` is not valid: the routine it names was
/// not spawned.
#[derive(PartialEq, Eq, Structural, Clone, Copy, Debug, Default, Hash)]
pub struct Handle(pub usize);

impl Handle {
    /// Take the next handle from the counter.
    pub fn new(counter: &mut HandleCounter) -> (h: Self)
        ensures
            h.0 == old(counter).next,
            final(counter).next == successor(old(counter).next),
    {
        let h = Handle(counter.next);
        counter.next = counter.next.wrapping_add(1);
        h
    }

    /// The id inside the handle.
    pub fn inner(self) -> (r: usize)
        ensures
            r == self.0,
    {
        self.0
    }

    /// A handle is valid unless its id is `0`.
    pub fn is_valid(&self) -> (r: bool)
        ensures
            r == (self.0 != 0),
    {
        self.0 != 0
    }
}

/// Adapter that lets an ordinary future run as a routine of an actor.
pub struct Localizer<F> {
    pub future: F,
}

impl<F> Localizer<F> {
    /// Wrap the future.
    pub fn new(future: F) -> (l: Self)
        ensures
            l.future == future,
    {
        Localizer { future }
    }
}


/// Outcome of one attempt to make progress.
#[derive(Debug)]
pub enum Poll<T> {
    /// the attempt produced its value
    Ready(T),
    /// no value yet; try again later
    Pending,
}

/// Handles taken one after another from a counter are distinct and valid
/// until the counter wraps: the one taken after `n` is `n + 1`.
pub proof fn lemma_fresh_handles(n: usize)
    requires
        1 <= n < usize::MAX,
    ensures
        successor(n) == n + 1,
        successor(n) != 0,
        Handle(n) != Handle(successor(n)),
{
}

/// The value a counter that held `start` hands out at its `i`-th draw,
/// counting from `0`.
pub open spec fn nth_draw(start: usize, i: nat) -> usize
    decreases i,
{
    if i == 0 {
        start
    } else {
        successor(nth_draw(start, (i - 1) as nat))
    }
}

/// Handles drawn one after another from one counter, whoever draws them,
/// are valid and pairwise distinct as long as the counter does not wrap:
/// the `i`-th draw is `start + i`.
pub proof fn lemma_draws_distinct(start: usize, i: nat, j: nat)
    requires
        1 <= start,
        i < j,
        start + j <= usize::MAX,
    ensures
        nth_draw(start, i) == start + i,
        nth_draw(start, j) == start + j,
        Handle(nth_draw(start, i)) != Handle(nth_draw(start, j)),
        Handle(nth_draw(start, j)).0 != 0,
{
    lemma_draw_value(start, i);
    lemma_draw_value(start, j);
}

proof fn lemma_draw_value(start: usize, i: nat)
    requires
        start + i <= usize::MAX,
    ensures
        nth_draw(start, i) == start + i,
    decreases i,
{
    if i > 0 {
        lemma_draw_value(start, (i - 1) as nat);
    }
}

} // verus!
