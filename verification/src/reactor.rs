//! The reactor: executor and manager of all actors.
//!
//! Orders (execute a future, abort one, exit) are queued first and applied
//! in the order they came, by [`Reactor::epoll`]; the reactor then polls
//! its futures one by one, removes those that are complete, and decides
//! from its poll budget whether it wakes itself again.  The futures are
//! opaque values of type `F`, polled by the caller.
use crate::actor::{HandleCounter, successor};
use crate::address::{add_wrapping, sub_wrapping};
use crate::queue::Queue;
use vstd::prelude::*;

verus! {

/// Whether some future reached a phase that takes an uncertain time, and
/// how many more self-wakes the reactor may make.
pub struct PollState {
    pub pending: bool,
    pub budget: usize,
}

impl PollState {
    /// No pending phase seen, and a budget of `3`.
    pub fn new() -> (s: Self)
        ensures
            !s.pending,
            s.budget == 3,
    {
        PollState { pending: false, budget: 3 }
    }
}

/// One of the calls that change a [`PollState`].
pub enum PollOp {
    /// [`pending_polled`]
    MarkPending,
    /// [`inc_poll_budget`] with its `delta`
    IncBudget(usize),
    /// [`dec_poll_budget`] with its `delta`
    DecBudget(usize),
    /// [`reset_poll_pending`]
    ResetPending,
    /// [`reset_poll_budget`]
    ResetBudget,
}

/// The poll state after one call.
pub open spec fn poll_step(s: PollState, op: PollOp) -> PollState {
    match op {
        PollOp::MarkPending => PollState { pending: true, ..s },
        PollOp::IncBudget(d) => PollState { budget: add_wrapping(s.budget, d), ..s },
        PollOp::DecBudget(d) => PollState { budget: sub_wrapping(s.budget, d), ..s },
        PollOp::ResetPending => PollState { pending: false, ..s },
        PollOp::ResetBudget => PollState { budget: 3, ..s },
    }
}

/// The poll state after the calls `ops`, in order.
pub open spec fn poll_run(s: PollState, ops: Seq<PollOp>) -> PollState
    decreases ops.len(),
{
    if ops.len() == 0 {
        s
    } else {
        poll_run(poll_step(s, ops[0]), ops.drop_first())
    }
}

/// A future reached a phase that takes an uncertain time.
pub fn pending_polled(st: &mut PollState)
    ensures
        *final(st) == poll_step(*old(st), PollOp::MarkPending),
        final(st).pending,
        final(st).budget == old(st).budget,
{
    st.pending = true;
}

/// Whether a future reached a phase that takes an uncertain time.
pub fn is_pending_polled(st: &PollState) -> (r: bool)
    ensures
        r == st.pending,
{
    st.pending
}

/// Allow `delta` more self-wakes.
pub fn inc_poll_budget(st: &mut PollState, delta: usize)
    ensures
        *final(st) == poll_step(*old(st), PollOp::IncBudget(delta)),
        final(st).budget == add_wrapping(old(st).budget, delta),
        final(st).pending == old(st).pending,
{
    st.budget = st.budget.wrapping_add(delta);
}

/// Spend `delta` self-wakes; the budget held before is returned.
pub fn dec_poll_budget(st: &mut PollState, delta: usize) -> (before: usize)
    ensures
        *final(st) == poll_step(*old(st), PollOp::DecBudget(delta)),
        before == old(st).budget,
        final(st).budget == sub_wrapping(old(st).budget, delta),
        final(st).pending == old(st).pending,
{
    let before = st.budget;
    st.budget = st.budget.wrapping_sub(delta);
    before
}

/// Forget the pending phase.
pub fn reset_poll_pending(st: &mut PollState)
    ensures
        *final(st) == poll_step(*old(st), PollOp::ResetPending),
        !final(st).pending,
        final(st).budget == old(st).budget,
{
    st.pending = false;
}

/// Back to the initial budget of `3`.
pub fn reset_poll_budget(st: &mut PollState)
    ensures
        *final(st) == poll_step(*old(st), PollOp::ResetBudget),
        final(st).budget == 3,
        final(st).pending == old(st).pending,
{
    st.budget = 3;
}

/// The handle of a future of the reactor.
#[derive(PartialEq, Eq, Structural, Clone, Copy, Debug, Default)]
pub struct ReactorHandle(pub usize);

impl ReactorHandle {
    /// Take the next handle from the counter.
    pub fn new(counter: &mut HandleCounter) -> (h: Self)
        ensures
            h.0 == old(counter).next,
            final(counter).next == successor(old(counter).next),
    {
        let h = ReactorHandle(counter.next);
        counter.next = counter.next.wrapping_add(1);
        h
    }
}

/// A future of the reactor with its handle.
pub struct ReactorPair<F> {
    pub inner: F,
    pub handle: ReactorHandle,
}

impl<F> ReactorPair<F> {
    /// The future under a fresh handle.
    pub fn new(fut: F, counter: &mut HandleCounter) -> (p: Self)
        ensures
            p.inner == fut,
            p.handle.0 == old(counter).next,
            final(counter).next == successor(old(counter).next),
    {
        ReactorPair { inner: fut, handle: ReactorHandle::new(counter) }
    }
}

/// Orders that the reactor executes.
pub enum ReactingOrder<F> {
    /// exit the program with this code
    Exit(i32),
    /// abort the future with this handle
    Abort(ReactorHandle),
    /// run this future
    Execute(ReactorPair<F>),
}

/// `i` is the first position in `s` of a future with handle `h`.
pub open spec fn is_first_pair<F>(s: Seq<ReactorPair<F>>, h: ReactorHandle, i: int) -> bool {
    &&& 0 <= i < s.len()
    &&& s[i].handle == h
    &&& forall|j: int| 0 <= j < i ==> s[j].handle != h
}

/// The futures `s` once the first with handle `h`, if any, is removed by
/// moving the last future into its place.
pub open spec fn remove_first_pair<F>(s: Seq<ReactorPair<F>>, h: ReactorHandle) -> Seq<
    ReactorPair<F>,
> {
    if exists|i: int| is_first_pair(s, h, i) {
        let i = choose|i: int| is_first_pair(s, h, i);
        s.update(i, s.last()).drop_last()
    } else {
        s
    }
}

/// The futures, the exit flag and the exit code after one order.
pub open spec fn apply_order<F>(
    st: (Seq<ReactorPair<F>>, bool, isize),
    order: ReactingOrder<F>,
) -> (Seq<ReactorPair<F>>, bool, isize) {
    match order {
        ReactingOrder::Abort(h) => (remove_first_pair(st.0, h), st.1, st.2),
        ReactingOrder::Execute(p) => (st.0.push(p), st.1, st.2),
        ReactingOrder::Exit(code) => (st.0, true, code as isize),
    }
}

/// The futures, the exit flag and the exit code after the orders, applied
/// in the order they came.
pub open spec fn apply_orders<F>(
    st: (Seq<ReactorPair<F>>, bool, isize),
    orders: Seq<ReactingOrder<F>>,
) -> (Seq<ReactorPair<F>>, bool, isize)
    decreases orders.len(),
{
    if orders.len() == 0 {
        st
    } else {
        apply_orders(apply_order(st, orders[0]), orders.drop_first())
    }
}

/// Remove the first future with handle `h`, moving the last future into its
/// place; the result tells whether one was found.
fn remove_pair<F>(v: &mut Vec<ReactorPair<F>>, h: ReactorHandle) -> (found: bool)
    ensures
        found == exists|i: int| is_first_pair(old(v)@, h, i),
        final(v)@ == remove_first_pair(old(v)@, h),
{
    let mut i: usize = 0;
    while i < v.len()
        invariant
            i <= v@.len(),
            *v == *old(v),
            forall|j: int| 0 <= j < i ==> v@[j].handle != h,
        decreases v@.len() - i,
    {
        if v[i].handle == h {
            proof {
                assert(is_first_pair(v@, h, i as int));
                let k = choose|k: int| is_first_pair(v@, h, k);
                assert(k == i as int);
            }
            v.swap_remove(i);
            return true;
        }
        i = i + 1;
    }
    assert(!exists|k: int| is_first_pair(v@, h, k));
    false
}

/// What the caller does after a decision of the reactor.
#[derive(PartialEq, Eq, Structural, Clone, Copy, Debug)]
pub enum ReactorStep {
    /// poll the future at this position
    PollPair(usize),
    /// the round is over: [`Reactor::finish`]
    Finish,
}

/// How a round of the reactor ends.
#[derive(PartialEq, Eq, Structural, Clone, Copy, Debug)]
pub enum ReactorOutcome {
    /// every future is complete: return `Ready`
    Done,
    /// wake the reactor's task and return `Pending`
    WakePending,
    /// the budget is spent: return `Pending` without waking
    Hang,
}

/// The reactor: its futures, its queue of orders, whether an exit was
/// ordered and with which code, and the source of its handles.
pub struct Reactor<F> {
    pub inner: Vec<ReactorPair<F>>,
    pub cache: Queue<ReactingOrder<F>>,
    pub exit: bool,
    pub exit_code: isize,
    pub handles: HandleCounter,
}

impl<F> Reactor<F> {
    /// The futures, the exit flag and the exit code.
    pub open spec fn status(self) -> (Seq<ReactorPair<F>>, bool, isize) {
        (self.inner@, self.exit, self.exit_code)
    }

    /// A reactor with no future, no order and no exit.
    pub fn new() -> (r: Self)
        ensures
            r.inner@.len() == 0,
            r.cache@.len() == 0,
            !r.exit,
            r.exit_code == 0,
            r.handles.next == 1,
    {
        Reactor {
            inner: Vec::new(),
            cache: Queue::new_null(),
            exit: false,
            exit_code: 0,
            handles: HandleCounter::new(),
        }
    }

    /// Order the reactor to run a future.
    pub fn push(&mut self, future: ReactorPair<F>)
        ensures
            final(self).cache@ == old(self).cache@.push(ReactingOrder::Execute(future)),
            final(self).status() == old(self).status(),
            final(self).handles == old(self).handles,
    {
        self.cache.assume_init();
        self.cache.push(ReactingOrder::Execute(future));
    }

    /// Queue an order for the reactor.
    pub fn execute(&mut self, order: ReactingOrder<F>)
        ensures
            final(self).cache@ == old(self).cache@.push(order),
            final(self).status() == old(self).status(),
            final(self).handles == old(self).handles,
    {
        self.cache.assume_init();
        self.cache.push(order);
    }

    /// The number of futures being polled.
    pub fn len(&self) -> (n: usize)
        ensures
            n == self.inner@.len(),
    {
        self.inner.len()
    }

    /// Apply every queued order, in the order they came: `Abort` removes the
    /// first future with the handle, `Execute` adds the future, `Exit`
    /// records the exit and its code.
    pub fn epoll(&mut self)
        ensures
            final(self).status() == apply_orders(old(self).status(), old(self).cache@),
            final(self).cache@.len() == 0,
            final(self).handles == old(self).handles,
            forall|p: ReactorPair<F>|
                old(self).inner@.contains(p) && !aborts_handle(old(self).cache@, p.handle)
                    ==> #[trigger] final(self).inner@.contains(p),
    {
        let ghost all = self.cache@;
        let ghost start = self.status();
        while self.cache.len() > 0
            invariant
                apply_orders(self.status(), self.cache@) == apply_orders(start, all),
                self.handles == old(self).handles,
            decreases self.cache@.len(),
        {
            let ghost before = self.status();
            let ghost pending = self.cache@;
            let order = self.cache.pop().unwrap();
            match order {
                ReactingOrder::Abort(handle) => {
                    remove_pair(&mut self.inner, handle);
                },
                ReactingOrder::Execute(future) => self.inner.push(future),
                ReactingOrder::Exit(code) => {
                    self.exit = true;
                    self.exit_code = code as isize;
                },
            }
            proof {
                assert(self.status() == apply_order(before, pending[0]));
            }
        }
        proof {
            assert(self.status() == apply_orders(start, all));
            assert forall|p: ReactorPair<F>|
                old(self).inner@.contains(p) && !aborts_handle(all, p.handle)
                    implies #[trigger] self.inner@.contains(p) by {
                lemma_orders_keep(start, all, p);
            }
        }
    }

    /// Where a round is at position `i`: once an exit is ordered every
    /// future is dropped and the round ends; past the last future it ends
    /// too.
    pub fn step_at(&mut self, i: usize) -> (step: ReactorStep)
        ensures
            old(self).exit && i < old(self).inner@.len() ==> step == ReactorStep::Finish
                && final(self).inner@.len() == 0,
            !(old(self).exit && i < old(self).inner@.len()) ==> final(self).inner == old(self).inner,
            i >= old(self).inner@.len() ==> step == ReactorStep::Finish,
            !old(self).exit && i < old(self).inner@.len() ==> step == ReactorStep::PollPair(i),
            final(self).cache == old(self).cache,
            final(self).exit == old(self).exit,
            final(self).exit_code == old(self).exit_code,
            final(self).handles == old(self).handles,
    {
        if i < self.inner.len() {
            if self.exit {
                self.inner.clear();
                return ReactorStep::Finish;
            }
            ReactorStep::PollPair(i)
        } else {
            ReactorStep::Finish
        }
    }

    /// Begin a round: apply the queued orders, then start at the first
    /// future.
    pub fn begin_round(&mut self) -> (step: ReactorStep)
        ensures
            final(self).cache@.len() == 0,
            final(self).handles == old(self).handles,
            step matches ReactorStep::PollPair(k) ==> k == 0 && final(self).inner@.len() > 0
                && !final(self).exit,
            ({
                let st = apply_orders(old(self).status(), old(self).cache@);
                &&& final(self).exit == st.1
                &&& final(self).exit_code == st.2
                &&& (st.1 && st.0.len() > 0 ==> final(self).inner@.len() == 0 && step
                    == ReactorStep::Finish)
                &&& (!(st.1 && st.0.len() > 0) ==> final(self).inner@ == st.0)
                &&& (!st.1 && st.0.len() > 0 ==> step == ReactorStep::PollPair(0))
            }),
    {
        self.epoll();
        self.step_at(0)
    }

    /// The future at position `i` was polled: a complete one is removed,
    /// the last future taking its place, and the round stays at `i`; else it
    /// goes on at `i + 1`.  Queued orders are applied in between.
    pub fn after_pair(&mut self, i: usize, ready: bool) -> (step: ReactorStep)
        requires
            i < old(self).inner@.len(),
        ensures
            final(self).cache@.len() == 0,
            final(self).handles == old(self).handles,
            step matches ReactorStep::PollPair(k) ==> k < final(self).inner@.len()
                && !final(self).exit,
            ({
                let kept = if ready {
                    old(self).inner@.update(i as int, old(self).inner@.last()).drop_last()
                } else {
                    old(self).inner@
                };
                let next = if ready {
                    i as int
                } else {
                    i + 1
                };
                let st = apply_orders((kept, old(self).exit, old(self).exit_code), old(self).cache@);
                &&& final(self).exit == st.1
                &&& final(self).exit_code == st.2
                &&& (st.1 && next < st.0.len() ==> final(self).inner@.len() == 0 && step
                    == ReactorStep::Finish)
                &&& (!(st.1 && next < st.0.len()) ==> final(self).inner@ == st.0)
                &&& (!st.1 && next < st.0.len() ==> step == ReactorStep::PollPair(next as usize))
                &&& (next >= st.0.len() ==> step == ReactorStep::Finish)
            }),
    {
        let count = self.inner.len();
        assert(i < count);
        let next = if ready {
            self.inner.swap_remove(i);
            i
        } else {
            i + 1
        };
        self.epoll();
        self.step_at(next)
    }

    /// The end of a round: with no future left the reactor is done and the
    /// poll state is reset; otherwise one self-wake is spent, and the
    /// reactor wakes itself while the budget held before was not spent.
    pub fn finish(&mut self, st: &mut PollState) -> (out: ReactorOutcome)
        ensures
            final(self).inner == old(self).inner,
            final(self).cache == old(self).cache,
            old(self).inner@.len() == 0 ==> out == ReactorOutcome::Done && !final(st).pending
                && final(st).budget == 3,
            old(self).inner@.len() > 0 ==> final(st).pending == old(st).pending && final(st).budget == sub_wrapping(old(st).budget, 1) && out == (if old(st).budget > 0 {
                ReactorOutcome::WakePending
            } else {
                ReactorOutcome::Hang
            }),
    {
        if self.inner.is_empty() {
            reset_poll_pending(st);
            reset_poll_budget(st);
            return ReactorOutcome::Done;
        }
        let budget = dec_poll_budget(st, 1);
        if budget > 0 {
            ReactorOutcome::WakePending
        } else {
            ReactorOutcome::Hang
        }
    }
}

/// An `Execute` order adds its future at the end; an `Abort` order for a
/// future that is there takes exactly that one out, the last future taking
/// its place; an `Exit` order keeps the futures and records the code.
pub proof fn lemma_orders<F>(
    st: (Seq<ReactorPair<F>>, bool, isize),
    p: ReactorPair<F>,
    h: ReactorHandle,
    i: int,
    code: i32,
)
    requires
        is_first_pair(st.0, h, i),
    ensures
        apply_orders(st, seq![ReactingOrder::Execute(p)]) == (st.0.push(p), st.1, st.2),
        apply_orders(st, seq![ReactingOrder::Abort(h)]).0 == st.0.update(i, st.0.last()).drop_last(),
        apply_orders(st, seq![ReactingOrder::Abort(h)]).0.len() == st.0.len() - 1,
        apply_orders(st, seq![ReactingOrder::<F>::Exit(code)]) == (st.0, true, code as isize),
{
    reveal_with_fuel(apply_orders, 2);
    let k = choose|k: int| is_first_pair(st.0, h, k);
    assert(k == i);
    assert(seq![ReactingOrder::Execute(p)].drop_first() =~= Seq::<ReactingOrder<F>>::empty());
    assert(seq![ReactingOrder::<F>::Abort(h)].drop_first() =~= Seq::<ReactingOrder<F>>::empty());
    assert(seq![ReactingOrder::<F>::Exit(code)].drop_first() =~= Seq::<ReactingOrder<F>>::empty());
}

/// Orders queued one after another are applied in that order.
pub proof fn lemma_orders_in_sequence<F>(
    st: (Seq<ReactorPair<F>>, bool, isize),
    first: Seq<ReactingOrder<F>>,
    then: Seq<ReactingOrder<F>>,
)
    ensures
        apply_orders(st, first + then) == apply_orders(apply_orders(st, first), then),
    decreases first.len(),
{
    if first.len() > 0 {
        assert((first + then).drop_first() =~= first.drop_first() + then);
        lemma_orders_in_sequence(apply_order(st, first[0]), first.drop_first(), then);
    } else {
        assert(first + then =~= then);
    }
}

/// Once a future is marked as having reached a phase of uncertain time,
/// the mark stays through every later change of the poll state until it is
/// reset; marking leaves the budget as it was.
pub proof fn lemma_pending_stays(s: PollState, ops: Seq<PollOp>)
    requires
        s.pending,
        forall|i: int| 0 <= i < ops.len() ==> !(#[trigger] ops[i] is ResetPending),
    ensures
        poll_run(s, ops).pending,
        poll_step(s, PollOp::MarkPending).budget == s.budget,
    decreases ops.len(),
{
    if ops.len() > 0 {
        let next = poll_step(s, ops[0]);
        assert(!(ops[0] is ResetPending));
        assert forall|i: int| 0 <= i < ops.drop_first().len() implies !(#[trigger] ops.drop_first()[i] is ResetPending) by {
            assert(ops.drop_first()[i] == ops[i + 1]);
        }
        lemma_pending_stays(next, ops.drop_first());
    }
}

/// Some order of `orders` aborts the future with handle `h`.
pub open spec fn aborts_handle<F>(orders: Seq<ReactingOrder<F>>, h: ReactorHandle) -> bool {
    exists|k: int| 0 <= k < orders.len() && orders[k] == ReactingOrder::<F>::Abort(h)
}

/// Aborting a handle that no future carries (one that already completed,
/// say) changes nothing: the futures, the exit flag and the exit code stay.
pub proof fn lemma_abort_unknown_pair<F>(st: (Seq<ReactorPair<F>>, bool, isize), h: ReactorHandle)
    requires
        forall|i: int| 0 <= i < st.0.len() ==> st.0[i].handle != h,
    ensures
        apply_orders(st, seq![ReactingOrder::Abort(h)]) == st,
{
    reveal_with_fuel(apply_orders, 2);
    assert(seq![ReactingOrder::<F>::Abort(h)].drop_first() =~= Seq::<ReactingOrder<F>>::empty());
    assert(!exists|i: int| is_first_pair(st.0, h, i));
}

/// One order keeps every future whose handle it does not abort.
proof fn lemma_order_keeps<F>(
    st: (Seq<ReactorPair<F>>, bool, isize),
    order: ReactingOrder<F>,
    p: ReactorPair<F>,
)
    requires
        st.0.contains(p),
        order != ReactingOrder::<F>::Abort(p.handle),
    ensures
        apply_order(st, order).0.contains(p),
        apply_order(st, order).0.len() <= st.0.len() + 1,
{
    let j = choose|j: int| 0 <= j < st.0.len() && st.0[j] == p;
    match order {
        ReactingOrder::Abort(h) => {
            if exists|i: int| is_first_pair(st.0, h, i) {
                let i = choose|i: int| is_first_pair(st.0, h, i);
                let r = st.0.update(i, st.0.last()).drop_last();
                assert(h != p.handle);
                assert(j != i);
                if j == st.0.len() - 1 {
                    assert(r[i] == p);
                } else {
                    assert(r[j] == p);
                }
                assert(apply_order(st, order).0 == r);
            }
        },
        ReactingOrder::Execute(q) => {
            assert(st.0.push(q)[j] == p);
        },
        ReactingOrder::Exit(_) => {},
    }
}

/// Applying orders keeps every future whose handle none of them aborts:
/// no future leaves but by an `Abort` of its own handle.
pub proof fn lemma_orders_keep<F>(
    st: (Seq<ReactorPair<F>>, bool, isize),
    orders: Seq<ReactingOrder<F>>,
    p: ReactorPair<F>,
)
    requires
        st.0.contains(p),
        !aborts_handle(orders, p.handle),
    ensures
        apply_orders(st, orders).0.contains(p),
    decreases orders.len(),
{
    if orders.len() > 0 {
        assert(orders[0] != ReactingOrder::<F>::Abort(p.handle));
        lemma_order_keeps(st, orders[0], p);
        assert(!aborts_handle(orders.drop_first(), p.handle)) by {
            if aborts_handle(orders.drop_first(), p.handle) {
                let k = choose|k: int|
                    0 <= k < orders.drop_first().len() && orders.drop_first()[k]
                        == ReactingOrder::<F>::Abort(p.handle);
                assert(orders[k + 1] == ReactingOrder::<F>::Abort(p.handle));
            }
        }
        lemma_orders_keep(apply_order(st, orders[0]), orders.drop_first(), p);
    }
}

} // verus!
