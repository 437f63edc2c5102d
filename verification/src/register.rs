//! The register of actors and their records.
//!
//! When an actor runs, a record of it is registered; records can be looked
//! up by id, and the record of an actor is removed once the actor is
//! closed and nothing but the register holds it any more.
use crate::actor::{HandleCounter, successor};
use crate::address::arc_clone;
use std::any::TypeId;
use std::sync::Arc;
use vstd::prelude::*;
use vstd::std_specs::iter::IteratorSpec;
use vstd::string::StringExecFns;

verus! {

/// The type identifier of std.
#[verifier::external_type_specification]
#[verifier::external_body]
pub struct ExTypeId(TypeId);

/// `TypeId::of` from std: the identifier of the type `T`.  What the
/// identifier is cannot be named here (it depends on the type alone, and a
/// name for it would be generic), so nothing is stated of it.
#[verifier::external_body]
fn type_id_of<T: 'static>() -> TypeId {
    TypeId::of::<T>()
}

/// `Arc::strong_count` from std: how many strong pointers share the
/// allocation.  It depends on pointers held elsewhere, so nothing is stated
/// of it.
#[verifier::external_body]
fn arc_strong_count<T>(a: &Arc<T>) -> usize {
    Arc::strong_count(a)
}

/// The character of a decimal digit.
pub open spec fn digit_char(d: nat) -> char {
    (d + 48) as char
}

/// The decimal digits of `n`, most significant first, without leading
/// zeros.
pub open spec fn decimal(n: nat) -> Seq<char>
    decreases n,
{
    if n < 10 {
        seq![digit_char(n)]
    } else {
        decimal(n / 10).push(digit_char(n % 10))
    }
}

/// The text of the decimal digit `d`.
fn digit_str(d: usize) -> (s: &'static str)
    requires
        d < 10,
    ensures
        s@ == seq![digit_char(d as nat)],
{
    match d {
        0 => {
            proof {
                reveal_strlit("0");
            }
            "0"
        },
        1 => {
            proof {
                reveal_strlit("1");
            }
            "1"
        },
        2 => {
            proof {
                reveal_strlit("2");
            }
            "2"
        },
        3 => {
            proof {
                reveal_strlit("3");
            }
            "3"
        },
        4 => {
            proof {
                reveal_strlit("4");
            }
            "4"
        },
        5 => {
            proof {
                reveal_strlit("5");
            }
            "5"
        },
        6 => {
            proof {
                reveal_strlit("6");
            }
            "6"
        },
        7 => {
            proof {
                reveal_strlit("7");
            }
            "7"
        },
        8 => {
            proof {
                reveal_strlit("8");
            }
            "8"
        },
        _ => {
            proof {
                reveal_strlit("9");
            }
            "9"
        },
    }
}

/// Append the decimal digits of `n` to `s`.
fn push_decimal(s: &mut String, n: usize)
    ensures
        final(s)@ == old(s)@ + decimal(n as nat),
    decreases n,
{
    if n >= 10 {
        push_decimal(s, n / 10);
    }
    s.append(digit_str(n % 10));
    proof {
        if n >= 10 {
            assert(decimal(n as nat) == decimal((n / 10) as nat).push(digit_char((n % 10) as nat)));
        }
    }
}

/// The text `prefix` followed by the decimal digits of `id`.
fn prefixed_decimal(prefix: &str, id: usize) -> (s: String)
    ensures
        s@ == prefix@ + decimal(id as nat),
{
    let mut s = String::from_str(prefix);
    push_decimal(&mut s, id);
    s
}

/// The record of a registered actor: its id, its name, the type ids of the
/// actor and of its messages, the shared actor itself, and whether it is
/// sealed for mutation or closed.
pub struct ActorRegister<A> {
    pub id: usize,
    pub name: String,
    pub type_id: TypeId,
    pub message_id: TypeId,
    pub inner: Arc<A>,
    pub sealed: bool,
    pub closed: bool,
}

/// A guard over a registered actor, sharing it with the register.
pub struct ActorGuard<A> {
    pub inner: Arc<A>,
}

impl<A> ActorGuard<A> {
    /// The guarded actor.
    pub fn actor(&self) -> (r: &A)
        ensures
            *r == *self.inner,
    {
        &*self.inner
    }
}

impl<A> ActorRegister<A> {
    /// A record for the actor `act`, of actor type `T` and message type `N`,
    /// under the next id of the counter and the name `Actor-{id}`; open and
    /// unsealed.
    pub fn new<T: 'static, N: 'static>(act: A, counter: &mut HandleCounter) -> (r: Self)
        ensures
            r.id == old(counter).next,
            final(counter).next == successor(old(counter).next),
            r.name@ == "Actor-"@ + decimal(r.id as nat),
            *r.inner == act,
            !r.sealed,
            !r.closed,
    {
        let id = counter.next;
        counter.next = counter.next.wrapping_add(1);
        ActorRegister {
            id,
            type_id: type_id_of::<T>(),
            message_id: type_id_of::<N>(),
            name: prefixed_decimal("Actor-", id),
            inner: Arc::new(act),
            sealed: false,
            closed: false,
        }
    }

    /// The unique id of the actor.
    pub fn id(&self) -> (id: usize)
        ensures
            id == self.id,
    {
        self.id
    }

    /// The type id of the actor.
    pub fn type_id(&self) -> (t: TypeId)
        ensures
            t == self.type_id,
    {
        self.type_id
    }

    /// The type id of the actor's messages.
    pub fn message_id(&self) -> (t: TypeId)
        ensures
            t == self.message_id,
    {
        self.message_id
    }

    /// The name of the actor.
    pub fn name(&self) -> (n: &str)
        ensures
            n@ == self.name@,
    {
        self.name.as_str()
    }

    /// Set the name of the actor.
    pub fn set_name(&mut self, name: String)
        ensures
            final(self).name == name,
            final(self).id == old(self).id,
            final(self).inner == old(self).inner,
            final(self).sealed == old(self).sealed,
            final(self).closed == old(self).closed,
    {
        self.name = name;
    }

    /// Whether the actor is closed.
    pub fn is_closed(&self) -> (r: bool)
        ensures
            r == self.closed,
    {
        self.closed
    }

    /// Mark the actor closed, or open again.
    pub fn set_closed(&mut self, state: bool)
        ensures
            *final(self) == (ActorRegister { closed: state, ..*old(self) }),
    {
        self.closed = state;
    }

    /// Whether the actor is sealed while it is mutated.
    pub fn is_sealed(&self) -> (r: bool)
        ensures
            r == self.sealed,
    {
        self.sealed
    }

    /// A guard that shares the registered actor.
    pub fn downcast_ref_cell(&self) -> (g: ActorGuard<A>)
        ensures
            g.inner == self.inner,
    {
        ActorGuard { inner: arc_clone(&self.inner) }
    }
}

/// A record may leave the register when its actor is closed and the
/// register holds the only pointer to it.
pub open spec fn removable<A>(r: ActorRegister<A>, count: usize) -> bool {
    r.closed && count == 1
}

/// Sweeping from position `i`, given the pointer count of each record: a
/// removable record is taken out, the last record taking its place, and
/// the sweep stays at `i`; otherwise it goes on at `i + 1`.  The result is
/// the records kept and the records taken out, in the order taken.
pub open spec fn sweep_from<A>(items: Seq<ActorRegister<A>>, counts: Seq<usize>, i: int) -> (
    Seq<ActorRegister<A>>,
    Seq<ActorRegister<A>>,
)
    decreases items.len() - i,
{
    if i < 0 || i >= items.len() || counts.len() != items.len() {
        (items, Seq::empty())
    } else if removable(items[i], counts[i]) {
        let rest = sweep_from(
            items.update(i, items.last()).drop_last(),
            counts.update(i, counts.last()).drop_last(),
            i,
        );
        (rest.0, seq![items[i]] + rest.1)
    } else {
        sweep_from(items, counts, i + 1)
    }
}

/// `i` is the first position of a record with id `id`.
pub open spec fn is_first_id<A>(s: Seq<ActorRegister<A>>, id: usize, i: int) -> bool {
    &&& 0 <= i < s.len()
    &&& s[i].id == id
    &&& forall|j: int| 0 <= j < i ==> s[j].id != id
}

/// The register of running actors.
pub struct Register<A> {
    pub inner: Vec<ActorRegister<A>>,
}

impl<A> Register<A> {
    /// An empty register.
    pub fn new() -> (r: Self)
        ensures
            r.inner@.len() == 0,
    {
        Register { inner: Vec::new() }
    }

    /// Register an actor's record; the guard returned shares the actor.
    pub fn push(&mut self, item: ActorRegister<A>) -> (g: ActorGuard<A>)
        ensures
            final(self).inner@ == old(self).inner@.push(item),
            g.inner == item.inner,
    {
        let data = item.downcast_ref_cell();
        self.inner.push(item);
        data
    }

    /// The first record with the id, if any.
    pub fn get(&self, id: usize) -> (r: Option<&ActorRegister<A>>)
        ensures
            r matches Some(reg) ==> exists|i: int|
                is_first_id(self.inner@, id, i) && *reg == self.inner@[i],
            r is None ==> forall|i: int| 0 <= i < self.inner@.len() ==> self.inner@[i].id != id,
    {
        let mut i: usize = 0;
        while i < self.inner.len()
            invariant
                i <= self.inner@.len(),
                forall|j: int| 0 <= j < i ==> self.inner@[j].id != id,
            decreases self.inner@.len() - i,
        {
            if self.inner[i].id == id {
                proof {
                    assert(is_first_id(self.inner@, id, i as int));
                }
                return Some(&self.inner[i]);
            }
            i = i + 1;
        }
        None
    }

    /// Iterate over the records.
    pub fn iter(&self) -> (it: std::slice::Iter<'_, ActorRegister<A>>)
        ensures
            it.remaining() == self.inner@.as_ref(),
    {
        broadcast use vstd::std_specs::slice::axiom_spec_slice_iter;

        self.inner.as_slice().iter()
    }

    /// Mark the first record with the id closed, or open again; the result
    /// tells whether there was one.
    pub fn set_closed(&mut self, id: usize, state: bool) -> (found: bool)
        ensures
            found == exists|i: int| is_first_id(old(self).inner@, id, i),
            found ==> exists|i: int|
                is_first_id(old(self).inner@, id, i) && final(self).inner@ == old(
                    self,
                ).inner@.update(i, ActorRegister { closed: state, ..old(self).inner@[i] }),
            !found ==> final(self).inner@ == old(self).inner@,
    {
        let mut i: usize = 0;
        while i < self.inner.len()
            invariant
                i <= self.inner@.len(),
                self.inner@ == old(self).inner@,
                forall|j: int| 0 <= j < i ==> self.inner@[j].id != id,
            decreases self.inner@.len() - i,
        {
            if self.inner[i].id == id {
                proof {
                    assert(is_first_id(self.inner@, id, i as int));
                }
                let mut item = self.inner.remove(i);
                item.set_closed(state);
                self.inner.insert(i, item);
                proof {
                    assert(self.inner@ =~= old(self).inner@.update(
                        i as int,
                        ActorRegister { closed: state, ..old(self).inner@[i as int] },
                    ));
                }
                return true;
            }
            i = i + 1;
        }
        false
    }

    /// Take out the records that may leave, given the pointer count of each
    /// record, in order: see [`sweep_from`].
    pub fn sweep(&mut self, counts: Vec<usize>) -> (removed: Vec<ActorRegister<A>>)
        requires
            counts@.len() == old(self).inner@.len(),
        ensures
            (final(self).inner@, removed@) == sweep_from(old(self).inner@, counts@, 0),
    {
        let mut counts = counts;
        let mut items: Vec<ActorRegister<A>> = Vec::new();
        let mut index: usize = 0;
        let ghost goal = sweep_from(self.inner@, counts@, 0);
        while index < self.inner.len()
            invariant
                counts@.len() == self.inner@.len(),
                index <= self.inner@.len(),
                goal == ({
                    let rest = sweep_from(self.inner@, counts@, index as int);
                    (rest.0, items@ + rest.1)
                }),
            decreases self.inner@.len() - index,
        {
            if self.inner[index].closed && counts[index] == 1 {
                let ghost before = self.inner@;
                let ghost before_counts = counts@;
                let item = self.inner.swap_remove(index);
                counts.swap_remove(index);
                proof {
                    let rest = sweep_from(self.inner@, counts@, index as int);
                    assert(sweep_from(before, before_counts, index as int) == (
                        rest.0,
                        seq![item] + rest.1,
                    ));
                    assert(items@.push(item) + rest.1 =~= items@ + (seq![item] + rest.1));
                }
                items.push(item);
                continue ;
            }
            index = index + 1;
        }
        proof {
            assert(items@ + Seq::<ActorRegister<A>>::empty() =~= items@);
        }
        items
    }

    /// Take out the records whose actor is closed and that nothing but the
    /// register holds any more, in the order they are found: a sweep over
    /// the number of pointers to each record's actor, as read during the
    /// call (other holders may come and go, so those numbers are not fixed
    /// by the register alone).
    pub fn update(&mut self) -> (removed: Vec<ActorRegister<A>>)
        ensures
            forall|i: int| 0 <= i < removed@.len() ==> (#[trigger] removed@[i]).closed,
            removed@.len() + final(self).inner@.len() == old(self).inner@.len(),
            exists|counts: Seq<usize>|
                counts.len() == old(self).inner@.len() && (final(self).inner@, removed@)
                    == #[trigger] sweep_from(old(self).inner@, counts, 0),
    {
        let mut counts: Vec<usize> = Vec::new();
        let mut i: usize = 0;
        while i < self.inner.len()
            invariant
                i <= self.inner@.len(),
                counts@.len() == i,
            decreases self.inner@.len() - i,
        {
            counts.push(arc_strong_count(&self.inner[i].inner));
            i = i + 1;
        }
        let ghost before = self.inner@;
        let ghost cs = counts@;
        let removed = self.sweep(counts);
        proof {
            lemma_sweep_removes_closed(before, cs, 0);
            assert((self.inner@, removed@) == sweep_from(before, cs, 0));
        }
        removed
    }

    /// The number of registered actors.
    pub fn len(&self) -> (n: usize)
        ensures
            n == self.inner@.len(),
    {
        self.inner.len()
    }

    /// The records.
    pub fn as_ref(&self) -> (v: &Vec<ActorRegister<A>>)
        ensures
            v@ == self.inner@,
    {
        &self.inner
    }
}

/// A sweep removes only closed records, and every record is either kept or
/// removed.
pub proof fn lemma_sweep_removes_closed<A>(
    items: Seq<ActorRegister<A>>,
    counts: Seq<usize>,
    i: int,
)
    requires
        counts.len() == items.len(),
        0 <= i,
    ensures
        forall|k: int|
            0 <= k < sweep_from(items, counts, i).1.len() ==> (#[trigger] sweep_from(
                items,
                counts,
                i,
            ).1[k]).closed,
        sweep_from(items, counts, i).0.len() + sweep_from(items, counts, i).1.len()
            == items.len(),
    decreases items.len() - i,
{
    if i < items.len() {
        if removable(items[i], counts[i]) {
            let items2 = items.update(i, items.last()).drop_last();
            let counts2 = counts.update(i, counts.last()).drop_last();
            lemma_sweep_removes_closed(items2, counts2, i);
            let rest = sweep_from(items2, counts2, i);
            assert forall|k: int| 0 <= k < sweep_from(items, counts, i).1.len() implies (
            #[trigger] sweep_from(items, counts, i).1[k]).closed by {
                if k > 0 {
                    assert(sweep_from(items, counts, i).1[k] == rest.1[k - 1]);
                }
            }
        } else {
            lemma_sweep_removes_closed(items, counts, i + 1);
        }
    }
}

/// A record registered under an id that no other record has is the one
/// found by that id.
pub proof fn lemma_push_then_get<A>(s: Seq<ActorRegister<A>>, item: ActorRegister<A>)
    requires
        forall|i: int| 0 <= i < s.len() ==> s[i].id != item.id,
    ensures
        is_first_id(s.push(item), item.id, s.len() as int),
        forall|i: int| is_first_id(s.push(item), item.id, i) ==> i == s.len(),
{
}

} // verus!
