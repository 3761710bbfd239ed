//! The shared bag of currently-idle actors.
//!
//! A `ClientPool` starts with the whole provisioned population and only ever
//! shrinks or recycles it: `take` removes one member chosen at random,
//! `put` inserts one back. The caller decides whether a taken actor comes
//! back; an actor that is not put back is gone for good.
//!
//! Concurrent callers share the pool behind one mutual-exclusion lock held
//! only across a single `take` or `put`; the lock itself lives with the task
//! runtime outside the library, which is why the operations here are plain
//! sequential functions.

use vstd::prelude::*;

use crate::rng;

verus! {

/// An order-irrelevant collection of idle actors. Its view is the sequence
/// of members in storage order; no contract depends on that order.
pub struct ClientPool<A> {
    items: Vec<A>,
}

impl<A> View for ClientPool<A> {
    type V = Seq<A>;

    closed spec fn view(&self) -> Seq<A> {
        self.items@
    }
}

impl<A> ClientPool<A> {
    /// An empty pool.
    pub fn new() -> (pool: Self)
        ensures
            pool@ == Seq::<A>::empty(),
    {
        ClientPool { items: Vec::new() }
    }

    /// Seed the pool with the whole provisioned population.
    pub fn from_vec(actors: Vec<A>) -> (pool: Self)
        ensures
            pool@ == actors@,
    {
        ClientPool { items: actors }
    }

    /// How many actors are currently idle.
    pub fn len(&self) -> (n: usize)
        ensures
            n == self@.len(),
    {
        self.items.len()
    }

    pub fn is_empty(&self) -> (b: bool)
        ensures
            b == (self@.len() == 0),
    {
        self.items.len() == 0
    }

    /// Remove and return the member at a caller-chosen position. This is the
    /// deterministic entry point: tests and reproducible runs inject the
    /// selection instead of drawing one.
    pub fn take_at(&mut self, i: usize) -> (actor: A)
        requires
            i < old(self)@.len(),
        ensures
            actor == old(self)@[i as int],
            final(self)@ == old(self)@.remove(i as int),
    {
        self.items.remove(i)
    }

    /// Remove and return one member selected at random, or `None` when the
    /// pool is empty. The critical section a caller must hold a lock for
    /// covers only this removal, never the use of the actor.
    pub fn take(&mut self) -> (r: Option<A>)
        ensures
            r is None <==> old(self)@.len() == 0,
            r is None ==> final(self)@ == old(self)@,
            forall|a: A|
                r == Some(a) ==> exists|i: int|
                    0 <= i < old(self)@.len() && a == old(self)@[i] && final(self)@ == old(
                        self,
                    )@.remove(i),
    {
        match rng::choose_index(self.items.len()) {
            Some(i) => Some(self.take_at(i)),
            None => None,
        }
    }

    /// Insert an actor back into the idle set.
    pub fn put(&mut self, actor: A)
        ensures
            final(self)@ == old(self)@.push(actor),
    {
        self.items.push(actor);
    }
}

} // verus!
