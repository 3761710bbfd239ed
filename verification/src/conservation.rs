//! The accounting of actors across a run.
//!
//! At any instant every actor the run owns is in exactly one place: idle in
//! the pool, held by exactly one worker, or permanently dropped by a
//! draining worker. The transitions below are the only ways a worker moves
//! an actor — they are the shapes of [`crate::pool::ClientPool::take`],
//! [`crate::pool::ClientPool::put`] and the draining branch of
//! [`crate::simulation::worker_poll`] — and the lemmas show that they keep
//! the accounting exact: the population is conserved, the live population
//! (pool plus held) never grows, and no actor is ever held by two workers
//! at once.

use vstd::prelude::*;

verus! {

/// Where every actor of a run lives at one instant. Actors and workers are
/// named by their ids.
pub struct RunState {
    /// The actors idle in the pool, in pool order.
    pub idle: Seq<u64>,
    /// One entry per worker currently holding an actor: (worker, actor).
    pub held: Seq<(u64, u64)>,
    /// The actors drained out of the run for good.
    pub dropped: Seq<u64>,
}

/// The actors currently held by some worker.
pub open spec fn held_actors(s: RunState) -> Seq<u64> {
    s.held.map_values(|p: (u64, u64)| p.1)
}

/// The workers currently holding an actor.
pub open spec fn held_workers(s: RunState) -> Seq<u64> {
    s.held.map_values(|p: (u64, u64)| p.0)
}

/// The actors that can still act: idle in the pool or held by a worker.
pub open spec fn live_count(s: RunState) -> int {
    s.idle.len() + s.held.len() as int
}

/// Every actor the run owns, dropped ones included.
pub open spec fn total_count(s: RunState) -> int {
    live_count(s) + s.dropped.len() as int
}

/// Well-formedness: every actor is in exactly one place, and appears there
/// exactly once; a worker holds at most one actor.
pub open spec fn wf(s: RunState) -> bool {
    &&& s.idle.no_duplicates()
    &&& held_actors(s).no_duplicates()
    &&& s.dropped.no_duplicates()
    &&& held_workers(s).no_duplicates()
    &&& s.idle.disjoint(held_actors(s))
    &&& s.idle.disjoint(s.dropped)
    &&& held_actors(s).disjoint(s.dropped)
}

/// A run starts with the provisioned population idle in the pool, nothing
/// held and nothing dropped.
pub open spec fn init(s: RunState, n: int) -> bool {
    &&& s.idle.len() == n
    &&& s.idle.no_duplicates()
    &&& s.held.len() == 0
    &&& s.dropped.len() == 0
}

/// Worker `w`, holding nothing, takes the idle actor at position `i`.
pub open spec fn take_step(s: RunState, s2: RunState, w: u64, i: int) -> bool {
    &&& 0 <= i < s.idle.len()
    &&& !held_workers(s).contains(w)
    &&& s2 == (RunState {
        idle: s.idle.remove(i),
        held: s.held.push((w, s.idle[i])),
        dropped: s.dropped,
    })
}

/// The worker of held entry `j` finished acting and puts its actor back.
pub open spec fn put_step(s: RunState, s2: RunState, j: int) -> bool {
    &&& 0 <= j < s.held.len()
    &&& s2 == (RunState {
        idle: s.idle.push(s.held[j].1),
        held: s.held.remove(j),
        dropped: s.dropped,
    })
}

/// The worker of held entry `j` saw an expired deadline while holding the
/// actor and drains it out of the run for good.
pub open spec fn drop_step(s: RunState, s2: RunState, j: int) -> bool {
    &&& 0 <= j < s.held.len()
    &&& s2 == (RunState {
        idle: s.idle,
        held: s.held.remove(j),
        dropped: s.dropped.push(s.held[j].1),
    })
}

/// Any single move of any worker.
pub open spec fn next(s: RunState, s2: RunState) -> bool {
    ||| exists|w: u64, i: int| take_step(s, s2, w, i)
    ||| exists|j: int| put_step(s, s2, j)
    ||| exists|j: int| drop_step(s, s2, j)
}

proof fn lemma_remove_no_duplicates<T>(s: Seq<T>, i: int)
    requires
        s.no_duplicates(),
        0 <= i < s.len(),
    ensures
        s.remove(i).no_duplicates(),
        forall|k: int| 0 <= k < i ==> s.remove(i)[k] == s[k],
        forall|k: int| i <= k < s.len() - 1 ==> s.remove(i)[k] == s[k + 1],
{
    s.remove_ensures(i);
    assert forall|k1: int, k2: int|
        0 <= k1 < s.remove(i).len() && 0 <= k2 < s.remove(i).len() && k1 != k2 implies s.remove(
        i,
    )[k1] != s.remove(i)[k2] by {
        let p1: int = if k1 < i {
            k1
        } else {
            k1 + 1
        };
        let p2: int = if k2 < i {
            k2
        } else {
            k2 + 1
        };
        assert(s.remove(i)[k1] == s[p1]);
        assert(s.remove(i)[k2] == s[p2]);
    }
}

/// A fresh run is well formed and owns exactly its `n` provisioned actors,
/// all of them live.
pub proof fn lemma_init_wf(s: RunState, n: int)
    requires
        init(s, n),
    ensures
        wf(s),
        total_count(s) == n,
        live_count(s) == n,
{
}

/// Taking moves one actor from the pool into exactly one worker's hands:
/// the population is conserved, the live population unchanged, and the
/// taken actor was nobody's before the move.
pub proof fn lemma_take_preserves(s: RunState, s2: RunState, w: u64, i: int)
    requires
        wf(s),
        take_step(s, s2, w, i),
    ensures
        wf(s2),
        total_count(s2) == total_count(s),
        live_count(s2) == live_count(s),
        forall|j: int| 0 <= j < s.held.len() ==> s.held[j].1 != s.idle[i],
{
    assert(held_actors(s2) =~= held_actors(s).push(s.idle[i]));
    assert(held_workers(s2) =~= held_workers(s).push(w));
    lemma_remove_no_duplicates(s.idle, i);
    assert forall|j: int| 0 <= j < s.held.len() implies s.held[j].1 != s.idle[i] by {
        assert(held_actors(s)[j] == s.held[j].1);
    }
    assert forall|k1: int, k2: int|
        0 <= k1 < held_actors(s2).len() && 0 <= k2 < held_actors(s2).len() && k1
            != k2 implies held_actors(s2)[k1] != held_actors(s2)[k2] by {
        if k1 < held_actors(s).len() && k2 < held_actors(s).len() {
        } else if k1 < held_actors(s).len() {
            assert(held_actors(s2)[k2] == s.idle[i]);
        } else {
            assert(held_actors(s2)[k1] == s.idle[i]);
        }
    }
    assert forall|k1: int, k2: int|
        0 <= k1 < s2.idle.len() && 0 <= k2 < held_actors(s2).len() implies s2.idle[k1]
        != held_actors(s2)[k2] by {
        let p1: int = if k1 < i {
            k1
        } else {
            k1 + 1
        };
        assert(s2.idle[k1] == s.idle[p1]);
        if k2 < held_actors(s).len() {
            assert(held_actors(s2)[k2] == held_actors(s)[k2]);
        } else {
            assert(held_actors(s2)[k2] == s.idle[i]);
        }
    }
    assert forall|k1: int, k2: int|
        0 <= k1 < s2.idle.len() && 0 <= k2 < s2.dropped.len() implies s2.idle[k1]
        != s2.dropped[k2] by {
        let p1: int = if k1 < i {
            k1
        } else {
            k1 + 1
        };
        assert(s2.idle[k1] == s.idle[p1]);
    }
    assert forall|k1: int, k2: int|
        0 <= k1 < held_actors(s2).len() && 0 <= k2 < s2.dropped.len() implies held_actors(s2)[k1]
        != s2.dropped[k2] by {
        if k1 < held_actors(s).len() {
            assert(held_actors(s2)[k1] == held_actors(s)[k1]);
        } else {
            assert(held_actors(s2)[k1] == s.idle[i]);
        }
    }
}

/// Putting an actor back moves it from its single holder into the pool:
/// the population is conserved and the live population unchanged.
pub proof fn lemma_put_preserves(s: RunState, s2: RunState, j: int)
    requires
        wf(s),
        put_step(s, s2, j),
    ensures
        wf(s2),
        total_count(s2) == total_count(s),
        live_count(s2) == live_count(s),
{
    assert(held_actors(s2) =~= held_actors(s).remove(j));
    assert(held_workers(s2) =~= held_workers(s).remove(j));
    lemma_remove_no_duplicates(held_actors(s), j);
    lemma_remove_no_duplicates(held_workers(s), j);
    assert(s.held[j].1 == held_actors(s)[j]);
    assert forall|k1: int, k2: int|
        0 <= k1 < s2.idle.len() && 0 <= k2 < s2.idle.len() && k1 != k2 implies s2.idle[k1]
        != s2.idle[k2] by {
        if k1 < s.idle.len() && k2 < s.idle.len() {
        } else if k1 < s.idle.len() {
            assert(s2.idle[k2] == held_actors(s)[j]);
        } else {
            assert(s2.idle[k1] == held_actors(s)[j]);
        }
    }
    assert forall|k1: int, k2: int|
        0 <= k1 < s2.idle.len() && 0 <= k2 < held_actors(s2).len() implies s2.idle[k1]
        != held_actors(s2)[k2] by {
        let p2: int = if k2 < j {
            k2
        } else {
            k2 + 1
        };
        assert(held_actors(s2)[k2] == held_actors(s)[p2]);
        if k1 < s.idle.len() {
        } else {
            assert(s2.idle[k1] == held_actors(s)[j]);
        }
    }
    assert forall|k1: int, k2: int|
        0 <= k1 < s2.idle.len() && 0 <= k2 < s2.dropped.len() implies s2.idle[k1]
        != s2.dropped[k2] by {
        if k1 < s.idle.len() {
        } else {
            assert(s2.idle[k1] == held_actors(s)[j]);
        }
    }
    assert forall|k1: int, k2: int|
        0 <= k1 < held_actors(s2).len() && 0 <= k2 < s2.dropped.len() implies held_actors(s2)[k1]
        != s2.dropped[k2] by {
        let p1: int = if k1 < j {
            k1
        } else {
            k1 + 1
        };
        assert(held_actors(s2)[k1] == held_actors(s)[p1]);
    }
}

/// Draining removes a held actor from the run for good: the population is
/// conserved — the actor is merely reclassified as dropped — and the live
/// population shrinks by exactly one.
pub proof fn lemma_drop_preserves(s: RunState, s2: RunState, j: int)
    requires
        wf(s),
        drop_step(s, s2, j),
    ensures
        wf(s2),
        total_count(s2) == total_count(s),
        live_count(s2) == live_count(s) - 1,
{
    assert(held_actors(s2) =~= held_actors(s).remove(j));
    assert(held_workers(s2) =~= held_workers(s).remove(j));
    lemma_remove_no_duplicates(held_actors(s), j);
    lemma_remove_no_duplicates(held_workers(s), j);
    assert(s.held[j].1 == held_actors(s)[j]);
    assert forall|k1: int, k2: int|
        0 <= k1 < s2.dropped.len() && 0 <= k2 < s2.dropped.len() && k1 != k2 implies s2.dropped[k1]
        != s2.dropped[k2] by {
        if k1 < s.dropped.len() && k2 < s.dropped.len() {
        } else if k1 < s.dropped.len() {
            assert(s2.dropped[k2] == held_actors(s)[j]);
        } else {
            assert(s2.dropped[k1] == held_actors(s)[j]);
        }
    }
    assert forall|k1: int, k2: int|
        0 <= k1 < s2.idle.len() && 0 <= k2 < s2.dropped.len() implies s2.idle[k1]
        != s2.dropped[k2] by {
        if k2 < s.dropped.len() {
        } else {
            assert(s2.dropped[k2] == held_actors(s)[j]);
        }
    }
    assert forall|k1: int, k2: int|
        0 <= k1 < held_actors(s2).len() && 0 <= k2 < s2.dropped.len() implies held_actors(s2)[k1]
        != s2.dropped[k2] by {
        let p1: int = if k1 < j {
            k1
        } else {
            k1 + 1
        };
        assert(held_actors(s2)[k1] == held_actors(s)[p1]);
        if k2 < s.dropped.len() {
        } else {
            assert(s2.dropped[k2] == held_actors(s)[j]);
        }
    }
}

/// Every move a worker can make keeps the accounting exact: the owned
/// population is conserved and the live population never grows.
pub proof fn lemma_next_preserves(s: RunState, s2: RunState)
    requires
        wf(s),
        next(s, s2),
    ensures
        wf(s2),
        total_count(s2) == total_count(s),
        live_count(s2) <= live_count(s),
{
    if exists|w: u64, i: int| take_step(s, s2, w, i) {
        let (w, i) = choose|w: u64, i: int| take_step(s, s2, w, i);
        lemma_take_preserves(s, s2, w, i);
    } else if exists|j: int| put_step(s, s2, j) {
        let j = choose|j: int| put_step(s, s2, j);
        lemma_put_preserves(s, s2, j);
    } else {
        let j = choose|j: int| drop_step(s, s2, j);
        lemma_drop_preserves(s, s2, j);
    }
}

/// Mutual exclusion: in a well-formed state, two distinct held entries
/// never hold the same actor.
pub proof fn lemma_mutual_exclusion(s: RunState, j1: int, j2: int)
    requires
        wf(s),
        0 <= j1 < s.held.len(),
        0 <= j2 < s.held.len(),
        j1 != j2,
    ensures
        s.held[j1].1 != s.held[j2].1,
{
    assert(held_actors(s)[j1] == s.held[j1].1);
    assert(held_actors(s)[j2] == s.held[j2].1);
}

/// A trace of a run: consecutive states are related by worker moves.
pub open spec fn run_trace(tr: Seq<RunState>) -> bool {
    forall|k: int| 0 <= k < tr.len() - 1 ==> next(#[trigger] tr[k], tr[k + 1])
}

/// Conservation over a whole run: starting from `n` provisioned actors,
/// every reachable instant is well formed and still accounts for exactly
/// `n` actors — pool plus held plus dropped — and the live population
/// (pool plus held, that is `n` minus the dropped) never grows from one
/// instant to the next.
pub proof fn lemma_run_conserves(tr: Seq<RunState>, n: int, k: int)
    requires
        tr.len() > 0,
        init(tr[0], n),
        run_trace(tr),
        0 <= k < tr.len(),
    ensures
        wf(tr[k]),
        total_count(tr[k]) == n,
        k > 0 ==> live_count(tr[k]) <= live_count(tr[k - 1]),
    decreases k,
{
    if k == 0 {
        lemma_init_wf(tr[0], n);
    } else {
        lemma_run_conserves(tr, n, k - 1);
        lemma_next_preserves(tr[k - 1], tr[k]);
    }
}

} // verus!
