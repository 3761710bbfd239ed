//! The worker-pool simulation core.
//!
//! A run spawns a configured number of workers that share one [`ClientPool`]
//! and one context. Each worker repeatedly takes an actor from the pool,
//! checks its deadline, and either acts and puts the actor back, or — once
//! the deadline has passed — drains the actor out of the pool for good. A
//! worker terminates exactly when it observes an empty pool.
//!
//! The functions here are the decisions of that loop. The suspensions
//! around them (awaiting the behavior, the inter-iteration delay, joining
//! the spawned tasks) live with the task runtime outside the library and
//! hand plain values in and out.

use vstd::prelude::*;

use crate::pool::ClientPool;
use crate::rng;

verus! {

/// The configuration surface of a run: endpoint, worker concurrency,
/// target population, run duration and request timeout.
#[derive(Clone)]
pub struct Args {
    pub rpc_host: String,
    pub parallel: u8,
    pub clients: usize,
    pub duration: u8,
    pub timeout: u8,
}

/// Why a session could not be provisioned: the transport could not be
/// established, the protocol handshake on top of it failed, or the
/// connector's authentication step failed.
#[derive(Clone, Copy, Debug)]
pub enum ClientCreationError {
    Authentication,
    Connection,
    Transport,
}

/// Shared run-scoped state, initialized exactly once before the timed run
/// and read by every worker for its duration. Scenario authors implement
/// this for their own context type.
pub trait Context {
    fn init(args: &Args) -> Self where Self: core::marker::Sized;
}

/// What one poll of the worker loop decided.
pub enum WorkerStep<A> {
    /// The pool still had members and the deadline has not passed: act on
    /// this actor, then put it back.
    Act(A),
    /// The pool still had members but the deadline has passed: the taken
    /// actor was discarded and the pool has permanently shrunk by one.
    Dropped,
    /// The pool was empty: the worker terminates.
    Terminated,
}

/// One iteration of a worker's loop, with the pool selection injected: take
/// the member at `choice`, then let the deadline decide between acting and
/// draining. With an empty pool the worker terminates and `choice` is
/// ignored.
pub fn worker_poll_at<A>(pool: &mut ClientPool<A>, deadline_passed: bool, choice: usize) -> (step:
    WorkerStep<A>)
    requires
        old(pool)@.len() > 0 ==> choice < old(pool)@.len(),
    ensures
        old(pool)@.len() == 0 ==> step is Terminated && final(pool)@ == old(pool)@,
        old(pool)@.len() > 0 && deadline_passed ==> step is Dropped && final(pool)@ == old(
            pool,
        )@.remove(choice as int),
        old(pool)@.len() > 0 && !deadline_passed ==> step == WorkerStep::Act(
            old(pool)@[choice as int],
        ) && final(pool)@ == old(pool)@.remove(choice as int),
{
    if pool.is_empty() {
        WorkerStep::Terminated
    } else {
        let actor = pool.take_at(choice);
        if deadline_passed {
            // Drain: the actor is dropped here and never returns to the
            // pool, so the population shrinks until every worker sees an
            // empty pool and terminates.
            WorkerStep::Dropped
        } else {
            WorkerStep::Act(actor)
        }
    }
}

/// One iteration of a worker's loop with the pool member drawn at random,
/// as the live run does it. Whatever the draw, one member leaves the pool
/// unless it was empty.
pub fn worker_poll<A>(pool: &mut ClientPool<A>, deadline_passed: bool) -> (step: WorkerStep<A>)
    ensures
        old(pool)@.len() == 0 ==> step is Terminated && final(pool)@ == old(pool)@,
        old(pool)@.len() > 0 ==> exists|i: int|
            0 <= i < old(pool)@.len() && final(pool)@ == old(pool)@.remove(i) && (if deadline_passed {
                step is Dropped
            } else {
                step == WorkerStep::Act(old(pool)@[i])
            }),
{
    let choice = match rng::choose_index(pool.len()) {
        Some(i) => i,
        None => 0,
    };
    worker_poll_at(pool, deadline_passed, choice)
}

/// The terminal drain phase of one worker, run in one piece: past the
/// deadline a worker keeps taking and discarding actors until the pool
/// reports empty, then terminates. Exactly one drain per actor left in the
/// pool.
pub fn drain<A>(pool: &mut ClientPool<A>) -> (drains: usize)
    ensures
        final(pool)@.len() == 0,
        drains == old(pool)@.len(),
{
    let initial = pool.len();
    let mut drains: usize = 0;
    loop
        invariant
            initial == old(pool)@.len(),
            drains + pool@.len() == initial,
        decreases pool@.len(),
    {
        match worker_poll(pool, true) {
            WorkerStep::Terminated => {
                return drains;
            },
            WorkerStep::Dropped => {
                drains = drains + 1;
            },
            WorkerStep::Act(_) => {
                proof {
                    // past the deadline a poll never acts
                    assert(false);
                }
                return drains;
            },
        }
    }
}

/// The set of worker ids that have not yet reported termination. It starts
/// as `{0, .., parallel - 1}` and only loses members.
pub struct WorkerTracker {
    outstanding: Vec<u8>,
}

impl View for WorkerTracker {
    type V = Seq<u8>;

    closed spec fn view(&self) -> Seq<u8> {
        self.outstanding@
    }
}

impl WorkerTracker {
    /// The tracked ids are distinct: a worker is outstanding at most once.
    /// `new` establishes this and `mark_done` preserves it.
    pub open spec fn wf(&self) -> bool {
        self@.no_duplicates()
    }

    /// Start tracking `parallel` workers, with ids `0, .., parallel - 1`.
    pub fn new(parallel: u8) -> (t: Self)
        ensures
            t.wf(),
            t@.len() == parallel as int,
            forall|k: int| 0 <= k < parallel as int ==> t@[k] == k,
    {
        let mut outstanding: Vec<u8> = Vec::new();
        let mut id: u8 = 0;
        while id < parallel
            invariant
                id <= parallel,
                outstanding@.len() == id as int,
                forall|k: int| 0 <= k < id as int ==> outstanding@[k] == k,
            decreases parallel - id,
        {
            outstanding.push(id);
            id = id + 1;
        }
        WorkerTracker { outstanding }
    }

    /// How many workers are still outstanding.
    pub fn remaining(&self) -> (n: usize)
        ensures
            n == self@.len(),
    {
        self.outstanding.len()
    }

    /// Whether every worker has reported termination.
    pub fn all_done(&self) -> (b: bool)
        ensures
            b == (self@.len() == 0),
    {
        self.outstanding.len() == 0
    }

    /// Record that a worker reported termination. Returns whether it was
    /// still outstanding; afterwards it no longer is, and no other worker's
    /// membership has changed.
    pub fn mark_done(&mut self, worker_id: u8) -> (was: bool)
        requires
            old(self).wf(),
        ensures
            final(self).wf(),
            was == old(self)@.contains(worker_id),
            !was ==> final(self)@ == old(self)@,
            was ==> final(self)@.len() == old(self)@.len() - 1,
            !final(self)@.contains(worker_id),
            forall|other: u8| other != worker_id ==> final(self)@.contains(other) == old(
                self,
            )@.contains(other),
    {
        let ghost prior = self.outstanding@;
        let mut i: usize = 0;
        while i < self.outstanding.len()
            invariant
                prior == old(self)@,
                self.outstanding@ == prior,
                prior.no_duplicates(),
                i <= prior.len(),
                forall|k: int| 0 <= k < i as int ==> prior[k] != worker_id,
            decreases prior.len() - i,
        {
            if self.outstanding[i] == worker_id {
                self.outstanding.remove(i);
                proof {
                    prior.remove_ensures(i as int);
                    assert(prior.contains(worker_id));
                    assert forall|other: u8| other != worker_id implies self.outstanding@.contains(
                        other,
                    ) == prior.contains(other) by {
                        if prior.contains(other) {
                            let j = choose|j: int| 0 <= j < prior.len() && prior[j] == other;
                            if j < i as int {
                                assert(self.outstanding@[j] == other);
                            } else {
                                assert(self.outstanding@[j - 1] == other);
                            }
                        }
                        if self.outstanding@.contains(other) {
                            let j = choose|j: int|
                                0 <= j < self.outstanding@.len() && self.outstanding@[j] == other;
                            if j < i as int {
                                assert(prior[j] == other);
                            } else {
                                assert(prior[j + 1] == other);
                            }
                        }
                    }
                    assert forall|k: int|
                        0 <= k < self.outstanding@.len() implies self.outstanding@[k]
                        != worker_id by {
                        if k >= i as int {
                            assert(self.outstanding@[k] == prior[k + 1]);
                        }
                    }
                    assert forall|k1: int, k2: int|
                        0 <= k1 < self.outstanding@.len() && 0 <= k2 < self.outstanding@.len() && k1
                            != k2 implies self.outstanding@[k1] != self.outstanding@[k2] by {
                        let p1: int = if k1 < i as int {
                            k1
                        } else {
                            k1 + 1
                        };
                        let p2: int = if k2 < i as int {
                            k2
                        } else {
                            k2 + 1
                        };
                        assert(self.outstanding@[k1] == prior[p1]);
                        assert(self.outstanding@[k2] == prior[p2]);
                    }
                }
                return true;
            }
            i = i + 1;
        }
        proof {
            assert forall|other: u8| self.outstanding@.contains(other) implies prior.contains(
                other,
            ) by {}
            if prior.contains(worker_id) {
                let j = choose|j: int| 0 <= j < prior.len() && prior[j] == worker_id;
                assert(false);
            }
        }
        false
    }
}

/// The orchestrator of a run.
pub struct Simulation;

impl Simulation {
    /// Seed the shared pool with every bound actor and start tracking the
    /// configured number of workers.
    ///
    /// For all `N` actors and `P >= 1` workers this hands back a pool of
    /// exactly the `N` actors and exactly the worker ids `0, .., P - 1`:
    /// the run spawns one worker per id, no more and no fewer.
    pub fn setup<A>(actors: Vec<A>, parallel: u8) -> (r: (ClientPool<A>, WorkerTracker))
        requires
            parallel >= 1,
        ensures
            r.0@ == actors@,
            r.1.wf(),
            r.1@.len() == parallel as int,
            forall|k: int| 0 <= k < parallel as int ==> r.1@[k] == k,
    {
        (ClientPool::from_vec(actors), WorkerTracker::new(parallel))
    }
}

/// The sum of a sequence of recorded latencies.
pub open spec fn sum_of(s: Seq<u128>) -> int
    decreases s.len(),
{
    if s.len() == 0 {
        0
    } else {
        sum_of(s.drop_last()) + s.last()
    }
}

proof fn lemma_sum_of_take_succ(s: Seq<u128>, i: int)
    requires
        0 <= i < s.len(),
    ensures
        sum_of(s.take(i + 1)) == sum_of(s.take(i)) + s[i],
{
    assert(s.take(i + 1).drop_last() =~= s.take(i));
    assert(s.take(i + 1).last() == s[i]);
}

proof fn lemma_sum_of_take_le(s: Seq<u128>, i: int)
    requires
        0 <= i <= s.len(),
    ensures
        sum_of(s.take(i)) <= sum_of(s),
    decreases s.len() - i,
{
    if i == s.len() {
        assert(s.take(i) =~= s);
    } else {
        lemma_sum_of_take_succ(s, i);
        lemma_sum_of_take_le(s, i + 1);
    }
}

/// The arithmetic mean of the recorded latencies, truncated to an integer.
/// An empty recording has no mean: callers guard against a run that
/// provisioned no session before asking for one.
pub fn mean(values: &[u128]) -> (r: u128)
    requires
        values@.len() > 0,
        sum_of(values@) <= u128::MAX,
    ensures
        r == sum_of(values@) / values@.len() as int,
{
    let mut acc: u128 = 0;
    let mut i: usize = 0;
    while i < values.len()
        invariant
            i <= values@.len(),
            acc == sum_of(values@.take(i as int)),
            sum_of(values@) <= u128::MAX,
        decreases values@.len() - i,
    {
        proof {
            lemma_sum_of_take_succ(values@, i as int);
            lemma_sum_of_take_le(values@, i as int + 1);
        }
        acc = acc + values[i];
        i = i + 1;
    }
    proof {
        assert(values@.take(values@.len() as int) =~= values@);
    }
    acc / (values.len() as u128)
}

/// The mean of the recorded latencies, or `None` where it has none: an
/// empty recording, or one whose sum does not fit the machine's integers.
pub fn checked_mean(values: &[u128]) -> (r: Option<u128>)
    ensures
        r is Some <==> (values@.len() > 0 && sum_of(values@) <= u128::MAX),
        forall|m: u128| r == Some(m) ==> m == sum_of(values@) / values@.len() as int,
{
    if values.len() == 0 {
        return None;
    }
    let mut acc: u128 = 0;
    let mut i: usize = 0;
    while i < values.len()
        invariant
            i <= values@.len(),
            values@.len() > 0,
            acc == sum_of(values@.take(i as int)),
        decreases values@.len() - i,
    {
        proof {
            lemma_sum_of_take_succ(values@, i as int);
        }
        let v = values[i];
        if acc > u128::MAX - v {
            proof {
                lemma_sum_of_take_le(values@, i as int + 1);
            }
            return None;
        }
        acc = acc + v;
        i = i + 1;
    }
    proof {
        assert(values@.take(values@.len() as int) =~= values@);
    }
    Some(acc / (values.len() as u128))
}

} // verus!
