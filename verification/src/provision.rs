//! Bookkeeping for the bulk provisioning phase.
//!
//! Sessions are established in successive batches of at most `parallel`
//! concurrent attempts; the next batch starts only when the whole previous
//! batch has resolved. Every successful attempt records two latencies: the
//! whole connection and the session-negotiation sub-interval. The first
//! failed attempt aborts the phase — sessions from earlier batches are
//! discarded, nothing is retried, and no simulation is started.
//!
//! The connection attempts themselves are transport work done outside the
//! library; they hand back one [`ProvisionOutcome`] each.

use vstd::prelude::*;

use crate::simulation::ClientCreationError;

verus! {

/// What one connection attempt resolved to: the (whole connection,
/// session negotiation) latency pair in milliseconds, or the failure kind.
pub type ProvisionOutcome = Result<(u128, u128), ClientCreationError>;

/// The whole-connection latencies of a run of successful outcomes.
pub open spec fn whole_latencies(outcomes: Seq<ProvisionOutcome>) -> Seq<u128> {
    outcomes.map_values(|o: ProvisionOutcome| o->Ok_0.0)
}

/// The session-negotiation latencies of a run of successful outcomes.
pub open spec fn session_latencies(outcomes: Seq<ProvisionOutcome>) -> Seq<u128> {
    outcomes.map_values(|o: ProvisionOutcome| o->Ok_0.1)
}

/// The state of the provisioning phase for a target population.
pub struct Provisioner {
    clients: usize,
    parallel: u8,
    whole_conns: Vec<u128>,
    client_conns: Vec<u128>,
    failure: Option<ClientCreationError>,
}

impl Provisioner {
    /// The target population `N`.
    pub closed spec fn target(&self) -> int {
        self.clients as int
    }

    /// The concurrency limit `P`: at most this many attempts are in flight.
    pub closed spec fn batch_limit(&self) -> int {
        self.parallel as int
    }

    /// The whole-connection latencies recorded so far, one per session.
    pub closed spec fn whole(&self) -> Seq<u128> {
        self.whole_conns@
    }

    /// The session-negotiation latencies recorded so far, one per session.
    pub closed spec fn session(&self) -> Seq<u128> {
        self.client_conns@
    }

    /// The first failure observed, if any.
    pub closed spec fn failed(&self) -> Option<ClientCreationError> {
        self.failure
    }

    pub open spec fn wf(&self) -> bool {
        &&& self.whole().len() == self.session().len()
        &&& self.whole().len() <= self.target()
        &&& self.batch_limit() >= 1
    }

    /// The simulation may start only when every one of the `N` sessions was
    /// provisioned and no attempt failed.
    pub open spec fn can_start_spec(&self) -> bool {
        self.failed() is None && self.whole().len() == self.target()
    }

    /// How many attempts the next batch should issue: up to `P`, and never
    /// past the target; none once the phase has failed or finished.
    pub open spec fn next_batch_spec(&self) -> int {
        if self.failed() is Some {
            0
        } else if self.target() - self.whole().len() < self.batch_limit() {
            self.target() - self.whole().len()
        } else {
            self.batch_limit()
        }
    }

    /// Begin provisioning `clients` sessions, `parallel` at a time.
    pub fn new(clients: usize, parallel: u8) -> (p: Self)
        requires
            parallel >= 1,
        ensures
            p.wf(),
            p.target() == clients,
            p.batch_limit() == parallel,
            p.whole() == Seq::<u128>::empty(),
            p.session() == Seq::<u128>::empty(),
            p.failed() is None,
    {
        Provisioner {
            clients,
            parallel,
            whole_conns: Vec::new(),
            client_conns: Vec::new(),
            failure: None,
        }
    }

    /// How many sessions have been provisioned so far.
    pub fn connected(&self) -> (n: usize)
        ensures
            n == self.whole().len(),
    {
        self.whole_conns.len()
    }

    /// How many attempts to issue next.
    pub fn next_batch_size(&self) -> (n: usize)
        requires
            self.wf(),
        ensures
            n == self.next_batch_spec(),
    {
        if self.failure.is_some() {
            0
        } else {
            let remaining = self.clients - self.whole_conns.len();
            if remaining < self.parallel as usize {
                remaining
            } else {
                self.parallel as usize
            }
        }
    }

    /// Record the resolved outcomes of one batch, in the order they were
    /// observed. Successes are recorded until the first failure; the first
    /// failure aborts the phase on the spot, so later outcomes of the batch
    /// are not recorded at all. Returns whether the batch was failure-free.
    pub fn record_batch(&mut self, outcomes: &Vec<ProvisionOutcome>) -> (ok: bool)
        requires
            old(self).wf(),
            old(self).failed() is None,
            old(self).whole().len() + outcomes@.len() <= old(self).target(),
        ensures
            final(self).wf(),
            final(self).target() == old(self).target(),
            final(self).batch_limit() == old(self).batch_limit(),
            ok == (forall|j: int| 0 <= j < outcomes@.len() ==> outcomes@[j] is Ok),
            ok ==> {
                &&& final(self).whole() == old(self).whole() + whole_latencies(outcomes@)
                &&& final(self).session() == old(self).session() + session_latencies(outcomes@)
                &&& final(self).failed() is None
            },
            !ok ==> exists|k: int|
                {
                    &&& 0 <= k < outcomes@.len()
                    &&& outcomes@[k] is Err
                    &&& (forall|j: int| 0 <= j < k ==> outcomes@[j] is Ok)
                    &&& final(self).failed() == Some(outcomes@[k]->Err_0)
                    &&& final(self).whole() == old(self).whole() + whole_latencies(
                        outcomes@.take(k),
                    )
                    &&& final(self).session() == old(self).session() + session_latencies(
                        outcomes@.take(k),
                    )
                },
    {
        let ghost prior_whole = self.whole();
        let ghost prior_session = self.session();
        let mut i: usize = 0;
        while i < outcomes.len()
            invariant
                i <= outcomes@.len(),
                self.clients == old(self).clients,
                self.parallel == old(self).parallel,
                self.parallel >= 1,
                prior_whole == old(self).whole(),
                prior_session == old(self).session(),
                prior_whole.len() == prior_session.len(),
                prior_whole.len() + outcomes@.len() <= self.clients,
                self.failure is None,
                forall|j: int| 0 <= j < i as int ==> outcomes@[j] is Ok,
                self.whole() == prior_whole + whole_latencies(outcomes@.take(i as int)),
                self.session() == prior_session + session_latencies(outcomes@.take(i as int)),
            decreases outcomes@.len() - i,
        {
            let outcome = &outcomes[i];
            match outcome {
                Ok(pair) => {
                    self.whole_conns.push(pair.0);
                    self.client_conns.push(pair.1);
                    proof {
                        assert(whole_latencies(outcomes@.take(i as int + 1)) =~= whole_latencies(
                            outcomes@.take(i as int),
                        ).push(outcomes@[i as int]->Ok_0.0));
                        assert(session_latencies(outcomes@.take(i as int + 1))
                            =~= session_latencies(outcomes@.take(i as int)).push(
                            outcomes@[i as int]->Ok_0.1,
                        ));
                    }
                },
                Err(e) => {
                    self.failure = Some(*e);
                    proof {
                        assert(whole_latencies(outcomes@.take(i as int)).len() == i as int);
                        assert(session_latencies(outcomes@.take(i as int)).len() == i as int);
                    }
                    return false;
                },
            }
            i = i + 1;
        }
        proof {
            assert(outcomes@.take(outcomes@.len() as int) =~= outcomes@);
        }
        true
    }

    /// Whether the run may proceed to the simulation: every session is
    /// provisioned and nothing failed.
    pub fn can_start(&self) -> (b: bool)
        ensures
            b == self.can_start_spec(),
    {
        self.failure.is_none() && self.whole_conns.len() == self.clients
    }

    /// The failure that aborted the phase, if any.
    pub fn failure(&self) -> (f: &Option<ClientCreationError>)
        ensures
            f == self.failed(),
    {
        &self.failure
    }

    /// The recorded whole-connection latencies, for the statistics report.
    pub fn whole_conns(&self) -> (v: &Vec<u128>)
        ensures
            v@ == self.whole(),
    {
        &self.whole_conns
    }

    /// The recorded session-negotiation latencies, for the statistics
    /// report.
    pub fn client_conns(&self) -> (v: &Vec<u128>)
        ensures
            v@ == self.session(),
    {
        &self.client_conns
    }
}

/// Fail-fast law: a provisioning phase that has observed a failure can
/// never start the simulation, whatever was recorded before the failure —
/// no worker is spawned, and since recording demands a failure-free state,
/// the sessions recorded before the failure cannot be carried into a later
/// retry through this state either.
pub proof fn lemma_failed_provisioning_never_starts(p: Provisioner)
    requires
        p.failed() is Some,
    ensures
        !p.can_start_spec(),
{
}

} // verus!
