//! A generic concurrent load-test harness: it provisions a population of
//! client sessions against a remote endpoint in bounded-concurrency batches,
//! seeds a shared pool of idle actors, and drives them through a worker-pool
//! simulation for a bounded wall-clock duration, collecting latency
//! statistics.
//!
//! The verified core holds the harness logic: the idle-actor pool with its
//! random take / put discipline, the per-iteration worker decision, the
//! fail-fast provisioning bookkeeping, the friendship flows and the payloads
//! they produce, and the statistics. The asynchronous transport around it
//! (websocket connections, RPC calls, task spawning) lives outside the
//! library and only hands plain values in and out.

use vstd::prelude::*;

pub mod benchmark;
pub mod conservation;
pub mod credentials;
pub mod friendship_flow;
pub mod friendship_procedures;
pub mod payload;
pub mod pool;
pub mod provision;
pub mod rng;
pub mod simulation;

verus! {

/// A user known to the friendship service, identified by its address.
#[derive(Clone, Debug)]
pub struct User {
    pub address: String,
}

/// A hardcoded database of users, the context a service example runs against.
pub struct MyExampleContext {
    pub hardcoded_database: Vec<User>,
}

/// Relies on str's `PartialEq`: two string slices compare equal exactly
/// when their characters do.
#[verifier::external_body]
pub(crate) fn str_eq(s1: &str, s2: &str) -> (r: bool)
    ensures
        r == (s1@ == s2@),
{
    s1 == s2
}

} // verus!
