//! The harness's source of randomness, kept behind a narrow interface so that
//! every decision that consumes a random value can also be driven with an
//! explicit value (see the deterministic variants beside each caller).

use rand::seq::IteratorRandom;
use vstd::prelude::*;

verus! {

/// Relies on rand::random: draws a value of `T` from the standard
/// distribution of the thread-local generator. Nothing can be promised of
/// the value drawn.
pub assume_specification<T>[ rand::random::<T> ]() -> (r: T)
    where
        rand::distributions::Standard: rand::distributions::Distribution<T>,
;

/// Relies on rand's IteratorRandom::choose over the range `0..len`: it
/// returns `None` if and only if the range is empty, and otherwise one of the
/// range's elements, so an index below `len`.
#[verifier::external_body]
pub fn choose_index(len: usize) -> (r: Option<usize>)
    ensures
        r is Some <==> len > 0,
        forall|i: usize| r == Some(i) ==> i < len,
{
    (0..len).choose(&mut rand::thread_rng())
}

} // verus!
