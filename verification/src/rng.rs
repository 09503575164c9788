//! The process-wide random source, taken on trust. Nothing can be promised
//! of a random value, so the specification has no `ensures`: every caller
//! is verified for every outcome.

use vstd::prelude::*;

verus! {

/// Relies on rand::random: one independent draw from the process-wide
/// generator. No promise is made about the value.
pub assume_specification<T>[ rand::random::<T> ]() -> (r: T)
    where
        rand::distributions::Standard: rand::distributions::Distribution<T>,
;

} // verus!
