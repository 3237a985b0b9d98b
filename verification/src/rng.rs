//! The system entropy source.
//!
//! Randomness reaches the library only through the two wrappers here; every
//! function that consumes their results is verified for every value they
//! could hand back.

use vstd::prelude::*;

verus! {

/// Relies on rand::random::<u64>: one draw from the thread-local generator.
/// Nothing can be promised of a random value.
#[verifier::external_body]
pub(crate) fn random_u64() -> u64 {
    rand::random::<u64>()
}

/// Relies on rand::random::<bool>: one fair coin flip from the thread-local
/// generator. Nothing can be promised of a random value.
#[verifier::external_body]
pub(crate) fn random_bool() -> bool {
    rand::random::<bool>()
}

} // verus!
