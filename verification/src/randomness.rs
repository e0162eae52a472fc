//! The chance that the retry jitter is drawn from.

use vstd::prelude::*;
use std::collections::hash_map::RandomState;
use std::hash::{BuildHasher, Hasher};

verus! {

/// A fresh, randomly keyed `RandomState` hashing nothing: a random number.
/// Nothing is promised of its value.
#[verifier::external_body]
pub(crate) fn random_u64() -> u64 {
    RandomState::new().build_hasher().finish()
}

} // verus!
