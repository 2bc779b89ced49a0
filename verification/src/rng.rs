//! The caller-supplied randomness source that every fallible protocol
//! operation threads through.

use vstd::prelude::*;

verus! {

#[verifier::external_type_specification]
#[verifier::external_body]
pub struct ExStdRng(rand::rngs::StdRng);

/// A source of randomness for setup, commitment blinding, challenge
/// sampling and proof generation.  Nothing is assumed about the values
/// it yields.
pub struct SharingRng {
    pub(crate) inner: rand::rngs::StdRng,
}

impl SharingRng {
    /// Builds a deterministic source from a seed.
    ///
    /// Relies on rand's `StdRng::seed_from_u64`.
    #[verifier::external_body]
    pub fn from_seed(seed: u64) -> SharingRng {
        SharingRng { inner: <rand::rngs::StdRng as rand::SeedableRng>::seed_from_u64(seed) }
    }
}

} // verus!
