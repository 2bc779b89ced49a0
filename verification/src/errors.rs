//! Why a protocol operation can fail.  Failures of the commitment
//! scheme are carried verbatim; the two interpolation hazards and the
//! accumulator capacity check are the protocol layer's own.

use vstd::prelude::*;

verus! {

/// The error returned by the protocol operations.
#[derive(Debug)]
pub enum ProtocolError {
    /// The commitment scheme rejected a setup, trim, commit, open or
    /// check call; its own error, unchanged.
    Scheme(ark_poly_commit::Error),
    /// The credential set needs more coefficients than the parameters'
    /// degree allows.
    SetTooLarge,
    /// Two shares carry the same evaluation point, so interpolation
    /// would divide by zero.
    DuplicatePoint,
    /// Fewer shares than the threshold, so interpolation would not
    /// determine the secret.
    TooFewShares,
}

} // verus!
