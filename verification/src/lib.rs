//! Evaluation-based verifiable secret sharing (EVSS) and a polynomial
//! accumulator over the BLS12-381 scalar field, built on a Marlin-style
//! KZG10 polynomial commitment scheme.
//!
//! The protocol layer — coefficient construction, share and witness
//! issuance, verification sequencing, and Lagrange reconstruction — is
//! verified.  Field arithmetic, polynomial evaluation and the commitment
//! scheme itself are consumed as opaque capabilities through a small set
//! of trusted wrappers around the arkworks crates.

pub mod biaccumulator;
pub mod errors;
pub mod evss;
pub mod pc;
pub mod poly;
pub mod rng;
pub mod scalar;
