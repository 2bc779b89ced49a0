//! Opaque values of the polynomial commitment scheme: keys, commitments,
//! blinding randomness, opening proofs and the scheme's error type.  The
//! protocol layer never inspects their internals, only forwards them.

use vstd::prelude::*;

use ark_bls12_381::{Bls12_381, Fr};
use ark_poly::univariate::DensePolynomial;
use ark_poly::UVPolynomial;
use ark_poly_commit::marlin_pc::MarlinKZG10;
use ark_poly_commit::Error::IncorrectInputLength;
use ark_poly_commit::{LabeledCommitment, LabeledPolynomial, PolynomialCommitment};
use ark_serialize::CanonicalDeserialize;
use core::iter::once;

use crate::rng::SharingRng;
use crate::scalar::Scalar;

verus! {

#[verifier::external_type_specification]
#[verifier::external_body]
pub struct ExPcError(ark_poly_commit::Error);

/// Committer-side key material produced by trimming; dealer-secret.
#[verifier::external_body]
pub struct CommitterKey {
    pub inner: ark_poly_commit::marlin_pc::CommitterKey<ark_bls12_381::Bls12_381>,
}

/// Verifier-side key material produced by trimming; safe to publish.
#[verifier::external_body]
pub struct VerifierKey {
    pub inner: ark_poly_commit::marlin_pc::VerifierKey<ark_bls12_381::Bls12_381>,
}

/// A commitment binding the dealer to one polynomial.
#[verifier::external_body]
pub struct Commitment {
    pub inner: ark_poly_commit::marlin_pc::Commitment<ark_bls12_381::Bls12_381>,
}

/// Blinding randomness paired with a commitment; dealer-secret.
#[verifier::external_body]
pub struct Randomness {
    pub inner: ark_poly_commit::marlin_pc::Randomness<
        ark_bls12_381::Fr,
        ark_poly::univariate::DensePolynomial<ark_bls12_381::Fr>,
    >,
}

/// An opening proof for one evaluation claim.
#[verifier::external_body]
pub struct Proof {
    pub inner: ark_poly_commit::kzg10::Proof<ark_bls12_381::Bls12_381>,
}

/// Produces the key pair for polynomials of degree up to `degree`:
/// universal parameters from the scheme's setup, trimmed at that same
/// degree.
///
/// Relies on ark_poly_commit's `PolynomialCommitment::setup` and
/// `trim` for the Marlin-style KZG10 scheme: setup fails (and never
/// panics) exactly when the requested degree is zero, and trimming
/// freshly made parameters at their own degree never fails.
#[verifier::external_body]
pub(crate) fn pc_setup_trim(
    degree: usize,
    rng: &mut SharingRng,
) -> (r: Result<(CommitterKey, VerifierKey), ark_poly_commit::Error>)
    ensures
        r is Ok <==> degree >= 1,
{
    let pp = MarlinKZG10::<Bls12_381, DensePolynomial<Fr>>::setup(degree, None, &mut rng.inner)?;
    let (ck, vk) = MarlinKZG10::<Bls12_381, DensePolynomial<Fr>>::trim(&pp, degree, 0, None)?;
    Ok((CommitterKey { inner: ck }, VerifierKey { inner: vk }))
}

/// Commits to the polynomial with the given coefficients under the
/// committer key, with hiding randomness from `rng`.  A key whose
/// powers vector is empty would make the scheme's degree arithmetic
/// underflow, so it is turned away with an error first.
///
/// Relies on ark_poly_commit's `PolynomialCommitment::commit` for the
/// Marlin-style KZG10 scheme, between conversions through
/// ark_serialize's canonical byte form (a byte string that is not a
/// canonical encoding is read as zero).
#[verifier::external_body]
pub(crate) fn pc_commit(
    ck: &CommitterKey,
    coeffs: &Vec<Scalar>,
    rng: &mut SharingRng,
) -> Result<(Commitment, Randomness), ark_poly_commit::Error> {
    if ck.inner.powers.is_empty() {
        return Err(IncorrectInputLength("empty committer key".into()));
    }
    let cs: Vec<Fr> = coeffs.iter().map(|c| Fr::deserialize(&c.bytes[..]).unwrap_or_default()).collect();
    let poly = DensePolynomial::from_coefficients_vec(cs);
    let labeled = LabeledPolynomial::new(String::new(), poly, None, None);
    let (lc, rs) = MarlinKZG10::<Bls12_381, DensePolynomial<Fr>>::commit(&ck.inner, once(&labeled), Some(&mut rng.inner))?;
    Ok((Commitment { inner: lc[0].commitment().clone() }, Randomness { inner: rs[0].clone() }))
}

/// Produces an opening proof for the committed polynomial at `point`
/// under the given challenge, both of which must carry canonical
/// encodings.  Randomness that carries a shifted part belongs to a
/// degree-bounded commitment, which this protocol never makes, and a
/// key with an empty powers vector would make the scheme's degree
/// arithmetic underflow; the scheme's open call would abort on either,
/// so both are turned away with an error instead.
///
/// Relies on ark_poly_commit's `PolynomialCommitment::open` for the
/// Marlin-style KZG10 scheme, between conversions through
/// ark_serialize's canonical byte form (a coefficient byte string that
/// is not a canonical encoding is read as zero).
#[verifier::external_body]
pub(crate) fn pc_open(
    ck: &CommitterKey,
    coeffs: &Vec<Scalar>,
    commitment: &Commitment,
    point: &Scalar,
    challenge: &Scalar,
    rands: &Randomness,
    rng: &mut SharingRng,
) -> Result<Proof, ark_poly_commit::Error>
    requires
        crate::scalar::scalar_ok(point@),
        crate::scalar::scalar_ok(challenge@),
{
    if rands.inner.shifted_rand.is_some() || ck.inner.powers.is_empty() {
        return Err(IncorrectInputLength("shifted randomness or empty key".into()));
    }
    let lp = LabeledPolynomial::new(String::new(), DensePolynomial::from_coefficients_vec(coeffs.iter().map(|c| Fr::deserialize(&c.bytes[..]).unwrap_or_default()).collect()), None, None);
    let pr = MarlinKZG10::open(&ck.inner, once(&lp), once(&LabeledCommitment::new(String::new(), commitment.inner.clone(), None)), &Fr::deserialize(&point.bytes[..]).unwrap(), Fr::deserialize(&challenge.bytes[..]).unwrap(), once(&rands.inner), Some(&mut rng.inner))?;
    Ok(Proof { inner: pr })
}

/// Checks one evaluation claim against a commitment.  The verdict is
/// the scheme's own; nothing is assumed about when it is `true`.  A
/// commitment that carries a shifted part belongs to a degree-bounded
/// polynomial, which this protocol never commits; the scheme's check
/// would abort on it, so it is turned away with an error instead.
///
/// Relies on ark_poly_commit's `PolynomialCommitment::check` for the
/// Marlin-style KZG10 scheme, between conversions through
/// ark_serialize's canonical byte form (a byte string that is not a
/// canonical encoding is read as zero).
#[verifier::external_body]
pub(crate) fn pc_check(
    vk: &VerifierKey,
    commitment: &Commitment,
    point: &Scalar,
    value: &Scalar,
    proof: &Proof,
    challenge: &Scalar,
    rng: &mut SharingRng,
) -> Result<bool, ark_poly_commit::Error> {
    if commitment.inner.shifted_comm.is_some() {
        return Err(IncorrectInputLength("shifted commitment".into()));
    }
    let lc = LabeledCommitment::new(String::new(), commitment.inner.clone(), None);
    let x = Fr::deserialize(&point.bytes[..]).unwrap_or_default();
    let v = Fr::deserialize(&value.bytes[..]).unwrap_or_default();
    let ch = Fr::deserialize(&challenge.bytes[..]).unwrap_or_default();
    MarlinKZG10::<Bls12_381, DensePolynomial<Fr>>::check(&vk.inner, once(&lc), &x, once(v), &proof.inner, ch, Some(&mut rng.inner))
}

/// Duplicates a verifier key so that the public projection of the
/// parameters can be handed out.
///
/// Relies on the derived `Clone` of ark_poly_commit's verifier key,
/// which copies the key's fields: the duplicate equals the original.
#[verifier::external_body]
pub(crate) fn clone_verifier_key(vk: &VerifierKey) -> (r: VerifierKey)
    ensures
        r == *vk,
{
    VerifierKey { inner: vk.inner.clone() }
}

/// Duplicates a committer key.
///
/// Relies on the derived `Clone` of ark_poly_commit's committer key,
/// which copies the key's fields: the duplicate equals the original.
#[verifier::external_body]
pub(crate) fn clone_committer_key(ck: &CommitterKey) -> (r: CommitterKey)
    ensures
        r == *ck,
{
    CommitterKey { inner: ck.inner.clone() }
}

/// Duplicates blinding randomness.
///
/// Relies on the derived `Clone` of ark_poly_commit's randomness,
/// which copies its fields: the duplicate equals the original.
#[verifier::external_body]
pub(crate) fn clone_randomness(rd: &Randomness) -> (r: Randomness)
    ensures
        r == *rd,
{
    Randomness { inner: rd.inner.clone() }
}

/// Duplicates an opening proof.
///
/// Relies on the derived `Clone` of ark_poly_commit's proof, which
/// copies its fields: the duplicate equals the original.
#[verifier::external_body]
pub(crate) fn clone_proof(p: &Proof) -> (r: Proof)
    ensures
        r == *p,
{
    Proof { inner: p.inner.clone() }
}

/// Duplicates a commitment so that its public projection can be handed
/// out.
///
/// Relies on the derived `Clone` of ark_poly_commit's commitment,
/// which copies its fields: the duplicate equals the original.
#[verifier::external_body]
pub(crate) fn clone_commitment(c: &Commitment) -> (r: Commitment)
    ensures
        r == *c,
{
    Commitment { inner: c.inner.clone() }
}

} // verus!
