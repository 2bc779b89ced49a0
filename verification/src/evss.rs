//! Evaluation-based verifiable secret sharing: parameter lifecycle,
//! secret embedding, share issuance and verification, and secret
//! reconstruction by Lagrange interpolation at zero.

use vstd::prelude::*;

use crate::errors::ProtocolError;
use crate::pc::{
    clone_commitment, clone_committer_key, clone_proof, clone_randomness, clone_verifier_key,
    pc_check, pc_commit, pc_open, pc_setup_trim, Commitment, CommitterKey, Proof, Randomness,
    VerifierKey,
};
use crate::poly::{byte_views, eval_spec, poly_eval};
use crate::rng::SharingRng;
use crate::scalar::{
    add_of, div_of, mul_of, neg_of, scalar_random, scalar_add, scalar_div, scalar_mul,
    scalar_neg, scalar_sub, sub_of, zero_scalar, Scalar,
};

verus! {

/// The dealer's full key material for one sharing instance.  `degree`
/// is the threshold parameter: the number of coefficients of the
/// sharing polynomial, and the number of shares reconstruction needs.
pub struct EVSSParams {
    pub degree: usize,
    pub committer_key: CommitterKey,
    pub verifier_key: VerifierKey,
}

/// The verifier-visible projection of the parameters.
pub struct EVSSPublicParams {
    pub degree: usize,
    pub verifier_key: VerifierKey,
}

impl EVSSParams {
    /// Projects out what is safe to publish: the same degree and the
    /// same verifier key, without the dealer-secret committer key.
    pub fn get_public_params(&self) -> (r: EVSSPublicParams)
        ensures
            r.degree == self.degree,
            r.verifier_key == self.verifier_key,
    {
        EVSSPublicParams {
            degree: self.degree,
            verifier_key: clone_verifier_key(&self.verifier_key),
        }
    }
}

impl Clone for EVSSParams {
    fn clone(&self) -> (r: Self)
        ensures
            r.degree == self.degree,
            r.committer_key == self.committer_key,
            r.verifier_key == self.verifier_key,
    {
        EVSSParams {
            degree: self.degree,
            committer_key: clone_committer_key(&self.committer_key),
            verifier_key: clone_verifier_key(&self.verifier_key),
        }
    }
}

impl Clone for EVSSPublicParams {
    fn clone(&self) -> (r: Self)
        ensures
            r.degree == self.degree,
            r.verifier_key == self.verifier_key,
    {
        EVSSPublicParams {
            degree: self.degree,
            verifier_key: clone_verifier_key(&self.verifier_key),
        }
    }
}

/// A committed polynomial: its coefficients (lowest degree first, the
/// constant term carrying the secret in the sharing case), the
/// published commitment, and the dealer-secret blinding randomness.
pub struct EVSSPolynomial {
    pub polynomial: Vec<Scalar>,
    pub commit: Commitment,
    pub rands: Randomness,
}

/// The verifier-visible projection of a committed polynomial.
pub struct EVSSCommit {
    pub commit: Commitment,
}

impl EVSSPolynomial {
    /// Projects out the published commitment: the same commitment,
    /// without the dealer-secret polynomial and blinding randomness.
    pub fn get_commit(&self) -> (r: EVSSCommit)
        ensures
            r.commit == self.commit,
    {
        EVSSCommit { commit: clone_commitment(&self.commit) }
    }
}

impl Clone for EVSSPolynomial {
    fn clone(&self) -> (r: Self)
        ensures
            byte_views(r.polynomial@) == byte_views(self.polynomial@),
            r.commit == self.commit,
            r.rands == self.rands,
    {
        let mut coeffs: Vec<Scalar> = Vec::new();
        let mut i: usize = 0;
        while i < self.polynomial.len()
            invariant
                i <= self.polynomial@.len(),
                coeffs@.len() == i,
                forall|j: int| 0 <= j < i ==> coeffs@[j]@ == self.polynomial@[j]@,
            decreases self.polynomial@.len() - i,
        {
            coeffs.push(self.polynomial[i].clone());
            i = i + 1;
        }
        assert(byte_views(coeffs@) =~= byte_views(self.polynomial@));
        EVSSPolynomial {
            polynomial: coeffs,
            commit: clone_commitment(&self.commit),
            rands: clone_randomness(&self.rands),
        }
    }
}

impl Clone for EVSSCommit {
    fn clone(&self) -> (r: Self)
        ensures
            r.commit == self.commit,
    {
        EVSSCommit { commit: clone_commitment(&self.commit) }
    }
}

/// One shareholder's verifiable evaluation: the point, the claimed
/// value, the fresh challenge the opening was produced under, and the
/// opening proof.  Challenge and proof are generated together and are
/// only meaningful together.
pub struct EVSSShare {
    pub point: Scalar,
    pub value: Scalar,
    pub challenge: Scalar,
    pub proof: Proof,
}

impl Clone for EVSSShare {
    fn clone(&self) -> (r: Self)
        ensures
            r.point@ == self.point@,
            r.value@ == self.value@,
            r.challenge@ == self.challenge@,
            r.proof == self.proof,
    {
        EVSSShare {
            point: self.point.clone(),
            value: self.value.clone(),
            challenge: self.challenge.clone(),
            proof: clone_proof(&self.proof),
        }
    }
}

/// Whether two shares of the sequence carry the same evaluation point.
pub open spec fn has_duplicate_point(shares: Seq<EVSSShare>) -> bool {
    exists|i: int, j: int|
        0 <= i < j < shares.len() && shares[i].point@ == shares[j].point@
}

/// The partial Lagrange term of share `i`: its value times the basis
/// factors `(-point_j) / (point_i - point_j)` contributed by the other
/// shares with index below `j`.
pub open spec fn lagrange_term_prefix(shares: Seq<EVSSShare>, i: int, j: int) -> Seq<u8>
    decreases j,
{
    if j <= 0 {
        shares[i].value@
    } else if j - 1 == i {
        lagrange_term_prefix(shares, i, j - 1)
    } else {
        mul_of(
            lagrange_term_prefix(shares, i, j - 1),
            div_of(
                neg_of(shares[j - 1].point@),
                sub_of(shares[i].point@, shares[j - 1].point@),
            ),
        )
    }
}

/// The sum of the full Lagrange terms of the shares with index below `i`.
pub open spec fn lagrange_sum_prefix(shares: Seq<EVSSShare>, i: int) -> Seq<u8>
    decreases i,
{
    if i <= 0 {
        zero_scalar()
    } else {
        add_of(
            lagrange_sum_prefix(shares, i - 1),
            lagrange_term_prefix(shares, i - 1, shares.len() as int),
        )
    }
}

/// The value that Lagrange interpolation at zero assigns to a
/// duplicate-free share set: the recovered constant term.
pub open spec fn lagrange_at_zero(shares: Seq<EVSSShare>) -> Seq<u8> {
    lagrange_sum_prefix(shares, shares.len() as int)
}

/// The dealer-side and shareholder-side operations of the sharing
/// protocol.
pub struct EVSS;

impl EVSS {
    /// Sizes universal parameters for polynomials of up to `degree`
    /// coefficients and trims them into a committer key and a verifier
    /// key.  The scheme supports every degree but zero, so this
    /// succeeds exactly on a nonzero degree.
    pub fn setup(degree: usize, rng: &mut SharingRng) -> (r: Result<EVSSParams, ProtocolError>)
        ensures
            r is Ok <==> degree >= 1,
            r matches Ok(p) ==> p.degree == degree,
            r matches Err(e) ==> e is Scheme,
    {
        let (ck, vk) = match pc_setup_trim(degree, rng) {
            Ok(kv) => kv,
            Err(e) => {
                return Err(ProtocolError::Scheme(e));
            },
        };
        Ok(EVSSParams { degree, committer_key: ck, verifier_key: vk })
    }

    /// Builds the sharing polynomial — the secret as constant term,
    /// the remaining `degree - 1` coefficients sampled independently
    /// and uniformly at random, which is what hides the secret below
    /// the threshold — and commits to it.
    pub fn commit(
        params: &EVSSParams,
        secret: &Scalar,
        rng: &mut SharingRng,
    ) -> (r: Result<EVSSPolynomial, ProtocolError>)
        ensures
            r matches Ok(sp) ==> {
                &&& sp.polynomial@.len() == params.degree
                &&& params.degree > 0 ==> sp.polynomial@[0]@ == secret@
            },
            r matches Err(e) ==> e is Scheme,
    {
        let mut coeffs: Vec<Scalar> = Vec::new();
        let mut i: usize = 0;
        while i < params.degree
            invariant
                i <= params.degree,
                coeffs@.len() == i,
                i > 0 ==> coeffs@[0]@ == secret@,
            decreases params.degree - i,
        {
            if i == 0 {
                coeffs.push(secret.clone());
            } else {
                coeffs.push(scalar_random(rng));
            }
            i = i + 1;
        }
        let (commit, rands) = match pc_commit(&params.committer_key, &coeffs, rng) {
            Ok(cr) => cr,
            Err(e) => {
                return Err(ProtocolError::Scheme(e));
            },
        };
        Ok(EVSSPolynomial { polynomial: coeffs, commit, rands })
    }

    /// Samples a fresh challenge — a new one on every call, so proofs
    /// are never reused across verification sessions — opens the
    /// committed polynomial at `point` under it, and evaluates the
    /// polynomial there for the share's value.
    pub fn get_share(
        point: &Scalar,
        params: &EVSSParams,
        poly: &EVSSPolynomial,
        rng: &mut SharingRng,
    ) -> (r: Result<EVSSShare, ProtocolError>)
        ensures
            r matches Ok(sh) ==> {
                &&& sh.point@ == point@
                &&& sh.value@ == eval_spec(byte_views(poly.polynomial@), point@)
            },
            r matches Err(e) ==> e is Scheme,
    {
        let ch = scalar_random(rng);
        proof {
            use_type_invariant(point);
        }
        let pr = match pc_open(
            &params.committer_key,
            &poly.polynomial,
            &poly.commit,
            point,
            &ch,
            &poly.rands,
            rng,
        ) {
            Ok(pr) => pr,
            Err(e) => {
                return Err(ProtocolError::Scheme(e));
            },
        };
        let value = poly_eval(&poly.polynomial, point);
        Ok(EVSSShare { point: point.clone(), value, challenge: ch, proof: pr })
    }

    /// Hands the share's point, value, proof and challenge to the
    /// commitment scheme and returns its verdict verbatim; there is no
    /// additional policy layer here.  A `false` verdict is a normal
    /// outcome, not an error.
    pub fn check(
        params: &EVSSPublicParams,
        commit: &EVSSCommit,
        share: &EVSSShare,
        rng: &mut SharingRng,
    ) -> (r: Result<bool, ProtocolError>)
        ensures
            r matches Err(e) ==> e is Scheme,
    {
        match pc_check(
            &params.verifier_key,
            &commit.commit,
            &share.point,
            &share.value,
            &share.proof,
            &share.challenge,
            rng,
        ) {
            Ok(b) => Ok(b),
            Err(e) => Err(ProtocolError::Scheme(e)),
        }
    }

    /// Recovers the constant term by Lagrange interpolation at zero.
    ///
    /// Fewer than `threshold` shares cannot determine the secret, and
    /// a repeated point would divide by zero in the basis factors, so
    /// both are rejected before any arithmetic; on a well-formed set
    /// the result is exactly the interpolated value.
    pub fn reconstruct(
        threshold: usize,
        shares: &Vec<EVSSShare>,
    ) -> (r: Result<Scalar, ProtocolError>)
        ensures
            shares@.len() < threshold ==> (r matches Err(e) && e is TooFewShares),
            shares@.len() >= threshold && has_duplicate_point(shares@) ==> (r matches Err(e)
                && e is DuplicatePoint),
            shares@.len() >= threshold && !has_duplicate_point(shares@) ==> (r matches Ok(s)
                && s@ == lagrange_at_zero(shares@)),
    {
        if shares.len() < threshold {
            return Err(ProtocolError::TooFewShares);
        }
        let n = shares.len();
        let mut i: usize = 0;
        while i < n
            invariant
                i <= n,
                n == shares@.len(),
                threshold <= n,
                forall|a: int, b: int|
                    0 <= a < b < n && a < i ==> shares@[a].point@ != shares@[b].point@,
            decreases n - i,
        {
            let mut j: usize = i + 1;
            while j < n
                invariant
                    i < n,
                    i + 1 <= j <= n,
                    n == shares@.len(),
                    threshold <= n,
                    forall|b: int| i < b < j ==> shares@[i as int].point@ != shares@[b].point@,
                decreases n - j,
            {
                if shares[i].point.equals(&shares[j].point) {
                    return Err(ProtocolError::DuplicatePoint);
                }
                j = j + 1;
            }
            i = i + 1;
        }
        assert(!has_duplicate_point(shares@));

        let mut res = Scalar::from_u64(0);
        proof {
            crate::scalar::lemma_scalar_of_u64_ok(0);
        }
        let mut i: usize = 0;
        while i < n
            invariant
                i <= n,
                n == shares@.len(),
                res@ == lagrange_sum_prefix(shares@, i as int),
                forall|a: int, b: int|
                    0 <= a < b < n ==> shares@[a].point@ != shares@[b].point@,
            decreases n - i,
        {
            let mut term = shares[i].value.clone();
            let mut j: usize = 0;
            while j < n
                invariant
                    i < n,
                    j <= n,
                    n == shares@.len(),
                    term@ == lagrange_term_prefix(shares@, i as int, j as int),
                    forall|a: int, b: int|
                        0 <= a < b < n ==> shares@[a].point@ != shares@[b].point@,
                decreases n - j,
            {
                let pi = &shares[i].point;
                let pj = &shares[j].point;
                if !pi.equals(pj) {
                    proof {
                        use_type_invariant(pi);
                        use_type_invariant(pj);
                        crate::scalar::lemma_sub_zero_iff(pi@, pj@);
                    }
                    let num = scalar_neg(pj);
                    let den = scalar_sub(pi, pj);
                    term = scalar_mul(&term, &scalar_div(&num, &den));
                } else {
                    proof {
                        if i != j {
                            if i < j {
                                assert(shares@[i as int].point@ != shares@[j as int].point@);
                            } else {
                                assert(shares@[j as int].point@ != shares@[i as int].point@);
                            }
                        }
                    }
                }
                j = j + 1;
            }
            res = scalar_add(&res, &term);
            i = i + 1;
        }
        Ok(res)
    }
}

} // verus!
