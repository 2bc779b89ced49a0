//! The polynomial accumulator: a credential set committed as the roots
//! of a monic polynomial, membership proven by an opening that shows
//! the polynomial vanishes at the credential.

use vstd::prelude::*;

use crate::errors::ProtocolError;
use crate::evss::{EVSSCommit, EVSSParams, EVSSPolynomial, EVSSPublicParams, EVSSShare, EVSS};
use crate::pc::{pc_check, pc_commit};
use crate::poly::{byte_views, eval_spec, lemma_eval_constant_one, poly_mul_linear};
use crate::rng::SharingRng;
use crate::scalar::{lemma_sub_zero_iff, one_scalar, scalar_ok, zero_scalar, Scalar};

verus! {

/// Every credential of the set is a root of the polynomial with
/// coefficients `cs`.
pub open spec fn all_roots(cs: Seq<Seq<u8>>, creds: Seq<Scalar>) -> bool {
    forall|j: int| 0 <= j < creds.len() ==> eval_spec(cs, creds[j]@) == zero_scalar()
}

/// The byte string differs from each of the first `n` credentials'
/// encodings.
pub open spec fn outside_first(x: Seq<u8>, creds: Seq<Scalar>, n: int) -> bool {
    forall|j: int| 0 <= j < n ==> x != creds[j]@
}

/// Away from the credential set the polynomial never vanishes: the
/// credentials are its only roots.
pub open spec fn no_other_roots(cs: Seq<Seq<u8>>, creds: Seq<Scalar>) -> bool {
    forall|x: Seq<u8>|
        scalar_ok(x) && outside_first(x, creds, creds.len() as int) ==> eval_spec(cs, x)
            != zero_scalar()
}

/// A witness opened at a credential of the accumulated set always
/// carries the value zero, so the zero test in `Biaccumulator::check`
/// never rejects an honestly created witness for a member.
pub proof fn lemma_member_witness_value_zero(cs: Seq<Seq<u8>>, creds: Seq<Scalar>, j: int)
    requires
        all_roots(cs, creds),
        0 <= j < creds.len(),
    ensures
        eval_spec(cs, creds[j]@) == zero_scalar(),
{
}

/// A witness opened at a credential outside the accumulated set never
/// carries the value zero, so the zero test in `Biaccumulator::check`
/// rejects it outright, before the commitment scheme is even asked.
pub proof fn lemma_non_member_witness_value_nonzero(
    cs: Seq<Seq<u8>>,
    creds: Seq<Scalar>,
    x: Seq<u8>,
)
    requires
        no_other_roots(cs, creds),
        scalar_ok(x),
        outside_first(x, creds, creds.len() as int),
    ensures
        eval_spec(cs, x) != zero_scalar(),
{
}

/// The accumulator-side operations, reusing the sharing primitives for
/// opening and verification.
pub struct Biaccumulator;

impl Biaccumulator {
    /// Same shape as the sharing setup: `degree` bounds the largest
    /// accumulable set, which needs one coefficient more than it has
    /// credentials.  It succeeds exactly on a nonzero degree.
    pub fn setup(degree: usize, rng: &mut SharingRng) -> (r: Result<EVSSParams, ProtocolError>)
        ensures
            r is Ok <==> degree >= 1,
            r matches Ok(p) ==> p.degree == degree,
            r matches Err(e) ==> e is Scheme,
    {
        EVSS::setup(degree, rng)
    }

    /// Builds the monic polynomial whose roots are exactly the
    /// credentials — each credential a root, no other element one, the
    /// degree equal to the set's size — as the iterated product of the
    /// factors `(x - c)` starting from the constant one, and commits to
    /// it.  The trimmed key supports polynomials of degree up to the
    /// parameters' `degree`, so a set of more than `degree` credentials
    /// cannot be committed; it is rejected before the scheme is
    /// invoked.
    pub fn commit(
        params: &EVSSParams,
        creds: &Vec<Scalar>,
        rng: &mut SharingRng,
    ) -> (r: Result<EVSSPolynomial, ProtocolError>)
        ensures
            creds@.len() > params.degree ==> (r matches Err(e) && e is SetTooLarge),
            creds@.len() <= params.degree ==> (r matches Err(e) ==> e is Scheme),
            r matches Ok(ap) ==> all_roots(byte_views(ap.polynomial@), creds@),
            r matches Ok(ap) ==> no_other_roots(byte_views(ap.polynomial@), creds@),
            r matches Ok(ap) ==> {
                &&& ap.polynomial@.len() == creds@.len() + 1
                &&& ap.polynomial@[ap.polynomial@.len() - 1]@ == one_scalar()
            },
            creds@.len() == 0 ==> (r matches Ok(ap) ==> byte_views(ap.polynomial@) == seq![
                one_scalar(),
            ]),
    {
        if creds.len() > params.degree {
            return Err(ProtocolError::SetTooLarge);
        }
        let mut coeffs: Vec<Scalar> = vec![Scalar::from_u64(1)];
        assert(byte_views(coeffs@) =~= seq![one_scalar()]);
        let n = creds.len();
        let mut i: usize = 0;
        proof {
            assert forall|x: Seq<u8>| scalar_ok(x) && outside_first(x, creds@, 0) implies
                eval_spec(byte_views(coeffs@), x) != zero_scalar() by {
                lemma_eval_constant_one(x);
            }
        }
        while i < n
            invariant
                i <= n,
                n == creds@.len(),
                n == 0 ==> byte_views(coeffs@) == seq![one_scalar()],
                coeffs@.len() == i + 1,
                coeffs@[coeffs@.len() - 1]@ == one_scalar(),
                forall|j: int| 0 <= j < i ==> scalar_ok(creds@[j]@),
                forall|j: int|
                    0 <= j < i ==> eval_spec(byte_views(coeffs@), creds@[j]@) == zero_scalar(),
                forall|x: Seq<u8>|
                    scalar_ok(x) && outside_first(x, creds@, i as int) ==> eval_spec(
                        byte_views(coeffs@),
                        x,
                    ) != zero_scalar(),
            decreases n - i,
        {
            let c = &creds[i];
            proof {
                use_type_invariant(c);
            }
            let next = poly_mul_linear(&coeffs, c);
            proof {
                assert forall|x: Seq<u8>|
                    scalar_ok(x) && outside_first(x, creds@, i as int + 1) implies eval_spec(
                    byte_views(next@),
                    x,
                ) != zero_scalar() by {
                    assert(outside_first(x, creds@, i as int));
                    assert(x != creds@[i as int]@);
                    lemma_sub_zero_iff(x, creds@[i as int]@);
                }
            }
            coeffs = next;
            i = i + 1;
        }
        let (commit, rands) = match pc_commit(&params.committer_key, &coeffs, rng) {
            Ok(cr) => cr,
            Err(e) => {
                return Err(ProtocolError::Scheme(e));
            },
        };
        Ok(EVSSPolynomial { polynomial: coeffs, commit, rands })
    }

    /// Opens the accumulator polynomial at the credential, exactly as a
    /// share is issued; for a member the carried value is the
    /// polynomial's evaluation there, which is zero.
    pub fn create_witness(
        cred: &Scalar,
        params: &EVSSParams,
        poly: &EVSSPolynomial,
        rng: &mut SharingRng,
    ) -> (r: Result<EVSSShare, ProtocolError>)
        ensures
            r matches Ok(w) ==> {
                &&& w.point@ == cred@
                &&& w.value@ == eval_spec(byte_views(poly.polynomial@), cred@)
            },
            r matches Err(e) ==> e is Scheme,
    {
        EVSS::get_share(cred, params, poly, rng)
    }

    /// Rejects a witness whose claimed value is not zero outright,
    /// without invoking the commitment scheme; otherwise returns the
    /// scheme's verdict on the opening.  Both conditions are needed:
    /// the zero test rejects a witness honestly opened to a nonzero
    /// value, the scheme rejects a zero claim without a valid proof.
    pub fn check(
        params: &EVSSPublicParams,
        commit: &EVSSCommit,
        share: &EVSSShare,
        rng: &mut SharingRng,
    ) -> (r: Result<bool, ProtocolError>)
        ensures
            share.value@ != zero_scalar() ==> r == Ok::<bool, ProtocolError>(false),
            (r matches Ok(b) && b) ==> share.value@ == zero_scalar(),
            r matches Err(e) ==> e is Scheme,
    {
        let zero = Scalar::from_u64(0);
        if !share.value.equals(&zero) {
            return Ok(false);
        }
        match pc_check(
            &params.verifier_key,
            &commit.commit,
            &share.point,
            &share.value,
            &share.proof,
            &share.challenge,
            rng,
        ) {
            Ok(b) => Ok(b),
            Err(e) => Err(ProtocolError::Scheme(e)),
        }
    }
}

} // verus!
