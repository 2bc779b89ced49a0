//! The polynomial capability: evaluation and root-product construction,
//! consumed from ark_poly.  A polynomial is carried as its coefficient
//! vector, lowest degree first, and its evaluation is named over the
//! field-operation names by a Horner recursion.

use vstd::prelude::*;

use ark_bls12_381::Fr;
use ark_poly::univariate::DensePolynomial;
use ark_poly::{Polynomial, UVPolynomial};
use ark_serialize::{CanonicalDeserialize, CanonicalSerialize};

use crate::scalar::{
    add_of, fe_mod, fe_value, lemma_scalar_of_u64_ok, mul_of, one_scalar, scalar_ok, sub_of,
    zero_scalar, Scalar,
};

verus! {

/// The canonical byte view of each element of a scalar sequence.
pub open spec fn byte_views(s: Seq<Scalar>) -> Seq<Seq<u8>> {
    s.map_values(|c: Scalar| c@)
}

/// The value of the polynomial with coefficients `cs` (lowest degree
/// first) at `x`, written as a Horner recursion over the field-operation
/// names.
pub open spec fn eval_spec(cs: Seq<Seq<u8>>, x: Seq<u8>) -> Seq<u8>
    decreases cs.len(),
{
    if cs.len() == 0 {
        zero_scalar()
    } else {
        add_of(cs[0], mul_of(x, eval_spec(cs.skip(1), x)))
    }
}

/// Evaluates the polynomial with the given coefficients at a point.
///
/// Relies on ark_poly's `Polynomial::evaluate` for dense univariate
/// polynomials, between conversions through ark_serialize's canonical
/// byte form.  A byte string that is not a canonical encoding is read
/// as zero, so the result is a function of the argument bytes alone.
#[verifier::external_body]
pub(crate) fn poly_eval(coeffs: &Vec<Scalar>, point: &Scalar) -> (r: Scalar)
    ensures
        r@ == eval_spec(byte_views(coeffs@), point@),
        scalar_ok(r@),
{
    let cs: Vec<Fr> = coeffs.iter().map(|c| Fr::deserialize(&c.bytes[..]).unwrap_or_default()).collect();
    let x = Fr::deserialize(&point.bytes[..]).unwrap_or_default();
    let v = DensePolynomial::from_coefficients_vec(cs).evaluate(&x);
    let mut out: Vec<u8> = Vec::new();
    v.serialize(&mut out).unwrap();
    Scalar { bytes: out }
}

/// Multiplies the polynomial with the given coefficients by the monic
/// linear factor whose root is `root`.
///
/// Relies on ark_poly's `naive_mul` for dense univariate polynomials:
/// the product polynomial evaluates everywhere to the product of the
/// factors' values, so it vanishes at `root`, keeps every root the
/// multiplicand already had, and — the modulus being prime, the field
/// has no zero divisors — vanishes nowhere else.  A monic multiplicand
/// (its leading coefficient has no trailing zero encoding to drop)
/// grows by exactly one coefficient and stays monic.  A byte string
/// that is not a canonical encoding is read as zero.
#[verifier::external_body]
pub(crate) fn poly_mul_linear(coeffs: &Vec<Scalar>, root: &Scalar) -> (r: Vec<Scalar>)
    ensures
        forall|x: Seq<u8>|
            scalar_ok(x) ==> eval_spec(byte_views(r@), x) == mul_of(
                eval_spec(byte_views(coeffs@), x),
                sub_of(x, root@),
            ),
        eval_spec(byte_views(r@), root@) == zero_scalar(),
        forall|x: Seq<u8>|
            scalar_ok(x) && eval_spec(byte_views(coeffs@), x) == zero_scalar()
                ==> eval_spec(byte_views(r@), x) == zero_scalar(),
        forall|x: Seq<u8>|
            scalar_ok(x) && eval_spec(byte_views(coeffs@), x) != zero_scalar() && sub_of(
                x,
                root@,
            ) != zero_scalar() ==> eval_spec(byte_views(r@), x) != zero_scalar(),
        coeffs@.len() > 0 && coeffs@[coeffs@.len() - 1]@ == one_scalar() ==> {
            &&& r@.len() == coeffs@.len() + 1
            &&& r@[r@.len() - 1]@ == one_scalar()
        },
{
    let cs: Vec<Fr> = coeffs.iter().map(|c| Fr::deserialize(&c.bytes[..]).unwrap_or_default()).collect();
    let c = Fr::deserialize(&root.bytes[..]).unwrap_or_default();
    let p = DensePolynomial::from_coefficients_vec(cs);
    let prod = p.naive_mul(&DensePolynomial::from_coefficients_slice(&[-c, Fr::from(1u64)]));
    prod.coeffs.iter().map(|e| {
        let mut b: Vec<u8> = Vec::new();
        e.serialize(&mut b).unwrap();
        Scalar { bytes: b }
    }).collect()
}

/// The constant-one polynomial evaluates to one everywhere, and one is
/// not zero.
pub proof fn lemma_eval_constant_one(x: Seq<u8>)
    ensures
        eval_spec(seq![one_scalar()], x) == one_scalar(),
        one_scalar() != zero_scalar(),
{
    reveal(crate::scalar::add_of);
    reveal(crate::scalar::mul_of);
    lemma_scalar_of_u64_ok(0);
    lemma_scalar_of_u64_ok(1);
    let p = crate::scalar::field_modulus() as int;
    assert(seq![one_scalar()].skip(1) =~= Seq::<Seq<u8>>::empty());
    assert(eval_spec(Seq::<Seq<u8>>::empty(), x) == zero_scalar());
    assert(seq![one_scalar()][0] == one_scalar());
    assert(eval_spec(seq![one_scalar()], x) == add_of(
        one_scalar(),
        mul_of(x, zero_scalar()),
    ));
    assert(mul_of(x, zero_scalar()) == zero_scalar()) by {
        assert(fe_value(zero_scalar()) == 0);
        assert(fe_mod(fe_value(x) as int * 0) == 0) by {
            vstd::arithmetic::div_mod::lemma_small_mod(0, p as nat);
        }
    }
    assert(add_of(one_scalar(), zero_scalar()) == one_scalar()) by {
        assert(fe_value(one_scalar()) == 1);
        assert(fe_mod(1int + 0) == 1) by {
            vstd::arithmetic::div_mod::lemma_small_mod(1, p as nat);
        }
    }
}

} // verus!
