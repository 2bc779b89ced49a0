//! Elements of the BLS12-381 scalar field, carried in their canonical
//! 32-byte little-endian encoding so that the protocol layer can state
//! exact contracts over plain byte sequences.

use vstd::prelude::*;

use ark_bls12_381::Fr;
use ark_serialize::{CanonicalDeserialize, CanonicalSerialize};

verus! {

/// The prime modulus of the BLS12-381 scalar field, assembled from its
/// four 64-bit little-endian limbs.
pub open spec fn field_modulus() -> nat {
    (((0x73eda753299d7d48nat * 0x1_0000_0000_0000_0000 + 0x3339d80809a1d805)
        * 0x1_0000_0000_0000_0000 + 0x53bda402fffe5bfe)
        * 0x1_0000_0000_0000_0000 + 0xffffffff00000001) as nat
}

/// The integer that a little-endian byte string denotes.
pub open spec fn le_value(b: Seq<u8>) -> nat
    decreases b.len(),
{
    if b.len() == 0 {
        0
    } else {
        (b[0] as nat) + 256 * le_value(b.skip(1))
    }
}

/// The `len`-byte little-endian encoding of `n` (dropping bits beyond
/// the last byte).
pub open spec fn le_bytes(n: nat, len: nat) -> Seq<u8>
    decreases len,
{
    if len == 0 {
        Seq::empty()
    } else {
        seq![(n % 256) as u8] + le_bytes(n / 256, (len - 1) as nat)
    }
}

/// A byte string is the canonical encoding of a field element exactly
/// when it has the canonical length and denotes an integer below the
/// modulus.
pub open spec fn scalar_ok(b: Seq<u8>) -> bool {
    b.len() == 32 && le_value(b) < field_modulus()
}

/// Canonical encoding of the field element that a machine integer embeds to.
pub open spec fn scalar_of_u64(x: u64) -> Seq<u8> {
    le_bytes(x as nat, 32)
}

/// Canonical encoding of the additive identity.
pub open spec fn zero_scalar() -> Seq<u8> {
    scalar_of_u64(0)
}

/// Canonical encoding of the multiplicative identity.
pub open spec fn one_scalar() -> Seq<u8> {
    scalar_of_u64(1)
}

proof fn lemma_le_bytes_len(n: nat, len: nat)
    ensures
        le_bytes(n, len).len() == len,
    decreases len,
{
    if len > 0 {
        lemma_le_bytes_len(n / 256, (len - 1) as nat);
    }
}

proof fn lemma_le_bytes_value(n: nat, len: nat)
    requires
        n < vstd::arithmetic::power::pow(256, len),
    ensures
        le_value(le_bytes(n, len)) == n,
    decreases len,
{
    if len == 0 {
        assert(n == 0) by {
            reveal(vstd::arithmetic::power::pow);
        }
    } else {
        let tail = le_bytes(n / 256, (len - 1) as nat);
        assert(le_bytes(n, len).skip(1) =~= tail);
        assert(n / 256 < vstd::arithmetic::power::pow(256, (len - 1) as nat)) by {
            reveal(vstd::arithmetic::power::pow);
            vstd::arithmetic::div_mod::lemma_multiply_divide_lt(
                n as int,
                256,
                vstd::arithmetic::power::pow(256, (len - 1) as nat),
            );
        }
        lemma_le_bytes_value(n / 256, (len - 1) as nat);
        assert(n == 256 * (n / 256) + n % 256) by {
            vstd::arithmetic::div_mod::lemma_fundamental_div_mod(n as int, 256);
        }
    }
}

/// Any machine integer embeds to a canonical encoding: its value is far
/// below the field modulus.
pub proof fn lemma_scalar_of_u64_ok(x: u64)
    ensures
        scalar_ok(scalar_of_u64(x)),
        le_value(scalar_of_u64(x)) == x,
{
    lemma_le_bytes_len(x as nat, 32);
    assert((x as nat) < vstd::arithmetic::power::pow(256, 32)) by {
        vstd::arithmetic::power::lemma_pow_strictly_increases(256, 8, 32);
        assert(vstd::arithmetic::power::pow(256, 8) == 0x1_0000_0000_0000_0000) by {
            reveal_with_fuel(vstd::arithmetic::power::pow, 9);
        }
        assert(x < 0x1_0000_0000_0000_0000);
    }
    lemma_le_bytes_value(x as nat, 32);
    assert(le_value(scalar_of_u64(x)) < field_modulus());
}

/// The field value a byte string denotes: its little-endian value for
/// a canonical encoding, zero for anything else — which is how the
/// trusted wrappers read such a string.
pub open spec fn fe_value(b: Seq<u8>) -> nat {
    if scalar_ok(b) {
        le_value(b)
    } else {
        0
    }
}

/// Reduction of an integer into the field's range.
pub open spec fn fe_mod(x: int) -> nat {
    (x % (field_modulus() as int)) as nat
}

/// What field addition returns: the canonical encoding of the operands'
/// sum, reduced by the modulus.
#[verifier::opaque]
pub open spec fn add_of(a: Seq<u8>, b: Seq<u8>) -> Seq<u8> {
    le_bytes(fe_mod(fe_value(a) as int + fe_value(b) as int), 32)
}

/// What field subtraction returns: the canonical encoding of the
/// operands' difference modulo the modulus.
#[verifier::opaque]
pub open spec fn sub_of(a: Seq<u8>, b: Seq<u8>) -> Seq<u8> {
    le_bytes(fe_mod(fe_value(a) as int - fe_value(b) as int), 32)
}

/// What field multiplication returns: the canonical encoding of the
/// operands' product, reduced by the modulus.
#[verifier::opaque]
pub open spec fn mul_of(a: Seq<u8>, b: Seq<u8>) -> Seq<u8> {
    le_bytes(fe_mod(fe_value(a) as int * fe_value(b) as int), 32)
}

/// What field division returns, as a function of the operand bytes
/// alone (the divisor nonzero): the product with the divisor's
/// multiplicative inverse, whose existence rests on the modulus being
/// prime and is not restated here.
pub uninterp spec fn div_of(a: Seq<u8>, b: Seq<u8>) -> Seq<u8>;

/// What field negation returns: the canonical encoding of the additive
/// inverse.
#[verifier::opaque]
pub open spec fn neg_of(a: Seq<u8>) -> Seq<u8> {
    le_bytes(fe_mod(0 - fe_value(a) as int), 32)
}

/// A byte string is rebuilt, byte for byte, from its little-endian
/// value.
proof fn lemma_le_bytes_of_le_value(b: Seq<u8>)
    ensures
        le_bytes(le_value(b), b.len()) == b,
    decreases b.len(),
{
    if b.len() == 0 {
        assert(le_bytes(0, 0) =~= b);
    } else {
        let tail = b.skip(1);
        let v = le_value(b);
        assert(v == b[0] + 256 * le_value(tail));
        vstd::arithmetic::div_mod::lemma_fundamental_div_mod_converse(
            v as int,
            256,
            le_value(tail) as int,
            b[0] as int,
        );
        lemma_le_bytes_of_le_value(tail);
        assert(le_bytes(v, b.len()) =~= b);
    }
}

/// The modulus fits in thirty-two bytes.
proof fn lemma_modulus_fits()
    ensures
        field_modulus() < vstd::arithmetic::power::pow(256, 32),
{
    let k: int = 0x1_0000_0000_0000_0000;
    assert(vstd::arithmetic::power::pow(256, 8) == k) by {
        reveal_with_fuel(vstd::arithmetic::power::pow, 9);
    }
    vstd::arithmetic::power::lemma_pow_adds(256, 8, 8);
    vstd::arithmetic::power::lemma_pow_adds(256, 16, 16);
    assert(vstd::arithmetic::power::pow(256, 32) == (k * k) * (k * k));
    assert(field_modulus() < (k * k) * (k * k));
}

/// A reduced value re-encodes injectively: the difference of two
/// canonical encodings is the zero element exactly when they are the
/// same encoding.
pub proof fn lemma_sub_zero_iff(a: Seq<u8>, b: Seq<u8>)
    requires
        scalar_ok(a),
        scalar_ok(b),
    ensures
        (sub_of(a, b) == zero_scalar()) <==> (a == b),
{
    reveal(sub_of);
    let p = field_modulus() as int;
    let va = le_value(a) as int;
    let vb = le_value(b) as int;
    lemma_scalar_of_u64_ok(0);
    lemma_modulus_fits();
    if a == b {
        assert((va - vb) % p == 0) by {
            vstd::arithmetic::div_mod::lemma_small_mod(0, p as nat);
        }
        assert(sub_of(a, b) =~= zero_scalar());
    } else {
        assert(va != vb) by {
            if va == vb {
                lemma_le_bytes_of_le_value(a);
                lemma_le_bytes_of_le_value(b);
            }
        }
        let m = (va - vb) % p;
        assert(0 < m < p) by {
            if va > vb {
                vstd::arithmetic::div_mod::lemma_small_mod((va - vb) as nat, p as nat);
            } else {
                vstd::arithmetic::div_mod::lemma_mod_add_multiples_vanish(va - vb, p);
                vstd::arithmetic::div_mod::lemma_small_mod((va - vb + p) as nat, p as nat);
            }
        }
        lemma_le_bytes_value(m as nat, 32);
        assert(le_value(sub_of(a, b)) == m);
        assert(sub_of(a, b) != zero_scalar());
    }
}

/// An element of the BLS12-381 scalar field, held as its canonical
/// 32-byte little-endian encoding.  Equality of encodings coincides with
/// equality of field elements.
#[derive(Debug)]
pub struct Scalar {
    pub(crate) bytes: Vec<u8>,
}

impl View for Scalar {
    type V = Seq<u8>;

    closed spec fn view(&self) -> Seq<u8> {
        self.bytes@
    }
}

impl Scalar {
    #[verifier::type_invariant]
    pub(crate) open spec fn canonical(self) -> bool {
        scalar_ok(self@)
    }

    /// Embeds a machine integer into the field.
    ///
    /// Relies on ark_ff's `From<u64>` for the scalar field and on
    /// ark_serialize's canonical byte form: an integer below the modulus
    /// is encoded as itself in little-endian order.
    #[verifier::external_body]
    pub fn from_u64(x: u64) -> (r: Scalar)
        ensures
            r@ == scalar_of_u64(x),
    {
        let e = Fr::from(x);
        let mut out: Vec<u8> = Vec::new();
        e.serialize(&mut out).unwrap();
        Scalar { bytes: out }
    }

    /// The canonical bytes of this field element.
    pub fn to_bytes(&self) -> (r: Vec<u8>)
        ensures
            r@ == self@,
    {
        let mut out: Vec<u8> = Vec::new();
        let mut i: usize = 0;
        while i < self.bytes.len()
            invariant
                i <= self.bytes.len(),
                out@ == self.bytes@.take(i as int),
            decreases self.bytes.len() - i,
        {
            out.push(self.bytes[i]);
            i = i + 1;
        }
        assert(out@ =~= self.bytes@);
        out
    }

    /// Rebuilds a field element from bytes, accepting exactly the
    /// canonical encodings: the length is checked here, the value
    /// against the modulus by the trusted decoder.
    pub fn from_bytes(b: &Vec<u8>) -> (r: Option<Scalar>)
        ensures
            r is Some <==> scalar_ok(b@),
            r matches Some(s) ==> s@ == b@,
    {
        if b.len() != 32 {
            return None;
        }
        Scalar::decode_fixed(b)
    }

    /// Decodes a byte string of the canonical length, accepting exactly
    /// those below the modulus.
    ///
    /// Relies on ark_serialize's `CanonicalDeserialize` for the scalar
    /// field: a 32-byte read succeeds exactly when the little-endian
    /// value is below the modulus, and the accepted element re-encodes
    /// to the same bytes.
    #[verifier::external_body]
    fn decode_fixed(b: &Vec<u8>) -> (r: Option<Scalar>)
        requires
            b@.len() == 32,
        ensures
            r is Some <==> scalar_ok(b@),
            r matches Some(s) ==> s@ == b@,
    {
        match Fr::deserialize(&b[..]) {
            Ok(_) => Some(Scalar { bytes: b.clone() }),
            Err(_) => None,
        }
    }

    /// Byte-for-byte comparison; by canonicity this is equality of the
    /// underlying field elements.
    pub fn equals(&self, other: &Scalar) -> (r: bool)
        ensures
            r == (self@ == other@),
    {
        if self.bytes.len() != other.bytes.len() {
            assert(self@ != other@);
            return false;
        }
        let n = self.bytes.len();
        let mut i: usize = 0;
        while i < n
            invariant
                i <= n,
                n == self.bytes.len(),
                n == other.bytes.len(),
                forall|j: int| 0 <= j < i ==> self.bytes@[j] == other.bytes@[j],
            decreases n - i,
        {
            if self.bytes[i] != other.bytes[i] {
                return false;
            }
            i = i + 1;
        }
        assert(self@ =~= other@);
        true
    }
}

/// Field addition.
///
/// Relies on ark_ff's `Add` for the BLS12-381 scalar field, between
/// conversions through ark_serialize's canonical byte form.  A byte
/// string that is not a canonical encoding is read as zero, so the
/// result is a function of the argument bytes alone.
#[verifier::external_body]
pub(crate) fn scalar_add(a: &Scalar, b: &Scalar) -> (r: Scalar)
    ensures
        r@ == add_of(a@, b@),
        scalar_ok(r@),
{
    let x = Fr::deserialize(&a.bytes[..]).unwrap_or(Fr::from(0u64));
    let y = Fr::deserialize(&b.bytes[..]).unwrap_or(Fr::from(0u64));
    let mut out: Vec<u8> = Vec::new();
    (x + y).serialize(&mut out).unwrap();
    Scalar { bytes: out }
}

/// Field subtraction.
///
/// Relies on ark_ff's `Sub` for the BLS12-381 scalar field, between
/// conversions through ark_serialize's canonical byte form.
#[verifier::external_body]
pub(crate) fn scalar_sub(a: &Scalar, b: &Scalar) -> (r: Scalar)
    requires
        scalar_ok(a@),
        scalar_ok(b@),
    ensures
        r@ == sub_of(a@, b@),
        scalar_ok(r@),
{
    let x = Fr::deserialize(&a.bytes[..]).unwrap();
    let y = Fr::deserialize(&b.bytes[..]).unwrap();
    let mut out: Vec<u8> = Vec::new();
    (x - y).serialize(&mut out).unwrap();
    Scalar { bytes: out }
}

/// Field multiplication.
///
/// Relies on ark_ff's `Mul` for the BLS12-381 scalar field, between
/// conversions through ark_serialize's canonical byte form.  A byte
/// string that is not a canonical encoding is read as zero.
#[verifier::external_body]
pub(crate) fn scalar_mul(a: &Scalar, b: &Scalar) -> (r: Scalar)
    ensures
        r@ == mul_of(a@, b@),
        scalar_ok(r@),
{
    let x = Fr::deserialize(&a.bytes[..]).unwrap_or(Fr::from(0u64));
    let y = Fr::deserialize(&b.bytes[..]).unwrap_or(Fr::from(0u64));
    let mut out: Vec<u8> = Vec::new();
    (x * y).serialize(&mut out).unwrap();
    Scalar { bytes: out }
}

/// Field division.  The divisor must be nonzero: ark_ff's `Div` panics
/// on a zero divisor, so that input is excluded here.  The quotient is
/// characterized exactly: multiplied back by the divisor it returns
/// the dividend.
///
/// Relies on ark_ff's `Div` for the BLS12-381 scalar field, between
/// conversions through ark_serialize's canonical byte form.
#[verifier::external_body]
pub(crate) fn scalar_div(a: &Scalar, b: &Scalar) -> (r: Scalar)
    requires
        scalar_ok(a@),
        scalar_ok(b@),
        b@ != zero_scalar(),
    ensures
        r@ == div_of(a@, b@),
        scalar_ok(r@),
        mul_of(r@, b@) == a@,
{
    let x = Fr::deserialize(&a.bytes[..]).unwrap();
    let y = Fr::deserialize(&b.bytes[..]).unwrap();
    let mut out: Vec<u8> = Vec::new();
    (x / y).serialize(&mut out).unwrap();
    Scalar { bytes: out }
}

/// Field negation.
///
/// Relies on ark_ff's `Neg` for the BLS12-381 scalar field, between
/// conversions through ark_serialize's canonical byte form.  A byte
/// string that is not a canonical encoding is read as zero.
#[verifier::external_body]
pub(crate) fn scalar_neg(a: &Scalar) -> (r: Scalar)
    ensures
        r@ == neg_of(a@),
        scalar_ok(r@),
{
    let x = Fr::deserialize(&a.bytes[..]).unwrap_or(Fr::from(0u64));
    let mut out: Vec<u8> = Vec::new();
    (-x).serialize(&mut out).unwrap();
    Scalar { bytes: out }
}

/// Samples a field element uniformly at random.  Nothing is assumed of
/// the value beyond canonicity of its encoding.
///
/// Relies on ark_ff's `UniformRand` for the BLS12-381 scalar field.
#[verifier::external_body]
pub fn scalar_random(rng: &mut crate::rng::SharingRng) -> (r: Scalar)
    ensures
        scalar_ok(r@),
{
    let e = <Fr as ark_ff::UniformRand>::rand(&mut rng.inner);
    let mut out: Vec<u8> = Vec::new();
    e.serialize(&mut out).unwrap();
    Scalar { bytes: out }
}

impl PartialEq for Scalar {
    fn eq(&self, other: &Scalar) -> (r: bool) {
        self.equals(other)
    }
}

impl vstd::std_specs::cmp::PartialEqSpecImpl for Scalar {
    open spec fn obeys_eq_spec() -> bool {
        true
    }

    open spec fn eq_spec(&self, other: &Scalar) -> bool {
        self@ == other@
    }
}

impl Eq for Scalar {}

impl Clone for Scalar {
    fn clone(&self) -> (r: Self)
        ensures
            r@ == self@,
    {
        proof {
            use_type_invariant(self);
        }
        Scalar { bytes: self.to_bytes() }
    }
}

} // verus!
