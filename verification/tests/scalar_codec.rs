//! The canonical byte form of field elements: exact little-endian
//! embedding of machine integers, round-trip fidelity, and rejection of
//! non-canonical byte strings.

use evss::rng::SharingRng;
use evss::scalar::{scalar_random, Scalar};

#[test]
fn from_u64_is_little_endian() {
    let b = Scalar::from_u64(17).to_bytes();
    assert_eq!(b.len(), 32);
    assert_eq!(b[0], 17);
    for i in 1..32 {
        assert_eq!(b[i], 0);
    }

    let b = Scalar::from_u64(0x0102).to_bytes();
    assert_eq!(b[0], 0x02);
    assert_eq!(b[1], 0x01);
    assert_eq!(b[2], 0);
}

#[test]
fn byte_round_trip_preserves_the_element() {
    let rng = &mut SharingRng::from_seed(21);
    for _ in 0..8 {
        let s = scalar_random(rng);
        let back = match Scalar::from_bytes(&s.to_bytes()) {
            Some(v) => v,
            None => panic!("a canonical encoding was rejected"),
        };
        assert_eq!(s, back);
    }
}

#[test]
fn non_canonical_bytes_are_rejected() {
    // Too short.
    assert!(Scalar::from_bytes(&vec![0u8; 31]).is_none());
    // Too long.
    assert!(Scalar::from_bytes(&vec![0u8; 33]).is_none());
    // Thirty-two bytes of ones denotes an integer above the modulus.
    assert!(Scalar::from_bytes(&vec![0xffu8; 32]).is_none());
}

#[test]
fn field_arithmetic_reaches_the_shares() {
    // Equality is byte equality of canonical encodings: distinct
    // embeddings stay distinct, equal ones compare equal.
    assert!(Scalar::from_u64(5).equals(&Scalar::from_u64(5)));
    assert!(!Scalar::from_u64(5).equals(&Scalar::from_u64(6)));
    assert_ne!(Scalar::from_u64(1), Scalar::from_u64(0));
}
