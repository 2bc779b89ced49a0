//! The accumulator lifecycle end to end: a credential set committed as
//! polynomial roots, membership witnessed and checked against the real
//! commitment scheme.

use evss::biaccumulator::Biaccumulator;
use evss::errors::ProtocolError;
use evss::rng::SharingRng;
use evss::scalar::{scalar_random, Scalar};

#[test]
fn biaccumulator381_test_functionality() {
    let rng = &mut SharingRng::from_seed(11);
    let creds: Vec<Scalar> = (0..10).map(|_| scalar_random(rng)).collect();
    let params = match Biaccumulator::setup(10, rng) {
        Ok(p) => p,
        Err(_) => panic!("setup failed"),
    };
    let poly = match Biaccumulator::commit(&params, &creds, rng) {
        Ok(p) => p,
        Err(_) => panic!("commit failed"),
    };
    for cred in &creds {
        let witness = match Biaccumulator::create_witness(cred, &params, &poly, rng) {
            Ok(w) => w,
            Err(_) => panic!("witness creation failed"),
        };
        let verdict = match Biaccumulator::check(
            &params.get_public_params(),
            &poly.get_commit(),
            &witness,
            rng,
        ) {
            Ok(b) => b,
            Err(_) => panic!("check failed to run"),
        };
        assert!(verdict);
    }
}

#[test]
fn accumulator_membership_concrete_set() {
    let rng = &mut SharingRng::from_seed(12);
    let creds = vec![Scalar::from_u64(5), Scalar::from_u64(9), Scalar::from_u64(13)];
    let params = Biaccumulator::setup(4, rng).ok().expect("setup failed");
    let poly = Biaccumulator::commit(&params, &creds, rng).ok().expect("commit failed");

    // Three roots and a monic leading coefficient: four coefficients.
    assert_eq!(poly.polynomial.len(), 4);

    let member = Biaccumulator::create_witness(&Scalar::from_u64(9), &params, &poly, rng)
        .ok()
        .expect("witness creation failed");
    assert_eq!(member.value, Scalar::from_u64(0));
    let verdict = Biaccumulator::check(&params.get_public_params(), &poly.get_commit(), &member, rng)
        .ok()
        .expect("check failed to run");
    assert!(verdict);

    let outsider = Biaccumulator::create_witness(&Scalar::from_u64(7), &params, &poly, rng)
        .ok()
        .expect("witness creation failed");
    assert_ne!(outsider.value, Scalar::from_u64(0));
    let verdict = Biaccumulator::check(
        &params.get_public_params(),
        &poly.get_commit(),
        &outsider,
        rng,
    )
    .ok()
    .expect("check failed to run");
    assert!(!verdict);
}

#[test]
fn oversized_credential_set_is_rejected() {
    let rng = &mut SharingRng::from_seed(13);
    let creds: Vec<Scalar> = (0..5u64).map(Scalar::from_u64).collect();
    let params = Biaccumulator::setup(4, rng).ok().expect("setup failed");
    match Biaccumulator::commit(&params, &creds, rng) {
        Err(ProtocolError::SetTooLarge) => {},
        Err(_) => panic!("wrong error for an oversized credential set"),
        Ok(_) => panic!("a set larger than the degree must not commit"),
    }
}

#[test]
fn nonzero_witness_value_is_rejected_without_the_scheme() {
    let rng = &mut SharingRng::from_seed(14);
    let creds = vec![Scalar::from_u64(5), Scalar::from_u64(9)];
    let params = Biaccumulator::setup(4, rng).ok().expect("setup failed");
    let poly = Biaccumulator::commit(&params, &creds, rng).ok().expect("commit failed");
    let mut witness = Biaccumulator::create_witness(&Scalar::from_u64(9), &params, &poly, rng)
        .ok()
        .expect("witness creation failed");
    witness.value = Scalar::from_u64(1);
    let verdict = Biaccumulator::check(
        &params.get_public_params(),
        &poly.get_commit(),
        &witness,
        rng,
    )
    .ok()
    .expect("check failed to run");
    assert!(!verdict);
}
