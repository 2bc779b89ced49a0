//! The sharing lifecycle end to end: setup, commit, share issuance,
//! verification and reconstruction, with the real commitment scheme.

use evss::errors::ProtocolError;
use evss::evss::{EVSSShare, EVSS};
use evss::rng::SharingRng;
use evss::scalar::{scalar_random, Scalar};

fn share_at(
    x: u64,
    params: &evss::evss::EVSSParams,
    poly: &evss::evss::EVSSPolynomial,
    rng: &mut SharingRng,
) -> EVSSShare {
    match EVSS::get_share(&Scalar::from_u64(x), params, poly, rng) {
        Ok(s) => s,
        Err(_) => panic!("share issuance failed"),
    }
}

#[test]
fn evss381_test_functionality() {
    let rng = &mut SharingRng::from_seed(1);
    let secret = scalar_random(rng);
    let params = match EVSS::setup(10, rng) {
        Ok(p) => p,
        Err(_) => panic!("setup failed"),
    };
    let poly = match EVSS::commit(&params, &secret, rng) {
        Ok(p) => p,
        Err(_) => panic!("commit failed"),
    };
    let mut shares = Vec::new();
    for i in 1..12u64 {
        shares.push(share_at(i, &params, &poly, rng));
    }
    for sh in &shares {
        let verdict = match EVSS::check(&params.get_public_params(), &poly.get_commit(), sh, rng) {
            Ok(b) => b,
            Err(_) => panic!("check failed to run"),
        };
        assert!(verdict);
    }
    let recovered = match EVSS::reconstruct(10, &shares) {
        Ok(s) => s,
        Err(_) => panic!("reconstruction failed"),
    };
    assert_eq!(secret, recovered);
}

#[test]
fn round_trip_degree_four_secret_seventeen() {
    let rng = &mut SharingRng::from_seed(2);
    let secret = Scalar::from_u64(17);
    let params = EVSS::setup(4, rng).ok().expect("setup failed");
    let poly = EVSS::commit(&params, &secret, rng).ok().expect("commit failed");
    let mut shares = Vec::new();
    for i in 1..5u64 {
        shares.push(share_at(i, &params, &poly, rng));
    }
    for sh in &shares {
        let verdict = EVSS::check(&params.get_public_params(), &poly.get_commit(), sh, rng)
            .ok()
            .expect("check failed to run");
        assert!(verdict);
    }
    let recovered = EVSS::reconstruct(4, &shares).ok().expect("reconstruction failed");
    assert_eq!(Scalar::from_u64(17), recovered);
}

#[test]
fn mutated_share_fails_verification() {
    let rng = &mut SharingRng::from_seed(3);
    let secret = scalar_random(rng);
    let params = EVSS::setup(4, rng).ok().expect("setup failed");
    let poly = EVSS::commit(&params, &secret, rng).ok().expect("commit failed");
    let good = share_at(5, &params, &poly, rng);
    let other = share_at(6, &params, &poly, rng);

    let mut tampered_value = share_at(5, &params, &poly, rng);
    tampered_value.value = scalar_random(rng);
    let verdict = EVSS::check(
        &params.get_public_params(),
        &poly.get_commit(),
        &tampered_value,
        rng,
    )
    .ok()
    .expect("check failed to run");
    assert!(!verdict);

    let swapped_proof = EVSSShare {
        point: good.point,
        value: good.value,
        challenge: good.challenge,
        proof: other.proof,
    };
    let verdict = EVSS::check(
        &params.get_public_params(),
        &poly.get_commit(),
        &swapped_proof,
        rng,
    )
    .ok()
    .expect("check failed to run");
    assert!(!verdict);
}

#[test]
fn duplicate_point_is_rejected() {
    let rng = &mut SharingRng::from_seed(4);
    let secret = scalar_random(rng);
    let params = EVSS::setup(3, rng).ok().expect("setup failed");
    let poly = EVSS::commit(&params, &secret, rng).ok().expect("commit failed");
    let mut shares = Vec::new();
    shares.push(share_at(1, &params, &poly, rng));
    shares.push(share_at(2, &params, &poly, rng));
    // A second opening at point 1: same point, freshly sampled challenge,
    // and (in general) a different claimed value once tampered with.
    let mut dup = share_at(1, &params, &poly, rng);
    dup.value = scalar_random(rng);
    shares.push(dup);
    match EVSS::reconstruct(3, &shares) {
        Err(ProtocolError::DuplicatePoint) => {},
        Err(_) => panic!("wrong error for a duplicated point"),
        Ok(_) => panic!("a duplicated point must not reconstruct"),
    }
}

#[test]
fn too_few_shares_are_rejected() {
    let rng = &mut SharingRng::from_seed(5);
    let secret = scalar_random(rng);
    let params = EVSS::setup(4, rng).ok().expect("setup failed");
    let poly = EVSS::commit(&params, &secret, rng).ok().expect("commit failed");
    let mut shares = Vec::new();
    for i in 1..4u64 {
        shares.push(share_at(i, &params, &poly, rng));
    }
    match EVSS::reconstruct(4, &shares) {
        Err(ProtocolError::TooFewShares) => {},
        Err(_) => panic!("wrong error for an undersized share set"),
        Ok(_) => panic!("an undersized share set must not reconstruct"),
    }
}

#[test]
fn setup_of_degree_zero_is_a_scheme_error() {
    let rng = &mut SharingRng::from_seed(6);
    match EVSS::setup(0, rng) {
        Err(ProtocolError::Scheme(_)) => {},
        Err(_) => panic!("wrong error kind for a degree the scheme rejects"),
        Ok(_) => panic!("the scheme does not support degree zero"),
    }
}
