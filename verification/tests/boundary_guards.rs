//! Malformed opaque values, as a hostile or corrupt wire could supply
//! them, must surface as scheme errors from the protocol operations,
//! never as aborts.

use evss::errors::ProtocolError;
use evss::evss::EVSS;
use evss::rng::SharingRng;
use evss::scalar::{scalar_random, Scalar};

#[test]
fn shifted_commitment_is_rejected_not_fatal() {
    let rng = &mut SharingRng::from_seed(31);
    let secret = scalar_random(rng);
    let params = EVSS::setup(3, rng).ok().expect("setup failed");
    let poly = EVSS::commit(&params, &secret, rng).ok().expect("commit failed");
    let share = EVSS::get_share(&Scalar::from_u64(1), &params, &poly, rng)
        .ok()
        .expect("share issuance failed");
    let mut commit = poly.get_commit();
    commit.commit.inner.shifted_comm = Some(commit.commit.inner.comm.clone());
    match EVSS::check(&params.get_public_params(), &commit, &share, rng) {
        Err(ProtocolError::Scheme(_)) => {},
        _ => panic!("a shifted commitment must be turned away as a scheme error"),
    }
}

#[test]
fn shifted_randomness_is_rejected_not_fatal() {
    let rng = &mut SharingRng::from_seed(32);
    let secret = scalar_random(rng);
    let params = EVSS::setup(3, rng).ok().expect("setup failed");
    let mut poly = EVSS::commit(&params, &secret, rng).ok().expect("commit failed");
    poly.rands.inner.shifted_rand = Some(poly.rands.inner.rand.clone());
    match EVSS::get_share(&Scalar::from_u64(1), &params, &poly, rng) {
        Err(ProtocolError::Scheme(_)) => {},
        _ => panic!("shifted randomness must be turned away as a scheme error"),
    }
}

#[test]
fn empty_committer_key_is_rejected_not_fatal() {
    let rng = &mut SharingRng::from_seed(33);
    let secret = scalar_random(rng);
    let mut params = EVSS::setup(3, rng).ok().expect("setup failed");
    params.committer_key.inner.powers.clear();
    match EVSS::commit(&params, &secret, rng) {
        Err(ProtocolError::Scheme(_)) => {},
        _ => panic!("an empty committer key must be turned away as a scheme error"),
    }
}
