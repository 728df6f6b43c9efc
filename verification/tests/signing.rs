use sps_eq::errors::SpsEqSignatureError;
use sps_eq::sign::SigningKey;

use ark_bls12_381::{Fr, G1Affine, G1Projective, G2Projective};
use ark_ec::msm::VariableBaseMSM;
use ark_ec::ProjectiveCurve;
use ark_ff::{Field, One, UniformRand, Zero};
use rand::thread_rng;

#[test]
fn test_new_keys() {
    let capacity = 2;
    let rnd = &mut thread_rng();

    let sk = SigningKey::new(capacity, rnd);

    assert_eq!(sk.capacity(), capacity);
    assert_eq!(sk.capacity(), sk.scalars().len());

    let secret_keys = vec![
        Fr::rand(&mut thread_rng()),
        Fr::rand(&mut thread_rng()),
        Fr::rand(&mut thread_rng()),
    ];
    let capacity = secret_keys.len();

    let sk = SigningKey::from(secret_keys).unwrap();

    assert_eq!(sk.capacity(), capacity);
    assert_eq!(sk.scalars().len(), capacity);
}

#[test]
fn test_iterator() {
    let sk = SigningKey::from(vec![Fr::one(); 3]).unwrap();
    for item in sk.scalars() {
        assert_eq!(*item, Fr::one())
    }
}

#[test]
fn given_sk() {
    let sk = SigningKey::new(3, &mut thread_rng());
    let values = sk.scalars().clone();

    let sk_from_value = SigningKey::from(values).unwrap();
    assert_eq!(sk, sk_from_value)
}

#[test]
fn test_addition() {
    let mut init = G2Projective::prime_subgroup_generator();
    init *= Fr::one();

    assert_eq!(init, G2Projective::prime_subgroup_generator())
}

#[test]
fn g1_generator() {
    let z = G1Affine::zero();
    let _lalal = G1Projective::zero();
    let _y = G1Projective::prime_subgroup_generator();
    let _yp = G2Projective::prime_subgroup_generator();

    let a = VariableBaseMSM::multi_scalar_mul(&[z], &[Fr::one().into()]);

    let b = Fr::rand(&mut thread_rng());
    let _c = b.inverse();

    assert_eq!(a, z);
}

#[test]
fn import_rejects_zero() {
    let secret_keys = vec![
        Fr::rand(&mut thread_rng()),
        Fr::zero(),
        Fr::rand(&mut thread_rng()),
    ];
    assert_eq!(
        SigningKey::from(secret_keys).unwrap_err(),
        SpsEqSignatureError::InvalidSecretKeyVector
    );
}

#[test]
fn import_rejects_empty() {
    assert_eq!(
        SigningKey::from(Vec::new()).unwrap_err(),
        SpsEqSignatureError::InvalidSecretKeyVector
    );
}

#[test]
fn generation_draws_independent_scalars() {
    let sk = SigningKey::new(6, &mut thread_rng());
    let scalars = sk.scalars();
    for i in 0..scalars.len() {
        assert!(scalars[i] != Fr::zero());
        for j in 0..i {
            assert!(scalars[i] != scalars[j]);
        }
    }
}

#[test]
fn zeroize_clears_scalars() {
    let mut sk = SigningKey::new(3, &mut thread_rng());
    sk.zeroize();
    assert_eq!(sk.capacity(), 3);
    for scalar in sk.scalars() {
        assert_eq!(*scalar, Fr::zero());
    }
}

#[test]
fn error_descriptions() {
    assert_eq!(
        SpsEqSignatureError::UnmatchedCapacity.description(),
        "The capacities do not match"
    );
    assert_eq!(
        SpsEqSignatureError::InvalidSignature.description(),
        "Invalid signature"
    );
    assert_eq!(
        SpsEqSignatureError::InvalidSecretKeyVector.description(),
        "Failed to generate a secret key from the given array"
    );
    assert_eq!(
        SpsEqSignatureError::IoErrorWrite.description(),
        "Error writing in the IO stream"
    );
    assert_eq!(
        SpsEqSignatureError::InvalidEncoding.description(),
        "The bytes do not encode a public key"
    );
}
