use sps_eq::errors::SpsEqSignatureError;
use sps_eq::pairing::G1Point;
use sps_eq::sign::{SigningKey, SpsEqSignature};
use sps_eq::verify::PublicKey;

use rand::rngs::StdRng;
use rand::thread_rng;
use rand::SeedableRng;

#[test]
fn test_new_repr() {
    let sk = SigningKey::new(2, &mut thread_rng());
    let pk = PublicKey::from(&sk);

    let point = G1Point::random(&mut thread_rng());
    let message = vec![point.duplicate(), point];
    let signature = sk.sign(&message, &mut thread_rng());

    assert!(pk.verify(&message, &signature).is_ok());

    let new_repr = signature.generate_new_repr(&message, &mut thread_rng());
    let new_repr_message = new_repr.1;
    let new_repr_signature = new_repr.0;

    assert!(pk.verify(&new_repr_message, &new_repr_signature).is_ok());
}

#[test]
fn new_repr_differs_componentwise() {
    let mut rng = StdRng::seed_from_u64(29);
    let sk = SigningKey::new(3, &mut rng);
    let pk = PublicKey::from(&sk);

    let message = vec![
        G1Point::random(&mut rng),
        G1Point::random(&mut rng),
        G1Point::random(&mut rng),
    ];
    let signature = sk.sign(&message, &mut rng);
    assert!(pk.verify(&message, &signature).is_ok());

    let (new_signature, new_message) = signature.generate_new_repr(&message, &mut rng);
    assert_eq!(pk.verify(&new_message, &new_signature), Ok(()));

    for i in 0..message.len() {
        assert!(new_message[i] != message[i]);
    }
}

#[test]
fn change_repr_in_place_preserves_validity() {
    let mut rng = StdRng::seed_from_u64(31);
    let sk = SigningKey::new(2, &mut rng);
    let pk = PublicKey::from(&sk);

    let message = vec![G1Point::random(&mut rng), G1Point::random(&mut rng)];
    let mut signature = sk.sign(&message, &mut rng);
    assert!(pk.verify(&message, &signature).is_ok());

    let new_message = signature.change_repr(&message, &mut rng);
    assert_eq!(pk.verify(&new_message, &signature), Ok(()));
    assert_eq!(
        pk.verify(&message, &signature),
        Err(SpsEqSignatureError::InvalidSignature)
    );
}

#[test]
fn change_repr_runs_are_independent() {
    let mut rng = StdRng::seed_from_u64(37);
    let sk = SigningKey::new(2, &mut rng);
    let pk = PublicKey::from(&sk);

    let message = vec![G1Point::random(&mut rng), G1Point::random(&mut rng)];
    let signature = sk.sign(&message, &mut rng);

    let copy = SpsEqSignature {
        Z: signature.Z.duplicate(),
        Y: signature.Y.duplicate(),
        Yp: signature.Yp.duplicate(),
    };

    let (first_sig, first_msg) = signature.generate_new_repr(&message, &mut rng);
    let (second_sig, second_msg) = copy.generate_new_repr(&message, &mut rng);

    assert!(pk.verify(&first_msg, &first_sig).is_ok());
    assert!(pk.verify(&second_msg, &second_sig).is_ok());

    assert!(first_sig.Z != second_sig.Z);
    assert!(first_msg[0] != second_msg[0]);
}

#[test]
fn soundness_probe_repeated() {
    let mut rng = StdRng::seed_from_u64(41);
    let sk = SigningKey::new(2, &mut rng);
    let pk = PublicKey::from(&sk);

    let message = vec![G1Point::random(&mut rng), G1Point::random(&mut rng)];
    let signature = sk.sign(&message, &mut rng);

    for _ in 0..5 {
        let fresh = vec![G1Point::random(&mut rng), G1Point::random(&mut rng)];
        assert_eq!(
            pk.verify(&fresh, &signature),
            Err(SpsEqSignatureError::InvalidSignature)
        );
    }
}
