use sps_eq::errors::SpsEqSignatureError;
use sps_eq::pairing::G1Point;
use sps_eq::sign::SigningKey;
use sps_eq::verify::PublicKey;

use rand::rngs::StdRng;
use rand::thread_rng;
use rand::SeedableRng;

#[test]
fn test_from_to_bytes() {
    let sk = SigningKey::new(2, &mut thread_rng());
    let pk = PublicKey::from(&sk);

    let bytes_pk = pk.to_bytes().unwrap();

    let pk_from_bytes = PublicKey::from_bytes(&bytes_pk).unwrap();

    assert!(pk == pk_from_bytes);
}

#[test]
fn test_signature() {
    let sk = SigningKey::new(2, &mut thread_rng());
    let pk = PublicKey::from(&sk);

    let point = G1Point::random(&mut thread_rng());
    let message = vec![point.duplicate(), point];
    let signature = sk.sign(&message, &mut thread_rng());

    // signature should be valid
    assert!(pk.verify(&message, &signature).is_ok());

    let other_point = G1Point::random(&mut thread_rng());
    let different_message = vec![other_point.duplicate(), other_point];
    // signature over a random message should fail
    assert!(pk.verify(&different_message, &signature).is_err())
}

#[test]
fn capacity_mismatch_rejected() {
    let mut rng = StdRng::seed_from_u64(3);
    let sk = SigningKey::new(2, &mut rng);
    let pk = PublicKey::from(&sk);

    let message = vec![G1Point::random(&mut rng), G1Point::random(&mut rng)];
    let signature = sk.sign(&message, &mut rng);

    let empty: Vec<G1Point> = Vec::new();
    assert_eq!(
        pk.verify(&empty, &signature),
        Err(SpsEqSignatureError::UnmatchedCapacity)
    );

    let short = vec![G1Point::random(&mut rng)];
    assert_eq!(
        pk.verify(&short, &signature),
        Err(SpsEqSignatureError::UnmatchedCapacity)
    );

    let long = vec![
        G1Point::random(&mut rng),
        G1Point::random(&mut rng),
        G1Point::random(&mut rng),
    ];
    assert_eq!(
        pk.verify(&long, &signature),
        Err(SpsEqSignatureError::UnmatchedCapacity)
    );
}

#[test]
fn encoding_layout_exact() {
    let sk = SigningKey::new(2, &mut thread_rng());
    let pk = PublicKey::from(&sk);

    let bytes = pk.to_bytes().unwrap();
    assert_eq!(bytes.len(), 8 + 2 * 96);
    assert_eq!(&bytes[..8], &[0, 0, 0, 0, 0, 0, 0, 2]);
}

#[test]
fn truncated_encodings_rejected() {
    let sk = SigningKey::new(3, &mut thread_rng());
    let pk = PublicKey::from(&sk);

    let bytes = pk.to_bytes().unwrap();
    for n in 0..bytes.len() {
        assert!(PublicKey::from_bytes(&bytes[..n]).is_err());
    }
}

#[test]
fn derivation_is_deterministic() {
    let sk = SigningKey::new(4, &mut thread_rng());
    let first = PublicKey::from(&sk);
    let second = PublicKey::from(&sk);
    assert!(first == second);
}

#[test]
fn sign_and_verify_two_components() {
    let mut rng = StdRng::seed_from_u64(11);
    let sk = SigningKey::new(2, &mut rng);
    let pk = PublicKey::from(&sk);

    let message = vec![G1Point::random(&mut rng), G1Point::random(&mut rng)];
    let signature = sk.sign(&message, &mut rng);

    assert_eq!(pk.verify(&message, &signature), Ok(()));
}

#[test]
fn flipped_component_rejected() {
    let mut rng = StdRng::seed_from_u64(13);
    let sk = SigningKey::new(2, &mut rng);
    let pk = PublicKey::from(&sk);

    let message = vec![G1Point::random(&mut rng), G1Point::random(&mut rng)];
    let signature = sk.sign(&message, &mut rng);
    assert!(pk.verify(&message, &signature).is_ok());

    let flipped = vec![message[0].duplicate(), G1Point::random(&mut rng)];
    assert_eq!(
        pk.verify(&flipped, &signature),
        Err(SpsEqSignatureError::InvalidSignature)
    );
}

#[test]
fn mutated_z_rejected() {
    let mut rng = StdRng::seed_from_u64(17);
    let sk = SigningKey::new(2, &mut rng);
    let pk = PublicKey::from(&sk);

    let message = vec![G1Point::random(&mut rng), G1Point::random(&mut rng)];
    let mut signature = sk.sign(&message, &mut rng);
    assert!(pk.verify(&message, &signature).is_ok());

    signature.Z = signature.Z.plus(&G1Point::generator());
    assert_eq!(
        pk.verify(&message, &signature),
        Err(SpsEqSignatureError::InvalidSignature)
    );
}

#[test]
fn incompatible_y_rejected() {
    let mut rng = StdRng::seed_from_u64(19);
    let sk = SigningKey::new(2, &mut rng);
    let pk = PublicKey::from(&sk);

    let message = vec![G1Point::random(&mut rng), G1Point::random(&mut rng)];
    let mut signature = sk.sign(&message, &mut rng);
    assert!(pk.verify(&message, &signature).is_ok());

    // Replace Y with the plain generator while Yp keeps the old blinding:
    // the second pairing check breaks.
    signature.Y = G1Point::generator();
    assert_eq!(
        pk.verify(&message, &signature),
        Err(SpsEqSignatureError::InvalidSignature)
    );
}

#[test]
fn encode_decode_rederive() {
    let mut rng = StdRng::seed_from_u64(23);
    let sk = SigningKey::new(5, &mut rng);
    let pk = PublicKey::from(&sk);

    let bytes = pk.to_bytes().unwrap();
    let decoded = PublicKey::from_bytes(&bytes).unwrap();
    let rederived = PublicKey::from(&sk);

    assert_eq!(decoded.capacity(), 5);
    assert!(decoded == pk);
    assert!(decoded == rederived);
}

#[test]
fn malformed_encodings_rejected() {
    let sk = SigningKey::new(2, &mut thread_rng());
    let pk = PublicKey::from(&sk);
    let bytes = pk.to_bytes().unwrap();

    // Too short for the header.
    assert_eq!(
        PublicKey::from_bytes(&[]).err(),
        Some(SpsEqSignatureError::InvalidEncoding)
    );
    assert_eq!(
        PublicKey::from_bytes(&[0; 7]).err(),
        Some(SpsEqSignatureError::InvalidEncoding)
    );

    // A header that claims zero points.
    assert_eq!(
        PublicKey::from_bytes(&[0; 8]).err(),
        Some(SpsEqSignatureError::InvalidEncoding)
    );

    // A trailing byte breaks the 96-byte alignment.
    let mut padded = bytes.clone();
    padded.push(0);
    assert_eq!(
        PublicKey::from_bytes(&padded).err(),
        Some(SpsEqSignatureError::InvalidEncoding)
    );

    // A header that disagrees with the number of points present.
    let mut wrong_header = bytes.clone();
    wrong_header[7] = 3;
    assert_eq!(
        PublicKey::from_bytes(&wrong_header).err(),
        Some(SpsEqSignatureError::UnmatchedCapacity)
    );

    // A chunk that is no valid compressed point.
    let mut garbage = vec![0u8; 8 + 96];
    garbage[7] = 1;
    for i in 8..garbage.len() {
        garbage[i] = 0xff;
    }
    assert_eq!(
        PublicKey::from_bytes(&garbage).err(),
        Some(SpsEqSignatureError::InvalidEncoding)
    );
}
