use std::cmp::Ordering;

use secp256k1::{KeyPair, Secp256k1};
use silent_payments::error::TweakError;
use silent_payments::ecdh::shared_secret_digest;
use silent_payments::keys::{PublicKey, SecretKey};
use silent_payments::{recipient, sender};

const ONE: [u8; 32] = [
    0, 0, 0, 0, 0, 0, 0, 0, 0, 0, 0, 0, 0, 0, 0, 0, 0, 0, 0, 0, 0, 0, 0, 0, 0, 0, 0, 0, 0, 0, 0, 1,
];

const TWO: [u8; 32] = [
    0, 0, 0, 0, 0, 0, 0, 0, 0, 0, 0, 0, 0, 0, 0, 0, 0, 0, 0, 0, 0, 0, 0, 0, 0, 0, 0, 0, 0, 0, 0, 2,
];

const GENERATOR: [u8; 33] = [
    0x02, 0x79, 0xbe, 0x66, 0x7e, 0xf9, 0xdc, 0xbb, 0xac, 0x55, 0xa0, 0x62, 0x95, 0xce, 0x87, 0x0b,
    0x07, 0x02, 0x9b, 0xfc, 0xdb, 0x2d, 0xce, 0x28, 0xd9, 0x59, 0xf2, 0x81, 0x5b, 0x16, 0xf8, 0x17,
    0x98,
];

const TWICE_GENERATOR: [u8; 33] = [
    0x02, 0xc6, 0x04, 0x7f, 0x94, 0x41, 0xed, 0x7d, 0x6d, 0x30, 0x45, 0x40, 0x6e, 0x95, 0xc0, 0x7c,
    0xd8, 0x5c, 0x77, 0x8e, 0x4b, 0x8c, 0xef, 0x3c, 0xa7, 0xab, 0xac, 0x09, 0xb9, 0x5c, 0x70, 0x9e,
    0xe5,
];

/// SHA-256 of the compressed encoding of `2 * G`.
const DIGEST_ONE_TWO: [u8; 32] = [
    0xb1, 0xc9, 0x93, 0x8f, 0x01, 0x12, 0x1e, 0x15, 0x98, 0x87, 0xac, 0x2c, 0x8d, 0x39, 0x3a, 0x22,
    0xe4, 0x47, 0x6f, 0xf8, 0x21, 0x2d, 0xe1, 0x3f, 0xe1, 0x93, 0x9d, 0xe2, 0xa2, 0x36, 0xf0, 0xa7,
];

/// `G + DIGEST_ONE_TWO * G`.
const TWEAKED_ONE_TWO: [u8; 33] = [
    0x02, 0x8a, 0x09, 0xf8, 0x7d, 0x66, 0xda, 0x40, 0xf5, 0xef, 0x9f, 0x26, 0xb8, 0x3f, 0xfc, 0xf5,
    0x07, 0x45, 0x78, 0x75, 0x05, 0xae, 0x3b, 0x3c, 0xb1, 0x48, 0xbe, 0xe8, 0x94, 0xfa, 0x8c, 0x3e,
    0x57,
];

const SCALAR_A: [u8; 32] = [
    0x01, 0x23, 0x45, 0x67, 0x89, 0xab, 0xcd, 0xef, 0x01, 0x23, 0x45, 0x67, 0x89, 0xab, 0xcd, 0xef,
    0x01, 0x23, 0x45, 0x67, 0x89, 0xab, 0xcd, 0xef, 0x01, 0x23, 0x45, 0x67, 0x89, 0xab, 0xcd, 0xef,
];

const SCALAR_B: [u8; 32] = [
    0xfe, 0xdc, 0xba, 0x98, 0x76, 0x54, 0x32, 0x10, 0xfe, 0xdc, 0xba, 0x98, 0x76, 0x54, 0x32, 0x10,
    0xfe, 0xdc, 0xba, 0x98, 0x76, 0x54, 0x32, 0x10, 0xfe, 0xdc, 0xba, 0x98, 0x76, 0x54, 0x32, 0x10,
];

const POINT_A: [u8; 33] = [
    0x03, 0x46, 0x46, 0xae, 0x50, 0x47, 0x31, 0x6b, 0x42, 0x30, 0xd0, 0x08, 0x6c, 0x8a, 0xce, 0xc6,
    0x87, 0xf0, 0x0b, 0x1c, 0xd9, 0xd1, 0xdc, 0x63, 0x4f, 0x6c, 0xb3, 0x58, 0xac, 0x0a, 0x9a, 0x8f,
    0xff,
];

const POINT_B: [u8; 33] = [
    0x02, 0x88, 0xe2, 0xdd, 0xeb, 0x04, 0x65, 0x7d, 0xbd, 0x0e, 0xda, 0xdf, 0x9c, 0x1f, 0x98, 0xda,
    0x3b, 0x38, 0x95, 0xfa, 0xa1, 0xf0, 0x05, 0x27, 0x93, 0x4d, 0xd3, 0x5d, 0x17, 0x54, 0x2f, 0xfe,
    0x9b,
];

const DIGEST_A_B: [u8; 32] = [
    0xb5, 0x13, 0x3c, 0x04, 0x4a, 0x97, 0x50, 0xfb, 0x02, 0x84, 0x43, 0xc1, 0xf7, 0xf0, 0x4f, 0xf2,
    0xc3, 0x8d, 0x72, 0x7f, 0x1d, 0x2a, 0x49, 0xc2, 0xc3, 0xab, 0x9a, 0x44, 0x6c, 0xad, 0xdc, 0xc1,
];

const TWEAKED_A_B: [u8; 33] = [
    0x02, 0x18, 0x41, 0x66, 0x65, 0x2c, 0x97, 0x0a, 0xea, 0x0b, 0x61, 0xb6, 0x3e, 0x75, 0x22, 0x72,
    0x25, 0x4d, 0x35, 0x2b, 0x01, 0x68, 0x3f, 0x80, 0x20, 0xe5, 0x09, 0x30, 0x6e, 0x00, 0xd2, 0xe0,
    0xa9,
];

fn secret(bytes: &[u8; 32]) -> SecretKey {
    SecretKey::from_slice(bytes).expect("a scalar in range")
}

fn public(bytes: &[u8; 33]) -> PublicKey {
    PublicKey::from_slice(bytes).expect("a point on the curve")
}

/// A secret key drawn from a fixed stream of bytes: the same key for the
/// same seed on every run.
fn seeded_secret(seed: u64) -> SecretKey {
    let mut state = seed ^ 0x9e37_79b9_7f4a_7c15;
    loop {
        let mut bytes = [0u8; 32];
        for byte in bytes.iter_mut() {
            state ^= state << 13;
            state ^= state >> 7;
            state ^= state << 17;
            *byte = (state >> 24) as u8;
        }
        if let Ok(key) = SecretKey::from_slice(&bytes) {
            return key;
        }
    }
}

/// The payer's derivation written against `secp256k1` alone.
fn sender_by_hand(recipient: &secp256k1::PublicKey, input: &secp256k1::SecretKey) -> [u8; 33] {
    let secp = Secp256k1::new();
    let mut tweaked = *recipient;
    let shared_secret = secp256k1::ecdh::SharedSecret::new(recipient, input);
    let tweak = secp256k1::SecretKey::from_slice(&shared_secret.secret_bytes()).unwrap();
    tweaked.add_exp_assign(&secp, &tweak.secret_bytes()).unwrap();
    tweaked.serialize()
}

/// The recipient's derivation written against `secp256k1` alone.
fn recipient_by_hand(output: &secp256k1::SecretKey, input: &secp256k1::PublicKey) -> [u8; 33] {
    let secp = Secp256k1::new();
    let mut tweaked = secp256k1::PublicKey::from_secret_key(&secp, output);
    let shared_secret = secp256k1::ecdh::SharedSecret::new(input, output);
    let tweak = secp256k1::SecretKey::from_slice(&shared_secret.secret_bytes()).unwrap();
    tweaked.add_exp_assign(&secp, &tweak.secret_bytes()).unwrap();
    tweaked.serialize()
}

#[test]
fn it_works() {
    let secp = Secp256k1::new();

    let recipient_output_key_pair = KeyPair::new(&secp, &mut secp256k1::rand::thread_rng());
    let recipient_output_secret_key = secp256k1::SecretKey::from_keypair(&recipient_output_key_pair);
    let recipient_output_public_key = secp256k1::PublicKey::from_keypair(&recipient_output_key_pair);

    let sender_input_key_pair = KeyPair::new(&secp, &mut secp256k1::rand::thread_rng());
    let sender_input_secret_key = secp256k1::SecretKey::from_keypair(&sender_input_key_pair);
    let sender_input_public_key = secp256k1::PublicKey::from_keypair(&sender_input_key_pair);

    let sender_tweaked_output_public_key = sender::tweak_payment_address(
        &public(&recipient_output_public_key.serialize()),
        &secret(&sender_input_secret_key.secret_bytes()),
    )
    .unwrap();
    let recipient_tweaked_output_public_key = recipient::detect_payment(
        &secret(&recipient_output_secret_key.secret_bytes()),
        &public(&sender_input_public_key.serialize()),
    )
    .unwrap();
    assert_eq!(
        sender_tweaked_output_public_key.cmp(&recipient_tweaked_output_public_key),
        Ordering::Equal
    );
}

#[test]
fn random_keys_match_the_derivation_by_hand() {
    let secp = Secp256k1::new();
    for _ in 0..8 {
        let (output_secret, output_public) = secp.generate_keypair(&mut secp256k1::rand::thread_rng());
        let (input_secret, input_public) = secp.generate_keypair(&mut secp256k1::rand::thread_rng());

        let paid = sender::tweak_payment_address(
            &public(&output_public.serialize()),
            &secret(&input_secret.secret_bytes()),
        )
        .unwrap();
        let detected = recipient::detect_payment(
            &secret(&output_secret.secret_bytes()),
            &public(&input_public.serialize()),
        )
        .unwrap();

        assert_eq!(paid.serialize(), sender_by_hand(&output_public, &input_secret));
        assert_eq!(detected.serialize(), recipient_by_hand(&output_secret, &input_public));
        assert_eq!(paid, detected);
    }
}

#[test]
fn seeded_keypairs_agree_and_differ_from_their_inputs() {
    for seed in 1..=16u64 {
        let x = seeded_secret(seed);
        let i = seeded_secret(seed + 1000);
        let big_x = PublicKey::from_secret_key(&x);
        let big_i = PublicKey::from_secret_key(&i);

        let t1 = sender::tweak_payment_address(&big_x, &i).unwrap();
        let t2 = recipient::detect_payment(&x, &big_i).unwrap();

        assert_eq!(t1, t2);
        assert_ne!(t1, big_x);
        assert_ne!(t1, big_i);
        assert_ne!(t2, big_x);
        assert_ne!(t2, big_i);
        // What is returned is a point of the curve, so not the identity.
        assert_eq!(PublicKey::from_slice(&t1.serialize()), Ok(t1));
    }
}

#[test]
fn seeded_secrets_repeat() {
    assert_eq!(seeded_secret(7).secret_bytes(), seeded_secret(7).secret_bytes());
    assert_ne!(seeded_secret(7).secret_bytes(), seeded_secret(8).secret_bytes());
}

#[test]
fn known_vector_small_scalars() {
    let x = secret(&ONE);
    let i = secret(&TWO);
    let big_x = public(&GENERATOR);
    let big_i = public(&TWICE_GENERATOR);

    assert_eq!(PublicKey::from_secret_key(&x).serialize(), GENERATOR);
    assert_eq!(PublicKey::from_secret_key(&i).serialize(), TWICE_GENERATOR);
    assert_eq!(shared_secret_digest(&big_x, &i), DIGEST_ONE_TWO);
    assert_eq!(shared_secret_digest(&big_i, &x), DIGEST_ONE_TWO);

    let paid = sender::tweak_payment_address(&big_x, &i).unwrap();
    let detected = recipient::detect_payment(&x, &big_i).unwrap();
    assert_eq!(paid.serialize(), TWEAKED_ONE_TWO);
    assert_eq!(detected.serialize(), TWEAKED_ONE_TWO);
}

#[test]
fn known_vector_large_scalars() {
    let x = secret(&SCALAR_A);
    let i = secret(&SCALAR_B);
    let big_x = public(&POINT_A);
    let big_i = public(&POINT_B);

    assert_eq!(PublicKey::from_secret_key(&x).serialize(), POINT_A);
    assert_eq!(PublicKey::from_secret_key(&i).serialize(), POINT_B);
    assert_eq!(shared_secret_digest(&big_x, &i), DIGEST_A_B);
    assert_eq!(shared_secret_digest(&big_i, &x), DIGEST_A_B);

    let paid = sender::tweak_payment_address(&big_x, &i).unwrap();
    let detected = recipient::detect_payment(&x, &big_i).unwrap();
    assert_eq!(paid.serialize(), TWEAKED_A_B);
    assert_eq!(detected.serialize(), TWEAKED_A_B);
}

#[test]
fn repeated_calls_give_the_same_bytes() {
    let x = secret(&SCALAR_A);
    let i = secret(&SCALAR_B);
    let big_x = PublicKey::from_secret_key(&x);
    let big_i = PublicKey::from_secret_key(&i);

    let first = sender::tweak_payment_address(&big_x, &i);
    for _ in 0..4 {
        assert_eq!(sender::tweak_payment_address(&big_x, &i), first);
    }
    let first = recipient::detect_payment(&x, &big_i);
    for _ in 0..4 {
        assert_eq!(recipient::detect_payment(&x, &big_i), first);
    }
}

#[test]
fn changing_a_key_changes_the_result() {
    let x = secret(&SCALAR_A);
    let i = secret(&SCALAR_B);
    let big_x = PublicKey::from_secret_key(&x);
    let big_i = PublicKey::from_secret_key(&i);
    let paid = sender::tweak_payment_address(&big_x, &i).unwrap();
    let detected = recipient::detect_payment(&x, &big_i).unwrap();

    // One bit of the payer's secret.
    for position in [0usize, 13, 31] {
        let mut bytes = SCALAR_B;
        bytes[position] ^= 0x01;
        let other = secret(&bytes);
        assert_ne!(sender::tweak_payment_address(&big_x, &other).unwrap(), paid);
        let other_point = PublicKey::from_secret_key(&other);
        assert_ne!(recipient::detect_payment(&x, &other_point).unwrap(), detected);
    }
    // One bit of the recipient's secret.
    for position in [0usize, 13, 31] {
        let mut bytes = SCALAR_A;
        bytes[position] ^= 0x01;
        let other = secret(&bytes);
        assert_ne!(recipient::detect_payment(&other, &big_i).unwrap(), detected);
        let other_point = PublicKey::from_secret_key(&other);
        assert_ne!(sender::tweak_payment_address(&other_point, &i).unwrap(), paid);
    }
    // The parity flag of a public key: the same x, the other y.
    let mut flipped = POINT_A;
    flipped[0] ^= 0x01;
    assert_ne!(sender::tweak_payment_address(&public(&flipped), &i).unwrap(), paid);
    let mut flipped = POINT_B;
    flipped[0] ^= 0x01;
    assert_ne!(recipient::detect_payment(&x, &public(&flipped)).unwrap(), detected);
}

#[test]
fn mismatched_keypairs_do_not_agree() {
    let x = secret(&SCALAR_A);
    let i = secret(&SCALAR_B);
    let big_x = PublicKey::from_secret_key(&x);
    let stranger = PublicKey::from_secret_key(&secret(&TWO));
    let paid = sender::tweak_payment_address(&big_x, &i).unwrap();
    let detected = recipient::detect_payment(&x, &stranger).unwrap();
    assert_ne!(paid, detected);
}

#[test]
fn errors_are_told_apart() {
    assert_ne!(TweakError::InvalidScalar, TweakError::InvalidPoint);
    assert_ne!(TweakError::InvalidPoint, TweakError::PointAtInfinity);
    assert_ne!(TweakError::PointAtInfinity, TweakError::EncodingMismatch);
    assert_ne!(TweakError::EncodingMismatch, TweakError::InvalidScalar);
}
