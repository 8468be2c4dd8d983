//! The group operations, which the `secp256k1` crate carries out.
//!
//! Nothing in this file is proved. Each function below hands its arguments
//! to `secp256k1` and states what that crate documents of the result; the
//! results themselves are only given names, since what they are is the
//! arithmetic of the curve and SHA-256.
//!
//! Points travel as their compressed encoding, 33 bytes: a flag `0x02` or
//! `0x03` that carries the parity of `y`, then `x` big-endian. Scalars travel
//! as 32 big-endian bytes.

use vstd::prelude::*;
use crate::scalar::scalar_in_range;

verus! {

/// Whether `secp256k1::PublicKey::from_slice` accepts `encoding`: for 33
/// bytes, whether they are the compressed encoding of a point of the curve
/// other than the identity.
pub uninterp spec fn point_on_curve(encoding: Seq<u8>) -> bool;

/// The compressed encoding of `scalar * G`, the public key that
/// `secp256k1::PublicKey::from_secret_key` computes for the secret `scalar`.
pub uninterp spec fn generator_multiple(scalar: Seq<u8>) -> Seq<u8>;

/// The 32 bytes that `secp256k1::ecdh::SharedSecret::new` computes for
/// `point` and `scalar`: the SHA-256 digest of the compressed encoding of
/// `scalar * point`.
pub uninterp spec fn shared_digest(point: Seq<u8>, scalar: Seq<u8>) -> Seq<u8>;

/// The compressed encoding of `point + tweak * G` as
/// `secp256k1::PublicKey::add_exp_assign` computes it, or `None` where that
/// call reports that the sum is the identity.
pub uninterp spec fn tweaked_point(point: Seq<u8>, tweak: Seq<u8>) -> Option<Seq<u8>>;

/// Calls `secp256k1::PublicKey::from_slice` and reports whether it accepted
/// the 33 bytes.
#[verifier::external_body]
pub(crate) fn parses_as_point(encoding: &[u8; 33]) -> (accepted: bool)
    ensures
        accepted == point_on_curve(encoding@),
{
    secp256k1::PublicKey::from_slice(encoding).is_ok()
}

/// Calls `secp256k1::PublicKey::from_secret_key` and serializes the key.
/// The contract claims that the call succeeds on every scalar in
/// `[1, n - 1]` and that its result, serialized, is again accepted as a
/// point.
#[verifier::external_body]
pub(crate) fn derive_point(scalar: &[u8; 32]) -> (point: [u8; 33])
    requires
        scalar_in_range(scalar@),
    ensures
        point@ == generator_multiple(scalar@),
        point_on_curve(point@),
{
    let secp = secp256k1::Secp256k1::new();
    let scalar = secp256k1::SecretKey::from_slice(scalar).expect("scalar in range");
    secp256k1::PublicKey::from_secret_key(&secp, &scalar).serialize()
}

/// Calls `secp256k1::ecdh::SharedSecret::new` and returns the secret's
/// bytes. Besides naming the result, the contract claims the agreement that
/// Diffie-Hellman rests on and that the crate documents by example: the
/// holder of `scalar`, given the public key of `other`, gets the digest
/// that the holder of `other` gets from the public key of `scalar`.
#[verifier::external_body]
pub(crate) fn shared_secret(point: &[u8; 33], scalar: &[u8; 32]) -> (digest: [u8; 32])
    requires
        point_on_curve(point@),
        scalar_in_range(scalar@),
    ensures
        digest@ == shared_digest(point@, scalar@),
        forall|other: Seq<u8>|
            scalar_in_range(other) && point@ == #[trigger] generator_multiple(other)
                ==> digest@ == shared_digest(generator_multiple(scalar@), other),
{
    let point = secp256k1::PublicKey::from_slice(point).expect("point on the curve");
    let scalar = secp256k1::SecretKey::from_slice(scalar).expect("scalar in range");
    secp256k1::ecdh::SharedSecret::new(&point, &scalar).secret_bytes()
}

/// Calls `secp256k1::PublicKey::add_exp_assign` on a copy of `point` and
/// serializes the sum. With a tweak in `[1, n - 1]` the call fails only
/// where the sum is the identity, which is returned as `None`. The contract
/// claims that a sum which is returned is again accepted as a point.
#[verifier::external_body]
pub(crate) fn add_tweak(point: &[u8; 33], tweak: &[u8; 32]) -> (sum: Option<[u8; 33]>)
    requires
        point_on_curve(point@),
        scalar_in_range(tweak@),
    ensures
        sum matches Some(encoding) ==> tweaked_point(point@, tweak@) == Some(encoding@)
            && point_on_curve(encoding@),
        sum is None ==> tweaked_point(point@, tweak@) is None,
{
    let secp = secp256k1::Secp256k1::new();
    let mut sum = secp256k1::PublicKey::from_slice(point).expect("point on the curve");
    match sum.add_exp_assign(&secp, tweak) {
        Ok(()) => Some(sum.serialize()),
        Err(_) => None,
    }
}

} // verus!
