//! The Diffie-Hellman secret that payer and recipient share.

use vstd::prelude::*;
use crate::curve::{generator_multiple, shared_digest, shared_secret};
use crate::keys::{PublicKey, SecretKey};
use crate::scalar::scalar_in_range;

verus! {

/// The Diffie-Hellman secret of `point` and `scalar`: the SHA-256 digest of
/// the compressed encoding of `scalar * point`. Where `point` is the public
/// key of a secret `other`, it is the digest that the holder of `other`
/// gets from the public key of `scalar`.
pub fn shared_secret_digest(point: &PublicKey, scalar: &SecretKey) -> (digest: [u8; 32])
    ensures
        digest@ == shared_digest(point@, scalar@),
        forall|other: Seq<u8>|
            scalar_in_range(other) && point@ == #[trigger] generator_multiple(other)
                ==> digest@ == shared_digest(generator_multiple(scalar@), other),
{
    let point_bytes = point.serialize();
    let scalar_bytes = scalar.secret_bytes();
    shared_secret(&point_bytes, &scalar_bytes)
}

} // verus!
