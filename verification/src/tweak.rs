//! From a Diffie-Hellman digest to the tweaked key: the half of the
//! derivation that payer and recipient share.

use vstd::prelude::*;
use crate::error::TweakError;
use crate::curve::point_on_curve;
use crate::keys::{public_view, secret_view, PublicKey, SecretKey};
use crate::scalar::scalar_in_range;

verus! {

/// The key that tweaking `point` by `digest` gives: `point + digest * G`
/// where `digest`, read big-endian, is a scalar in `[1, n - 1]` and the sum
/// is not the identity.
pub open spec fn tweak_outcome(point: Seq<u8>, digest: Seq<u8>) -> Result<Seq<u8>, TweakError> {
    if scalar_in_range(digest) {
        PublicKey::sum_outcome(point, digest)
    } else {
        Err(TweakError::InvalidScalar)
    }
}

/// Reads the digest of a shared point as a big-endian scalar. A digest that
/// is zero or not below the group order is refused, not reduced.
pub fn reduce_to_scalar(digest: &[u8; 32]) -> (res: Result<SecretKey, TweakError>)
    ensures
        secret_view(res) == SecretKey::parse_outcome(digest@),
{
    SecretKey::from_bytes(*digest)
}

/// Tweaks `point` by the scalar that `digest` encodes.
pub fn tweak_with_digest(point: &PublicKey, digest: &[u8; 32]) -> (res: Result<
    PublicKey,
    TweakError,
>)
    ensures
        public_view(res) == tweak_outcome(point@, digest@),
        res matches Ok(key) ==> point_on_curve(key@),
{
    match reduce_to_scalar(digest) {
        Ok(tweak) => point.add_exp_tweak(&tweak),
        Err(e) => Err(e),
    }
}

} // verus!
