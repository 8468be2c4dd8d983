//! The payer's side: from the recipient's public key and the secret key of
//! the input being spent to the destination key.

use vstd::prelude::*;
use crate::curve::{generator_multiple, point_on_curve, shared_digest};
use crate::ecdh::shared_secret_digest;
use crate::error::TweakError;
use crate::keys::{lemma_public_key_is_its_bytes, public_view, PublicKey, SecretKey};
use crate::recipient::recipient_outcome;
use crate::scalar::scalar_in_range;
use crate::tweak::{tweak_outcome, tweak_with_digest};

verus! {

/// What the payer derives from the recipient's point `X` and the own scalar
/// `i`: `hash(i*X)*G + X`.
pub open spec fn sender_outcome(recipient_point: Seq<u8>, sender_scalar: Seq<u8>) -> Result<
    Seq<u8>,
    TweakError,
> {
    tweak_outcome(recipient_point, shared_digest(recipient_point, sender_scalar))
}

/// The sender tweaks the silent payment address with the secret key of
/// their input: `X' = hash(i*X)*G + X`.
///
/// Where the recipient's key belongs to a secret `x`, the result is what
/// the recipient derives from `x` and the public key of the input.
pub fn tweak_payment_address(
    recipient_output_public_key: &PublicKey,
    sender_input_secret_key: &SecretKey,
) -> (tweaked: Result<PublicKey, TweakError>)
    ensures
        public_view(tweaked) == sender_outcome(
            recipient_output_public_key@,
            sender_input_secret_key@,
        ),
        tweaked matches Ok(key) ==> point_on_curve(key@),
        forall|x: Seq<u8>|
            scalar_in_range(x) && recipient_output_public_key@ == #[trigger] generator_multiple(x)
                ==> public_view(tweaked) == recipient_outcome(
                x,
                generator_multiple(sender_input_secret_key@),
            ),
{
    // hash(i*X)
    let shared_secret = shared_secret_digest(recipient_output_public_key, sender_input_secret_key);
    // hash(i*X)*G + X
    tweak_with_digest(recipient_output_public_key, &shared_secret)
}

/// The contract of `tweak_payment_address` leaves one result: two results
/// that meet it on the same keys are the same key, or the same error.
pub proof fn lemma_sender_result_is_unique(
    recipient: PublicKey,
    secret: SecretKey,
    first: Result<PublicKey, TweakError>,
    second: Result<PublicKey, TweakError>,
)
    requires
        public_view(first) == sender_outcome(recipient@, secret@),
        public_view(second) == sender_outcome(recipient@, secret@),
    ensures
        first == second,
{
    if let (Ok(a), Ok(b)) = (first, second) {
        lemma_public_key_is_its_bytes(a, b);
    }
}

} // verus!
