//! The recipient's side: from the own secret key and the public key of the
//! payer's input to the destination key.

use vstd::prelude::*;
use crate::curve::{generator_multiple, point_on_curve, shared_digest};
use crate::ecdh::shared_secret_digest;
use crate::error::TweakError;
use crate::keys::{lemma_public_key_is_its_bytes, public_view, PublicKey, SecretKey};
use crate::scalar::scalar_in_range;
use crate::sender::sender_outcome;
use crate::tweak::{tweak_outcome, tweak_with_digest};

verus! {

/// What the recipient derives from the own scalar `x` and the point `I` of
/// the payer's input: `hash(x*I)*G + x*G`.
pub open spec fn recipient_outcome(recipient_scalar: Seq<u8>, sender_point: Seq<u8>) -> Result<
    Seq<u8>,
    TweakError,
> {
    tweak_outcome(
        generator_multiple(recipient_scalar),
        shared_digest(sender_point, recipient_scalar),
    )
}

/// The recipient derives the key that a payment from the given input pays
/// to: `X' = hash(x*I)*G + X` with `X = x*G`.
///
/// Where the input's key belongs to a secret `i`, the result is what the
/// payer derives from the recipient's public key and `i`.
pub fn detect_payment(
    recipient_output_secret_key: &SecretKey,
    sender_input_public_key: &PublicKey,
) -> (tweaked: Result<PublicKey, TweakError>)
    ensures
        public_view(tweaked) == recipient_outcome(
            recipient_output_secret_key@,
            sender_input_public_key@,
        ),
        tweaked matches Ok(key) ==> point_on_curve(key@),
        forall|i: Seq<u8>|
            scalar_in_range(i) && sender_input_public_key@ == #[trigger] generator_multiple(i)
                ==> public_view(tweaked) == sender_outcome(
                generator_multiple(recipient_output_secret_key@),
                i,
            ),
{
    // public key of the output: X = x*G
    let recipient_output_public_key = PublicKey::from_secret_key(recipient_output_secret_key);
    // hash(x*I)
    let shared_secret = shared_secret_digest(sender_input_public_key, recipient_output_secret_key);
    // hash(x*I)*G + X
    tweak_with_digest(&recipient_output_public_key, &shared_secret)
}

/// The contract of `detect_payment` leaves one result: two results that
/// meet it on the same keys are the same key, or the same error.
pub proof fn lemma_recipient_result_is_unique(
    secret: SecretKey,
    sender: PublicKey,
    first: Result<PublicKey, TweakError>,
    second: Result<PublicKey, TweakError>,
)
    requires
        public_view(first) == recipient_outcome(secret@, sender@),
        public_view(second) == recipient_outcome(secret@, sender@),
    ensures
        first == second,
{
    if let (Ok(a), Ok(b)) = (first, second) {
        lemma_public_key_is_its_bytes(a, b);
    }
}

} // verus!
