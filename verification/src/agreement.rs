//! The law that the scheme rests on: payer and recipient derive one key.

use vstd::prelude::*;
use crate::curve::generator_multiple;
use crate::error::TweakError;
use crate::keys::{lemma_public_key_is_its_bytes, public_view, PublicKey, SecretKey};
use crate::recipient::recipient_outcome;
use crate::scalar::scalar_in_range;
use crate::sender::sender_outcome;

verus! {

/// For keypairs `(x, X)` and `(i, I)` with `X = x*G` and `I = i*G`, what
/// `tweak_payment_address` returns on `(X, i)` is what `detect_payment`
/// returns on `(x, I)`: the same key, or the same error.
///
/// `paid` stands for any result that meets the contract of
/// `tweak_payment_address` on `(X, i)`, `detected` for any that meets the
/// contract of `detect_payment` on `(x, I)`.
pub proof fn lemma_payer_and_recipient_agree(
    recipient_secret: SecretKey,
    recipient_public: PublicKey,
    sender_secret: SecretKey,
    sender_public: PublicKey,
    paid: Result<PublicKey, TweakError>,
    detected: Result<PublicKey, TweakError>,
)
    requires
        scalar_in_range(recipient_secret@),
        scalar_in_range(sender_secret@),
        recipient_public@ == generator_multiple(recipient_secret@),
        sender_public@ == generator_multiple(sender_secret@),
        public_view(paid) == sender_outcome(recipient_public@, sender_secret@),
        forall|x: Seq<u8>|
            scalar_in_range(x) && recipient_public@ == #[trigger] generator_multiple(x)
                ==> public_view(paid) == recipient_outcome(x, generator_multiple(sender_secret@)),
        public_view(detected) == recipient_outcome(recipient_secret@, sender_public@),
        forall|i: Seq<u8>|
            scalar_in_range(i) && sender_public@ == #[trigger] generator_multiple(i)
                ==> public_view(detected) == sender_outcome(
                generator_multiple(recipient_secret@),
                i,
            ),
    ensures
        paid == detected,
{
    assert(public_view(paid) == public_view(detected));
    if let (Ok(a), Ok(b)) = (paid, detected) {
        lemma_public_key_is_its_bytes(a, b);
    }
}

} // verus!
