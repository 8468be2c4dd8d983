//! One-time destination keys for silent payments over secp256k1.
//!
//! A payer who knows the recipient's public key `X` and holds the secret key
//! `i` of the input being spent derives the destination `hash(i*X)*G + X`.
//! The recipient, who holds `x` with `X = x*G` and sees the input's public
//! key `I = i*G`, derives `hash(x*I)*G + X`. Both arrive at the same key.

pub mod agreement;
pub mod curve;
pub mod ecdh;
pub mod error;
pub mod keys;
pub mod recipient;
pub mod scalar;
pub mod sender;
pub mod tweak;
