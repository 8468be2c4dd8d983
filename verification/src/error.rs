//! The ways in which a key or a derivation is rejected.

use vstd::prelude::*;

verus! {

/// Why a key was refused or a derivation gave no key.
#[derive(Clone, Copy, Debug, PartialEq, Eq, Structural)]
pub enum TweakError {
    /// A scalar, given or derived, is zero or not below the group order.
    InvalidScalar,
    /// A point is malformed or does not lie on the curve.
    InvalidPoint,
    /// A sum of points is the identity, which is no public key.
    PointAtInfinity,
    /// A point is written in an encoding other than the compressed one.
    EncodingMismatch,
}

} // verus!
