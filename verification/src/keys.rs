//! Secret and public keys, held as the bytes that encode them and valid by
//! construction.

use vstd::prelude::*;
use crate::curve::{add_tweak, derive_point, generator_multiple, parses_as_point, point_on_curve,
    tweaked_point};
use crate::error::TweakError;
use crate::scalar::{is_valid_scalar, scalar_in_range, SCALAR_SIZE};

verus! {

/// The number of bytes in a compressed point.
pub const POINT_SIZE: usize = 33;

/// The number of bytes in an uncompressed or hybrid point.
pub const UNCOMPRESSED_POINT_SIZE: usize = 65;

/// The flag byte of an uncompressed point.
pub const FLAG_UNCOMPRESSED: u8 = 0x04;

/// The flag byte of a hybrid point with even `y`.
pub const FLAG_HYBRID_EVEN: u8 = 0x06;

/// The flag byte of a hybrid point with odd `y`.
pub const FLAG_HYBRID_ODD: u8 = 0x07;

/// A secret key: a scalar in `[1, n - 1]`. It is copied only where `clone`
/// is called.
#[derive(PartialEq, Eq)]
pub struct SecretKey {
    bytes: [u8; 32],
}

/// A public key: a point of the curve other than the identity, in its
/// compressed encoding.
#[derive(Clone, Copy, Debug, PartialEq, Eq, PartialOrd, Ord, Hash)]
pub struct PublicKey {
    bytes: [u8; 33],
}

impl View for SecretKey {
    type V = Seq<u8>;

    /// The 32 bytes of the scalar, most significant first.
    closed spec fn view(&self) -> Seq<u8> {
        self.bytes@
    }
}

impl Clone for SecretKey {
    fn clone(&self) -> (copy: Self)
        ensures
            copy@ == self@,
    {
        proof {
            use_type_invariant(self);
        }
        SecretKey { bytes: self.bytes }
    }
}

impl View for PublicKey {
    type V = Seq<u8>;

    /// The 33 bytes of the compressed encoding.
    closed spec fn view(&self) -> Seq<u8> {
        self.bytes@
    }
}

/// Whether `data` has the length and the flag byte of a point written
/// uncompressed or hybrid, the encodings that this library does not take.
pub open spec fn other_encoding(data: Seq<u8>) -> bool {
    &&& data.len() == UNCOMPRESSED_POINT_SIZE
    &&& (data[0] == FLAG_UNCOMPRESSED || data[0] == FLAG_HYBRID_EVEN || data[0] == FLAG_HYBRID_ODD)
}

/// A result of making a secret key, the key taken by its bytes.
pub open spec fn secret_view(res: Result<SecretKey, TweakError>) -> Result<Seq<u8>, TweakError> {
    match res {
        Ok(key) => Ok(key@),
        Err(e) => Err(e),
    }
}

/// A result of making a public key, the key taken by its bytes.
pub open spec fn public_view(res: Result<PublicKey, TweakError>) -> Result<Seq<u8>, TweakError> {
    match res {
        Ok(key) => Ok(key@),
        Err(e) => Err(e),
    }
}

/// Copies a slice of `N` bytes into an array.
fn to_array<const N: usize>(data: &[u8]) -> (out: [u8; N])
    requires
        data@.len() == N,
    ensures
        out@ == data@,
{
    let mut out = [0u8; N];
    for i in 0..N
        invariant
            data@.len() == N,
            forall|j: int| 0 <= j < i ==> out@[j] == data@[j],
    {
        out[i] = data[i];
    }
    assert(out@ =~= data@);
    out
}

impl SecretKey {
    #[verifier::type_invariant]
    spec fn well_formed(self) -> bool {
        scalar_in_range(self.bytes@)
    }

    /// What `from_slice` returns on `data`, the key taken by its bytes.
    pub open spec fn parse_outcome(data: Seq<u8>) -> Result<Seq<u8>, TweakError> {
        if scalar_in_range(data) {
            Ok(data)
        } else {
            Err(TweakError::InvalidScalar)
        }
    }

    /// Takes 32 bytes as a secret key if they encode a scalar in
    /// `[1, n - 1]`.
    pub fn from_bytes(bytes: [u8; 32]) -> (res: Result<SecretKey, TweakError>)
        ensures
            secret_view(res) == SecretKey::parse_outcome(bytes@),
    {
        if is_valid_scalar(&bytes) {
            Ok(SecretKey { bytes })
        } else {
            Err(TweakError::InvalidScalar)
        }
    }

    /// Takes a slice as a secret key if it is 32 bytes that encode a scalar
    /// in `[1, n - 1]`.
    pub fn from_slice(data: &[u8]) -> (res: Result<SecretKey, TweakError>)
        ensures
            secret_view(res) == SecretKey::parse_outcome(data@),
    {
        if data.len() != SCALAR_SIZE {
            return Err(TweakError::InvalidScalar);
        }
        SecretKey::from_bytes(to_array::<32>(data))
    }

    /// The 32 bytes of the scalar.
    pub fn secret_bytes(&self) -> (bytes: [u8; 32])
        ensures
            bytes@ == self@,
            scalar_in_range(bytes@),
    {
        proof {
            use_type_invariant(self);
        }
        self.bytes
    }
}

impl PublicKey {
    #[verifier::type_invariant]
    spec fn well_formed(self) -> bool {
        point_on_curve(self.bytes@)
    }

    /// What `from_slice` returns on `data`, the key taken by its bytes.
    pub open spec fn parse_outcome(data: Seq<u8>) -> Result<Seq<u8>, TweakError> {
        if other_encoding(data) {
            Err(TweakError::EncodingMismatch)
        } else if data.len() == POINT_SIZE && point_on_curve(data) {
            Ok(data)
        } else {
            Err(TweakError::InvalidPoint)
        }
    }

    /// Takes a slice as a public key if it is the compressed encoding of a
    /// point of the curve. A slice with the length and flag of another
    /// encoding is an `EncodingMismatch`, anything else an `InvalidPoint`.
    pub fn from_slice(data: &[u8]) -> (res: Result<PublicKey, TweakError>)
        ensures
            public_view(res) == PublicKey::parse_outcome(data@),
            res matches Ok(key) ==> point_on_curve(key@),
    {
        if data.len() == UNCOMPRESSED_POINT_SIZE {
            let flag = data[0];
            if flag == FLAG_UNCOMPRESSED || flag == FLAG_HYBRID_EVEN || flag == FLAG_HYBRID_ODD {
                return Err(TweakError::EncodingMismatch);
            }
        }
        if data.len() != POINT_SIZE {
            return Err(TweakError::InvalidPoint);
        }
        let bytes = to_array::<33>(data);
        if parses_as_point(&bytes) {
            Ok(PublicKey { bytes })
        } else {
            Err(TweakError::InvalidPoint)
        }
    }

    /// The public key `secret * G` of a secret key.
    pub fn from_secret_key(secret: &SecretKey) -> (key: PublicKey)
        ensures
            key@ == generator_multiple(secret@),
            point_on_curve(key@),
    {
        let scalar = secret.secret_bytes();
        PublicKey { bytes: derive_point(&scalar) }
    }

    /// The 33 bytes of the compressed encoding.
    pub fn serialize(&self) -> (bytes: [u8; 33])
        ensures
            bytes@ == self@,
            point_on_curve(bytes@),
    {
        proof {
            use_type_invariant(self);
        }
        self.bytes
    }

    /// What `add_exp_tweak` returns, the keys taken by their bytes.
    pub open spec fn sum_outcome(point: Seq<u8>, tweak: Seq<u8>) -> Result<Seq<u8>, TweakError> {
        match tweaked_point(point, tweak) {
            Some(sum) => Ok(sum),
            None => Err(TweakError::PointAtInfinity),
        }
    }

    /// The key `self + tweak * G`, or `PointAtInfinity` where that sum is
    /// the identity.
    pub fn add_exp_tweak(&self, tweak: &SecretKey) -> (res: Result<PublicKey, TweakError>)
        ensures
            public_view(res) == PublicKey::sum_outcome(self@, tweak@),
            res matches Ok(key) ==> point_on_curve(key@),
    {
        let point = self.serialize();
        let scalar = tweak.secret_bytes();
        match add_tweak(&point, &scalar) {
            Some(bytes) => Ok(PublicKey { bytes }),
            None => Err(TweakError::PointAtInfinity),
        }
    }
}

/// A key is its bytes: two public keys with the same bytes are equal.
pub proof fn lemma_public_key_is_its_bytes(a: PublicKey, b: PublicKey)
    requires
        a@ == b@,
    ensures
        a == b,
{
    assert(a.bytes =~= b.bytes);
}

} // verus!
