//! What the key-handling code of `vodozemac` computes for this crate: the
//! public half of an Ed25519 key, and unpadded base64.

use vstd::prelude::*;
use vstd::utf8::encode_utf8;

verus! {

/// Why a key did not decode.
#[derive(Clone, Copy, Debug, PartialEq, Eq, Structural)]
pub enum KeyError {
    /// A public key was not valid base64.
    Base64Error,
    /// A private key was not valid base64.
    Base64PrivateKey,
    /// The key does not have the number of bytes that keys of its kind have.
    InvalidKeyLength,
    /// The bytes are not a point on the curve.
    Signature,
    /// A key agreement with the key gave a shared secret that is not safe.
    NonContributoryKey,
}

/// The public key, in unpadded base64, of the Ed25519 private key whose seed
/// is `seed` in base64, or `None` where `seed` does not decode.
pub uninterp spec fn ed25519_public_key_of(seed: Seq<char>) -> Option<Seq<char>>;

/// The unpadded base64 text of `bytes`.
pub uninterp spec fn unpadded_base64(bytes: Seq<u8>) -> Seq<char>;

/// Whether a seed has a length that the decoder copes with. A text of 44
/// bytes is one only where it ends in a single padding sign: of other texts
/// of that length the decoder makes a key of the wrong size.
pub open spec fn seed_length_ok(seed: Seq<char>) -> bool {
    let bytes = encode_utf8(seed);
    bytes.len() == 44 ==> bytes[43] == 61u8 && bytes[42] != 61u8
}

/// Decodes `seed` with `Ed25519SecretKey::from_base64` and encodes the
/// public key of the result, from `public_key`, with `to_base64`.
///
/// Not proved: that the result is the one that `ed25519_public_key_of`
/// names, that is, that it depends on the text of `seed` alone, and that it
/// is an error exactly where decoding fails. Texts of 44 bytes that do not
/// end in a single padding sign are kept away from the decoder, which does
/// not return on some of them.
#[verifier::external_body]
pub(crate) fn ed25519_public_key(seed: &str) -> (r: Result<String, KeyError>)
    requires
        seed_length_ok(seed@),
    ensures
        match r {
            Ok(key) => ed25519_public_key_of(seed@) == Some(key@),
            Err(_) => ed25519_public_key_of(seed@) is None,
        },
{
    match vodozemac::Ed25519SecretKey::from_base64(seed) {
        Ok(key) => Ok(key.public_key().to_base64()),
        Err(vodozemac::KeyError::Base64Error(_)) => Err(KeyError::Base64Error),
        Err(vodozemac::KeyError::Base64PrivateKey(_)) => Err(KeyError::Base64PrivateKey),
        Err(vodozemac::KeyError::InvalidKeyLength { .. }) => Err(KeyError::InvalidKeyLength),
        Err(vodozemac::KeyError::Signature(_)) => Err(KeyError::Signature),
        Err(vodozemac::KeyError::NonContributoryKey) => Err(KeyError::NonContributoryKey),
    }
}

/// Encodes `bytes` with `vodozemac::base64_encode`.
///
/// Not proved: that the result is the one that `unpadded_base64` names, that
/// is, that it depends on the bytes alone.
#[verifier::external_body]
pub(crate) fn base64_encode(bytes: &Vec<u8>) -> (r: String)
    ensures
        r@ == unpadded_base64(bytes@),
{
    vodozemac::base64_encode(bytes)
}

/// Whether `seed` has a length that the decoder copes with.
pub fn check_seed_length(seed: &str) -> (r: bool)
    ensures
        r == seed_length_ok(seed@),
{
    let bytes = seed.as_bytes();
    if bytes.len() == 44 {
        bytes[43] == 61u8 && bytes[42] != 61u8
    } else {
        true
    }
}

/// The public key that belongs to the private key with the given seed.
/// A seed of a length that the decoder does not cope with is refused as one
/// of the wrong length.
pub fn public_key_of_seed(seed: &str) -> (r: Result<String, KeyError>)
    ensures
        match r {
            Ok(key) => seed_length_ok(seed@) && ed25519_public_key_of(seed@) == Some(key@),
            Err(e) => if seed_length_ok(seed@) {
                ed25519_public_key_of(seed@) is None
            } else {
                e == KeyError::InvalidKeyLength
            },
        },
{
    if check_seed_length(seed) {
        ed25519_public_key(seed)
    } else {
        Err(KeyError::InvalidKeyLength)
    }
}

} // verus!
