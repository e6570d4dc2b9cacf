//! The named values that the store keeps as bytes: how a flag is written
//! and read back.

use vstd::prelude::*;

verus! {

/// The error of the MessagePack encoder.
#[verifier::external_type_specification]
#[verifier::external_body]
pub struct ExEncodeError(rmp_serde::encode::Error);

/// The error of the MessagePack decoder.
#[verifier::external_type_specification]
#[verifier::external_body]
pub struct ExDecodeError(rmp_serde::decode::Error);

/// The MessagePack form of a flag: one byte.
pub open spec fn encoded_flag(value: bool) -> Seq<u8> {
    if value {
        seq![0xc3u8]
    } else {
        seq![0xc2u8]
    }
}

/// The flag that `bytes` decode to, or `None` where they decode to none.
/// The first byte alone decides; what follows it is not looked at.
pub open spec fn decoded_flag(bytes: Seq<u8>) -> Option<bool> {
    if bytes.len() == 0 {
        None
    } else if bytes[0] == 0xc3u8 {
        Some(true)
    } else if bytes[0] == 0xc2u8 {
        Some(false)
    } else {
        None
    }
}

/// A flag that was written reads back as it was.
pub proof fn lemma_flag_round_trip(value: bool)
    ensures
        decoded_flag(encoded_flag(value)) == Some(value),
{
}

/// Encodes a flag with `rmp_serde::to_vec_named`.
///
/// Not proved: that where the encoder succeeds, the result is the single
/// byte that MessagePack has for the flag.
#[verifier::external_body]
pub(crate) fn encode_flag(value: bool) -> (r: Result<Vec<u8>, rmp_serde::encode::Error>)
    ensures
        r matches Ok(bytes) ==> bytes@ == encoded_flag(value),
{
    rmp_serde::to_vec_named(&value)
}

/// Decodes a flag with `rmp_serde::from_slice`.
///
/// Not proved: that the decoder reads one marker, takes the marker of
/// `true` and that of `false` for the flag, fails on every other first byte
/// and on no byte at all, and does not look at what follows the marker.
#[verifier::external_body]
pub(crate) fn decode_flag(bytes: &Vec<u8>) -> (r: Result<bool, rmp_serde::decode::Error>)
    ensures
        match r {
            Ok(value) => decoded_flag(bytes@) == Some(value),
            Err(_) => decoded_flag(bytes@) is None,
        },
{
    rmp_serde::from_slice::<bool>(bytes)
}

} // verus!
