//! What the Megolm implementation computes for this crate.
//!
//! Session keys are handled here as unpadded base64 text. Ratchets and
//! signing keys stay inside `vodozemac`; the functions below hand their
//! results out as plain values.

use crate::room_key::{ImportedKey, ImportedKeyView, SessionOrdering};
use vstd::prelude::*;

verus! {

/// What importing the exported session key `key` yields, or `None` where
/// `key` does not decode as an exported session key.
pub uninterp spec fn imported_session_key(key: Seq<char>) -> Option<ImportedKeyView>;

/// How the session imported from `first` relates to the one imported from
/// `second`, or `None` where one of the two does not decode.
pub uninterp spec fn session_key_ordering(first: Seq<char>, second: Seq<char>) -> Option<
    SessionOrdering,
>;

/// Decodes `key` with `ExportedSessionKey::from_base64` and imports it with
/// `InboundGroupSession::import` under the version 1 configuration.
///
/// Not proved: that the result is the one that `imported_session_key` names,
/// that is, that it depends on the text of `key` alone. It holds what
/// `session_id`, `first_known_index` and `export_at_first_known_index` give
/// for the imported session, and is `None` exactly where decoding fails.
#[verifier::external_body]
pub(crate) fn import_session_key(key: &str) -> (r: Option<ImportedKey>)
    ensures
        match r {
            Some(k) => imported_session_key(key@) == Some(k@),
            None => imported_session_key(key@) is None,
        },
{
    let exported = vodozemac::megolm::ExportedSessionKey::from_base64(key).ok()?;
    let config = vodozemac::megolm::SessionConfig::version_1();
    let session = vodozemac::megolm::InboundGroupSession::import(&exported, config);
    Some(
        ImportedKey {
            session_id: session.session_id(),
            first_known_index: session.first_known_index(),
            session_key: session.export_at_first_known_index().to_base64(),
        },
    )
}

/// Imports both keys as [`import_session_key`] does and compares the two
/// sessions with `InboundGroupSession::compare`.
///
/// Not proved: that the result is the one that `session_key_ordering` names,
/// that is, that it depends on the text of the two keys alone. It is `None`
/// exactly where one of the keys does not decode.
#[verifier::external_body]
pub(crate) fn compare_session_keys(first: &str, second: &str) -> (r: Option<SessionOrdering>)
    ensures
        r == session_key_ordering(first@, second@),
{
    let a = vodozemac::megolm::ExportedSessionKey::from_base64(first).ok()?;
    let b = vodozemac::megolm::ExportedSessionKey::from_base64(second).ok()?;
    let config = vodozemac::megolm::SessionConfig::version_1();
    let mut a = vodozemac::megolm::InboundGroupSession::import(&a, config);
    let mut b = vodozemac::megolm::InboundGroupSession::import(&b, config);
    Some(
        match a.compare(&mut b) {
            vodozemac::megolm::SessionOrdering::Equal => SessionOrdering::Equal,
            vodozemac::megolm::SessionOrdering::Better => SessionOrdering::Better,
            vodozemac::megolm::SessionOrdering::Worse => SessionOrdering::Worse,
            vodozemac::megolm::SessionOrdering::Unconnected => SessionOrdering::Unconnected,
        },
    )
}

} // verus!
