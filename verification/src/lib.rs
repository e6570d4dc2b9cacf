//! Synchronisation and caching layer between an end-to-end encryption engine
//! and a persistent key store.
//!
//! The crate holds the state that lives in the process and the rules by
//! which it changes: the cache and its transactions, the tracking of users
//! whose device lists are out of date, the projection of raw changes into
//! update sets, the import and export of room keys, and the handling of
//! secrets and bundles. Reading and writing the backend is left to the
//! caller, who hands in what was read and persists what is handed back.

pub mod bundle;
pub mod caches;
pub mod changes;
pub mod export;
pub mod identities;
pub mod import;
pub mod key_query;
pub mod keys;
pub mod megolm;
pub mod nested_map;
pub mod room_key;
pub mod room_key_index;
pub mod secrets;
pub mod sorted_map;
pub mod store;
pub mod string_set;
pub mod text;
pub mod updates;
pub mod values;
