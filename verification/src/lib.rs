//! Authentication-key rotation for fixed-width account addresses.
//!
//! An account keeps its address forever while the key material that
//! authenticates its transactions can be replaced. A rotation is valid only
//! when both the outgoing and the incoming key endorse one canonical,
//! domain-separated challenge message, and every successful rotation is
//! recorded in a global reverse index so that any historical
//! authentication-key-derived address can be resolved to the account that
//! owns it.

pub mod errors;
pub mod bytes;
pub mod crypto;
pub mod challenge;
pub mod scheme;
pub mod signatures;
pub mod store;
pub mod index;
pub mod coordinator;
