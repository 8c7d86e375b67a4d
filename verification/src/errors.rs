use vstd::prelude::*;

verus! {

/// Every way a rotation request can be rejected. No failure mutates any
/// state, and the specific kind is always surfaced to the caller.
#[derive(Clone, Copy, Debug, PartialEq, Eq, Structural)]
pub enum Error {
    /// The scheme identifier is not registered.
    UnknownScheme,
    /// Public-key bytes do not decode under the scheme they were offered for.
    MalformedKey,
    /// Signature bytes do not decode under the scheme they were offered for.
    MalformedSignature,
    /// Key and signature decode, but the signature is cryptographically
    /// rejected for the challenge message.
    SignatureInvalid,
    /// The supplied current public key does not derive the account's stored
    /// authentication key.
    CurrentKeyMismatch,
    /// The address has no account record yet.
    AccountNotFound,
    /// The challenge was built against a sequence number the store has since
    /// advanced past.
    SequenceNumberStale,
}

} // verus!
