use vstd::prelude::*;
use sha3::Digest;

verus! {

/// The SHA3-256 digest of a byte string.
pub uninterp spec fn sha3_256_of(data: Seq<u8>) -> Seq<u8>;

/// Whether 32 bytes decode to an ed25519 public key.
pub uninterp spec fn ed25519_pk_decodes(pk: Seq<u8>) -> bool;

/// Whether an ed25519 signature is accepted for a message under a public key.
pub uninterp spec fn ed25519_sig_verifies(pk: Seq<u8>, msg: Seq<u8>, sig: Seq<u8>) -> bool;

/// Relies on sha3::Sha3_256 (SHA3-256): a pure function of the input bytes
/// alone, with a fixed 32-byte output.
#[verifier::external_body]
pub(crate) fn sha3_256(data: &Vec<u8>) -> (r: Vec<u8>)
    ensures
        r@ == sha3_256_of(data@),
        r@.len() == 32,
{
    sha3::Sha3_256::digest(data.as_slice()).as_slice().to_vec()
}

/// Relies on ed25519_dalek::VerifyingKey::from_bytes: it succeeds exactly
/// when the 32 bytes decompress to a curve point, a property of the bytes
/// alone.
#[verifier::external_body]
pub(crate) fn ed25519_pk_well_formed(pk: &Vec<u8>) -> (r: bool)
    requires
        pk@.len() == 32,
    ensures
        r == ed25519_pk_decodes(pk@),
{
    let arr: &[u8; 32] = pk.as_slice().try_into().unwrap();
    ed25519_dalek::VerifyingKey::from_bytes(arr).is_ok()
}

/// Relies on ed25519_dalek::VerifyingKey::verify_strict, after decoding the
/// arguments with VerifyingKey::from_bytes (which cannot fail here, by the
/// second precondition) and Signature::from_bytes (which never fails): a
/// deterministic check of 64 signature bytes against a message under a
/// public key, depending on the three byte strings alone.
#[verifier::external_body]
pub(crate) fn ed25519_verify(pk: &Vec<u8>, msg: &Vec<u8>, sig: &Vec<u8>) -> (r: bool)
    requires
        pk@.len() == 32,
        ed25519_pk_decodes(pk@),
        sig@.len() == 64,
    ensures
        r == ed25519_sig_verifies(pk@, msg@, sig@),
{
    let pk_arr: &[u8; 32] = pk.as_slice().try_into().unwrap();
    let sig_arr: &[u8; 64] = sig.as_slice().try_into().unwrap();
    let vk = ed25519_dalek::VerifyingKey::from_bytes(pk_arr).unwrap();
    let s = ed25519_dalek::Signature::from_bytes(sig_arr);
    vk.verify_strict(msg.as_slice(), &s).is_ok()
}

} // verus!
