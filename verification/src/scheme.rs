use vstd::prelude::*;
use crate::bytes::{push_bytes, sub_vec};
use crate::crypto::{ed25519_pk_decodes, ed25519_pk_well_formed, sha3_256, sha3_256_of};
use crate::errors::Error;

verus! {

/// Scheme identifier of the single-key scheme.
pub const SCHEME_SINGLE: u8 = 0;

/// Scheme identifier of the threshold multi-key scheme.
pub const SCHEME_MULTI: u8 = 1;

/// Most member keys a multi-key public key may carry.
pub const MAX_MULTI_MEMBERS: usize = 32;

/// Whether a scheme identifier is registered.
pub open spec fn scheme_known(scheme: u8) -> bool {
    scheme == SCHEME_SINGLE || scheme == SCHEME_MULTI
}

/// A single-key public key: 32 bytes that decode to a point.
pub open spec fn single_pk_wf(pk: Seq<u8>) -> bool {
    pk.len() == 32 && ed25519_pk_decodes(pk)
}

/// Number of member keys a multi-key blob encodes.
pub open spec fn multi_pk_num_members(pk: Seq<u8>) -> int {
    (pk.len() - 1) / 32
}

/// The threshold byte of a multi-key blob: how many members must sign.
pub open spec fn multi_pk_threshold(pk: Seq<u8>) -> u8 {
    pk[pk.len() - 1]
}

/// The `i`-th member key of a multi-key blob.
pub open spec fn multi_pk_member(pk: Seq<u8>, i: int) -> Seq<u8> {
    pk.subrange(32 * i, 32 * i + 32)
}

/// A multi-key public key: the ordered member keys, 32 bytes each, followed
/// by one threshold byte. Every member must decode and the threshold must
/// name a reachable count.
pub open spec fn multi_pk_wf(pk: Seq<u8>) -> bool {
    &&& pk.len() >= 33
    &&& (pk.len() - 1) % 32 == 0
    &&& multi_pk_num_members(pk) <= MAX_MULTI_MEMBERS
    &&& 1 <= multi_pk_threshold(pk) <= multi_pk_num_members(pk)
    &&& forall|i: int|
        0 <= i < multi_pk_num_members(pk) ==> ed25519_pk_decodes(multi_pk_member(pk, i))
}

/// Whether public-key bytes are well formed under a scheme.
pub open spec fn scheme_pk_wf(scheme: u8, pk: Seq<u8>) -> bool {
    if scheme == SCHEME_SINGLE {
        single_pk_wf(pk)
    } else if scheme == SCHEME_MULTI {
        multi_pk_wf(pk)
    } else {
        false
    }
}

/// The authentication key a public key owns under a scheme: the SHA3-256
/// digest of the key bytes with the scheme identifier appended.
pub open spec fn derived_auth_key(scheme: u8, pk: Seq<u8>) -> Seq<u8> {
    sha3_256_of(pk + seq![scheme])
}

/// Checks that `pk` is a well-formed public key under `scheme`.
pub fn check_public_key(scheme: u8, pk: &Vec<u8>) -> (r: Result<(), Error>)
    ensures
        !scheme_known(scheme) ==> r == Err::<(), Error>(Error::UnknownScheme),
        scheme_known(scheme) && !scheme_pk_wf(scheme, pk@) ==> r == Err::<(), Error>(
            Error::MalformedKey,
        ),
        scheme_known(scheme) && scheme_pk_wf(scheme, pk@) ==> r == Ok::<(), Error>(()),
{
    if scheme == SCHEME_SINGLE {
        if pk.len() != 32 {
            return Err(Error::MalformedKey);
        }
        if !ed25519_pk_well_formed(pk) {
            return Err(Error::MalformedKey);
        }
        Ok(())
    } else if scheme == SCHEME_MULTI {
        if pk.len() < 33 || (pk.len() - 1) % 32 != 0 {
            return Err(Error::MalformedKey);
        }
        let n: usize = (pk.len() - 1) / 32;
        if n > MAX_MULTI_MEMBERS {
            return Err(Error::MalformedKey);
        }
        let threshold: u8 = pk[pk.len() - 1];
        if threshold < 1 || (threshold as usize) > n {
            return Err(Error::MalformedKey);
        }
        let mut i: usize = 0;
        while i < n
            invariant
                scheme == SCHEME_MULTI,
                i <= n,
                n == multi_pk_num_members(pk@),
                1 <= multi_pk_threshold(pk@) <= n,
                n <= MAX_MULTI_MEMBERS,
                pk@.len() >= 33,
                (pk@.len() - 1) % 32 == 0,
                forall|j: int| 0 <= j < i ==> ed25519_pk_decodes(multi_pk_member(pk@, j)),
            decreases n - i,
        {
            let member = sub_vec(pk, 32 * i, 32 * i + 32);
            if !ed25519_pk_well_formed(&member) {
                assert(!ed25519_pk_decodes(multi_pk_member(pk@, i as int)));
                return Err(Error::MalformedKey);
            }
            i += 1;
        }
        Ok(())
    } else {
        Err(Error::UnknownScheme)
    }
}

/// Derives the authentication key of `pk` under `scheme`, rejecting
/// unregistered schemes and malformed keys.
pub fn derive_auth_key(scheme: u8, pk: &Vec<u8>) -> (r: Result<Vec<u8>, Error>)
    ensures
        !scheme_known(scheme) ==> r == Err::<Vec<u8>, Error>(Error::UnknownScheme),
        scheme_known(scheme) && !scheme_pk_wf(scheme, pk@) ==> r == Err::<Vec<u8>, Error>(
            Error::MalformedKey,
        ),
        scheme_known(scheme) && scheme_pk_wf(scheme, pk@) ==> (r matches Ok(k) && k@
            == derived_auth_key(scheme, pk@) && k@.len() == 32),
{
    match check_public_key(scheme, pk) {
        Ok(_) => {
            let mut buf: Vec<u8> = Vec::new();
            push_bytes(&mut buf, pk);
            buf.push(scheme);
            assert(buf@ =~= pk@ + seq![scheme]);
            Ok(sha3_256(&buf))
        },
        Err(e) => Err(e),
    }
}

} // verus!
