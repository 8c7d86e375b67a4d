use vstd::prelude::*;
use crate::bytes::sub_vec;
use crate::crypto::{ed25519_sig_verifies, ed25519_verify};
use crate::errors::Error;
use crate::scheme::{
    check_public_key, multi_pk_member, multi_pk_num_members, multi_pk_threshold, scheme_known,
    scheme_pk_wf, SCHEME_MULTI, SCHEME_SINGLE,
};

verus! {

/// Whether bit `i` (most-significant first within each byte) is set in a
/// signer bitmap.
pub open spec fn bitmap_bit(bm: Seq<u8>, i: int) -> bool {
    (bm[i / 8] >> ((7 - i % 8) as u8)) & 1 == 1
}

/// How many of the first `i` bitmap bits are set.
pub open spec fn bits_before(bm: Seq<u8>, i: int) -> int
    decreases i,
{
    if i <= 0 {
        0
    } else {
        bits_before(bm, i - 1) + if bitmap_bit(bm, i - 1) {
            1int
        } else {
            0int
        }
    }
}

/// The number of set bits never shrinks as the prefix grows.
pub proof fn lemma_bits_before_mono(bm: Seq<u8>, i: int, j: int)
    requires
        0 <= i <= j,
    ensures
        bits_before(bm, i) <= bits_before(bm, j),
    decreases j - i,
{
    if i < j {
        lemma_bits_before_mono(bm, i, j - 1);
    }
}

/// How many component signatures a multi-key signature blob carries.
pub open spec fn multi_sig_count(sig: Seq<u8>) -> int {
    (sig.len() - 4) / 64
}

/// The four-byte signer bitmap at the end of a multi-key signature blob.
pub open spec fn multi_sig_bitmap(sig: Seq<u8>) -> Seq<u8> {
    sig.subrange(sig.len() - 4, sig.len() as int)
}

/// The `j`-th component signature of a multi-key signature blob.
pub open spec fn multi_sig_nth(sig: Seq<u8>, j: int) -> Seq<u8> {
    sig.subrange(64 * j, 64 * j + 64)
}

/// A multi-key signature blob: component signatures, 64 bytes each, then a
/// four-byte bitmap naming exactly one signing member per component.
pub open spec fn multi_sig_wf(sig: Seq<u8>) -> bool {
    &&& sig.len() >= 68
    &&& (sig.len() - 4) % 64 == 0
    &&& multi_sig_count(sig) <= 32
    &&& bits_before(multi_sig_bitmap(sig), 32) == multi_sig_count(sig)
}

/// A well-formed multi-key signature is accepted for a message when the
/// bitmap names only existing members, at least threshold-many components
/// are present, and the `j`-th component signature verifies under the
/// member the `j`-th set bit names.
pub open spec fn multi_sig_verifies(pk: Seq<u8>, msg: Seq<u8>, sig: Seq<u8>) -> bool {
    &&& forall|i: int|
        0 <= i < 32 && bitmap_bit(multi_sig_bitmap(sig), i) ==> i < multi_pk_num_members(pk)
    &&& multi_sig_count(sig) >= multi_pk_threshold(pk)
    &&& forall|i: int|
        0 <= i < 32 && bitmap_bit(multi_sig_bitmap(sig), i) ==> ed25519_sig_verifies(
            multi_pk_member(pk, i),
            msg,
            multi_sig_nth(sig, bits_before(multi_sig_bitmap(sig), i)),
        )
}

/// Whether signature bytes are structurally well formed under a scheme.
pub open spec fn scheme_sig_wf(scheme: u8, sig: Seq<u8>) -> bool {
    if scheme == SCHEME_SINGLE {
        sig.len() == 64
    } else if scheme == SCHEME_MULTI {
        multi_sig_wf(sig)
    } else {
        false
    }
}

/// Whether a structurally well-formed signature is cryptographically
/// accepted for a message under a well-formed public key of a scheme.
pub open spec fn signature_valid(scheme: u8, pk: Seq<u8>, msg: Seq<u8>, sig: Seq<u8>) -> bool {
    if scheme == SCHEME_SINGLE {
        ed25519_sig_verifies(pk, msg, sig)
    } else if scheme == SCHEME_MULTI {
        multi_sig_verifies(pk, msg, sig)
    } else {
        false
    }
}

/// Verifies one signature against one message under one scheme, rejecting
/// malformed keys distinctly from malformed signatures and from
/// cryptographic failure.
pub fn verify_signature(scheme: u8, message: &Vec<u8>, pk: &Vec<u8>, sig: &Vec<u8>) -> (r: Result<
    (),
    Error,
>)
    ensures
        !scheme_known(scheme) ==> r == Err::<(), Error>(Error::UnknownScheme),
        scheme_known(scheme) && !scheme_pk_wf(scheme, pk@) ==> r == Err::<(), Error>(
            Error::MalformedKey,
        ),
        scheme_known(scheme) && scheme_pk_wf(scheme, pk@) && !scheme_sig_wf(scheme, sig@) ==> r
            == Err::<(), Error>(Error::MalformedSignature),
        scheme_known(scheme) && scheme_pk_wf(scheme, pk@) && scheme_sig_wf(scheme, sig@)
            && !signature_valid(scheme, pk@, message@, sig@) ==> r == Err::<(), Error>(
            Error::SignatureInvalid,
        ),
        scheme_known(scheme) && scheme_pk_wf(scheme, pk@) && scheme_sig_wf(scheme, sig@)
            && signature_valid(scheme, pk@, message@, sig@) ==> r == Ok::<(), Error>(()),
{
    match check_public_key(scheme, pk) {
        Ok(_) => {},
        Err(e) => {
            return Err(e);
        },
    }
    if scheme == SCHEME_SINGLE {
        if sig.len() != 64 {
            return Err(Error::MalformedSignature);
        }
        if ed25519_verify(pk, message, sig) {
            Ok(())
        } else {
            Err(Error::SignatureInvalid)
        }
    } else {
        verify_multi(message, pk, sig)
    }
}

/// The multi-key arm of `verify_signature`: walks the signer bitmap and
/// checks each named member against the matching component signature.
fn verify_multi(message: &Vec<u8>, pk: &Vec<u8>, sig: &Vec<u8>) -> (r: Result<(), Error>)
    requires
        scheme_pk_wf(SCHEME_MULTI, pk@),
    ensures
        !scheme_sig_wf(SCHEME_MULTI, sig@) ==> r == Err::<(), Error>(Error::MalformedSignature),
        scheme_sig_wf(SCHEME_MULTI, sig@) && !signature_valid(SCHEME_MULTI, pk@, message@, sig@)
            ==> r == Err::<(), Error>(Error::SignatureInvalid),
        scheme_sig_wf(SCHEME_MULTI, sig@) && signature_valid(SCHEME_MULTI, pk@, message@, sig@)
            ==> r == Ok::<(), Error>(()),
{
    if sig.len() < 68 || (sig.len() - 4) % 64 != 0 {
        return Err(Error::MalformedSignature);
    }
    let num_sigs: usize = (sig.len() - 4) / 64;
    if num_sigs > 32 {
        return Err(Error::MalformedSignature);
    }
    let bm = sub_vec(sig, sig.len() - 4, sig.len());
    let n: usize = (pk.len() - 1) / 32;

    // First pass: the bitmap must name exactly one member per component
    // signature, and only existing members.
    let mut i: usize = 0;
    let mut set_bits: usize = 0;
    let mut all_members_exist: bool = true;
    while i < 32
        invariant
            i <= 32,
            set_bits == bits_before(bm@, i as int),
            set_bits <= i,
            n == multi_pk_num_members(pk@),
            bm@ == multi_sig_bitmap(sig@),
            all_members_exist == forall|t: int|
                0 <= t < i && bitmap_bit(bm@, t) ==> t < n as int,
            bm@.len() == 4,
        decreases 32 - i,
    {
        let byte: u8 = bm[i / 8];
        let bit: u8 = (byte >> ((7 - i % 8) as u8)) & 1;
        assert(bit == 1 <==> bitmap_bit(bm@, i as int));
        if bit == 1 {
            set_bits += 1;
            if i >= n {
                all_members_exist = false;
            }
        }
        assert(set_bits == bits_before(bm@, i + 1));
        i += 1;
    }
    if set_bits != num_sigs {
        return Err(Error::MalformedSignature);
    }
    assert(scheme_sig_wf(SCHEME_MULTI, sig@));
    if !all_members_exist {
        return Err(Error::SignatureInvalid);
    }
    let threshold: u8 = pk[pk.len() - 1];
    if num_sigs < threshold as usize {
        return Err(Error::SignatureInvalid);
    }

    // Second pass: check each named member against its component signature.
    let mut i: usize = 0;
    let mut j: usize = 0;
    while i < 32
        invariant
            i <= 32,
            j == bits_before(bm@, i as int),
            n == multi_pk_num_members(pk@),
            scheme_pk_wf(SCHEME_MULTI, pk@),
            bm@ == multi_sig_bitmap(sig@),
            bm@.len() == 4,
            scheme_sig_wf(SCHEME_MULTI, sig@),
            sig@.len() == 64 * multi_sig_count(sig@) + 4,
            forall|t: int| 0 <= t < 32 && bitmap_bit(bm@, t) ==> t < n as int,
            multi_sig_count(sig@) >= multi_pk_threshold(pk@),
            forall|t: int|
                0 <= t < i && bitmap_bit(bm@, t) ==> ed25519_sig_verifies(
                    multi_pk_member(pk@, t),
                    message@,
                    multi_sig_nth(sig@, bits_before(bm@, t)),
                ),
        decreases 32 - i,
    {
        let byte: u8 = bm[i / 8];
        let bit: u8 = (byte >> ((7 - i % 8) as u8)) & 1;
        assert(bit == 1 <==> bitmap_bit(bm@, i as int));
        if bit == 1 {
            proof {
                lemma_bits_before_mono(bm@, i + 1, 32);
                assert(bits_before(bm@, i + 1) == j + 1);
            }
            assert(j < multi_sig_count(sig@));
            let member = sub_vec(pk, 32 * i, 32 * i + 32);
            let component = sub_vec(sig, 64 * j, 64 * j + 64);
            assert(member@ == multi_pk_member(pk@, i as int));
            assert(component@ == multi_sig_nth(sig@, j as int));
            if !ed25519_verify(&member, message, &component) {
                assert(!multi_sig_verifies(pk@, message@, sig@));
                return Err(Error::SignatureInvalid);
            }
            j += 1;
        }
        assert(j == bits_before(bm@, i + 1));
        i += 1;
    }
    assert(multi_sig_verifies(pk@, message@, sig@));
    Ok(())
}

} // verus!
