use vstd::prelude::*;
use crate::bytes::{u64_le_bytes, lemma_u64_le_bytes_injective, lemma_concat_cancel, push_bytes,
    push_u64_le};

verus! {

/// The message both the outgoing and the incoming key must sign to authorize
/// a rotation. It is never persisted; only its canonical encoding matters.
pub struct RotationProofChallenge {
    /// Address of the contract that verifies rotations (domain separation).
    pub account_address: Vec<u8>,
    /// Name of the verifying module, as UTF-8 bytes (domain separation).
    pub module_name: Vec<u8>,
    /// Name of the challenge type, as UTF-8 bytes (domain separation).
    pub struct_name: Vec<u8>,
    /// The account's sequence number at signing time (replay prevention).
    pub sequence_number: u64,
    /// Address of the account being rotated.
    pub originator: Vec<u8>,
    /// The account's current authentication key.
    pub current_auth_key: Vec<u8>,
    /// Encoded public key the account rotates to.
    pub new_public_key: Vec<u8>,
}

/// The canonical encoding: ordered concatenation of the verifying contract
/// address (32 bytes), module name (8-byte little-endian length prefix, then
/// the bytes), type name (prefixed the same way), sequence number (8 bytes
/// little-endian), originator address (32 bytes), current authentication key
/// (32 bytes), and the new public key (length-prefixed).
pub open spec fn challenge_bytes(
    account_address: Seq<u8>,
    module_name: Seq<u8>,
    struct_name: Seq<u8>,
    sequence_number: u64,
    originator: Seq<u8>,
    current_auth_key: Seq<u8>,
    new_public_key: Seq<u8>,
) -> Seq<u8> {
    account_address + u64_le_bytes(module_name.len() as u64) + module_name
        + u64_le_bytes(struct_name.len() as u64) + struct_name
        + u64_le_bytes(sequence_number) + originator + current_auth_key
        + u64_le_bytes(new_public_key.len() as u64) + new_public_key
}

impl RotationProofChallenge {
    /// Field widths the canonical encoding fixes.
    pub open spec fn wf(self) -> bool {
        &&& self.account_address@.len() == 32
        &&& self.originator@.len() == 32
        &&& self.current_auth_key@.len() == 32
        &&& self.module_name@.len() <= u64::MAX
        &&& self.struct_name@.len() <= u64::MAX
        &&& self.new_public_key@.len() <= u64::MAX
    }

    /// The canonical encoding of this challenge.
    pub open spec fn encoding(self) -> Seq<u8> {
        challenge_bytes(
            self.account_address@,
            self.module_name@,
            self.struct_name@,
            self.sequence_number,
            self.originator@,
            self.current_auth_key@,
            self.new_public_key@,
        )
    }

    /// Produces the canonical byte encoding. Pure and deterministic: two
    /// challenges agree on their encoding exactly when they agree on every
    /// field (see `lemma_challenge_encoding_injective`).
    pub fn encode(&self) -> (r: Vec<u8>)
        ensures
            r@ == self.encoding(),
    {
        let mut out: Vec<u8> = Vec::new();
        push_bytes(&mut out, &self.account_address);
        push_u64_le(&mut out, self.module_name.len() as u64);
        push_bytes(&mut out, &self.module_name);
        push_u64_le(&mut out, self.struct_name.len() as u64);
        push_bytes(&mut out, &self.struct_name);
        push_u64_le(&mut out, self.sequence_number);
        push_bytes(&mut out, &self.originator);
        push_bytes(&mut out, &self.current_auth_key);
        push_u64_le(&mut out, self.new_public_key.len() as u64);
        push_bytes(&mut out, &self.new_public_key);
        assert(out@ =~= self.encoding());
        out
    }
}

/// The anti-ambiguity guarantee of the canonical encoding: two well-formed
/// challenges with the same encoding agree on every field, so a signature
/// over an encoded challenge commits the signer to the exact sequence
/// number, originator, current key and new public key it names.
pub proof fn lemma_challenge_encoding_injective(
    c1: RotationProofChallenge,
    c2: RotationProofChallenge,
)
    requires
        c1.wf(),
        c2.wf(),
        c1.encoding() == c2.encoding(),
    ensures
        c1.account_address@ == c2.account_address@,
        c1.module_name@ == c2.module_name@,
        c1.struct_name@ == c2.struct_name@,
        c1.sequence_number == c2.sequence_number,
        c1.originator@ == c2.originator@,
        c1.current_auth_key@ == c2.current_auth_key@,
        c1.new_public_key@ == c2.new_public_key@,
{
    let a1 = c1.account_address@;
    let m1 = c1.module_name@;
    let s1 = c1.struct_name@;
    let q1 = c1.sequence_number;
    let o1 = c1.originator@;
    let k1 = c1.current_auth_key@;
    let p1 = c1.new_public_key@;
    let a2 = c2.account_address@;
    let m2 = c2.module_name@;
    let s2 = c2.struct_name@;
    let q2 = c2.sequence_number;
    let o2 = c2.originator@;
    let k2 = c2.current_auth_key@;
    let p2 = c2.new_public_key@;

    let t1_1 = u64_le_bytes(m1.len() as u64) + (m1 + (u64_le_bytes(s1.len() as u64) + (s1 + (
    u64_le_bytes(q1) + (o1 + (k1 + (u64_le_bytes(p1.len() as u64) + p1)))))));
    let t1_2 = u64_le_bytes(m2.len() as u64) + (m2 + (u64_le_bytes(s2.len() as u64) + (s2 + (
    u64_le_bytes(q2) + (o2 + (k2 + (u64_le_bytes(p2.len() as u64) + p2)))))));
    assert(c1.encoding() =~= a1 + t1_1);
    assert(c2.encoding() =~= a2 + t1_2);
    lemma_concat_cancel(a1, t1_1, a2, t1_2);

    let t2_1 = m1 + (u64_le_bytes(s1.len() as u64) + (s1 + (u64_le_bytes(q1) + (o1 + (k1 + (
    u64_le_bytes(p1.len() as u64) + p1))))));
    let t2_2 = m2 + (u64_le_bytes(s2.len() as u64) + (s2 + (u64_le_bytes(q2) + (o2 + (k2 + (
    u64_le_bytes(p2.len() as u64) + p2))))));
    lemma_concat_cancel(u64_le_bytes(m1.len() as u64), t2_1, u64_le_bytes(m2.len() as u64), t2_2);
    lemma_u64_le_bytes_injective(m1.len() as u64, m2.len() as u64);
    assert(m1.len() == m2.len());

    let t3_1 = u64_le_bytes(s1.len() as u64) + (s1 + (u64_le_bytes(q1) + (o1 + (k1 + (
    u64_le_bytes(p1.len() as u64) + p1)))));
    let t3_2 = u64_le_bytes(s2.len() as u64) + (s2 + (u64_le_bytes(q2) + (o2 + (k2 + (
    u64_le_bytes(p2.len() as u64) + p2)))));
    lemma_concat_cancel(m1, t3_1, m2, t3_2);

    let t4_1 = s1 + (u64_le_bytes(q1) + (o1 + (k1 + (u64_le_bytes(p1.len() as u64) + p1))));
    let t4_2 = s2 + (u64_le_bytes(q2) + (o2 + (k2 + (u64_le_bytes(p2.len() as u64) + p2))));
    lemma_concat_cancel(u64_le_bytes(s1.len() as u64), t4_1, u64_le_bytes(s2.len() as u64), t4_2);
    lemma_u64_le_bytes_injective(s1.len() as u64, s2.len() as u64);
    assert(s1.len() == s2.len());

    let t5_1 = u64_le_bytes(q1) + (o1 + (k1 + (u64_le_bytes(p1.len() as u64) + p1)));
    let t5_2 = u64_le_bytes(q2) + (o2 + (k2 + (u64_le_bytes(p2.len() as u64) + p2)));
    lemma_concat_cancel(s1, t5_1, s2, t5_2);

    let t6_1 = o1 + (k1 + (u64_le_bytes(p1.len() as u64) + p1));
    let t6_2 = o2 + (k2 + (u64_le_bytes(p2.len() as u64) + p2));
    lemma_concat_cancel(u64_le_bytes(q1), t6_1, u64_le_bytes(q2), t6_2);
    lemma_u64_le_bytes_injective(q1, q2);

    let t7_1 = k1 + (u64_le_bytes(p1.len() as u64) + p1);
    let t7_2 = k2 + (u64_le_bytes(p2.len() as u64) + p2);
    lemma_concat_cancel(o1, t7_1, o2, t7_2);

    let t8_1 = u64_le_bytes(p1.len() as u64) + p1;
    let t8_2 = u64_le_bytes(p2.len() as u64) + p2;
    lemma_concat_cancel(k1, t8_1, k2, t8_2);

    lemma_concat_cancel(u64_le_bytes(p1.len() as u64), p1, u64_le_bytes(p2.len() as u64), p2);
}

} // verus!
