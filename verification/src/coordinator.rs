use vstd::prelude::*;
use crate::bytes::{bytes_eq, sub_vec};
use crate::challenge::{challenge_bytes, RotationProofChallenge};
use crate::errors::Error;
use crate::index::{resolved_owner, OriginatingAddressIndex};
use crate::scheme::{derive_auth_key, derived_auth_key, scheme_known, scheme_pk_wf};
use crate::signatures::{scheme_sig_wf, signature_valid, verify_signature};
use crate::store::{rotated_account, AccountKeyStore, AccountModel};

verus! {

/// Address of the contract that verifies rotations; every challenge names it
/// (domain separation).
pub open spec fn core_address_bytes() -> Seq<u8> {
    Seq::new(32, |i: int| if i == 31 { 1u8 } else { 0u8 })
}

/// The verifying module's name, "account", as UTF-8 bytes.
pub open spec fn module_name_bytes() -> Seq<u8> {
    seq![97u8, 99u8, 99u8, 111u8, 117u8, 110u8, 116u8]
}

/// The challenge type's name, "RotationProofChallenge", as UTF-8 bytes.
pub open spec fn struct_name_bytes() -> Seq<u8> {
    seq![
        82u8, 111u8, 116u8, 97u8, 116u8, 105u8, 111u8, 110u8, 80u8, 114u8, 111u8, 111u8, 102u8,
        67u8, 104u8, 97u8, 108u8, 108u8, 101u8, 110u8, 103u8, 101u8,
    ]
}

/// The canonical challenge message a rotation must be signed over.
pub open spec fn rotation_challenge_msg(
    sequence_number: u64,
    originator: Seq<u8>,
    current_auth_key: Seq<u8>,
    new_public_key: Seq<u8>,
) -> Seq<u8> {
    challenge_bytes(
        core_address_bytes(),
        module_name_bytes(),
        struct_name_bytes(),
        sequence_number,
        originator,
        current_auth_key,
        new_public_key,
    )
}

/// Builds the verifying contract address.
pub fn core_address() -> (r: Vec<u8>)
    ensures
        r@ == core_address_bytes(),
{
    let mut v: Vec<u8> = Vec::new();
    let mut i: usize = 0;
    while i < 31
        invariant
            i <= 31,
            v@.len() == i,
            forall|j: int| 0 <= j < i ==> v@[j] == 0u8,
        decreases 31 - i,
    {
        v.push(0u8);
        i += 1;
    }
    v.push(1u8);
    assert(v@ =~= core_address_bytes());
    v
}

/// Builds the verifying module's name bytes.
pub fn module_name() -> (r: Vec<u8>)
    ensures
        r@ == module_name_bytes(),
{
    let v: Vec<u8> = vec![97u8, 99u8, 99u8, 111u8, 117u8, 110u8, 116u8];
    assert(v@ =~= module_name_bytes());
    v
}

/// Builds the challenge type's name bytes.
pub fn struct_name() -> (r: Vec<u8>)
    ensures
        r@ == struct_name_bytes(),
{
    let v: Vec<u8> = vec![
        82u8, 111u8, 116u8, 97u8, 116u8, 105u8, 111u8, 110u8, 80u8, 114u8, 111u8, 111u8, 102u8,
        67u8, 104u8, 97u8, 108u8, 108u8, 101u8, 110u8, 103u8, 101u8,
    ];
    assert(v@ =~= struct_name_bytes());
    v
}

/// Whether every validation step of a rotation passes: the schemes are
/// registered, the keys and signatures well formed, the account known, the
/// offered current key the stored one, the sequence number current, and both
/// signatures accepted for the canonical challenge.
pub open spec fn rotation_checks_pass(
    store: Map<Seq<u8>, AccountModel>,
    address: Seq<u8>,
    challenge_sequence_number: u64,
    from_scheme: u8,
    current_public_key: Seq<u8>,
    to_scheme: u8,
    new_public_key: Seq<u8>,
    sig_current: Seq<u8>,
    sig_new: Seq<u8>,
) -> bool {
    let msg = rotation_challenge_msg(
        challenge_sequence_number,
        address,
        store[address].auth_key,
        new_public_key,
    );
    &&& scheme_known(from_scheme)
    &&& scheme_pk_wf(from_scheme, current_public_key)
    &&& store.contains_key(address)
    &&& derived_auth_key(from_scheme, current_public_key) == store[address].auth_key
    &&& challenge_sequence_number == store[address].sequence_number
    &&& scheme_sig_wf(from_scheme, sig_current)
    &&& signature_valid(from_scheme, current_public_key, msg, sig_current)
    &&& scheme_known(to_scheme)
    &&& scheme_pk_wf(to_scheme, new_public_key)
    &&& scheme_sig_wf(to_scheme, sig_new)
    &&& signature_valid(to_scheme, new_public_key, msg, sig_new)
}

/// The error a failing rotation surfaces: the first check of
/// `rotation_checks_pass` that fails names it, in validation order.
pub open spec fn rotation_error(
    store: Map<Seq<u8>, AccountModel>,
    address: Seq<u8>,
    challenge_sequence_number: u64,
    from_scheme: u8,
    current_public_key: Seq<u8>,
    to_scheme: u8,
    new_public_key: Seq<u8>,
    sig_current: Seq<u8>,
    sig_new: Seq<u8>,
) -> Error {
    let msg = rotation_challenge_msg(
        challenge_sequence_number,
        address,
        store[address].auth_key,
        new_public_key,
    );
    if !scheme_known(from_scheme) {
        Error::UnknownScheme
    } else if !scheme_pk_wf(from_scheme, current_public_key) {
        Error::MalformedKey
    } else if !store.contains_key(address) {
        Error::AccountNotFound
    } else if derived_auth_key(from_scheme, current_public_key) != store[address].auth_key {
        Error::CurrentKeyMismatch
    } else if challenge_sequence_number != store[address].sequence_number {
        Error::SequenceNumberStale
    } else if !scheme_sig_wf(from_scheme, sig_current) {
        Error::MalformedSignature
    } else if !signature_valid(from_scheme, current_public_key, msg, sig_current) {
        Error::SignatureInvalid
    } else if !scheme_known(to_scheme) {
        Error::UnknownScheme
    } else if !scheme_pk_wf(to_scheme, new_public_key) {
        Error::MalformedKey
    } else if !scheme_sig_wf(to_scheme, sig_new) {
        Error::MalformedSignature
    } else {
        Error::SignatureInvalid
    }
}

/// Orchestrates the end-to-end rotation: validates inputs, builds the
/// canonical challenge, verifies both signatures, and mutates the key store
/// and the reverse index together.
pub struct RotationCoordinator {
    /// Per-account records.
    pub store: AccountKeyStore,
    /// The global reverse index.
    pub index: OriginatingAddressIndex,
}

impl RotationCoordinator {
    /// Both collaborators are well formed.
    pub open spec fn wf(self) -> bool {
        self.store.wf() && self.index.wf()
    }

    /// A coordinator over an empty store and an empty index.
    pub fn new() -> (r: Self)
        ensures
            r.wf(),
            r.store@ == Map::<Seq<u8>, AccountModel>::empty(),
            r.index@ == Map::<Seq<u8>, Seq<u8>>::empty(),
    {
        RotationCoordinator { store: AccountKeyStore::new(), index: OriginatingAddressIndex::new() }
    }

    /// Creates an account whose key material is not yet rotated. See
    /// `AccountKeyStore::create_account`.
    pub fn create_account(&mut self, address: Vec<u8>, auth_key: Vec<u8>, sequence_number: u64)
        -> (r: bool)
        requires
            old(self).wf(),
        ensures
            final(self).wf(),
            final(self).index == old(self).index,
            r == (address@.len() == 32 && auth_key@.len() == 32 && !old(self).store@.contains_key(
                address@,
            )),
            r ==> final(self).store@ == old(self).store@.insert(
                address@,
                (AccountModel { auth_key: auth_key@, sequence_number, events: Seq::empty() }),
            ),
            !r ==> *final(self) == *old(self),
    {
        self.store.create_account(address, auth_key, sequence_number)
    }

    /// Advances an account's sequence number by one; owned by the
    /// surrounding transaction layer.
    pub fn increment_sequence_number(&mut self, address: &Vec<u8>) -> (r: Result<(), Error>)
        requires
            old(self).wf(),
            old(self).store@.contains_key(address@)
                ==> old(self).store@[address@].sequence_number < u64::MAX,
        ensures
            final(self).wf(),
            final(self).index == old(self).index,
            old(self).store@.contains_key(address@) ==> (r == Ok::<(), Error>(())
                && final(self).store@ == old(self).store@.insert(
                address@,
                (AccountModel {
                    auth_key: old(self).store@[address@].auth_key,
                    sequence_number: (old(self).store@[address@].sequence_number + 1) as u64,
                    events: old(self).store@[address@].events,
                }),
            )),
            !old(self).store@.contains_key(address@) ==> (r == Err::<(), Error>(
                Error::AccountNotFound,
            ) && *final(self) == *old(self)),
    {
        self.store.increment_sequence_number(address)
    }

    /// The authentication key that currently authenticates `address`.
    pub fn current_key(&self, address: &Vec<u8>) -> (r: Result<Vec<u8>, Error>)
        requires
            self.wf(),
        ensures
            self.store@.contains_key(address@) ==> (r matches Ok(k) && k@
                == self.store@[address@].auth_key),
            !self.store@.contains_key(address@) ==> r == Err::<Vec<u8>, Error>(
                Error::AccountNotFound,
            ),
    {
        self.store.current_key(address)
    }

    /// The sequence number of `address`.
    pub fn sequence_number(&self, address: &Vec<u8>) -> (r: Result<u64, Error>)
        requires
            self.wf(),
        ensures
            self.store@.contains_key(address@) ==> r == Ok::<u64, Error>(
                self.store@[address@].sequence_number,
            ),
            !self.store@.contains_key(address@) ==> r == Err::<u64, Error>(Error::AccountNotFound),
    {
        self.store.sequence_number(address)
    }

    /// How many successful rotations `address` has gone through.
    pub fn rotation_event_count(&self, address: &Vec<u8>) -> (r: Result<usize, Error>)
        requires
            self.wf(),
        ensures
            self.store@.contains_key(address@) ==> r == Ok::<usize, Error>(
                self.store@[address@].events.len() as usize,
            ),
            !self.store@.contains_key(address@) ==> r == Err::<usize, Error>(
                Error::AccountNotFound,
            ),
    {
        self.store.rotation_event_count(address)
    }

    /// The account address that owns `derived_address`: the index entry when
    /// one exists, the address itself when the key has never been rotated
    /// away from its own address.
    pub fn lookup_owner(&self, derived_address: &Vec<u8>) -> (r: Vec<u8>)
        requires
            self.wf(),
        ensures
            r@ == resolved_owner(self.index@, derived_address@),
    {
        self.index.resolve_owner(derived_address)
    }

    /// The single mutating entry point. Resolves the account's current key
    /// from the offered public key, builds the canonical challenge for
    /// `challenge_sequence_number` — the sequence number the signers built
    /// their challenge against, which must still be the account's current
    /// one, else the rotation fails as stale (a race, not a protocol bug) —
    /// demands that both the outgoing and
    /// the incoming key signed exactly that challenge (dual consent), and
    /// only then swaps the stored key, appends one rotation event, and points
    /// the reverse index entry of the new key at the account's root
    /// originating address. Any failure leaves every state untouched and
    /// surfaces the specific error.
    pub fn rotate_authentication_key(
        &mut self,
        address: &Vec<u8>,
        challenge_sequence_number: u64,
        from_scheme: u8,
        current_public_key: &Vec<u8>,
        to_scheme: u8,
        new_public_key: &Vec<u8>,
        sig_current: &Vec<u8>,
        sig_new: &Vec<u8>,
    ) -> (r: Result<Vec<u8>, Error>)
        requires
            old(self).wf(),
        ensures
            final(self).wf(),
            rotation_checks_pass(
                old(self).store@,
                address@,
                challenge_sequence_number,
                from_scheme,
                current_public_key@,
                to_scheme,
                new_public_key@,
                sig_current@,
                sig_new@,
            ) ==> (r matches Ok(k) && k@ == derived_auth_key(to_scheme, new_public_key@)
                && final(self).store@ == old(self).store@.insert(
                address@,
                rotated_account(
                    old(self).store@[address@],
                    derived_auth_key(to_scheme, new_public_key@),
                ),
            ) && final(self).index@ == old(self).index@.insert(
                derived_auth_key(to_scheme, new_public_key@),
                resolved_owner(old(self).index@, address@),
            )),
            !rotation_checks_pass(
                old(self).store@,
                address@,
                challenge_sequence_number,
                from_scheme,
                current_public_key@,
                to_scheme,
                new_public_key@,
                sig_current@,
                sig_new@,
            ) ==> (r == Err::<Vec<u8>, Error>(
                rotation_error(
                    old(self).store@,
                    address@,
                    challenge_sequence_number,
                    from_scheme,
                    current_public_key@,
                    to_scheme,
                    new_public_key@,
                    sig_current@,
                    sig_new@,
                ),
            ) && *final(self) == *old(self)),
    {
        let cur_auth = match derive_auth_key(from_scheme, current_public_key) {
            Ok(k) => k,
            Err(e) => {
                return Err(e);
            },
        };
        let stored_key = match self.store.current_key(address) {
            Ok(k) => k,
            Err(e) => {
                return Err(e);
            },
        };
        if !bytes_eq(&cur_auth, &stored_key) {
            return Err(Error::CurrentKeyMismatch);
        }
        let stored_seq = match self.store.sequence_number(address) {
            Ok(s) => s,
            Err(e) => {
                return Err(e);
            },
        };
        if challenge_sequence_number != stored_seq {
            return Err(Error::SequenceNumberStale);
        }
        let originator = sub_vec(address, 0, address.len());
        assert(originator@ =~= address@);
        let new_pk_copy = sub_vec(new_public_key, 0, new_public_key.len());
        assert(new_pk_copy@ =~= new_public_key@);
        let challenge = RotationProofChallenge {
            account_address: core_address(),
            module_name: module_name(),
            struct_name: struct_name(),
            sequence_number: challenge_sequence_number,
            originator,
            current_auth_key: stored_key,
            new_public_key: new_pk_copy,
        };
        let msg = challenge.encode();
        assert(msg@ == rotation_challenge_msg(
            challenge_sequence_number,
            address@,
            self.store@[address@].auth_key,
            new_public_key@,
        ));
        match verify_signature(from_scheme, &msg, current_public_key, sig_current) {
            Ok(_) => {},
            Err(e) => {
                return Err(e);
            },
        }
        match verify_signature(to_scheme, &msg, new_public_key, sig_new) {
            Ok(_) => {},
            Err(e) => {
                return Err(e);
            },
        }
        let new_auth = match derive_auth_key(to_scheme, new_public_key) {
            Ok(k) => k,
            Err(e) => {
                return Err(e);
            },
        };
        proof {
            self.store.lemma_contained_address_width(address@);
        }
        let owner = self.index.resolve_owner(address);
        let new_auth_for_store = sub_vec(&new_auth, 0, new_auth.len());
        assert(new_auth_for_store@ =~= new_auth@);
        match self.store.apply_rotation(address, new_auth_for_store) {
            Ok(_) => {},
            Err(e) => {
                return Err(e);
            },
        }
        let new_auth_for_index = sub_vec(&new_auth, 0, new_auth.len());
        assert(new_auth_for_index@ =~= new_auth@);
        self.index.set(new_auth_for_index, owner);
        Ok(new_auth)
    }
}

/// After a successful rotation, the account's current key is the newly
/// derived authentication key, and the new key's derived address resolves to
/// the account's root originating address.
pub proof fn lemma_rotation_queries(
    store0: Map<Seq<u8>, AccountModel>,
    index0: Map<Seq<u8>, Seq<u8>>,
    address: Seq<u8>,
    new_auth: Seq<u8>,
)
    requires
        store0.contains_key(address),
    ensures
        store0.insert(address, rotated_account(store0[address], new_auth))[address].auth_key
            == new_auth,
        resolved_owner(
            index0.insert(new_auth, resolved_owner(index0, address)),
            new_auth,
        ) == resolved_owner(index0, address),
{
}

/// Dual consent: when every structural check passes but either the outgoing
/// or the incoming key did not sign the canonical challenge, the rotation
/// fails with `SignatureInvalid` — neither key holder alone can force a
/// rotation.
pub proof fn lemma_dual_consent(
    store: Map<Seq<u8>, AccountModel>,
    address: Seq<u8>,
    challenge_sequence_number: u64,
    from_scheme: u8,
    current_public_key: Seq<u8>,
    to_scheme: u8,
    new_public_key: Seq<u8>,
    sig_current: Seq<u8>,
    sig_new: Seq<u8>,
)
    requires
        scheme_known(from_scheme),
        scheme_pk_wf(from_scheme, current_public_key),
        store.contains_key(address),
        derived_auth_key(from_scheme, current_public_key) == store[address].auth_key,
        challenge_sequence_number == store[address].sequence_number,
        scheme_sig_wf(from_scheme, sig_current),
        scheme_known(to_scheme),
        scheme_pk_wf(to_scheme, new_public_key),
        scheme_sig_wf(to_scheme, sig_new),
        !(signature_valid(
            from_scheme,
            current_public_key,
            rotation_challenge_msg(
                challenge_sequence_number,
                address,
                store[address].auth_key,
                new_public_key,
            ),
            sig_current,
        ) && signature_valid(
            to_scheme,
            new_public_key,
            rotation_challenge_msg(
                challenge_sequence_number,
                address,
                store[address].auth_key,
                new_public_key,
            ),
            sig_new,
        )),
    ensures
        !rotation_checks_pass(
            store,
            address,
            challenge_sequence_number,
            from_scheme,
            current_public_key,
            to_scheme,
            new_public_key,
            sig_current,
            sig_new,
        ),
        rotation_error(
            store,
            address,
            challenge_sequence_number,
            from_scheme,
            current_public_key,
            to_scheme,
            new_public_key,
            sig_current,
            sig_new,
        ) == Error::SignatureInvalid,
{
}

/// Replay resistance: once a rotation has been applied and the surrounding
/// transaction layer has advanced the account's sequence number, the very
/// same rotation request — every parameter unchanged — no longer passes
/// validation, because the challenge it was signed over names a sequence
/// number the store has moved past.
pub proof fn lemma_replay_fails(
    store: Map<Seq<u8>, AccountModel>,
    address: Seq<u8>,
    challenge_sequence_number: u64,
    from_scheme: u8,
    current_public_key: Seq<u8>,
    to_scheme: u8,
    new_public_key: Seq<u8>,
    sig_current: Seq<u8>,
    sig_new: Seq<u8>,
)
    requires
        rotation_checks_pass(
            store,
            address,
            challenge_sequence_number,
            from_scheme,
            current_public_key,
            to_scheme,
            new_public_key,
            sig_current,
            sig_new,
        ),
        challenge_sequence_number < u64::MAX,
    ensures
        !rotation_checks_pass(
            store.insert(
                address,
                rotated_account(store[address], derived_auth_key(to_scheme, new_public_key)),
            ).insert(
                address,
                (AccountModel {
                    auth_key: derived_auth_key(to_scheme, new_public_key),
                    sequence_number: (challenge_sequence_number + 1) as u64,
                    events: rotated_account(
                        store[address],
                        derived_auth_key(to_scheme, new_public_key),
                    ).events,
                }),
            ),
            address,
            challenge_sequence_number,
            from_scheme,
            current_public_key,
            to_scheme,
            new_public_key,
            sig_current,
            sig_new,
        ),
{
}

/// Chained rotations all resolve to the same root owner: after rotating an
/// account's key to one whose derived address is `k2`, advancing the
/// sequence number, and rotating again to one whose derived address is `k3`,
/// both `k2` and `k3` resolve to the account's address — the first entry is
/// retained, not deleted — and the event log counts both rotations.
pub proof fn lemma_chained_rotations(
    store0: Map<Seq<u8>, AccountModel>,
    index0: Map<Seq<u8>, Seq<u8>>,
    address: Seq<u8>,
    k2: Seq<u8>,
    k3: Seq<u8>,
    bumped_sequence_number: u64,
)
    requires
        store0.contains_key(address),
        !index0.contains_key(address),
    ensures
        ({
            let store1 = store0.insert(address, rotated_account(store0[address], k2));
            let index1 = index0.insert(k2, resolved_owner(index0, address));
            let store1b = store1.insert(
                address,
                (AccountModel {
                    auth_key: store1[address].auth_key,
                    sequence_number: bumped_sequence_number,
                    events: store1[address].events,
                }),
            );
            let store2 = store1b.insert(address, rotated_account(store1b[address], k3));
            let index2 = index1.insert(k3, resolved_owner(index1, address));
            &&& resolved_owner(index2, k2) == address
            &&& resolved_owner(index2, k3) == address
            &&& store2[address].events.len() == store0[address].events.len() + 2
        }),
{
    let index1 = index0.insert(k2, resolved_owner(index0, address));
    assert(resolved_owner(index0, address) == address);
    assert(resolved_owner(index1, address) == address);
}

} // verus!
