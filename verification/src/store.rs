use vstd::prelude::*;
use crate::bytes::{bytes_eq, sub_vec};
use crate::errors::Error;

verus! {

/// One audit entry: a successful swap of the authentication key.
pub struct RotationEvent {
    /// The authentication key that was replaced.
    pub old_key: Vec<u8>,
    /// The authentication key that replaced it.
    pub new_key: Vec<u8>,
}

/// Spec-level image of a rotation event.
pub struct EventModel {
    pub old_key: Seq<u8>,
    pub new_key: Seq<u8>,
}

/// Per-account mutable state: the current authentication key, the sequence
/// number, and the ordered log of rotation events.
pub struct AccountRecord {
    /// The account's address; never changes.
    pub address: Vec<u8>,
    /// The authentication key that currently authenticates the account.
    pub auth_key: Vec<u8>,
    /// Monotone counter bound into every challenge (replay prevention).
    pub sequence_number: u64,
    /// One entry per successful rotation, oldest first.
    pub rotation_events: Vec<RotationEvent>,
}

/// Spec-level image of an account record.
pub struct AccountModel {
    pub auth_key: Seq<u8>,
    pub sequence_number: u64,
    pub events: Seq<EventModel>,
}

/// The model of an account after one successful rotation to `new_auth`: the
/// key is swapped, one event is appended, the sequence number is untouched.
pub open spec fn rotated_account(m: AccountModel, new_auth: Seq<u8>) -> AccountModel {
    AccountModel {
        auth_key: new_auth,
        sequence_number: m.sequence_number,
        events: m.events.push(EventModel { old_key: m.auth_key, new_key: new_auth }),
    }
}

/// The model an account record denotes.
pub open spec fn model_of(r: AccountRecord) -> AccountModel {
    AccountModel {
        auth_key: r.auth_key@,
        sequence_number: r.sequence_number,
        events: r.rotation_events@.map_values(
            |e: RotationEvent| EventModel { old_key: e.old_key@, new_key: e.new_key@ },
        ),
    }
}

/// The address-to-model map a record sequence denotes.
pub open spec fn store_map(accs: Seq<AccountRecord>) -> Map<Seq<u8>, AccountModel>
    decreases accs.len(),
{
    if accs.len() == 0 {
        Map::empty()
    } else {
        store_map(accs.drop_last()).insert(accs.last().address@, model_of(accs.last()))
    }
}

/// Addresses are pairwise distinct.
pub open spec fn addrs_unique(accs: Seq<AccountRecord>) -> bool {
    forall|i: int, j: int|
        0 <= i < j < accs.len() ==> accs[i].address@ != accs[j].address@
}

/// The store of every account's key-rotation record, keyed by address.
pub struct AccountKeyStore {
    accounts: Vec<AccountRecord>,
}

proof fn lemma_store_map_index(accs: Seq<AccountRecord>, i: int)
    requires
        addrs_unique(accs),
        0 <= i < accs.len(),
    ensures
        store_map(accs).contains_key(accs[i].address@),
        store_map(accs)[accs[i].address@] == model_of(accs[i]),
    decreases accs.len(),
{
    if i < accs.len() - 1 {
        assert(addrs_unique(accs.drop_last()));
        assert(accs.drop_last()[i] == accs[i]);
        lemma_store_map_index(accs.drop_last(), i);
        assert(accs[i].address@ != accs.last().address@);
    }
}

proof fn lemma_store_map_absent(accs: Seq<AccountRecord>, addr: Seq<u8>)
    requires
        forall|i: int| 0 <= i < accs.len() ==> accs[i].address@ != addr,
    ensures
        !store_map(accs).contains_key(addr),
    decreases accs.len(),
{
    if accs.len() > 0 {
        lemma_store_map_absent(accs.drop_last(), addr);
    }
}

proof fn lemma_store_map_update(accs: Seq<AccountRecord>, i: int, r: AccountRecord)
    requires
        addrs_unique(accs),
        0 <= i < accs.len(),
        r.address@ == accs[i].address@,
    ensures
        store_map(accs.update(i, r)) == store_map(accs).insert(r.address@, model_of(r)),
    decreases accs.len(),
{
    let upd = accs.update(i, r);
    if i == accs.len() - 1 {
        assert(upd.drop_last() =~= accs.drop_last());
        assert(upd.last() == r);
        assert(store_map(upd) == store_map(accs.drop_last()).insert(r.address@, model_of(r)));
        assert(store_map(accs.drop_last()).insert(r.address@, model_of(r)) =~= store_map(
            accs,
        ).insert(r.address@, model_of(r)));
    } else {
        assert(upd.drop_last() =~= accs.drop_last().update(i, r));
        assert(upd.last() == accs.last());
        assert(addrs_unique(accs.drop_last()));
        assert(accs.drop_last()[i] == accs[i]);
        lemma_store_map_update(accs.drop_last(), i, r);
        assert(accs[i].address@ != accs.last().address@);
        assert(store_map(accs.drop_last()).insert(r.address@, model_of(r)).insert(
            accs.last().address@,
            model_of(accs.last()),
        ) =~= store_map(accs.drop_last()).insert(
            accs.last().address@,
            model_of(accs.last()),
        ).insert(r.address@, model_of(r)));
    }
}

proof fn lemma_store_map_domain(accs: Seq<AccountRecord>, addr: Seq<u8>)
    requires
        store_map(accs).contains_key(addr),
    ensures
        exists|i: int| 0 <= i < accs.len() && accs[i].address@ == addr,
    decreases accs.len(),
{
    if accs.len() > 0 {
        if accs.last().address@ == addr {
            assert(accs[accs.len() - 1].address@ == addr);
        } else {
            lemma_store_map_domain(accs.drop_last(), addr);
            let i = choose|i: int|
                0 <= i < accs.drop_last().len() && accs.drop_last()[i].address@ == addr;
            assert(accs[i].address@ == addr);
        }
    }
}

impl AccountKeyStore {
    /// Every address a well-formed store knows has the fixed 32-byte width.
    pub proof fn lemma_contained_address_width(self, addr: Seq<u8>)
        requires
            self.wf(),
            self@.contains_key(addr),
        ensures
            addr.len() == 32,
            self@[addr].auth_key.len() == 32,
    {
        lemma_store_map_domain(self.accounts@, addr);
        let i = choose|i: int| 0 <= i < self.accounts@.len() && self.accounts@[i].address@ == addr;
        lemma_store_map_index(self.accounts@, i);
    }

    /// Addresses are unique and every address and key has the fixed width.
    pub closed spec fn wf(self) -> bool {
        &&& addrs_unique(self.accounts@)
        &&& forall|i: int|
            0 <= i < self.accounts@.len() ==> (#[trigger] self.accounts@[i]).address@.len() == 32
                && self.accounts@[i].auth_key@.len() == 32
    }

    /// An empty store.
    pub fn new() -> (r: Self)
        ensures
            r.wf(),
            r@ == Map::<Seq<u8>, AccountModel>::empty(),
    {
        AccountKeyStore { accounts: Vec::new() }
    }

    /// Index of the record owning `address`, if any.
    fn find(&self, address: &Vec<u8>) -> (r: Option<usize>)
        ensures
            match r {
                Some(i) => i < self.accounts@.len() && self.accounts@[i as int].address@
                    == address@,
                None => forall|i: int|
                    0 <= i < self.accounts@.len() ==> self.accounts@[i].address@ != address@,
            },
    {
        let mut i: usize = 0;
        while i < self.accounts.len()
            invariant
                i <= self.accounts@.len(),
                forall|j: int| 0 <= j < i ==> self.accounts@[j].address@ != address@,
            decreases self.accounts@.len() - i,
        {
            if bytes_eq(&self.accounts[i].address, address) {
                return Some(i);
            }
            i += 1;
        }
        None
    }

    /// Whether `address` has an account record.
    pub fn contains(&self, address: &Vec<u8>) -> (r: bool)
        requires
            self.wf(),
        ensures
            r == self@.contains_key(address@),
    {
        match self.find(address) {
            Some(i) => {
                proof {
                    lemma_store_map_index(self.accounts@, i as int);
                }
                true
            },
            None => {
                proof {
                    lemma_store_map_absent(self.accounts@, address@);
                }
                false
            },
        }
    }

    /// Creates a fresh account record with an empty event log. Returns false
    /// and changes nothing when the address is already taken or either byte
    /// string does not have the fixed 32-byte width.
    pub fn create_account(&mut self, address: Vec<u8>, auth_key: Vec<u8>, sequence_number: u64)
        -> (r: bool)
        requires
            old(self).wf(),
        ensures
            final(self).wf(),
            r == (address@.len() == 32 && auth_key@.len() == 32 && !old(self)@.contains_key(
                address@,
            )),
            r ==> final(self)@ == old(self)@.insert(
                address@,
                (AccountModel { auth_key: auth_key@, sequence_number, events: Seq::empty() }),
            ),
            !r ==> *final(self) == *old(self),
    {
        if address.len() != 32 || auth_key.len() != 32 {
            return false;
        }
        match self.find(&address) {
            Some(i) => {
                proof {
                    lemma_store_map_index(self.accounts@, i as int);
                }
                false
            },
            None => {
                proof {
                    lemma_store_map_absent(self.accounts@, address@);
                }
                let ghost pre = self.accounts@;
                let rec = AccountRecord {
                    address,
                    auth_key,
                    sequence_number,
                    rotation_events: Vec::new(),
                };
                self.accounts.push(rec);
                proof {
                    assert(self.accounts@.drop_last() =~= pre);
                    assert(model_of(rec).events =~= Seq::<EventModel>::empty());
                }
                true
            },
        }
    }

    /// The authentication key that currently authenticates `address`.
    pub fn current_key(&self, address: &Vec<u8>) -> (r: Result<Vec<u8>, Error>)
        requires
            self.wf(),
        ensures
            self@.contains_key(address@) ==> (r matches Ok(k) && k@ == self@[address@].auth_key),
            !self@.contains_key(address@) ==> r == Err::<Vec<u8>, Error>(Error::AccountNotFound),
    {
        match self.find(address) {
            Some(i) => {
                proof {
                    lemma_store_map_index(self.accounts@, i as int);
                }
                let key = sub_vec(&self.accounts[i].auth_key, 0, self.accounts[i].auth_key.len());
                assert(key@ =~= self.accounts@[i as int].auth_key@);
                Ok(key)
            },
            None => {
                proof {
                    lemma_store_map_absent(self.accounts@, address@);
                }
                Err(Error::AccountNotFound)
            },
        }
    }

    /// The sequence number of `address`.
    pub fn sequence_number(&self, address: &Vec<u8>) -> (r: Result<u64, Error>)
        requires
            self.wf(),
        ensures
            self@.contains_key(address@) ==> r == Ok::<u64, Error>(
                self@[address@].sequence_number,
            ),
            !self@.contains_key(address@) ==> r == Err::<u64, Error>(Error::AccountNotFound),
    {
        match self.find(address) {
            Some(i) => {
                proof {
                    lemma_store_map_index(self.accounts@, i as int);
                }
                Ok(self.accounts[i].sequence_number)
            },
            None => {
                proof {
                    lemma_store_map_absent(self.accounts@, address@);
                }
                Err(Error::AccountNotFound)
            },
        }
    }

    /// How many successful rotations `address` has gone through.
    pub fn rotation_event_count(&self, address: &Vec<u8>) -> (r: Result<usize, Error>)
        requires
            self.wf(),
        ensures
            self@.contains_key(address@) ==> r == Ok::<usize, Error>(
                self@[address@].events.len() as usize,
            ),
            !self@.contains_key(address@) ==> r == Err::<usize, Error>(Error::AccountNotFound),
    {
        match self.find(address) {
            Some(i) => {
                proof {
                    lemma_store_map_index(self.accounts@, i as int);
                }
                Ok(self.accounts[i].rotation_events.len())
            },
            None => {
                proof {
                    lemma_store_map_absent(self.accounts@, address@);
                }
                Err(Error::AccountNotFound)
            },
        }
    }

    /// Advances the sequence number by one; owned by the surrounding
    /// transaction layer, never by the rotation itself.
    pub fn increment_sequence_number(&mut self, address: &Vec<u8>) -> (r: Result<(), Error>)
        requires
            old(self).wf(),
            old(self)@.contains_key(address@) ==> old(self)@[address@].sequence_number < u64::MAX,
        ensures
            final(self).wf(),
            old(self)@.contains_key(address@) ==> (r == Ok::<(), Error>(()) && final(self)@ == old(
                self,
            )@.insert(
                address@,
                (AccountModel {
                    auth_key: old(self)@[address@].auth_key,
                    sequence_number: (old(self)@[address@].sequence_number + 1) as u64,
                    events: old(self)@[address@].events,
                }),
            )),
            !old(self)@.contains_key(address@) ==> (r == Err::<(), Error>(Error::AccountNotFound)
                && *final(self) == *old(self)),
    {
        match self.find(address) {
            Some(i) => {
                proof {
                    lemma_store_map_index(self.accounts@, i as int);
                }
                let ghost pre = self.accounts@;
                let mut rec = self.accounts.remove(i);
                rec.sequence_number = rec.sequence_number + 1;
                self.accounts.insert(i, rec);
                proof {
                    assert(self.accounts@ =~= pre.update(i as int, rec));
                    lemma_store_map_update(pre, i as int, rec);
                }
                Ok(())
            },
            None => {
                proof {
                    lemma_store_map_absent(self.accounts@, address@);
                }
                Err(Error::AccountNotFound)
            },
        }
    }

    /// Swaps the stored authentication key and appends one rotation event.
    /// Advances nothing else: sequence-number advancement is owned by the
    /// surrounding transaction layer.
    pub fn apply_rotation(&mut self, address: &Vec<u8>, new_key: Vec<u8>) -> (r: Result<(), Error>)
        requires
            old(self).wf(),
            new_key@.len() == 32,
        ensures
            final(self).wf(),
            old(self)@.contains_key(address@) ==> (r == Ok::<(), Error>(()) && final(self)@ == old(
                self,
            )@.insert(address@, rotated_account(old(self)@[address@], new_key@))),
            !old(self)@.contains_key(address@) ==> (r == Err::<(), Error>(Error::AccountNotFound)
                && *final(self) == *old(self)),
    {
        match self.find(address) {
            Some(i) => {
                proof {
                    lemma_store_map_index(self.accounts@, i as int);
                }
                let ghost pre = self.accounts@;
                let mut rec = self.accounts.remove(i);
                let evt_new = sub_vec(&new_key, 0, new_key.len());
                assert(evt_new@ =~= new_key@);
                let old_key = rec.auth_key;
                rec.auth_key = new_key;
                rec.rotation_events.push(RotationEvent { old_key, new_key: evt_new });
                self.accounts.insert(i, rec);
                proof {
                    assert(self.accounts@ =~= pre.update(i as int, rec));
                    lemma_store_map_update(pre, i as int, rec);
                    assert(model_of(rec).events =~= model_of(pre[i as int]).events.push(
                        EventModel {
                            old_key: pre[i as int].auth_key@,
                            new_key: new_key@,
                        },
                    ));
                }
                Ok(())
            },
            None => {
                proof {
                    lemma_store_map_absent(self.accounts@, address@);
                }
                Err(Error::AccountNotFound)
            },
        }
    }
}

impl View for AccountKeyStore {
    type V = Map<Seq<u8>, AccountModel>;

    closed spec fn view(&self) -> Map<Seq<u8>, AccountModel> {
        store_map(self.accounts@)
    }
}

} // verus!
