use vstd::prelude::*;
use crate::bytes::{bytes_eq, sub_vec};

verus! {

/// One entry of the reverse index: an authentication-key-derived address and
/// the account address that currently owns it.
pub struct IndexEntry {
    /// An authentication key treated as an address.
    pub derived: Vec<u8>,
    /// The account address that owns it.
    pub owner: Vec<u8>,
}

/// The derived-address-to-owner map an entry sequence denotes.
pub open spec fn index_map(entries: Seq<IndexEntry>) -> Map<Seq<u8>, Seq<u8>>
    decreases entries.len(),
{
    if entries.len() == 0 {
        Map::empty()
    } else {
        index_map(entries.drop_last()).insert(entries.last().derived@, entries.last().owner@)
    }
}

/// Derived addresses are pairwise distinct.
pub open spec fn keys_unique(entries: Seq<IndexEntry>) -> bool {
    forall|i: int, j: int|
        0 <= i < j < entries.len() ==> entries[i].derived@ != entries[j].derived@
}

/// The owner an index resolves an address to: the entry when one exists, and
/// the address itself when none does — a miss means the key has never been
/// rotated away from its own address.
pub open spec fn resolved_owner(m: Map<Seq<u8>, Seq<u8>>, addr: Seq<u8>) -> Seq<u8> {
    if m.contains_key(addr) {
        m[addr]
    } else {
        addr
    }
}

/// The global append/overwrite map from an authentication-key-derived
/// address to the account address that owns it. Entries are never deleted,
/// only overwritten.
pub struct OriginatingAddressIndex {
    entries: Vec<IndexEntry>,
}

proof fn lemma_index_map_index(entries: Seq<IndexEntry>, i: int)
    requires
        keys_unique(entries),
        0 <= i < entries.len(),
    ensures
        index_map(entries).contains_key(entries[i].derived@),
        index_map(entries)[entries[i].derived@] == entries[i].owner@,
    decreases entries.len(),
{
    if i < entries.len() - 1 {
        assert(keys_unique(entries.drop_last()));
        assert(entries.drop_last()[i] == entries[i]);
        lemma_index_map_index(entries.drop_last(), i);
        assert(entries[i].derived@ != entries.last().derived@);
    }
}

proof fn lemma_index_map_absent(entries: Seq<IndexEntry>, key: Seq<u8>)
    requires
        forall|i: int| 0 <= i < entries.len() ==> entries[i].derived@ != key,
    ensures
        !index_map(entries).contains_key(key),
    decreases entries.len(),
{
    if entries.len() > 0 {
        lemma_index_map_absent(entries.drop_last(), key);
    }
}

proof fn lemma_index_map_update(entries: Seq<IndexEntry>, i: int, e: IndexEntry)
    requires
        keys_unique(entries),
        0 <= i < entries.len(),
        e.derived@ == entries[i].derived@,
    ensures
        index_map(entries.update(i, e)) == index_map(entries).insert(e.derived@, e.owner@),
    decreases entries.len(),
{
    let upd = entries.update(i, e);
    if i == entries.len() - 1 {
        assert(upd.drop_last() =~= entries.drop_last());
        assert(upd.last() == e);
        assert(index_map(entries.drop_last()).insert(e.derived@, e.owner@) =~= index_map(
            entries,
        ).insert(e.derived@, e.owner@));
    } else {
        assert(upd.drop_last() =~= entries.drop_last().update(i, e));
        assert(upd.last() == entries.last());
        assert(keys_unique(entries.drop_last()));
        assert(entries.drop_last()[i] == entries[i]);
        lemma_index_map_update(entries.drop_last(), i, e);
        assert(entries[i].derived@ != entries.last().derived@);
        assert(index_map(entries.drop_last()).insert(e.derived@, e.owner@).insert(
            entries.last().derived@,
            entries.last().owner@,
        ) =~= index_map(entries.drop_last()).insert(
            entries.last().derived@,
            entries.last().owner@,
        ).insert(e.derived@, e.owner@));
    }
}

impl OriginatingAddressIndex {
    /// Keys are unique and every key and owner has the fixed width.
    pub closed spec fn wf(self) -> bool {
        &&& keys_unique(self.entries@)
        &&& forall|i: int|
            0 <= i < self.entries@.len() ==> (#[trigger] self.entries@[i]).derived@.len() == 32
                && self.entries@[i].owner@.len() == 32
    }

    /// An empty index.
    pub fn new() -> (r: Self)
        ensures
            r.wf(),
            r@ == Map::<Seq<u8>, Seq<u8>>::empty(),
    {
        OriginatingAddressIndex { entries: Vec::new() }
    }

    /// Index of the entry for `key`, if any.
    fn find(&self, key: &Vec<u8>) -> (r: Option<usize>)
        ensures
            match r {
                Some(i) => i < self.entries@.len() && self.entries@[i as int].derived@ == key@,
                None => forall|i: int|
                    0 <= i < self.entries@.len() ==> self.entries@[i].derived@ != key@,
            },
    {
        let mut i: usize = 0;
        while i < self.entries.len()
            invariant
                i <= self.entries@.len(),
                forall|j: int| 0 <= j < i ==> self.entries@[j].derived@ != key@,
            decreases self.entries@.len() - i,
        {
            if bytes_eq(&self.entries[i].derived, key) {
                return Some(i);
            }
            i += 1;
        }
        None
    }

    /// The account address that owns `derived_address`, when the entry
    /// exists. A miss is not an error: the caller must read it as "this key
    /// has never been rotated away from its own address".
    pub fn lookup(&self, derived_address: &Vec<u8>) -> (r: Option<Vec<u8>>)
        requires
            self.wf(),
        ensures
            self@.contains_key(derived_address@) ==> (r matches Some(v) && v@
                == self@[derived_address@] && v@.len() == 32),
            !self@.contains_key(derived_address@) ==> r is None,
    {
        match self.find(derived_address) {
            Some(i) => {
                proof {
                    lemma_index_map_index(self.entries@, i as int);
                }
                let owner = sub_vec(&self.entries[i].owner, 0, self.entries[i].owner.len());
                assert(owner@ =~= self.entries@[i as int].owner@);
                Some(owner)
            },
            None => {
                proof {
                    lemma_index_map_absent(self.entries@, derived_address@);
                }
                None
            },
        }
    }

    /// The owner `derived_address` resolves to, with the miss convention of
    /// `lookup` applied: a never-rotated address owns itself.
    pub fn resolve_owner(&self, derived_address: &Vec<u8>) -> (r: Vec<u8>)
        requires
            self.wf(),
        ensures
            r@ == resolved_owner(self@, derived_address@),
            self@.contains_key(derived_address@) ==> r@.len() == 32,
    {
        match self.lookup(derived_address) {
            Some(owner) => owner,
            None => {
                let copy = sub_vec(derived_address, 0, derived_address.len());
                assert(copy@ =~= derived_address@);
                copy
            },
        }
    }

    /// Unconditional overwrite: after the call, `derived_address` maps to
    /// `owner` and every other entry is unchanged. Last writer wins.
    pub fn set(&mut self, derived_address: Vec<u8>, owner: Vec<u8>)
        requires
            old(self).wf(),
            derived_address@.len() == 32,
            owner@.len() == 32,
        ensures
            final(self).wf(),
            final(self)@ == old(self)@.insert(derived_address@, owner@),
    {
        match self.find(&derived_address) {
            Some(i) => {
                let ghost pre = self.entries@;
                let mut e = self.entries.remove(i);
                e.owner = owner;
                self.entries.insert(i, e);
                proof {
                    assert(self.entries@ =~= pre.update(i as int, e));
                    lemma_index_map_update(pre, i as int, e);
                }
            },
            None => {
                proof {
                    lemma_index_map_absent(self.entries@, derived_address@);
                }
                let ghost pre = self.entries@;
                self.entries.push(IndexEntry { derived: derived_address, owner });
                proof {
                    assert(self.entries@.drop_last() =~= pre);
                }
            },
        }
    }
}

impl View for OriginatingAddressIndex {
    type V = Map<Seq<u8>, Seq<u8>>;

    closed spec fn view(&self) -> Map<Seq<u8>, Seq<u8>> {
        index_map(self.entries@)
    }
}

} // verus!
