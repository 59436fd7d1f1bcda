//! An in-memory test double for the snapshot and resolver contract.
//!
//! Two independent tables back the two addressing schemes; populating one
//! never affects reads through the other.  Tests mutate the store
//! directly, then hand it wherever a snapshot is needed.

use vstd::prelude::*;

use crate::access_path::{AccessPath, AccessPathData};
use crate::account_address::AccountAddress;
use crate::bytes::{copy_bytes, opt_bytes_view};
use crate::data_cache::RemoteStorage;
use crate::errors::{ReadError, ResolverError};
use crate::kv::KvStore;
use crate::language_storage::{
    create_access_path, module_access_path, module_key, resource_key, ModuleId, StructTag,
};
use crate::state_key::StateKey;
use crate::state_view::{state_lookup, StateView, StateViewId};
use crate::write_set::{entries_view, unique_keys, WriteOp, WriteSet, WriteSetError};

verus! {

/// The byte-sequence views of a table's values.
pub open spec fn byte_views<K>(m: Map<K, Vec<u8>>) -> Map<K, Seq<u8>> {
    Map::new(|k: K| m.dom().contains(k), |k: K| m[k]@)
}

/// The legacy-keyed state after a write-set is applied in place: a value
/// op stores its bytes, a deletion removes the key.
pub open spec fn apply_write_set_to_state(
    m: Map<AccessPathData, Seq<u8>>,
    s: Seq<(AccessPathData, Option<Seq<u8>>)>,
) -> Map<AccessPathData, Seq<u8>>
    decreases s.len(),
{
    if s.len() == 0 {
        m
    } else {
        let applied = apply_write_set_to_state(m, s.drop_last());
        match s.last().1 {
            Some(b) => applied.insert(s.last().0, b),
            None => applied.remove(s.last().0),
        }
    }
}

/// The legacy-keyed state a list of seed entries loads to, first to last.
pub open spec fn loaded_state(s: Seq<(AccessPathData, Seq<u8>)>) -> Map<AccessPathData, Seq<u8>>
    decreases s.len(),
{
    if s.len() == 0 {
        Map::<AccessPathData, Seq<u8>>::empty()
    } else {
        loaded_state(s.drop_last()).insert(s.last().0, s.last().1)
    }
}

/// The view of a list of seed entries.
pub open spec fn seed_view(s: Seq<(AccessPath, Vec<u8>)>) -> Seq<(AccessPathData, Seq<u8>)> {
    s.map(|i: int, e: (AccessPath, Vec<u8>)| (e.0@, e.1@))
}

/// An account fixture: the resources to seed under one address.
#[derive(Debug)]
pub struct AccountData {
    /// The account's address.
    pub address: AccountAddress,
    /// Each resource's tag and its serialized bytes.
    pub resources: Vec<(StructTag, Vec<u8>)>,
}

/// The write-set entries an account fixture stands for: each resource's
/// bytes published at its derived key.
pub open spec fn account_entries(a: AccountData) -> Seq<(AccessPathData, Option<Seq<u8>>)> {
    a.resources@.map(
        |i: int, e: (StructTag, Vec<u8>)| (resource_key(a.address, e.0), Some(e.1@)),
    )
}

impl AccountData {
    /// The write-set that publishes the fixture's resources, rejected only
    /// when two resources derive the same key.
    pub fn to_writeset(&self) -> (r: Result<WriteSet, WriteSetError>)
        ensures
            r is Ok <==> unique_keys(account_entries(*self)),
            r matches Ok(ws) ==> ws@ == account_entries(*self),
            r is Err ==> r == Result::<WriteSet, WriteSetError>::Err(WriteSetError::DuplicateKey),
    {
        let n: usize = self.resources.len();
        let mut entries: Vec<(AccessPath, WriteOp)> = Vec::new();
        let mut i: usize = 0;
        while i < n
            invariant
                0 <= i <= n,
                n == self.resources@.len(),
                entries_view(entries@) == account_entries(*self).take(i as int),
            decreases n - i,
        {
            let ghost before = entries@;
            let (tag, blob) = &self.resources[i];
            let ap = create_access_path(self.address, tag);
            entries.push((ap, WriteOp::Value(copy_bytes(blob))));
            proof {
                assert(entries@ =~= before.push(entries@.last()));
                assert(entries_view(entries@) =~= entries_view(before).push(
                    (resource_key(self.address, self.resources@[i as int].0),
                    Some(self.resources@[i as int].1@)),
                ));
                assert(account_entries(*self).take(i + 1) =~= account_entries(*self).take(
                    i as int,
                ).push(account_entries(*self)[i as int]));
            }
            i += 1;
        }
        proof {
            assert(account_entries(*self).take(n as int) =~= account_entries(*self));
        }
        WriteSet::from_entries(entries)
    }
}

/// An in-memory implementation of the snapshot and resolver contract, for
/// test setup.  Reads never fail.
#[derive(Debug)]
pub struct FakeDataStore {
    account_data: KvStore<AccessPath, Vec<u8>>,
    state_data: KvStore<StateKey, Vec<u8>>,
}

impl FakeDataStore {
    /// Creates a store seeded with the given legacy-keyed data, loaded
    /// first to last; the new-scheme table starts empty.
    pub fn new(data: Vec<(AccessPath, Vec<u8>)>) -> (r: Self)
        ensures
            r.legacy_state() == loaded_state(seed_view(data@)),
            r.new_state() == Map::<Seq<u8>, Seq<u8>>::empty(),
    {
        let mut store = FakeDataStore { account_data: KvStore::new(), state_data: KvStore::new() };
        proof {
            assert(store.legacy_state() =~= loaded_state(seed_view(data@).take(0)));
            assert(store.new_state() =~= Map::<Seq<u8>, Seq<u8>>::empty());
        }
        let n: usize = data.len();
        let ghost all: Seq<(AccessPath, Vec<u8>)> = data@;
        let mut rest = data;
        let mut i: usize = 0;
        while i < n
            invariant
                0 <= i <= n,
                n == all.len(),
                rest@ == all.skip(i as int),
                store.legacy_state() == loaded_state(seed_view(all).take(i as int)),
                store.new_state() == Map::<Seq<u8>, Seq<u8>>::empty(),
            decreases n - i,
        {
            let ghost before = store.account_data@;
            assert(rest@.len() > 0);
            let (key, blob) = rest.remove(0);
            proof {
                assert(rest@ =~= all.skip(i + 1));
                assert(key == all[i as int].0 && blob == all[i as int].1);
            }
            let ghost kv = key@;
            let ghost bv = blob@;
            store.account_data.insert(key, blob);
            proof {
                assert(byte_views(before.insert(kv, all[i as int].1)) =~= byte_views(
                    before,
                ).insert(kv, bv));
                assert(seed_view(all).take(i + 1).drop_last() =~= seed_view(all).take(i as int));
            }
            i += 1;
        }
        proof {
            assert(seed_view(all).take(n as int) =~= seed_view(all));
        }
        store
    }

    /// Adds a write-set to the store in place: values are stored, deleted
    /// keys are removed.  Only the legacy-keyed table is touched.
    pub fn add_write_set(&mut self, write_set: &WriteSet)
        ensures
            final(self).legacy_state() == apply_write_set_to_state(
                old(self).legacy_state(),
                write_set@,
            ),
            final(self).new_state() == old(self).new_state(),
    {
        let n: usize = write_set.len();
        let ghost orig = self.legacy_state();
        let mut i: usize = 0;
        while i < n
            invariant
                0 <= i <= n,
                n == write_set@.len(),
                self.legacy_state() == apply_write_set_to_state(
                    orig,
                    write_set@.take(i as int),
                ),
                self.new_state() == old(self).new_state(),
            decreases n - i,
        {
            let ghost before = self.account_data@;
            let key = write_set.key_at(i).duplicate();
            let staged = write_set.staged_at(i);
            let ghost kv = key@;
            match staged {
                Some(blob) => {
                    let ghost bv = blob@;
                    self.account_data.insert(key, blob);
                    proof {
                        assert(byte_views(self.account_data@) =~= byte_views(before).insert(
                            kv,
                            bv,
                        ));
                    }
                },
                None => {
                    self.account_data.remove(&key);
                    proof {
                        assert(byte_views(self.account_data@) =~= byte_views(before).remove(kv));
                    }
                },
            }
            proof {
                assert(write_set@.take(i + 1).drop_last() =~= write_set@.take(i as int));
            }
            i += 1;
        }
        proof {
            assert(write_set@.take(n as int) =~= write_set@);
        }
    }

    /// Sets a key-value pair in the legacy-keyed table, handing back the
    /// bytes the key held before, if any.
    pub fn set(&mut self, access_path: AccessPath, data_blob: Vec<u8>) -> (r: Option<Vec<u8>>)
        ensures
            final(self).legacy_state() == old(self).legacy_state().insert(
                access_path@,
                data_blob@,
            ),
            final(self).new_state() == old(self).new_state(),
            opt_bytes_view(r) == state_lookup(old(self).legacy_state(), access_path@),
    {
        let ghost before = self.account_data@;
        let r = self.account_data.insert(access_path, data_blob);
        proof {
            assert(byte_views(self.account_data@) =~= byte_views(before).insert(
                access_path@,
                data_blob@,
            ));
        }
        r
    }

    /// Deletes a key from the legacy-keyed table, handing back the bytes
    /// it held, if any.
    pub fn remove(&mut self, access_path: &AccessPath) -> (r: Option<Vec<u8>>)
        ensures
            final(self).legacy_state() == old(self).legacy_state().remove(access_path@),
            final(self).new_state() == old(self).new_state(),
            opt_bytes_view(r) == state_lookup(old(self).legacy_state(), access_path@),
    {
        let ghost before = self.account_data@;
        let r = self.account_data.remove(access_path);
        proof {
            assert(byte_views(self.account_data@) =~= byte_views(before).remove(access_path@));
        }
        r
    }

    /// Sets a key-value pair in the new-scheme table.  The legacy-keyed
    /// table is untouched: the two tables are never implicitly kept in
    /// sync.
    pub fn set_state_value(&mut self, state_key: StateKey, data_blob: Vec<u8>) -> (r: Option<
        Vec<u8>,
    >)
        ensures
            final(self).new_state() == old(self).new_state().insert(state_key@, data_blob@),
            final(self).legacy_state() == old(self).legacy_state(),
            opt_bytes_view(r) == state_lookup(old(self).new_state(), state_key@),
    {
        let ghost before = self.state_data@;
        let r = self.state_data.insert(state_key, data_blob);
        proof {
            assert(byte_views(self.state_data@) =~= byte_views(before).insert(
                state_key@,
                data_blob@,
            ));
        }
        r
    }

    /// Adds an account fixture: publishes each of its resources at its
    /// derived key.  Rejected, leaving the store unchanged, exactly when
    /// two resources derive the same key.
    pub fn add_account_data(&mut self, account_data: &AccountData) -> (r: Result<
        (),
        WriteSetError,
    >)
        ensures
            r is Ok <==> unique_keys(account_entries(*account_data)),
            r is Ok ==> final(self).legacy_state() == apply_write_set_to_state(
                old(self).legacy_state(),
                account_entries(*account_data),
            ),
            r is Err ==> *final(self) == *old(self),
            final(self).new_state() == old(self).new_state(),
    {
        match account_data.to_writeset() {
            Ok(write_set) => {
                self.add_write_set(&write_set);
                Ok(())
            },
            Err(e) => Err(e),
        }
    }

    /// Publishes a compiled module's bytes at the module's derived key.
    /// The blob is not validated or interpreted.
    pub fn add_module(&mut self, module_id: &ModuleId, blob: Vec<u8>)
        ensures
            final(self).legacy_state() == old(self).legacy_state().insert(
                module_key(*module_id),
                blob@,
            ),
            final(self).new_state() == old(self).new_state(),
    {
        let access_path = module_access_path(module_id);
        self.set(access_path, blob);
    }

    /// The internal legacy-keyed table of the global state.
    pub fn inner(&self) -> (r: &KvStore<AccessPath, Vec<u8>>)
        ensures
            byte_views(r@) == self.legacy_state(),
    {
        &self.account_data
    }

    /// Fetches a config value: best-effort, so absence and failure are
    /// both `None` — and reads here never fail.
    pub fn fetch_config(&self, access_path: AccessPath) -> (r: Option<Vec<u8>>)
        ensures
            opt_bytes_view(r) == state_lookup(self.legacy_state(), access_path@),
    {
        match self.get_by_access_path(&access_path) {
            Ok(v) => v,
            Err(_) => None,
        }
    }

    /// Looks a module's bytes up at its derived key.
    pub fn get_module(&self, module_id: &ModuleId) -> (r: Result<Option<Vec<u8>>, ResolverError>)
        ensures
            r matches Ok(v) && opt_bytes_view(v) == state_lookup(
                self.legacy_state(),
                module_key(*module_id),
            ),
    {
        RemoteStorage::new(self).get_module(module_id)
    }

    /// Looks a resource's bytes up at its derived key.
    pub fn get_resource(&self, address: &AccountAddress, tag: &StructTag) -> (r: Result<
        Option<Vec<u8>>,
        ResolverError,
    >)
        ensures
            r matches Ok(v) && opt_bytes_view(v) == state_lookup(
                self.legacy_state(),
                resource_key(*address, *tag),
            ),
    {
        RemoteStorage::new(self).get_resource(address, tag)
    }
}

impl Default for FakeDataStore {
    /// An empty store: both tables empty, so the view is pre-genesis.
    fn default() -> (r: Self)
        ensures
            r.legacy_state() == Map::<AccessPathData, Seq<u8>>::empty(),
            r.new_state() == Map::<Seq<u8>, Seq<u8>>::empty(),
    {
        let r = FakeDataStore { account_data: KvStore::new(), state_data: KvStore::new() };
        proof {
            assert(r.legacy_state() =~= Map::<AccessPathData, Seq<u8>>::empty());
            assert(r.new_state() =~= Map::<Seq<u8>, Seq<u8>>::empty());
        }
        r
    }
}

impl StateView for FakeDataStore {
    closed spec fn legacy_state(&self) -> Map<AccessPathData, Seq<u8>> {
        byte_views(self.account_data@)
    }

    closed spec fn new_state(&self) -> Map<Seq<u8>, Seq<u8>> {
        byte_views(self.state_data@)
    }

    open spec fn id_spec(&self) -> StateViewId {
        StateViewId::Miscellaneous
    }

    open spec fn genesis_spec(&self) -> bool {
        self.legacy_state().dom() == Set::<AccessPathData>::empty()
    }

    open spec fn reads_total(&self) -> bool {
        true
    }

    fn id(&self) -> (r: StateViewId) {
        StateViewId::Miscellaneous
    }

    fn get_by_access_path(&self, access_path: &AccessPath) -> (r: Result<
        Option<Vec<u8>>,
        ReadError,
    >) {
        match self.account_data.get(access_path) {
            Some(blob) => Ok(Some(copy_bytes(blob))),
            None => Ok(None),
        }
    }

    fn get_state_value(&self, state_key: &StateKey) -> (r: Result<Option<Vec<u8>>, ReadError>) {
        match self.state_data.get(state_key) {
            Some(blob) => Ok(Some(copy_bytes(blob))),
            None => Ok(None),
        }
    }

    fn is_genesis(&self) -> (r: bool) {
        let empty = self.account_data.is_empty();
        proof {
            if self.account_data@.dom() == Set::<AccessPathData>::empty() {
                assert(self.legacy_state().dom() =~= Set::<AccessPathData>::empty());
            } else {
                assert(exists|k: AccessPathData| self.account_data@.dom().contains(k)) by {
                    if forall|k: AccessPathData| !self.account_data@.dom().contains(k) {
                        assert(self.account_data@.dom() =~= Set::<AccessPathData>::empty());
                    }
                }
                let k = choose|k: AccessPathData| self.account_data@.dom().contains(k);
                assert(self.legacy_state().dom().contains(k));
            }
        }
        empty
    }
}

} // verus!
