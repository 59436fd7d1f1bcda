//! The overlay cache: a scratchpad for on-chain values during execution.
//!
//! A [`StateViewCache`] wraps one snapshot for its whole life and layers a
//! growable map of pending writes on top of it.  Reads consult the pending
//! writes first and the snapshot second; write-sets published at the end of
//! a transaction become visible to every subsequent read in the same batch.
//! The snapshot itself is never mutated; the cache is discarded wholesale
//! at the end of its batch.

use vstd::prelude::*;

use crate::access_path::{AccessPath, AccessPathData};
use crate::account_address::AccountAddress;
use crate::bytes::{copy_opt_bytes, opt_bytes_view};
use crate::kv::KvStore;
use crate::observability::{bumped, FailedKey, FailedKeyData, Observability, ReadFailureData};
use crate::errors::{
    storage_resolver_error, Location, PartialResolverError, ReadError, ResolverError, StatusCode,
};
use crate::language_storage::{
    create_access_path, module_access_path, module_key, resource_key, ModuleId, StructTag,
};
use crate::state_key::StateKey;
use crate::state_view::{state_lookup, StateView, StateViewId};
use crate::write_set::{ws_contains, ws_final_op, WriteSet};

verus! {

/// The per-key staged views of a pending-write store: `Some` bytes for a
/// staged value, `None` for a staged tombstone.
pub open spec fn staged_views(m: Map<AccessPathData, Option<Vec<u8>>>) -> Map<
    AccessPathData,
    Option<Seq<u8>>,
> {
    Map::new(|k: AccessPathData| m.dom().contains(k), |k: AccessPathData| opt_bytes_view(m[k]))
}

/// The pending-write map after a write-set is applied in order: each entry
/// stages its op under its key, so the last op for a key wins.
pub open spec fn apply_write_set(
    m: Map<AccessPathData, Option<Seq<u8>>>,
    s: Seq<(AccessPathData, Option<Seq<u8>>)>,
) -> Map<AccessPathData, Option<Seq<u8>>>
    decreases s.len(),
{
    if s.len() == 0 {
        m
    } else {
        apply_write_set(m, s.drop_last()).insert(s.last().0, s.last().1)
    }
}

/// What a read through the overlay resolves to: the staged op if the key
/// is pending, the snapshot's own content otherwise.
pub open spec fn resolve(
    pending: Map<AccessPathData, Option<Seq<u8>>>,
    legacy: Map<AccessPathData, Seq<u8>>,
    k: AccessPathData,
) -> Option<Seq<u8>> {
    if pending.dom().contains(k) {
        pending[k]
    } else {
        state_lookup(legacy, k)
    }
}

/// A local overlay cache for a given snapshot.  It tracks all changes that
/// result from transaction execution, so that changes executed but not yet
/// committed are visible to subsequent transactions of the same batch.
pub struct StateViewCache<'a, S: StateView> {
    data_view: &'a S,
    data_map: KvStore<AccessPath, Option<Vec<u8>>>,
    observability: Observability,
    inject_read_failure: bool,
}

impl<'a, S: StateView> StateViewCache<'a, S> {
    /// The snapshot the cache is bound to.
    pub closed spec fn snapshot(&self) -> S {
        *self.data_view
    }

    /// The pending-write map: keys staged by absorbed write-sets, each to
    /// `Some` bytes (a staged value) or `None` (a staged tombstone).
    pub closed spec fn pending(&self) -> Map<AccessPathData, Option<Seq<u8>>> {
        staged_views(self.data_map@)
    }

    /// How many critical errors the cache has counted.
    pub closed spec fn critical_errors(&self) -> u64 {
        self.observability.critical_errors_spec()
    }

    /// The structured diagnostics recorded for failed reads, oldest first.
    pub closed spec fn diagnostics(&self) -> Seq<ReadFailureData> {
        self.observability.records_spec()
    }

    /// Whether the fault-injection hook is armed.
    pub closed spec fn fault_injection_enabled(&self) -> bool {
        self.inject_read_failure
    }

    /// Creates a cache bound to an existing snapshot.  Pending writes start
    /// empty, no error has been counted, and fault injection is off.
    pub fn new(data_view: &'a S) -> (r: Self)
        ensures
            r.snapshot() == *data_view,
            r.pending() == Map::<AccessPathData, Option<Seq<u8>>>::empty(),
            r.critical_errors() == 0,
            r.diagnostics() == Seq::<ReadFailureData>::empty(),
            !r.fault_injection_enabled(),
    {
        let r = StateViewCache {
            data_view,
            data_map: KvStore::new(),
            observability: Observability::new(),
            inject_read_failure: false,
        };
        proof {
            assert(r.pending() =~= Map::<AccessPathData, Option<Seq<u8>>>::empty());
        }
        r
    }

    /// Arms or disarms the fault-injection hook: when armed, the next
    /// snapshot consultation is replaced by a synthetic read failure that
    /// takes the identical propagation path as a genuine I/O fault.
    pub fn set_fault_injection(&mut self, enabled: bool)
        ensures
            final(self).snapshot() == old(self).snapshot(),
            final(self).pending() == old(self).pending(),
            final(self).critical_errors() == old(self).critical_errors(),
            final(self).diagnostics() == old(self).diagnostics(),
            final(self).fault_injection_enabled() == enabled,
    {
        self.inject_read_failure = enabled;
    }

    /// Publishes a write-set computed at the end of a transaction.  Each
    /// entry stages its op in the pending-write map, in order, so the
    /// effect is a layer in front of the snapshot that tracks the data as
    /// if the changes were applied immediately.  The snapshot itself is
    /// never touched.
    pub fn push_write_set(&mut self, write_set: &WriteSet)
        ensures
            final(self).snapshot() == old(self).snapshot(),
            final(self).pending() == apply_write_set(old(self).pending(), write_set@),
            final(self).critical_errors() == old(self).critical_errors(),
            final(self).diagnostics() == old(self).diagnostics(),
            final(self).fault_injection_enabled() == old(self).fault_injection_enabled(),
    {
        let ghost orig: Map<AccessPathData, Option<Seq<u8>>> = self.pending();
        let n: usize = write_set.len();
        let mut i: usize = 0;
        while i < n
            invariant
                0 <= i <= n,
                n == write_set@.len(),
                self.snapshot() == old(self).snapshot(),
                self.pending() == apply_write_set(orig, write_set@.take(i as int)),
                self.critical_errors() == old(self).critical_errors(),
                self.diagnostics() == old(self).diagnostics(),
                self.fault_injection_enabled() == old(self).fault_injection_enabled(),
            decreases n - i,
        {
            let ghost before: Map<AccessPathData, Option<Vec<u8>>> = self.data_map@;
            let key = write_set.key_at(i).duplicate();
            let staged = write_set.staged_at(i);
            let ghost key_v: AccessPathData = key@;
            let ghost staged_v: Option<Seq<u8>> = opt_bytes_view(staged);
            self.data_map.insert(key, staged);
            proof {
                assert(staged_views(before.insert(key_v, staged)) =~= staged_views(before).insert(
                    key_v,
                    staged_v,
                ));
                assert(write_set@.take(i + 1).drop_last() =~= write_set@.take(i as int));
                assert(write_set@.take(i + 1).last() == write_set@[i as int]);
                assert(key_v == write_set@[i as int].0);
                assert(staged_v == write_set@[i as int].1);
            }
            i += 1;
        }
        proof {
            assert(write_set@.take(n as int) =~= write_set@);
        }
    }

    /// Reads the bytes under a legacy-form key, through the cache: a key
    /// staged in the pending-write map is answered from the map alone (a
    /// staged tombstone strictly overrides the snapshot and reads as
    /// absent); any other key is delegated to the snapshot.  A failed
    /// snapshot read is counted, recorded with the snapshot's identity and
    /// the failed key, and propagated unchanged — no retry, no fallback.
    /// When the fault-injection hook is armed, a synthetic failure is
    /// substituted where the snapshot would have been consulted.
    pub fn get_by_access_path(&mut self, access_path: &AccessPath) -> (r: Result<
        Option<Vec<u8>>,
        ReadError,
    >)
        ensures
            final(self).snapshot() == old(self).snapshot(),
            final(self).pending() == old(self).pending(),
            final(self).fault_injection_enabled() == old(self).fault_injection_enabled(),
            old(self).pending().dom().contains(access_path@) ==> {
                &&& r matches Ok(v) && opt_bytes_view(v) == old(self).pending()[access_path@]
                &&& final(self).critical_errors() == old(self).critical_errors()
                &&& final(self).diagnostics() == old(self).diagnostics()
            },
            !old(self).pending().dom().contains(access_path@) ==> {
                &&& r matches Ok(v) ==> opt_bytes_view(v) == state_lookup(
                    old(self).snapshot().legacy_state(),
                    access_path@,
                )
                &&& old(self).fault_injection_enabled() ==> r is Err
                &&& !old(self).fault_injection_enabled() && old(self).snapshot().reads_total()
                    ==> r is Ok
                &&& r is Ok ==> final(self).critical_errors() == old(self).critical_errors()
                    && final(self).diagnostics() == old(self).diagnostics()
                &&& r is Err ==> final(self).critical_errors() == bumped(
                    old(self).critical_errors(),
                ) && final(self).diagnostics() == old(self).diagnostics().push(
                    ReadFailureData {
                        id: old(self).snapshot().id_spec(),
                        key: FailedKeyData::Legacy(access_path@),
                    },
                )
            },
    {
        match self.data_map.get(access_path) {
            Some(staged) => Ok(copy_opt_bytes(staged)),
            None => {
                let outcome: Result<Option<Vec<u8>>, ReadError> = if self.inject_read_failure {
                    Err(ReadError::new())
                } else {
                    self.data_view.get_by_access_path(access_path)
                };
                match outcome {
                    Ok(remote_data) => Ok(remote_data),
                    Err(e) => {
                        let id = self.data_view.id();
                        self.observability.record_read_failure(
                            id,
                            FailedKey::Legacy(access_path.duplicate()),
                        );
                        Err(e)
                    },
                }
            },
        }
    }

    /// Reads the bytes under a new-form key.  The pending-write map does
    /// not index by the new scheme, so the read always delegates directly
    /// to the snapshot; a failure is counted, recorded and propagated
    /// unchanged, exactly as for a legacy-form read.
    pub fn get_state_value(&mut self, state_key: &StateKey) -> (r: Result<
        Option<Vec<u8>>,
        ReadError,
    >)
        ensures
            final(self).snapshot() == old(self).snapshot(),
            final(self).pending() == old(self).pending(),
            final(self).fault_injection_enabled() == old(self).fault_injection_enabled(),
            r matches Ok(v) ==> opt_bytes_view(v) == state_lookup(
                old(self).snapshot().new_state(),
                state_key@,
            ),
            old(self).snapshot().reads_total() ==> r is Ok,
            r is Ok ==> final(self).critical_errors() == old(self).critical_errors()
                && final(self).diagnostics() == old(self).diagnostics(),
            r is Err ==> final(self).critical_errors() == bumped(old(self).critical_errors())
                && final(self).diagnostics() == old(self).diagnostics().push(
                ReadFailureData {
                    id: old(self).snapshot().id_spec(),
                    key: FailedKeyData::New(state_key@),
                },
            ),
    {
        match self.data_view.get_state_value(state_key) {
            Ok(remote_data) => Ok(remote_data),
            Err(e) => {
                let id = self.data_view.id();
                self.observability.record_read_failure(
                    id,
                    FailedKey::New(state_key.duplicate()),
                );
                Err(e)
            },
        }
    }

    /// Whether the underlying snapshot is the pristine pre-genesis state;
    /// passed through unchanged.
    pub fn is_genesis(&self) -> (r: bool)
        ensures
            r == self.snapshot().genesis_spec(),
    {
        self.data_view.is_genesis()
    }

    /// The diagnostic identity of the underlying snapshot; passed through
    /// unchanged.
    pub fn id(&self) -> (r: StateViewId)
        ensures
            r == self.snapshot().id_spec(),
    {
        self.data_view.id()
    }

    /// How many critical errors the cache has counted so far.
    pub fn critical_error_count(&self) -> (r: u64)
        ensures
            r == self.critical_errors(),
    {
        self.observability.critical_errors()
    }

    /// Looks a module's bytes up through the overlay, deriving the
    /// legacy-form key from the module identifier.  A storage failure is
    /// collapsed into the coarse storage-error classification at an
    /// undefined location; the original cause is dropped.
    pub fn get_module(&mut self, module_id: &ModuleId) -> (r: Result<Option<Vec<u8>>, ResolverError>)
        ensures
            final(self).snapshot() == old(self).snapshot(),
            final(self).pending() == old(self).pending(),
            final(self).fault_injection_enabled() == old(self).fault_injection_enabled(),
            r matches Ok(v) ==> opt_bytes_view(v) == resolve(
                old(self).pending(),
                old(self).snapshot().legacy_state(),
                module_key(*module_id),
            ),
            r is Ok ==> final(self).critical_errors() == old(self).critical_errors()
                && final(self).diagnostics() == old(self).diagnostics(),
            old(self).pending().dom().contains(module_key(*module_id)) ==> r is Ok,
            !old(self).pending().dom().contains(module_key(*module_id)) && !old(self).fault_injection_enabled() && old(self).snapshot().reads_total() ==> r is Ok,
            !old(self).pending().dom().contains(module_key(*module_id)) && old(self).fault_injection_enabled() ==> r is Err,
            r is Err ==> r == Result::<Option<Vec<u8>>, ResolverError>::Err(
                storage_resolver_error(),
            ) && final(self).critical_errors() == bumped(old(self).critical_errors()) && final(self).diagnostics() == old(self).diagnostics().push(
                ReadFailureData {
                    id: old(self).snapshot().id_spec(),
                    key: FailedKeyData::Legacy(module_key(*module_id)),
                },
            ),
    {
        let ap = module_access_path(module_id);
        match self.get_by_access_path(&ap) {
            Ok(v) => Ok(v),
            Err(_) => Err(PartialResolverError::storage_error().finish(Location::Undefined)),
        }
    }

    /// Looks a resource's bytes up through the overlay, deriving the
    /// legacy-form key from the owning address and the resource tag.  A
    /// storage failure is collapsed exactly as for a module lookup.
    pub fn get_resource(&mut self, address: &AccountAddress, tag: &StructTag) -> (r: Result<
        Option<Vec<u8>>,
        ResolverError,
    >)
        ensures
            final(self).snapshot() == old(self).snapshot(),
            final(self).pending() == old(self).pending(),
            final(self).fault_injection_enabled() == old(self).fault_injection_enabled(),
            r matches Ok(v) ==> opt_bytes_view(v) == resolve(
                old(self).pending(),
                old(self).snapshot().legacy_state(),
                resource_key(*address, *tag),
            ),
            r is Ok ==> final(self).critical_errors() == old(self).critical_errors()
                && final(self).diagnostics() == old(self).diagnostics(),
            old(self).pending().dom().contains(resource_key(*address, *tag)) ==> r is Ok,
            !old(self).pending().dom().contains(resource_key(*address, *tag)) && !old(self).fault_injection_enabled() && old(self).snapshot().reads_total() ==> r is Ok,
            !old(self).pending().dom().contains(resource_key(*address, *tag)) && old(self).fault_injection_enabled() ==> r is Err,
            r is Err ==> r == Result::<Option<Vec<u8>>, ResolverError>::Err(
                storage_resolver_error(),
            ) && final(self).critical_errors() == bumped(old(self).critical_errors()) && final(self).diagnostics() == old(self).diagnostics().push(
                ReadFailureData {
                    id: old(self).snapshot().id_spec(),
                    key: FailedKeyData::Legacy(resource_key(*address, *tag)),
                },
            ),
    {
        let ap = create_access_path(*address, tag);
        match self.get_by_access_path(&ap) {
            Ok(v) => Ok(v),
            Err(_) => Err(PartialResolverError::storage_error().finish(Location::Undefined)),
        }
    }

    /// Fetches a config value through the overlay.  Config reads are
    /// best-effort: absence and failure are both collapsed into `None`,
    /// indistinguishably, and callers supply their own defaults.
    pub fn fetch_config(&mut self, access_path: AccessPath) -> (r: Option<Vec<u8>>)
        ensures
            final(self).snapshot() == old(self).snapshot(),
            final(self).pending() == old(self).pending(),
            final(self).fault_injection_enabled() == old(self).fault_injection_enabled(),
            r matches Some(b) ==> resolve(
                old(self).pending(),
                old(self).snapshot().legacy_state(),
                access_path@,
            ) == Some(b@),
            old(self).pending().dom().contains(access_path@) ==> opt_bytes_view(r) == old(self).pending()[access_path@] && final(self).critical_errors() == old(self).critical_errors() && final(self).diagnostics() == old(self).diagnostics(),
            !old(self).pending().dom().contains(access_path@) && !old(self).fault_injection_enabled() && old(self).snapshot().reads_total() ==> opt_bytes_view(r)
                == state_lookup(old(self).snapshot().legacy_state(), access_path@),
            !old(self).pending().dom().contains(access_path@) && old(self).fault_injection_enabled() ==> r is None && final(self).critical_errors() == bumped(
                old(self).critical_errors(),
            ) && final(self).diagnostics() == old(self).diagnostics().push(
                ReadFailureData {
                    id: old(self).snapshot().id_spec(),
                    key: FailedKeyData::Legacy(access_path@),
                },
            ),
    {
        match self.get_by_access_path(&access_path) {
            Ok(v) => v,
            Err(_) => None,
        }
    }

    /// The observability port the cache reports to.
    pub fn observability(&self) -> (r: &Observability)
        ensures
            r.critical_errors_spec() == self.critical_errors(),
            r.records_spec() == self.diagnostics(),
    {
        &self.observability
    }
}

/// Read-your-writes: a write-set entry's key, once absorbed, reads back
/// exactly as that entry's final op — `Some` bytes for a value, `None` for
/// a tombstone — whatever the snapshot holds for the key.
pub proof fn lemma_read_your_writes(
    m: Map<AccessPathData, Option<Seq<u8>>>,
    s: Seq<(AccessPathData, Option<Seq<u8>>)>,
    k: AccessPathData,
)
    requires
        ws_contains(s, k),
    ensures
        apply_write_set(m, s).dom().contains(k),
        apply_write_set(m, s)[k] == ws_final_op(s, k),
    decreases s.len(),
{
    if s.last().0 == k {
    } else {
        let i = choose|i: int| 0 <= i < s.len() && s[i].0 == k;
        assert(s.drop_last()[i] == s[i]);
        lemma_read_your_writes(m, s.drop_last(), k);
    }
}

/// Pass-through: a key no absorbed write-set mentions is untouched in the
/// pending-write map, so a read of it falls through to the snapshot.
pub proof fn lemma_pass_through(
    m: Map<AccessPathData, Option<Seq<u8>>>,
    s: Seq<(AccessPathData, Option<Seq<u8>>)>,
    k: AccessPathData,
)
    requires
        !ws_contains(s, k),
    ensures
        apply_write_set(m, s).dom().contains(k) <==> m.dom().contains(k),
        m.dom().contains(k) ==> apply_write_set(m, s)[k] == m[k],
    decreases s.len(),
{
    if s.len() == 0 {
    } else {
        assert(s.last().0 != k);
        assert(!ws_contains(s.drop_last(), k)) by {
            if ws_contains(s.drop_last(), k) {
                let i = choose|i: int| 0 <= i < s.drop_last().len() && s.drop_last()[i].0 == k;
                assert(s[i].0 == k);
            }
        }
        lemma_pass_through(m, s.drop_last(), k);
    }
}

/// Read-your-writes at the overlay's read path: once a write-set is
/// absorbed, a key it mentions resolves to that key's final op — whatever
/// the snapshot holds for the key, which this conclusion does not even
/// mention.
pub proof fn lemma_resolve_after_absorb(
    m: Map<AccessPathData, Option<Seq<u8>>>,
    legacy: Map<AccessPathData, Seq<u8>>,
    s: Seq<(AccessPathData, Option<Seq<u8>>)>,
    k: AccessPathData,
)
    requires
        ws_contains(s, k),
    ensures
        resolve(apply_write_set(m, s), legacy, k) == ws_final_op(s, k),
{
    lemma_read_your_writes(m, s, k);
}

/// Pass-through at the overlay's read path: a key that is not pending and
/// that an absorbed write-set does not mention resolves to the snapshot's
/// own result for it.
pub proof fn lemma_resolve_pass_through(
    m: Map<AccessPathData, Option<Seq<u8>>>,
    legacy: Map<AccessPathData, Seq<u8>>,
    s: Seq<(AccessPathData, Option<Seq<u8>>)>,
    k: AccessPathData,
)
    requires
        !ws_contains(s, k),
        !m.dom().contains(k),
    ensures
        resolve(apply_write_set(m, s), legacy, k) == state_lookup(legacy, k),
{
    lemma_pass_through(m, s, k);
}

/// The pending-write map after a whole sequence of write-sets is absorbed
/// in order.
pub open spec fn apply_write_sets(
    m: Map<AccessPathData, Option<Seq<u8>>>,
    batches: Seq<Seq<(AccessPathData, Option<Seq<u8>>)>>,
) -> Map<AccessPathData, Option<Seq<u8>>>
    decreases batches.len(),
{
    if batches.len() == 0 {
        m
    } else {
        apply_write_set(apply_write_sets(m, batches.drop_last()), batches.last())
    }
}

/// Pass-through across a batch: a key absent from every absorbed write-set
/// is untouched in the pending-write map, so a read of it always equals
/// the snapshot's own result.
pub proof fn lemma_pass_through_many(
    m: Map<AccessPathData, Option<Seq<u8>>>,
    batches: Seq<Seq<(AccessPathData, Option<Seq<u8>>)>>,
    k: AccessPathData,
)
    requires
        forall|i: int| 0 <= i < batches.len() ==> !ws_contains(#[trigger] batches[i], k),
    ensures
        apply_write_sets(m, batches).dom().contains(k) <==> m.dom().contains(k),
        m.dom().contains(k) ==> apply_write_sets(m, batches)[k] == m[k],
    decreases batches.len(),
{
    if batches.len() == 0 {
    } else {
        lemma_pass_through_many(m, batches.drop_last(), k);
        lemma_pass_through(apply_write_sets(m, batches.drop_last()), batches.last(), k);
    }
}

/// A cache starts with nothing pending, so a key that no absorbed
/// write-set ever mentioned resolves to the snapshot's own result for it.
pub proof fn lemma_resolve_untouched_key(
    legacy: Map<AccessPathData, Seq<u8>>,
    batches: Seq<Seq<(AccessPathData, Option<Seq<u8>>)>>,
    k: AccessPathData,
)
    requires
        forall|i: int| 0 <= i < batches.len() ==> !ws_contains(#[trigger] batches[i], k),
    ensures
        resolve(
            apply_write_sets(Map::<AccessPathData, Option<Seq<u8>>>::empty(), batches),
            legacy,
            k,
        ) == state_lookup(legacy, k),
{
    lemma_pass_through_many(Map::<AccessPathData, Option<Seq<u8>>>::empty(), batches, k);
}

/// Idempotence: absorbing the same write-set twice leaves the same
/// pending-write map as absorbing it once.
pub proof fn lemma_absorb_idempotent(
    m: Map<AccessPathData, Option<Seq<u8>>>,
    s: Seq<(AccessPathData, Option<Seq<u8>>)>,
)
    ensures
        apply_write_set(apply_write_set(m, s), s) == apply_write_set(m, s),
{
    let m1 = apply_write_set(m, s);
    let m2 = apply_write_set(m1, s);
    assert forall|k: AccessPathData| #![all_triggers]
        m2.dom().contains(k) <==> m1.dom().contains(k) by {
        if ws_contains(s, k) {
            lemma_read_your_writes(m, s, k);
            lemma_read_your_writes(m1, s, k);
        } else {
            lemma_pass_through(m, s, k);
            lemma_pass_through(m1, s, k);
        }
    }
    assert forall|k: AccessPathData| m2.dom().contains(k) implies m2[k] == m1[k] by {
        if ws_contains(s, k) {
            lemma_read_your_writes(m, s, k);
            lemma_read_your_writes(m1, s, k);
        } else {
            lemma_pass_through(m, s, k);
            lemma_pass_through(m1, s, k);
        }
    }
    assert(m2 =~= m1);
}

/// An adapter giving a one-shot, overlay-free read of any snapshot, with
/// the coarse error classification the VM resolver contract expects.
pub struct RemoteStorage<'a, S: StateView>(&'a S);

impl<'a, S: StateView> RemoteStorage<'a, S> {
    /// The snapshot the adapter reads.
    pub closed spec fn snapshot(&self) -> S {
        *self.0
    }

    /// Wraps a snapshot.
    pub fn new(state_store: &'a S) -> (r: Self)
        ensures
            r.snapshot() == *state_store,
    {
        RemoteStorage(state_store)
    }

    /// Reads the bytes under a legacy-form key, collapsing an I/O failure
    /// into the coarse storage-error classification; the original cause is
    /// deliberately dropped.
    pub fn get(&self, access_path: &AccessPath) -> (r: Result<
        Option<Vec<u8>>,
        PartialResolverError,
    >)
        ensures
            r matches Ok(v) ==> opt_bytes_view(v) == state_lookup(
                self.snapshot().legacy_state(),
                access_path@,
            ),
            self.snapshot().reads_total() ==> r is Ok,
            r is Err ==> r == Result::<Option<Vec<u8>>, PartialResolverError>::Err(
                PartialResolverError { status: StatusCode::StorageError },
            ),
    {
        match self.0.get_by_access_path(access_path) {
            Ok(v) => Ok(v),
            Err(_) => Err(PartialResolverError::storage_error()),
        }
    }

    /// Looks a module's bytes up in the snapshot, deriving the legacy-form
    /// key from the module identifier.  A storage failure becomes the
    /// coarse classification at an undefined location.
    pub fn get_module(&self, module_id: &ModuleId) -> (r: Result<Option<Vec<u8>>, ResolverError>)
        ensures
            r matches Ok(v) ==> opt_bytes_view(v) == state_lookup(
                self.snapshot().legacy_state(),
                module_key(*module_id),
            ),
            self.snapshot().reads_total() ==> r is Ok,
            r is Err ==> r == Result::<Option<Vec<u8>>, ResolverError>::Err(
                storage_resolver_error(),
            ),
    {
        let ap = module_access_path(module_id);
        match self.get(&ap) {
            Ok(v) => Ok(v),
            Err(e) => Err(e.finish(Location::Undefined)),
        }
    }

    /// Looks a resource's bytes up in the snapshot, deriving the
    /// legacy-form key from the owning address and the resource tag.
    pub fn get_resource(&self, address: &AccountAddress, struct_tag: &StructTag) -> (r: Result<
        Option<Vec<u8>>,
        ResolverError,
    >)
        ensures
            r matches Ok(v) ==> opt_bytes_view(v) == state_lookup(
                self.snapshot().legacy_state(),
                resource_key(*address, *struct_tag),
            ),
            self.snapshot().reads_total() ==> r is Ok,
            r is Err ==> r == Result::<Option<Vec<u8>>, ResolverError>::Err(
                storage_resolver_error(),
            ),
    {
        let ap = create_access_path(*address, struct_tag);
        match self.get(&ap) {
            Ok(v) => Ok(v),
            Err(e) => Err(e.finish(Location::Undefined)),
        }
    }

    /// Fetches a config value from the snapshot.  Config reads are
    /// best-effort: absence and failure are both collapsed into `None`.
    pub fn fetch_config(&self, access_path: AccessPath) -> (r: Option<Vec<u8>>)
        ensures
            r matches Some(b) ==> state_lookup(self.snapshot().legacy_state(), access_path@)
                == Some(b@),
            self.snapshot().reads_total() ==> opt_bytes_view(r) == state_lookup(
                self.snapshot().legacy_state(),
                access_path@,
            ),
    {
        match self.get(&access_path) {
            Ok(v) => v,
            Err(_) => None,
        }
    }
}

/// Resolver round-trip: absorbing a write-set that publishes bytes `b` at
/// a module's derived key makes the module resolve to `Some(b)` whatever
/// the snapshot holds; absorbing a tombstone at that key makes it resolve
/// to `None`; and with nothing pending for the key, the module resolves to
/// whatever the snapshot holds at the derived key.
pub proof fn lemma_module_round_trip(
    pending: Map<AccessPathData, Option<Seq<u8>>>,
    legacy: Map<AccessPathData, Seq<u8>>,
    module_id: ModuleId,
    b: Seq<u8>,
)
    ensures
        resolve(
            apply_write_set(pending, seq![(module_key(module_id), Some(b))]),
            legacy,
            module_key(module_id),
        ) == Some(b),
        resolve(
            apply_write_set(pending, seq![(module_key(module_id), None)]),
            legacy,
            module_key(module_id),
        ) == Option::<Seq<u8>>::None,
        !pending.dom().contains(module_key(module_id)) ==> resolve(
            pending,
            legacy,
            module_key(module_id),
        ) == state_lookup(legacy, module_key(module_id)),
{
    let k = module_key(module_id);
    let publish: Seq<(AccessPathData, Option<Seq<u8>>)> = seq![(k, Some(b))];
    let erase: Seq<(AccessPathData, Option<Seq<u8>>)> = seq![(k, Option::<Seq<u8>>::None)];
    assert(ws_contains(publish, k));
    assert(ws_contains(erase, k));
    lemma_read_your_writes(pending, publish, k);
    lemma_read_your_writes(pending, erase, k);
    assert(publish.drop_last() =~= Seq::<(AccessPathData, Option<Seq<u8>>)>::empty());
    assert(erase.drop_last() =~= Seq::<(AccessPathData, Option<Seq<u8>>)>::empty());
}

} // verus!
