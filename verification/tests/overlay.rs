use state_overlay::access_path::AccessPath;
use state_overlay::account_address::AccountAddress;
use state_overlay::data_cache::StateViewCache;
use state_overlay::data_store::FakeDataStore;
use state_overlay::observability::FailedKey;
use state_overlay::state_key::StateKey;
use state_overlay::state_view::{StateView, StateViewId};
use state_overlay::write_set::{WriteOp, WriteSet, WriteSetError};

fn addr(fill: u8) -> AccountAddress {
    AccountAddress::new([fill; 32])
}

fn ap(fill: u8, path: &[u8]) -> AccessPath {
    AccessPath::new(addr(fill), path.to_vec())
}

fn value_set(entries: Vec<(AccessPath, WriteOp)>) -> WriteSet {
    WriteSet::from_entries(entries).expect("write-set keys must be unique")
}

#[test]
fn absorbed_value_wins_over_snapshot() {
    let mut store = FakeDataStore::new(vec![(ap(1, b"slot"), b"old".to_vec())]);
    store.set(ap(2, b"other"), b"kept".to_vec());
    let mut cache = StateViewCache::new(&store);
    let ws = value_set(vec![(ap(1, b"slot"), WriteOp::Value(b"new".to_vec()))]);
    cache.push_write_set(&ws);
    assert_eq!(
        cache.get_by_access_path(&ap(1, b"slot")).unwrap(),
        Some(b"new".to_vec())
    );
}

#[test]
fn absorbed_tombstone_hides_snapshot_value() {
    let store = FakeDataStore::new(vec![(ap(1, b"slot"), b"old".to_vec())]);
    let mut cache = StateViewCache::new(&store);
    let ws = value_set(vec![(ap(1, b"slot"), WriteOp::Deletion)]);
    cache.push_write_set(&ws);
    assert_eq!(cache.get_by_access_path(&ap(1, b"slot")).unwrap(), None);
}

#[test]
fn untouched_key_passes_through_to_snapshot() {
    let store = FakeDataStore::new(vec![(ap(1, b"kept"), b"v".to_vec())]);
    let mut cache = StateViewCache::new(&store);
    let ws = value_set(vec![(ap(1, b"slot"), WriteOp::Value(b"new".to_vec()))]);
    cache.push_write_set(&ws);
    assert_eq!(
        cache.get_by_access_path(&ap(1, b"kept")).unwrap(),
        Some(b"v".to_vec())
    );
    assert_eq!(cache.get_by_access_path(&ap(3, b"absent")).unwrap(), None);
}

#[test]
fn absorbing_twice_reads_like_once() {
    let store = FakeDataStore::new(vec![(ap(1, b"a"), b"snap".to_vec())]);
    let mut once = StateViewCache::new(&store);
    let mut twice = StateViewCache::new(&store);
    let ws = value_set(vec![
        (ap(1, b"a"), WriteOp::Value(b"x".to_vec())),
        (ap(1, b"b"), WriteOp::Deletion),
    ]);
    once.push_write_set(&ws);
    twice.push_write_set(&ws);
    twice.push_write_set(&ws);
    for key in [ap(1, b"a"), ap(1, b"b"), ap(1, b"c")] {
        assert_eq!(
            once.get_by_access_path(&key).unwrap(),
            twice.get_by_access_path(&key).unwrap()
        );
    }
}

#[test]
fn absorbing_never_mutates_the_snapshot() {
    let store = FakeDataStore::new(vec![(ap(1, b"a"), b"original".to_vec())]);
    let mut cache = StateViewCache::new(&store);
    let first = value_set(vec![(ap(1, b"a"), WriteOp::Value(b"x".to_vec()))]);
    let second = value_set(vec![(ap(1, b"a"), WriteOp::Deletion)]);
    cache.push_write_set(&first);
    cache.push_write_set(&second);
    assert_eq!(
        store.get_by_access_path(&ap(1, b"a")).unwrap(),
        Some(b"original".to_vec())
    );
    assert_eq!(store.get_by_access_path(&ap(1, b"b")).unwrap(), None);
}

#[test]
fn last_entry_for_a_key_wins_across_write_sets() {
    let store = FakeDataStore::new(vec![]);
    let mut cache = StateViewCache::new(&store);
    cache.push_write_set(&value_set(vec![(
        ap(1, b"k"),
        WriteOp::Value(b"first".to_vec()),
    )]));
    cache.push_write_set(&value_set(vec![(
        ap(1, b"k"),
        WriteOp::Value(b"second".to_vec()),
    )]));
    assert_eq!(
        cache.get_by_access_path(&ap(1, b"k")).unwrap(),
        Some(b"second".to_vec())
    );
}

#[test]
fn duplicate_keys_are_rejected_at_write_set_construction() {
    let result = WriteSet::from_entries(vec![
        (ap(1, b"k"), WriteOp::Value(b"a".to_vec())),
        (ap(1, b"k"), WriteOp::Deletion),
    ]);
    assert_eq!(result.unwrap_err(), WriteSetError::DuplicateKey);
    let good = value_set(vec![
        (ap(1, b"k"), WriteOp::Value(b"a".to_vec())),
        (ap(2, b"k"), WriteOp::Deletion),
    ]);
    assert!(good.check_unique());
    assert_eq!(good.len(), 2);
}

#[test]
fn absorbing_an_empty_write_set_changes_nothing() {
    let store = FakeDataStore::new(vec![(ap(1, b"a"), b"v".to_vec())]);
    let mut cache = StateViewCache::new(&store);
    cache.push_write_set(&WriteSet::empty());
    assert_eq!(
        cache.get_by_access_path(&ap(1, b"a")).unwrap(),
        Some(b"v".to_vec())
    );
    assert_eq!(cache.get_by_access_path(&ap(1, b"b")).unwrap(), None);
}

#[test]
fn injected_failure_propagates_and_is_counted_once() {
    let store = FakeDataStore::new(vec![(ap(1, b"slot"), b"v".to_vec())]);
    let mut cache = StateViewCache::new(&store);
    cache.set_fault_injection(true);
    assert!(cache.get_by_access_path(&ap(1, b"slot")).is_err());
    assert_eq!(cache.critical_error_count(), 1);
    assert_eq!(cache.observability().record_count(), 1);
    let record = cache.observability().record_at(0);
    assert_eq!(record.id, StateViewId::Miscellaneous);
    assert_eq!(record.key, FailedKey::Legacy(ap(1, b"slot")));
    assert!(cache.get_by_access_path(&ap(1, b"slot")).is_err());
    assert_eq!(cache.critical_error_count(), 2);
}

#[test]
fn config_read_collapses_failure_into_none() {
    let store = FakeDataStore::new(vec![(ap(1, b"slot"), b"v".to_vec())]);
    let mut cache = StateViewCache::new(&store);
    cache.set_fault_injection(true);
    assert_eq!(cache.fetch_config(ap(1, b"slot")), None);
    assert_eq!(cache.critical_error_count(), 1);
    cache.set_fault_injection(false);
    assert_eq!(cache.fetch_config(ap(1, b"slot")), Some(b"v".to_vec()));
    assert_eq!(cache.critical_error_count(), 1);
}

#[test]
fn pending_hit_is_served_without_consulting_the_snapshot() {
    let store = FakeDataStore::new(vec![]);
    let mut cache = StateViewCache::new(&store);
    cache.push_write_set(&value_set(vec![(
        ap(1, b"k"),
        WriteOp::Value(b"pending".to_vec()),
    )]));
    cache.set_fault_injection(true);
    assert_eq!(
        cache.get_by_access_path(&ap(1, b"k")).unwrap(),
        Some(b"pending".to_vec())
    );
    assert_eq!(cache.critical_error_count(), 0);
}

#[test]
fn new_scheme_reads_bypass_the_overlay() {
    let mut store = FakeDataStore::new(vec![]);
    store.set_state_value(StateKey::new(b"k".to_vec()), b"direct".to_vec());
    let mut cache = StateViewCache::new(&store);
    cache.push_write_set(&value_set(vec![(
        ap(1, b"k"),
        WriteOp::Value(b"overlaid".to_vec()),
    )]));
    assert_eq!(
        cache.get_state_value(&StateKey::new(b"k".to_vec())).unwrap(),
        Some(b"direct".to_vec())
    );
    assert_eq!(
        cache.get_state_value(&StateKey::new(b"absent".to_vec())).unwrap(),
        None
    );
}

#[test]
fn identity_and_genesis_pass_through() {
    let store = FakeDataStore::new(vec![]);
    let cache = StateViewCache::new(&store);
    assert!(cache.is_genesis());
    assert_eq!(cache.id(), StateViewId::Miscellaneous);
    let seeded = FakeDataStore::new(vec![(ap(1, b"a"), b"v".to_vec())]);
    let seeded_cache = StateViewCache::new(&seeded);
    assert!(!seeded_cache.is_genesis());
}
