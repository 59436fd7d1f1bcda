use state_overlay::access_path::AccessPath;
use state_overlay::account_address::AccountAddress;
use state_overlay::data_store::{AccountData, FakeDataStore};
use state_overlay::framework::{
    aptos_files, aptos_files_no_dependencies, aptos_module_blobs, core_modules_full_path,
    path_in_crate, PackageUnit,
};
use state_overlay::language_storage::{create_access_path, Identifier, StructTag};
use state_overlay::state_key::StateKey;
use state_overlay::state_view::StateView;
use state_overlay::write_set::{WriteOp, WriteSet, WriteSetError};

fn addr(fill: u8) -> AccountAddress {
    AccountAddress::new([fill; 32])
}

fn ap(fill: u8, path: &[u8]) -> AccessPath {
    AccessPath::new(addr(fill), path.to_vec())
}

fn ident(name: &str) -> Identifier {
    Identifier::new(name.as_bytes().to_vec()).expect("identifier must be well-formed")
}

fn tag(fill: u8, name: &str) -> StructTag {
    StructTag { address: addr(fill), module: ident("M"), name: ident(name), type_args: vec![] }
}

#[test]
fn empty_store_is_genesis_until_first_write() {
    let mut store = FakeDataStore::default();
    assert!(store.is_genesis());
    store.set(ap(1, b"k"), b"b".to_vec());
    assert_eq!(
        store.get_by_access_path(&ap(1, b"k")).unwrap(),
        Some(b"b".to_vec())
    );
    assert!(!store.is_genesis());
    let deletion = WriteSet::from_entries(vec![(ap(1, b"k"), WriteOp::Deletion)]).unwrap();
    store.add_write_set(&deletion);
    assert_eq!(store.get_by_access_path(&ap(1, b"k")).unwrap(), None);
    assert!(store.is_genesis());
}

#[test]
fn set_and_remove_hand_back_the_previous_bytes() {
    let mut store = FakeDataStore::default();
    assert_eq!(store.set(ap(1, b"k"), b"one".to_vec()), None);
    assert_eq!(
        store.set(ap(1, b"k"), b"two".to_vec()),
        Some(b"one".to_vec())
    );
    assert_eq!(store.remove(&ap(1, b"k")), Some(b"two".to_vec()));
    assert_eq!(store.remove(&ap(1, b"k")), None);
    assert_eq!(store.inner().entry_count(), 0);
}

#[test]
fn the_two_key_schemes_are_independent() {
    let mut store = FakeDataStore::default();
    store.set(ap(1, b"k"), b"legacy".to_vec());
    assert_eq!(
        store.get_state_value(&StateKey::new(b"k".to_vec())).unwrap(),
        None
    );
    store.set_state_value(StateKey::new(b"k".to_vec()), b"modern".to_vec());
    assert_eq!(
        store.get_state_value(&StateKey::new(b"k".to_vec())).unwrap(),
        Some(b"modern".to_vec())
    );
    assert_eq!(
        store.get_by_access_path(&ap(1, b"k")).unwrap(),
        Some(b"legacy".to_vec())
    );
    assert_eq!(store.fetch_config(ap(1, b"k")), Some(b"legacy".to_vec()));
}

#[test]
fn write_sets_apply_in_order_with_deletions() {
    let mut store = FakeDataStore::new(vec![(ap(1, b"a"), b"seed".to_vec())]);
    let ws = WriteSet::from_entries(vec![
        (ap(1, b"a"), WriteOp::Deletion),
        (ap(1, b"b"), WriteOp::Value(b"added".to_vec())),
    ])
    .unwrap();
    store.add_write_set(&ws);
    assert_eq!(store.get_by_access_path(&ap(1, b"a")).unwrap(), None);
    assert_eq!(
        store.get_by_access_path(&ap(1, b"b")).unwrap(),
        Some(b"added".to_vec())
    );
}

#[test]
fn account_fixture_publishes_each_resource_at_its_derived_key() {
    let mut store = FakeDataStore::default();
    let fixture = AccountData {
        address: addr(5),
        resources: vec![
            (tag(9, "Balance"), b"coins".to_vec()),
            (tag(9, "Sequence"), b"nonce".to_vec()),
        ],
    };
    fixture.to_writeset().expect("distinct tags derive distinct keys");
    store.add_account_data(&fixture).unwrap();
    let balance_key = create_access_path(addr(5), &tag(9, "Balance"));
    let sequence_key = create_access_path(addr(5), &tag(9, "Sequence"));
    assert_eq!(
        store.get_by_access_path(&balance_key).unwrap(),
        Some(b"coins".to_vec())
    );
    assert_eq!(
        store.get_by_access_path(&sequence_key).unwrap(),
        Some(b"nonce".to_vec())
    );
}

#[test]
fn account_fixture_with_repeated_tag_is_rejected() {
    let mut store = FakeDataStore::default();
    let fixture = AccountData {
        address: addr(5),
        resources: vec![
            (tag(9, "Balance"), b"one".to_vec()),
            (tag(9, "Balance"), b"two".to_vec()),
        ],
    };
    assert_eq!(
        store.add_account_data(&fixture).unwrap_err(),
        WriteSetError::DuplicateKey
    );
    assert!(store.is_genesis());
}

#[test]
fn seed_entries_load_first_to_last() {
    let store = FakeDataStore::new(vec![
        (ap(1, b"k"), b"first".to_vec()),
        (ap(1, b"k"), b"second".to_vec()),
        (ap(2, b"other"), b"v".to_vec()),
    ]);
    assert_eq!(
        store.get_by_access_path(&ap(1, b"k")).unwrap(),
        Some(b"second".to_vec())
    );
    assert_eq!(store.inner().entry_count(), 2);
}

#[test]
fn crate_relative_paths_are_joined_with_a_separator() {
    assert_eq!(path_in_crate("/repo/framework", "core"), "/repo/framework/core");
    assert_eq!(
        core_modules_full_path("/repo/framework"),
        "/repo/framework/core/sources"
    );
    assert_eq!(
        state_overlay::framework::aptos_modules_full_path("/repo/framework"),
        "/repo/framework/aptos-framework/sources"
    );
}

#[test]
fn file_listings_concatenate_in_order() {
    let own = aptos_files_no_dependencies(
        vec!["aptos/a.move".to_string()],
        vec!["core/b.move".to_string()],
    );
    assert_eq!(own, vec!["aptos/a.move".to_string(), "core/b.move".to_string()]);
    let all = aptos_files(vec!["stdlib/s.move".to_string()], own.clone());
    assert_eq!(
        all,
        vec![
            "stdlib/s.move".to_string(),
            "aptos/a.move".to_string(),
            "core/b.move".to_string()
        ]
    );
}

#[test]
fn module_blobs_keep_modules_and_skip_scripts() {
    let units = vec![
        PackageUnit::Module(b"m1".to_vec()),
        PackageUnit::Script(b"s1".to_vec()),
        PackageUnit::Module(b"m2".to_vec()),
    ];
    let blobs = aptos_module_blobs(&units);
    assert_eq!(blobs, vec![b"m1".to_vec(), b"m2".to_vec()]);
    assert_eq!(aptos_module_blobs(&vec![]), Vec::<Vec<u8>>::new());
}
