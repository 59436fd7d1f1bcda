use state_overlay::access_path::AccessPath;
use state_overlay::account_address::AccountAddress;
use state_overlay::data_cache::{RemoteStorage, StateViewCache};
use state_overlay::data_store::FakeDataStore;
use state_overlay::errors::{Location, StatusCode};
use state_overlay::language_storage::{
    create_access_path, module_access_path, Identifier, ModuleId, StructTag, TypeTag,
};
use state_overlay::write_set::{WriteOp, WriteSet};

fn addr(fill: u8) -> AccountAddress {
    AccountAddress::new([fill; 32])
}

fn ident(name: &str) -> Identifier {
    Identifier::new(name.as_bytes().to_vec()).expect("identifier must be well-formed")
}

fn module_id(fill: u8, name: &str) -> ModuleId {
    ModuleId { address: addr(fill), name: ident(name) }
}

fn coin_tag(fill: u8) -> StructTag {
    StructTag {
        address: addr(fill),
        module: ident("Coin"),
        name: ident("Balance"),
        type_args: vec![TypeTag::U8, TypeTag::Vector(Box::new(TypeTag::Bool))],
    }
}

#[test]
fn module_round_trip_through_pending_writes() {
    let store = FakeDataStore::new(vec![]);
    let mut cache = StateViewCache::new(&store);
    let id = module_id(7, "Account");
    let publish = WriteSet::from_entries(vec![(
        module_access_path(&id),
        WriteOp::Value(b"blob".to_vec()),
    )])
    .unwrap();
    cache.push_write_set(&publish);
    assert_eq!(cache.get_module(&id).unwrap(), Some(b"blob".to_vec()));

    let erase = WriteSet::from_entries(vec![(module_access_path(&id), WriteOp::Deletion)])
        .unwrap();
    cache.push_write_set(&erase);
    assert_eq!(cache.get_module(&id).unwrap(), None);
}

#[test]
fn module_round_trip_through_the_snapshot() {
    let mut store = FakeDataStore::new(vec![]);
    let id = module_id(7, "Account");
    store.add_module(&id, b"blob".to_vec());
    let mut cache = StateViewCache::new(&store);
    assert_eq!(cache.get_module(&id).unwrap(), Some(b"blob".to_vec()));
    assert_eq!(store.get_module(&id).unwrap(), Some(b"blob".to_vec()));
    assert_eq!(
        RemoteStorage::new(&store).get_module(&id).unwrap(),
        Some(b"blob".to_vec())
    );
    let absent = module_id(8, "Other");
    assert_eq!(cache.get_module(&absent).unwrap(), None);
}

#[test]
fn resource_lookup_uses_the_derived_key() {
    let mut store = FakeDataStore::new(vec![]);
    let tag = coin_tag(9);
    let key = create_access_path(addr(3), &tag);
    store.set(key, b"resource".to_vec());
    let mut cache = StateViewCache::new(&store);
    assert_eq!(
        cache.get_resource(&addr(3), &tag).unwrap(),
        Some(b"resource".to_vec())
    );
    assert_eq!(
        store.get_resource(&addr(3), &tag).unwrap(),
        Some(b"resource".to_vec())
    );
    assert_eq!(cache.get_resource(&addr(4), &tag).unwrap(), None);
}

#[test]
fn resolver_failure_is_coarse_and_at_an_undefined_location() {
    let store = FakeDataStore::new(vec![]);
    let mut cache = StateViewCache::new(&store);
    cache.set_fault_injection(true);
    let err = cache.get_module(&module_id(7, "Account")).unwrap_err();
    assert_eq!(err.status, StatusCode::StorageError);
    assert_eq!(err.location, Location::Undefined);
    assert_eq!(cache.critical_error_count(), 1);
}

#[test]
fn remote_storage_reads_without_an_overlay() {
    let mut store = FakeDataStore::new(vec![]);
    let key = AccessPath::new(addr(1), b"slot".to_vec());
    store.set(key, b"v".to_vec());
    let remote = RemoteStorage::new(&store);
    assert_eq!(
        remote.get(&AccessPath::new(addr(1), b"slot".to_vec())).unwrap(),
        Some(b"v".to_vec())
    );
    assert_eq!(
        remote.get(&AccessPath::new(addr(2), b"slot".to_vec())).unwrap(),
        None
    );
    assert_eq!(
        remote.fetch_config(AccessPath::new(addr(1), b"slot".to_vec())),
        Some(b"v".to_vec())
    );
    assert_eq!(
        remote.fetch_config(AccessPath::new(addr(2), b"slot".to_vec())),
        None
    );
}

#[test]
fn module_path_bytes_are_exact() {
    let id = module_id(0x11, "M");
    let path = id.access_vector();
    let mut expected = vec![0u8];
    expected.extend_from_slice(&[0x11; 32]);
    expected.push(1);
    expected.push(b'M');
    assert_eq!(path, expected);
    let derived = module_access_path(&id);
    assert_eq!(derived.address.bytes, [0x11; 32]);
    assert_eq!(derived.path, expected);
}

#[test]
fn resource_path_bytes_are_exact() {
    let tag = coin_tag(0x22);
    let path = tag.access_vector();
    let mut expected = vec![1u8];
    expected.extend_from_slice(&[0x22; 32]);
    expected.push(4);
    expected.extend_from_slice(b"Coin");
    expected.push(7);
    expected.extend_from_slice(b"Balance");
    expected.push(2);
    expected.push(1);
    expected.push(6);
    expected.push(0);
    assert_eq!(path, expected);
}

#[test]
fn long_identifier_lengths_use_two_varint_bytes() {
    let name: Vec<u8> = std::iter::repeat(b'a').take(130).collect();
    let id = ModuleId { address: addr(0), name: Identifier::new(name.clone()).unwrap() };
    let path = id.access_vector();
    assert_eq!(path[33], 130);
    assert_eq!(path[34], 1);
    assert_eq!(&path[35..], &name[..]);
}

#[test]
fn identifiers_are_validated() {
    assert!(Identifier::new(b"Account".to_vec()).is_ok());
    assert!(Identifier::new(b"_private9".to_vec()).is_ok());
    assert!(Identifier::new(b"".to_vec()).is_err());
    assert!(Identifier::new(b"9start".to_vec()).is_err());
    assert!(Identifier::new(b"has space".to_vec()).is_err());
    assert!(Identifier::new(b"dash-ed".to_vec()).is_err());
}
