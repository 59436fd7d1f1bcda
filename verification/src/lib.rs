//! A transactional state overlay cache.
//!
//! The crate sits between a virtual machine executing transactions and a
//! persistent, versioned global state store.  A read-only snapshot of global
//! state is wrapped by an overlay cache that layers pending, not-yet-durable
//! write-sets on top of it, giving each execution a consistent,
//! read-your-writes view of state.  Key-derivation adapters translate
//! VM-level identifiers (module identifiers, typed resource tags) into the
//! storage-level composite keys that the snapshot understands, and a
//! stateless resolver adapter exposes the read-and-translate contract that
//! VM execution needs.  An in-memory test double implements the full
//! snapshot and resolver contract for test setup.

pub mod access_path;
pub mod account_address;
pub mod bytes;
pub mod data_cache;
pub mod data_store;
pub mod errors;
pub mod framework;
pub mod kv;
pub mod language_storage;
pub mod observability;
pub mod state_key;
pub mod state_view;
pub mod write_set;
