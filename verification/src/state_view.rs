//! The snapshot interface: a read-only view of versioned global state.

use vstd::prelude::*;

use crate::access_path::{AccessPath, AccessPathData};
use crate::bytes::opt_bytes_view;
use crate::errors::ReadError;
use crate::state_key::StateKey;

verus! {

/// A 32-byte digest identifying a block.
#[derive(Clone, Copy, Debug, Eq, Hash, PartialEq)]
pub struct HashValue {
    pub bytes: [u8; 32],
}

/// A diagnostic-only tag classifying why a snapshot exists.  It carries no
/// behavioral weight; it is only attached to failure diagnostics.
#[derive(Clone, Copy, Debug, Eq, PartialEq)]
pub enum StateViewId {
    /// State-sync applying a chunk of transactions.
    ChunkExecution { first_version: u64 },
    /// Execution applying a block.
    BlockExecution { block_id: HashValue },
    /// Validation of an incoming transaction.
    TransactionValidation { base_version: u64 },
    /// Tests, tools, and everything else.
    Miscellaneous,
}

/// The result of looking `k` up in a keyed state `m`: absence is a
/// successful `None`, never an error.
pub open spec fn state_lookup<K>(m: Map<K, Seq<u8>>, k: K) -> Option<Seq<u8>> {
    if m.dom().contains(k) {
        Some(m[k])
    } else {
        None
    }
}

/// A read-only snapshot of versioned global state, safe to share across
/// concurrently reading execution threads.  Its abstract content is a pair
/// of keyed states, one per addressing scheme, which no operation of this
/// crate ever mutates.
pub trait StateView: Sync {
    /// The content of the snapshot under the legacy addressing scheme.
    spec fn legacy_state(&self) -> Map<AccessPathData, Seq<u8>>;

    /// The content of the snapshot under the new addressing scheme.  Not
    /// implicitly synchronized with the legacy content.
    spec fn new_state(&self) -> Map<Seq<u8>, Seq<u8>>;

    /// The diagnostic identity of the view.
    spec fn id_spec(&self) -> StateViewId;

    /// Whether the view represents the pristine pre-genesis state.
    spec fn genesis_spec(&self) -> bool;

    /// Whether reads against this view always succeed.  An in-memory view
    /// cannot fail; a view backed by real storage can fail on any read.
    spec fn reads_total(&self) -> bool;

    /// The diagnostic identity, for logging and debugging only.
    fn id(&self) -> (r: StateViewId)
        ensures
            r == self.id_spec(),
    ;

    /// Reads the bytes stored under a legacy-form key.  Absence is
    /// `Ok(None)`; an error is only ever an I/O failure.
    fn get_by_access_path(&self, access_path: &AccessPath) -> (r: Result<
        Option<Vec<u8>>,
        ReadError,
    >)
        ensures
            r matches Ok(v) ==> opt_bytes_view(v) == state_lookup(
                self.legacy_state(),
                access_path@,
            ),
            self.reads_total() ==> r is Ok,
    ;

    /// Reads the bytes stored under a new-form key.  Absence is `Ok(None)`;
    /// an error is only ever an I/O failure.
    fn get_state_value(&self, state_key: &StateKey) -> (r: Result<Option<Vec<u8>>, ReadError>)
        ensures
            r matches Ok(v) ==> opt_bytes_view(v) == state_lookup(self.new_state(), state_key@),
            self.reads_total() ==> r is Ok,
    ;

    /// Whether this view is the pristine pre-genesis state, the only
    /// context in which a write-set-carrying bootstrap transaction is
    /// permitted.
    fn is_genesis(&self) -> (r: bool)
        ensures
            r == self.genesis_spec(),
    ;
}

} // verus!
