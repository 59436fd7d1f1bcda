//! New-form storage keys: an opaque key from the second addressing scheme.

use vstd::prelude::*;

use crate::bytes::{
    bytes_equal, bytes_less, bytes_lt, copy_bytes, lemma_bytes_lt_transitive,
    lemma_bytes_lt_trichotomy,
};

verus! {

/// A storage key of the newer addressing scheme.  It coexists with the
/// legacy [`crate::access_path::AccessPath`] form during migration and is
/// never implicitly synchronized with it; the overlay treats it as an
/// opaque byte string and passes it through.
#[derive(Clone, Debug, Eq, Hash, PartialEq)]
pub struct StateKey {
    pub bytes: Vec<u8>,
}

impl View for StateKey {
    type V = Seq<u8>;

    open spec fn view(&self) -> Seq<u8> {
        self.bytes@
    }
}

impl StateKey {
    /// Wraps raw bytes as a new-form key.
    pub fn new(bytes: Vec<u8>) -> (r: Self)
        ensures
            r@ == bytes@,
    {
        StateKey { bytes }
    }

    /// Whether two keys hold the same bytes.
    pub fn equals(&self, other: &StateKey) -> (r: bool)
        ensures
            r <==> self@ == other@,
    {
        bytes_equal(&self.bytes, &other.bytes)
    }

    /// A fresh copy of the key.
    pub fn duplicate(&self) -> (r: StateKey)
        ensures
            r@ == self@,
    {
        StateKey { bytes: copy_bytes(&self.bytes) }
    }
}

impl crate::kv::ViewKey for StateKey {
    open spec fn key_lt(a: Seq<u8>, b: Seq<u8>) -> bool {
        bytes_lt(a, b)
    }

    proof fn lemma_key_trichotomy(a: Seq<u8>, b: Seq<u8>) {
        lemma_bytes_lt_trichotomy(a, b);
    }

    proof fn lemma_key_transitive(a: Seq<u8>, b: Seq<u8>, c: Seq<u8>) {
        lemma_bytes_lt_transitive(a, b, c);
    }

    fn key_equals(&self, other: &Self) -> (r: bool) {
        self.equals(other)
    }

    fn key_less(&self, other: &Self) -> (r: bool) {
        bytes_less(&self.bytes, &other.bytes)
    }
}

} // verus!
