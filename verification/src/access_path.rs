//! Legacy-form storage keys: an account address plus a structured path.

use vstd::prelude::*;

use crate::account_address::AccountAddress;
use crate::bytes::{
    bytes_equal, bytes_less, bytes_lt, copy_bytes, lemma_bytes_lt_transitive,
    lemma_bytes_lt_trichotomy,
};

verus! {

/// The strict total order on legacy-form keys: by address bytes first,
/// then by path bytes, each lexicographically.
pub open spec fn access_path_lt(a: AccessPathData, b: AccessPathData) -> bool {
    bytes_lt(a.address, b.address) || (a.address == b.address && bytes_lt(a.path, b.path))
}

/// The mathematical value of an [`AccessPath`]: the address bytes and the
/// path bytes.
pub struct AccessPathData {
    pub address: Seq<u8>,
    pub path: Seq<u8>,
}

/// A legacy-form storage key: an account address plus a structured path
/// inside that account.  Used as the overlay's map key.
#[derive(Clone, Debug, Eq, Hash, PartialEq)]
pub struct AccessPath {
    pub address: AccountAddress,
    pub path: Vec<u8>,
}

impl View for AccessPath {
    type V = AccessPathData;

    open spec fn view(&self) -> AccessPathData {
        AccessPathData { address: self.address@, path: self.path@ }
    }
}

impl AccessPath {
    /// Builds an access path from its two components.
    pub fn new(address: AccountAddress, path: Vec<u8>) -> (r: Self)
        ensures
            r@ == (AccessPathData { address: address@, path: path@ }),
    {
        AccessPath { address, path }
    }

    /// Whether two access paths address the same storage slot.
    pub fn equals(&self, other: &AccessPath) -> (r: bool)
        ensures
            r <==> self@ == other@,
    {
        let r = self.address.equals(&other.address) && bytes_equal(&self.path, &other.path);
        if r {
            assert(self@ =~= other@);
        }
        r
    }

    /// A fresh copy of the access path.
    pub fn duplicate(&self) -> (r: AccessPath)
        ensures
            r@ == self@,
    {
        let r = AccessPath { address: self.address, path: copy_bytes(&self.path) };
        assert(r@ =~= self@);
        r
    }
}

impl crate::kv::ViewKey for AccessPath {
    open spec fn key_lt(a: AccessPathData, b: AccessPathData) -> bool {
        access_path_lt(a, b)
    }

    proof fn lemma_key_trichotomy(a: AccessPathData, b: AccessPathData) {
        lemma_bytes_lt_trichotomy(a.address, b.address);
        lemma_bytes_lt_trichotomy(a.path, b.path);
    }

    proof fn lemma_key_transitive(a: AccessPathData, b: AccessPathData, c: AccessPathData) {
        if bytes_lt(a.address, b.address) {
            if bytes_lt(b.address, c.address) {
                lemma_bytes_lt_transitive(a.address, b.address, c.address);
            }
        } else {
            if !bytes_lt(b.address, c.address) {
                lemma_bytes_lt_transitive(a.path, b.path, c.path);
            }
        }
    }

    fn key_equals(&self, other: &Self) -> (r: bool) {
        self.equals(other)
    }

    fn key_less(&self, other: &Self) -> (r: bool) {
        proof {
            lemma_bytes_lt_trichotomy(self.address@, other.address@);
        }
        if self.address.less(&other.address) {
            true
        } else if other.address.less(&self.address) {
            false
        } else {
            bytes_less(&self.path, &other.path)
        }
    }
}

} // verus!
