//! Write-sets: the atomic set of state mutations produced by one transaction.

use vstd::prelude::*;

use crate::access_path::{AccessPath, AccessPathData};
use crate::bytes::copy_bytes;

verus! {

/// A single mutation to one storage slot: a value replacement or a
/// tombstone.
#[derive(Clone, Debug, Eq, PartialEq)]
pub enum WriteOp {
    /// Replace the slot's content with the given bytes.
    Value(Vec<u8>),
    /// Delete the slot.
    Deletion,
}

/// The staged form of a write op: `Some` bytes for a replacement, `None`
/// for a tombstone.
pub open spec fn op_view(op: WriteOp) -> Option<Seq<u8>> {
    match op {
        WriteOp::Value(b) => Some(b@),
        WriteOp::Deletion => None,
    }
}

impl WriteOp {
    /// The staged form of the op, as an owned optional byte vector.
    pub fn to_staged(&self) -> (r: Option<Vec<u8>>)
        ensures
            crate::bytes::opt_bytes_view(r) == op_view(*self),
    {
        match self {
            WriteOp::Value(b) => Some(copy_bytes(b)),
            WriteOp::Deletion => None,
        }
    }
}

/// The mathematical value of one write-set entry: a key and the staged form
/// of its op.
pub open spec fn entry_view(e: (AccessPath, WriteOp)) -> (AccessPathData, Option<Seq<u8>>) {
    (e.0@, op_view(e.1))
}

/// The mathematical value of a sequence of write-set entries.
pub open spec fn entries_view(s: Seq<(AccessPath, WriteOp)>) -> Seq<
    (AccessPathData, Option<Seq<u8>>),
> {
    s.map(|i: int, e: (AccessPath, WriteOp)| entry_view(e))
}

/// Whether every key occurs at most once in the sequence.
pub open spec fn unique_keys(s: Seq<(AccessPathData, Option<Seq<u8>>)>) -> bool {
    forall|i: int, j: int| 0 <= i < j < s.len() ==> s[i].0 != s[j].0
}

/// Whether some entry of the sequence carries the key `k`.
pub open spec fn ws_contains(s: Seq<(AccessPathData, Option<Seq<u8>>)>, k: AccessPathData) -> bool {
    exists|i: int| 0 <= i < s.len() && s[i].0 == k
}

/// The staged op that the sequence finally assigns to `k`: the op of the
/// last entry carrying `k`.
pub open spec fn ws_final_op(
    s: Seq<(AccessPathData, Option<Seq<u8>>)>,
    k: AccessPathData,
) -> Option<Seq<u8>>
    recommends
        ws_contains(s, k),
    decreases s.len(),
{
    if s.len() == 0 {
        None
    } else if s[s.len() - 1].0 == k {
        s[s.len() - 1].1
    } else {
        ws_final_op(s.drop_last(), k)
    }
}

/// The reason a vector of entries is rejected as a write-set.
#[derive(Clone, Copy, Debug, Eq, PartialEq)]
pub enum WriteSetError {
    /// Two entries carry the same key.
    DuplicateKey,
}

/// An ordered sequence of unique-keyed `(key, op)` pairs: the atomic output
/// of one transaction.
#[derive(Debug)]
pub struct WriteSet {
    entries: Vec<(AccessPath, WriteOp)>,
}

impl View for WriteSet {
    type V = Seq<(AccessPathData, Option<Seq<u8>>)>;

    closed spec fn view(&self) -> Seq<(AccessPathData, Option<Seq<u8>>)> {
        entries_view(self.entries@)
    }
}

impl WriteSet {
    #[verifier::type_invariant]
    spec fn inv(self) -> bool {
        unique_keys(self@)
    }

    /// The empty write-set.
    pub fn empty() -> (r: Self)
        ensures
            r@ == Seq::<(AccessPathData, Option<Seq<u8>>)>::empty(),
    {
        let r = WriteSet { entries: Vec::new() };
        assert(r@ =~= Seq::<(AccessPathData, Option<Seq<u8>>)>::empty());
        r
    }

    /// Wraps a vector of entries as a write-set.  The entries are kept in
    /// their given order; a vector in which two entries carry the same key
    /// is rejected, and only such a vector is.
    pub fn from_entries(entries: Vec<(AccessPath, WriteOp)>) -> (r: Result<Self, WriteSetError>)
        ensures
            r is Ok <==> unique_keys(entries_view(entries@)),
            r matches Ok(ws) ==> ws@ == entries_view(entries@),
            r is Err ==> r == Result::<Self, WriteSetError>::Err(WriteSetError::DuplicateKey),
    {
        let n: usize = entries.len();
        let mut i: usize = 0;
        while i < n
            invariant
                0 <= i <= n,
                n == entries@.len(),
                forall|p: int, q: int|
                    0 <= p < q < n && p < i ==> entries_view(entries@)[p].0
                        != entries_view(entries@)[q].0,
            decreases n - i,
        {
            let mut j: usize = i + 1;
            while j < n
                invariant
                    0 <= i < j <= n,
                    n == entries@.len(),
                    forall|q: int|
                        i < q < j ==> entries_view(entries@)[i as int].0 != entries_view(
                            entries@,
                        )[q].0,
                decreases n - j,
            {
                if entries[i].0.equals(&entries[j].0) {
                    assert(entries_view(entries@)[i as int].0 == entries_view(entries@)[j as int].0);
                    return Err(WriteSetError::DuplicateKey);
                }
                j += 1;
            }
            i += 1;
        }
        let r = WriteSet { entries };
        assert(unique_keys(r@));
        Ok(r)
    }

    /// The number of entries.
    pub fn len(&self) -> (r: usize)
        ensures
            r == self@.len(),
    {
        self.entries.len()
    }

    /// The key of the entry at `i`.
    pub fn key_at(&self, i: usize) -> (r: &AccessPath)
        requires
            i < self@.len(),
        ensures
            r@ == self@[i as int].0,
    {
        &self.entries[i].0
    }

    /// The op of the entry at `i`.
    pub fn op_at(&self, i: usize) -> (r: &WriteOp)
        requires
            i < self@.len(),
        ensures
            op_view(*r) == self@[i as int].1,
    {
        &self.entries[i].1
    }

    /// The staged form of the op of the entry at `i`, as an owned value.
    pub fn staged_at(&self, i: usize) -> (r: Option<Vec<u8>>)
        requires
            i < self@.len(),
        ensures
            crate::bytes::opt_bytes_view(r) == self@[i as int].1,
    {
        self.entries[i].1.to_staged()
    }

    /// In a unique-keyed sequence, the final op for a key is simply the op
    /// of the one entry carrying it.
    pub proof fn lemma_final_op_unique(s: Seq<(AccessPathData, Option<Seq<u8>>)>, i: int)
        requires
            unique_keys(s),
            0 <= i < s.len(),
        ensures
            ws_final_op(s, s[i].0) == s[i].1,
        decreases s.len(),
    {
        if i == s.len() - 1 {
        } else {
            assert(s[i].0 != s[s.len() - 1].0);
            assert(s.drop_last()[i] == s[i]);
            Self::lemma_final_op_unique(s.drop_last(), i);
        }
    }

    /// No two entries of a write-set carry the same key.  The fact is
    /// surfaced for callers that hold the set by reference.
    pub fn check_unique(&self) -> (r: bool)
        ensures
            r,
            unique_keys(self@),
    {
        proof {
            use_type_invariant(self);
        }
        true
    }
}

} // verus!
