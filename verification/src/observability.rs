//! The observability port: a critical-error counter and structured
//! diagnostics for failed reads.
//!
//! Instead of a hidden process-wide singleton, the recorder is a value the
//! overlay cache holds, so tests can assert on call counts
//! deterministically.  Recording never blocks and never fails the read path
//! it serves.

use vstd::prelude::*;

use crate::access_path::{AccessPath, AccessPathData};
use crate::state_key::StateKey;
use crate::state_view::StateViewId;

verus! {

/// The key whose read failed, in whichever addressing scheme the read used.
#[derive(Clone, Debug, Eq, PartialEq)]
pub enum FailedKey {
    /// A legacy-form key.
    Legacy(AccessPath),
    /// A new-form key.
    New(StateKey),
}

/// The mathematical value of a [`FailedKey`].
pub enum FailedKeyData {
    /// A legacy-form key.
    Legacy(AccessPathData),
    /// A new-form key.
    New(Seq<u8>),
}

impl View for FailedKey {
    type V = FailedKeyData;

    open spec fn view(&self) -> FailedKeyData {
        match self {
            FailedKey::Legacy(ap) => FailedKeyData::Legacy(ap@),
            FailedKey::New(sk) => FailedKeyData::New(sk@),
        }
    }
}

/// One structured diagnostic record: the identity of the snapshot whose
/// read failed, and the failed key.
#[derive(Clone, Debug, Eq, PartialEq)]
pub struct ReadFailureRecord {
    /// The diagnostic identity of the snapshot.
    pub id: StateViewId,
    /// The key whose read failed.
    pub key: FailedKey,
}

/// The mathematical value of a [`ReadFailureRecord`].
pub struct ReadFailureData {
    /// The diagnostic identity of the snapshot.
    pub id: StateViewId,
    /// The key whose read failed.
    pub key: FailedKeyData,
}

impl View for ReadFailureRecord {
    type V = ReadFailureData;

    open spec fn view(&self) -> ReadFailureData {
        ReadFailureData { id: self.id, key: self.key@ }
    }
}

/// The counter value after one more critical error: one more, saturating
/// at the largest representable count.
pub open spec fn bumped(n: u64) -> u64 {
    if n < u64::MAX {
        (n + 1) as u64
    } else {
        n
    }
}

/// The observability port: receives fire-and-forget counter increments and
/// structured records when a backing read fails.
#[derive(Debug)]
pub struct Observability {
    critical_errors: u64,
    records: Vec<ReadFailureRecord>,
}

impl Observability {
    /// The recorded diagnostics, oldest first.
    pub closed spec fn records_spec(&self) -> Seq<ReadFailureData> {
        self.records@.map(|i: int, r: ReadFailureRecord| r@)
    }

    /// The number of critical errors recorded so far.
    pub closed spec fn critical_errors_spec(&self) -> u64 {
        self.critical_errors
    }

    /// A fresh recorder: no errors, no records.
    pub fn new() -> (r: Self)
        ensures
            r.critical_errors_spec() == 0,
            r.records_spec() == Seq::<ReadFailureData>::empty(),
    {
        let r = Observability { critical_errors: 0, records: Vec::new() };
        assert(r.records_spec() =~= Seq::<ReadFailureData>::empty());
        r
    }

    /// Counts one critical error and keeps its structured record.
    pub fn record_read_failure(&mut self, id: StateViewId, key: FailedKey)
        ensures
            final(self).critical_errors_spec() == bumped(old(self).critical_errors_spec()),
            final(self).records_spec() == old(self).records_spec().push(
                ReadFailureData { id, key: key@ },
            ),
    {
        let ghost prior = self.records@;
        let ghost kv = key@;
        if self.critical_errors < u64::MAX {
            self.critical_errors = self.critical_errors + 1;
        }
        self.records.push(ReadFailureRecord { id, key });
        assert(self.records@.map(|i: int, r: ReadFailureRecord| r@) =~= prior.map(
            |i: int, r: ReadFailureRecord| r@,
        ).push(ReadFailureData { id, key: kv }));
    }

    /// The number of critical errors recorded so far.
    pub fn critical_errors(&self) -> (r: u64)
        ensures
            r == self.critical_errors_spec(),
    {
        self.critical_errors
    }

    /// The number of diagnostic records kept.
    pub fn record_count(&self) -> (r: usize)
        ensures
            r == self.records_spec().len(),
    {
        self.records.len()
    }

    /// The diagnostic record at `i`, oldest first.
    pub fn record_at(&self, i: usize) -> (r: &ReadFailureRecord)
        requires
            i < self.records_spec().len(),
        ensures
            r@ == self.records_spec()[i as int],
    {
        &self.records[i]
    }
}

} // verus!
